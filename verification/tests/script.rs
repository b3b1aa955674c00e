use prestoedit::highlight::Color;
use prestoedit::script::{Command, Open, SplitKind};

fn parse(text: &str) -> Command {
    Command::parse(text.to_string())
}

#[test]
fn split_kind_by_name() {
    assert_eq!(SplitKind::parse("horizontal".to_string()), SplitKind::Horizontal);
    assert_eq!(SplitKind::parse("h".to_string()), SplitKind::Horizontal);
    assert_eq!(SplitKind::parse("H".to_string()), SplitKind::Horizontal);
    assert_eq!(SplitKind::parse("Vertical".to_string()), SplitKind::Vertical);
    assert_eq!(SplitKind::parse("v".to_string()), SplitKind::Vertical);
    assert_eq!(SplitKind::parse("tabbed".to_string()), SplitKind::Tabbed);
    assert_eq!(SplitKind::parse("anything".to_string()), SplitKind::Tabbed);
    assert_eq!(SplitKind::parse("".to_string()), SplitKind::Tabbed);
}

#[test]
fn split_kind_from_lowercase_is_exact() {
    assert_eq!(SplitKind::from_lowercase("h"), SplitKind::Horizontal);
    assert_eq!(SplitKind::from_lowercase("H"), SplitKind::Tabbed);
    assert_eq!(SplitKind::from_lowercase("vertical"), SplitKind::Vertical);
}

#[test]
fn commands_with_one_argument() {
    assert_eq!(parse("source init.pe"), Command::Source("init.pe".to_string()));
    assert_eq!(parse("src init.pe"), Command::Source("init.pe".to_string()));
    assert_eq!(parse("split h"), Command::Split(SplitKind::Horizontal));
    assert_eq!(parse("s V"), Command::Split(SplitKind::Vertical));
    assert_eq!(parse("s t"), Command::Split(SplitKind::Tabbed));
    assert_eq!(parse("openhex a.bin"), Command::Open("a.bin".to_string(), Open::Hex));
    assert_eq!(parse("oh a.bin"), Command::Open("a.bin".to_string(), Open::Hex));
    assert_eq!(parse("open a.txt"), Command::Open("a.txt".to_string(), Open::Text));
    assert_eq!(parse("  o   a.txt  ignored"), Command::Open("a.txt".to_string(), Open::Text));
}

#[test]
fn commands_that_lack_their_argument_are_incomplete() {
    assert_eq!(parse("source"), Command::Incomplete("source".to_string()));
    assert_eq!(parse("split"), Command::Incomplete("split".to_string()));
    assert_eq!(parse("oh"), Command::Incomplete("oh".to_string()));
    assert_eq!(parse(" open "), Command::Incomplete(" open ".to_string()));
    assert_eq!(parse("bind"), Command::Incomplete("bind".to_string()));
    assert_eq!(parse("auto filetype"), Command::Incomplete("auto filetype".to_string()));
    assert_eq!(parse("set"), Command::Incomplete("set".to_string()));
}

#[test]
fn write_may_name_a_file() {
    assert_eq!(parse("write"), Command::Write(None));
    assert_eq!(parse("w out.txt"), Command::Write(Some("out.txt".to_string())));
}

#[test]
fn bind_holds_a_command() {
    assert_eq!(parse("bind <C-O>"), Command::Bind("<C-O>".to_string(), None));
    assert_eq!(
        parse("bind <C-O> open   a.txt"),
        Command::Bind(
            "<C-O>".to_string(),
            Some(Box::new(Command::Open("a.txt".to_string(), Open::Text)))
        )
    );
    assert_eq!(
        parse("b <C-W> open"),
        Command::Bind("<C-W>".to_string(), Some(Box::new(Command::Incomplete("open".to_string()))))
    );
    assert_eq!(
        parse("b k b j  nothing  here"),
        Command::Bind(
            "k".to_string(),
            Some(Box::new(Command::Bind(
                "j".to_string(),
                Some(Box::new(Command::Unknown("nothing here".to_string())))
            )))
        )
    );
}

#[test]
fn auto_takes_two_words_and_the_rest() {
    assert_eq!(
        parse("auto filetype nim set lsp   nimlsp"),
        Command::Auto("filetype".to_string(), "nim".to_string(), "set lsp nimlsp".to_string())
    );
    assert_eq!(
        parse("a filetype nim"),
        Command::Auto("filetype".to_string(), "nim".to_string(), "".to_string())
    );
}

#[test]
fn set_takes_a_name_and_the_rest() {
    assert_eq!(parse("set lsp"), Command::SetVar("lsp".to_string(), None));
    assert_eq!(
        parse("set lsp nim  lsp"),
        Command::SetVar("lsp".to_string(), Some("nim lsp".to_string()))
    );
}

#[test]
fn commands_without_arguments() {
    assert_eq!(parse("quit"), Command::Close);
    assert_eq!(parse("q"), Command::Close);
    assert_eq!(parse("exit"), Command::Exit);
    assert_eq!(parse("e now"), Command::Exit);
    assert_eq!(parse("log"), Command::Log);
}

#[test]
fn highlight_reads_a_color() {
    assert_eq!(parse("highlight"), Command::Highlight(None));
    assert_eq!(parse("hi fg"), Command::Highlight(Some(("fg".to_string(), None))));
    assert_eq!(
        parse("hi fg #102030"),
        Command::Highlight(Some(("fg".to_string(), Some(Color::Hex { r: 16, g: 32, b: 48 }))))
    );
    assert_eq!(
        parse("hi text %fg"),
        Command::Highlight(Some(("text".to_string(), Some(Color::Link("fg".to_string())))))
    );
    assert_eq!(
        parse("hi text some thing"),
        Command::Highlight(Some(("text".to_string(), Some(Color::Invalid))))
    );
}

#[test]
fn unknown_commands_keep_their_text() {
    assert_eq!(parse(""), Command::Unknown("".to_string()));
    assert_eq!(parse("   "), Command::Unknown("   ".to_string()));
    assert_eq!(parse("frobnicate now"), Command::Unknown("frobnicate now".to_string()));
    assert_eq!(parse("run"), Command::Unknown("run".to_string()));
    assert_eq!(parse("Open a.txt"), Command::Unknown("Open a.txt".to_string()));
}

#[test]
fn a_duplicate_command_is_equal() {
    let cmd = parse("bind <C-H> hi fg #102030");
    assert_eq!(cmd.duplicate(), cmd);
    let cmd = parse("auto filetype nim set lsp nimlsp");
    assert_eq!(cmd.duplicate(), cmd);
}

#[test]
fn comments_end_a_line_of_a_script() {
    assert_eq!(Command::strip_comment("open a.txt // the file"), "open a.txt ");
    assert_eq!(Command::strip_comment("// all comment"), "");
    assert_eq!(Command::strip_comment("no comment / here"), "no comment / here");
    assert_eq!(Command::strip_comment("trailing /"), "trailing /");
    assert_eq!(Command::strip_comment(""), "");
    assert_eq!(Command::strip_comment("a//b//c"), "a");
}

#[test]
fn a_script_is_parsed_line_by_line() {
    let cmds = Command::parse_script("  open a.txt // first\n\nsplit v\r\n// nothing\nquit");
    assert_eq!(
        cmds,
        vec![
            Command::Open("a.txt".to_string(), Open::Text),
            Command::Unknown("".to_string()),
            Command::Split(SplitKind::Vertical),
            Command::Unknown("".to_string()),
            Command::Close,
        ]
    );
    assert_eq!(Command::parse_script(""), vec![]);
    assert_eq!(
        Command::parse_script("  open  "),
        vec![Command::Incomplete("open".to_string())]
    );
}
