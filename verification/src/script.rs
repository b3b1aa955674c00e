//! The command language of the editor's scripts and prompt.

use crate::highlight::{color_of, parse_color, Color, ColorView};
use crate::text::{
    chars_of, join_from, joined, lines, lowercase, same_text, split_lines, split_whitespace,
    string_of, to_lowercase, trim, trimmed, words,
};
use vstd::prelude::*;

verus! {

/// How a pane is divided.
#[derive(Debug, PartialEq, Eq, Clone, Copy, Structural)]
pub enum SplitKind {
    Horizontal,
    Vertical,
    Tabbed,
}

/// How a file is shown: as text or as bytes.
#[derive(Debug, PartialEq, Eq, Clone, Copy, Structural)]
pub enum Open {
    Text,
    Hex,
}

/// One command of the editor.
#[derive(Debug, PartialEq)]
pub enum Command {
    Unknown(String),
    Incomplete(String),
    Split(SplitKind),
    Open(String, Open),
    Write(Option<String>),
    Source(String),
    Bind(String, Option<Box<Command>>),
    Highlight(Option<(String, Option<Color>)>),
    SetVar(String, Option<String>),
    Auto(String, String, String),
    Log,
    Run,
    Close,
    Exit,
}

/// A command with its texts as characters.
pub enum CommandView {
    Unknown(Seq<char>),
    Incomplete(Seq<char>),
    Split(SplitKind),
    Open(Seq<char>, Open),
    Write(Option<Seq<char>>),
    Source(Seq<char>),
    Bind(Seq<char>, Option<Box<CommandView>>),
    Highlight(Option<(Seq<char>, Option<ColorView>)>),
    SetVar(Seq<char>, Option<Seq<char>>),
    Auto(Seq<char>, Seq<char>, Seq<char>),
    Log,
    Run,
    Close,
    Exit,
}

/// The kind of split that a word in lower case names: `horizontal` or `h`,
/// `vertical` or `v`; any other word stands for tabs.
pub open spec fn split_kind_of(lower: Seq<char>) -> SplitKind {
    if lower == "horizontal"@ || lower == "h"@ {
        SplitKind::Horizontal
    } else if lower == "vertical"@ || lower == "v"@ {
        SplitKind::Vertical
    } else {
        SplitKind::Tabbed
    }
}

impl SplitKind {
    /// The kind of split that a word in lower case names.
    pub fn from_lowercase(lower: &str) -> (kind: SplitKind)
        ensures
            kind == split_kind_of(lower@),
    {
        if same_text(lower, "horizontal") || same_text(lower, "h") {
            SplitKind::Horizontal
        } else if same_text(lower, "vertical") || same_text(lower, "v") {
            SplitKind::Vertical
        } else {
            SplitKind::Tabbed
        }
    }

    /// The kind of split that a word names, whatever its case.
    pub fn parse(cmd: String) -> (kind: SplitKind)
        ensures
            kind == split_kind_of(lowercase(cmd@)),
    {
        let lower = to_lowercase(cmd.as_str());
        SplitKind::from_lowercase(lower.as_str())
    }
}

/// The word at index `i`, if there is one.
pub open spec fn word_at(toks: Seq<Seq<char>>, i: int) -> Option<Seq<char>> {
    if 0 <= i < toks.len() {
        Some(toks[i])
    } else {
        None
    }
}

/// Whether a word is one of two names of a command.
pub open spec fn names(word: Seq<char>, long: Seq<char>, short: Seq<char>) -> bool {
    word == long || word == short
}

/// The command that the words from index `from` on write; `text` is what
/// the command keeps when it is unknown or lacks an argument.
///
/// The first word names the command. `bind`, `set` and `highlight` take
/// one word and then the rest of the line, with one blank between its
/// words; `auto` takes two words and the rest. The rest of a `bind` is a
/// command itself.
pub open spec fn command_at(toks: Seq<Seq<char>>, from: int, text: Seq<char>) -> CommandView
    decreases toks.len() - from,
{
    if from < 0 || from >= toks.len() {
        CommandView::Unknown(text)
    } else {
        let head = toks[from];
        let first = word_at(toks, from + 1);
        let second = word_at(toks, from + 2);
        if names(head, "source"@, "src"@) {
            match first {
                Some(path) => CommandView::Source(path),
                None => CommandView::Incomplete(text),
            }
        } else if names(head, "split"@, "s"@) {
            match first {
                Some(kind) => CommandView::Split(split_kind_of(lowercase(kind))),
                None => CommandView::Incomplete(text),
            }
        } else if names(head, "openhex"@, "oh"@) {
            match first {
                Some(path) => CommandView::Open(path, Open::Hex),
                None => CommandView::Incomplete(text),
            }
        } else if names(head, "open"@, "o"@) {
            match first {
                Some(path) => CommandView::Open(path, Open::Text),
                None => CommandView::Incomplete(text),
            }
        } else if names(head, "write"@, "w"@) {
            CommandView::Write(first)
        } else if names(head, "bind"@, "b"@) {
            match first {
                Some(key) => if second is Some {
                    CommandView::Bind(
                        key,
                        Some(Box::new(command_at(toks, from + 2, joined(toks, from + 2, ' ')))),
                    )
                } else {
                    CommandView::Bind(key, None)
                },
                None => CommandView::Incomplete(text),
            }
        } else if names(head, "auto"@, "a"@) {
            match (first, second) {
                (Some(var), Some(value)) => CommandView::Auto(var, value, joined(toks, from + 3, ' ')),
                _ => CommandView::Incomplete(text),
            }
        } else if head == "set"@ {
            match first {
                Some(var) => if second is Some {
                    CommandView::SetVar(var, Some(joined(toks, from + 2, ' ')))
                } else {
                    CommandView::SetVar(var, None)
                },
                None => CommandView::Incomplete(text),
            }
        } else if names(head, "quit"@, "q"@) {
            CommandView::Close
        } else if names(head, "exit"@, "e"@) {
            CommandView::Exit
        } else if head == "log"@ {
            CommandView::Log
        } else if names(head, "highlight"@, "hi"@) {
            match first {
                Some(name) => if second is Some {
                    CommandView::Highlight(
                        Some((name, Some(color_of(joined(toks, from + 2, ' '))))),
                    )
                } else {
                    CommandView::Highlight(Some((name, None)))
                },
                None => CommandView::Highlight(None),
            }
        } else {
            CommandView::Unknown(text)
        }
    }
}

/// The command that a line writes.
pub open spec fn command_of(text: Seq<char>) -> CommandView {
    command_at(words(text), 0, text)
}

/// What stands in a line of a script before its comment: everything
/// before the first two slashes in a row.
pub open spec fn code_scan(line: Seq<char>, n: int) -> int
    decreases line.len() - n,
{
    if n < 0 || n + 1 >= line.len() {
        line.len() as int
    } else if line[n] == '/' && line[n + 1] == '/' {
        n
    } else {
        code_scan(line, n + 1)
    }
}

/// A line of a script without its comment.
pub open spec fn code_of(line: Seq<char>) -> Seq<char> {
    line.take(code_scan(line, 0))
}

/// The commands of a script, one for each line: what the line holds
/// before its comment, without the white space around it.
pub open spec fn script_of(text: Seq<char>) -> Seq<CommandView> {
    Seq::new(lines(text).len(), |i: int| command_of(trimmed(code_of(lines(text)[i]))))
}

impl Command {
    /// The command with its texts as characters.
    pub open spec fn view(&self) -> CommandView
        decreases self,
    {
        match self {
            Command::Unknown(s) => CommandView::Unknown(s@),
            Command::Incomplete(s) => CommandView::Incomplete(s@),
            Command::Split(kind) => CommandView::Split(*kind),
            Command::Open(path, how) => CommandView::Open(path@, *how),
            Command::Write(path) => CommandView::Write(
                match path {
                    Some(p) => Some(p@),
                    None => None,
                },
            ),
            Command::Source(path) => CommandView::Source(path@),
            Command::Bind(key, cmd) => CommandView::Bind(
                key@,
                match cmd {
                    Some(c) => Some(Box::new(c.view())),
                    None => None,
                },
            ),
            Command::Highlight(arg) => CommandView::Highlight(
                match arg {
                    Some((name, color)) => Some(
                        (
                            name@,
                            match color {
                                Some(c) => Some(c@),
                                None => None,
                            },
                        ),
                    ),
                    None => None,
                },
            ),
            Command::SetVar(var, value) => CommandView::SetVar(
                var@,
                match value {
                    Some(v) => Some(v@),
                    None => None,
                },
            ),
            Command::Auto(var, value, cmd) => CommandView::Auto(var@, value@, cmd@),
            Command::Log => CommandView::Log,
            Command::Run => CommandView::Run,
            Command::Close => CommandView::Close,
            Command::Exit => CommandView::Exit,
        }
    }

    /// A copy of the command.
    pub fn duplicate(&self) -> (r: Command)
        ensures
            r == *self,
        decreases self,
    {
        match self {
            Command::Unknown(s) => Command::Unknown(s.clone()),
            Command::Incomplete(s) => Command::Incomplete(s.clone()),
            Command::Split(kind) => Command::Split(*kind),
            Command::Open(path, how) => Command::Open(path.clone(), *how),
            Command::Write(path) => Command::Write(
                match path {
                    Some(p) => Some(p.clone()),
                    None => None,
                },
            ),
            Command::Source(path) => Command::Source(path.clone()),
            Command::Bind(key, cmd) => Command::Bind(
                key.clone(),
                match cmd {
                    Some(c) => Some(Box::new(c.duplicate())),
                    None => None,
                },
            ),
            Command::Highlight(arg) => Command::Highlight(
                match arg {
                    Some((name, color)) => Some(
                        (
                            name.clone(),
                            match color {
                                Some(c) => Some(c.clone()),
                                None => None,
                            },
                        ),
                    ),
                    None => None,
                },
            ),
            Command::SetVar(var, value) => Command::SetVar(
                var.clone(),
                match value {
                    Some(v) => Some(v.clone()),
                    None => None,
                },
            ),
            Command::Auto(var, value, cmd) => Command::Auto(var.clone(), value.clone(), cmd.clone()),
            Command::Log => Command::Log,
            Command::Run => Command::Run,
            Command::Close => Command::Close,
            Command::Exit => Command::Exit,
        }
    }

    /// Whether a word is one of two names of a command.
    fn names(word: &String, long: &str, short: &str) -> (r: bool)
        ensures
            r == names(word@, long@, short@),
    {
        same_text(word.as_str(), long) || same_text(word.as_str(), short)
    }

    /// Reads the command that the words from index `from` on write.
    fn parse_at(toks: &Vec<String>, from: usize, text: String) -> (cmd: Command)
        ensures
            cmd.view() == command_at(toks.deep_view(), from as int, text@),
        decreases toks.len() - from,
    {
        if from >= toks.len() {
            return Command::Unknown(text);
        }
        let head = &toks[from];
        let first: Option<String> = if from + 1 < toks.len() {
            Some(toks[from + 1].clone())
        } else {
            None
        };
        let has_second = from + 1 < toks.len() && from + 2 < toks.len();
        if Self::names(head, "source", "src") {
            match first {
                Some(path) => Command::Source(path),
                None => Command::Incomplete(text),
            }
        } else if Self::names(head, "split", "s") {
            match first {
                Some(kind) => Command::Split(SplitKind::parse(kind)),
                None => Command::Incomplete(text),
            }
        } else if Self::names(head, "openhex", "oh") {
            match first {
                Some(path) => Command::Open(path, Open::Hex),
                None => Command::Incomplete(text),
            }
        } else if Self::names(head, "open", "o") {
            match first {
                Some(path) => Command::Open(path, Open::Text),
                None => Command::Incomplete(text),
            }
        } else if Self::names(head, "write", "w") {
            Command::Write(first)
        } else if Self::names(head, "bind", "b") {
            match first {
                Some(key) => if has_second {
                    let rest = join_from(toks, from + 2, ' ');
                    Command::Bind(key, Some(Box::new(Self::parse_at(toks, from + 2, rest))))
                } else {
                    Command::Bind(key, None)
                },
                None => Command::Incomplete(text),
            }
        } else if Self::names(head, "auto", "a") {
            if has_second {
                match first {
                    Some(var) => {
                        let rest = if from + 3 <= toks.len() {
                            join_from(toks, from + 3, ' ')
                        } else {
                            String::new()
                        };
                        Command::Auto(var, toks[from + 2].clone(), rest)
                    },
                    None => Command::Incomplete(text),
                }
            } else {
                Command::Incomplete(text)
            }
        } else if same_text(head.as_str(), "set") {
            match first {
                Some(var) => if has_second {
                    Command::SetVar(var, Some(join_from(toks, from + 2, ' ')))
                } else {
                    Command::SetVar(var, None)
                },
                None => Command::Incomplete(text),
            }
        } else if Self::names(head, "quit", "q") {
            Command::Close
        } else if Self::names(head, "exit", "e") {
            Command::Exit
        } else if same_text(head.as_str(), "log") {
            Command::Log
        } else if Self::names(head, "highlight", "hi") {
            match first {
                Some(name) => if has_second {
                    match parse_color(join_from(toks, from + 2, ' ')) {
                        Some(color) => Command::Highlight(Some((name, Some(color)))),
                        None => Command::Highlight(Some((name, None))),
                    }
                } else {
                    Command::Highlight(Some((name, None)))
                },
                None => Command::Highlight(None),
            }
        } else {
            Command::Unknown(text)
        }
    }

    /// Reads the command that a line writes.
    pub fn parse(cmd: String) -> (r: Command)
        ensures
            r.view() == command_of(cmd@),
    {
        let toks = split_whitespace(cmd.as_str());
        Self::parse_at(&toks, 0, cmd)
    }

    /// A line of a script without its comment.
    pub fn strip_comment(line: &str) -> (r: String)
        ensures
            r@ == code_of(line@),
    {
        let text = chars_of(line);
        let mut end: usize = 0;
        while text.len() - end >= 2 && !(text[end] == '/' && text[end + 1] == '/')
            invariant
                end <= text.len(),
                code_scan(text@, 0) == code_scan(text@, end as int),
            decreases text.len() - end,
        {
            end = end + 1;
        }
        let end: usize = if text.len() - end < 2 {
            text.len()
        } else {
            end
        };
        let mut code: Vec<char> = Vec::new();
        let mut i: usize = 0;
        while i < end
            invariant
                i <= end <= text.len(),
                code@ == text@.take(i as int),
            decreases end - i,
        {
            code.push(text[i]);
            i = i + 1;
        }
        string_of(&code)
    }

    /// Reads the commands of a script, one for each line.
    pub fn parse_script(text: &str) -> (cmds: Vec<Command>)
        ensures
            cmds.len() == script_of(text@).len(),
            forall|i: int| 0 <= i < cmds.len() ==> (#[trigger] cmds[i]).view() == script_of(text@)[i],
    {
        let rows = split_lines(text);
        let mut cmds: Vec<Command> = Vec::new();
        let mut i: usize = 0;
        while i < rows.len()
            invariant
                i <= rows.len(),
                rows.deep_view() == lines(text@),
                cmds.len() == i,
                forall|k: int| 0 <= k < i ==> (#[trigger] cmds[k]).view() == script_of(text@)[k],
            decreases rows.len() - i,
        {
            let code = Self::strip_comment(rows[i].as_str());
            let cmd = Self::parse(trim(code.as_str()));
            cmds.push(cmd);
            i = i + 1;
        }
        cmds
    }
}

} // verus!
