use prestoedit::text::{
    chars_of, format_number, is_whitespace, join_from, pad_left, same_text, split_lines,
    split_whitespace, string_of, to_ascii_uppercase, trim,
};

fn strings(items: &[&str]) -> Vec<String> {
    items.iter().map(|s| s.to_string()).collect()
}

#[test]
fn chars_and_back() {
    let v = chars_of("héllo");
    assert_eq!(v, vec!['h', 'é', 'l', 'l', 'o']);
    assert_eq!(string_of(&v), "héllo");
}

#[test]
fn same_text_compares_characters() {
    assert!(same_text("abc", "abc"));
    assert!(!same_text("abc", "abd"));
    assert!(!same_text("abc", "ab"));
    assert!(same_text("", ""));
}

#[test]
fn whitespace_is_unicode_white_space() {
    for c in [' ', '\t', '\n', '\r', '\u{0b}', '\u{0c}', '\u{85}', '\u{a0}', '\u{1680}', '\u{2003}',
        '\u{2028}', '\u{2029}', '\u{202f}', '\u{205f}', '\u{3000}']
    {
        assert!(is_whitespace(c));
        assert!(c.is_whitespace());
    }
    for c in ['a', '0', '\u{200b}', '\u{feff}', '_'] {
        assert!(!is_whitespace(c));
        assert!(!c.is_whitespace());
    }
}

#[test]
fn whitespace_agrees_with_std_everywhere() {
    let mut n: u32 = 0;
    while n < 0x11_0000 {
        if let Some(c) = char::from_u32(n) {
            assert_eq!(is_whitespace(c), c.is_whitespace());
        }
        n += 1;
    }
}

#[test]
fn ascii_uppercase() {
    assert_eq!(to_ascii_uppercase('a'), 'A');
    assert_eq!(to_ascii_uppercase('z'), 'Z');
    assert_eq!(to_ascii_uppercase('A'), 'A');
    assert_eq!(to_ascii_uppercase(':'), ':');
    assert_eq!(to_ascii_uppercase('é'), 'é');
}

#[test]
fn numbers_are_formatted_like_format() {
    assert_eq!(string_of(&format_number(7, 10, 4, ' ')), format!("{:>4}", 7));
    assert_eq!(string_of(&format_number(12345, 10, 4, ' ')), format!("{:>4}", 12345));
    assert_eq!(string_of(&format_number(0, 10, 4, ' ')), "   0");
    assert_eq!(string_of(&format_number(0x1f, 16, 8, '0')), format!("{:08X}", 0x1f));
    assert_eq!(string_of(&format_number(0xab, 16, 2, '0')), "AB");
    assert_eq!(string_of(&format_number(5, 16, 2, '0')), "05");
    assert_eq!(string_of(&format_number(u64::MAX, 16, 8, '0')), format!("{:08X}", u64::MAX));
    assert_eq!(string_of(&format_number(u64::MAX, 10, 1, ' ')), format!("{}", u64::MAX));
}

#[test]
fn pad_left_fills_to_the_width() {
    assert_eq!(string_of(&pad_left(&chars_of("lsp"), 6, ' ')), "   lsp");
    assert_eq!(string_of(&pad_left(&chars_of("toolong"), 3, ' ')), "toolong");
}

#[test]
fn split_whitespace_like_std() {
    for text in ["", "   ", "open a.txt", "  bind <C-O>   open   x ", "a\tb\nc", "one"] {
        let expect: Vec<String> = text.split_whitespace().map(|s| s.to_string()).collect();
        assert_eq!(split_whitespace(text), expect);
    }
}

#[test]
fn join_from_puts_one_separator_between_parts() {
    let parts = strings(&["bind", "<C-O>", "open", "x"]);
    assert_eq!(join_from(&parts, 2, ' '), "open x");
    assert_eq!(join_from(&parts, 0, ' '), "bind <C-O> open x");
    assert_eq!(join_from(&parts, 3, ' '), "x");
    assert_eq!(join_from(&parts, 4, ' '), "");
    assert_eq!(join_from(&parts, 9, ' '), "");
}

#[test]
fn split_lines_like_std() {
    for text in ["", "\n", "a", "a\n", "a\nb", "a\r\nb\r\n", "a\n\nb", "a\rb\n", "x\r", "\r\n\r\n",
        "last\r\r\n"]
    {
        let expect: Vec<String> = text.lines().map(|s| s.to_string()).collect();
        assert_eq!(split_lines(text), expect, "for {:?}", text);
    }
}

#[test]
fn trim_like_std() {
    for text in ["", "   ", " a b ", "a", "\t x\n", "\u{3000}wide\u{a0}"] {
        assert_eq!(trim(text), text.trim());
    }
}
