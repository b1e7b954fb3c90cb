use sgit::text::{is_white_char, split_trimmed_lines, trim};

#[test]
fn trim_removes_surrounding_whitespace() {
    assert_eq!(trim("  main\n"), "main");
    assert_eq!(trim("feature/x"), "feature/x");
    assert_eq!(trim(" a b \t"), "a b");
}

#[test]
fn trim_of_blank_text_is_empty() {
    assert_eq!(trim(""), "");
    assert_eq!(trim(" \t\r\n "), "");
}

#[test]
fn trim_handles_unicode_whitespace() {
    assert_eq!(trim("\u{3000}名字\u{a0}\u{2009}"), "名字");
}

#[test]
fn trim_agrees_with_std_on_samples() {
    for s in ["", "x", "  x  ", "\u{85}y\u{2028}", "\u{200b}z", "a\r\n", "\u{feff}w "] {
        assert_eq!(trim(s), s.trim(), "on {:?}", s);
    }
}

#[test]
fn whitespace_class_matches_std() {
    for c in ['\t', '\n', '\u{b}', '\u{c}', '\r', ' ', '\u{85}', '\u{a0}', '\u{1680}', '\u{2000}', '\u{200a}', '\u{2028}', '\u{2029}', '\u{202f}', '\u{205f}', '\u{3000}', 'a', '\u{200b}', '\u{feff}', '\u{180e}', '0'] {
        assert_eq!(is_white_char(c), c.is_whitespace(), "on {:?}", c);
    }
}

#[test]
fn lines_split_at_line_feeds() {
    assert_eq!(split_trimmed_lines("origin\nupstream\n"), vec!["origin", "upstream"]);
    assert_eq!(split_trimmed_lines("origin\nupstream"), vec!["origin", "upstream"]);
}

#[test]
fn lines_of_empty_text_are_none() {
    assert!(split_trimmed_lines("").is_empty());
    assert_eq!(split_trimmed_lines("\n"), vec![""]);
}

#[test]
fn lines_drop_carriage_returns_and_keep_blank_lines() {
    assert_eq!(split_trimmed_lines("a\r\n\r\n b \n"), vec!["a", "", "b"]);
}

#[test]
fn lines_agree_with_std_on_samples() {
    for s in ["", "a", "a\n", "a\nb", "a\n\nb\n", "\n\n", " x \r\ny"] {
        let expected: Vec<String> = s.lines().map(|l| l.trim().to_string()).collect();
        assert_eq!(split_trimmed_lines(s), expected, "on {:?}", s);
    }
}
