use ginger_db::text::{
    chars_of, contains, is_white_space, join, lines_of, same_text, split, split_once,
    starts_with, string_from_chars, trim,
};

fn strings(v: &[&str]) -> Vec<String> {
    v.iter().map(|s| s.to_string()).collect()
}

#[test]
fn lines_match_std_lines() {
    for text in ["", "a", "a\n", "a\nb", "a\r\nb\r\n", "\n", "a\n\nb", "x\r", "x\ry\n", "\r\n\r\n"] {
        let expected: Vec<String> = text.lines().map(|l| l.to_string()).collect();
        assert_eq!(lines_of(text), expected, "lines of {:?}", text);
    }
}

#[test]
fn trim_matches_std_trim() {
    for text in ["", "  a b  ", "\t\nx\u{3000}", "\u{a0}y\u{85}", "none", "   "] {
        assert_eq!(trim(text), text.trim(), "trim of {:?}", text);
    }
}

#[test]
fn white_space_matches_char_is_whitespace() {
    for c in ['\t', '\n', '\u{b}', '\u{c}', '\r', ' ', '\u{85}', '\u{a0}', '\u{1680}', '\u{2000}',
        '\u{200a}', '\u{2028}', '\u{2029}', '\u{202f}', '\u{205f}', '\u{3000}', 'a', '\u{200b}', '_']
    {
        assert_eq!(is_white_space(c), c.is_whitespace(), "{:?}", c);
    }
}

#[test]
fn split_matches_std_split() {
    for text in ["", "a|b|c", "|", "a||", "no-separator"] {
        let expected: Vec<String> = text.split('|').map(|p| p.to_string()).collect();
        assert_eq!(split(text, '|'), expected);
    }
}

#[test]
fn split_once_takes_the_first_separator() {
    assert_eq!(split_once("web|Up 2 hours|x", '|'), Some(("web".to_string(), "Up 2 hours|x".to_string())));
    assert_eq!(split_once("no separator", '|'), None);
    assert_eq!(split_once("|", '|'), Some((String::new(), String::new())));
}

#[test]
fn split_then_join_gives_back_the_text() {
    for text in ["a|b|c", "", "||", "x"] {
        assert_eq!(join(&split(text, '|'), "|"), text);
    }
}

#[test]
fn join_puts_separator_between_pieces() {
    assert_eq!(join(&strings(&["a", "b", "c"]), " | "), "a | b | c");
    assert_eq!(join(&strings(&["only"]), ", "), "only");
    assert_eq!(join(&[], ", "), "");
}

#[test]
fn contains_and_starts_with_match_std() {
    assert!(contains("Up 3 minutes", "Up"));
    assert!(contains("abc", ""));
    assert!(!contains("ab", "abc"));
    assert!(contains("exited (0)", "exit"));
    assert!(starts_with("name: demo", "name:"));
    assert!(!starts_with("x name:", "name:"));
    assert!(starts_with("", ""));
}

#[test]
fn characters_round_trip() {
    let text = "héllo ⚡";
    let chars = chars_of(text);
    assert_eq!(chars, text.chars().collect::<Vec<_>>());
    assert_eq!(string_from_chars(&chars), text);
    assert!(same_text("abc", "abc"));
    assert!(!same_text("abc", "abd"));
}
