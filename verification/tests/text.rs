use openstratos::text::{
    char_is_space, chars_of, contains_text, join, same_text, split_text, strip_line_end_text,
    trim_text,
};

#[test]
fn chars_are_listed_in_order() {
    assert_eq!(chars_of("a\u{e9}z"), vec!['a', '\u{e9}', 'z']);
    assert!(chars_of("").is_empty());
}

#[test]
fn same_text_compares_characters() {
    assert!(same_text("OK", "OK"));
    assert!(!same_text("OK", "OK "));
    assert!(!same_text("ok", "OK"));
    assert!(same_text("", ""));
}

#[test]
fn join_appends() {
    assert_eq!(join("AT+", "CBC"), "AT+CBC");
    assert_eq!(join("", ""), "");
}

#[test]
fn contains_finds_a_needle_anywhere() {
    assert!(contains_text("+CBC: 0,85,4100", "+CBC:"));
    assert!(contains_text("xx+CMGS: 12", "+CMGS"));
    assert!(contains_text("abc", "c"));
    assert!(contains_text("abc", ""));
    assert!(contains_text("", ""));
    assert!(!contains_text("", "a"));
    assert!(!contains_text("+CB", "+CBC:"));
    assert!(!contains_text("+CBD: +CB C:", "+CBC:"));
    assert!(contains_text("aab", "ab"));
}

#[test]
fn split_matches_the_standard_split() {
    for line in ["+CBC: 0,85,4100", "", ",", "a,", ",a", "a,,b", "no commas", ",,,"] {
        let expected: Vec<String> = line.split(',').map(|s| s.to_string()).collect();
        assert_eq!(split_text(line, ','), expected, "{:?}", line);
    }
    assert_eq!(split_text("+CBC: 0,85,4100", ','), vec!["+CBC: 0", "85", "4100"]);
}

#[test]
fn trim_matches_the_standard_trim() {
    for s in ["  OK\r\n", "OK", "", "   ", "\tGoing Down\n", "\u{a0}x\u{3000}", "a b", "\u{2003}q\u{85}"] {
        assert_eq!(trim_text(s), s.trim(), "{:?}", s);
    }
}

#[test]
fn white_space_is_what_the_standard_says() {
    for n in 0u32..0x3100 {
        if let Some(c) = char::from_u32(n) {
            assert_eq!(char_is_space(c), c.is_whitespace(), "{:x}", n);
        }
    }
}

#[test]
fn line_end_is_stripped_once() {
    assert_eq!(strip_line_end_text("OK\r\n"), "OK");
    assert_eq!(strip_line_end_text("OK\n"), "OK");
    assert_eq!(strip_line_end_text("OK\r"), "OK\r");
    assert_eq!(strip_line_end_text("OK"), "OK");
    assert_eq!(strip_line_end_text("OK\n\n"), "OK\n");
    assert_eq!(strip_line_end_text("\r\n"), "");
    assert_eq!(strip_line_end_text("\n"), "");
    assert_eq!(strip_line_end_text(""), "");
    assert_eq!(strip_line_end_text("> \r\n"), "> ");
}
