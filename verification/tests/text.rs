use wifilogin::text::{
    concat2, concat3, contains, decimal, is_blank, is_white_space, join_words, replace, same, trim,
    trim_line_end,
};

#[test]
fn white_space_is_that_of_unicode() {
    for c in (0..=0x10ffffu32).filter_map(char::from_u32) {
        assert_eq!(is_white_space(c), c.is_whitespace(), "{c:?}");
    }
}

#[test]
fn trimming_is_that_of_the_standard_library() {
    for text in ["", " ", "a", " a ", "\t a b \u{3000}\n", "\u{85}x", "x\u{200b} "] {
        assert_eq!(trim(text), text.trim());
        assert_eq!(is_blank(text), text.trim().is_empty());
    }
}

#[test]
fn line_ends_are_cut() {
    for text in ["", "\n", "a\r\n", "a\n\n\r", "a\nb", "\na", "a "] {
        assert_eq!(trim_line_end(text), text.trim_end_matches(['\r', '\n']));
    }
}

#[test]
fn searching_finds_every_place() {
    for (hay, needle) in [
        ("", ""),
        ("a", ""),
        ("", "a"),
        ("abc", "abc"),
        ("abc", "bc"),
        ("abab", "bab"),
        ("aab", "ab"),
        ("abc", "abcd"),
        ("\u{2014}x", "x"),
    ] {
        assert_eq!(contains(hay, needle), hay.contains(needle), "{hay:?} {needle:?}");
    }
}

#[test]
fn replacing_is_that_of_the_standard_library() {
    for text in ["", "@E@", "x@E@y@E@", "@E@E@", "@E", "@@E@@"] {
        assert_eq!(replace(text, "@E@", "/bin/\u{e9}"), text.replace("@E@", "/bin/\u{e9}"));
    }
}

#[test]
fn numbers_are_written_in_decimal() {
    for n in [0, 7, 9, 10, 99, 100, 1048576, 1234567890, u64::MAX] {
        assert_eq!(decimal(n), n.to_string());
    }
}

#[test]
fn texts_are_put_together() {
    assert!(same("a\u{2014}", "a\u{2014}"));
    assert!(!same("a", "A"));
    assert_eq!(concat2("a", "b"), "ab");
    assert_eq!(concat3("a", "b", "c"), "abc");
    assert_eq!(join_words(&vec![]), "");
    assert_eq!(join_words(&vec!["a".into()]), "a");
    assert_eq!(join_words(&vec!["a".into(), "b".into(), "c".into()]), "a b c");
}
