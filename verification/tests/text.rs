use reels::cut::{split_all, split_once, str_eq, strip_prefix, strip_suffix};

#[test]
fn split_all_agrees_with_std() {
    for text in [
        "", "/", "//", "a", "a/b", "/a/b/", "a//b", "\u{e9}/\u{1f47e}/x", "no separator",
        "/\u{e9}", "\u{e9}/",
    ] {
        let expected: Vec<&str> = text.split('/').collect();
        assert_eq!(split_all(text, b'/'), expected, "{:?}", text);
    }
    assert_eq!(split_all("a.b.c", b'.'), vec!["a", "b", "c"]);
}

#[test]
fn split_once_cuts_at_the_first_separator() {
    assert_eq!(split_once("a/b/c", b'/'), ("a", Some("b/c")));
    assert_eq!(split_once("/b", b'/'), ("", Some("b")));
    assert_eq!(split_once("a/", b'/'), ("a", Some("")));
    assert_eq!(split_once("abc", b'/'), ("abc", None));
    assert_eq!(split_once("", b'/'), ("", None));
    assert_eq!(split_once("\u{e9}\u{e9}/\u{e9}", b'/'), ("\u{e9}\u{e9}", Some("\u{e9}")));
}

#[test]
fn strip_one_byte() {
    assert_eq!(strip_prefix("<a>", b'<'), Some("a>"));
    assert_eq!(strip_prefix("a>", b'<'), None);
    assert_eq!(strip_prefix("", b'<'), None);
    assert_eq!(strip_prefix("<", b'<'), Some(""));
    assert_eq!(strip_prefix("\u{e9}<", b'<'), None);
    assert_eq!(strip_suffix("<a>", b'>'), Some("<a"));
    assert_eq!(strip_suffix("<a", b'>'), None);
    assert_eq!(strip_suffix("", b'>'), None);
    assert_eq!(strip_suffix(">", b'>'), Some(""));
    assert_eq!(strip_suffix("\u{e9}>", b'>'), Some("\u{e9}"));
    assert_eq!(strip_suffix(">\u{e9}", b'>'), None);
}

#[test]
fn equal_texts() {
    assert!(str_eq("", ""));
    assert!(str_eq("abc", "abc"));
    assert!(str_eq("\u{e9}", "\u{e9}"));
    assert!(!str_eq("abc", "abd"));
    assert!(!str_eq("abc", "ab"));
    assert!(!str_eq("", "a"));
    assert!(!str_eq("e", "\u{e9}"));
}
