use reels::url_pattern::{InvalidUrlPattern, SegmentPattern, SegmentPatternValue, UrlPattern};

#[test]
fn parsing_and_to_string() {
    let pat: UrlPattern = "/a/<b>/<c..>".try_into().unwrap();
    assert_eq!(pat.to_string(), "/a/<b>/<c..>");
}

#[test]
fn parse_root() {
    let pat: UrlPattern = "/".try_into().unwrap();
    assert!(pat.match_str("/").is_some());
    assert!(pat.match_str("/a").is_none());
    assert!(pat.match_str("//").is_none());
}

#[test]
fn fixed_patterns() {
    let pat: UrlPattern = "/a/b/c".try_into().unwrap();
    assert!(pat.match_str("/a/b/c").is_some());
    assert!(pat.match_str("/a/b/d").is_none());
    assert!(pat.match_str("/b/b/c").is_none());
    assert!(pat.match_str("/a/b").is_none());
    assert!(pat.match_str("/").is_none());
}

#[test]
fn wildcard_patterns() {
    let pat: UrlPattern = "/a/b/<capture>".try_into().unwrap();
    assert!(pat.match_str("/a/b").is_none());
    assert!(pat.match_str("/a/b/c/d").is_none());
    let values = pat.match_str("/a/b/c").unwrap();
    if let [SegmentPatternValue::Wildcard(capture)] = &values[..] {
        assert_eq!(*capture, "c");
    } else {
        panic!("Invalid value");
    }

    let pat: UrlPattern = "/a/<capture>/c".try_into().unwrap();
    assert!(pat.match_str("/a/b").is_none());
    let values = pat.match_str("/a/b/c").unwrap();
    if let [SegmentPatternValue::Wildcard(capture)] = &values[..] {
        assert_eq!(*capture, "b");
    } else {
        panic!("Invalid value");
    }

    let pat: UrlPattern = "/<capture>/b/c".try_into().unwrap();
    assert!(pat.match_str("//b/c").is_some());
    let values = pat.match_str("/a/b/c").unwrap();
    if let [SegmentPatternValue::Wildcard(capture)] = &values[..] {
        assert_eq!(*capture, "a");
    } else {
        panic!("Invalid value");
    }

    let pat: UrlPattern = "/<cap1>/<cap2>/<cap3>".try_into().unwrap();
    let values = pat.match_str("/a/b/c").unwrap();
    if let [SegmentPatternValue::Wildcard(cap1), SegmentPatternValue::Wildcard(cap2), SegmentPatternValue::Wildcard(cap3)] =
        &values[..]
    {
        assert_eq!(*cap1, "a");
        assert_eq!(*cap2, "b");
        assert_eq!(*cap3, "c");
    } else {
        panic!("Invalid value");
    }
}

#[test]
fn kleene_patterns() {
    let pat: UrlPattern = "/<capture..>".try_into().unwrap();
    let values = pat.match_str("/a/b/c").unwrap();
    if let [SegmentPatternValue::WildcardKleene(capture)] = &values[..] {
        assert_eq!(
            *capture,
            vec!["a".to_owned(), "b".to_owned(), "c".to_owned()]
        );
    } else {
        panic!("Invalid value");
    }

    let values = pat.match_str("/").unwrap();
    if let [SegmentPatternValue::WildcardKleene(capture)] = &values[..] {
        assert_eq!(capture.len(), 1);
        assert_eq!(capture[0], "");
    } else {
        panic!("Invalid value");
    }
}

#[test]
fn mixed_patterns() {
    let pat: UrlPattern = "/<capture..>".try_into().unwrap();
    let values = pat.match_str("/a/b/c").unwrap();
    if let [SegmentPatternValue::WildcardKleene(capture)] = &values[..] {
        assert_eq!(
            *capture,
            vec!["a".to_owned(), "b".to_owned(), "c".to_owned()]
        );
    } else {
        panic!("Invalid value");
    }

    let values = pat.match_str("/").unwrap();
    if let [SegmentPatternValue::WildcardKleene(capture)] = &values[..] {
        assert_eq!(capture.len(), 1);
        assert_eq!(capture[0], "");
    } else {
        panic!("Invalid value");
    }
}

#[test]
fn kleene_before_the_end_is_refused() {
    assert_eq!(
        UrlPattern::parse("/<a..>/b").err(),
        Some(InvalidUrlPattern::InvalidKleenePosition)
    );
    assert!(UrlPattern::parse("/b/<a..>").is_ok());
}

#[test]
fn template_must_begin_with_a_slash() {
    assert_eq!(
        UrlPattern::parse("a/b").err(),
        Some(InvalidUrlPattern::MissingForwardSlash)
    );
    assert_eq!(
        UrlPattern::parse("").err(),
        Some(InvalidUrlPattern::MissingForwardSlash)
    );
    assert_eq!(
        UrlPattern::parse("<a>").err(),
        Some(InvalidUrlPattern::MissingForwardSlash)
    );
}

#[test]
fn capture_must_close() {
    assert_eq!(
        UrlPattern::parse("/<a").err(),
        Some(InvalidUrlPattern::MissingClosingAngleBracket)
    );
    assert_eq!(
        UrlPattern::parse("/<").err(),
        Some(InvalidUrlPattern::MissingClosingAngleBracket)
    );
    assert_eq!(
        UrlPattern::parse("/<a>b").err(),
        Some(InvalidUrlPattern::MissingClosingAngleBracket)
    );
}

#[test]
fn capture_name_must_be_an_identifier() {
    for template in ["/<>", "/<..>", "/<1a>", "/<a-b>", "/<a b>", "/<a.>", "/<.>", "/<a...>"] {
        assert_eq!(
            UrlPattern::parse(template).err(),
            Some(InvalidUrlPattern::InvalidIdentifier),
            "{}",
            template
        );
    }
    for template in ["/<_>", "/<a1>", "/<_a..>", "/<\u{e9}t\u{e9}>", "/<Z_9>"] {
        assert!(UrlPattern::parse(template).is_ok(), "{}", template);
    }
    // A digit beyond ASCII may continue a name and may not open one.
    assert!(UrlPattern::parse("/<a\u{0663}>").is_ok());
    assert_eq!(
        UrlPattern::parse("/<\u{0663}a>").err(),
        Some(InvalidUrlPattern::InvalidIdentifier)
    );
}

#[test]
fn first_failure_is_reported() {
    assert_eq!(
        UrlPattern::parse("/<a..>/<").err(),
        Some(InvalidUrlPattern::InvalidKleenePosition)
    );
    assert_eq!(
        UrlPattern::parse("/<1>/<a..>/b").err(),
        Some(InvalidUrlPattern::InvalidIdentifier)
    );
}

#[test]
fn literals_are_percent_encoded() {
    let pat = UrlPattern::parse("/a b/\u{e9}/x~y").unwrap();
    assert_eq!(pat.to_string(), "/a%20b/%C3%A9/x~y");
    assert!(pat.match_str("/a%20b/%C3%A9/x~y").is_some());
    assert!(pat.match_str("/a b/\u{e9}/x~y").is_none());
    match SegmentPattern::parse("50%").unwrap() {
        SegmentPattern::Fixed(literal) => assert_eq!(literal, "50%25"),
        _ => panic!("a literal was expected"),
    }
}

#[test]
fn render_round_trip() {
    for template in ["/", "/a/b/c", "/a/<b>/<c..>", "//", "/a//<x>", "/users/<uid>"] {
        let pat = UrlPattern::parse(template).unwrap();
        assert_eq!(pat.to_string(), template);
        let again = UrlPattern::parse(&pat.to_string()).unwrap();
        assert_eq!(again.to_string(), template);
        assert_eq!(again.len(), pat.len());
    }
    let pat = UrlPattern::parse("/a b/<x>").unwrap();
    assert_eq!(pat.to_string(), "/a%20b/<x>");
    let again = UrlPattern::parse(&pat.to_string()).unwrap();
    assert_eq!(again.to_string(), "/a%2520b/<x>");
    assert_eq!(again.len(), 2);
}

#[test]
fn empty_segments() {
    let pat = UrlPattern::parse("/a//b").unwrap();
    assert_eq!(pat.len(), 3);
    assert!(pat.match_str("/a//b").is_some());
    assert!(pat.match_str("/a/b").is_none());
    let pat = UrlPattern::parse("/a/").unwrap();
    assert!(pat.match_str("/a/").is_some());
    assert!(pat.match_str("/a").is_none());
}

#[test]
fn kleene_after_a_prefix() {
    let pat = UrlPattern::parse("/static/<path..>").unwrap();
    let values = pat.match_str("/static/css/site.css").unwrap();
    match &values[..] {
        [SegmentPatternValue::WildcardKleene(rest)] => assert_eq!(*rest, vec!["css", "site.css"]),
        _ => panic!("Invalid value"),
    }
    let values = pat.match_str("/static").unwrap();
    match &values[..] {
        [SegmentPatternValue::WildcardKleene(rest)] => assert!(rest.is_empty()),
        _ => panic!("Invalid value"),
    }
    assert!(pat.match_str("/other/x").is_none());
}

#[test]
fn match_path_wants_a_leading_slash() {
    let pat = UrlPattern::parse("/a/<x>").unwrap();
    assert!(pat.match_path("/a/b").is_some());
    assert!(pat.match_path("a/b").is_none());
    assert!(pat.match_path("").is_none());
    // `match_str` drops whatever stands before the first slash.
    assert!(pat.match_str("zzz/a/b").is_some());
}

#[test]
fn match_iter_takes_segments() {
    let pat = UrlPattern::parse("/<a>/x/<rest..>").unwrap();
    let values = pat.match_iter(&["1", "x", "2", "3"]).unwrap();
    match &values[..] {
        [SegmentPatternValue::Wildcard(a), SegmentPatternValue::WildcardKleene(rest)] => {
            assert_eq!(*a, "1");
            assert_eq!(*rest, vec!["2", "3"]);
        }
        _ => panic!("Invalid value"),
    }
    assert!(pat.match_iter(&["1", "y"]).is_none());
    assert!(pat.match_iter(&[]).is_none());
}

#[test]
fn match_url_reads_the_path_segments() {
    let pat = UrlPattern::parse("/countries/<name>").unwrap();
    let url = url::Url::parse("https://example.com/countries/vi\u{1ec7}t nam?x=1").unwrap();
    let values = pat.match_url(&url).unwrap();
    match &values[..] {
        [SegmentPatternValue::Wildcard(name)] => assert_eq!(*name, "vi%E1%BB%87t%20nam"),
        _ => panic!("Invalid value"),
    }
    let url = url::Url::parse("data:text/plain,HelloWorld").unwrap();
    assert!(pat.match_url(&url).is_none());
    let root = UrlPattern::parse("/").unwrap();
    let url = url::Url::parse("https://example.com").unwrap();
    assert!(root.match_url(&url).is_some());
}

#[test]
fn error_messages() {
    assert_eq!(
        InvalidUrlPattern::MissingForwardSlash.to_string(),
        "Url pattern is missing leading forward slash"
    );
    assert_eq!(
        InvalidUrlPattern::InvalidIdentifier.to_string(),
        "Url capture is not a valid identifier"
    );
    assert_eq!(
        InvalidUrlPattern::MissingClosingAngleBracket.to_string(),
        "Url pattern is missing closing `>` for capture"
    );
    assert_eq!(
        InvalidUrlPattern::InvalidKleenePosition.to_string(),
        "Wildcard kleene capture can only be the last segment pattern"
    );
}

#[test]
fn clone_keeps_the_pattern() {
    let pat = UrlPattern::parse("/a/<b>/<c..>").unwrap();
    assert_eq!(pat.clone().to_string(), "/a/<b>/<c..>");
}
