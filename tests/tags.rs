use seekcode::tags::{read_tags, tags_from_parsed, write_tags};

#[test]
fn empty_tags_write_an_explicit_empty_list() {
    let text = write_tags(&Vec::new());
    assert_eq!(text, "[]");
    assert!(read_tags(&text).is_empty());
}

#[test]
fn tags_round_trip() {
    let tags = vec!["git".to_string(), "shell".to_string(), "with \"quote\"".to_string()];
    let text = write_tags(&tags);
    assert_eq!(text, r#"["git","shell","with \"quote\""]"#);
    assert_eq!(read_tags(&text), tags);
}

#[test]
fn malformed_tags_read_as_empty() {
    assert!(read_tags("").is_empty());
    assert!(read_tags("not json").is_empty());
    assert!(read_tags("{\"a\":1}").is_empty());
    assert!(read_tags("[1, 2]").is_empty());
}

#[test]
fn stored_tags_are_parsed() {
    assert_eq!(read_tags(r#"["vue", "typescript"]"#), vec!["vue".to_string(), "typescript".to_string()]);
}

#[test]
fn parsed_tags_fall_back_to_empty() {
    let parsed = Some(vec!["a".to_string()]);
    assert_eq!(tags_from_parsed("[\"a\"]", parsed.clone()), vec!["a".to_string()]);
    assert!(tags_from_parsed("", parsed).is_empty());
    assert!(tags_from_parsed("oops", None).is_empty());
}

#[test]
fn tags_escape_like_compact_json() {
    let tags = vec![
        "a\u{1}b\u{8}\t\n\u{c}\r\"\\/é".to_string(),
        "\u{1f}".to_string(),
        String::new(),
    ];
    let text = write_tags(&tags);
    assert_eq!(text, "[\"a\\u0001b\\b\\t\\n\\f\\r\\\"\\\\/é\",\"\\u001f\",\"\"]");
    assert_eq!(read_tags(&text), tags);
}
