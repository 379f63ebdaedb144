use cycle_certs::json::JsonValue;

fn text(s: &str) -> JsonValue {
    JsonValue::Text(s.to_string())
}

fn object(members: Vec<(&str, JsonValue)>) -> JsonValue {
    JsonValue::Object(members.into_iter().map(|(name, v)| (name.to_string(), v)).collect())
}

#[test]
fn a_document_is_read_into_a_tree() {
    let doc = JsonValue::parse(b" {\"a\": [null, true, 1, \"x\"], \"b\": {\"c\": false}} ").unwrap();
    assert_eq!(
        doc,
        object(vec![
            (
                "a",
                JsonValue::Array(vec![
                    JsonValue::Null,
                    JsonValue::Bool(true),
                    JsonValue::Number(Some(1)),
                    text("x"),
                ]),
            ),
            ("b", object(vec![("c", JsonValue::Bool(false))])),
        ])
    );
}

#[test]
fn numbers_keep_their_value_where_they_are_unsigned_integers() {
    assert_eq!(JsonValue::parse(b"0"), Some(JsonValue::Number(Some(0))));
    assert_eq!(JsonValue::parse(b"18446744073709551615"), Some(JsonValue::Number(Some(u64::MAX))));
    assert_eq!(JsonValue::parse(b"18446744073709551616"), Some(JsonValue::Number(None)));
    assert_eq!(JsonValue::parse(b"-1"), Some(JsonValue::Number(None)));
    assert_eq!(JsonValue::parse(b"1.0"), Some(JsonValue::Number(None)));
    assert_eq!(JsonValue::parse(b"1e3"), Some(JsonValue::Number(None)));
}

#[test]
fn escapes_are_resolved() {
    assert_eq!(JsonValue::parse(b"\"a\\nb\\u00e9\""), Some(text("a\nb\u{e9}")));
}

#[test]
fn what_is_no_document_is_rejected() {
    assert_eq!(JsonValue::parse(b""), None);
    assert_eq!(JsonValue::parse(b"{"), None);
    assert_eq!(JsonValue::parse(b"{\"a\": 1,}"), None);
    assert_eq!(JsonValue::parse(b"1 2"), None);
    assert_eq!(JsonValue::parse(b"'single'"), None);
    assert_eq!(JsonValue::parse(&[0xff, 0xfe]), None);
}

#[test]
fn a_member_is_found_by_its_name() {
    let doc = object(vec![("a", text("1")), ("b", text("2")), ("a", text("3"))]);
    assert_eq!(doc.get("a"), Some(&text("1")));
    assert_eq!(doc.get("b"), Some(&text("2")));
    assert_eq!(doc.get("c"), None);
    assert_eq!(doc.get(""), None);
    assert_eq!(text("a").get("a"), None);
    assert_eq!(JsonValue::Array(vec![text("a")]).get("a"), None);
}

#[test]
fn a_later_member_of_the_same_name_wins_when_a_document_is_read() {
    let doc = JsonValue::parse(b"{\"a\": 1, \"a\": 2}").unwrap();
    assert_eq!(doc.get("a"), Some(&JsonValue::Number(Some(2))));
}

#[test]
fn members_are_read_by_kind() {
    let doc = object(vec![
        ("text", text("t")),
        ("null", JsonValue::Null),
        ("count", JsonValue::Number(Some(7))),
        ("large", JsonValue::Number(Some(1 << 32))),
        ("list", JsonValue::Array(vec![text("a"), text("b")])),
        ("mixed", JsonValue::Array(vec![text("a"), JsonValue::Null])),
        ("empty", JsonValue::Array(vec![])),
    ]);
    assert_eq!(doc.get_text("text"), Some("t".to_string()));
    assert_eq!(doc.get_text("null"), None);
    assert_eq!(doc.get_text("missing"), None);
    assert_eq!(doc.get_optional_text("text"), Some(Some("t".to_string())));
    assert_eq!(doc.get_optional_text("null"), Some(None));
    assert_eq!(doc.get_optional_text("missing"), Some(None));
    assert_eq!(doc.get_optional_text("count"), None);
    assert_eq!(doc.get_count("count"), Some(7));
    assert_eq!(doc.get_count("large"), None);
    assert_eq!(doc.get_count("text"), None);
    assert_eq!(doc.get_count("missing"), None);
    assert_eq!(doc.get_texts("list"), Some(vec!["a".to_string(), "b".to_string()]));
    assert_eq!(doc.get_texts("empty"), Some(vec![]));
    assert_eq!(doc.get_texts("mixed"), None);
    assert_eq!(doc.get_texts("text"), None);
    assert_eq!(doc.get_texts("missing"), None);
}
