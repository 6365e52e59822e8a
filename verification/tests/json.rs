use grounded_dispatch::json::{parse, Json};

fn text(value: &str) -> Json {
    Json::Text(value.to_string())
}

#[test]
fn parse_reads_scalars() {
    assert_eq!(parse(b"null"), Some(Json::Null));
    assert_eq!(parse(b"true"), Some(Json::Bool(true)));
    assert_eq!(parse(b"false"), Some(Json::Bool(false)));
    assert_eq!(parse(b"\"hi\""), Some(text("hi")));
    assert_eq!(parse(b"42"), Some(Json::Number("42".to_string())));
    assert_eq!(parse(b"-7"), Some(Json::Number("-7".to_string())));
    assert_eq!(parse(b"12.5"), Some(Json::Number("12.5".to_string())));
}

#[test]
fn parse_reads_nested_documents() {
    let parsed = parse(br#"{"a": [1, {"b": "c"}], "d": null}"#);
    let expected = Json::Object(vec![
        (
            "a".to_string(),
            Json::Array(vec![
                Json::Number("1".to_string()),
                Json::Object(vec![("b".to_string(), text("c"))]),
            ]),
        ),
        ("d".to_string(), Json::Null),
    ]);
    assert_eq!(parsed, Some(expected));
}

#[test]
fn parse_unescapes_strings() {
    let body = "\"line\\nbreak \u{e9}\"";
    assert_eq!(parse(body.as_bytes()), Some(text("line\nbreak \u{e9}")));
}

#[test]
fn parse_refuses_what_is_not_json() {
    assert_eq!(parse(b""), None);
    assert_eq!(parse(b"not json"), None);
    assert_eq!(parse(b"{\"a\": }"), None);
    assert_eq!(parse(b"{\"a\": 1} trailing"), None);
    assert_eq!(parse(b"<html></html>"), None);
    assert_eq!(parse(&[0xff, 0xfe]), None);
}

#[test]
fn parse_refuses_a_document_nested_too_deep() {
    let mut deep = Vec::new();
    for _ in 0..200 {
        deep.push(b'[');
    }
    for _ in 0..200 {
        deep.push(b']');
    }
    assert_eq!(parse(&deep), None);
}

#[test]
fn parse_keeps_the_last_of_two_members_with_one_name() {
    let parsed = parse(br#"{"a": 1, "a": 2}"#).unwrap();
    assert_eq!(parsed.get("a"), Some(&Json::Number("2".to_string())));
}

#[test]
fn get_finds_members_of_objects_only() {
    let object = Json::Object(vec![
        ("one".to_string(), text("1")),
        ("two".to_string(), Json::Null),
    ]);
    assert_eq!(object.get("one"), Some(&text("1")));
    assert_eq!(object.get("two"), Some(&Json::Null));
    assert_eq!(object.get("three"), None);
    assert_eq!(object.get(""), None);
    assert_eq!(Json::Array(vec![text("one")]).get("one"), None);
    assert_eq!(text("one").get("one"), None);
    assert_eq!(Json::Null.get("one"), None);
}

#[test]
fn get_finds_the_first_of_two_members_with_one_name() {
    let object = Json::Object(vec![
        ("k".to_string(), text("first")),
        ("k".to_string(), text("second")),
    ]);
    assert_eq!(object.get("k"), Some(&text("first")));
}

#[test]
fn at_finds_elements_of_arrays_only() {
    let array = Json::Array(vec![text("a"), text("b")]);
    assert_eq!(array.at(0), Some(&text("a")));
    assert_eq!(array.at(1), Some(&text("b")));
    assert_eq!(array.at(2), None);
    assert_eq!(Json::Array(vec![]).at(0), None);
    assert_eq!(Json::Object(vec![("0".to_string(), text("a"))]).at(0), None);
    assert_eq!(Json::Null.at(0), None);
}

#[test]
fn as_text_reads_strings_only() {
    assert_eq!(text("abc").as_text(), Some("abc"));
    assert_eq!(text("").as_text(), Some(""));
    assert_eq!(Json::Number("1".to_string()).as_text(), None);
    assert_eq!(Json::Null.as_text(), None);
    assert_eq!(Json::Bool(true).as_text(), None);
    assert_eq!(Json::Array(vec![text("abc")]).as_text(), None);
}
