use grounded_dispatch::config::Config;
use grounded_dispatch::grounding::{
    context_of, document_of, documents_in, retrieve, search_call, search_url, GroundingDocument,
    MAX_RESULTS, SEARCH_TIMEOUT_SECS,
};
use grounded_dispatch::json::Json;
use grounded_dispatch::outcome::{is_success, Outcome};

fn config(key: Option<&str>, scope: Option<&str>) -> Config {
    Config {
        search_api_key: key.map(|k| k.to_string()),
        search_scope: scope.map(|s| s.to_string()),
        tunnel_url: None,
        generative_api_key: None,
    }
}

fn document(title: &str, url: &str, snippet: &str) -> GroundingDocument {
    GroundingDocument {
        title: title.to_string(),
        url: url.to_string(),
        snippet: snippet.to_string(),
    }
}

fn reply(status: u16, body: &str) -> Outcome {
    Outcome::Reply { status, body: body.as_bytes().to_vec() }
}

fn text(value: &str) -> Json {
    Json::Text(value.to_string())
}

fn item(title: &str, link: &str, snippet: Option<Json>) -> Json {
    let mut members = vec![("title".to_string(), text(title)), ("link".to_string(), text(link))];
    if let Some(value) = snippet {
        members.push(("snippet".to_string(), value));
    }
    Json::Object(members)
}

#[test]
fn limits_are_as_documented() {
    assert_eq!(MAX_RESULTS, 5);
    assert_eq!(SEARCH_TIMEOUT_SECS, 10);
}

#[test]
fn search_url_of_a_plain_query() {
    assert_eq!(
        search_url("KEY", "CX", "weather"),
        "https://www.googleapis.com/customsearch/v1?key=KEY&cx=CX&q=weather&num=5"
    );
}

#[test]
fn search_url_escapes_the_query() {
    assert_eq!(
        search_url("k", "c", "rust & go?"),
        "https://www.googleapis.com/customsearch/v1?key=k&cx=c&q=rust%20%26%20go%3F&num=5"
    );
}

#[test]
fn search_url_keeps_unreserved_characters() {
    assert_eq!(
        search_url("k", "c", "AZaz09-._~"),
        "https://www.googleapis.com/customsearch/v1?key=k&cx=c&q=AZaz09-._~&num=5"
    );
}

#[test]
fn search_url_escapes_each_byte_of_a_character() {
    assert_eq!(
        search_url("k", "c", "\u{e9}\u{1f47e}"),
        "https://www.googleapis.com/customsearch/v1?key=k&cx=c&q=%C3%A9%F0%9F%91%BE&num=5"
    );
}

#[test]
fn search_url_escapes_with_upper_case_digits() {
    assert_eq!(
        search_url("k", "c", "/+\n\u{7f}"),
        "https://www.googleapis.com/customsearch/v1?key=k&cx=c&q=%2F%2B%0A%7F&num=5"
    );
}

#[test]
fn search_url_escapes_every_byte_by_one_rule() {
    let digits = b"0123456789ABCDEF";
    let mut samples: Vec<char> = (0u8..128).map(|byte| byte as char).collect();
    samples.extend(['\u{80}', '\u{ff}', '\u{7ff}', '\u{800}', '\u{ffff}', '\u{10000}', '\u{10ffff}']);
    for sample in samples {
        let query = format!("a{}z", sample);
        let mut expected = String::new();
        for byte in query.bytes() {
            if byte.is_ascii_alphanumeric() || matches!(byte, b'-' | b'.' | b'_' | b'~') {
                expected.push(byte as char);
            } else {
                expected.push('%');
                expected.push(digits[(byte / 16) as usize] as char);
                expected.push(digits[(byte % 16) as usize] as char);
            }
        }
        assert_eq!(
            search_url("k", "c", &query),
            format!("https://www.googleapis.com/customsearch/v1?key=k&cx=c&q={}&num=5", expected)
        );
    }
}

#[test]
fn search_url_of_an_empty_query() {
    assert_eq!(
        search_url("k", "c", ""),
        "https://www.googleapis.com/customsearch/v1?key=k&cx=c&q=&num=5"
    );
}

#[test]
fn search_url_takes_key_and_scope_as_they_are() {
    assert_eq!(
        search_url("a b", "c&d", "q"),
        "https://www.googleapis.com/customsearch/v1?key=a b&cx=c&d&q=q&num=5"
    );
}

#[test]
fn search_call_needs_key_and_scope() {
    assert_eq!(search_call(&config(None, None), "q"), None);
    assert_eq!(search_call(&config(Some("k"), None), "q"), None);
    assert_eq!(search_call(&config(None, Some("c")), "q"), None);
    let call = search_call(&config(Some("k"), Some("c")), "fix it").unwrap();
    assert_eq!(call.url, "https://www.googleapis.com/customsearch/v1?key=k&cx=c&q=fix%20it&num=5");
    assert_eq!(call.timeout_secs, 10);
}

#[test]
fn search_call_takes_an_empty_setting_as_set() {
    let call = search_call(&config(Some(""), Some("")), "q").unwrap();
    assert_eq!(call.url, "https://www.googleapis.com/customsearch/v1?key=&cx=&q=q&num=5");
}

#[test]
fn status_is_a_success_from_200_to_299() {
    assert!(!is_success(0));
    assert!(!is_success(199));
    assert!(is_success(200));
    assert!(is_success(204));
    assert!(is_success(299));
    assert!(!is_success(300));
    assert!(!is_success(404));
    assert!(!is_success(500));
    assert!(!is_success(u16::MAX));
}

#[test]
fn retrieve_reads_the_listed_documents_in_order() {
    let body = r#"{"kind": "search", "items": [
        {"title": "One", "link": "https://one.example", "snippet": "first"},
        {"title": "Two", "link": "https://two.example", "snippet": "second", "extra": 3}
    ]}"#;
    assert_eq!(
        retrieve(&reply(200, body)),
        vec![
            document("One", "https://one.example", "first"),
            document("Two", "https://two.example", "second"),
        ]
    );
}

#[test]
fn retrieve_gives_an_empty_snippet_where_none_is_sent() {
    let body = r#"{"items": [
        {"title": "One", "link": "https://one.example"},
        {"title": "Two", "link": "https://two.example", "snippet": null}
    ]}"#;
    assert_eq!(
        retrieve(&reply(200, body)),
        vec![document("One", "https://one.example", ""), document("Two", "https://two.example", "")]
    );
}

#[test]
fn retrieve_is_empty_when_the_provider_is_unreachable() {
    assert_eq!(retrieve(&Outcome::Unreachable), vec![]);
}

#[test]
fn retrieve_is_empty_on_a_status_that_is_no_success() {
    let body = r#"{"items": [{"title": "One", "link": "https://one.example", "snippet": "s"}]}"#;
    for status in [0, 199, 300, 301, 403, 404, 429, 500, 503] {
        assert_eq!(retrieve(&reply(status, body)), vec![], "{}", status);
    }
    assert_eq!(retrieve(&reply(299, body)).len(), 1);
}

#[test]
fn retrieve_is_empty_on_a_body_that_is_not_json() {
    assert_eq!(retrieve(&reply(200, "")), vec![]);
    assert_eq!(retrieve(&reply(200, "<html>")), vec![]);
    assert_eq!(retrieve(&reply(200, "{\"items\": [")), vec![]);
    assert_eq!(retrieve(&Outcome::Reply { status: 200, body: vec![0xff] }), vec![]);
}

#[test]
fn retrieve_is_empty_without_items() {
    assert_eq!(retrieve(&reply(200, "{}")), vec![]);
    assert_eq!(retrieve(&reply(200, r#"{"items": null}"#)), vec![]);
    assert_eq!(retrieve(&reply(200, r#"{"items": []}"#)), vec![]);
}

#[test]
fn retrieve_is_empty_on_a_reply_of_another_shape() {
    assert_eq!(retrieve(&reply(200, "[]")), vec![]);
    assert_eq!(retrieve(&reply(200, "null")), vec![]);
    assert_eq!(retrieve(&reply(200, r#"{"items": "none"}"#)), vec![]);
    assert_eq!(retrieve(&reply(200, r#"{"items": {"title": "t", "link": "l"}}"#)), vec![]);
}

#[test]
fn retrieve_is_empty_when_one_entry_is_malformed() {
    let no_title = r#"{"items": [
        {"title": "One", "link": "https://one.example"},
        {"link": "https://two.example"}
    ]}"#;
    assert_eq!(retrieve(&reply(200, no_title)), vec![]);
    let no_link = r#"{"items": [{"title": "One"}]}"#;
    assert_eq!(retrieve(&reply(200, no_link)), vec![]);
    let title_is_number = r#"{"items": [{"title": 1, "link": "l"}]}"#;
    assert_eq!(retrieve(&reply(200, title_is_number)), vec![]);
    let snippet_is_number = r#"{"items": [{"title": "t", "link": "l", "snippet": 1}]}"#;
    assert_eq!(retrieve(&reply(200, snippet_is_number)), vec![]);
    let entry_is_text = r#"{"items": ["t"]}"#;
    assert_eq!(retrieve(&reply(200, entry_is_text)), vec![]);
}

#[test]
fn retrieve_keeps_the_first_five_documents() {
    let mut entries = Vec::new();
    for i in 0..7 {
        entries.push(format!(r#"{{"title": "T{}", "link": "L{}", "snippet": "S{}"}}"#, i, i, i));
    }
    let body = format!(r#"{{"items": [{}]}}"#, entries.join(","));
    let documents = retrieve(&reply(200, &body));
    assert_eq!(documents.len(), 5);
    for (i, found) in documents.iter().enumerate() {
        assert_eq!(*found, document(&format!("T{}", i), &format!("L{}", i), &format!("S{}", i)));
    }
}

#[test]
fn retrieve_keeps_exactly_five_documents_as_they_are() {
    let mut entries = Vec::new();
    for i in 0..5 {
        entries.push(format!(r#"{{"title": "T{}", "link": "L{}"}}"#, i, i));
    }
    let body = format!(r#"{{"items": [{}]}}"#, entries.join(","));
    assert_eq!(retrieve(&reply(200, &body)).len(), 5);
}

#[test]
fn retrieve_is_empty_when_a_late_entry_is_malformed() {
    let mut entries = Vec::new();
    for i in 0..6 {
        entries.push(format!(r#"{{"title": "T{}", "link": "L{}"}}"#, i, i));
    }
    entries.push(r#"{"title": "T6"}"#.to_string());
    let body = format!(r#"{{"items": [{}]}}"#, entries.join(","));
    assert_eq!(retrieve(&reply(200, &body)), vec![]);
}

#[test]
fn document_of_reads_one_entry() {
    assert_eq!(
        document_of(&item("T", "L", Some(text("S")))),
        Some(document("T", "L", "S"))
    );
    assert_eq!(document_of(&item("T", "L", None)), Some(document("T", "L", "")));
    assert_eq!(document_of(&item("T", "L", Some(Json::Null))), Some(document("T", "L", "")));
    assert_eq!(document_of(&item("T", "L", Some(Json::Bool(true)))), None);
    assert_eq!(document_of(&Json::Object(vec![("title".to_string(), text("T"))])), None);
    assert_eq!(document_of(&Json::Object(vec![("link".to_string(), text("L"))])), None);
    assert_eq!(document_of(&Json::Null), None);
    assert_eq!(document_of(&Json::Array(vec![text("T"), text("L")])), None);
}

#[test]
fn documents_in_reads_a_parsed_reply() {
    let tree = Json::Object(vec![(
        "items".to_string(),
        Json::Array(vec![item("A", "a", None), item("B", "b", Some(text("bb")))]),
    )]);
    assert_eq!(documents_in(&tree), vec![document("A", "a", ""), document("B", "b", "bb")]);
    assert_eq!(documents_in(&Json::Object(vec![])), vec![]);
    assert_eq!(documents_in(&Json::Array(vec![item("A", "a", None)])), vec![]);
    let six = Json::Object(vec![(
        "items".to_string(),
        Json::Array((0..6).map(|i| item(&format!("T{}", i), "l", None)).collect()),
    )]);
    let kept = documents_in(&six);
    assert_eq!(kept.len(), 5);
    assert_eq!(kept[4].title, "T4");
}

#[test]
fn context_of_no_documents_is_empty() {
    assert_eq!(context_of(&vec![]), "");
}

#[test]
fn context_of_one_document_is_one_line() {
    assert_eq!(context_of(&vec![document("Title", "https://u", "Snippet")]), "- Title: Snippet");
}

#[test]
fn context_of_several_documents_has_one_line_each() {
    let documents = vec![
        document("One", "https://one", "first"),
        document("Two", "https://two", ""),
        document("", "https://three", "third"),
    ];
    assert_eq!(context_of(&documents), "- One: first\n- Two: \n- : third");
}

#[test]
fn context_is_empty_exactly_when_there_are_no_documents() {
    assert!(context_of(&vec![]).is_empty());
    assert!(!context_of(&vec![document("", "", "")]).is_empty());
    assert_eq!(context_of(&vec![document("", "", "")]), "- : ");
}
