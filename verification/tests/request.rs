use dayax::map::StringMap;
use dayax::media::MediaType;
use dayax::request::{body_kind, collect_headers, media_type_body_kind, request_body_kind, BodyKind, RequestHead};
use dayax::text::header_value_text;

fn pairs(list: &[(&str, &[u8])]) -> Vec<(String, Vec<u8>)> {
    list.iter().map(|(n, v)| (n.to_string(), v.to_vec())).collect()
}

fn get(map: &StringMap, key: &str) -> Option<String> {
    map.get(&key.to_string()).cloned()
}

#[test]
fn header_values_that_are_visible_ascii_are_kept() {
    assert_eq!(header_value_text(b"text/plain"), "text/plain");
    assert_eq!(header_value_text(b"a\tb"), "a\tb");
    assert_eq!(header_value_text(b""), "");
}

#[test]
fn other_header_values_read_as_empty() {
    assert_eq!(header_value_text(&[0x68, 0x80]), "");
    assert_eq!(header_value_text(&[0x01]), "");
    assert_eq!(header_value_text(&[0x7f]), "");
}

#[test]
fn last_header_of_a_name_wins() {
    let h = collect_headers(&pairs(&[
        ("accept", b"a"),
        ("x-one", b"1"),
        ("accept", b"b"),
        ("x-bad", &[0xc3, 0xa9]),
    ]));
    assert_eq!(h.entries().len(), 3);
    assert_eq!(get(&h, "accept"), Some("b".to_string()));
    assert_eq!(get(&h, "x-one"), Some("1".to_string()));
    assert_eq!(get(&h, "x-bad"), Some("".to_string()));
    assert_eq!(get(&h, "host"), None);
}

#[test]
fn string_map_keeps_the_last_value() {
    let mut m = StringMap::from_pairs(vec![
        ("a".to_string(), "1".to_string()),
        ("b".to_string(), "2".to_string()),
        ("a".to_string(), "3".to_string()),
    ]);
    assert_eq!(m.entries().len(), 2);
    assert_eq!(get(&m, "a"), Some("3".to_string()));
    m.insert("b".to_string(), "4".to_string());
    m.insert("c".to_string(), "5".to_string());
    assert_eq!(get(&m, "b"), Some("4".to_string()));
    assert_eq!(get(&m, "c"), Some("5".to_string()));
    assert_eq!(m.entries().len(), 3);
    assert!(StringMap::new().entries().is_empty());
}

#[test]
fn json_content_type_reads_json() {
    assert_eq!(body_kind(Some("application/json")), BodyKind::Json);
    assert_eq!(body_kind(Some("Application/JSON")), BodyKind::Json);
}

#[test]
fn form_content_type_reads_form() {
    assert_eq!(body_kind(Some("application/x-www-form-urlencoded")), BodyKind::Form);
    assert_eq!(body_kind(Some("Application/X-WWW-Form-Urlencoded")), BodyKind::Form);
}

#[test]
fn other_content_types_read_text() {
    assert_eq!(body_kind(Some("text/plain")), BodyKind::Text);
    assert_eq!(body_kind(Some("not a media type")), BodyKind::Text);
    assert_eq!(body_kind(Some("application/json; charset=utf-8")), BodyKind::Text);
    assert_eq!(body_kind(Some("application/x-www-form-urlencoded;charset=utf-8")), BodyKind::Text);
    assert_eq!(body_kind(Some("a/b;k=\"\u{e9}\"")), BodyKind::Text);
    assert_eq!(body_kind(None), BodyKind::Text);
}

#[test]
fn media_types_parse_to_lower_case_text() {
    let m = MediaType::parse("Application/JSON").unwrap();
    assert!(m.is_json());
    assert!(!m.is_form());
    assert_eq!(media_type_body_kind(&m), BodyKind::Json);
    let m = MediaType::parse("application/json; charset=utf-8").unwrap();
    assert!(!m.is_json());
    assert_eq!(media_type_body_kind(&m), BodyKind::Text);
    assert!(MediaType::parse("nope").is_none());
}

#[test]
fn body_kind_follows_content_type_header() {
    let h = collect_headers(&pairs(&[
        ("content-type", b"text/plain"),
        ("host", b"localhost"),
        ("content-type", b"application/json"),
    ]));
    assert_eq!(request_body_kind(&h), BodyKind::Json);
    let h = collect_headers(&pairs(&[("host", b"localhost")]));
    assert_eq!(request_body_kind(&h), BodyKind::Text);
}

#[test]
fn request_head_and_body() {
    let head = RequestHead::new(
        "POST".to_string(),
        StringMap::from_pairs(vec![("q".to_string(), "1".to_string())]),
        "/items?q=1".to_string(),
        StringMap::new(),
        &pairs(&[("content-type", b"application/x-www-form-urlencoded")]),
    );
    assert_eq!(head.body_kind(), BodyKind::Form);
    let request = head.with_body(serde_json::Value::String("a=b".to_string()));
    assert_eq!(request.method, "POST");
    assert_eq!(request.uri, "/items?q=1");
    assert_eq!(get(&request.search_params, "q"), Some("1".to_string()));
    assert!(request.path.entries().is_empty());
    assert_eq!(
        get(&request.headers, "content-type"),
        Some("application/x-www-form-urlencoded".to_string())
    );
    assert_eq!(request.body, serde_json::Value::String("a=b".to_string()));
}
