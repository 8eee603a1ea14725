use dayax::handler::{callback_response, registry_callback_response, CallbackResult};
use dayax::json::{JsonBody, JsonKind};
use dayax::response::is_valid_header_value;
use dayax::response::{DayaxResponse, FullDayaxResponse, ResponseAction};

fn full(redirect: Option<&str>, body: Option<serde_json::Value>) -> FullDayaxResponse {
    FullDayaxResponse {
        redirect: redirect.map(|r| r.to_string()),
        body: body.map(JsonBody::from_value),
    }
}

#[test]
fn callback_without_return_gives_default_response() {
    assert_eq!(callback_response(CallbackResult::Nothing), ResponseAction::Default);
}

#[test]
fn failed_callback_is_an_internal_server_error() {
    assert_eq!(callback_response(CallbackResult::Failed), ResponseAction::InternalServerError);
}

#[test]
fn plain_return_is_sent_as_text() {
    let action = callback_response(CallbackResult::Returned(DayaxResponse::Plain("hi".to_string())));
    assert_eq!(action, ResponseAction::Text("hi".to_string()));
}

#[test]
fn redirect_wins_over_body() {
    let body = serde_json::Value::Array(vec![serde_json::Value::Bool(true)]);
    let r = full(Some("/login"), Some(body));
    assert_eq!(r.into_response(), ResponseAction::TemporaryRedirect("/login".to_string()));
}

#[test]
fn missing_body_gives_default_response() {
    assert_eq!(full(None, None).into_response(), ResponseAction::Default);
}

#[test]
fn null_body_gives_default_response() {
    let r = full(None, Some(serde_json::Value::Null));
    assert_eq!(r.into_response(), ResponseAction::Default);
}

#[test]
fn array_and_object_bodies_are_sent_as_json() {
    let arr = serde_json::Value::Array(vec![serde_json::Value::from(1), serde_json::Value::from(2)]);
    let r = full(None, Some(arr.clone()));
    assert_eq!(r.into_response(), ResponseAction::Json(arr));

    let mut map = serde_json::Map::new();
    map.insert("a".to_string(), serde_json::Value::from("b"));
    let obj = serde_json::Value::Object(map);
    let r = full(None, Some(obj.clone()));
    assert_eq!(r.into_response(), ResponseAction::Json(obj));
}

#[test]
fn other_bodies_are_internal_server_errors() {
    let cases = vec![
        serde_json::Value::from("text"),
        serde_json::Value::from(3),
        serde_json::Value::Bool(false),
    ];
    for value in cases {
        let r = full(None, Some(value));
        assert_eq!(r.into_response(), ResponseAction::InternalServerError);
    }
}

#[test]
fn full_response_through_dayax_response() {
    let r = DayaxResponse::Full(full(Some("/x"), None));
    assert_eq!(r.into_response(), ResponseAction::TemporaryRedirect("/x".to_string()));
}

#[test]
fn registry_callback_result_is_sent_as_json() {
    let v = serde_json::Value::from(7);
    assert_eq!(registry_callback_response(Some(v.clone())), ResponseAction::Json(v));
    assert_eq!(registry_callback_response(None), ResponseAction::InternalServerError);
}

#[test]
fn json_body_records_the_variant() {
    assert_eq!(JsonBody::from_value(serde_json::Value::Null).json_kind(), JsonKind::Null);
    assert_eq!(JsonBody::from_value(serde_json::Value::from(1)).json_kind(), JsonKind::Number);
    assert_eq!(JsonBody::from_value(serde_json::Value::from("a")).json_kind(), JsonKind::String);
    assert_eq!(JsonBody::from_value(serde_json::Value::Bool(true)).json_kind(), JsonKind::Bool);
    assert_eq!(JsonBody::from_value(serde_json::Value::Array(vec![])).json_kind(), JsonKind::Array);
    assert_eq!(
        JsonBody::from_value(serde_json::Value::Object(serde_json::Map::new())).json_kind(),
        JsonKind::Object
    );
}

#[test]
fn header_values_for_redirects() {
    assert!(is_valid_header_value("/login?next=/a b"));
    assert!(is_valid_header_value("/caf\u{e9}\t"));
    assert!(!is_valid_header_value("/a\nb"));
    assert!(!is_valid_header_value("/a\u{7f}"));
}

#[test]
fn only_valid_redirects_are_sendable() {
    assert!(DayaxResponse::Plain("x\ny".to_string()).is_sendable());
    assert!(DayaxResponse::Full(full(Some("/ok"), None)).is_sendable());
    assert!(!DayaxResponse::Full(full(Some("/a\r\nb"), None)).is_sendable());
    assert!(DayaxResponse::Full(full(None, None)).is_sendable());
}
