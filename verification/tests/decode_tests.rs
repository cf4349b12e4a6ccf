use newsapi::DecodeError;
use newsapi::JsonValue;
use newsapi::NewsApiError;
use newsapi::TransportEvent;
use newsapi::envelope::from_json;
use newsapi::handle_body;
use newsapi::map_response_err;
use newsapi::resolve_blocking;
use newsapi::resolve_nonblocking;

#[test]
fn status_ok_yields_articles() {
    let body = r#"{"status":"ok","articles":[{"title":"T","url":"U","description":"D"}]}"#;
    let response = resolve_blocking(TransportEvent::Body(body.to_string())).unwrap();
    let articles = response.articles();
    assert_eq!(articles.len(), 1);
    assert_eq!(articles[0].title(), "T");
    assert_eq!(articles[0].url(), "U");
    assert_eq!(articles[0].desc(), Some(&"D".to_string()));
}

#[test]
fn disabled_key_maps_to_its_reason() {
    let body = r#"{"status":"error","code":"apiKeyDisabled","articles":[]}"#;
    let e = resolve_blocking(TransportEvent::Body(body.to_string())).unwrap_err();
    assert_eq!(
        e,
        NewsApiError::BadRequest("Your API key has been disabled".to_string())
    );
}

#[test]
fn unknown_code_maps_to_generic_reason() {
    let with_code = r#"{"status":"error","code":"somethingElse","articles":[]}"#;
    let e = resolve_blocking(TransportEvent::Body(with_code.to_string())).unwrap_err();
    assert_eq!(e, NewsApiError::BadRequest("Unknown error".to_string()));

    let without_code = r#"{"status":"error","articles":[]}"#;
    let e = resolve_blocking(TransportEvent::Body(without_code.to_string())).unwrap_err();
    assert_eq!(e, NewsApiError::BadRequest("Unknown error".to_string()));
}

#[test]
fn null_code_maps_to_generic_reason() {
    let body = r#"{"status":"error","code":null,"articles":[]}"#;
    let e = resolve_blocking(TransportEvent::Body(body.to_string())).unwrap_err();
    assert_eq!(e, NewsApiError::BadRequest("Unknown error".to_string()));
}

#[test]
fn invalid_json_is_a_parse_failure() {
    let e = handle_body("this is not json").unwrap_err();
    assert!(matches!(e, NewsApiError::ArticleParseFailed(_)));
}

#[test]
fn missing_status_is_a_parse_failure() {
    let e = handle_body(r#"{"articles":[]}"#).unwrap_err();
    assert_eq!(
        e,
        NewsApiError::ArticleParseFailed("missing or malformed status field".to_string())
    );
}

#[test]
fn missing_articles_is_a_parse_failure() {
    let e = handle_body(r#"{"status":"ok"}"#).unwrap_err();
    assert_eq!(
        e,
        NewsApiError::ArticleParseFailed("missing or malformed articles field".to_string())
    );
}

#[test]
fn malformed_article_is_a_parse_failure() {
    let e = handle_body(r#"{"status":"ok","articles":[{"url":"U"}]}"#).unwrap_err();
    assert_eq!(
        e,
        NewsApiError::ArticleParseFailed("malformed article object".to_string())
    );
}

#[test]
fn optional_description_stays_absent() {
    let body = r#"{"status":"ok","articles":[{"title":"T","url":"U"}]}"#;
    let response = handle_body(body).unwrap();
    assert_eq!(response.articles()[0].desc(), None);

    let body = r#"{"status":"ok","articles":[{"title":"T","url":"U","description":""}]}"#;
    let response = handle_body(body).unwrap();
    assert_eq!(response.articles()[0].desc(), Some(&String::new()));
}

#[test]
fn null_description_stays_absent() {
    let body = r#"{"status":"ok","articles":[{"title":"T","url":"U","description":null}]}"#;
    let response = handle_body(body).unwrap();
    assert_eq!(response.articles()[0].desc(), None);
}

#[test]
fn mode_equivalence_on_identical_envelopes() {
    let bodies = [
        r#"{"status":"ok","articles":[{"title":"T","url":"U","description":"D"}]}"#,
        r#"{"status":"error","code":"apiKeyDisabled","articles":[]}"#,
        r#"{"status":"error","articles":[]}"#,
        r#"{"articles":[]}"#,
        "not json at all",
    ];
    for body in bodies {
        let blocking = resolve_blocking(TransportEvent::Body(body.to_string()));
        let suspending = resolve_nonblocking(TransportEvent::Body(body.to_string()));
        assert_eq!(blocking, suspending);
    }
}

#[test]
fn transport_failure_is_a_request_failure() {
    let e = resolve_blocking(TransportEvent::TransportFailed("connection refused".to_string()))
        .unwrap_err();
    assert_eq!(
        e,
        NewsApiError::RequestFailed("connection refused".to_string())
    );
}

#[test]
fn body_read_failure_is_a_conversion_failure() {
    let e = resolve_nonblocking(TransportEvent::BodyReadFailed("stream cut short".to_string()))
        .unwrap_err();
    assert_eq!(
        e,
        NewsApiError::FailedResponseToString("stream cut short".to_string())
    );
}

#[test]
fn map_response_err_table() {
    assert_eq!(
        map_response_err(Some("apiKeyDisabled".to_string())),
        NewsApiError::BadRequest("Your API key has been disabled".to_string())
    );
    assert_eq!(
        map_response_err(Some("somethingElse".to_string())),
        NewsApiError::BadRequest("Unknown error".to_string())
    );
    assert_eq!(
        map_response_err(None),
        NewsApiError::BadRequest("Unknown error".to_string())
    );
}

#[test]
fn from_json_rejects_non_objects() {
    assert_eq!(
        from_json(&JsonValue::Bool(true)).unwrap_err(),
        DecodeError::NotAnObject
    );
    assert_eq!(
        from_json(&JsonValue::Array(Vec::new())).unwrap_err(),
        DecodeError::NotAnObject
    );
}

#[test]
fn from_json_flags_each_defect() {
    let bad_status = JsonValue::Object(vec![(
        "status".to_string(),
        JsonValue::Number("5".to_string()),
    )]);
    assert_eq!(from_json(&bad_status).unwrap_err(), DecodeError::BadStatus);

    let bad_code = JsonValue::Object(vec![
        ("status".to_string(), JsonValue::String("ok".to_string())),
        ("code".to_string(), JsonValue::Bool(false)),
    ]);
    assert_eq!(from_json(&bad_code).unwrap_err(), DecodeError::BadCode);

    let bad_articles = JsonValue::Object(vec![
        ("status".to_string(), JsonValue::String("ok".to_string())),
        ("articles".to_string(), JsonValue::Null),
    ]);
    assert_eq!(from_json(&bad_articles).unwrap_err(), DecodeError::BadArticles);

    let bad_article = JsonValue::Object(vec![
        ("status".to_string(), JsonValue::String("ok".to_string())),
        (
            "articles".to_string(),
            JsonValue::Array(vec![JsonValue::Null]),
        ),
    ]);
    assert_eq!(from_json(&bad_article).unwrap_err(), DecodeError::BadArticle);
}

#[test]
fn decode_error_messages() {
    assert_eq!(
        DecodeError::NotAnObject.describe(),
        "response is not a JSON object"
    );
    assert_eq!(DecodeError::BadCode.describe(), "malformed code field");
}

#[test]
fn unknown_members_are_ignored() {
    let body = r#"{"status":"ok","totalResults":1,"articles":[{"title":"T","url":"U","source":{"id":null}}]}"#;
    let response = handle_body(body).unwrap();
    assert_eq!(response.articles().len(), 1);
    assert_eq!(response.articles()[0].title(), "T");
}
