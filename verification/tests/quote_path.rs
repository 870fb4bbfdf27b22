use market_data_proxy::error::ProxyError;
use market_data_proxy::quote::{
    quote_from_parsed, quote_on_body, quote_on_error_text, quote_on_send, QuoteStep,
    BROWSER_USER_AGENT, UNKNOWN_ERROR,
};
use market_data_proxy::request::QuoteRequest;
use market_data_proxy::status::HttpStatus;
use market_data_proxy::transport::SendOutcome;
use serde_json::{Number, Value};

fn status(code: u16) -> HttpStatus {
    HttpStatus::new(code).expect("a code between 100 and 999")
}

fn empty_chart() -> Value {
    let mut chart = serde_json::Map::new();
    chart.insert("result".to_string(), Value::Array(Vec::new()));
    let mut root = serde_json::Map::new();
    root.insert("chart".to_string(), Value::Object(chart));
    Value::Object(root)
}

#[test]
fn quote_get_carries_url_and_browser_identity() {
    let req = QuoteRequest {
        symbol: "AAPL".to_string(),
        range_start: None,
        range_end: None,
        interval: None,
        range: Some("5d".to_string()),
    };
    let get = req.get();
    assert_eq!(
        get.url,
        "https://query1.finance.yahoo.com/v8/finance/chart/AAPL?interval=1d&range=5d"
    );
    assert_eq!(get.user_agent, Some(BROWSER_USER_AGENT));
    assert_eq!(
        BROWSER_USER_AGENT,
        "Mozilla/5.0 (Windows NT 10.0; Win64; x64) AppleWebKit/537.36 (KHTML, like Gecko) Chrome/120.0.0.0 Safari/537.36"
    );
}

#[test]
fn ok_response_with_empty_chart_returns_that_value() {
    let step = quote_on_send(SendOutcome::Responded(status(200)));
    assert!(matches!(step, QuoteStep::ReadJson));
    let body = br#"{"chart":{"result":[]}}"#.to_vec();
    let value = quote_on_body(Ok(body)).expect("valid JSON");
    assert_eq!(value, empty_chart());
}

#[test]
fn not_found_response_fails_with_status_and_body() {
    let step = quote_on_send(SendOutcome::Responded(status(404)));
    let carried = match step {
        QuoteStep::ReadErrorText(s) => s,
        _ => panic!("a 404 response must have its body read as text"),
    };
    assert_eq!(carried.code(), 404);
    let error = quote_on_error_text(carried, Some("not found".to_string()));
    match &error {
        ProxyError::HttpStatus { status, body } => {
            assert_eq!(status.code(), 404);
            assert_eq!(body, "not found");
        }
        other => panic!("unexpected error {other:?}"),
    }
    let message = error.message();
    assert!(message.contains("404"));
    assert!(message.contains("not found"));
    assert_eq!(message, "HTTP 404 Not Found: not found");
}

#[test]
fn success_range_is_200_to_299() {
    for code in 100..=999u16 {
        let step = quote_on_send(SendOutcome::Responded(status(code)));
        if (200..=299).contains(&code) {
            assert!(matches!(step, QuoteStep::ReadJson), "code {code}");
        } else {
            match step {
                QuoteStep::ReadErrorText(s) => assert_eq!(s.code(), code),
                _ => panic!("code {code}"),
            }
        }
    }
}

#[test]
fn unreadable_error_body_becomes_placeholder() {
    let error = quote_on_error_text(status(500), None);
    match &error {
        ProxyError::HttpStatus { status, body } => {
            assert_eq!(status.code(), 500);
            assert_eq!(body, UNKNOWN_ERROR);
        }
        other => panic!("unexpected error {other:?}"),
    }
    assert_eq!(UNKNOWN_ERROR, "不明なエラー");
    assert_eq!(error.message(), "HTTP 500 Internal Server Error: 不明なエラー");
}

#[test]
fn client_failure_ends_quote_path() {
    match quote_on_send(SendOutcome::ClientFailed("no tls".to_string())) {
        QuoteStep::Fail(ProxyError::ClientConstruction(cause)) => assert_eq!(cause, "no tls"),
        _ => panic!("expected a client construction error"),
    }
}

#[test]
fn request_failure_ends_quote_path() {
    match quote_on_send(SendOutcome::RequestFailed("dns".to_string())) {
        QuoteStep::Fail(ProxyError::Request(cause)) => assert_eq!(cause, "dns"),
        _ => panic!("expected a request error"),
    }
}

#[test]
fn unreadable_quote_body_is_a_read_error() {
    match quote_on_body(Err("connection reset".to_string())) {
        Err(ProxyError::ResponseRead(cause)) => assert_eq!(cause, "connection reset"),
        other => panic!("unexpected result {other:?}"),
    }
}

#[test]
fn invalid_json_is_a_parse_error_with_the_parser_text() {
    match quote_on_body(Ok(b"not json".to_vec())) {
        Err(ProxyError::JsonParse(description)) => {
            assert_eq!(description, "expected ident at line 1 column 2");
        }
        other => panic!("unexpected result {other:?}"),
    }
}

#[test]
fn empty_body_is_a_parse_error() {
    match quote_on_body(Ok(Vec::new())) {
        Err(ProxyError::JsonParse(description)) => {
            assert_eq!(description, "EOF while parsing a value at line 1 column 0");
        }
        other => panic!("unexpected result {other:?}"),
    }
}

#[test]
fn trailing_characters_are_a_parse_error() {
    match quote_on_body(Ok(b"{} x".to_vec())) {
        Err(ProxyError::JsonParse(description)) => {
            assert_eq!(description, "trailing characters at line 1 column 4");
        }
        other => panic!("unexpected result {other:?}"),
    }
}

#[test]
fn json_scalars_and_nesting_pass_through() {
    let body = r#" {"a":[1,-2,"x",true,null],"b":{"c":"フ"}} "#.as_bytes().to_vec();
    let value = quote_on_body(Ok(body)).expect("valid JSON");
    let mut inner = serde_json::Map::new();
    inner.insert("c".to_string(), Value::String("フ".to_string()));
    let mut root = serde_json::Map::new();
    root.insert(
        "a".to_string(),
        Value::Array(vec![
            Value::Number(Number::from(1)),
            Value::Number(Number::from(-2)),
            Value::String("x".to_string()),
            Value::Bool(true),
            Value::Null,
        ]),
    );
    root.insert("b".to_string(), Value::Object(inner));
    assert_eq!(value, Value::Object(root));
}

#[test]
fn parsed_value_is_returned_unmodified() {
    let value = quote_from_parsed(Ok(empty_chart())).expect("a parsed value");
    assert_eq!(value, empty_chart());
}

#[test]
fn parser_description_becomes_parse_error() {
    match quote_from_parsed(Err("expected value".to_string())) {
        Err(ProxyError::JsonParse(description)) => assert_eq!(description, "expected value"),
        other => panic!("unexpected result {other:?}"),
    }
}
