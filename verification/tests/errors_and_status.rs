use market_data_proxy::error::ProxyError;
use market_data_proxy::status::HttpStatus;

fn status(code: u16) -> HttpStatus {
    HttpStatus::new(code).expect("a code between 100 and 999")
}

#[test]
fn status_accepts_three_digit_codes_only() {
    assert!(HttpStatus::new(0).is_none());
    assert!(HttpStatus::new(99).is_none());
    assert_eq!(HttpStatus::new(100).map(|s| s.code()), Some(100));
    assert_eq!(HttpStatus::new(999).map(|s| s.code()), Some(999));
    assert!(HttpStatus::new(1000).is_none());
    assert!(HttpStatus::new(u16::MAX).is_none());
}

#[test]
fn status_success_range_has_sharp_edges() {
    assert!(!status(199).is_success());
    assert!(status(200).is_success());
    assert!(status(299).is_success());
    assert!(!status(300).is_success());
}

#[test]
fn status_line_has_code_and_reason() {
    assert_eq!(status(200).describe(), "200 OK");
    assert_eq!(status(404).describe(), "404 Not Found");
    assert_eq!(status(999).describe(), "999 <unknown status code>");
}

#[test]
fn status_line_opens_with_three_digits_and_a_space() {
    for code in 100..=999u16 {
        let line = status(code).describe();
        assert!(line.starts_with(&format!("{code} ")), "code {code}: {line}");
    }
}

#[test]
fn http_status_message_shows_the_code_after_the_label() {
    for code in [100u16, 404, 599, 999] {
        let error = ProxyError::HttpStatus { status: status(code), body: String::new() };
        assert_eq!(&error.message()[..9], format!("HTTP {code} "));
    }
}

#[test]
fn client_construction_message() {
    let error = ProxyError::ClientConstruction("builder error".to_string());
    assert_eq!(error.message(), "クライアント構築エラー: builder error");
}

#[test]
fn request_message() {
    let error = ProxyError::Request("connection refused".to_string());
    assert_eq!(error.message(), "リクエストエラー: connection refused");
}

#[test]
fn http_status_message() {
    let error = ProxyError::HttpStatus { status: status(429), body: "slow down".to_string() };
    assert_eq!(error.message(), "HTTP 429 Too Many Requests: slow down");
}

#[test]
fn response_read_message() {
    let error = ProxyError::ResponseRead("unexpected eof".to_string());
    assert_eq!(error.message(), "レスポンス読み込みエラー: unexpected eof");
}

#[test]
fn json_parse_message() {
    let error = ProxyError::JsonParse("expected value at line 1 column 1".to_string());
    assert_eq!(error.message(), "JSONパースエラー: expected value at line 1 column 1");
}

#[test]
fn encoding_message() {
    assert_eq!(ProxyError::Encoding.message(), "文字エンコーディングエラーが発生しました");
}
