//! The failures of a proxy operation and the text shown for each.

use vstd::prelude::*;
use vstd::string::StringExecFns;
use crate::status::{code_prefix, status_line, HttpStatus};
use crate::text::occurs_at;

verus! {

/// Why a proxy operation failed.
#[derive(Debug)]
pub enum ProxyError {
    /// The HTTP client could not be built. Carries the cause.
    ClientConstruction(String),
    /// The request did not get a response. Carries the cause.
    Request(String),
    /// The response had a status outside the success range. Carries the
    /// status and the body text.
    HttpStatus { status: HttpStatus, body: String },
    /// The response body could not be read. Carries the cause.
    ResponseRead(String),
    /// The body is not valid JSON. Carries the parser's description.
    JsonParse(String),
    /// The body is not valid Shift-JIS.
    Encoding,
}

/// A `ProxyError` over sequences of characters and a plain status code.
pub ghost enum ProxyErrorView {
    ClientConstruction(Seq<char>),
    Request(Seq<char>),
    HttpStatus { status: u16, body: Seq<char> },
    ResponseRead(Seq<char>),
    JsonParse(Seq<char>),
    Encoding,
}

impl View for ProxyError {
    type V = ProxyErrorView;

    open spec fn view(&self) -> ProxyErrorView {
        match *self {
            ProxyError::ClientConstruction(detail) => ProxyErrorView::ClientConstruction(detail@),
            ProxyError::Request(detail) => ProxyErrorView::Request(detail@),
            ProxyError::HttpStatus { status, body } => ProxyErrorView::HttpStatus {
                status: status@,
                body: body@,
            },
            ProxyError::ResponseRead(detail) => ProxyErrorView::ResponseRead(detail@),
            ProxyError::JsonParse(detail) => ProxyErrorView::JsonParse(detail@),
            ProxyError::Encoding => ProxyErrorView::Encoding,
        }
    }
}

/// The text shown to the user for an error.
pub open spec fn error_message(error: ProxyErrorView) -> Seq<char> {
    match error {
        ProxyErrorView::ClientConstruction(detail) => "クライアント構築エラー: "@ + detail,
        ProxyErrorView::Request(detail) => "リクエストエラー: "@ + detail,
        ProxyErrorView::HttpStatus { status, body } => "HTTP "@ + status_line(status) + ": "@
            + body,
        ProxyErrorView::ResponseRead(detail) => "レスポンス読み込みエラー: "@ + detail,
        ProxyErrorView::JsonParse(detail) => "JSONパースエラー: "@ + detail,
        ProxyErrorView::Encoding => "文字エンコーディングエラーが発生しました"@,
    }
}

/// Whether the text of a status error shows the digits of its code, right
/// after the five characters of `HTTP `.
pub open spec fn shows_status(text: Seq<char>, error: ProxyErrorView) -> bool {
    error matches ProxyErrorView::HttpStatus { status, .. } ==> occurs_at(
        text,
        code_prefix(status),
        5,
    )
}

impl ProxyError {
    /// Renders the error for display.
    pub fn message(&self) -> (text: String)
        ensures
            text@ == error_message(self@),
            shows_status(text@, self@),
    {
        match self {
            ProxyError::ClientConstruction(detail) => {
                String::from_str("クライアント構築エラー: ").concat(detail.as_str())
            },
            ProxyError::Request(detail) => {
                String::from_str("リクエストエラー: ").concat(detail.as_str())
            },
            ProxyError::HttpStatus { status, body } => {
                let line = status.describe();
                let mut text = String::from_str("HTTP ");
                text.append(line.as_str());
                text.append(": ");
                text.append(body.as_str());
                proof {
                    reveal_strlit("HTTP ");
                    assert(text@.subrange(5, 9) =~= line@.subrange(0, 4));
                }
                text
            },
            ProxyError::ResponseRead(detail) => {
                String::from_str("レスポンス読み込みエラー: ").concat(detail.as_str())
            },
            ProxyError::JsonParse(detail) => {
                String::from_str("JSONパースエラー: ").concat(detail.as_str())
            },
            ProxyError::Encoding => String::from_str("文字エンコーディングエラーが発生しました"),
        }
    }
}

} // verus!
