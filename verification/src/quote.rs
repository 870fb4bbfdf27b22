//! The quote path: chart data, returned as the JSON value that was received.

use vstd::prelude::*;
use vstd::string::StringExecFns;
use crate::error::{ProxyError, ProxyErrorView};
use crate::json::{describe_json_error, json_error_text, json_from_slice, parse_json};
use crate::request::{text_of, QuoteRequest, QuoteRequestView};
use crate::status::{is_success, HttpStatus};
use crate::transport::{body_view, HttpGet, HttpGetView, SendOutcome, SendOutcomeView};
use crate::url::quote_url;

verus! {

/// The browser identity sent to the chart endpoint.
pub const BROWSER_USER_AGENT: &'static str =
    "Mozilla/5.0 (Windows NT 10.0; Win64; x64) AppleWebKit/537.36 (KHTML, like Gecko) Chrome/120.0.0.0 Safari/537.36";

/// The body text reported when the body of a failed response cannot be read.
pub const UNKNOWN_ERROR: &'static str = "不明なエラー";

/// What the driver does after sending a quote request.
#[derive(Debug)]
pub enum QuoteStep {
    /// Read the whole body as bytes and hand it to `quote_on_body`.
    ReadJson,
    /// Read the body as text, as far as that goes, and hand it to
    /// `quote_on_error_text` with this status.
    ReadErrorText(HttpStatus),
    /// Stop: the operation has failed.
    Fail(ProxyError),
}

/// A `QuoteStep` over views.
pub ghost enum QuoteStepView {
    ReadJson,
    ReadErrorText(u16),
    Fail(ProxyErrorView),
}

impl View for QuoteStep {
    type V = QuoteStepView;

    open spec fn view(&self) -> QuoteStepView {
        match *self {
            QuoteStep::ReadJson => QuoteStepView::ReadJson,
            QuoteStep::ReadErrorText(status) => QuoteStepView::ReadErrorText(status@),
            QuoteStep::Fail(error) => QuoteStepView::Fail(error@),
        }
    }
}

/// The result of the quote path, with the error taken by its view.
pub open spec fn quote_result_view(result: Result<serde_json::Value, ProxyError>) -> Result<
    serde_json::Value,
    ProxyErrorView,
> {
    match result {
        Ok(value) => Ok(value),
        Err(error) => Err(error@),
    }
}

/// The request that the quote path sends.
pub open spec fn quote_get(req: QuoteRequestView) -> HttpGetView {
    HttpGetView { url: quote_url(req), user_agent: Some(BROWSER_USER_AGENT@) }
}

/// The step that follows each outcome of sending: a response in the success
/// range has its body parsed, any other response becomes an error that
/// carries its body text, and a failure to send ends the operation.
pub open spec fn quote_step(outcome: SendOutcomeView) -> QuoteStepView {
    match outcome {
        SendOutcomeView::ClientFailed(cause) => QuoteStepView::Fail(
            ProxyErrorView::ClientConstruction(cause),
        ),
        SendOutcomeView::RequestFailed(cause) => QuoteStepView::Fail(
            ProxyErrorView::Request(cause),
        ),
        SendOutcomeView::Responded(code) => if is_success(code) {
            QuoteStepView::ReadJson
        } else {
            QuoteStepView::ReadErrorText(code)
        },
    }
}

/// The error for a response outside the success range. A body that could not
/// be read is reported as `UNKNOWN_ERROR`.
pub open spec fn quote_status_error(code: u16, text: Option<Seq<char>>) -> ProxyErrorView {
    ProxyErrorView::HttpStatus {
        status: code,
        body: match text {
            Some(t) => t,
            None => UNKNOWN_ERROR@,
        },
    }
}

/// The result for a parsed body: the value as it is, or the parser's
/// description as a `JsonParse` error.
pub open spec fn quote_parsed(parsed: Result<serde_json::Value, Seq<char>>) -> Result<
    serde_json::Value,
    ProxyErrorView,
> {
    match parsed {
        Ok(value) => Ok(value),
        Err(description) => Err(ProxyErrorView::JsonParse(description)),
    }
}

/// The outcome of parsing, with the parser's error taken by its text.
pub open spec fn json_outcome(bytes: Seq<u8>) -> Result<serde_json::Value, Seq<char>> {
    match json_from_slice(bytes) {
        Ok(value) => Ok(value),
        Err(error) => Err(json_error_text(error)),
    }
}

/// The result for the body of a successful response.
pub open spec fn quote_result(body: Result<Seq<u8>, Seq<char>>) -> Result<
    serde_json::Value,
    ProxyErrorView,
> {
    match body {
        Ok(bytes) => quote_parsed(json_outcome(bytes)),
        Err(cause) => Err(ProxyErrorView::ResponseRead(cause)),
    }
}

impl QuoteRequest {
    /// The GET request for this quote, with the browser identity.
    pub fn get(&self) -> (get: HttpGet)
        ensures
            get@ == quote_get(self@),
    {
        HttpGet { url: self.url(), user_agent: Some(BROWSER_USER_AGENT) }
    }
}

/// Decides what follows the sending of a quote request.
pub fn quote_on_send(outcome: SendOutcome) -> (step: QuoteStep)
    ensures
        step@ == quote_step(outcome@),
{
    match outcome {
        SendOutcome::ClientFailed(cause) => QuoteStep::Fail(ProxyError::ClientConstruction(cause)),
        SendOutcome::RequestFailed(cause) => QuoteStep::Fail(ProxyError::Request(cause)),
        SendOutcome::Responded(status) => if status.is_success() {
            QuoteStep::ReadJson
        } else {
            QuoteStep::ReadErrorText(status)
        },
    }
}

/// Builds the error for a response outside the success range from the body
/// text, or from `None` when the text could not be read.
pub fn quote_on_error_text(status: HttpStatus, text: Option<String>) -> (error: ProxyError)
    ensures
        error@ == quote_status_error(status@, text_of(text)),
{
    let body = match text {
        Some(t) => t,
        None => String::from_str(UNKNOWN_ERROR),
    };
    ProxyError::HttpStatus { status, body }
}

/// Turns the outcome of parsing into the result of the quote path.
pub fn quote_from_parsed(parsed: Result<serde_json::Value, String>) -> (result: Result<
    serde_json::Value,
    ProxyError,
>)
    ensures
        quote_result_view(result) == quote_parsed(
            match parsed {
                Ok(value) => Ok(value),
                Err(description) => Err(description@),
            },
        ),
{
    match parsed {
        Ok(value) => Ok(value),
        Err(description) => Err(ProxyError::JsonParse(description)),
    }
}

/// Parses the body of a successful response, or reports why there is none.
pub fn quote_on_body(body: Result<Vec<u8>, String>) -> (result: Result<
    serde_json::Value,
    ProxyError,
>)
    ensures
        quote_result_view(result) == quote_result(body_view(body)),
{
    match body {
        Ok(bytes) => {
            let parsed = match parse_json(bytes.as_slice()) {
                Ok(value) => Ok(value),
                Err(error) => Err(describe_json_error(&error)),
            };
            quote_from_parsed(parsed)
        },
        Err(cause) => Err(ProxyError::ResponseRead(cause)),
    }
}

} // verus!
