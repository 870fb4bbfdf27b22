//! The fund path: Shift-JIS text, returned as a string.

use vstd::prelude::*;
use crate::error::{ProxyError, ProxyErrorView};
use crate::request::{FundRequest, FundRequestView};
use crate::shift_jis::{decodable_len, decode_shift_jis, shift_jis_decode};
use crate::transport::{body_view, HttpGet, HttpGetView, SendOutcome, SendOutcomeView};
use crate::url::fund_url;

verus! {

/// What the driver does after sending a fund request.
#[derive(Debug)]
pub enum FundStep {
    /// Read the whole body as bytes and hand it to `fund_on_body`.
    ReadBody,
    /// Stop: the operation has failed.
    Fail(ProxyError),
}

/// A `FundStep` over views.
pub ghost enum FundStepView {
    ReadBody,
    Fail(ProxyErrorView),
}

impl View for FundStep {
    type V = FundStepView;

    open spec fn view(&self) -> FundStepView {
        match *self {
            FundStep::ReadBody => FundStepView::ReadBody,
            FundStep::Fail(error) => FundStepView::Fail(error@),
        }
    }
}

/// The result of the fund path over views.
pub open spec fn fund_result_view(result: Result<String, ProxyError>) -> Result<
    Seq<char>,
    ProxyErrorView,
> {
    match result {
        Ok(text) => Ok(text@),
        Err(error) => Err(error@),
    }
}

/// The request that the fund path sends: no header of its own.
pub open spec fn fund_get(req: FundRequestView) -> HttpGetView {
    HttpGetView { url: fund_url(req), user_agent: None }
}

/// The step that follows each outcome of sending. The status of a response
/// plays no part: every response has its body read.
pub open spec fn fund_step(outcome: SendOutcomeView) -> FundStepView {
    match outcome {
        SendOutcomeView::ClientFailed(cause) => FundStepView::Fail(
            ProxyErrorView::ClientConstruction(cause),
        ),
        SendOutcomeView::RequestFailed(cause) => FundStepView::Fail(ProxyErrorView::Request(cause)),
        SendOutcomeView::Responded(_) => FundStepView::ReadBody,
    }
}

/// The result for decoded text: the text itself if nothing in the input was
/// malformed, and no text at all otherwise.
pub open spec fn fund_decoded(text: Seq<char>, had_errors: bool) -> Result<
    Seq<char>,
    ProxyErrorView,
> {
    if had_errors {
        Err(ProxyErrorView::Encoding)
    } else {
        Ok(text)
    }
}

/// The result for the body of a response.
pub open spec fn fund_result(body: Result<Seq<u8>, Seq<char>>) -> Result<
    Seq<char>,
    ProxyErrorView,
> {
    match body {
        Ok(bytes) => fund_decoded(shift_jis_decode(bytes).0, shift_jis_decode(bytes).1),
        Err(cause) => Err(ProxyErrorView::ResponseRead(cause)),
    }
}

/// Whether a body is short enough to be decoded.
pub open spec fn fund_body_fits(body: Result<Seq<u8>, Seq<char>>) -> bool {
    body matches Ok(bytes) ==> decodable_len(bytes.len())
}

impl FundRequest {
    /// The GET request for this fund.
    pub fn get(&self) -> (get: HttpGet)
        ensures
            get@ == fund_get(self@),
    {
        HttpGet { url: self.url(), user_agent: None }
    }
}

/// Decides what follows the sending of a fund request.
pub fn fund_on_send(outcome: SendOutcome) -> (step: FundStep)
    ensures
        step@ == fund_step(outcome@),
{
    match outcome {
        SendOutcome::ClientFailed(cause) => FundStep::Fail(ProxyError::ClientConstruction(cause)),
        SendOutcome::RequestFailed(cause) => FundStep::Fail(ProxyError::Request(cause)),
        SendOutcome::Responded(_) => FundStep::ReadBody,
    }
}

/// Turns the outcome of decoding into the result of the fund path.
pub fn fund_from_decoded(text: String, had_errors: bool) -> (result: Result<String, ProxyError>)
    ensures
        fund_result_view(result) == fund_decoded(text@, had_errors),
{
    if had_errors {
        Err(ProxyError::Encoding)
    } else {
        Ok(text)
    }
}

/// Whether a body of `len` bytes is short enough for `fund_on_body`.
pub fn fund_len_fits(len: usize) -> (fits: bool)
    ensures
        fits == decodable_len(len as nat),
{
    len <= (isize::MAX as usize) / 3
}

/// Decodes the body of a response, or reports why there is none.
pub fn fund_on_body(body: Result<Vec<u8>, String>) -> (result: Result<String, ProxyError>)
    requires
        fund_body_fits(body_view(body)),
    ensures
        fund_result_view(result) == fund_result(body_view(body)),
{
    match body {
        Ok(bytes) => {
            let (text, had_errors) = decode_shift_jis(bytes.as_slice());
            fund_from_decoded(text, had_errors)
        },
        Err(cause) => Err(ProxyError::ResponseRead(cause)),
    }
}

/// The status of a response has no say in the fund path: whatever the code,
/// the body is read, and a body that decodes without a malformed sequence is
/// returned as text.
pub proof fn lemma_fund_ignores_status(code: u16, bytes: Seq<u8>)
    requires
        !shift_jis_decode(bytes).1,
    ensures
        fund_step(SendOutcomeView::Responded(code)) == FundStepView::ReadBody,
        fund_result(Ok(bytes)) == Ok::<Seq<char>, ProxyErrorView>(shift_jis_decode(bytes).0),
{
}

} // verus!
