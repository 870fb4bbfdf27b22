//! What the library asks of the driver that performs the HTTP exchange, and
//! what the driver reports back.

use vstd::prelude::*;
use crate::status::HttpStatus;

verus! {

/// A single GET request for the driver to send.
#[derive(Clone, Debug)]
pub struct HttpGet {
    /// The complete URL.
    pub url: String,
    /// The `User-Agent` header to send, if the endpoint needs one.
    pub user_agent: Option<&'static str>,
}

/// An `HttpGet` over sequences of characters.
pub ghost struct HttpGetView {
    pub url: Seq<char>,
    pub user_agent: Option<Seq<char>>,
}

impl View for HttpGet {
    type V = HttpGetView;

    open spec fn view(&self) -> HttpGetView {
        HttpGetView {
            url: self.url@,
            user_agent: match self.user_agent {
                Some(agent) => Some(agent@),
                None => None,
            },
        }
    }
}

/// How sending the request ended.
#[derive(Debug)]
pub enum SendOutcome {
    /// The client could not be built. Carries the cause.
    ClientFailed(String),
    /// No response arrived. Carries the cause.
    RequestFailed(String),
    /// A response arrived with this status; its body is still unread.
    Responded(HttpStatus),
}

/// A `SendOutcome` over sequences of characters and a plain status code.
pub ghost enum SendOutcomeView {
    ClientFailed(Seq<char>),
    RequestFailed(Seq<char>),
    Responded(u16),
}

impl View for SendOutcome {
    type V = SendOutcomeView;

    open spec fn view(&self) -> SendOutcomeView {
        match *self {
            SendOutcome::ClientFailed(cause) => SendOutcomeView::ClientFailed(cause@),
            SendOutcome::RequestFailed(cause) => SendOutcomeView::RequestFailed(cause@),
            SendOutcome::Responded(status) => SendOutcomeView::Responded(status@),
        }
    }
}

/// The bytes of a body that was read, or the cause of the failure to read it.
pub open spec fn body_view(body: Result<Vec<u8>, String>) -> Result<Seq<u8>, Seq<char>> {
    match body {
        Ok(bytes) => Ok(bytes@),
        Err(cause) => Err(cause@),
    }
}

} // verus!
