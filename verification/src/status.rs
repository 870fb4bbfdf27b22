//! HTTP status codes.

use vstd::prelude::*;
use vstd::pervasive::unreached;

verus! {

/// Whether a number is one that an HTTP response can carry as its status.
pub open spec fn is_status_code(code: u16) -> bool {
    100 <= code <= 999
}

/// Whether a code lies in the success range.
pub open spec fn is_success(code: u16) -> bool {
    200 <= code <= 299
}

/// The character of a decimal digit.
pub open spec fn digit(d: u16) -> char {
    ((48 + d) as u8) as char
}

/// The three decimal digits of a code from 100 to 999, and a space.
pub open spec fn code_prefix(code: u16) -> Seq<char> {
    seq![digit(code / 100), digit(code / 10 % 10), digit(code % 10), ' ']
}

/// Whether a text opens with the digits of `code` and a space.
pub open spec fn opens_with_code(line: Seq<char>, code: u16) -> bool {
    line.len() >= 4 && line.subrange(0, 4) == code_prefix(code)
}

/// What `reqwest::StatusCode` displays for a code: the number, a space, and
/// the canonical reason phrase.
pub uninterp spec fn status_line(code: u16) -> Seq<char>;

/// Calls `reqwest::StatusCode::from_u16` and formats the status through its
/// `Display` impl.
///
/// Not proved: that a status exists exactly for the codes from 100 to 999,
/// that its text is the one `status_line` names, and that this text opens
/// with the code in decimal and a space.
#[verifier::external_body]
fn describe_status(code: u16) -> (r: Option<String>)
    ensures
        r is Some <==> is_status_code(code),
        r matches Some(s) ==> s@ == status_line(code) && opens_with_code(s@, code),
{
    match reqwest::StatusCode::from_u16(code) {
        Ok(status) => Some(status.to_string()),
        Err(_) => None,
    }
}

/// The status of an HTTP response: a code from 100 to 999.
#[derive(Clone, Copy, Debug)]
pub struct HttpStatus {
    code: u16,
}

impl View for HttpStatus {
    type V = u16;

    closed spec fn view(&self) -> u16 {
        self.code
    }
}

impl HttpStatus {
    #[verifier::type_invariant]
    spec fn in_range(self) -> bool {
        is_status_code(self.code)
    }

    /// Accepts the codes that a response can carry and no others.
    pub fn new(code: u16) -> (r: Option<HttpStatus>)
        ensures
            r is Some <==> is_status_code(code),
            r matches Some(status) ==> status@ == code,
    {
        if 100 <= code && code <= 999 {
            Some(HttpStatus { code })
        } else {
            None
        }
    }

    /// The numeric code.
    pub fn code(&self) -> (code: u16)
        ensures
            code == self@,
            is_status_code(code),
    {
        proof {
            use_type_invariant(self);
        }
        self.code
    }

    /// Whether the code lies in the success range.
    pub fn is_success(&self) -> (r: bool)
        ensures
            r == is_success(self@),
    {
        200 <= self.code && self.code <= 299
    }

    /// The code in decimal, a space, and the canonical reason phrase.
    pub fn describe(&self) -> (line: String)
        ensures
            line@ == status_line(self@),
            opens_with_code(line@, self@),
    {
        proof {
            use_type_invariant(self);
        }
        match describe_status(self.code) {
            Some(line) => line,
            None => unreached(),
        }
    }
}

} // verus!
