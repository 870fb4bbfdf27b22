//! The two request records and their mathematical views.

use vstd::prelude::*;

verus! {

/// What to fetch from the chart endpoint.
#[derive(Clone, Debug)]
pub struct QuoteRequest {
    /// Ticker identifier, used verbatim in the URL path.
    pub symbol: String,
    /// Start of an explicit time range.
    pub range_start: Option<String>,
    /// End of an explicit time range.
    pub range_end: Option<String>,
    /// Sampling interval; `"1d"` when absent.
    pub interval: Option<String>,
    /// Symbolic range; `"1d"` when absent. Read only without an explicit range.
    pub range: Option<String>,
}

/// What to fetch from the fund endpoint.
#[derive(Clone, Debug)]
pub struct FundRequest {
    /// Security identifier.
    pub isin_code: String,
    /// Associated fund code.
    pub associated_fund_code: String,
}

/// A `QuoteRequest` as sequences of characters.
pub ghost struct QuoteRequestView {
    pub symbol: Seq<char>,
    pub range_start: Option<Seq<char>>,
    pub range_end: Option<Seq<char>>,
    pub interval: Option<Seq<char>>,
    pub range: Option<Seq<char>>,
}

/// A `FundRequest` as sequences of characters.
pub ghost struct FundRequestView {
    pub isin_code: Seq<char>,
    pub associated_fund_code: Seq<char>,
}

/// The characters of an optional string.
pub open spec fn text_of(s: Option<String>) -> Option<Seq<char>> {
    match s {
        Some(t) => Some(t@),
        None => None,
    }
}

impl View for QuoteRequest {
    type V = QuoteRequestView;

    open spec fn view(&self) -> QuoteRequestView {
        QuoteRequestView {
            symbol: self.symbol@,
            range_start: text_of(self.range_start),
            range_end: text_of(self.range_end),
            interval: text_of(self.interval),
            range: text_of(self.range),
        }
    }
}

impl View for FundRequest {
    type V = FundRequestView;

    open spec fn view(&self) -> FundRequestView {
        FundRequestView {
            isin_code: self.isin_code@,
            associated_fund_code: self.associated_fund_code@,
        }
    }
}

} // verus!
