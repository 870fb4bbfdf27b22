//! Construction of the outbound URLs.

use vstd::prelude::*;
use vstd::string::StringExecFns;
use crate::request::{FundRequest, FundRequestView, QuoteRequest, QuoteRequestView};
use crate::text::{
    lacks_char, lemma_lacking_text, lemma_occurs_between, lemma_occurs_in_part,
    lemma_occurs_in_whole, occurs_in, only_ends, only_starts,
};

verus! {

/// Interval and range used when a quote request names none.
pub const DEFAULT_SPAN: &'static str = "1d";

/// The characters of `value`, or of the default span when there is none.
pub open spec fn or_default_span(value: Option<Seq<char>>) -> Seq<char> {
    match value {
        Some(t) => t,
        None => DEFAULT_SPAN@,
    }
}

/// Whether a quote request selects the explicit time range form.
pub open spec fn has_explicit_range(req: QuoteRequestView) -> bool {
    req.range_start is Some && req.range_end is Some
}

/// The query string of a quote request.
pub open spec fn quote_query(req: QuoteRequestView) -> Seq<char> {
    if has_explicit_range(req) {
        "period1="@ + req.range_start->0 + "&period2="@ + req.range_end->0 + "&interval="@
            + or_default_span(req.interval)
    } else {
        "interval="@ + or_default_span(req.interval) + "&range="@ + or_default_span(req.range)
    }
}

/// The URL of a quote request.
pub open spec fn quote_url(req: QuoteRequestView) -> Seq<char> {
    "https://query1.finance.yahoo.com/v8/finance/chart/"@ + req.symbol + "?"@ + quote_query(req)
}

/// The URL of a fund request.
pub open spec fn fund_url(req: FundRequestView) -> Seq<char> {
    "https://toushin-lib.fwg.ne.jp/FdsWeb/FDST030000/csv-file-download?isinCd="@ + req.isin_code
        + "&associFundCd="@ + req.associated_fund_code
}

fn span_or_default(value: &Option<String>) -> (r: &str)
    ensures
        r@ == or_default_span(crate::request::text_of(*value)),
{
    match value {
        Some(t) => t.as_str(),
        None => DEFAULT_SPAN,
    }
}

impl QuoteRequest {
    /// Builds the chart URL. Nothing is escaped: every field is inserted as it is.
    pub fn url(&self) -> (u: String)
        ensures
            u@ == quote_url(self@),
    {
        let mut u = String::from_str("https://query1.finance.yahoo.com/v8/finance/chart/");
        u.append(self.symbol.as_str());
        u.append("?");
        match (&self.range_start, &self.range_end) {
            (Some(start), Some(end)) => {
                u.append("period1=");
                u.append(start.as_str());
                u.append("&period2=");
                u.append(end.as_str());
                u.append("&interval=");
                u.append(span_or_default(&self.interval));
            },
            _ => {
                u.append("interval=");
                u.append(span_or_default(&self.interval));
                u.append("&range=");
                u.append(span_or_default(&self.range));
            },
        }
        u
    }
}

impl FundRequest {
    /// Builds the fund download URL. Nothing is escaped.
    pub fn url(&self) -> (u: String)
        ensures
            u@ == fund_url(self@),
    {
        let mut u = String::from_str(
            "https://toushin-lib.fwg.ne.jp/FdsWeb/FDST030000/csv-file-download?isinCd=",
        );
        u.append(self.isin_code.as_str());
        u.append("&associFundCd=");
        u.append(self.associated_fund_code.as_str());
        u
    }
}

/// Whether a field that the explicit range form inserts holds `pattern`.
pub open spec fn explicit_range_field_holds(req: QuoteRequestView, pattern: Seq<char>) -> bool {
    ||| occurs_in(req.symbol, pattern)
    ||| occurs_in(req.range_start->0, pattern)
    ||| occurs_in(req.range_end->0, pattern)
    ||| (req.interval matches Some(interval) && occurs_in(interval, pattern))
}

/// With both ends of the range set, the URL holds `period1=`, `period2=` and
/// `interval=`.
pub proof fn lemma_explicit_range_names_parameters(req: QuoteRequestView)
    requires
        has_explicit_range(req),
    ensures
        occurs_in(quote_url(req), "period1="@),
        occurs_in(quote_url(req), "period2="@),
        occurs_in(quote_url(req), "interval="@),
{
    let url = quote_url(req);
    let head = "https://query1.finance.yahoo.com/v8/finance/chart/"@ + req.symbol + "?"@;
    let start = req.range_start->0;
    let end = req.range_end->0;
    let interval = or_default_span(req.interval);
    let mid = "period1="@ + start;
    let tail = "&period2="@ + end + "&interval="@ + interval;

    lemma_occurs_between(head, "period1="@, start + tail);
    assert(url =~= head + "period1="@ + (start + tail));

    lemma_occurs_between(head + mid + "&"@, "period2="@, end + "&interval="@ + interval);
    assert("&period2="@ =~= "&"@ + "period2="@) by {
        reveal_strlit("&period2=");
        reveal_strlit("&");
        reveal_strlit("period2=");
    }
    assert(url =~= head + mid + "&"@ + "period2="@ + (end + "&interval="@ + interval));

    lemma_occurs_between(head + mid + "&period2="@ + end + "&"@, "interval="@, interval);
    assert("&interval="@ =~= "&"@ + "interval="@) by {
        reveal_strlit("&interval=");
        reveal_strlit("&");
        reveal_strlit("interval=");
    }
    assert(url =~= head + mid + "&period2="@ + end + "&"@ + "interval="@ + interval);
}

/// With both ends of the range set, the URL holds `range=` only where a field
/// of the request brought it in: nothing that the builder adds holds it.
pub proof fn lemma_explicit_range_omits_range(req: QuoteRequestView)
    requires
        has_explicit_range(req),
    ensures
        occurs_in(quote_url(req), "range="@) <==> explicit_range_field_holds(req, "range="@),
{
    let pattern = "range="@;
    let base = "https://query1.finance.yahoo.com/v8/finance/chart/"@;
    let start = req.range_start->0;
    let end = req.range_end->0;
    let interval = or_default_span(req.interval);
    let u0 = base + req.symbol;
    let u1 = u0 + "?"@;
    let u2 = u1 + "period1="@;
    let u3 = u2 + start;
    let u4 = u3 + "&period2="@;
    let u5 = u4 + end;
    let u6 = u5 + "&interval="@;
    let u7 = u6 + interval;
    assert(quote_url(req) =~= u7);

    reveal_strlit("range=");
    reveal_strlit("https://query1.finance.yahoo.com/v8/finance/chart/");
    reveal_strlit("?");
    reveal_strlit("period1=");
    reveal_strlit("&period2=");
    reveal_strlit("&interval=");
    reveal_strlit("1d");
    assert(pattern[3] == 'g');
    assert(only_ends(pattern, '='));
    assert(only_ends(pattern, '/'));
    assert(only_ends(pattern, '?'));
    assert(only_starts(pattern, '&'));
    assert(only_starts(pattern, '?'));

    assert(!occurs_in(base, pattern)) by {
        reveal_with_fuel(lacks_char, 51);
        lemma_lacking_text(base, pattern, 3);
    }
    assert(!occurs_in("?"@, pattern));
    assert(!occurs_in("period1="@, pattern)) by {
        reveal_with_fuel(lacks_char, 9);
        lemma_lacking_text("period1="@, pattern, 3);
    }
    assert(!occurs_in("&period2="@, pattern)) by {
        reveal_with_fuel(lacks_char, 10);
        lemma_lacking_text("&period2="@, pattern, 3);
    }
    assert(!occurs_in("&interval="@, pattern)) by {
        reveal_with_fuel(lacks_char, 11);
        lemma_lacking_text("&interval="@, pattern, 3);
    }
    assert(!occurs_in("1d"@, pattern));

    if occurs_in(u7, pattern) {
        assert(u6.last() == '=');
        lemma_occurs_in_whole(u6, interval, pattern);
        if occurs_in(u6, pattern) {
            lemma_occurs_in_whole(u5, "&interval="@, pattern);
            assert(u4.last() == '=');
            lemma_occurs_in_whole(u4, end, pattern);
            if occurs_in(u4, pattern) {
                lemma_occurs_in_whole(u3, "&period2="@, pattern);
                assert(u2.last() == '=');
                lemma_occurs_in_whole(u2, start, pattern);
                if occurs_in(u2, pattern) {
                    assert(u1.last() == '?');
                    lemma_occurs_in_whole(u1, "period1="@, pattern);
                    lemma_occurs_in_whole(u0, "?"@, pattern);
                    assert(base.last() == '/');
                    lemma_occurs_in_whole(base, req.symbol, pattern);
                }
            }
        }
    }
    if occurs_in(req.symbol, pattern) {
        lemma_occurs_in_part(base, req.symbol, pattern);
        lemma_occurs_in_part(u0, "?"@, pattern);
        lemma_occurs_in_part(u1, "period1="@, pattern);
    }
    if occurs_in(u2, pattern) || occurs_in(start, pattern) {
        lemma_occurs_in_part(u2, start, pattern);
        lemma_occurs_in_part(u3, "&period2="@, pattern);
    }
    if occurs_in(u4, pattern) || occurs_in(end, pattern) {
        lemma_occurs_in_part(u4, end, pattern);
        lemma_occurs_in_part(u5, "&interval="@, pattern);
    }
    if occurs_in(u6, pattern) || occurs_in(interval, pattern) {
        lemma_occurs_in_part(u6, interval, pattern);
    }
}

/// With only one end of the range set, the URL has the `interval=` and
/// `range=` form, and the end that was set appears nowhere in it.
pub proof fn lemma_half_range_uses_symbolic_range(req: QuoteRequestView)
    requires
        (req.range_start is Some) != (req.range_end is Some),
    ensures
        quote_url(req) == "https://query1.finance.yahoo.com/v8/finance/chart/"@ + req.symbol
            + "?"@ + ("interval="@ + or_default_span(req.interval) + "&range="@ + or_default_span(
            req.range,
        )),
        quote_url(req) == quote_url(
            QuoteRequestView { range_start: None, range_end: None, ..req },
        ),
{
}

/// An interval or a range that was left out counts as `1d`.
pub proof fn lemma_omitted_span_is_one_day(req: QuoteRequestView)
    ensures
        DEFAULT_SPAN@ == seq!['1', 'd'],
        req.interval is None ==> quote_url(req) == quote_url(
            QuoteRequestView { interval: Some(seq!['1', 'd']), ..req },
        ),
        req.range is None ==> quote_url(req) == quote_url(
            QuoteRequestView { range: Some(seq!['1', 'd']), ..req },
        ),
{
    reveal_strlit("1d");
    assert(DEFAULT_SPAN@ =~= seq!['1', 'd']);
}

} // verus!
