//! JSON parsing, done by `serde_json` and carried through as an opaque value.

use vstd::prelude::*;

verus! {

/// `serde_json::Value`: a parsed document, which the library hands on unread.
#[verifier::external_type_specification]
#[verifier::external_body]
pub struct ExJsonValue(serde_json::Value);

/// `serde_json::Error`: why a document could not be parsed.
#[verifier::external_type_specification]
#[verifier::external_body]
pub struct ExJsonError(serde_json::Error);

/// What `serde_json::from_slice::<serde_json::Value>` returns for a complete input.
pub uninterp spec fn json_from_slice(bytes: Seq<u8>) -> Result<serde_json::Value, serde_json::Error>;

/// The text that `serde_json::Error` displays.
pub uninterp spec fn json_error_text(error: serde_json::Error) -> Seq<char>;

/// Calls `serde_json::from_slice` with `serde_json::Value` as the target type.
///
/// Not proved: that the outcome is the one `json_from_slice` names, that is,
/// that it depends on the bytes alone.
#[verifier::external_body]
pub(crate) fn parse_json(bytes: &[u8]) -> (r: Result<serde_json::Value, serde_json::Error>)
    ensures
        r == json_from_slice(bytes@),
{
    serde_json::from_slice::<serde_json::Value>(bytes)
}

/// Formats a `serde_json::Error` through its `Display` impl.
///
/// Not proved: that the text is the one `json_error_text` names, that is, that
/// it depends on the error alone.
#[verifier::external_body]
pub(crate) fn describe_json_error(error: &serde_json::Error) -> (s: String)
    ensures
        s@ == json_error_text(*error),
{
    error.to_string()
}

} // verus!
