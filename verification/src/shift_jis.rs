//! Strict Shift-JIS decoding, done by `encoding_rs`. The bytes are taken as
//! Shift-JIS from the first one on: a byte-order mark selects no other
//! encoding and counts as malformed.

use vstd::prelude::*;

verus! {

/// What `encoding_rs::SHIFT_JIS.decode_without_bom_handling` returns for a
/// complete input: the text with each malformed sequence replaced, and
/// whether there was any malformed sequence.
pub uninterp spec fn shift_jis_decode(bytes: Seq<u8>) -> (Seq<char>, bool);

/// The longest input whose worst-case output, three bytes for each input
/// byte, still fits an allocation.
pub open spec fn decodable_len(len: nat) -> bool {
    3 * len <= isize::MAX
}

/// Calls `Encoding::decode_without_bom_handling` on `encoding_rs::SHIFT_JIS`.
///
/// Not proved: that text and flag are the pair `shift_jis_decode` names, that
/// is, that they depend on the bytes alone. Longer inputs are left out because
/// the size computation of the output buffer panics on overflow.
#[verifier::external_body]
pub(crate) fn decode_shift_jis(bytes: &[u8]) -> (r: (String, bool))
    requires
        decodable_len(bytes@.len()),
    ensures
        (r.0@, r.1) == shift_jis_decode(bytes@),
{
    let (text, had_errors) = encoding_rs::SHIFT_JIS.decode_without_bom_handling(bytes);
    (text.into_owned(), had_errors)
}

} // verus!
