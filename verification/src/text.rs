//! Two text conversions of std that vstd does not specify.

use vstd::prelude::*;

verus! {

/// What `format!("{:?}", s)` gives for a string `s`: the string in double
/// quotes, with quotes, backslashes and control characters escaped.
pub uninterp spec fn str_debug_text(s: Seq<char>) -> Seq<char>;

/// What `String::from_utf8_lossy` gives for the bytes: their UTF-8 decoding,
/// each invalid sequence replaced by U+FFFD.
pub uninterp spec fn utf8_lossy_text(bytes: Seq<u8>) -> Seq<char>;

/// The `Debug` rendering of a string, by `format!("{:?}", s)`. Claimed: the
/// text is `str_debug_text` of the string's characters, which depends on them
/// alone.
#[verifier::external_body]
pub(crate) fn debug_quoted(s: &str) -> (r: String)
    ensures
        r@ == str_debug_text(s@),
{
    format!("{:?}", s)
}

/// Decodes bytes with `String::from_utf8_lossy`. Claimed: the text is
/// `utf8_lossy_text` of the bytes, and, as std documents, valid UTF-8 is
/// decoded unchanged.
#[verifier::external_body]
pub(crate) fn decode_lossy(bytes: &[u8]) -> (r: String)
    ensures
        r@ == utf8_lossy_text(bytes@),
        vstd::utf8::valid_utf8(bytes@) ==> r@ == vstd::utf8::decode_utf8(bytes@),
{
    String::from_utf8_lossy(bytes).into_owned()
}

} // verus!
