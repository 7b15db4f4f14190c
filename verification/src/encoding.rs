//! Base64, as the contents API of the source-control host wants file
//! contents.

use base64::Engine;
use vstd::prelude::*;

verus! {

/// The base64 text of a text: what `base64`'s `STANDARD` engine (standard
/// alphabet, with padding) writes for the bytes of its UTF-8 encoding.
pub uninterp spec fn base64_standard(text: Seq<char>) -> Seq<char>;

/// Calls `Engine::encode` on `base64::engine::general_purpose::STANDARD`
/// with the bytes of the text. The result depends on those bytes alone. The
/// call panics only where the encoded length does not fit in `usize`, which
/// no text in memory reaches: a text has at most `isize::MAX` bytes, and the
/// encoding is a third longer.
#[verifier::external_body]
pub(crate) fn base64_text(text: &str) -> (r: String)
    ensures
        r@ == base64_standard(text@),
{
    base64::engine::general_purpose::STANDARD.encode(text)
}

} // verus!
