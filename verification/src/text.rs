//! Lossy UTF-8 decoding of byte fields, named but not interpreted.

use vstd::prelude::*;

verus! {

/// The characters that lossy UTF-8 decoding yields for `bytes`
/// (ill-formed sequences become replacement characters).
pub uninterp spec fn utf8_lossy(bytes: Seq<u8>) -> Seq<char>;

/// Relies on String::from_utf8_lossy: decodes UTF-8, replacing ill-formed
/// sequences with U+FFFD; the result depends on the bytes alone.
#[verifier::external_body]
pub(crate) fn lossy_string(bytes: &[u8]) -> (r: String)
    ensures
        r@ == utf8_lossy(bytes@),
{
    String::from_utf8_lossy(bytes).into_owned()
}

} // verus!
