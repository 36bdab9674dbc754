//! Trusted doorway to base64: the encoding of a byte sequence is a named
//! function of the bytes alone.

use vstd::prelude::*;

verus! {

/// What base64's standard alphabet, with padding, encodes the given bytes
/// to.
pub uninterp spec fn b64_of(data: Seq<u8>) -> Seq<char>;

/// Relies on base64's general_purpose::STANDARD engine: the encoding is a
/// function of the bytes alone, four output characters for every started
/// group of three input bytes. The length bound keeps the engine's own
/// output-size arithmetic below the machine's range, where it would
/// panic.
#[verifier::external_body]
pub fn base64_encode(data: &[u8]) -> (r: String)
    requires
        data@.len() <= 0xffffffff,
    ensures
        r@ == b64_of(data@),
        r@.len() == 4 * ((data@.len() + 2) / 3),
{
    base64::Engine::encode(&base64::engine::general_purpose::STANDARD, data)
}

} // verus!
