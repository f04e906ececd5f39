//! What the terminals get back from the serial port, as plain values, and the
//! decoding of received bytes into text.
use vstd::prelude::*;
use vstd::utf8::{decode_utf8, valid_utf8};

verus! {

/// The outcome of one read from a serial port.
pub enum PortRead {
    /// The read returned these bytes (possibly none).
    Bytes(Vec<u8>),
    /// The read timed out before any byte arrived.
    TimedOut,
    /// The read failed; the text describes the error.
    Failed(String),
}

/// Text that `String::from_utf8_lossy` makes of a byte sequence: invalid
/// UTF-8 sequences become U+FFFD replacement characters.
pub uninterp spec fn lossy_utf8(bytes: Seq<u8>) -> Seq<char>;

/// Calls `String::from_utf8_lossy` and takes an owned copy of its result.
/// Claimed: the text is `lossy_utf8` of the bytes, and valid UTF-8 is
/// decoded unchanged (the standard library documents both).
#[verifier::external_body]
pub(crate) fn decode_lossy(bytes: &[u8]) -> (r: String)
    ensures
        r@ == lossy_utf8(bytes@),
        valid_utf8(bytes@) ==> r@ == decode_utf8(bytes@),
{
    String::from_utf8_lossy(bytes).to_string()
}

/// Calls `String::from_utf8`, which accepts exactly the valid UTF-8 byte
/// sequences. Claimed: `Some` exactly for valid UTF-8, holding its decoding.
#[verifier::external_body]
pub(crate) fn decode_utf8_strict(bytes: Vec<u8>) -> (r: Option<String>)
    ensures
        r is Some <==> valid_utf8(bytes@),
        r matches Some(s) ==> s@ == decode_utf8(bytes@),
{
    String::from_utf8(bytes).ok()
}

} // verus!
