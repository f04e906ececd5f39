//! Hex helpers of the hex-mode terminal: the same encoding as [`crate::hex`],
//! with its own wording of the odd-length error.
use vstd::prelude::*;
use crate::hex::{decode_hex_text, hex_decode, hex_dump, invalid_digit_text, HexDecode};

verus! {

/// Renders bytes as upper-case hex, two digits per byte, separated by single
/// spaces.
pub fn bytes_to_hex(bytes: &[u8]) -> (r: String)
    ensures
        r@ == hex_dump(bytes@),
{
    crate::hex::bytes_to_hex(bytes)
}

/// Decodes hex text into bytes, ignoring white space; an odd number of bytes
/// left is reported as "Hex string must have even length", a pair that is no
/// base-16 number as "invalid digit found in string".
pub fn hex_to_bytes(s: &str) -> (r: Result<Vec<u8>, String>)
    requires
        !(hex_decode(s@) is SliceFails),
    ensures
        match hex_decode(s@) {
            HexDecode::Bytes(b) => r matches Ok(v) && v@ == b,
            HexDecode::OddLength => r matches Err(e) && e@ == "Hex string must have even length"@,
            _ => r matches Err(e) && e@ == invalid_digit_text(),
        },
{
    decode_hex_text(s, "Hex string must have even length")
}

} // verus!
