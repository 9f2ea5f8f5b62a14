//! Text formatting of bytes and registers.

use vstd::prelude::*;
use crate::text::{hex_bytes_spaced, hex_words_spaced, push_hex_bytes_spaced, push_hex_words_spaced};

verus! {

/// Bytes as two-digit upper-case hexadecimal separated by spaces, such as
/// `01 03 10 FF`.
pub fn bytes_to_hex(bytes: &[u8]) -> (s: String)
    ensures
        s@ == hex_bytes_spaced(bytes@),
{
    let mut s = String::new();
    push_hex_bytes_spaced(&mut s, bytes);
    s
}

/// Registers as four-digit upper-case hexadecimal separated by spaces, such as
/// `1234 5678`.
pub fn registers_to_hex(registers: &[u16]) -> (s: String)
    ensures
        s@ == hex_words_spaced(registers@),
{
    let mut s = String::new();
    push_hex_words_spaced(&mut s, registers);
    s
}

} // verus!
