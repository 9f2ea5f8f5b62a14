//! The debug line that logs a request and its response.

use vstd::prelude::*;
use crate::text::{dec_str, hex_bytes_spaced, push_decimal, push_hex_bytes_spaced, push_text};

verus! {

/// The line that logs a request and its response: a check or cross mark,
/// slave, function, address, bytes and the duration's text.
pub open spec fn request_response_text(slave_id: u8, function: Seq<char>, address: u16, data: Seq<u8>, duration: Seq<char>, success: bool) -> Seq<char> {
    (if success {
        "✅"@
    } else {
        "❌"@
    }) + " Slave "@ + dec_str(slave_id as nat) + " "@ + function + " @ "@ + dec_str(address as nat)
        + " | Data: "@ + hex_bytes_spaced(data) + " | Duration: "@ + duration
}

/// The line that logs a request and its response, given the duration as
/// text.
pub fn request_response_line(slave_id: u8, function: &str, address: u16, data: &[u8], duration: &str, success: bool) -> (s: String)
    ensures
        s@ == request_response_text(slave_id, function@, address, data@, duration@, success),
{
    let mut s = String::new();
    if success {
        push_text(&mut s, "✅");
    } else {
        push_text(&mut s, "❌");
    }
    push_text(&mut s, " Slave ");
    push_decimal(&mut s, slave_id as u64);
    push_text(&mut s, " ");
    push_text(&mut s, function);
    push_text(&mut s, " @ ");
    push_decimal(&mut s, address as u64);
    push_text(&mut s, " | Data: ");
    push_hex_bytes_spaced(&mut s, data);
    push_text(&mut s, " | Duration: ");
    push_text(&mut s, duration);
    s
}

} // verus!
