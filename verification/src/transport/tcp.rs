//! Modbus TCP framing: a 7-byte MBAP header (transaction id, protocol id 0,
//! length, unit id) in front of the function code and its fields.

use vstd::prelude::*;
use crate::error::{ModbusError, ModbusResult, is_frame_error};
use crate::protocol::{
    ModbusFunction, ModbusRequest, ModbusResponse, exception_of_code, function_code,
    function_of_code,
};
use crate::transport::{
    TransportStats, be_bytes, frame_word, is_exception_response, is_success_response, push_be16, push_request_body,
    request_body,
};

verus! {

/// Size of the MBAP header without the unit id.
pub const MBAP_HEADER_SIZE: usize = 6;

/// The transaction id that follows `current`: one more, skipping 0.
pub open spec fn next_tid(current: u16) -> u16 {
    if current == 0xFFFF {
        1
    } else {
        (current + 1) as u16
    }
}

/// The transaction id that follows `current`.
pub fn next_transaction_id(current: u16) -> (r: u16)
    ensures
        r == next_tid(current),
        r != 0,
{
    let next = if current == 0xFFFF {
        0
    } else {
        current + 1
    };
    if next == 0 {
        1
    } else {
        next
    }
}

/// The TCP frame of a request: transaction id, protocol id 0, the length of
/// the body, then the body.
pub open spec fn tcp_request_frame(r: ModbusRequest, transaction_id: u16) -> Seq<u8> {
    let body = request_body(r);
    be_bytes(transaction_id) + be_bytes(0) + be_bytes(body.len() as u16) + body
}

/// Encodes a request as a TCP frame with the given transaction id.
pub fn encode_tcp_request(request: &ModbusRequest, transaction_id: u16) -> (frame: Vec<u8>)
    ensures
        frame@ == tcp_request_frame(*request, transaction_id),
{
    let mut body: Vec<u8> = Vec::new();
    push_request_body(&mut body, request);
    let mut frame: Vec<u8> = Vec::new();
    push_be16(&mut frame, transaction_id);
    push_be16(&mut frame, 0);
    push_be16(&mut frame, body.len() as u16);
    let ghost head = frame@;
    crate::transport::push_all(&mut frame, body.as_slice());
    assert(frame@ =~= tcp_request_frame(*request, transaction_id));
    frame
}

/// The length field of a TCP frame.
pub open spec fn tcp_length(f: Seq<u8>) -> int {
    frame_word(f, 4) as int
}

/// Frames on which decoding would cut the payload before it starts: a normal
/// response with a supported function whose length field is below 2.
pub open spec fn tcp_decode_undefined(f: Seq<u8>) -> bool {
    &&& f.len() >= 8
    &&& f.len() >= 6 + tcp_length(f)
    &&& f[7] < 0x80
    &&& function_of_code(f[7]) is Some
    &&& tcp_length(f) < 2
}

/// Whether decoding a TCP response frame is defined.
pub fn tcp_decode_defined(frame: &[u8]) -> (r: bool)
    ensures
        r == !tcp_decode_undefined(frame@),
{
    if frame.len() < 8 {
        return true;
    }
    let length: u16 = (frame[4] as u16) * 256 + (frame[5] as u16);
    !(frame.len() >= 6 + length as usize && frame[7] < 0x80 && ModbusFunction::from_u8(frame[7]).is_ok()
        && length < 2)
}

/// Decodes a TCP response frame.
pub fn decode_tcp_response(frame: &[u8]) -> (r: ModbusResult<ModbusResponse>)
    requires
        !tcp_decode_undefined(frame@),
    ensures
        frame@.len() < 8 ==> (r matches Err(e) && is_frame_error(e, "Frame too short"@)),
        frame@.len() >= 8 && frame@.len() < 6 + tcp_length(frame@) ==> (r matches Err(e)
            && is_frame_error(e, "Incomplete frame"@)),
        frame@.len() >= 8 && frame@.len() >= 6 + tcp_length(frame@) && frame@[7] >= 0x80 ==> {
            let f = frame@;
            if f.len() < 9 {
                r matches Err(e) && is_frame_error(e, "Invalid exception response"@)
            } else {
                match function_of_code((f[7] - 0x80) as u8) {
                    None => r == Err::<ModbusResponse, ModbusError>(
                        ModbusError::InvalidFunction { code: (f[7] - 0x80) as u8 },
                    ),
                    Some(g) => r matches Ok(resp) && is_exception_response(resp, f[6], g, f[8]),
                }
            }
        },
        frame@.len() >= 8 && frame@.len() >= 6 + tcp_length(frame@) && frame@[7] < 0x80 ==> {
            let f = frame@;
            match function_of_code(f[7]) {
                None => r == Err::<ModbusResponse, ModbusError>(
                    ModbusError::InvalidFunction { code: f[7] },
                ),
                Some(g) => r matches Ok(resp) && is_success_response(
                    resp,
                    f[6],
                    g,
                    f.subrange(8, 6 + tcp_length(f)),
                ),
            }
        },
{
    if frame.len() < MBAP_HEADER_SIZE + 2 {
        return Err(ModbusError::frame("Frame too short"));
    }
    let length: u16 = (frame[4] as u16) * 256 + (frame[5] as u16);
    let slave_id = frame[6];
    if frame.len() < MBAP_HEADER_SIZE + length as usize {
        return Err(ModbusError::frame("Incomplete frame"));
    }
    let function_code = frame[7];
    if function_code >= 0x80 {
        if frame.len() < MBAP_HEADER_SIZE + 3 {
            return Err(ModbusError::frame("Invalid exception response"));
        }
        let base_function = function_code - 0x80;
        let exception_code = frame[8];
        let function = ModbusFunction::from_u8(base_function)?;
        return Ok(ModbusResponse::new_exception(slave_id, function, exception_code));
    }
    let function = ModbusFunction::from_u8(function_code)?;
    let end = MBAP_HEADER_SIZE + length as usize;
    let data = vstd::slice::slice_to_vec(vstd::slice::slice_subrange(frame, 8, end));
    Ok(ModbusResponse::new_success(slave_id, function, data))
}

/// The number of bytes that follow the 7-byte header of a response (MBAP
/// header and unit id): the length field less one, at least 0; a length field
/// above 260 is an error, and counts as one.
pub fn tcp_remaining_length(stats: &mut TransportStats, header: &[u8]) -> (r: ModbusResult<usize>)
    requires
        header@.len() >= 6,
        old(stats).errors < u64::MAX,
    ensures
        frame_word(header@, 4) > crate::MAX_TCP_FRAME_SIZE ==> (r matches Err(e) && is_frame_error(
            e,
            "Response frame too large"@,
        )),
        frame_word(header@, 4) <= crate::MAX_TCP_FRAME_SIZE ==> r == Ok::<usize, ModbusError>(
            if frame_word(header@, 4) == 0 {
                0usize
            } else {
                (frame_word(header@, 4) - 1) as usize
            },
        ),
        *final(stats) == if r is Ok {
            *old(stats)
        } else {
            TransportStats { errors: (old(stats).errors + 1) as u64, ..*old(stats) }
        },
{
    let length: u16 = (header[4] as u16) * 256 + (header[5] as u16);
    if length as usize > crate::MAX_TCP_FRAME_SIZE {
        stats.record_error();
        return Err(ModbusError::frame("Response frame too large"));
    }
    if length == 0 {
        Ok(0)
    } else {
        Ok((length - 1) as usize)
    }
}

/// The TCP frame of a normal response: transaction id, protocol id 0, length
/// (payload plus unit id and function code), unit id, function code, payload.
pub open spec fn tcp_response_frame(transaction_id: u16, slave_id: u8, function: ModbusFunction, data: Seq<u8>) -> Seq<u8> {
    be_bytes(transaction_id) + be_bytes(0) + be_bytes((data.len() + 2) as u16) + seq![
        slave_id,
        function_code(function),
    ] + data
}

/// The TCP frame of an exception response.
pub open spec fn tcp_exception_frame(transaction_id: u16, slave_id: u8, function: ModbusFunction, code: u8) -> Seq<
    u8,
> {
    be_bytes(transaction_id) + be_bytes(0) + be_bytes(3) + seq![
        slave_id,
        (function_code(function) + 0x80) as u8,
        code,
    ]
}

/// A normal TCP response frame decodes to the response it was made of.
pub proof fn lemma_tcp_response_roundtrip(
    transaction_id: u16,
    slave_id: u8,
    function: ModbusFunction,
    data: Seq<u8>,
)
    requires
        data.len() + 2 < 65536,
    ensures
        ({
            let f = tcp_response_frame(transaction_id, slave_id, function, data);
            &&& !tcp_decode_undefined(f)
            &&& f.len() >= 8
            &&& f.len() >= 6 + tcp_length(f)
            &&& f[6] == slave_id
            &&& f[7] < 0x80
            &&& function_of_code(f[7]) == Some(function)
            &&& f.subrange(8, 6 + tcp_length(f)) == data
        }),
{
    let f = tcp_response_frame(transaction_id, slave_id, function, data);
    assert(tcp_length(f) == data.len() + 2);
    assert(f.subrange(8, 6 + tcp_length(f)) =~= data);
    crate::protocol::lemma_function_code_roundtrip(function, 0);
}

/// An exception TCP response frame decodes to the exception it was made of.
pub proof fn lemma_tcp_exception_roundtrip(
    transaction_id: u16,
    slave_id: u8,
    function: ModbusFunction,
    code: u8,
)
    ensures
        ({
            let f = tcp_exception_frame(transaction_id, slave_id, function, code);
            &&& !tcp_decode_undefined(f)
            &&& f.len() >= 9
            &&& f.len() >= 6 + tcp_length(f)
            &&& f[6] == slave_id
            &&& f[7] >= 0x80
            &&& function_of_code((f[7] - 0x80) as u8) == Some(function)
            &&& f[8] == code
        }),
{
    let f = tcp_exception_frame(transaction_id, slave_id, function, code);
    assert(tcp_length(f) == 3);
    crate::protocol::lemma_function_code_roundtrip(function, 0);
}

} // verus!
