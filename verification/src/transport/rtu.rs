//! Modbus RTU framing: slave id, function code and fields, followed by the
//! CRC-16/MODBUS of those bytes, low byte first.

use vstd::prelude::*;
use crate::error::{ModbusError, ModbusResult, is_frame_error};
use crate::protocol::{
    ModbusFunction, ModbusRequest, ModbusResponse, function_code, function_of_code,
};
use crate::text::{hex4_upper, push_hex4_upper, push_text};
use crate::transport::{
    is_exception_response, is_success_response, le_bytes, push_le16, push_request_body,
    request_body,
};

verus! {

/// One bit step of the reflected CRC: shift right, and xor with 0xA001 (the
/// polynomial 0x8005 reflected) when the bit shifted out was set.
pub open spec fn crc_bit_step(c: u16) -> u16 {
    if c & 1 == 1 {
        (c >> 1u16) ^ 0xA001
    } else {
        c >> 1u16
    }
}

/// `n` bit steps.
pub open spec fn crc_bit_steps(c: u16, n: nat) -> u16
    decreases n,
{
    if n == 0 {
        c
    } else {
        crc_bit_steps(crc_bit_step(c), (n - 1) as nat)
    }
}

/// The CRC register after some bytes, starting from `start`: each byte is
/// xored into the low bits, followed by eight bit steps.
pub open spec fn crc16_update(start: u16, data: Seq<u8>) -> u16
    decreases data.len(),
{
    if data.len() == 0 {
        start
    } else {
        crc_bit_steps(crc16_update(start, data.drop_last()) ^ (data.last() as u16), 8)
    }
}

/// The CRC-16/MODBUS checksum of some bytes: width 16, polynomial 0x8005,
/// reflected input and output, initial value 0xFFFF, no final xor (the
/// `CRC_16_MODBUS` parameters of the `crc` crate's catalogue).
pub open spec fn crc16_modbus(data: Seq<u8>) -> u16 {
    crc16_update(0xFFFF, data)
}

/// `crc::Crc::<u16>::checksum` with the `CRC_16_MODBUS` algorithm of the
/// `crc` crate: the CRC-16/MODBUS checksum of the bytes.
#[verifier::external_body]
pub(crate) fn calculate_crc(data: &[u8]) -> (r: u16)
    ensures
        r == crc16_modbus(data@),
{
    crc::Crc::<u16>::new(&crc::CRC_16_MODBUS).checksum(data)
}

/// The 16-bit value of two bytes, low byte first.
pub open spec fn le_word(low: u8, high: u8) -> u16 {
    (high as int * 256 + low as int) as u16
}

/// The RTU frame of a request: its body followed by the CRC of the body.
pub open spec fn rtu_request_frame(r: ModbusRequest) -> Seq<u8> {
    let body = request_body(r);
    body + le_bytes(crc16_modbus(body))
}

/// Appends a checksum to a frame, low byte first.
pub fn append_crc(frame: &mut Vec<u8>, crc: u16)
    ensures
        final(frame)@ == old(frame)@ + le_bytes(crc),
{
    push_le16(frame, crc);
}

/// Encodes a request as an RTU frame; this always succeeds.
pub fn encode_rtu_request(request: &ModbusRequest) -> (r: ModbusResult<Vec<u8>>)
    ensures
        r matches Ok(frame) && frame@ == rtu_request_frame(*request),
{
    let mut frame: Vec<u8> = Vec::new();
    push_request_body(&mut frame, request);
    let crc = calculate_crc(frame.as_slice());
    append_crc(&mut frame, crc);
    Ok(frame)
}

/// The checksum carried by the last two bytes of a frame.
pub open spec fn received_crc(f: Seq<u8>) -> u16 {
    le_word(f[f.len() - 2], f[f.len() - 1])
}

/// The message of the error for a frame whose checksum does not match.
pub open spec fn crc_mismatch_text(calculated: u16, received: u16) -> Seq<char> {
    "CRC mismatch: expected 0x"@ + hex4_upper(calculated) + ", got 0x"@ + hex4_upper(received)
}

/// What decoding an RTU response frame gives, for a frame of at least four
/// bytes whose checksum `calculated` has been computed over all but the last
/// two bytes.
pub open spec fn rtu_decoded(f: Seq<u8>, calculated: u16, r: ModbusResult<ModbusResponse>) -> bool {
    if received_crc(f) != calculated {
        r matches Err(e) && is_frame_error(e, crc_mismatch_text(calculated, received_crc(f)))
    } else if f[1] >= 0x80 {
        if f.len() < 5 {
            r matches Err(e) && is_frame_error(e, "Invalid exception response"@)
        } else {
            match function_of_code((f[1] - 0x80) as u8) {
                None => r == Err::<ModbusResponse, ModbusError>(
                    ModbusError::InvalidFunction { code: (f[1] - 0x80) as u8 },
                ),
                Some(g) => r matches Ok(resp) && is_exception_response(resp, f[0], g, f[2]),
            }
        }
    } else {
        match function_of_code(f[1]) {
            None => r == Err::<ModbusResponse, ModbusError>(
                ModbusError::InvalidFunction { code: f[1] },
            ),
            Some(g) => r matches Ok(resp) && is_success_response(
                resp,
                f[0],
                g,
                f.subrange(2, f.len() - 2),
            ),
        }
    }
}

/// Decodes an RTU response frame of at least four bytes, given the checksum
/// computed over all but its last two bytes.
pub fn decode_rtu_checked(frame: &[u8], calculated: u16) -> (r: ModbusResult<ModbusResponse>)
    requires
        frame@.len() >= 4,
    ensures
        rtu_decoded(frame@, calculated, r),
{
    let n = frame.len();
    let data_len = n - 2;
    let received: u16 = (frame[data_len + 1] as u16) * 256 + (frame[data_len] as u16);
    if received != calculated {
        let mut m = String::new();
        push_text(&mut m, "CRC mismatch: expected 0x");
        push_hex4_upper(&mut m, calculated);
        push_text(&mut m, ", got 0x");
        push_hex4_upper(&mut m, received);
        assert(m@ =~= crc_mismatch_text(calculated, received));
        return Err(ModbusError::Frame { message: m });
    }
    let slave_id = frame[0];
    let function_code = frame[1];
    if function_code >= 0x80 {
        if n < 5 {
            return Err(ModbusError::frame("Invalid exception response"));
        }
        let base_function = function_code - 0x80;
        let exception_code = frame[2];
        let function = ModbusFunction::from_u8(base_function)?;
        return Ok(ModbusResponse::new_exception(slave_id, function, exception_code));
    }
    let function = ModbusFunction::from_u8(function_code)?;
    let data = if n > 4 {
        vstd::slice::slice_to_vec(vstd::slice::slice_subrange(frame, 2, data_len))
    } else {
        Vec::new()
    };
    assert(data@ =~= frame@.subrange(2, n - 2));
    Ok(ModbusResponse::new_success(slave_id, function, data))
}

/// Decodes an RTU response frame, checking its CRC.
pub fn decode_rtu_response(frame: &[u8]) -> (r: ModbusResult<ModbusResponse>)
    ensures
        frame@.len() < 4 ==> (r matches Err(e) && is_frame_error(e, "RTU frame too short"@)),
        frame@.len() >= 4 ==> rtu_decoded(
            frame@,
            crc16_modbus(frame@.subrange(0, frame@.len() - 2)),
            r,
        ),
{
    if frame.len() < 4 {
        return Err(ModbusError::frame("RTU frame too short"));
    }
    let body = vstd::slice::slice_subrange(frame, 0, frame.len() - 2);
    let crc = calculate_crc(body);
    decode_rtu_checked(frame, crc)
}

/// The RTU frame of a normal response: slave, function code, payload, CRC.
pub open spec fn rtu_response_frame(slave_id: u8, function: ModbusFunction, data: Seq<u8>) -> Seq<u8> {
    let body = seq![slave_id, function_code(function)] + data;
    body + le_bytes(crc16_modbus(body))
}

/// The RTU frame of an exception response: slave, function code with the
/// high bit set, exception code, CRC.
pub open spec fn rtu_exception_frame(slave_id: u8, function_code: u8, code: u8) -> Seq<u8> {
    let body = seq![slave_id, function_code | 0x80, code];
    body + le_bytes(crc16_modbus(body))
}

/// A normal RTU response frame passes its CRC check and decodes to the
/// response it was made of.
pub proof fn lemma_rtu_response_roundtrip(slave_id: u8, function: ModbusFunction, data: Seq<u8>)
    ensures
        ({
            let f = rtu_response_frame(slave_id, function, data);
            &&& f.len() >= 4
            &&& forall|r: ModbusResult<ModbusResponse>|
                #[trigger] rtu_decoded(f, crc16_modbus(f.subrange(0, f.len() - 2)), r) ==> (r matches Ok(
                    resp,
                ) && is_success_response(resp, slave_id, function, data))
        }),
{
    let body = seq![slave_id, function_code(function)] + data;
    let f = rtu_response_frame(slave_id, function, data);
    assert(f.subrange(0, f.len() - 2) =~= body);
    assert(f.subrange(2, f.len() - 2) =~= data);
    let c = crc16_modbus(body);
    assert(received_crc(f) == c) by {
        assert(f[f.len() - 2] == (c % 256) as u8);
        assert(f[f.len() - 1] == (c / 256) as u8);
    }
    crate::protocol::lemma_function_code_roundtrip(function, 0);
}

/// An RTU exception frame for a supported function passes its CRC check and
/// decodes to that function and exception code.
pub proof fn lemma_rtu_exception_roundtrip(slave_id: u8, function: ModbusFunction, code: u8)
    ensures
        ({
            let f = rtu_exception_frame(slave_id, function_code(function), code);
            &&& f.len() == 5
            &&& forall|r: ModbusResult<ModbusResponse>|
                #[trigger] rtu_decoded(f, crc16_modbus(f.subrange(0, f.len() - 2)), r) ==> (r matches Ok(
                    resp,
                ) && is_exception_response(resp, slave_id, function, code))
        }),
{
    let fc = function_code(function);
    let body = seq![slave_id, fc | 0x80, code];
    let f = rtu_exception_frame(slave_id, fc, code);
    assert(f.subrange(0, f.len() - 2) =~= body);
    let c = crc16_modbus(body);
    assert(received_crc(f) == c);
    assert(fc < 0x80 ==> (fc | 0x80) >= 0x80 && ((fc | 0x80) - 0x80) as u8 == fc) by (bit_vector);
    crate::protocol::lemma_function_code_roundtrip(function, 0);
}

} // verus!
