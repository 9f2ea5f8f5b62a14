//! Transport layer: the byte frames of Modbus TCP (MBAP header), RTU (CRC-16)
//! and ASCII (hexadecimal text with LRC), the checks of a received response
//! against its request, and the counters of a transport.

use vstd::prelude::*;
use crate::error::{ModbusError, ModbusResult, is_frame_error, is_protocol_error_with};
use crate::protocol::{
    ModbusFunction, ModbusRequest, ModbusResponse, be_word, is_exception_error, function_code,
};
use crate::protocol::data_utils::{high_byte, low_byte};
use crate::text::{dec_str, hex_bytes_spaced, push_decimal, push_hex_bytes_spaced, push_text};

pub mod tcp;
pub mod rtu;
pub mod ascii;

verus! {

/// Counters of a transport.
#[derive(Debug, Clone)]
pub struct TransportStats {
    pub requests_sent: u64,
    pub responses_received: u64,
    pub errors: u64,
    pub timeouts: u64,
    pub bytes_sent: u64,
    pub bytes_received: u64,
}

impl TransportStats {
    /// All counters at zero.
    pub fn new() -> (s: Self)
        ensures
            s.requests_sent == 0 && s.responses_received == 0 && s.errors == 0 && s.timeouts == 0
                && s.bytes_sent == 0 && s.bytes_received == 0,
    {
        TransportStats {
            requests_sent: 0,
            responses_received: 0,
            errors: 0,
            timeouts: 0,
            bytes_sent: 0,
            bytes_received: 0,
        }
    }

    /// Counts a request frame of `bytes` bytes that is about to be sent.
    pub fn record_request(&mut self, bytes: u64)
        requires
            old(self).requests_sent < u64::MAX,
            old(self).bytes_sent + bytes <= u64::MAX,
        ensures
            *final(self) == (TransportStats {
                requests_sent: (old(self).requests_sent + 1) as u64,
                bytes_sent: (old(self).bytes_sent + bytes) as u64,
                ..*old(self)
            }),
    {
        self.requests_sent = self.requests_sent + 1;
        self.bytes_sent = self.bytes_sent + bytes;
    }

    /// Counts a response frame of `bytes` bytes that was received.
    pub fn record_response(&mut self, bytes: u64)
        requires
            old(self).responses_received < u64::MAX,
            old(self).bytes_received + bytes <= u64::MAX,
        ensures
            *final(self) == (TransportStats {
                responses_received: (old(self).responses_received + 1) as u64,
                bytes_received: (old(self).bytes_received + bytes) as u64,
                ..*old(self)
            }),
    {
        self.responses_received = self.responses_received + 1;
        self.bytes_received = self.bytes_received + bytes;
    }

    /// Counts a failed exchange.
    pub fn record_error(&mut self)
        requires
            old(self).errors < u64::MAX,
        ensures
            *final(self) == (TransportStats { errors: (old(self).errors + 1) as u64, ..*old(self) }),
    {
        self.errors = self.errors + 1;
    }

    /// Counts an exchange that ran out of time: a time-out and an error.
    pub fn record_timeout(&mut self)
        requires
            old(self).errors < u64::MAX,
            old(self).timeouts < u64::MAX,
        ensures
            *final(self) == (TransportStats {
                errors: (old(self).errors + 1) as u64,
                timeouts: (old(self).timeouts + 1) as u64,
                ..*old(self)
            }),
    {
        self.errors = self.errors + 1;
        self.timeouts = self.timeouts + 1;
    }
}

impl Default for TransportStats {
    fn default() -> (s: Self)
        ensures
            s.requests_sent == 0 && s.responses_received == 0 && s.errors == 0 && s.timeouts == 0
                && s.bytes_sent == 0 && s.bytes_received == 0,
    {
        Self::new()
    }
}

/// A 16-bit value as two bytes, high byte first.
pub open spec fn be_bytes(v: u16) -> Seq<u8> {
    seq![high_byte(v), low_byte(v)]
}

/// A 16-bit value as two bytes, low byte first.
pub open spec fn le_bytes(v: u16) -> Seq<u8> {
    seq![low_byte(v), high_byte(v)]
}

/// The value written for a single coil: 0xFF00 when the first payload byte is
/// non-zero, 0x0000 otherwise.
pub open spec fn coil_word(data: Seq<u8>) -> u16 {
    if data.len() > 0 && data[0] != 0 {
        0xFF00
    } else {
        0x0000
    }
}

/// The request fields after slave and function: the address, then the
/// quantity (reads), the coil word, the register value (the first two
/// payload bytes, or zeros), or quantity, byte count and payload (multiple
/// writes).
pub open spec fn request_fields(r: ModbusRequest) -> Seq<u8> {
    be_bytes(r.address) + match r.function {
        ModbusFunction::ReadCoils | ModbusFunction::ReadDiscreteInputs
        | ModbusFunction::ReadHoldingRegisters | ModbusFunction::ReadInputRegisters => be_bytes(
            r.quantity,
        ),
        ModbusFunction::WriteSingleCoil => be_bytes(coil_word(r.data@)),
        ModbusFunction::WriteSingleRegister => if r.data@.len() >= 2 {
            r.data@.take(2)
        } else {
            seq![0u8, 0u8]
        },
        ModbusFunction::WriteMultipleCoils | ModbusFunction::WriteMultipleRegisters => be_bytes(
            r.quantity,
        ) + seq![r.data@.len() as u8] + r.data@,
    }
}

/// Slave, function code and request fields: the part of a request that every
/// framing carries.
pub open spec fn request_body(r: ModbusRequest) -> Seq<u8> {
    seq![r.slave_id, function_code(r.function)] + request_fields(r)
}

/// Appends all bytes of a slice.
pub fn push_all(v: &mut Vec<u8>, s: &[u8])
    ensures
        final(v)@ == old(v)@ + s@,
{
    let ghost start = v@;
    let mut i: usize = 0;
    while i < s.len()
        invariant
            i <= s@.len(),
            v@ == start + s@.take(i as int),
        decreases s.len() - i,
    {
        v.push(s[i]);
        i = i + 1;
        assert(v@ =~= start + s@.take(i as int));
    }
    assert(s@.take(s@.len() as int) =~= s@);
}

/// Appends a 16-bit value, high byte first.
pub fn push_be16(v: &mut Vec<u8>, x: u16)
    ensures
        final(v)@ == old(v)@ + be_bytes(x),
{
    let ghost start = v@;
    v.push((x / 256) as u8);
    v.push((x % 256) as u8);
    assert(v@ =~= start + be_bytes(x));
}

/// Appends a 16-bit value, low byte first.
pub fn push_le16(v: &mut Vec<u8>, x: u16)
    ensures
        final(v)@ == old(v)@ + le_bytes(x),
{
    let ghost start = v@;
    v.push((x % 256) as u8);
    v.push((x / 256) as u8);
    assert(v@ =~= start + le_bytes(x));
}

/// Appends the body of a request: slave, function code and fields.
pub fn push_request_body(frame: &mut Vec<u8>, request: &ModbusRequest)
    ensures
        final(frame)@ == old(frame)@ + request_body(*request),
{
    let ghost start = frame@;
    frame.push(request.slave_id);
    frame.push(request.function.to_u8());
    push_be16(frame, request.address);
    match request.function {
        ModbusFunction::ReadCoils | ModbusFunction::ReadDiscreteInputs
        | ModbusFunction::ReadHoldingRegisters | ModbusFunction::ReadInputRegisters => {
            push_be16(frame, request.quantity);
        },
        ModbusFunction::WriteSingleCoil => {
            let value: u16 = if request.data.len() > 0 && request.data[0] != 0 {
                0xFF00
            } else {
                0x0000
            };
            push_be16(frame, value);
        },
        ModbusFunction::WriteSingleRegister => {
            if request.data.len() >= 2 {
                frame.push(request.data[0]);
                frame.push(request.data[1]);
            } else {
                frame.push(0);
                frame.push(0);
            }
        },
        ModbusFunction::WriteMultipleCoils | ModbusFunction::WriteMultipleRegisters => {
            push_be16(frame, request.quantity);
            frame.push(request.data.len() as u8);
            push_all(frame, request.data.as_slice());
        },
    }
    assert(frame@ =~= start + request_body(*request));
}

/// The message of the error for a response from another slave than the one
/// asked.
pub open spec fn slave_mismatch_text(expected: u8, got: u8) -> Seq<char> {
    "Response slave ID mismatch: expected "@ + dec_str(expected as nat) + ", got "@ + dec_str(
        got as nat,
    )
}

/// Checks a decoded serial-line (RTU or ASCII) response against its request:
/// it must come from the slave asked and must not be an exception; a
/// response that fails the check counts as an error.
pub fn check_serial_response(
    stats: &mut TransportStats,
    request: &ModbusRequest,
    response: ModbusResponse,
) -> (r: ModbusResult<ModbusResponse>)
    requires
        old(stats).errors < u64::MAX,
    ensures
        response.slave_id != request.slave_id ==> (r matches Err(e) && is_protocol_error_with(
            e,
            slave_mismatch_text(request.slave_id, response.slave_id),
        )),
        response.slave_id == request.slave_id && response.exception is Some ==> (r matches Err(e)
            && is_exception_error(e, response.function, response.exception->0)),
        response.slave_id == request.slave_id && response.exception is None ==> r == Ok::<
            ModbusResponse,
            ModbusError,
        >(response),
        *final(stats) == if r is Ok {
            *old(stats)
        } else {
            TransportStats { errors: (old(stats).errors + 1) as u64, ..*old(stats) }
        },
{
    if response.slave_id != request.slave_id {
        stats.record_error();
        let mut m = String::new();
        push_text(&mut m, "Response slave ID mismatch: expected ");
        push_decimal(&mut m, request.slave_id as u64);
        push_text(&mut m, ", got ");
        push_decimal(&mut m, response.slave_id as u64);
        assert(m@ =~= slave_mismatch_text(request.slave_id, response.slave_id));
        return Err(ModbusError::Protocol { message: m });
    }
    check_tcp_response(stats, response)
}

/// Checks a decoded TCP response: an exception response becomes its error and
/// counts as an error.
pub fn check_tcp_response(stats: &mut TransportStats, response: ModbusResponse) -> (r: ModbusResult<
    ModbusResponse,
>)
    requires
        old(stats).errors < u64::MAX,
    ensures
        response.exception is Some ==> (r matches Err(e) && is_exception_error(
            e,
            response.function,
            response.exception->0,
        )),
        response.exception is None ==> r == Ok::<ModbusResponse, ModbusError>(response),
        *final(stats) == if r is Ok {
            *old(stats)
        } else {
            TransportStats { errors: (old(stats).errors + 1) as u64, ..*old(stats) }
        },
{
    match response.get_exception() {
        Some(e) => {
            stats.record_error();
            Err(e)
        },
        None => Ok(response),
    }
}

/// Adds a received byte to an RTU frame being read; a frame that grows past
/// the largest RTU frame is an error.
pub fn rtu_read_byte(frame: &mut Vec<u8>, byte: u8) -> (r: ModbusResult<()>)
    ensures
        final(frame)@ == old(frame)@.push(byte),
        final(frame)@.len() > crate::MAX_RTU_FRAME_SIZE ==> (r matches Err(e) && is_frame_error(
            e,
            "RTU frame too large"@,
        )),
        final(frame)@.len() <= crate::MAX_RTU_FRAME_SIZE ==> r is Ok,
{
    frame.push(byte);
    if frame.len() > crate::MAX_RTU_FRAME_SIZE {
        return Err(ModbusError::frame("RTU frame too large"));
    }
    Ok(())
}

/// Largest ASCII frame read: twice the largest RTU frame.
pub const MAX_ASCII_FRAME_SIZE: usize = 512;

/// Adds a received byte to an ASCII frame being read: `Ok(true)` once the
/// frame ends with CR LF, an error once it grows past the largest ASCII frame
/// without ending.
pub fn ascii_read_byte(frame: &mut Vec<u8>, byte: u8) -> (r: ModbusResult<bool>)
    ensures
        final(frame)@ == old(frame)@.push(byte),
        ({
            let f = final(frame)@;
            let ended = f.len() >= 2 && f[f.len() - 2] == 0x0D && f[f.len() - 1] == 0x0A;
            &&& ended ==> r == Ok::<bool, ModbusError>(true)
            &&& !ended && f.len() > MAX_ASCII_FRAME_SIZE ==> (r matches Err(e) && is_frame_error(
                e,
                "ASCII frame too large"@,
            ))
            &&& !ended && f.len() <= MAX_ASCII_FRAME_SIZE ==> r == Ok::<bool, ModbusError>(false)
        }),
{
    frame.push(byte);
    let n = frame.len();
    if n >= 2 && frame[n - 2] == 0x0D && frame[n - 1] == 0x0A {
        return Ok(true);
    }
    if n > MAX_ASCII_FRAME_SIZE {
        return Err(ModbusError::frame("ASCII frame too large"));
    }
    Ok(false)
}

/// What a pause longer than the inter-character time means to an ASCII frame
/// being read: nothing yet (`None`, keep waiting), or an incomplete frame.
pub fn ascii_read_pause(frame: &[u8], inter_char_timeout_ms: u64) -> (r: Option<ModbusError>)
    ensures
        frame@.len() == 0 ==> r is None,
        frame@.len() > 0 ==> (r matches Some(ModbusError::Timeout { operation, timeout_ms })
            && operation@ == "Incomplete ASCII frame"@ && timeout_ms == inter_char_timeout_ms),
{
    if frame.len() == 0 {
        None
    } else {
        Some(ModbusError::timeout("Incomplete ASCII frame", inter_char_timeout_ms))
    }
}

/// Transmission time of one character (11 bits) in microseconds.
pub open spec fn character_time_us(baud_rate: u32) -> u32 {
    (11_000_000int / baud_rate as int) as u32
}

/// Silent interval that ends an RTU frame: 3.5 character times, and at least
/// 1750 microseconds above 19200 baud.
pub open spec fn frame_gap_us(baud_rate: u32) -> u32 {
    let gap = character_time_us(baud_rate) * 35 / 10;
    if baud_rate > 19200 && gap < 1750 {
        1750
    } else {
        gap as u32
    }
}

/// Transmission time of one character (11 bits) in microseconds.
pub fn calculate_character_time_us(baud_rate: u32) -> (t: u32)
    requires
        baud_rate > 0,
    ensures
        t == character_time_us(baud_rate),
{
    11_000_000 / baud_rate
}

/// Silent interval that ends an RTU frame, in microseconds.
pub fn calculate_frame_gap_us(baud_rate: u32) -> (g: u32)
    requires
        baud_rate > 0,
    ensures
        g == frame_gap_us(baud_rate),
        g >= 3 * character_time_us(baud_rate),
        baud_rate > 19200 ==> g >= 1750,
{
    let char_time = calculate_character_time_us(baud_rate);
    let gap = char_time * 35 / 10;
    if baud_rate > 19200 && gap < 1750 {
        1750
    } else {
        gap
    }
}

/// Bytes as upper-case hexadecimal separated by spaces.
pub fn format_hex_packet(data: &[u8]) -> (s: String)
    ensures
        s@ == hex_bytes_spaced(data@),
{
    let mut s = String::new();
    push_hex_bytes_spaced(&mut s, data);
    s
}

/// The packet-log line of a frame: `[MODBUS-protocol] direction slave:id hex`,
/// without the slave part when no slave is given.
pub open spec fn packet_log_text(direction: Seq<char>, data: Seq<u8>, protocol: Seq<char>, slave_id: Option<u8>) -> Seq<char> {
    match slave_id {
        Some(id) => "[MODBUS-"@ + protocol + "] "@ + direction + " slave:"@ + dec_str(id as nat)
            + " "@ + hex_bytes_spaced(data),
        None => "[MODBUS-"@ + protocol + "] "@ + direction + " "@ + hex_bytes_spaced(data),
    }
}

/// The packet-log line of a frame.
pub fn packet_log_line(direction: &str, data: &[u8], protocol: &str, slave_id: Option<u8>) -> (s: String)
    ensures
        s@ == packet_log_text(direction@, data@, protocol@, slave_id),
{
    let mut s = String::new();
    push_text(&mut s, "[MODBUS-");
    push_text(&mut s, protocol);
    push_text(&mut s, "] ");
    push_text(&mut s, direction);
    match slave_id {
        Some(id) => {
            push_text(&mut s, " slave:");
            push_decimal(&mut s, id as u64);
            push_text(&mut s, " ");
        },
        None => {
            push_text(&mut s, " ");
        },
    }
    push_hex_bytes_spaced(&mut s, data);
    assert(s@ =~= packet_log_text(direction@, data@, protocol@, slave_id));
    s
}

/// The response is a normal one with these fields.
pub open spec fn is_success_response(r: ModbusResponse, slave_id: u8, function: ModbusFunction, data: Seq<u8>) -> bool {
    r.slave_id == slave_id && r.function == function && r.data@ == data && r.exception is None
}

/// The response is an exception response with these fields.
pub open spec fn is_exception_response(r: ModbusResponse, slave_id: u8, function: ModbusFunction, code: u8) -> bool {
    r.slave_id == slave_id && r.function == function && r.data@ == Seq::<u8>::empty()
        && r.exception == Some(crate::protocol::exception_for(code))
}

/// The big-endian value of two bytes of a frame.
pub open spec fn frame_word(f: Seq<u8>, i: int) -> u16 {
    be_word(f[i], f[i + 1])
}

} // verus!
