//! Logging: levels, packet display modes, and the messages that are logged
//! for packets, requests and responses.

use vstd::prelude::*;
use crate::protocol::{bit_of, bits_of_bytes, words_of_bytes};
use crate::text::{
    bools_listed, dec_str, hex2_upper, hex4_upper, hex_bytes_spaced, hex_lower_bytes,
    push_bools_listed, push_decimal, push_hex2_upper, push_hex4_upper, push_hex_bytes_spaced,
    push_text, push_words_listed, words_listed,
};
use crate::transport::{be_bytes, frame_word, push_all, push_be16};

verus! {

/// Level of a log message, from most to least severe.
#[derive(Debug, Clone, Copy, PartialEq, Eq, Structural)]
pub enum LogLevel {
    /// Error messages
    Error,
    /// Warning messages
    Warn,
    /// Informational messages
    Info,
    /// Debug messages
    Debug,
}

/// How packets are shown.
#[derive(Debug, Clone, Copy, PartialEq, Eq, Structural)]
pub enum LoggingMode {
    /// Raw packet bytes only
    Raw,
    /// Decoded fields only
    Interpreted,
    /// Decoded fields, then raw bytes
    Both,
}

/// Severity rank of a level: 0 for errors up to 3 for debug messages.
pub open spec fn level_rank(l: LogLevel) -> int {
    match l {
        LogLevel::Error => 0,
        LogLevel::Warn => 1,
        LogLevel::Info => 2,
        LogLevel::Debug => 3,
    }
}

/// The name of a level.
pub open spec fn level_name(l: LogLevel) -> Seq<char> {
    match l {
        LogLevel::Error => "ERROR"@,
        LogLevel::Warn => "WARN"@,
        LogLevel::Info => "INFO"@,
        LogLevel::Debug => "DEBUG"@,
    }
}

impl LogLevel {
    /// The name of the level: `ERROR`, `WARN`, `INFO` or `DEBUG`.
    pub fn as_str(&self) -> (r: &'static str)
        ensures
            r@ == level_name(*self),
    {
        match self {
            LogLevel::Error => "ERROR",
            LogLevel::Warn => "WARN",
            LogLevel::Info => "INFO",
            LogLevel::Debug => "DEBUG",
        }
    }

    /// Severity rank: 0 for errors up to 3 for debug messages.
    pub fn rank(&self) -> (r: u8)
        ensures
            r == level_rank(*self),
    {
        match self {
            LogLevel::Error => 0,
            LogLevel::Warn => 1,
            LogLevel::Info => 2,
            LogLevel::Debug => 3,
        }
    }
}

/// Whether a message of `level` passes a logger whose threshold is
/// `min_level`: it is at least as severe.
pub fn level_enabled(level: LogLevel, min_level: LogLevel) -> (r: bool)
    ensures
        r == (level_rank(level) <= level_rank(min_level)),
{
    level.rank() <= min_level.rank()
}

/// The message that logs a packet.
pub open spec fn packet_text(direction: Seq<char>, data: Seq<u8>) -> Seq<char> {
    direction + " packet ("@ + dec_str(data.len()) + " bytes): "@ + hex_bytes_spaced(data)
}

/// The message that logs a packet: direction, size and bytes in hexadecimal.
pub fn packet_message(direction: &str, data: &[u8]) -> (s: String)
    ensures
        s@ == packet_text(direction@, data@),
{
    let mut s = String::new();
    push_text(&mut s, direction);
    push_text(&mut s, " packet (");
    push_decimal(&mut s, data.len() as u64);
    push_text(&mut s, " bytes): ");
    push_hex_bytes_spaced(&mut s, data);
    s
}

/// The name of a function code, or `Unknown Function`.
pub open spec fn code_name(fc: u8) -> Seq<char> {
    if fc == 0x01 {
        "Read Coils"@
    } else if fc == 0x02 {
        "Read Discrete Inputs"@
    } else if fc == 0x03 {
        "Read Holding Registers"@
    } else if fc == 0x04 {
        "Read Input Registers"@
    } else if fc == 0x05 {
        "Write Single Coil"@
    } else if fc == 0x06 {
        "Write Single Register"@
    } else if fc == 0x0F {
        "Write Multiple Coils"@
    } else if fc == 0x10 {
        "Write Multiple Registers"@
    } else {
        "Unknown Function"@
    }
}

/// The name of a function code, or `Unknown Function`.
pub fn get_function_name(function_code: u8) -> (r: &'static str)
    ensures
        r@ == code_name(function_code),
{
    if function_code == 0x01 {
        "Read Coils"
    } else if function_code == 0x02 {
        "Read Discrete Inputs"
    } else if function_code == 0x03 {
        "Read Holding Registers"
    } else if function_code == 0x04 {
        "Read Input Registers"
    } else if function_code == 0x05 {
        "Write Single Coil"
    } else if function_code == 0x06 {
        "Write Single Register"
    } else if function_code == 0x0F {
        "Write Multiple Coils"
    } else if function_code == 0x10 {
        "Write Multiple Registers"
    } else {
        "Unknown Function"
    }
}

/// The simplified TCP packet shown for a request: transaction id 1, protocol
/// id 0, length (payload plus six), unit id, function code, address,
/// quantity, payload.
pub open spec fn raw_request_packet(slave_id: u8, function_code: u8, address: u16, quantity: u16, data: Seq<u8>) -> Seq<u8> {
    seq![0u8, 1u8, 0u8, 0u8, 0u8, (6 + data.len()) as u8, slave_id, function_code] + be_bytes(
        address,
    ) + be_bytes(quantity) + data
}

/// The simplified TCP packet shown for a response: transaction id 1,
/// protocol id 0, length (payload plus two), unit id, function code, payload.
pub open spec fn raw_response_packet(slave_id: u8, function_code: u8, data: Seq<u8>) -> Seq<u8> {
    seq![0u8, 1u8, 0u8, 0u8, 0u8, (2 + data.len()) as u8, slave_id, function_code] + data
}

/// Builds the packet shown for a request.
pub fn build_raw_request_packet(slave_id: u8, function_code: u8, address: u16, quantity: u16, data: &[u8]) -> (p: Vec<u8>)
    ensures
        p@ == raw_request_packet(slave_id, function_code, address, quantity, data@),
{
    let mut packet: Vec<u8> = Vec::new();
    packet.push(0x00);
    packet.push(0x01);
    packet.push(0x00);
    packet.push(0x00);
    packet.push(0x00);
    packet.push((6 + data.len() as u128) as u8);
    packet.push(slave_id);
    packet.push(function_code);
    push_be16(&mut packet, address);
    push_be16(&mut packet, quantity);
    push_all(&mut packet, data);
    assert(packet@ =~= raw_request_packet(slave_id, function_code, address, quantity, data@));
    packet
}

/// Builds the packet shown for a response.
pub fn build_raw_response_packet(slave_id: u8, function_code: u8, data: &[u8]) -> (p: Vec<u8>)
    ensures
        p@ == raw_response_packet(slave_id, function_code, data@),
{
    let mut packet: Vec<u8> = Vec::new();
    packet.push(0x00);
    packet.push(0x01);
    packet.push(0x00);
    packet.push(0x00);
    packet.push(0x00);
    packet.push((2 + data.len() as u128) as u8);
    packet.push(slave_id);
    packet.push(function_code);
    push_all(&mut packet, data);
    assert(packet@ =~= raw_response_packet(slave_id, function_code, data@));
    packet
}

/// `hex::encode`: the bytes as lower-case hexadecimal, two digits per byte;
/// the `hex` crate documents exactly this result.
#[verifier::external_body]
fn hex_encode(data: &[u8]) -> (s: String)
    ensures
        s@ == hex_lower_bytes(data@),
{
    hex::encode(data)
}

/// The coil states that a read-bits response shows: the bits of the bytes
/// after the byte count (as many as the count and the data allow), at most 16.
pub open spec fn shown_coils(data: Seq<u8>) -> Seq<bool> {
    let end = if 1 + data[0] < data.len() {
        1 + data[0]
    } else {
        data.len() as int
    };
    let bits = bits_of_bytes(data.subrange(1, end));
    if bits.len() > 16 {
        bits.take(16)
    } else {
        bits
    }
}

/// The register values that a read-registers response shows: the byte pairs
/// after the byte count, at most 8.
pub open spec fn shown_registers(data: Seq<u8>) -> Seq<u16> {
    let regs = words_of_bytes(data.subrange(1, data.len() as int));
    if regs.len() > 8 {
        regs.take(8)
    } else {
        regs
    }
}

/// The decoded description of a response's data.
pub open spec fn interpretation(fc: u8, data: Seq<u8>) -> Seq<char> {
    if data.len() == 0 {
        "No data"@
    } else if (fc == 0x01 || fc == 0x02) && data.len() >= 2 {
        "Byte count: "@ + dec_str(data[0] as nat) + ", Coils: ["@ + bools_listed(shown_coils(data))
            + "]"@
    } else if (fc == 0x03 || fc == 0x04) && data.len() >= 3 {
        "Byte count: "@ + dec_str(data[0] as nat) + ", Registers: ["@ + words_listed(
            shown_registers(data),
        ) + "]"@
    } else if fc == 0x05 && data.len() >= 4 {
        "Address: "@ + dec_str(frame_word(data, 0) as nat) + ", Value: 0x"@ + hex4_upper(
            frame_word(data, 2),
        ) + " ("@ + (if frame_word(data, 2) == 0xFF00 {
            "ON"@
        } else {
            "OFF"@
        }) + ")"@
    } else if fc == 0x06 && data.len() >= 4 {
        "Address: "@ + dec_str(frame_word(data, 0) as nat) + ", Value: "@ + dec_str(
            frame_word(data, 2) as nat,
        ) + " (0x"@ + hex4_upper(frame_word(data, 2)) + ")"@
    } else if (fc == 0x0F || fc == 0x10) && data.len() >= 4 {
        "Address: "@ + dec_str(frame_word(data, 0) as nat) + ", Quantity: "@ + dec_str(
            frame_word(data, 2) as nat,
        )
    } else {
        "Data: "@ + hex_lower_bytes(data)
    }
}

fn word_at(data: &[u8], i: usize) -> (w: u16)
    requires
        i + 1 < data@.len(),
    ensures
        w == frame_word(data@, i as int),
{
    (data[i] as u16) * 256 + (data[i + 1] as u16)
}

/// Describes a response's data according to its function code.
pub fn interpret_response_data(function_code: u8, data: &[u8]) -> (s: String)
    ensures
        s@ == interpretation(function_code, data@),
{
    let mut s = String::new();
    if data.len() == 0 {
        push_text(&mut s, "No data");
    } else if (function_code == 0x01 || function_code == 0x02) && data.len() >= 2 {
        let byte_count = data[0];
        let end: usize = if 1 + (byte_count as usize) < data.len() {
            1 + byte_count as usize
        } else {
            data.len()
        };
        let ghost shown = bits_of_bytes(data@.subrange(1, end as int));
        let mut coils: Vec<bool> = Vec::new();
        let mut i: usize = 1;
        while i < end
            invariant
                1 <= i <= end <= data@.len(),
                shown == bits_of_bytes(data@.subrange(1, end as int)),
                coils@ == shown.take(8 * (i - 1)),
            decreases end - i,
        {
            let mut bit: u8 = 0;
            while bit < 8
                invariant
                    1 <= i < end <= data@.len(),
                    shown == bits_of_bytes(data@.subrange(1, end as int)),
                    bit <= 8,
                    coils@ == shown.take(8 * (i - 1) + bit),
                decreases 8 - bit,
            {
                coils.push((data[i] & (1u8 << bit)) != 0);
                bit = bit + 1;
                assert(coils@ =~= shown.take(8 * (i - 1) + bit));
            }
            i = i + 1;
        }
        assert(coils@ =~= shown);
        let count = if coils.len() < 16 {
            coils.len()
        } else {
            16
        };
        let listed = vstd::slice::slice_subrange(coils.as_slice(), 0, count);
        assert(listed@ =~= shown_coils(data@));
        push_text(&mut s, "Byte count: ");
        push_decimal(&mut s, byte_count as u64);
        push_text(&mut s, ", Coils: [");
        push_bools_listed(&mut s, listed);
        push_text(&mut s, "]");
    } else if (function_code == 0x03 || function_code == 0x04) && data.len() >= 3 {
        let byte_count = data[0];
        let ghost rest = data@.subrange(1, data@.len() as int);
        let mut registers: Vec<u16> = Vec::new();
        let mut k: usize = 0;
        while k < (data.len() - 1) / 2
            invariant
                data@.len() >= 3,
                rest == data@.subrange(1, data@.len() as int),
                k <= (data@.len() - 1) / 2,
                registers@ == words_of_bytes(rest).take(k as int),
            decreases (data.len() - 1) / 2 - k,
        {
            let value = word_at(data, 2 * k + 1);
            registers.push(value);
            k = k + 1;
            assert(registers@ =~= words_of_bytes(rest).take(k as int));
        }
        assert(registers@ =~= words_of_bytes(rest));
        let count = if registers.len() < 8 {
            registers.len()
        } else {
            8
        };
        let listed = vstd::slice::slice_subrange(registers.as_slice(), 0, count);
        assert(listed@ =~= shown_registers(data@));
        push_text(&mut s, "Byte count: ");
        push_decimal(&mut s, byte_count as u64);
        push_text(&mut s, ", Registers: [");
        push_words_listed(&mut s, listed);
        push_text(&mut s, "]");
    } else if function_code == 0x05 && data.len() >= 4 {
        let address = word_at(data, 0);
        let value = word_at(data, 2);
        push_text(&mut s, "Address: ");
        push_decimal(&mut s, address as u64);
        push_text(&mut s, ", Value: 0x");
        push_hex4_upper(&mut s, value);
        push_text(&mut s, " (");
        if value == 0xFF00 {
            push_text(&mut s, "ON");
        } else {
            push_text(&mut s, "OFF");
        }
        push_text(&mut s, ")");
    } else if function_code == 0x06 && data.len() >= 4 {
        let address = word_at(data, 0);
        let value = word_at(data, 2);
        push_text(&mut s, "Address: ");
        push_decimal(&mut s, address as u64);
        push_text(&mut s, ", Value: ");
        push_decimal(&mut s, value as u64);
        push_text(&mut s, " (0x");
        push_hex4_upper(&mut s, value);
        push_text(&mut s, ")");
    } else if (function_code == 0x0F || function_code == 0x10) && data.len() >= 4 {
        let address = word_at(data, 0);
        let quantity = word_at(data, 2);
        push_text(&mut s, "Address: ");
        push_decimal(&mut s, address as u64);
        push_text(&mut s, ", Quantity: ");
        push_decimal(&mut s, quantity as u64);
    } else {
        push_text(&mut s, "Data: ");
        let h = hex_encode(data);
        push_text(&mut s, h.as_str());
    }
    assert(s@ =~= interpretation(function_code, data@));
    s
}

/// The decoded line that logs a request.
pub open spec fn request_line(slave_id: u8, function_code: u8, address: u16, quantity: u16) -> Seq<char> {
    "Modbus Request -> Slave: "@ + dec_str(slave_id as nat) + ", Function: "@ + code_name(
        function_code,
    ) + " (0x"@ + hex2_upper(function_code) + "), Address: "@ + dec_str(address as nat)
        + ", Quantity: "@ + dec_str(quantity as nat)
}

/// The raw line that logs a request.
pub open spec fn request_raw_line(slave_id: u8, function_code: u8, address: u16, quantity: u16, data: Seq<u8>) -> Seq<char> {
    "Modbus Request -> Raw: "@ + hex_bytes_spaced(
        raw_request_packet(slave_id, function_code, address, quantity, data),
    )
}

/// The decoded line that logs a response.
pub open spec fn response_line(slave_id: u8, function_code: u8, data: Seq<u8>) -> Seq<char> {
    "Modbus Response <- Slave: "@ + dec_str(slave_id as nat) + ", Function: "@ + code_name(
        function_code,
    ) + " (0x"@ + hex2_upper(function_code) + "), "@ + interpretation(function_code, data)
}

/// The raw line that logs a response.
pub open spec fn response_raw_line(slave_id: u8, function_code: u8, data: Seq<u8>) -> Seq<char> {
    "Modbus Response <- Raw: "@ + hex_bytes_spaced(raw_response_packet(slave_id, function_code, data))
}

/// The logged messages are these levels and texts, in order.
pub open spec fn messages_are(m: Seq<(LogLevel, String)>, expected: Seq<(LogLevel, Seq<char>)>) -> bool {
    &&& m.len() == expected.len()
    &&& forall|i: int|
        0 <= i < m.len() ==> (#[trigger] m[i]).0 == expected[i].0 && m[i].1@ == expected[i].1
}

/// The messages that log a request in a mode: the decoded line at info level
/// (`Interpreted`), the raw line at info level (`Raw`), or the decoded line at
/// info level then the raw line at debug level (`Both`).
pub open spec fn request_messages_spec(mode: LoggingMode, slave_id: u8, function_code: u8, address: u16, quantity: u16, data: Seq<u8>) -> Seq<(LogLevel, Seq<char>)> {
    let decoded = request_line(slave_id, function_code, address, quantity);
    let raw = request_raw_line(slave_id, function_code, address, quantity, data);
    match mode {
        LoggingMode::Raw => seq![(LogLevel::Info, raw)],
        LoggingMode::Interpreted => seq![(LogLevel::Info, decoded)],
        LoggingMode::Both => seq![(LogLevel::Info, decoded), (LogLevel::Debug, raw)],
    }
}

/// The messages that log a response in a mode, as for requests.
pub open spec fn response_messages_spec(mode: LoggingMode, slave_id: u8, function_code: u8, data: Seq<u8>) -> Seq<(LogLevel, Seq<char>)> {
    let decoded = response_line(slave_id, function_code, data);
    let raw = response_raw_line(slave_id, function_code, data);
    match mode {
        LoggingMode::Raw => seq![(LogLevel::Info, raw)],
        LoggingMode::Interpreted => seq![(LogLevel::Info, decoded)],
        LoggingMode::Both => seq![(LogLevel::Info, decoded), (LogLevel::Debug, raw)],
    }
}

fn request_decoded(slave_id: u8, function_code: u8, address: u16, quantity: u16) -> (s: String)
    ensures
        s@ == request_line(slave_id, function_code, address, quantity),
{
    let mut s = String::new();
    push_text(&mut s, "Modbus Request -> Slave: ");
    push_decimal(&mut s, slave_id as u64);
    push_text(&mut s, ", Function: ");
    push_text(&mut s, get_function_name(function_code));
    push_text(&mut s, " (0x");
    push_hex2_upper(&mut s, function_code);
    push_text(&mut s, "), Address: ");
    push_decimal(&mut s, address as u64);
    push_text(&mut s, ", Quantity: ");
    push_decimal(&mut s, quantity as u64);
    s
}

fn request_raw(slave_id: u8, function_code: u8, address: u16, quantity: u16, data: &[u8]) -> (s: String)
    ensures
        s@ == request_raw_line(slave_id, function_code, address, quantity, data@),
{
    let packet = build_raw_request_packet(slave_id, function_code, address, quantity, data);
    let mut s = String::new();
    push_text(&mut s, "Modbus Request -> Raw: ");
    push_hex_bytes_spaced(&mut s, packet.as_slice());
    s
}

fn response_decoded(slave_id: u8, function_code: u8, data: &[u8]) -> (s: String)
    ensures
        s@ == response_line(slave_id, function_code, data@),
{
    let mut s = String::new();
    push_text(&mut s, "Modbus Response <- Slave: ");
    push_decimal(&mut s, slave_id as u64);
    push_text(&mut s, ", Function: ");
    push_text(&mut s, get_function_name(function_code));
    push_text(&mut s, " (0x");
    push_hex2_upper(&mut s, function_code);
    push_text(&mut s, "), ");
    let t = interpret_response_data(function_code, data);
    push_text(&mut s, t.as_str());
    s
}

fn response_raw(slave_id: u8, function_code: u8, data: &[u8]) -> (s: String)
    ensures
        s@ == response_raw_line(slave_id, function_code, data@),
{
    let packet = build_raw_response_packet(slave_id, function_code, data);
    let mut s = String::new();
    push_text(&mut s, "Modbus Response <- Raw: ");
    push_hex_bytes_spaced(&mut s, packet.as_slice());
    s
}

/// The messages that log a request in a mode, in order.
pub fn request_log_messages(mode: LoggingMode, slave_id: u8, function_code: u8, address: u16, quantity: u16, data: &[u8]) -> (m: Vec<(LogLevel, String)>)
    ensures
        messages_are(m@, request_messages_spec(mode, slave_id, function_code, address, quantity, data@)),
{
    let mut m: Vec<(LogLevel, String)> = Vec::new();
    match mode {
        LoggingMode::Raw => {
            m.push((LogLevel::Info, request_raw(slave_id, function_code, address, quantity, data)));
        },
        LoggingMode::Interpreted => {
            m.push((LogLevel::Info, request_decoded(slave_id, function_code, address, quantity)));
        },
        LoggingMode::Both => {
            m.push((LogLevel::Info, request_decoded(slave_id, function_code, address, quantity)));
            m.push((LogLevel::Debug, request_raw(slave_id, function_code, address, quantity, data)));
        },
    }
    m
}

/// The messages that log a response in a mode, in order.
pub fn response_log_messages(mode: LoggingMode, slave_id: u8, function_code: u8, data: &[u8]) -> (m: Vec<(LogLevel, String)>)
    ensures
        messages_are(m@, response_messages_spec(mode, slave_id, function_code, data@)),
{
    let mut m: Vec<(LogLevel, String)> = Vec::new();
    match mode {
        LoggingMode::Raw => {
            m.push((LogLevel::Info, response_raw(slave_id, function_code, data)));
        },
        LoggingMode::Interpreted => {
            m.push((LogLevel::Info, response_decoded(slave_id, function_code, data)));
        },
        LoggingMode::Both => {
            m.push((LogLevel::Info, response_decoded(slave_id, function_code, data)));
            m.push((LogLevel::Debug, response_raw(slave_id, function_code, data)));
        },
    }
    m
}

} // verus!
