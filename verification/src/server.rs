//! Request processing of a Modbus server: the handlers of the eight function
//! codes over a register bank, the TCP and RTU request frames they are
//! carried in, exception responses, and server counters.

use vstd::prelude::*;
use crate::error::{
    ModbusError, ModbusResult, is_frame_error, is_invalid_data, is_protocol_error_with,
};
use crate::protocol::{bit_of, words_of_bytes};
use crate::protocol::data_utils::{bytes_of_words, pack_bits, packs_bits, registers_to_bytes};
use crate::register_bank::{
    BankModel, ModbusRegisterBank, RegisterBankStats, read_bits, read_words, write_bits,
    write_words,
};
use crate::text::{hex2_lower, push_hex2_lower, push_text};
use crate::transport::{be_bytes, frame_word, le_bytes, push_all, push_be16};
use crate::transport::rtu::{append_crc, calculate_crc, crc16_modbus, received_crc};

verus! {

/// Server counters.
#[derive(Debug, Clone)]
pub struct ServerStats {
    pub connections_count: u64,
    pub total_requests: u64,
    pub successful_requests: u64,
    pub failed_requests: u64,
    pub bytes_received: u64,
    pub bytes_sent: u64,
    pub uptime_seconds: u64,
    pub register_bank_stats: Option<RegisterBankStats>,
}

impl ServerStats {
    /// All counters at zero and no bank statistics.
    pub fn new() -> (s: Self)
        ensures
            s.connections_count == 0 && s.total_requests == 0 && s.successful_requests == 0
                && s.failed_requests == 0 && s.bytes_received == 0 && s.bytes_sent == 0
                && s.uptime_seconds == 0 && s.register_bank_stats is None,
    {
        ServerStats {
            connections_count: 0,
            total_requests: 0,
            successful_requests: 0,
            failed_requests: 0,
            bytes_received: 0,
            bytes_sent: 0,
            uptime_seconds: 0,
            register_bank_stats: None,
        }
    }

    /// Counts an accepted connection.
    pub fn record_connection(&mut self)
        requires
            old(self).connections_count < u64::MAX,
        ensures
            *final(self) == (ServerStats {
                connections_count: (old(self).connections_count + 1) as u64,
                ..*old(self)
            }),
    {
        self.connections_count = self.connections_count + 1;
    }

    /// Counts a received request of `bytes` bytes.
    pub fn record_request(&mut self, bytes: u64)
        requires
            old(self).total_requests < u64::MAX,
            old(self).bytes_received + bytes <= u64::MAX,
        ensures
            *final(self) == (ServerStats {
                total_requests: (old(self).total_requests + 1) as u64,
                bytes_received: (old(self).bytes_received + bytes) as u64,
                ..*old(self)
            }),
    {
        self.total_requests = self.total_requests + 1;
        self.bytes_received = self.bytes_received + bytes;
    }

    /// Counts bytes received without counting a request.
    pub fn record_bytes_received(&mut self, bytes: u64)
        requires
            old(self).bytes_received + bytes <= u64::MAX,
        ensures
            *final(self) == (ServerStats {
                bytes_received: (old(self).bytes_received + bytes) as u64,
                ..*old(self)
            }),
    {
        self.bytes_received = self.bytes_received + bytes;
    }

    /// Counts a request without its bytes.
    pub fn record_request_only(&mut self)
        requires
            old(self).total_requests < u64::MAX,
        ensures
            *final(self) == (ServerStats {
                total_requests: (old(self).total_requests + 1) as u64,
                ..*old(self)
            }),
    {
        self.total_requests = self.total_requests + 1;
    }

    /// Counts a request answered with a response of `bytes` bytes.
    pub fn record_success(&mut self, bytes: u64)
        requires
            old(self).successful_requests < u64::MAX,
            old(self).bytes_sent + bytes <= u64::MAX,
        ensures
            *final(self) == (ServerStats {
                successful_requests: (old(self).successful_requests + 1) as u64,
                bytes_sent: (old(self).bytes_sent + bytes) as u64,
                ..*old(self)
            }),
    {
        self.successful_requests = self.successful_requests + 1;
        self.bytes_sent = self.bytes_sent + bytes;
    }

    /// Counts a request that failed.
    pub fn record_failure(&mut self)
        requires
            old(self).failed_requests < u64::MAX,
        ensures
            *final(self) == (ServerStats {
                failed_requests: (old(self).failed_requests + 1) as u64,
                ..*old(self)
            }),
    {
        self.failed_requests = self.failed_requests + 1;
    }
}

impl Default for ServerStats {
    fn default() -> (s: Self)
        ensures
            s.connections_count == 0 && s.total_requests == 0 && s.successful_requests == 0
                && s.failed_requests == 0 && s.bytes_received == 0 && s.bytes_sent == 0
                && s.uptime_seconds == 0 && s.register_bank_stats is None,
    {
        Self::new()
    }
}

/// Result bytes of a handler, as a value of specifications.
pub open spec fn bytes_result(r: ModbusResult<Vec<u8>>) -> Result<Seq<u8>, ModbusError> {
    match r {
        Ok(v) => Ok(v@),
        Err(e) => Err(e),
    }
}

/// The outcome is an error of kind `Frame` with this message.
pub open spec fn frame_fault(o: Result<Seq<u8>, ModbusError>, msg: Seq<char>) -> bool {
    o matches Err(e) && is_frame_error(e, msg)
}

/// The outcome is an error of kind `InvalidData` with this message.
pub open spec fn data_fault(o: Result<Seq<u8>, ModbusError>, msg: Seq<char>) -> bool {
    o matches Err(e) && is_invalid_data(e, msg)
}

/// Reading bits: request `address, quantity`; reply byte count and the bits
/// packed eight per byte; 1 to 2000 bits.
pub open spec fn read_bits_handled(data: Seq<u8>, m: Map<u16, bool>, short_msg: Seq<char>, o: Result<Seq<u8>, ModbusError>) -> bool {
    if data.len() < 4 {
        frame_fault(o, short_msg)
    } else {
        let q = frame_word(data, 2);
        if q == 0 || q > 2000 {
            data_fault(o, "Invalid quantity"@)
        } else {
            o matches Ok(reply) && reply.len() >= 1 && reply[0] == ((q + 7) / 8) as u8 && packs_bits(
                reply.drop_first(),
                read_bits(m, frame_word(data, 0), q as nat),
            )
        }
    }
}

/// Reading registers: request `address, quantity`; reply byte count and the
/// values big-endian; 1 to 125 registers.
pub open spec fn read_words_handled(data: Seq<u8>, m: Map<u16, u16>, short_msg: Seq<char>, o: Result<Seq<u8>, ModbusError>) -> bool {
    if data.len() < 4 {
        frame_fault(o, short_msg)
    } else {
        let q = frame_word(data, 2);
        if q == 0 || q > 125 {
            data_fault(o, "Invalid quantity"@)
        } else {
            o == Ok::<Seq<u8>, ModbusError>(
                seq![(q * 2) as u8] + bytes_of_words(read_words(m, frame_word(data, 0), q as nat)),
            )
        }
    }
}

/// The coils that a write-multiple-coils request carries: `quantity` bits
/// from the sixth byte on.
pub open spec fn carried_coils(data: Seq<u8>) -> Seq<bool> {
    Seq::new(frame_word(data, 2) as nat, |i: int| bit_of(data[5 + i / 8], i % 8))
}

/// The registers that a write-multiple-registers request carries.
pub open spec fn carried_registers(data: Seq<u8>) -> Seq<u16> {
    words_of_bytes(data.subrange(5, 5 + 2 * frame_word(data, 2)))
}

/// Requests whose coil bits reach past the end of the request.
pub open spec fn coil_request_overruns(data: Seq<u8>) -> bool {
    data.len() >= 5 && data.len() >= 5 + data[4] && frame_word(data, 2) > 0 && 5 + (frame_word(
        data,
        2,
    ) - 1) / 8 >= data.len()
}

/// What a function code's handler answers to a request payload, on a bank
/// with contents `b`; codes other than the eight supported ones answer
/// nothing here.
pub open spec fn handled(fc: u8, data: Seq<u8>, b: BankModel, o: Result<Seq<u8>, ModbusError>) -> bool {
    if fc == 0x01 {
        read_bits_handled(data, b.coils, "Invalid read coils request"@, o)
    } else if fc == 0x02 {
        read_bits_handled(data, b.discrete_inputs, "Invalid read discrete inputs request"@, o)
    } else if fc == 0x03 {
        read_words_handled(data, b.holding_registers, "Invalid read holding registers request"@, o)
    } else if fc == 0x04 {
        read_words_handled(data, b.input_registers, "Invalid read input registers request"@, o)
    } else if fc == 0x05 {
        if data.len() < 4 {
            frame_fault(o, "Invalid write single coil request"@)
        } else if frame_word(data, 2) != 0 && frame_word(data, 2) != 0xFF00 {
            data_fault(o, "Invalid coil value"@)
        } else {
            o == Ok::<Seq<u8>, ModbusError>(data)
        }
    } else if fc == 0x06 {
        if data.len() < 4 {
            frame_fault(o, "Invalid write single register request"@)
        } else {
            o == Ok::<Seq<u8>, ModbusError>(data)
        }
    } else if fc == 0x0F {
        if data.len() < 5 {
            frame_fault(o, "Invalid write multiple coils request"@)
        } else if data.len() < 5 + data[4] {
            frame_fault(o, "Incomplete write multiple coils request"@)
        } else {
            o == Ok::<Seq<u8>, ModbusError>(data.take(4))
        }
    } else if fc == 0x10 {
        if data.len() < 5 {
            frame_fault(o, "Invalid write multiple registers request"@)
        } else if data.len() < 5 + data[4] || data[4] != 2 * frame_word(data, 2) {
            frame_fault(o, "Incomplete write multiple registers request"@)
        } else {
            o == Ok::<Seq<u8>, ModbusError>(data.take(4))
        }
    } else {
        false
    }
}

/// The bank contents after a function code's handler ran on a request
/// payload: writes that pass their checks change the bank, nothing else does.
pub open spec fn bank_after(fc: u8, data: Seq<u8>, b: BankModel) -> BankModel {
    if fc == 0x05 && data.len() >= 4 && (frame_word(data, 2) == 0 || frame_word(data, 2)
        == 0xFF00) {
        BankModel {
            coils: b.coils.insert(frame_word(data, 0), frame_word(data, 2) == 0xFF00),
            ..b
        }
    } else if fc == 0x06 && data.len() >= 4 {
        BankModel {
            holding_registers: b.holding_registers.insert(frame_word(data, 0), frame_word(data, 2)),
            ..b
        }
    } else if fc == 0x0F && data.len() >= 5 && data.len() >= 5 + data[4] {
        BankModel {
            coils: write_bits(b.coils, frame_word(data, 0), carried_coils(data)),
            ..b
        }
    } else if fc == 0x10 && data.len() >= 5 && data.len() >= 5 + data[4] && data[4] == 2
        * frame_word(data, 2) {
        BankModel {
            holding_registers: write_words(
                b.holding_registers,
                frame_word(data, 0),
                carried_registers(data),
            ),
            ..b
        }
    } else {
        b
    }
}

/// Whether a function code is one of the eight the server handles.
pub open spec fn supported_code(fc: u8) -> bool {
    fc == 0x01 || fc == 0x02 || fc == 0x03 || fc == 0x04 || fc == 0x05 || fc == 0x06 || fc == 0x0F
        || fc == 0x10
}

fn word_at(data: &[u8], i: usize) -> (w: u16)
    requires
        i + 1 < data@.len(),
    ensures
        w == frame_word(data@, i as int),
{
    (data[i] as u16) * 256 + (data[i + 1] as u16)
}

fn read_bits_reply(data: &[u8], bits: Vec<bool>, quantity: u16) -> (reply: Vec<u8>)
    requires
        1 <= quantity <= 2000,
        bits@.len() == quantity,
    ensures
        reply@.len() >= 1,
        reply@[0] == ((quantity + 7) / 8) as u8,
        packs_bits(reply@.drop_first(), bits@),
{
    let packed = pack_bits(bits.as_slice());
    let byte_count = (quantity + 7) / 8;
    let mut reply: Vec<u8> = Vec::new();
    reply.push(byte_count as u8);
    push_all(&mut reply, packed.as_slice());
    assert(reply@.drop_first() =~= packed@);
    reply
}

/// Handles read coils (0x01).
pub fn handle_read_coils(data: &[u8], bank: &ModbusRegisterBank) -> (r: ModbusResult<Vec<u8>>)
    ensures
        handled(0x01, data@, bank.model(), bytes_result(r)),
{
    if data.len() < 4 {
        return Err(ModbusError::frame("Invalid read coils request"));
    }
    let address = word_at(data, 0);
    let quantity = word_at(data, 2);
    if quantity == 0 || quantity > 2000 {
        return Err(ModbusError::invalid_data("Invalid quantity"));
    }
    let coils = bank.read_coils(address, quantity)?;
    Ok(read_bits_reply(data, coils, quantity))
}

/// Handles read discrete inputs (0x02).
pub fn handle_read_discrete_inputs(data: &[u8], bank: &ModbusRegisterBank) -> (r: ModbusResult<Vec<u8>>)
    ensures
        handled(0x02, data@, bank.model(), bytes_result(r)),
{
    if data.len() < 4 {
        return Err(ModbusError::frame("Invalid read discrete inputs request"));
    }
    let address = word_at(data, 0);
    let quantity = word_at(data, 2);
    if quantity == 0 || quantity > 2000 {
        return Err(ModbusError::invalid_data("Invalid quantity"));
    }
    let inputs = bank.read_discrete_inputs(address, quantity)?;
    Ok(read_bits_reply(data, inputs, quantity))
}

fn read_words_reply(registers: Vec<u16>, quantity: u16) -> (reply: Vec<u8>)
    requires
        1 <= quantity <= 125,
        registers@.len() == quantity,
    ensures
        reply@ == seq![(quantity * 2) as u8] + bytes_of_words(registers@),
{
    let bytes = registers_to_bytes(registers.as_slice());
    let mut reply: Vec<u8> = Vec::new();
    reply.push((quantity * 2) as u8);
    push_all(&mut reply, bytes.as_slice());
    reply
}

/// Handles read holding registers (0x03).
pub fn handle_read_holding_registers(data: &[u8], bank: &ModbusRegisterBank) -> (r: ModbusResult<Vec<u8>>)
    ensures
        handled(0x03, data@, bank.model(), bytes_result(r)),
{
    if data.len() < 4 {
        return Err(ModbusError::frame("Invalid read holding registers request"));
    }
    let address = word_at(data, 0);
    let quantity = word_at(data, 2);
    if quantity == 0 || quantity > 125 {
        return Err(ModbusError::invalid_data("Invalid quantity"));
    }
    let registers = bank.read_holding_registers(address, quantity)?;
    Ok(read_words_reply(registers, quantity))
}

/// Handles read input registers (0x04).
pub fn handle_read_input_registers(data: &[u8], bank: &ModbusRegisterBank) -> (r: ModbusResult<Vec<u8>>)
    ensures
        handled(0x04, data@, bank.model(), bytes_result(r)),
{
    if data.len() < 4 {
        return Err(ModbusError::frame("Invalid read input registers request"));
    }
    let address = word_at(data, 0);
    let quantity = word_at(data, 2);
    if quantity == 0 || quantity > 125 {
        return Err(ModbusError::invalid_data("Invalid quantity"));
    }
    let registers = bank.read_input_registers(address, quantity)?;
    Ok(read_words_reply(registers, quantity))
}

/// Handles write single coil (0x05): 0xFF00 sets, 0x0000 clears, and the
/// request is echoed.
pub fn handle_write_single_coil(data: &[u8], bank: &mut ModbusRegisterBank) -> (r: ModbusResult<Vec<u8>>)
    ensures
        handled(0x05, data@, old(bank).model(), bytes_result(r)),
        final(bank).model() == bank_after(0x05, data@, old(bank).model()),
{
    if data.len() < 4 {
        return Err(ModbusError::frame("Invalid write single coil request"));
    }
    let address = word_at(data, 0);
    let value = word_at(data, 2);
    let coil_value = if value == 0x0000 {
        false
    } else if value == 0xFF00 {
        true
    } else {
        return Err(ModbusError::invalid_data("Invalid coil value"));
    };
    bank.write_single_coil(address, coil_value)?;
    Ok(vstd::slice::slice_to_vec(data))
}

/// Handles write single register (0x06); the request is echoed.
pub fn handle_write_single_register(data: &[u8], bank: &mut ModbusRegisterBank) -> (r: ModbusResult<Vec<u8>>)
    ensures
        handled(0x06, data@, old(bank).model(), bytes_result(r)),
        final(bank).model() == bank_after(0x06, data@, old(bank).model()),
{
    if data.len() < 4 {
        return Err(ModbusError::frame("Invalid write single register request"));
    }
    let address = word_at(data, 0);
    let value = word_at(data, 2);
    bank.write_single_register(address, value)?;
    Ok(vstd::slice::slice_to_vec(data))
}

/// Handles write multiple coils (0x0F); the reply is address and quantity.
pub fn handle_write_multiple_coils(data: &[u8], bank: &mut ModbusRegisterBank) -> (r: ModbusResult<Vec<u8>>)
    requires
        !coil_request_overruns(data@),
    ensures
        handled(0x0F, data@, old(bank).model(), bytes_result(r)),
        final(bank).model() == bank_after(0x0F, data@, old(bank).model()),
{
    if data.len() < 5 {
        return Err(ModbusError::frame("Invalid write multiple coils request"));
    }
    let address = word_at(data, 0);
    let quantity = word_at(data, 2);
    let byte_count = data[4] as usize;
    if data.len() < 5 + byte_count {
        return Err(ModbusError::frame("Incomplete write multiple coils request"));
    }
    let ghost expected = carried_coils(data@);
    let mut coils: Vec<bool> = Vec::with_capacity(quantity as usize);
    let mut i: u16 = 0;
    while i < quantity
        invariant
            quantity == frame_word(data@, 2),
            data@.len() >= 5,
            !coil_request_overruns(data@),
            data@.len() >= 5 + data@[4],
            expected == carried_coils(data@),
            i <= quantity,
            coils@ == expected.take(i as int),
        decreases quantity - i,
    {
        let byte_index = (i / 8) as usize;
        let bit_index = (i % 8) as u8;
        let byte_value = data[5 + byte_index];
        coils.push((byte_value & (1u8 << bit_index)) != 0);
        i = i + 1;
        assert(coils@ =~= expected.take(i as int));
    }
    assert(coils@ =~= expected);
    bank.write_multiple_coils(address, coils.as_slice())?;
    let reply = vstd::slice::slice_to_vec(vstd::slice::slice_subrange(data, 0, 4));
    assert(reply@ =~= data@.take(4));
    Ok(reply)
}

/// Handles write multiple registers (0x10); the byte count must be twice the
/// quantity; the reply is address and quantity.
pub fn handle_write_multiple_registers(data: &[u8], bank: &mut ModbusRegisterBank) -> (r: ModbusResult<Vec<u8>>)
    ensures
        handled(0x10, data@, old(bank).model(), bytes_result(r)),
        final(bank).model() == bank_after(0x10, data@, old(bank).model()),
{
    if data.len() < 5 {
        return Err(ModbusError::frame("Invalid write multiple registers request"));
    }
    let address = word_at(data, 0);
    let quantity = word_at(data, 2);
    let byte_count = data[4] as usize;
    if data.len() < 5 + byte_count || byte_count != (quantity as usize) * 2 {
        return Err(ModbusError::frame("Incomplete write multiple registers request"));
    }
    let ghost expected = carried_registers(data@);
    let mut registers: Vec<u16> = Vec::with_capacity(quantity as usize);
    let mut i: u16 = 0;
    while i < quantity
        invariant
            quantity == frame_word(data@, 2),
            data@.len() >= 5 + 2 * quantity,
            expected == carried_registers(data@),
            i <= quantity,
            registers@ == expected.take(i as int),
        decreases quantity - i,
    {
        let offset = 5 + (i as usize) * 2;
        let value = word_at(data, offset);
        registers.push(value);
        i = i + 1;
        assert(registers@ =~= expected.take(i as int));
    }
    assert(registers@ =~= expected);
    bank.write_multiple_registers(address, registers.as_slice())?;
    let reply = vstd::slice::slice_to_vec(vstd::slice::slice_subrange(data, 0, 4));
    assert(reply@ =~= data@.take(4));
    Ok(reply)
}

/// Runs the handler of a supported function code.
pub fn dispatch(function_code: u8, data: &[u8], bank: &mut ModbusRegisterBank) -> (r: ModbusResult<Vec<u8>>)
    requires
        supported_code(function_code),
        function_code == 0x0F ==> !coil_request_overruns(data@),
    ensures
        handled(function_code, data@, old(bank).model(), bytes_result(r)),
        final(bank).model() == bank_after(function_code, data@, old(bank).model()),
{
    if function_code == 0x01 {
        handle_read_coils(data, bank)
    } else if function_code == 0x02 {
        handle_read_discrete_inputs(data, bank)
    } else if function_code == 0x03 {
        handle_read_holding_registers(data, bank)
    } else if function_code == 0x04 {
        handle_read_input_registers(data, bank)
    } else if function_code == 0x05 {
        handle_write_single_coil(data, bank)
    } else if function_code == 0x06 {
        handle_write_single_register(data, bank)
    } else if function_code == 0x0F {
        handle_write_multiple_coils(data, bank)
    } else {
        handle_write_multiple_registers(data, bank)
    }
}

/// The message of the error for a function code the TCP server does not
/// handle.
pub open spec fn unsupported_text(fc: u8) -> Seq<char> {
    "Unsupported function code: 0x"@ + hex2_lower(fc)
}

/// The TCP response frame around a handler's reply: the request's
/// transaction id, protocol id 0, length, unit id and function code, then the
/// reply.
pub open spec fn tcp_reply_frame(request: Seq<u8>, reply: Seq<u8>) -> Seq<u8> {
    request.take(2) + be_bytes(0) + be_bytes((reply.len() + 2) as u16) + seq![request[6], request[7]]
        + reply
}

/// The length field of a TCP request frame.
pub open spec fn tcp_request_length(f: Seq<u8>) -> int {
    frame_word(f, 4) as int
}

/// The handler payload of a TCP request frame.
pub open spec fn tcp_request_payload(f: Seq<u8>) -> Seq<u8> {
    f.subrange(8, 6 + tcp_request_length(f))
}

/// A TCP request frame that passes the header checks.
pub open spec fn tcp_request_well_framed(f: Seq<u8>) -> bool {
    f.len() >= 8 && frame_word(f, 2) == 0 && f.len() >= 6 + tcp_request_length(f)
}

/// Request frames that the processing cannot take apart: a length field
/// below 2, or a write-multiple-coils payload whose bits run past its end.
pub open spec fn tcp_request_undefined(f: Seq<u8>) -> bool {
    tcp_request_well_framed(f) && (tcp_request_length(f) < 2 || (f[7] == 0x0F
        && tcp_request_length(f) >= 2 && coil_request_overruns(tcp_request_payload(f))))
}

/// Whether processing a TCP request frame is defined.
pub fn tcp_request_defined(frame: &[u8]) -> (r: bool)
    ensures
        r == !tcp_request_undefined(frame@),
{
    if frame.len() < 8 {
        return true;
    }
    let protocol_id = word_at(frame, 2);
    let length = word_at(frame, 4);
    if protocol_id != 0 || frame.len() < 6 + length as usize {
        return true;
    }
    if length < 2 {
        return false;
    }
    if frame[7] != 0x0F {
        return true;
    }
    let payload = vstd::slice::slice_subrange(frame, 8, 6 + length as usize);
    assert(payload@ =~= tcp_request_payload(frame@));
    let m = payload.len();
    if m >= 5 && m >= 5 + payload[4] as usize {
        let q = word_at(payload, 2);
        if q > 0 && 5 + ((q - 1) / 8) as usize >= m {
            return false;
        }
    }
    true
}

/// Processes a Modbus TCP request frame on a bank and builds the response
/// frame.
pub fn process_tcp_request(frame: &[u8], bank: &mut ModbusRegisterBank) -> (r: ModbusResult<Vec<u8>>)
    requires
        !tcp_request_undefined(frame@),
    ensures
        frame@.len() < 8 ==> (r matches Err(e) && is_frame_error(e, "Frame too short"@)),
        frame@.len() >= 8 && frame_word(frame@, 2) != 0 ==> (r matches Err(e) && is_frame_error(
            e,
            "Invalid protocol ID"@,
        )),
        frame@.len() >= 8 && frame_word(frame@, 2) == 0 && frame@.len() < 6 + tcp_request_length(
            frame@,
        ) ==> (r matches Err(e) && is_frame_error(e, "Incomplete frame"@)),
        tcp_request_well_framed(frame@) && !supported_code(frame@[7]) ==> (r matches Err(e)
            && is_protocol_error_with(e, unsupported_text(frame@[7]))),
        tcp_request_well_framed(frame@) && supported_code(frame@[7]) ==> {
            &&& handled(
                frame@[7],
                tcp_request_payload(frame@),
                old(bank).model(),
                match r {
                    Ok(f) => Ok(f@.skip(8)),
                    Err(e) => Err(e),
                },
            )
            &&& (r matches Ok(f) ==> f@ == tcp_reply_frame(frame@, f@.skip(8)))
        },
        final(bank).model() == if tcp_request_well_framed(frame@) && supported_code(frame@[7]) {
            bank_after(frame@[7], tcp_request_payload(frame@), old(bank).model())
        } else {
            old(bank).model()
        },
{
    if frame.len() < 8 {
        return Err(ModbusError::frame("Frame too short"));
    }
    let protocol_id = word_at(frame, 2);
    let length = word_at(frame, 4);
    let unit_id = frame[6];
    let function_code = frame[7];
    if protocol_id != 0 {
        return Err(ModbusError::frame("Invalid protocol ID"));
    }
    if frame.len() < 6 + length as usize {
        return Err(ModbusError::frame("Incomplete frame"));
    }
    let data = vstd::slice::slice_subrange(frame, 8, 6 + length as usize);
    let supported = function_code == 0x01 || function_code == 0x02 || function_code == 0x03
        || function_code == 0x04 || function_code == 0x05 || function_code == 0x06
        || function_code == 0x0F || function_code == 0x10;
    if !supported {
        let mut m = String::new();
        push_text(&mut m, "Unsupported function code: 0x");
        push_hex2_lower(&mut m, function_code);
        assert(m@ =~= unsupported_text(function_code));
        return Err(ModbusError::Protocol { message: m });
    }
    let response_data = dispatch(function_code, data, bank)?;
    let mut response: Vec<u8> = Vec::new();
    response.push(frame[0]);
    response.push(frame[1]);
    push_be16(&mut response, protocol_id);
    push_be16(&mut response, (response_data.len() + 2) as u16);
    response.push(unit_id);
    response.push(function_code);
    push_all(&mut response, response_data.as_slice());
    assert(response@.skip(8) =~= response_data@);
    assert(response@ =~= tcp_reply_frame(frame@, response_data@));
    Ok(response)
}

/// The TCP exception response to a request frame: its transaction id,
/// protocol id 0, length 3, unit id, function code with the high bit set and
/// the exception code.
pub open spec fn tcp_exception_reply(request: Seq<u8>, exception_code: u8) -> Seq<u8> {
    request.take(2) + be_bytes(0) + be_bytes(3) + seq![request[6], request[7] | 0x80, exception_code]
}

/// Builds the TCP exception response to a request frame.
pub fn create_error_response(request: &[u8], exception_code: u8) -> (r: ModbusResult<Vec<u8>>)
    ensures
        request@.len() < 8 ==> (r matches Err(e) && is_frame_error(
            e,
            "Request too short for error response"@,
        )),
        request@.len() >= 8 ==> (r matches Ok(f) && f@ == tcp_exception_reply(
            request@,
            exception_code,
        )),
{
    if request.len() < 8 {
        return Err(ModbusError::frame("Request too short for error response"));
    }
    let mut response: Vec<u8> = Vec::new();
    response.push(request[0]);
    response.push(request[1]);
    push_be16(&mut response, 0);
    push_be16(&mut response, 3);
    response.push(request[6]);
    response.push(request[7] | 0x80);
    response.push(exception_code);
    assert(response@ =~= tcp_exception_reply(request@, exception_code));
    Ok(response)
}

/// The RTU exception response: slave, function code with the high bit set,
/// exception code, CRC.
pub open spec fn rtu_exception_reply(slave_id: u8, function_code: u8, exception_code: u8) -> Seq<u8> {
    let body = seq![slave_id, function_code | 0x80, exception_code];
    body + le_bytes(crc16_modbus(body))
}

/// Builds the RTU exception response; this always succeeds.
pub fn create_rtu_error_response(slave_id: u8, function_code: u8, exception_code: u8) -> (r: ModbusResult<Vec<u8>>)
    ensures
        r matches Ok(f) && f@ == rtu_exception_reply(slave_id, function_code, exception_code),
{
    let mut response: Vec<u8> = Vec::new();
    response.push(slave_id);
    response.push(function_code | 0x80);
    response.push(exception_code);
    assert(response@ =~= seq![slave_id, function_code | 0x80, exception_code]);
    let crc = calculate_crc(response.as_slice());
    append_crc(&mut response, crc);
    Ok(response)
}

/// The RTU response around a handler's reply: slave, function code, reply,
/// CRC.
pub open spec fn rtu_reply_frame(slave_id: u8, function_code: u8, reply: Seq<u8>) -> Seq<u8> {
    let body = seq![slave_id, function_code] + reply;
    body + le_bytes(crc16_modbus(body))
}

/// The handler payload of an RTU request frame: what lies between the
/// function code and the CRC.
pub open spec fn rtu_request_payload(f: Seq<u8>) -> Seq<u8> {
    f.subrange(2, f.len() - 2)
}

/// An RTU request frame of at least four bytes whose CRC matches.
pub open spec fn rtu_request_checked(f: Seq<u8>) -> bool {
    f.len() >= 4 && received_crc(f) == crc16_modbus(f.subrange(0, f.len() - 2))
}

/// Request frames whose write-multiple-coils payload has bits running past
/// its end.
pub open spec fn rtu_request_undefined(f: Seq<u8>) -> bool {
    rtu_request_checked(f) && f[1] == 0x0F && coil_request_overruns(rtu_request_payload(f))
}

/// What processing an RTU request frame `f` gives, as the result `r`, on a
/// bank whose contents go from `before` to `after`.
pub open spec fn rtu_frame_processed(
    f: Seq<u8>,
    before: BankModel,
    r: ModbusResult<Vec<u8>>,
    after: BankModel,
) -> bool {
    &&& f.len() < 4 ==> (r matches Err(e) && is_frame_error(e, "RTU frame too short"@))
    &&& f.len() >= 4 && !rtu_request_checked(f) ==> (r matches Err(e) && is_frame_error(
        e,
        "Invalid CRC"@,
    ))
    &&& rtu_request_checked(f) && !supported_code(f[1]) ==> (r matches Ok(o) && o@
        == rtu_exception_reply(f[0], f[1], 0x01))
    &&& rtu_request_checked(f) && supported_code(f[1]) ==> {
        &&& handled(
            f[1],
            rtu_request_payload(f),
            before,
            match r {
                Ok(o) => Ok(o@.subrange(2, o@.len() - 2)),
                Err(e) => Err(e),
            },
        )
        &&& (r matches Ok(o) ==> o@.len() >= 4 && o@ == rtu_reply_frame(
            f[0],
            f[1],
            o@.subrange(2, o@.len() - 2),
        ))
    }
    &&& after == if rtu_request_checked(f) && supported_code(f[1]) {
        bank_after(f[1], rtu_request_payload(f), before)
    } else {
        before
    }
}

/// Processes a Modbus RTU request frame on a bank and builds the response
/// frame; an unsupported function code is answered with exception 0x01.
pub fn process_rtu_frame(frame: &[u8], bank: &mut ModbusRegisterBank) -> (r: ModbusResult<Vec<u8>>)
    requires
        !rtu_request_undefined(frame@),
    ensures
        rtu_frame_processed(frame@, old(bank).model(), r, final(bank).model()),
{
    if frame.len() < 4 {
        return Err(ModbusError::frame("RTU frame too short"));
    }
    let data_len = frame.len() - 2;
    let data = vstd::slice::slice_subrange(frame, 0, data_len);
    let received: u16 = (frame[data_len + 1] as u16) * 256 + (frame[data_len] as u16);
    let calculated = calculate_crc(data);
    if received != calculated {
        return Err(ModbusError::frame("Invalid CRC"));
    }
    let slave_id = data[0];
    let function_code = data[1];
    let pdu_data = vstd::slice::slice_subrange(data, 2, data_len);
    assert(pdu_data@ =~= rtu_request_payload(frame@));
    let supported = function_code == 0x01 || function_code == 0x02 || function_code == 0x03
        || function_code == 0x04 || function_code == 0x05 || function_code == 0x06
        || function_code == 0x0F || function_code == 0x10;
    if !supported {
        return create_rtu_error_response(slave_id, function_code, 0x01);
    }
    let response_data = dispatch(function_code, pdu_data, bank)?;
    let mut response: Vec<u8> = Vec::new();
    response.push(slave_id);
    response.push(function_code);
    push_all(&mut response, response_data.as_slice());
    let ghost body = response@;
    let crc = calculate_crc(response.as_slice());
    append_crc(&mut response, crc);
    assert(response@.subrange(2, response@.len() - 2) =~= response_data@);
    assert(body =~= seq![slave_id, function_code] + response_data@);
    Ok(response)
}

/// Processes an RTU request frame where that is defined: `None`, with the
/// bank untouched, for a frame whose CRC matches and whose write-multiple-coils
/// payload has bits running past its end.
pub fn process_rtu_request(frame: &[u8], bank: &mut ModbusRegisterBank) -> (r: Option<
    ModbusResult<Vec<u8>>,
>)
    ensures
        rtu_request_undefined(frame@) ==> r is None && final(bank).model() == old(bank).model(),
        !rtu_request_undefined(frame@) ==> (r matches Some(res) && rtu_frame_processed(
            frame@,
            old(bank).model(),
            res,
            final(bank).model(),
        )),
{
    let n = frame.len();
    if n >= 4 && frame[1] == 0x0F {
        let body = vstd::slice::slice_subrange(frame, 0, n - 2);
        let received: u16 = (frame[n - 1] as u16) * 256 + (frame[n - 2] as u16);
        let calculated = calculate_crc(body);
        let payload = vstd::slice::slice_subrange(frame, 2, n - 2);
        assert(payload@ =~= rtu_request_payload(frame@));
        let m = payload.len();
        if received == calculated && m >= 5 && m >= 5 + payload[4] as usize {
            let q = word_at(payload, 2);
            if q > 0 && 5 + ((q - 1) / 8) as usize >= m {
                return None;
            }
        }
    }
    Some(process_rtu_frame(frame, bank))
}

/// What the TCP server sends back for a request frame, given the outcome of
/// processing it: the response, or for a failed request the exception
/// response with code 0x01 where the request is long enough to answer; a
/// failed request is counted.
pub fn tcp_server_reply(frame: &[u8], outcome: ModbusResult<Vec<u8>>, stats: &mut ServerStats) -> (r:
    Option<Vec<u8>>)
    requires
        old(stats).failed_requests < u64::MAX,
    ensures
        outcome matches Ok(resp) ==> (r matches Some(f) && f@ == resp@ && *final(stats) == *old(
            stats,
        )),
        outcome is Err ==> *final(stats) == (ServerStats {
            failed_requests: (old(stats).failed_requests + 1) as u64,
            ..*old(stats)
        }),
        outcome is Err && frame@.len() >= 8 ==> (r matches Some(f) && f@ == tcp_exception_reply(
            frame@,
            0x01,
        )),
        outcome is Err && frame@.len() < 8 ==> r is None,
{
    match outcome {
        Ok(resp) => Some(resp),
        Err(_) => {
            stats.record_failure();
            match create_error_response(frame, 0x01) {
                Ok(f) => Some(f),
                Err(_) => None,
            }
        },
    }
}

/// What the RTU server sends back for a request frame, given the outcome of
/// processing it: the response, or for a failed request of at least two bytes
/// the exception response with code 0x01 to its slave and function code; a
/// failed request is counted.
pub fn rtu_server_reply(frame: &[u8], outcome: ModbusResult<Vec<u8>>, stats: &mut ServerStats) -> (r:
    Option<Vec<u8>>)
    requires
        old(stats).failed_requests < u64::MAX,
    ensures
        outcome matches Ok(resp) ==> (r matches Some(f) && f@ == resp@ && *final(stats) == *old(
            stats,
        )),
        outcome is Err ==> *final(stats) == (ServerStats {
            failed_requests: (old(stats).failed_requests + 1) as u64,
            ..*old(stats)
        }),
        outcome is Err && frame@.len() >= 2 ==> (r matches Some(f) && f@ == rtu_exception_reply(
            frame@[0],
            frame@[1],
            0x01,
        )),
        outcome is Err && frame@.len() < 2 ==> r is None,
{
    match outcome {
        Ok(resp) => Some(resp),
        Err(_) => {
            stats.record_failure();
            if frame.len() >= 2 {
                match create_rtu_error_response(frame[0], frame[1], 0x01) {
                    Ok(f) => Some(f),
                    Err(_) => None,
                }
            } else {
                None
            }
        },
    }
}

/// Bytes received by an RTU server, gathered into frames: a silence longer
/// than the frame gap ends the frame gathered so far.
pub struct RtuFrameAssembler {
    buffer: Vec<u8>,
}

impl RtuFrameAssembler {
    /// The bytes gathered since the last frame ended.
    pub closed spec fn pending(&self) -> Seq<u8> {
        self.buffer@
    }

    /// Nothing gathered yet.
    pub fn new() -> (a: Self)
        ensures
            a.pending() == Seq::<u8>::empty(),
    {
        RtuFrameAssembler { buffer: Vec::new() }
    }

    /// Bytes arrived after a silence; `gap_elapsed` tells whether that silence
    /// was longer than the frame gap. Returns the frame it ended, if any.
    pub fn on_bytes(&mut self, data: &[u8], gap_elapsed: bool) -> (r: Option<Vec<u8>>)
        ensures
            gap_elapsed && old(self).pending().len() > 0 ==> (r matches Some(f) && f@ == old(
                self,
            ).pending() && final(self).pending() == data@),
            !(gap_elapsed && old(self).pending().len() > 0) ==> (r is None && final(self).pending()
                == old(self).pending() + data@),
    {
        let mut done: Option<Vec<u8>> = None;
        if gap_elapsed && self.buffer.len() > 0 {
            let mut finished: Vec<u8> = Vec::new();
            std::mem::swap(&mut finished, &mut self.buffer);
            done = Some(finished);
        }
        let ghost before = self.buffer@;
        push_all(&mut self.buffer, data);
        done
    }

    /// A silence with no bytes; `gap_elapsed` tells whether it has lasted
    /// longer than the frame gap. Returns the frame it ended, if any.
    pub fn on_pause(&mut self, gap_elapsed: bool) -> (r: Option<Vec<u8>>)
        ensures
            gap_elapsed && old(self).pending().len() > 0 ==> (r matches Some(f) && f@ == old(
                self,
            ).pending() && final(self).pending() == Seq::<u8>::empty()),
            !(gap_elapsed && old(self).pending().len() > 0) ==> (r is None && final(self).pending()
                == old(self).pending()),
    {
        if gap_elapsed && self.buffer.len() > 0 {
            let mut finished: Vec<u8> = Vec::new();
            std::mem::swap(&mut finished, &mut self.buffer);
            Some(finished)
        } else {
            None
        }
    }
}

} // verus!
