//! Modbus protocol definitions: function codes, exception codes, requests
//! and responses, and the parsing of response data.

use vstd::prelude::*;
use crate::error::{
    ModbusError, ModbusResult, exception_code_name, is_frame_error, is_invalid_data,
    is_protocol_error_with,
};
use crate::text::{dec_str, hex2_upper, push_decimal, push_hex2_upper, push_text};

pub mod data_utils;

verus! {

/// Modbus address (0-65535).
pub type ModbusAddress = u16;

/// 16-bit register value.
pub type ModbusValue = u16;

/// Slave (unit) identifier, 1-247 for addressed requests.
pub type SlaveId = u8;

/// The function codes that this library supports.
#[derive(Debug, Clone, Copy, PartialEq, Eq, Hash, Structural)]
pub enum ModbusFunction {
    /// Read Coils (0x01)
    ReadCoils,
    /// Read Discrete Inputs (0x02)
    ReadDiscreteInputs,
    /// Read Holding Registers (0x03)
    ReadHoldingRegisters,
    /// Read Input Registers (0x04)
    ReadInputRegisters,
    /// Write Single Coil (0x05)
    WriteSingleCoil,
    /// Write Single Register (0x06)
    WriteSingleRegister,
    /// Write Multiple Coils (0x0F)
    WriteMultipleCoils,
    /// Write Multiple Registers (0x10)
    WriteMultipleRegisters,
}

/// The wire code of a function.
pub open spec fn function_code(f: ModbusFunction) -> u8 {
    match f {
        ModbusFunction::ReadCoils => 0x01,
        ModbusFunction::ReadDiscreteInputs => 0x02,
        ModbusFunction::ReadHoldingRegisters => 0x03,
        ModbusFunction::ReadInputRegisters => 0x04,
        ModbusFunction::WriteSingleCoil => 0x05,
        ModbusFunction::WriteSingleRegister => 0x06,
        ModbusFunction::WriteMultipleCoils => 0x0F,
        ModbusFunction::WriteMultipleRegisters => 0x10,
    }
}

/// The function of a wire code, if the code is supported.
pub open spec fn function_of_code(v: u8) -> Option<ModbusFunction> {
    if v == 0x01 {
        Some(ModbusFunction::ReadCoils)
    } else if v == 0x02 {
        Some(ModbusFunction::ReadDiscreteInputs)
    } else if v == 0x03 {
        Some(ModbusFunction::ReadHoldingRegisters)
    } else if v == 0x04 {
        Some(ModbusFunction::ReadInputRegisters)
    } else if v == 0x05 {
        Some(ModbusFunction::WriteSingleCoil)
    } else if v == 0x06 {
        Some(ModbusFunction::WriteSingleRegister)
    } else if v == 0x0F {
        Some(ModbusFunction::WriteMultipleCoils)
    } else if v == 0x10 {
        Some(ModbusFunction::WriteMultipleRegisters)
    } else {
        None
    }
}

/// Whether the function reads data.
pub open spec fn is_read(f: ModbusFunction) -> bool {
    f == ModbusFunction::ReadCoils || f == ModbusFunction::ReadDiscreteInputs || f
        == ModbusFunction::ReadHoldingRegisters || f == ModbusFunction::ReadInputRegisters
}

/// The name of a function.
pub open spec fn function_name(f: ModbusFunction) -> Seq<char> {
    match f {
        ModbusFunction::ReadCoils => "Read Coils"@,
        ModbusFunction::ReadDiscreteInputs => "Read Discrete Inputs"@,
        ModbusFunction::ReadHoldingRegisters => "Read Holding Registers"@,
        ModbusFunction::ReadInputRegisters => "Read Input Registers"@,
        ModbusFunction::WriteSingleCoil => "Write Single Coil"@,
        ModbusFunction::WriteSingleRegister => "Write Single Register"@,
        ModbusFunction::WriteMultipleCoils => "Write Multiple Coils"@,
        ModbusFunction::WriteMultipleRegisters => "Write Multiple Registers"@,
    }
}

/// Text of a function: its name and its code, such as `Read Coils (0x01)`.
pub open spec fn function_text(f: ModbusFunction) -> Seq<char> {
    function_name(f) + " (0x"@ + hex2_upper(function_code(f)) + ")"@
}

/// A function code converts to its function and back.
pub proof fn lemma_function_code_roundtrip(f: ModbusFunction, v: u8)
    ensures
        function_of_code(function_code(f)) == Some(f),
        function_of_code(v) matches Some(g) ==> function_code(g) == v,
{
}

impl ModbusFunction {
    /// The function of a wire code; unsupported codes are an `InvalidFunction` error.
    pub fn from_u8(value: u8) -> (r: ModbusResult<Self>)
        ensures
            match function_of_code(value) {
                Some(f) => r == Ok::<ModbusFunction, ModbusError>(f),
                None => r == Err::<ModbusFunction, ModbusError>(
                    ModbusError::InvalidFunction { code: value },
                ),
            },
    {
        match value {
            0x01 => Ok(ModbusFunction::ReadCoils),
            0x02 => Ok(ModbusFunction::ReadDiscreteInputs),
            0x03 => Ok(ModbusFunction::ReadHoldingRegisters),
            0x04 => Ok(ModbusFunction::ReadInputRegisters),
            0x05 => Ok(ModbusFunction::WriteSingleCoil),
            0x06 => Ok(ModbusFunction::WriteSingleRegister),
            0x0F => Ok(ModbusFunction::WriteMultipleCoils),
            0x10 => Ok(ModbusFunction::WriteMultipleRegisters),
            _ => Err(ModbusError::invalid_function(value)),
        }
    }

    /// The wire code of the function.
    pub fn to_u8(self) -> (r: u8)
        ensures
            r == function_code(self),
    {
        match self {
            ModbusFunction::ReadCoils => 0x01,
            ModbusFunction::ReadDiscreteInputs => 0x02,
            ModbusFunction::ReadHoldingRegisters => 0x03,
            ModbusFunction::ReadInputRegisters => 0x04,
            ModbusFunction::WriteSingleCoil => 0x05,
            ModbusFunction::WriteSingleRegister => 0x06,
            ModbusFunction::WriteMultipleCoils => 0x0F,
            ModbusFunction::WriteMultipleRegisters => 0x10,
        }
    }

    /// Whether this is one of the four read functions.
    pub fn is_read_function(self) -> (r: bool)
        ensures
            r == is_read(self),
    {
        match self {
            ModbusFunction::ReadCoils | ModbusFunction::ReadDiscreteInputs
            | ModbusFunction::ReadHoldingRegisters | ModbusFunction::ReadInputRegisters => true,
            _ => false,
        }
    }

    /// Whether this is one of the four write functions.
    pub fn is_write_function(self) -> (r: bool)
        ensures
            r == !is_read(self),
    {
        match self {
            ModbusFunction::WriteSingleCoil | ModbusFunction::WriteSingleRegister
            | ModbusFunction::WriteMultipleCoils | ModbusFunction::WriteMultipleRegisters => true,
            _ => false,
        }
    }

    /// The name of the function.
    pub fn name(self) -> (r: &'static str)
        ensures
            r@ == function_name(self),
    {
        match self {
            ModbusFunction::ReadCoils => "Read Coils",
            ModbusFunction::ReadDiscreteInputs => "Read Discrete Inputs",
            ModbusFunction::ReadHoldingRegisters => "Read Holding Registers",
            ModbusFunction::ReadInputRegisters => "Read Input Registers",
            ModbusFunction::WriteSingleCoil => "Write Single Coil",
            ModbusFunction::WriteSingleRegister => "Write Single Register",
            ModbusFunction::WriteMultipleCoils => "Write Multiple Coils",
            ModbusFunction::WriteMultipleRegisters => "Write Multiple Registers",
        }
    }

    /// Text of the function, such as `Read Holding Registers (0x03)`.
    pub fn to_string(self) -> (s: String)
        ensures
            s@ == function_text(self),
    {
        let mut s = String::new();
        push_text(&mut s, self.name());
        push_text(&mut s, " (0x");
        push_hex2_upper(&mut s, self.to_u8());
        push_text(&mut s, ")");
        assert(s@ =~= function_text(self));
        s
    }
}

/// The exception codes: the standard ones, and `Other` for any other code
/// that a device sends.
#[derive(Debug, Clone, Copy, PartialEq, Eq, Structural)]
pub enum ModbusException {
    IllegalFunction,
    IllegalDataAddress,
    IllegalDataValue,
    ServerDeviceFailure,
    Acknowledge,
    ServerDeviceBusy,
    MemoryParityError,
    GatewayPathUnavailable,
    GatewayTargetDeviceFailedToRespond,
    Other(u8),
}

/// The wire code of an exception.
pub open spec fn exception_code(e: ModbusException) -> u8 {
    match e {
        ModbusException::IllegalFunction => 0x01,
        ModbusException::IllegalDataAddress => 0x02,
        ModbusException::IllegalDataValue => 0x03,
        ModbusException::ServerDeviceFailure => 0x04,
        ModbusException::Acknowledge => 0x05,
        ModbusException::ServerDeviceBusy => 0x06,
        ModbusException::MemoryParityError => 0x08,
        ModbusException::GatewayPathUnavailable => 0x0A,
        ModbusException::GatewayTargetDeviceFailedToRespond => 0x0B,
        ModbusException::Other(code) => code,
    }
}

/// The exception of a wire code, if the code is a standard one.
pub open spec fn exception_of_code(v: u8) -> Option<ModbusException> {
    if v == 0x01 {
        Some(ModbusException::IllegalFunction)
    } else if v == 0x02 {
        Some(ModbusException::IllegalDataAddress)
    } else if v == 0x03 {
        Some(ModbusException::IllegalDataValue)
    } else if v == 0x04 {
        Some(ModbusException::ServerDeviceFailure)
    } else if v == 0x05 {
        Some(ModbusException::Acknowledge)
    } else if v == 0x06 {
        Some(ModbusException::ServerDeviceBusy)
    } else if v == 0x08 {
        Some(ModbusException::MemoryParityError)
    } else if v == 0x0A {
        Some(ModbusException::GatewayPathUnavailable)
    } else if v == 0x0B {
        Some(ModbusException::GatewayTargetDeviceFailedToRespond)
    } else {
        None
    }
}

/// Description of an exception.
pub open spec fn exception_description(e: ModbusException) -> Seq<char> {
    match e {
        ModbusException::IllegalFunction =>
            "The function code received in the query is not an allowable action for the server"@,
        ModbusException::IllegalDataAddress =>
            "The data address received in the query is not an allowable address for the server"@,
        ModbusException::IllegalDataValue =>
            "A value contained in the query data field is not an allowable value for server"@,
        ModbusException::ServerDeviceFailure =>
            "An unrecoverable error occurred while the server was attempting to perform the requested action"@,
        ModbusException::Acknowledge =>
            "The server has accepted the request and is processing it, but a long duration of time will be required to do so"@,
        ModbusException::ServerDeviceBusy =>
            "The server is engaged in processing a long-duration program command"@,
        ModbusException::MemoryParityError =>
            "The server attempted to read record file, but detected a parity error in the memory"@,
        ModbusException::GatewayPathUnavailable =>
            "Gateway was unable to allocate an internal communication path"@,
        ModbusException::GatewayTargetDeviceFailedToRespond =>
            "No response was obtained from the target device"@,
        ModbusException::Other(_) => "Unrecognized exception code"@,
    }
}

/// The exception that a wire code stands for: its standard exception, or
/// `Other` of the code.
pub open spec fn exception_for(v: u8) -> ModbusException {
    match exception_of_code(v) {
        Some(e) => e,
        None => ModbusException::Other(v),
    }
}

/// Text of an exception: `Modbus Exception 0x.. : description`.
pub open spec fn exception_text(e: ModbusException) -> Seq<char> {
    "Modbus Exception 0x"@ + hex2_upper(exception_code(e)) + ": "@ + exception_description(e)
}

/// Exactly the nine standard codes have an exception; a standard exception
/// converts to its code and back; every code converts to the exception it
/// stands for and back, and so does every exception that a code can stand for
/// (a standard one, or `Other` of a code that is not standard).
pub proof fn lemma_exception_code_roundtrip(e: ModbusException, v: u8)
    ensures
        exception_of_code(v) is Some <==> (v == 0x01 || v == 0x02 || v == 0x03 || v == 0x04 || v
            == 0x05 || v == 0x06 || v == 0x08 || v == 0x0A || v == 0x0B),
        !(e is Other) ==> exception_of_code(exception_code(e)) == Some(e),
        exception_of_code(v) matches Some(g) ==> exception_code(g) == v,
        exception_code(exception_for(v)) == v,
        (e matches ModbusException::Other(c) ==> exception_of_code(c) is None) ==> exception_for(
            exception_code(e),
        ) == e,
{
}

/// Every exception has a non-empty description, and different standard
/// exceptions have different descriptions; every `Other` code shares one
/// description, which no standard exception has.
pub proof fn lemma_exception_descriptions_distinct(e1: ModbusException, e2: ModbusException)
    ensures
        exception_description(e1).len() > 0,
        e1 != e2 && !(e1 is Other && e2 is Other) ==> exception_description(e1)
            != exception_description(e2),
{
    reveal_strlit("The function code received in the query is not an allowable action for the server");
    reveal_strlit("The data address received in the query is not an allowable address for the server");
    reveal_strlit("A value contained in the query data field is not an allowable value for server");
    reveal_strlit("An unrecoverable error occurred while the server was attempting to perform the requested action");
    reveal_strlit("The server has accepted the request and is processing it, but a long duration of time will be required to do so");
    reveal_strlit("The server is engaged in processing a long-duration program command");
    reveal_strlit("The server attempted to read record file, but detected a parity error in the memory");
    reveal_strlit("Gateway was unable to allocate an internal communication path");
    reveal_strlit("No response was obtained from the target device");
    reveal_strlit("Unrecognized exception code");
    let d1 = exception_description(e1);
    let d2 = exception_description(e2);
    if e1 != e2 && !(e1 is Other && e2 is Other) {
        if d1.len() == d2.len() {
            assert(d1[4] != d2[4]);
        }
    }
}

impl ModbusException {
    /// The exception of a standard code, `None` for other codes.
    pub fn from_u8(value: u8) -> (r: Option<Self>)
        ensures
            r == exception_of_code(value),
    {
        match value {
            0x01 => Some(ModbusException::IllegalFunction),
            0x02 => Some(ModbusException::IllegalDataAddress),
            0x03 => Some(ModbusException::IllegalDataValue),
            0x04 => Some(ModbusException::ServerDeviceFailure),
            0x05 => Some(ModbusException::Acknowledge),
            0x06 => Some(ModbusException::ServerDeviceBusy),
            0x08 => Some(ModbusException::MemoryParityError),
            0x0A => Some(ModbusException::GatewayPathUnavailable),
            0x0B => Some(ModbusException::GatewayTargetDeviceFailedToRespond),
            _ => None,
        }
    }

    /// The wire code of the exception.
    pub fn to_u8(self) -> (r: u8)
        ensures
            r == exception_code(self),
    {
        match self {
            ModbusException::IllegalFunction => 0x01,
            ModbusException::IllegalDataAddress => 0x02,
            ModbusException::IllegalDataValue => 0x03,
            ModbusException::ServerDeviceFailure => 0x04,
            ModbusException::Acknowledge => 0x05,
            ModbusException::ServerDeviceBusy => 0x06,
            ModbusException::MemoryParityError => 0x08,
            ModbusException::GatewayPathUnavailable => 0x0A,
            ModbusException::GatewayTargetDeviceFailedToRespond => 0x0B,
            ModbusException::Other(code) => code,
        }
    }

    /// Human-readable description of the exception.
    pub fn description(self) -> (r: &'static str)
        ensures
            r@ == exception_description(self),
    {
        match self {
            ModbusException::IllegalFunction =>
                "The function code received in the query is not an allowable action for the server",
            ModbusException::IllegalDataAddress =>
                "The data address received in the query is not an allowable address for the server",
            ModbusException::IllegalDataValue =>
                "A value contained in the query data field is not an allowable value for server",
            ModbusException::ServerDeviceFailure =>
                "An unrecoverable error occurred while the server was attempting to perform the requested action",
            ModbusException::Acknowledge =>
                "The server has accepted the request and is processing it, but a long duration of time will be required to do so",
            ModbusException::ServerDeviceBusy =>
                "The server is engaged in processing a long-duration program command",
            ModbusException::MemoryParityError =>
                "The server attempted to read record file, but detected a parity error in the memory",
            ModbusException::GatewayPathUnavailable =>
                "Gateway was unable to allocate an internal communication path",
            ModbusException::GatewayTargetDeviceFailedToRespond =>
                "No response was obtained from the target device",
            ModbusException::Other(_) => "Unrecognized exception code",
        }
    }

    /// Text of the exception, such as `Modbus Exception 0x02: ...`.
    pub fn to_string(self) -> (s: String)
        ensures
            s@ == exception_text(self),
    {
        let mut s = String::new();
        push_text(&mut s, "Modbus Exception 0x");
        push_hex2_upper(&mut s, self.to_u8());
        push_text(&mut s, ": ");
        push_text(&mut s, self.description());
        assert(s@ =~= exception_text(self));
        s
    }
}

/// A request: slave, function, start address, quantity and payload bytes.
#[derive(Debug, Clone, PartialEq)]
pub struct ModbusRequest {
    pub slave_id: SlaveId,
    pub function: ModbusFunction,
    pub address: ModbusAddress,
    pub quantity: u16,
    pub data: Vec<u8>,
}

/// The quantity that `ModbusRequest::new_write` derives from the function and
/// the payload length.
pub open spec fn write_quantity(function: ModbusFunction, data_len: nat) -> u16 {
    match function {
        ModbusFunction::WriteSingleCoil | ModbusFunction::WriteSingleRegister => 1,
        ModbusFunction::WriteMultipleCoils => ((data_len % 65536) * 8) as u16,
        ModbusFunction::WriteMultipleRegisters => ((data_len % 65536) / 2) as u16,
        _ => 0,
    }
}

/// Why a request is invalid, as the message of its `InvalidData` error;
/// `None` for a valid request.
pub open spec fn request_problem(slave_id: u8, function: ModbusFunction, quantity: u16) -> Option<
    Seq<char>,
> {
    if slave_id == 0 || slave_id > 247 {
        Some("Invalid slave ID: "@ + dec_str(slave_id as nat))
    } else if is_read(function) && quantity == 0 {
        Some("Quantity cannot be zero"@)
    } else if (function == ModbusFunction::ReadCoils || function
        == ModbusFunction::ReadDiscreteInputs) && quantity > crate::MAX_COILS_PER_REQUEST {
        Some("Too many coils requested: "@ + dec_str(quantity as nat))
    } else if (function == ModbusFunction::ReadHoldingRegisters || function
        == ModbusFunction::ReadInputRegisters) && quantity > crate::MAX_REGISTERS_PER_REQUEST {
        Some("Too many registers requested: "@ + dec_str(quantity as nat))
    } else {
        None
    }
}

/// A request within the protocol's limits: slave id 1 to 247, and for reads
/// 1 to 2000 coils or discrete inputs, or 1 to 125 registers.
pub open spec fn within_protocol_limits(slave_id: u8, function: ModbusFunction, quantity: u16) -> bool {
    &&& 1 <= slave_id <= 247
    &&& (function == ModbusFunction::ReadCoils || function == ModbusFunction::ReadDiscreteInputs)
        ==> 1 <= quantity <= 2000
    &&& (function == ModbusFunction::ReadHoldingRegisters || function
        == ModbusFunction::ReadInputRegisters) ==> 1 <= quantity <= 125
}

/// Validation refuses exactly the requests outside the protocol's limits: a
/// slave id of 0 or above 247, a read of no values, of more than 2000 coils
/// or discrete inputs, or of more than 125 registers.
pub proof fn lemma_request_limits(slave_id: u8, function: ModbusFunction, quantity: u16)
    ensures
        request_problem(slave_id, function, quantity) is None <==> within_protocol_limits(
            slave_id,
            function,
            quantity,
        ),
        (function == ModbusFunction::ReadCoils || function == ModbusFunction::ReadDiscreteInputs)
            && quantity > 2000 ==> request_problem(slave_id, function, quantity) is Some,
        (function == ModbusFunction::ReadHoldingRegisters || function
            == ModbusFunction::ReadInputRegisters) && quantity > 125 ==> request_problem(
            slave_id,
            function,
            quantity,
        ) is Some,
{
}

impl ModbusRequest {
    /// A read request with an empty payload.
    pub fn new_read(slave_id: SlaveId, function: ModbusFunction, address: ModbusAddress, quantity: u16) -> (r: Self)
        ensures
            r.slave_id == slave_id,
            r.function == function,
            r.address == address,
            r.quantity == quantity,
            r.data@ == Seq::<u8>::empty(),
    {
        ModbusRequest { slave_id, function, address, quantity, data: Vec::new() }
    }

    /// A write request; the quantity is 1 for single writes, eight per payload
    /// byte for multiple coils, one per two payload bytes for multiple
    /// registers, and 0 for read functions.
    pub fn new_write(slave_id: SlaveId, function: ModbusFunction, address: ModbusAddress, data: Vec<u8>) -> (r: Self)
        requires
            function == ModbusFunction::WriteMultipleCoils ==> (data@.len() % 65536) * 8 < 65536,
        ensures
            r.slave_id == slave_id,
            r.function == function,
            r.address == address,
            r.quantity == write_quantity(function, data@.len()),
            r.data@ == data@,
    {
        let len = data.len();
        let len16 = len as u16;
        assert(len16 == len % 65536) by (bit_vector)
            requires
                len16 == len as u16,
        ;
        let quantity: u16 = match function {
            ModbusFunction::WriteSingleCoil | ModbusFunction::WriteSingleRegister => 1,
            ModbusFunction::WriteMultipleCoils => len16 * 8,
            ModbusFunction::WriteMultipleRegisters => len16 / 2,
            _ => 0,
        };
        ModbusRequest { slave_id, function, address, quantity, data }
    }

    /// Checks the slave id (1-247) and, for reads, the quantity (1-2000 bits,
    /// 1-125 registers).
    pub fn validate(&self) -> (r: ModbusResult<()>)
        ensures
            match request_problem(self.slave_id, self.function, self.quantity) {
                None => r is Ok,
                Some(msg) => r matches Err(e) && is_invalid_data(e, msg),
            },
            r is Ok <==> within_protocol_limits(self.slave_id, self.function, self.quantity),
    {
        proof {
            lemma_request_limits(self.slave_id, self.function, self.quantity);
        }
        if self.slave_id == 0 || self.slave_id > 247 {
            let mut m = String::new();
            push_text(&mut m, "Invalid slave ID: ");
            push_decimal(&mut m, self.slave_id as u64);
            return Err(ModbusError::InvalidData { message: m });
        }
        if self.function.is_read_function() {
            if self.quantity == 0 {
                return Err(ModbusError::invalid_data("Quantity cannot be zero"));
            }
            match self.function {
                ModbusFunction::ReadCoils | ModbusFunction::ReadDiscreteInputs => {
                    if self.quantity > crate::MAX_COILS_PER_REQUEST {
                        let mut m = String::new();
                        push_text(&mut m, "Too many coils requested: ");
                        push_decimal(&mut m, self.quantity as u64);
                        return Err(ModbusError::InvalidData { message: m });
                    }
                },
                ModbusFunction::ReadHoldingRegisters | ModbusFunction::ReadInputRegisters => {
                    if self.quantity > crate::MAX_REGISTERS_PER_REQUEST {
                        let mut m = String::new();
                        push_text(&mut m, "Too many registers requested: ");
                        push_decimal(&mut m, self.quantity as u64);
                        return Err(ModbusError::InvalidData { message: m });
                    }
                },
                _ => {},
            }
        }
        Ok(())
    }
}

/// A response: slave, function, payload bytes and, for exception responses,
/// the exception.
#[derive(Debug, Clone, PartialEq)]
pub struct ModbusResponse {
    pub slave_id: SlaveId,
    pub function: ModbusFunction,
    pub data: Vec<u8>,
    pub exception: Option<ModbusException>,
}

/// Big-endian 16-bit value of two bytes.
pub open spec fn be_word(high: u8, low: u8) -> u16 {
    (high as int * 256 + low as int) as u16
}

/// Bytes read as consecutive big-endian 16-bit values; a trailing odd byte
/// is ignored.
pub open spec fn words_of_bytes(b: Seq<u8>) -> Seq<u16> {
    Seq::new(b.len() / 2, |i: int| be_word(b[2 * i], b[2 * i + 1]))
}

/// Bit `k` (0 = least significant) of a byte.
pub open spec fn bit_of(b: u8, k: int) -> bool {
    b & (1u8 << (k as u8)) != 0
}

/// The bits of bytes, eight per byte, least significant bit first.
pub open spec fn bits_of_bytes(b: Seq<u8>) -> Seq<bool> {
    Seq::new(8 * b.len(), |i: int| bit_of(b[i / 8], i % 8))
}

/// The error is the `Exception` error of a device's exception response for
/// `function`: the function's code, the exception's code, and the code's name
/// as message.
pub open spec fn is_exception_error(e: ModbusError, function: ModbusFunction, exc: ModbusException) -> bool {
    e matches ModbusError::Exception { function: f, code: c, message } && f == function_code(function)
        && c == exception_code(exc) && message@ == exception_code_name(c)
}

/// The error of a device's exception response is a protocol-level error, and
/// it is recoverable exactly for Acknowledge (0x05) and Server Device Busy
/// (0x06).
pub proof fn lemma_exception_errors_classified(e: ModbusError, function: ModbusFunction, exc: ModbusException)
    requires
        is_exception_error(e, function, exc),
    ensures
        crate::error::protocol_kind(e),
        !crate::error::transport_kind(e),
        crate::error::recoverable(e) <==> (exception_code(exc) == 0x05 || exception_code(exc)
            == 0x06),
{
}

/// The payload bytes that follow the byte count of a read response.
pub open spec fn counted_payload(data: Seq<u8>) -> Seq<u8> {
    data.subrange(1, 1 + data[0] as int)
}

impl ModbusResponse {
    /// A normal response.
    pub fn new_success(slave_id: SlaveId, function: ModbusFunction, data: Vec<u8>) -> (r: Self)
        ensures
            r.slave_id == slave_id,
            r.function == function,
            r.data@ == data@,
            r.exception.is_none(),
    {
        ModbusResponse { slave_id, function, data, exception: None }
    }

    /// An exception response, whatever the code: a standard code records its
    /// exception, any other code records `Other` of the code.
    pub fn new_exception(slave_id: SlaveId, function: ModbusFunction, exception_code: u8) -> (r: Self)
        ensures
            r.slave_id == slave_id,
            r.function == function,
            r.data@ == Seq::<u8>::empty(),
            r.exception == Some(exception_for(exception_code)),
    {
        let exception = match ModbusException::from_u8(exception_code) {
            Some(e) => e,
            None => ModbusException::Other(exception_code),
        };
        ModbusResponse { slave_id, function, data: Vec::new(), exception: Some(exception) }
    }

    /// Whether an exception is recorded.
    pub fn is_exception(&self) -> (r: bool)
        ensures
            r == self.exception.is_some(),
    {
        self.exception.is_some()
    }

    /// The `Exception` error that the recorded exception stands for.
    pub fn get_exception(&self) -> (r: Option<ModbusError>)
        ensures
            match self.exception {
                None => r.is_none(),
                Some(exc) => r matches Some(e) && is_exception_error(e, self.function, exc),
            },
    {
        match self.exception {
            None => None,
            Some(exc) => Some(ModbusError::exception(self.function.to_u8(), exc.to_u8())),
        }
    }

    /// The registers of a read response: byte count, then big-endian values.
    pub fn parse_registers(&self) -> (r: ModbusResult<Vec<u16>>)
        ensures
            self.exception matches Some(exc) ==> (r matches Err(e) && is_exception_error(
                e,
                self.function,
                exc,
            )),
            self.exception is None && self.data@.len() < 1 ==> (r matches Err(e) && is_frame_error(
                e,
                "Empty response data"@,
            )),
            self.exception is None && self.data@.len() >= 1 && self.data@.len() < 1
                + self.data@[0] ==> (r matches Err(e) && is_frame_error(
                e,
                "Incomplete register data"@,
            )),
            self.exception is None && self.data@.len() >= 1 && self.data@.len() >= 1
                + self.data@[0] && self.data@[0] % 2 != 0 ==> (r matches Err(e) && is_frame_error(
                e,
                "Invalid register data length"@,
            )),
            self.exception is None && self.data@.len() >= 1 && self.data@.len() >= 1
                + self.data@[0] && self.data@[0] % 2 == 0 ==> (r matches Ok(v) && v@
                == words_of_bytes(counted_payload(self.data@))),
    {
        if self.is_exception() {
            let e = self.get_exception();
            return Err(e.unwrap());
        }
        if self.data.len() < 1 {
            return Err(ModbusError::frame("Empty response data"));
        }
        let byte_count = self.data[0] as usize;
        if self.data.len() < 1 + byte_count {
            return Err(ModbusError::frame("Incomplete register data"));
        }
        if byte_count % 2 != 0 {
            return Err(ModbusError::frame("Invalid register data length"));
        }
        let ghost payload = counted_payload(self.data@);
        let mut registers: Vec<u16> = Vec::new();
        let mut k: usize = 0;
        while k < byte_count / 2
            invariant
                byte_count == self.data@[0],
                byte_count % 2 == 0,
                1 + byte_count <= self.data@.len(),
                payload == counted_payload(self.data@),
                k <= byte_count / 2,
                registers@ == words_of_bytes(payload).take(k as int),
            decreases byte_count / 2 - k,
        {
            let high = self.data[1 + 2 * k];
            let low = self.data[2 + 2 * k];
            let value: u16 = (high as u16) * 256 + (low as u16);
            registers.push(value);
            k = k + 1;
            assert(registers@ =~= words_of_bytes(payload).take(k as int));
        }
        assert(registers@ =~= words_of_bytes(payload));
        Ok(registers)
    }

    /// The bits of a read response: byte count, then eight bits per byte,
    /// least significant first.
    pub fn parse_bits(&self) -> (r: ModbusResult<Vec<bool>>)
        ensures
            self.exception matches Some(exc) ==> (r matches Err(e) && is_exception_error(
                e,
                self.function,
                exc,
            )),
            self.exception is None && self.data@.len() < 1 ==> (r matches Err(e) && is_frame_error(
                e,
                "Empty response data"@,
            )),
            self.exception is None && self.data@.len() >= 1 && self.data@.len() < 1
                + self.data@[0] ==> (r matches Err(e) && is_frame_error(e, "Incomplete bit data"@)),
            self.exception is None && self.data@.len() >= 1 && self.data@.len() >= 1
                + self.data@[0] ==> (r matches Ok(v) && v@ == bits_of_bytes(
                counted_payload(self.data@),
            )),
    {
        if self.is_exception() {
            let e = self.get_exception();
            return Err(e.unwrap());
        }
        if self.data.len() < 1 {
            return Err(ModbusError::frame("Empty response data"));
        }
        let byte_count = self.data[0] as usize;
        if self.data.len() < 1 + byte_count {
            return Err(ModbusError::frame("Incomplete bit data"));
        }
        let ghost payload = counted_payload(self.data@);
        let mut bits: Vec<bool> = Vec::new();
        let mut i: usize = 1;
        while i < 1 + byte_count
            invariant
                byte_count == self.data@[0],
                1 + byte_count <= self.data@.len(),
                payload == counted_payload(self.data@),
                1 <= i <= 1 + byte_count,
                bits@ == bits_of_bytes(payload).take(8 * (i - 1)),
            decreases 1 + byte_count - i,
        {
            let byte_value = self.data[i];
            let mut bit_pos: u8 = 0;
            while bit_pos < 8
                invariant
                    byte_count == self.data@[0],
                    1 + byte_count <= self.data@.len(),
                    payload == counted_payload(self.data@),
                    1 <= i < 1 + byte_count,
                    byte_value == self.data@[i as int],
                    bit_pos <= 8,
                    bits@ == bits_of_bytes(payload).take(8 * (i - 1) + bit_pos),
                decreases 8 - bit_pos,
            {
                bits.push((byte_value & (1u8 << bit_pos)) != 0);
                bit_pos = bit_pos + 1;
                assert(bits@ =~= bits_of_bytes(payload).take(8 * (i - 1) + bit_pos));
            }
            i = i + 1;
        }
        assert(bits@ =~= bits_of_bytes(payload));
        Ok(bits)
    }
}

} // verus!
