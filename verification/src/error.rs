//! Error type of the library: transport, protocol, data and system failures,
//! their classification (recoverable, transport, protocol) and their text.

use vstd::prelude::*;
use crate::text::{dec_str, hex2_upper, hex4_upper, push_decimal, push_hex2_upper, push_hex4_upper, push_text};

verus! {

/// Every failure that a Modbus operation can report.
#[derive(Debug, Clone)]
pub enum ModbusError {
    /// Low-level I/O failure (socket, serial port).
    Io { message: String },
    /// Connection establishment or maintenance failure.
    Connection { message: String },
    /// An operation exceeded its time limit.
    Timeout { operation: String, timeout_ms: u64 },
    /// Violation of the Modbus protocol.
    Protocol { message: String },
    /// Unsupported or malformed function code.
    InvalidFunction { code: u8 },
    /// Address range that the protocol does not allow.
    InvalidAddress { start: u16, count: u16 },
    /// Data value or format that is not allowed.
    InvalidData { message: String },
    /// CRC check of an RTU frame failed.
    CrcMismatch { expected: u16, actual: u16 },
    /// Exception response of a device.
    Exception { function: u8, code: u8, message: String },
    /// Malformed or incomplete frame.
    Frame { message: String },
    /// Client or server configuration problem.
    Configuration { message: String },
    /// A device does not answer.
    DeviceNotResponding { slave_id: u8 },
    /// Error inside the library.
    Internal { message: String },
}

/// Result type of the library's operations.
pub type ModbusResult<T> = Result<T, ModbusError>;

/// Name of a standard exception code, as carried by `ModbusError::Exception`.
pub open spec fn exception_code_name(code: u8) -> Seq<char> {
    if code == 0x01 {
        "Illegal Function"@
    } else if code == 0x02 {
        "Illegal Data Address"@
    } else if code == 0x03 {
        "Illegal Data Value"@
    } else if code == 0x04 {
        "Slave Device Failure"@
    } else if code == 0x05 {
        "Acknowledge"@
    } else if code == 0x06 {
        "Slave Device Busy"@
    } else if code == 0x08 {
        "Memory Parity Error"@
    } else if code == 0x0A {
        "Gateway Path Unavailable"@
    } else if code == 0x0B {
        "Gateway Target Device Failed to Respond"@
    } else {
        "Unknown Exception"@
    }
}

/// The error is `Io` with this message.
pub open spec fn is_io_error(e: ModbusError, msg: Seq<char>) -> bool {
    e matches ModbusError::Io { message } && message@ == msg
}

/// The error is `Connection` with this message.
pub open spec fn is_connection_error(e: ModbusError, msg: Seq<char>) -> bool {
    e matches ModbusError::Connection { message } && message@ == msg
}

/// The error is `Protocol` with this message.
pub open spec fn is_protocol_error_with(e: ModbusError, msg: Seq<char>) -> bool {
    e matches ModbusError::Protocol { message } && message@ == msg
}

/// The error is `InvalidData` with this message.
pub open spec fn is_invalid_data(e: ModbusError, msg: Seq<char>) -> bool {
    e matches ModbusError::InvalidData { message } && message@ == msg
}

/// The error is `Frame` with this message.
pub open spec fn is_frame_error(e: ModbusError, msg: Seq<char>) -> bool {
    e matches ModbusError::Frame { message } && message@ == msg
}

/// The error is `Configuration` with this message.
pub open spec fn is_configuration_error(e: ModbusError, msg: Seq<char>) -> bool {
    e matches ModbusError::Configuration { message } && message@ == msg
}

/// The error is `Internal` with this message.
pub open spec fn is_internal_error(e: ModbusError, msg: Seq<char>) -> bool {
    e matches ModbusError::Internal { message } && message@ == msg
}

/// Whether retrying the failed operation may succeed.
pub open spec fn recoverable(e: ModbusError) -> bool {
    match e {
        ModbusError::Io { .. } => true,
        ModbusError::Connection { .. } => true,
        ModbusError::Timeout { .. } => true,
        ModbusError::DeviceNotResponding { .. } => true,
        ModbusError::Exception { code, .. } => code == 0x05 || code == 0x06,
        _ => false,
    }
}

/// Whether the error comes from the transport (I/O, connection, time limit).
pub open spec fn transport_kind(e: ModbusError) -> bool {
    match e {
        ModbusError::Io { .. } => true,
        ModbusError::Connection { .. } => true,
        ModbusError::Timeout { .. } => true,
        _ => false,
    }
}

/// Whether the error is a protocol-level failure.
pub open spec fn protocol_kind(e: ModbusError) -> bool {
    match e {
        ModbusError::Protocol { .. } => true,
        ModbusError::InvalidFunction { .. } => true,
        ModbusError::Exception { .. } => true,
        ModbusError::Frame { .. } => true,
        ModbusError::CrcMismatch { .. } => true,
        _ => false,
    }
}

/// Every transport error is recoverable: a retry may succeed.
pub proof fn lemma_transport_errors_recoverable(e: ModbusError)
    ensures
        transport_kind(e) ==> recoverable(e),
{
}

/// No error is both a transport error and a protocol error.
pub proof fn lemma_error_kinds_disjoint(e: ModbusError)
    ensures
        !(transport_kind(e) && protocol_kind(e)),
{
}

/// The human-readable text of an error.
pub open spec fn error_text(e: ModbusError) -> Seq<char> {
    match e {
        ModbusError::Io { message } => "I/O error: "@ + message@,
        ModbusError::Connection { message } => "Connection error: "@ + message@,
        ModbusError::Timeout { operation, timeout_ms } => "Timeout after "@ + dec_str(
            timeout_ms as nat,
        ) + "ms: "@ + operation@,
        ModbusError::Protocol { message } => "Protocol error: "@ + message@,
        ModbusError::InvalidFunction { code } => "Invalid function code: "@ + dec_str(code as nat),
        ModbusError::InvalidAddress { start, count } => "Invalid address: start="@ + dec_str(
            start as nat,
        ) + ", count="@ + dec_str(count as nat),
        ModbusError::InvalidData { message } => "Invalid data: "@ + message@,
        ModbusError::CrcMismatch { expected, actual } => "CRC validation failed: expected="@
            + hex4_upper(expected) + ", actual="@ + hex4_upper(actual),
        ModbusError::Exception { function, code, message } => "Modbus exception: function="@
            + hex2_upper(function) + ", code="@ + hex2_upper(code) + " ("@ + message@ + ")"@,
        ModbusError::Frame { message } => "Frame error: "@ + message@,
        ModbusError::Configuration { message } => "Configuration error: "@ + message@,
        ModbusError::DeviceNotResponding { slave_id } => "Device "@ + dec_str(slave_id as nat)
            + " not responding"@,
        ModbusError::Internal { message } => "Internal error: "@ + message@,
    }
}

impl ModbusError {
    /// I/O error with a message.
    pub fn io(message: &str) -> (e: Self)
        ensures
            is_io_error(e, message@),
    {
        ModbusError::Io { message: String::from_str(message) }
    }

    /// Connection error with a message.
    pub fn connection(message: &str) -> (e: Self)
        ensures
            is_connection_error(e, message@),
    {
        ModbusError::Connection { message: String::from_str(message) }
    }

    /// Time-limit error naming the operation and the limit in milliseconds.
    pub fn timeout(operation: &str, timeout_ms: u64) -> (e: Self)
        ensures
            e matches ModbusError::Timeout { operation: op, timeout_ms: t } && op@ == operation@
                && t == timeout_ms,
    {
        ModbusError::Timeout { operation: String::from_str(operation), timeout_ms }
    }

    /// Protocol error with a message.
    pub fn protocol(message: &str) -> (e: Self)
        ensures
            is_protocol_error_with(e, message@),
    {
        ModbusError::Protocol { message: String::from_str(message) }
    }

    /// Invalid function code error.
    pub fn invalid_function(code: u8) -> (e: Self)
        ensures
            e == (ModbusError::InvalidFunction { code }),
    {
        ModbusError::InvalidFunction { code }
    }

    /// Invalid address range error.
    pub fn invalid_address(start: u16, count: u16) -> (e: Self)
        ensures
            e == (ModbusError::InvalidAddress { start, count }),
    {
        ModbusError::InvalidAddress { start, count }
    }

    /// Invalid data error with a message.
    pub fn invalid_data(message: &str) -> (e: Self)
        ensures
            is_invalid_data(e, message@),
    {
        ModbusError::InvalidData { message: String::from_str(message) }
    }

    /// CRC mismatch error with the expected and the received value.
    pub fn crc_mismatch(expected: u16, actual: u16) -> (e: Self)
        ensures
            e == (ModbusError::CrcMismatch { expected, actual }),
    {
        ModbusError::CrcMismatch { expected, actual }
    }

    /// Exception response error; standard codes get their name as message.
    pub fn exception(function: u8, code: u8) -> (e: Self)
        ensures
            e matches ModbusError::Exception { function: f, code: c, message } && f == function
                && c == code && message@ == exception_code_name(code),
    {
        let name = if code == 0x01 {
            "Illegal Function"
        } else if code == 0x02 {
            "Illegal Data Address"
        } else if code == 0x03 {
            "Illegal Data Value"
        } else if code == 0x04 {
            "Slave Device Failure"
        } else if code == 0x05 {
            "Acknowledge"
        } else if code == 0x06 {
            "Slave Device Busy"
        } else if code == 0x08 {
            "Memory Parity Error"
        } else if code == 0x0A {
            "Gateway Path Unavailable"
        } else if code == 0x0B {
            "Gateway Target Device Failed to Respond"
        } else {
            "Unknown Exception"
        };
        ModbusError::Exception { function, code, message: String::from_str(name) }
    }

    /// Frame error with a message.
    pub fn frame(message: &str) -> (e: Self)
        ensures
            is_frame_error(e, message@),
    {
        ModbusError::Frame { message: String::from_str(message) }
    }

    /// Configuration error with a message.
    pub fn configuration(message: &str) -> (e: Self)
        ensures
            is_configuration_error(e, message@),
    {
        ModbusError::Configuration { message: String::from_str(message) }
    }

    /// Error for a device that does not answer.
    pub fn device_not_responding(slave_id: u8) -> (e: Self)
        ensures
            e == (ModbusError::DeviceNotResponding { slave_id }),
    {
        ModbusError::DeviceNotResponding { slave_id }
    }

    /// Internal error with a message.
    pub fn internal(message: &str) -> (e: Self)
        ensures
            is_internal_error(e, message@),
    {
        ModbusError::Internal { message: String::from_str(message) }
    }

    /// Whether retrying may succeed: transport failures, silent devices and
    /// the exceptions Acknowledge (0x05) and Busy (0x06).
    pub fn is_recoverable(&self) -> (r: bool)
        ensures
            r == recoverable(*self),
    {
        match self {
            ModbusError::Io { .. } => true,
            ModbusError::Connection { .. } => true,
            ModbusError::Timeout { .. } => true,
            ModbusError::DeviceNotResponding { .. } => true,
            ModbusError::Exception { code, .. } => *code == 0x05 || *code == 0x06,
            _ => false,
        }
    }

    /// Whether the error is an I/O, connection or time-limit failure.
    pub fn is_transport_error(&self) -> (r: bool)
        ensures
            r == transport_kind(*self),
    {
        match self {
            ModbusError::Io { .. } => true,
            ModbusError::Connection { .. } => true,
            ModbusError::Timeout { .. } => true,
            _ => false,
        }
    }

    /// Whether the error is a protocol, function, exception, frame or CRC failure.
    pub fn is_protocol_error(&self) -> (r: bool)
        ensures
            r == protocol_kind(*self),
    {
        match self {
            ModbusError::Protocol { .. } => true,
            ModbusError::InvalidFunction { .. } => true,
            ModbusError::Exception { .. } => true,
            ModbusError::Frame { .. } => true,
            ModbusError::CrcMismatch { .. } => true,
            _ => false,
        }
    }

    /// The human-readable text of the error.
    pub fn to_string(&self) -> (s: String)
        ensures
            s@ == error_text(*self),
    {
        let mut s = String::new();
        match self {
            ModbusError::Io { message } => {
                push_text(&mut s, "I/O error: ");
                push_text(&mut s, message.as_str());
            },
            ModbusError::Connection { message } => {
                push_text(&mut s, "Connection error: ");
                push_text(&mut s, message.as_str());
            },
            ModbusError::Timeout { operation, timeout_ms } => {
                push_text(&mut s, "Timeout after ");
                push_decimal(&mut s, *timeout_ms);
                push_text(&mut s, "ms: ");
                push_text(&mut s, operation.as_str());
            },
            ModbusError::Protocol { message } => {
                push_text(&mut s, "Protocol error: ");
                push_text(&mut s, message.as_str());
            },
            ModbusError::InvalidFunction { code } => {
                push_text(&mut s, "Invalid function code: ");
                push_decimal(&mut s, *code as u64);
            },
            ModbusError::InvalidAddress { start, count } => {
                push_text(&mut s, "Invalid address: start=");
                push_decimal(&mut s, *start as u64);
                push_text(&mut s, ", count=");
                push_decimal(&mut s, *count as u64);
            },
            ModbusError::InvalidData { message } => {
                push_text(&mut s, "Invalid data: ");
                push_text(&mut s, message.as_str());
            },
            ModbusError::CrcMismatch { expected, actual } => {
                push_text(&mut s, "CRC validation failed: expected=");
                push_hex4_upper(&mut s, *expected);
                push_text(&mut s, ", actual=");
                push_hex4_upper(&mut s, *actual);
            },
            ModbusError::Exception { function, code, message } => {
                push_text(&mut s, "Modbus exception: function=");
                push_hex2_upper(&mut s, *function);
                push_text(&mut s, ", code=");
                push_hex2_upper(&mut s, *code);
                push_text(&mut s, " (");
                push_text(&mut s, message.as_str());
                push_text(&mut s, ")");
            },
            ModbusError::Frame { message } => {
                push_text(&mut s, "Frame error: ");
                push_text(&mut s, message.as_str());
            },
            ModbusError::Configuration { message } => {
                push_text(&mut s, "Configuration error: ");
                push_text(&mut s, message.as_str());
            },
            ModbusError::DeviceNotResponding { slave_id } => {
                push_text(&mut s, "Device ");
                push_decimal(&mut s, *slave_id as u64);
                push_text(&mut s, " not responding");
            },
            ModbusError::Internal { message } => {
                push_text(&mut s, "Internal error: ");
                push_text(&mut s, message.as_str());
            },
        }
        assert(s@ =~= error_text(*self));
        s
    }
}

} // verus!
