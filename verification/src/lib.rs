//! Modbus TCP/RTU/ASCII protocol library: protocol data units, frame codecs,
//! register storage and request processing, with contracts checked by Verus.

use vstd::prelude::*;
use crate::text::push_text;

pub mod text;
pub mod error;
pub mod protocol;
pub mod register_bank;
pub mod transport;
pub mod server;
pub mod client;
pub mod logging;
pub mod utils;
pub mod exchange;

pub use error::{ModbusError, ModbusResult};
pub use protocol::{ModbusFunction, ModbusRequest, ModbusResponse};
pub use transport::TransportStats;
pub use server::ServerStats;
pub use register_bank::{ModbusRegisterBank, RegisterBankStats};
pub use utils::{OperationTimer, PerformanceMetrics, TimeSpan};
pub use logging::{LogLevel, LoggingMode};

verus! {

/// Default time limit of an operation in milliseconds.
pub const DEFAULT_TIMEOUT_MS: u64 = 5000;

/// Most coils (or discrete inputs) that one request may read.
pub const MAX_COILS_PER_REQUEST: u16 = 2000;

/// Most registers that one request may read.
pub const MAX_REGISTERS_PER_REQUEST: u16 = 125;

/// Largest Modbus TCP frame (MBAP header and PDU).
pub const MAX_TCP_FRAME_SIZE: usize = 260;

/// Largest Modbus RTU frame.
pub const MAX_RTU_FRAME_SIZE: usize = 256;

/// Default Modbus TCP port.
pub const DEFAULT_TCP_PORT: u16 = 502;

/// Version of the library.
pub const VERSION: &'static str = "0.2.0";

/// The one-line description of the library.
pub open spec fn info_text() -> Seq<char> {
    "Voltage Modbus v"@ + VERSION@ + " - High-performance Modbus TCP/RTU/ASCII library by Evan Liu"@
}

/// The one-line description of the library, with its version.
pub fn info() -> (s: String)
    ensures
        s@ == info_text(),
{
    let mut s = String::new();
    push_text(&mut s, "Voltage Modbus v");
    push_text(&mut s, VERSION);
    push_text(&mut s, " - High-performance Modbus TCP/RTU/ASCII library by Evan Liu");
    s
}

} // verus!
