//! Validation of slave ids, address ranges and quantities.

use vstd::prelude::*;
use crate::error::{ModbusError, ModbusResult, is_invalid_data};
use crate::text::{dec_str, push_decimal, push_text};

verus! {

/// Accepts slave ids 1 to 247.
pub fn validate_slave_id(slave_id: u8) -> (r: ModbusResult<()>)
    ensures
        1 <= slave_id <= 247 ==> r is Ok,
        !(1 <= slave_id <= 247) ==> (r matches Err(e) && is_invalid_data(
            e,
            "Invalid slave ID: "@ + dec_str(slave_id as nat) + " (must be 1-247)"@,
        )),
{
    if slave_id == 0 || slave_id > 247 {
        let mut m = String::new();
        push_text(&mut m, "Invalid slave ID: ");
        push_decimal(&mut m, slave_id as u64);
        push_text(&mut m, " (must be 1-247)");
        return Err(ModbusError::InvalidData { message: m });
    }
    Ok(())
}

/// Accepts a non-empty range of `count` addresses from `start` that ends at
/// or before 65536.
pub fn validate_address_range(start: u16, count: u16) -> (r: ModbusResult<()>)
    ensures
        count != 0 && start + count <= 65536 ==> r is Ok,
        !(count != 0 && start + count <= 65536) ==> r == Err::<(), ModbusError>(
            ModbusError::InvalidAddress { start, count },
        ),
{
    if count == 0 {
        return Err(ModbusError::invalid_address(start, count));
    }
    if (start as u32 + count as u32) > 65536 {
        return Err(ModbusError::invalid_address(start, count));
    }
    Ok(())
}

/// Accepts 1 to 125 registers.
pub fn validate_register_count(count: u16) -> (r: ModbusResult<()>)
    ensures
        1 <= count <= 125 ==> r is Ok,
        !(1 <= count <= 125) ==> (r matches Err(e) && is_invalid_data(
            e,
            "Invalid register count: "@ + dec_str(count as nat) + " (must be 1-125)"@,
        )),
{
    if count == 0 || count > crate::MAX_REGISTERS_PER_REQUEST {
        let mut m = String::new();
        push_text(&mut m, "Invalid register count: ");
        push_decimal(&mut m, count as u64);
        push_text(&mut m, " (must be 1-125)");
        return Err(ModbusError::InvalidData { message: m });
    }
    Ok(())
}

/// Accepts 1 to 2000 coils.
pub fn validate_coil_count(count: u16) -> (r: ModbusResult<()>)
    ensures
        1 <= count <= 2000 ==> r is Ok,
        !(1 <= count <= 2000) ==> (r matches Err(e) && is_invalid_data(
            e,
            "Invalid coil count: "@ + dec_str(count as nat) + " (must be 1-2000)"@,
        )),
{
    if count == 0 || count > crate::MAX_COILS_PER_REQUEST {
        let mut m = String::new();
        push_text(&mut m, "Invalid coil count: ");
        push_decimal(&mut m, count as u64);
        push_text(&mut m, " (must be 1-2000)");
        return Err(ModbusError::InvalidData { message: m });
    }
    Ok(())
}

} // verus!
