//! Client side: the requests of the eight client operations and the values
//! read from their responses, shared by every transport.

use vstd::prelude::*;
use crate::error::{ModbusError, ModbusResult, is_invalid_data};
use crate::protocol::{
    function_code, ModbusFunction, ModbusRequest, ModbusResponse, SlaveId, bits_of_bytes, counted_payload,
    is_exception_error, words_of_bytes,
};
use crate::protocol::data_utils::{bytes_of_words, pack_bits, packs_bits, registers_to_bytes};
use crate::error::{is_frame_error, is_protocol_error_with};

pub mod utils;

verus! {

/// The request has these header fields and payload.
pub open spec fn request_is(r: ModbusRequest, slave_id: u8, function: ModbusFunction, address: u16, quantity: u16, data: Seq<u8>) -> bool {
    r.slave_id == slave_id && r.function == function && r.address == address && r.quantity
        == quantity && r.data@ == data
}

/// The error for a quantity or a number of values out of range.
pub open spec fn is_bad_value(e: ModbusError) -> bool {
    is_invalid_data(e, "Invalid data value"@)
}

fn bad_value() -> (e: ModbusError)
    ensures
        is_bad_value(e),
{
    ModbusError::invalid_data("Invalid data value")
}

/// The request of a read operation; the quantity must be 1 to `max`.
fn read_request(slave_id: SlaveId, function: ModbusFunction, address: u16, quantity: u16, max: u16) -> (r: ModbusResult<ModbusRequest>)
    ensures
        (quantity == 0 || quantity > max) ==> (r matches Err(e) && is_bad_value(e)),
        !(quantity == 0 || quantity > max) ==> (r matches Ok(req) && request_is(
            req,
            slave_id,
            function,
            address,
            quantity,
            Seq::empty(),
        )),
{
    if quantity == 0 || quantity > max {
        return Err(bad_value());
    }
    Ok(ModbusRequest { slave_id, function, address, quantity, data: Vec::new() })
}

/// The request of read coils (0x01): 1 to 2000 coils.
pub fn read_01_request(slave_id: SlaveId, address: u16, quantity: u16) -> (r: ModbusResult<ModbusRequest>)
    ensures
        (quantity == 0 || quantity > 2000) ==> (r matches Err(e) && is_bad_value(e)),
        1 <= quantity <= 2000 ==> (r matches Ok(req) && request_is(
            req,
            slave_id,
            ModbusFunction::ReadCoils,
            address,
            quantity,
            Seq::empty(),
        )),
{
    read_request(slave_id, ModbusFunction::ReadCoils, address, quantity, 2000)
}

/// The request of read discrete inputs (0x02): 1 to 2000 inputs.
pub fn read_02_request(slave_id: SlaveId, address: u16, quantity: u16) -> (r: ModbusResult<ModbusRequest>)
    ensures
        (quantity == 0 || quantity > 2000) ==> (r matches Err(e) && is_bad_value(e)),
        1 <= quantity <= 2000 ==> (r matches Ok(req) && request_is(
            req,
            slave_id,
            ModbusFunction::ReadDiscreteInputs,
            address,
            quantity,
            Seq::empty(),
        )),
{
    read_request(slave_id, ModbusFunction::ReadDiscreteInputs, address, quantity, 2000)
}

/// The request of read holding registers (0x03): 1 to 125 registers.
pub fn read_03_request(slave_id: SlaveId, address: u16, quantity: u16) -> (r: ModbusResult<ModbusRequest>)
    ensures
        (quantity == 0 || quantity > 125) ==> (r matches Err(e) && is_bad_value(e)),
        1 <= quantity <= 125 ==> (r matches Ok(req) && request_is(
            req,
            slave_id,
            ModbusFunction::ReadHoldingRegisters,
            address,
            quantity,
            Seq::empty(),
        )),
{
    read_request(slave_id, ModbusFunction::ReadHoldingRegisters, address, quantity, 125)
}

/// The request of read input registers (0x04): 1 to 125 registers.
pub fn read_04_request(slave_id: SlaveId, address: u16, quantity: u16) -> (r: ModbusResult<ModbusRequest>)
    ensures
        (quantity == 0 || quantity > 125) ==> (r matches Err(e) && is_bad_value(e)),
        1 <= quantity <= 125 ==> (r matches Ok(req) && request_is(
            req,
            slave_id,
            ModbusFunction::ReadInputRegisters,
            address,
            quantity,
            Seq::empty(),
        )),
{
    read_request(slave_id, ModbusFunction::ReadInputRegisters, address, quantity, 125)
}

/// The request of write single coil (0x05): payload `FF 00` for on, `00 00`
/// for off.
pub fn write_05_request(slave_id: SlaveId, address: u16, value: bool) -> (r: ModbusRequest)
    ensures
        request_is(
            r,
            slave_id,
            ModbusFunction::WriteSingleCoil,
            address,
            1,
            if value {
                seq![0xFFu8, 0x00u8]
            } else {
                seq![0x00u8, 0x00u8]
            },
        ),
{
    let mut data: Vec<u8> = Vec::new();
    if value {
        data.push(0xFF);
        data.push(0x00);
    } else {
        data.push(0x00);
        data.push(0x00);
    }
    assert(data@ =~= if value {
        seq![0xFFu8, 0x00u8]
    } else {
        seq![0x00u8, 0x00u8]
    });
    ModbusRequest {
        slave_id,
        function: ModbusFunction::WriteSingleCoil,
        address,
        quantity: 1,
        data,
    }
}

/// The request of write single register (0x06): the value, high byte first.
pub fn write_06_request(slave_id: SlaveId, address: u16, value: u16) -> (r: ModbusRequest)
    ensures
        request_is(
            r,
            slave_id,
            ModbusFunction::WriteSingleRegister,
            address,
            1,
            bytes_of_words(seq![value]),
        ),
{
    let values = [value];
    let data = registers_to_bytes(&values);
    assert(values@ =~= seq![value]);
    ModbusRequest {
        slave_id,
        function: ModbusFunction::WriteSingleRegister,
        address,
        quantity: 1,
        data,
    }
}

/// The request of write multiple coils (0x0F): 1 to 1968 coils, packed eight
/// per byte, least significant bit first.
pub fn write_0f_request(slave_id: SlaveId, address: u16, values: &[bool]) -> (r: ModbusResult<ModbusRequest>)
    ensures
        (values@.len() == 0 || values@.len() > 1968) ==> (r matches Err(e) && is_bad_value(e)),
        1 <= values@.len() <= 1968 ==> (r matches Ok(req) && req.slave_id == slave_id
            && req.function == ModbusFunction::WriteMultipleCoils && req.address == address
            && req.quantity == values@.len() && packs_bits(req.data@, values@)),
{
    if values.len() == 0 || values.len() > 1968 {
        return Err(bad_value());
    }
    let data = pack_bits(values);
    Ok(
        ModbusRequest {
            slave_id,
            function: ModbusFunction::WriteMultipleCoils,
            address,
            quantity: values.len() as u16,
            data,
        },
    )
}

/// The request of write multiple registers (0x10): 1 to 123 registers, each
/// high byte first.
pub fn write_10_request(slave_id: SlaveId, address: u16, values: &[u16]) -> (r: ModbusResult<ModbusRequest>)
    ensures
        (values@.len() == 0 || values@.len() > 123) ==> (r matches Err(e) && is_bad_value(e)),
        1 <= values@.len() <= 123 ==> (r matches Ok(req) && request_is(
            req,
            slave_id,
            ModbusFunction::WriteMultipleRegisters,
            address,
            values@.len() as u16,
            bytes_of_words(values@),
        )),
{
    if values.len() == 0 || values.len() > 123 {
        return Err(bad_value());
    }
    let data = registers_to_bytes(values);
    Ok(
        ModbusRequest {
            slave_id,
            function: ModbusFunction::WriteMultipleRegisters,
            address,
            quantity: values.len() as u16,
            data,
        },
    )
}

/// The first `n` elements, or all when there are fewer.
pub open spec fn at_most<A>(s: Seq<A>, n: nat) -> Seq<A> {
    if s.len() > n {
        s.take(n as int)
    } else {
        s
    }
}

/// The bits a read-bits response carries, the first `quantity` of them.
pub fn read_bits_result(response: &ModbusResponse, quantity: u16) -> (r: ModbusResult<Vec<bool>>)
    ensures
        response.exception matches Some(exc) ==> (r matches Err(e) && is_exception_error(
            e,
            response.function,
            exc,
        )),
        response.exception is None && response.data@.len() < 1 ==> (r matches Err(e)
            && is_frame_error(e, "Empty response data"@)),
        response.exception is None && response.data@.len() >= 1 && response.data@.len() < 1
            + response.data@[0] ==> (r matches Err(e) && is_frame_error(e, "Incomplete bit data"@)),
        response.exception is None && response.data@.len() >= 1 && response.data@.len() >= 1
            + response.data@[0] ==> (r matches Ok(v) && v@ == at_most(
            bits_of_bytes(counted_payload(response.data@)),
            quantity as nat,
        )),
{
    let bits = response.parse_bits()?;
    let n = if bits.len() > quantity as usize {
        quantity as usize
    } else {
        bits.len()
    };
    let taken = vstd::slice::slice_to_vec(vstd::slice::slice_subrange(bits.as_slice(), 0, n));
    assert(taken@ =~= at_most(bits@, quantity as nat));
    Ok(taken)
}

/// The registers a read-registers response carries.
pub fn read_registers_result(response: &ModbusResponse) -> (r: ModbusResult<Vec<u16>>)
    ensures
        response.exception matches Some(exc) ==> (r matches Err(e) && is_exception_error(
            e,
            response.function,
            exc,
        )),
        response.exception is None && response.data@.len() < 1 ==> (r matches Err(e)
            && is_frame_error(e, "Empty response data"@)),
        response.exception is None && response.data@.len() >= 1 && response.data@.len() < 1
            + response.data@[0] ==> (r matches Err(e) && is_frame_error(
            e,
            "Incomplete register data"@,
        )),
        response.exception is None && response.data@.len() >= 1 && response.data@.len() >= 1
            + response.data@[0] && response.data@[0] % 2 != 0 ==> (r matches Err(e)
            && is_frame_error(e, "Invalid register data length"@)),
        response.exception is None && response.data@.len() >= 1 && response.data@.len() >= 1
            + response.data@[0] && response.data@[0] % 2 == 0 ==> (r matches Ok(v) && v@
            == words_of_bytes(counted_payload(response.data@))),
{
    response.parse_registers()
}

/// The register table that a read of a mixed batch takes its values from.
#[derive(Debug, Clone, Copy, PartialEq, Eq, Structural)]
pub enum RegisterTable {
    Holding,
    Input,
}

/// The table that a function reads in a mixed batch of register reads:
/// holding registers for 0x03, input registers for 0x04; any other function
/// is refused.
pub fn mixed_read_table(function: ModbusFunction) -> (r: ModbusResult<RegisterTable>)
    ensures
        function == ModbusFunction::ReadHoldingRegisters ==> r == Ok::<RegisterTable, ModbusError>(
            RegisterTable::Holding,
        ),
        function == ModbusFunction::ReadInputRegisters ==> r == Ok::<RegisterTable, ModbusError>(
            RegisterTable::Input,
        ),
        function != ModbusFunction::ReadHoldingRegisters && function
            != ModbusFunction::ReadInputRegisters ==> r == Err::<RegisterTable, ModbusError>(
            ModbusError::InvalidFunction { code: function_code(function) },
        ),
{
    match function {
        ModbusFunction::ReadHoldingRegisters => Ok(RegisterTable::Holding),
        ModbusFunction::ReadInputRegisters => Ok(RegisterTable::Input),
        _ => Err(ModbusError::invalid_function(function.to_u8())),
    }
}

} // verus!
