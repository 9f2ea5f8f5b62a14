use voltage_modbus::client::{mixed_read_table, RegisterTable};
use voltage_modbus::client::utils;
use voltage_modbus::client::{
    read_03_request, read_bits_result, read_registers_result, write_05_request, write_0f_request,
    write_10_request,
};
use voltage_modbus::{ModbusFunction, ModbusResponse};

#[test]
fn test_register_conversion() {
    let registers = vec![0x1234, 0x5678, 0xABCD, 0xEF01];
    let u32_values = utils::registers_to_u32_be(&registers);
    assert_eq!(u32_values, vec![0x12345678, 0xABCDEF01]);

    let back_to_registers = utils::u32_to_registers_be(&u32_values);
    assert_eq!(back_to_registers, registers);
}

#[test]
fn signed_conversion() {
    assert_eq!(utils::registers_to_i32_be(&[0xFFFF, 0xFFFE, 0x0000, 0x0001, 7]), vec![-2, 1]);
}

#[test]
fn client_requests() {
    assert!(read_03_request(1, 0, 0).is_err());
    assert!(read_03_request(1, 0, 126).is_err());
    let r = read_03_request(1, 10, 125).unwrap();
    assert_eq!(r.function, ModbusFunction::ReadHoldingRegisters);
    assert_eq!((r.address, r.quantity), (10, 125));
    let r = write_05_request(2, 3, true);
    assert_eq!(r.data, vec![0xFF, 0x00]);
    let r = write_0f_request(2, 3, &[true, false, true]).unwrap();
    assert_eq!((r.quantity, r.data.clone()), (3, vec![0x05]));
    assert!(write_0f_request(2, 3, &[]).is_err());
    let r = write_10_request(2, 3, &[0x0102, 0x0304]).unwrap();
    assert_eq!((r.quantity, r.data.clone()), (2, vec![1, 2, 3, 4]));
    assert!(write_10_request(2, 3, &[0u16; 124]).is_err());
}

#[test]
fn client_results() {
    let resp = ModbusResponse::new_success(1, ModbusFunction::ReadCoils, vec![2, 0b0000_0101, 0xFF]);
    assert_eq!(read_bits_result(&resp, 3).unwrap(), vec![true, false, true]);
    assert_eq!(read_bits_result(&resp, 40).unwrap().len(), 16);
    let resp = ModbusResponse::new_success(1, ModbusFunction::ReadHoldingRegisters, vec![4, 0, 10, 0, 11]);
    assert_eq!(read_registers_result(&resp).unwrap(), vec![10, 11]);
}

#[test]
fn test_float_conversion() {
    let float_values = vec![1.5f32, -2.75f32];
    let bits: Vec<u32> = float_values.iter().map(|f| f.to_bits()).collect();
    let registers = utils::u32_to_registers_be(&bits);
    let back_to_floats: Vec<f32> = utils::registers_to_u32_be(&registers).into_iter().map(f32::from_bits).collect();

    for (value, converted) in float_values.iter().zip(back_to_floats.iter()) {
        assert!((value - converted).abs() < f32::EPSILON);
    }
}

#[test]
fn mixed_read_tables() {
    assert_eq!(mixed_read_table(ModbusFunction::ReadHoldingRegisters).unwrap(), RegisterTable::Holding);
    assert_eq!(mixed_read_table(ModbusFunction::ReadInputRegisters).unwrap(), RegisterTable::Input);
    let err = mixed_read_table(ModbusFunction::ReadCoils).unwrap_err();
    assert_eq!(err.to_string(), "Invalid function code: 1");
}
