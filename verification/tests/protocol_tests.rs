use voltage_modbus::protocol::data_utils;
use voltage_modbus::protocol::{ModbusException, ModbusFunction, ModbusRequest, ModbusResponse};
use voltage_modbus::ModbusError;

#[test]
fn test_request_creation() {
    let request = ModbusRequest::new_read(1, ModbusFunction::ReadHoldingRegisters, 100, 5);

    assert_eq!(request.slave_id, 1);
    assert_eq!(request.function, ModbusFunction::ReadHoldingRegisters);
    assert_eq!(request.address, 100);
    assert_eq!(request.quantity, 5);
}

#[test]
fn test_function_conversion() {
    assert_eq!(ModbusFunction::from_u8(0x03).unwrap(), ModbusFunction::ReadHoldingRegisters);
    assert_eq!(ModbusFunction::ReadHoldingRegisters.to_u8(), 0x03);

    assert!(ModbusFunction::from_u8(0xFF).is_err());
}

#[test]
fn test_exception_conversion() {
    assert_eq!(ModbusException::from_u8(0x02).unwrap(), ModbusException::IllegalDataAddress);
    assert_eq!(ModbusException::IllegalDataAddress.to_u8(), 0x02);
}

#[test]
fn test_request_validation() {
    let valid_request = ModbusRequest::new_read(1, ModbusFunction::ReadHoldingRegisters, 100, 10);
    assert!(valid_request.validate().is_ok());

    let invalid_slave = ModbusRequest::new_read(0, ModbusFunction::ReadHoldingRegisters, 100, 10);
    assert!(invalid_slave.validate().is_err());

    let too_many_registers =
        ModbusRequest::new_read(1, ModbusFunction::ReadHoldingRegisters, 100, 200);
    assert!(too_many_registers.validate().is_err());
}

#[test]
fn test_data_utils() {
    let registers = vec![0x1234, 0x5678];
    let bytes = data_utils::registers_to_bytes(&registers);
    assert_eq!(bytes, vec![0x12, 0x34, 0x56, 0x78]);

    let back_to_registers = data_utils::bytes_to_registers(&bytes).unwrap();
    assert_eq!(back_to_registers, registers);

    let bits = vec![true, false, true, true, false, false, false, false];
    let packed = data_utils::pack_bits(&bits);
    let unpacked = data_utils::unpack_bits(&packed, bits.len());
    assert_eq!(unpacked, bits);
}

#[test]
fn test_response_parsing() {
    let register_data = vec![4, 0x12, 0x34, 0x56, 0x78];
    let response = ModbusResponse::new_success(1, ModbusFunction::ReadHoldingRegisters, register_data);
    let registers = response.parse_registers().unwrap();
    assert_eq!(registers, vec![0x1234, 0x5678]);

    let bit_data = vec![1, 0b10101010];
    let response = ModbusResponse::new_success(1, ModbusFunction::ReadCoils, bit_data);
    let bits = response.parse_bits().unwrap();
    assert_eq!(bits[0], false);
    assert_eq!(bits[1], true);
    assert_eq!(bits[2], false);
    assert_eq!(bits[3], true);
}

#[test]
fn function_codes_round_trip() {
    for code in [0x01u8, 0x02, 0x03, 0x04, 0x05, 0x06, 0x0F, 0x10] {
        assert_eq!(ModbusFunction::from_u8(code).unwrap().to_u8(), code);
    }
    for code in [0x00u8, 0x07, 0x08, 0x0E, 0x11, 0x80] {
        match ModbusFunction::from_u8(code) {
            Err(ModbusError::InvalidFunction { code: c }) => assert_eq!(c, code),
            other => panic!("unexpected {:?}", other),
        }
    }
}

#[test]
fn function_kinds_and_text() {
    assert!(ModbusFunction::ReadInputRegisters.is_read_function());
    assert!(!ModbusFunction::ReadInputRegisters.is_write_function());
    assert!(ModbusFunction::WriteMultipleCoils.is_write_function());
    assert_eq!(ModbusFunction::ReadCoils.to_string(), "Read Coils (0x01)");
    assert_eq!(ModbusFunction::WriteMultipleRegisters.to_string(), "Write Multiple Registers (0x10)");
}

#[test]
fn exception_codes_and_text() {
    assert_eq!(ModbusException::from_u8(0x07), None);
    assert_eq!(ModbusException::from_u8(0x0B), Some(ModbusException::GatewayTargetDeviceFailedToRespond));
    assert_eq!(ModbusException::MemoryParityError.to_u8(), 0x08);
    assert_eq!(
        ModbusException::ServerDeviceBusy.to_string(),
        "Modbus Exception 0x06: The server is engaged in processing a long-duration program command"
    );
}

#[test]
fn write_request_quantities() {
    let r = ModbusRequest::new_write(1, ModbusFunction::WriteMultipleCoils, 5, vec![0xFF, 0x01]);
    assert_eq!(r.quantity, 16);
    let r = ModbusRequest::new_write(1, ModbusFunction::WriteMultipleRegisters, 5, vec![0, 1, 0, 2, 9]);
    assert_eq!(r.quantity, 2);
    let r = ModbusRequest::new_write(1, ModbusFunction::WriteSingleRegister, 5, vec![0, 1]);
    assert_eq!(r.quantity, 1);
    let r = ModbusRequest::new_write(1, ModbusFunction::ReadCoils, 5, vec![0, 1]);
    assert_eq!(r.quantity, 0);
}

#[test]
fn validation_messages() {
    let msg = |r: ModbusRequest| match r.validate() {
        Err(ModbusError::InvalidData { message }) => message,
        other => panic!("unexpected {:?}", other),
    };
    assert_eq!(msg(ModbusRequest::new_read(248, ModbusFunction::ReadCoils, 0, 1)), "Invalid slave ID: 248");
    assert_eq!(msg(ModbusRequest::new_read(1, ModbusFunction::ReadCoils, 0, 0)), "Quantity cannot be zero");
    assert_eq!(msg(ModbusRequest::new_read(1, ModbusFunction::ReadDiscreteInputs, 0, 2001)), "Too many coils requested: 2001");
    assert_eq!(msg(ModbusRequest::new_read(1, ModbusFunction::ReadInputRegisters, 0, 126)), "Too many registers requested: 126");
    assert!(ModbusRequest::new_read(1, ModbusFunction::ReadCoils, 0, 2000).validate().is_ok());
    assert!(ModbusRequest::new_write(247, ModbusFunction::WriteSingleCoil, 0, vec![]).validate().is_ok());
}

#[test]
fn response_parsing_errors() {
    let frame_msg = |r: Result<Vec<u16>, ModbusError>| match r {
        Err(ModbusError::Frame { message }) => message,
        other => panic!("unexpected {:?}", other),
    };
    let empty = ModbusResponse::new_success(1, ModbusFunction::ReadHoldingRegisters, vec![]);
    assert_eq!(frame_msg(empty.parse_registers()), "Empty response data");
    let short = ModbusResponse::new_success(1, ModbusFunction::ReadHoldingRegisters, vec![4, 1, 2]);
    assert_eq!(frame_msg(short.parse_registers()), "Incomplete register data");
    let odd = ModbusResponse::new_success(1, ModbusFunction::ReadHoldingRegisters, vec![3, 1, 2, 3]);
    assert_eq!(frame_msg(odd.parse_registers()), "Invalid register data length");

    let exc = ModbusResponse::new_exception(1, ModbusFunction::ReadCoils, 0x02);
    assert!(exc.is_exception());
    match exc.parse_bits() {
        Err(ModbusError::Exception { function, code, message }) => {
            assert_eq!((function, code), (0x01, 0x02));
            assert_eq!(message, "Illegal Data Address");
        }
        other => panic!("unexpected {:?}", other),
    }
    let unknown = ModbusResponse::new_exception(1, ModbusFunction::ReadCoils, 0x07);
    assert!(unknown.is_exception());
    assert!(unknown.get_exception().is_some());
}

#[test]
fn bits_and_words_conversions() {
    let packed = data_utils::pack_bits(&[true, false, false, false, false, false, false, false, true]);
    assert_eq!(packed, vec![0x01, 0x01]);
    assert_eq!(data_utils::unpack_bits(&[0x81], 10), vec![true, false, false, false, false, false, false, true, false, false]);
    assert_eq!(data_utils::u32_to_registers(0x12345678), [0x1234, 0x5678]);
    assert_eq!(data_utils::registers_to_u32(&[0xABCD, 0xEF01]).unwrap(), 0xABCDEF01);
    assert!(data_utils::registers_to_u32(&[1]).is_err());
    assert!(data_utils::bytes_to_registers(&[1, 2, 3]).is_err());
    let v = 0xDEADBEEFu32;
    assert_eq!(data_utils::registers_to_u32(&data_utils::u32_to_registers(v)).unwrap(), v);
}

#[test]
fn exception_with_any_code() {
    let response = ModbusResponse::new_exception(1, ModbusFunction::ReadCoils, 0x07);
    assert!(response.is_exception());
    assert_eq!(response.exception, Some(ModbusException::Other(0x07)));
    assert_eq!(ModbusException::Other(0x07).to_u8(), 0x07);
    let err = response.get_exception().unwrap();
    assert_eq!(err.to_string(), "Modbus exception: function=01, code=07 (Unknown Exception)");
    assert!(err.is_protocol_error());
    let standard = ModbusResponse::new_exception(1, ModbusFunction::ReadCoils, 0x02);
    assert_eq!(standard.exception, Some(ModbusException::IllegalDataAddress));
}
