use voltage_modbus::ModbusError;

#[test]
fn test_error_creation() {
    let err = ModbusError::timeout("read_registers", 5000);
    assert!(err.is_recoverable());
    assert!(err.is_transport_error());

    let err = ModbusError::exception(0x03, 0x02);
    assert!(!err.is_recoverable());
    assert!(err.is_protocol_error());
}

#[test]
fn test_error_display() {
    let err = ModbusError::crc_mismatch(0x1234, 0x5678);
    let msg = err.to_string();
    assert!(msg.contains("CRC validation failed"));
    assert!(msg.contains("1234"));
    assert!(msg.contains("5678"));
}

#[test]
fn error_texts() {
    assert_eq!(ModbusError::crc_mismatch(0x1234, 0x5678).to_string(), "CRC validation failed: expected=1234, actual=5678");
    assert_eq!(ModbusError::timeout("read", 250).to_string(), "Timeout after 250ms: read");
    assert_eq!(ModbusError::exception(0x03, 0x02).to_string(), "Modbus exception: function=03, code=02 (Illegal Data Address)");
    assert_eq!(ModbusError::exception(0x10, 0x7F).to_string(), "Modbus exception: function=10, code=7F (Unknown Exception)");
    assert_eq!(ModbusError::invalid_address(10, 0).to_string(), "Invalid address: start=10, count=0");
    assert_eq!(ModbusError::device_not_responding(17).to_string(), "Device 17 not responding");
    assert_eq!(ModbusError::io("down").to_string(), "I/O error: down");
    assert_eq!(ModbusError::invalid_function(153).to_string(), "Invalid function code: 153");
    assert_eq!(ModbusError::internal("x").to_string(), "Internal error: x");
}

#[test]
fn error_classification() {
    assert!(ModbusError::io("x").is_recoverable());
    assert!(ModbusError::connection("x").is_transport_error());
    assert!(ModbusError::device_not_responding(1).is_recoverable());
    assert!(!ModbusError::device_not_responding(1).is_transport_error());
    assert!(ModbusError::exception(1, 0x05).is_recoverable());
    assert!(ModbusError::exception(1, 0x06).is_recoverable());
    assert!(!ModbusError::exception(1, 0x04).is_recoverable());
    assert!(!ModbusError::invalid_function(0x99).is_recoverable());
    assert!(ModbusError::invalid_function(0x99).is_protocol_error());
    assert!(ModbusError::crc_mismatch(1, 2).is_protocol_error());
    assert!(ModbusError::frame("x").is_protocol_error());
    assert!(!ModbusError::invalid_data("x").is_protocol_error());
    assert!(!ModbusError::configuration("x").is_transport_error());
    assert!(!ModbusError::io("x").is_protocol_error());
}

#[test]
fn device_exceptions_are_exception_errors() {
    let busy = voltage_modbus::ModbusResponse::new_exception(1, voltage_modbus::ModbusFunction::ReadHoldingRegisters, 0x06);
    let err = busy.get_exception().unwrap();
    assert!(matches!(err, ModbusError::Exception { function: 0x03, code: 0x06, .. }));
    assert!(err.is_recoverable());
    assert!(err.is_protocol_error());
    let illegal = voltage_modbus::ModbusResponse::new_exception(1, voltage_modbus::ModbusFunction::ReadCoils, 0x02);
    assert!(!illegal.get_exception().unwrap().is_recoverable());
    assert!(illegal.parse_registers().is_err());
}
