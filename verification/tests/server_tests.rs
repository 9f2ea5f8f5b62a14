use voltage_modbus::server::tcp_request_defined;
use voltage_modbus::protocol::{ModbusFunction, ModbusRequest};
use voltage_modbus::server::{
    create_error_response, create_rtu_error_response, dispatch, process_rtu_frame, process_rtu_request,
    process_tcp_request, rtu_server_reply, tcp_server_reply, RtuFrameAssembler,
};
use voltage_modbus::transport::rtu::encode_rtu_request;
use voltage_modbus::transport::tcp::encode_tcp_request;
use voltage_modbus::{ModbusRegisterBank, ServerStats};

fn crc_of_request(request: &ModbusRequest) -> u16 {
    let frame = encode_rtu_request(request).unwrap();
    let n = frame.len();
    u16::from_le_bytes([frame[n - 2], frame[n - 1]])
}

#[test]
fn server_test_crc_calculation() {
    let request = ModbusRequest::new_read(0x01, ModbusFunction::ReadHoldingRegisters, 0x0000, 0x0002);
    let crc = crc_of_request(&request);

    assert_eq!(crc, crc_of_request(&request));

    let request2 = ModbusRequest::new_read(0x01, ModbusFunction::ReadInputRegisters, 0x0000, 0x0001);
    let crc2 = crc_of_request(&request2);
    assert_ne!(crc, crc2);
}

#[test]
fn test_rtu_error_response() {
    let result = create_rtu_error_response(0x01, 0x03, 0x01);
    assert!(result.is_ok());

    let response = result.unwrap();
    assert_eq!(response[0], 0x01);
    assert_eq!(response[1], 0x83);
    assert_eq!(response[2], 0x01);
    assert_eq!(response.len(), 5);
}

#[test]
fn rtu_error_response_checksum() {
    let response = create_rtu_error_response(0x01, 0x03, 0x02).unwrap();
    assert_eq!(response, vec![0x01, 0x83, 0x02, 0xC0, 0xF1]);
}

#[test]
fn tcp_read_holding_registers() {
    let mut bank = ModbusRegisterBank::new();
    bank.write_multiple_registers(0x10, &[0x1234, 0xABCD]).unwrap();
    let request = ModbusRequest::new_read(0x07, ModbusFunction::ReadHoldingRegisters, 0x10, 2);
    let frame = encode_tcp_request(&request, 0x0042);
    let reply = process_tcp_request(&frame, &mut bank).unwrap();
    assert_eq!(reply, vec![0x00, 0x42, 0x00, 0x00, 0x00, 0x07, 0x07, 0x03, 0x04, 0x12, 0x34, 0xAB, 0xCD]);
}

#[test]
fn tcp_write_then_read_coils() {
    let mut bank = ModbusRegisterBank::new();
    let write = ModbusRequest::new_write(0x01, ModbusFunction::WriteSingleCoil, 0x0003, vec![0x01]);
    let frame = encode_tcp_request(&write, 1);
    let reply = process_tcp_request(&frame, &mut bank).unwrap();
    assert_eq!(reply, vec![0x00, 0x01, 0x00, 0x00, 0x00, 0x06, 0x01, 0x05, 0x00, 0x03, 0xFF, 0x00]);
    assert_eq!(bank.read_coils(0, 5).unwrap(), vec![false, false, false, true, false]);

    let read = ModbusRequest::new_read(0x01, ModbusFunction::ReadCoils, 0, 5);
    let frame = encode_tcp_request(&read, 2);
    let reply = process_tcp_request(&frame, &mut bank).unwrap();
    assert_eq!(reply, vec![0x00, 0x02, 0x00, 0x00, 0x00, 0x04, 0x01, 0x01, 0x01, 0x08]);
}

#[test]
fn tcp_request_errors() {
    let mut bank = ModbusRegisterBank::new();
    let err = process_tcp_request(&[0x00, 0x01, 0x00], &mut bank).unwrap_err();
    assert_eq!(err.to_string(), "Frame error: Frame too short");
    let err = process_tcp_request(&[0x00, 0x01, 0x00, 0x01, 0x00, 0x06, 0x01, 0x03, 0, 0, 0, 1], &mut bank).unwrap_err();
    assert_eq!(err.to_string(), "Frame error: Invalid protocol ID");
    let err = process_tcp_request(&[0x00, 0x01, 0x00, 0x00, 0x00, 0x06, 0x01, 0x03], &mut bank).unwrap_err();
    assert_eq!(err.to_string(), "Frame error: Incomplete frame");
    let err = process_tcp_request(&[0x00, 0x01, 0x00, 0x00, 0x00, 0x02, 0x01, 0x2B], &mut bank).unwrap_err();
    assert_eq!(err.to_string(), "Protocol error: Unsupported function code: 0x2b");
    let err = process_tcp_request(&[0x00, 0x01, 0x00, 0x00, 0x00, 0x06, 0x01, 0x03, 0, 0, 0, 0], &mut bank).unwrap_err();
    assert_eq!(err.to_string(), "Invalid data: Invalid quantity");
}

#[test]
fn tcp_exception_frame() {
    let request = [0x12u8, 0x34, 0x00, 0x00, 0x00, 0x06, 0x09, 0x03, 0x00, 0x00, 0x00, 0x01];
    let reply = create_error_response(&request, 0x02).unwrap();
    assert_eq!(reply, vec![0x12, 0x34, 0x00, 0x00, 0x00, 0x03, 0x09, 0x83, 0x02]);
    let err = create_error_response(&request[..5], 0x02).unwrap_err();
    assert_eq!(err.to_string(), "Frame error: Request too short for error response");
}

#[test]
fn rtu_write_registers_then_read() {
    let mut bank = ModbusRegisterBank::new();
    let write = ModbusRequest::new_write(0x01, ModbusFunction::WriteMultipleRegisters, 0x0000, vec![0x00, 0x0A, 0x01, 0x02]);
    let frame = encode_rtu_request(&write).unwrap();
    let reply = process_rtu_frame(&frame, &mut bank).unwrap();
    assert_eq!(&reply[..6], &[0x01, 0x10, 0x00, 0x00, 0x00, 0x02]);
    assert_eq!(bank.read_holding_registers(0, 2).unwrap(), vec![0x000A, 0x0102]);

    let read = ModbusRequest::new_read(0x01, ModbusFunction::ReadHoldingRegisters, 0x0000, 2);
    let frame = encode_rtu_request(&read).unwrap();
    let reply = process_rtu_frame(&frame, &mut bank).unwrap();
    assert_eq!(&reply[..7], &[0x01, 0x03, 0x04, 0x00, 0x0A, 0x01, 0x02]);
    assert_eq!(reply.len(), 9);
}

#[test]
fn rtu_frame_errors() {
    let mut bank = ModbusRegisterBank::new();
    let err = process_rtu_frame(&[0x01, 0x03, 0x00], &mut bank).unwrap_err();
    assert_eq!(err.to_string(), "Frame error: RTU frame too short");
    let err = process_rtu_frame(&[0x01, 0x03, 0x00, 0x00, 0x00, 0x02, 0x00, 0x00], &mut bank).unwrap_err();
    assert_eq!(err.to_string(), "Frame error: Invalid CRC");
}

#[test]
fn rtu_unsupported_function_gets_exception() {
    let mut bank = ModbusRegisterBank::new();
    let mut frame = vec![0x01u8, 0x2B, 0x00, 0x00];
    frame.extend_from_slice(&crc_bytes(&frame));
    let reply = process_rtu_frame(&frame, &mut bank).unwrap();
    let mut expected = vec![0x01u8, 0xAB, 0x01];
    expected.extend_from_slice(&crc_bytes(&expected));
    assert_eq!(reply, expected);
}

fn crc_bytes(data: &[u8]) -> [u8; 2] {
    let mut crc: u16 = 0xFFFF;
    for &b in data {
        crc ^= b as u16;
        for _ in 0..8 {
            if crc & 1 != 0 {
                crc = (crc >> 1) ^ 0xA001;
            } else {
                crc >>= 1;
            }
        }
    }
    crc.to_le_bytes()
}

#[test]
fn rtu_guarded_processing() {
    let mut bank = ModbusRegisterBank::new();
    // write multiple coils, quantity 16 but one data byte: bits run past the payload
    let mut frame = vec![0x01u8, 0x0F, 0x00, 0x00, 0x00, 0x10, 0x01, 0xFF];
    frame.extend_from_slice(&crc_bytes(&frame));
    assert!(process_rtu_request(&frame, &mut bank).is_none());

    let mut frame = vec![0x01u8, 0x0F, 0x00, 0x00, 0x00, 0x08, 0x01, 0x81];
    frame.extend_from_slice(&crc_bytes(&frame));
    let reply = process_rtu_request(&frame, &mut bank).unwrap().unwrap();
    assert_eq!(&reply[..6], &[0x01, 0x0F, 0x00, 0x00, 0x00, 0x08]);
    assert_eq!(bank.read_coils(0, 8).unwrap(), vec![true, false, false, false, false, false, false, true]);
}

#[test]
fn dispatch_write_single_register() {
    let mut bank = ModbusRegisterBank::new();
    let reply = dispatch(0x06, &[0x00, 0x05, 0xBE, 0xEF], &mut bank).unwrap();
    assert_eq!(reply, vec![0x00, 0x05, 0xBE, 0xEF]);
    assert_eq!(bank.read_holding_registers(5, 1).unwrap(), vec![0xBEEF]);
    let err = dispatch(0x05, &[0x00, 0x05, 0x12, 0x34], &mut bank).unwrap_err();
    assert_eq!(err.to_string(), "Invalid data: Invalid coil value");
}

#[test]
fn server_stats_counting() {
    let mut stats = ServerStats::new();
    assert_eq!(stats.connections_count, 0);
    assert_eq!(stats.total_requests, 0);
    assert_eq!(stats.successful_requests, 0);
    assert_eq!(stats.failed_requests, 0);
    stats.record_connection();
    stats.record_request(12);
    stats.record_success(9);
    stats.record_request(12);
    stats.record_failure();
    assert_eq!(stats.connections_count, 1);
    assert_eq!(stats.total_requests, 2);
    assert_eq!(stats.successful_requests, 1);
    assert_eq!(stats.failed_requests, 1);
}

#[test]
fn tcp_server_replies() {
    let mut bank = ModbusRegisterBank::new();
    let mut stats = ServerStats::new();
    let frame = [0x00u8, 0x07, 0x00, 0x00, 0x00, 0x06, 0x01, 0x03, 0x00, 0x00, 0x00, 0x01];
    stats.record_request(frame.len() as u64);
    let outcome = process_tcp_request(&frame, &mut bank);
    let reply = tcp_server_reply(&frame, outcome, &mut stats).unwrap();
    assert_eq!(reply, vec![0x00, 0x07, 0x00, 0x00, 0x00, 0x05, 0x01, 0x03, 0x02, 0x00, 0x00]);
    assert_eq!(stats.failed_requests, 0);

    let bad = [0x00u8, 0x08, 0x00, 0x00, 0x00, 0x02, 0x01, 0x2B];
    let outcome = process_tcp_request(&bad, &mut bank);
    let reply = tcp_server_reply(&bad, outcome, &mut stats).unwrap();
    assert_eq!(reply, vec![0x00, 0x08, 0x00, 0x00, 0x00, 0x03, 0x01, 0xAB, 0x01]);
    assert_eq!(stats.failed_requests, 1);

    let short = [0x00u8, 0x09, 0x00];
    let outcome = process_tcp_request(&short, &mut bank);
    assert!(tcp_server_reply(&short, outcome, &mut stats).is_none());
    assert_eq!(stats.failed_requests, 2);
}

#[test]
fn rtu_server_replies() {
    let mut bank = ModbusRegisterBank::new();
    let mut stats = ServerStats::new();
    let frame = [0x05u8, 0x03, 0x00, 0x00, 0x00, 0x02, 0x00, 0x00];
    let outcome = process_rtu_frame(&frame, &mut bank);
    let reply = rtu_server_reply(&frame, outcome, &mut stats).unwrap();
    let mut expected = vec![0x05u8, 0x83, 0x01];
    expected.extend_from_slice(&crc_bytes(&expected));
    assert_eq!(reply, expected);
    assert_eq!(stats.failed_requests, 1);

    let tiny = [0x05u8];
    let outcome = process_rtu_frame(&tiny, &mut bank);
    assert!(rtu_server_reply(&tiny, outcome, &mut stats).is_none());
    assert_eq!(stats.failed_requests, 2);
}

#[test]
fn rtu_frames_split_by_silence() {
    let mut assembler = RtuFrameAssembler::new();
    assert!(assembler.on_bytes(&[0x01, 0x03], true).is_none());
    assert!(assembler.on_bytes(&[0x00, 0x00], false).is_none());
    assert!(assembler.on_pause(false).is_none());
    let frame = assembler.on_bytes(&[0x02, 0x03], true).unwrap();
    assert_eq!(frame, vec![0x01, 0x03, 0x00, 0x00]);
    let frame = assembler.on_pause(true).unwrap();
    assert_eq!(frame, vec![0x02, 0x03]);
    assert!(assembler.on_pause(true).is_none());
}

#[test]
fn tcp_request_definedness() {
    assert!(tcp_request_defined(&[0x00, 0x01, 0x00, 0x00, 0x00, 0x06, 0x01, 0x03, 0, 0, 0, 1]));
    assert!(!tcp_request_defined(&[0x00, 0x01, 0x00, 0x00, 0x00, 0x01, 0x01, 0x03]));
    assert!(!tcp_request_defined(&[0x00, 0x01, 0x00, 0x00, 0x00, 0x08, 0x01, 0x0F, 0x00, 0x00, 0x00, 0x10, 0x01, 0xFF]));
    assert!(tcp_request_defined(&[0x00, 0x01, 0x00, 0x00, 0x00, 0x08, 0x01, 0x0F, 0x00, 0x00, 0x00, 0x08, 0x01, 0xFF]));
}
