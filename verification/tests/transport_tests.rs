use voltage_modbus::transport::tcp::tcp_decode_defined;
use voltage_modbus::protocol::{ModbusException, ModbusFunction, ModbusRequest};
use voltage_modbus::transport::ascii::{
    ascii_hex_to_byte, byte_to_ascii_hex, calculate_lrc, decode_ascii_response, encode_ascii_request,
};
use voltage_modbus::transport::rtu::{decode_rtu_response, encode_rtu_request};
use voltage_modbus::transport::tcp::{
    decode_tcp_response, encode_tcp_request, next_transaction_id, tcp_remaining_length,
};
use voltage_modbus::transport::{
    ascii_read_byte, ascii_read_pause, check_serial_response, check_tcp_response, format_hex_packet,
    rtu_read_byte,
};
use voltage_modbus::{ModbusError, TransportStats};

fn lrc_of(data: &[u8]) -> u8 {
    let sum: u16 = data.iter().map(|&b| b as u16).sum();
    (-(sum as i16)) as u8
}

#[test]
fn transport_test_crc_calculation() {
    let request = ModbusRequest::new_read(0x01, ModbusFunction::ReadHoldingRegisters, 0x0000, 0x0002);
    let frame = encode_rtu_request(&request).unwrap();
    let crc = u16::from_le_bytes([frame[6], frame[7]]);
    assert!(crc > 0);
}

#[test]
fn test_ascii_lrc_calculation() {
    let data = [0x01, 0x03, 0x00, 0x00, 0x00, 0x02];
    let lrc = calculate_lrc(&data);

    let sum: u16 = data.iter().map(|&b| b as u16).sum();
    let expected_lrc = (-(sum as i16)) as u8;

    assert_eq!(lrc, expected_lrc);
}

#[test]
fn test_ascii_hex_conversion() {
    let ascii_hex = byte_to_ascii_hex(0x1A);
    assert_eq!(ascii_hex, [b'1', b'A']);

    let ascii_hex = byte_to_ascii_hex(0x0F);
    assert_eq!(ascii_hex, [b'0', b'F']);

    let byte = ascii_hex_to_byte(&[b'1', b'A']).unwrap();
    assert_eq!(byte, 0x1A);

    let byte = ascii_hex_to_byte(&[b'0', b'F']).unwrap();
    assert_eq!(byte, 0x0F);

    let byte = ascii_hex_to_byte(&[b'a', b'f']).unwrap();
    assert_eq!(byte, 0xAF);
}

#[test]
fn test_ascii_frame_encoding() {
    let request = ModbusRequest::new_read(0x01, ModbusFunction::ReadHoldingRegisters, 0x0000, 0x0002);

    let frame = encode_ascii_request(&request).unwrap();

    let data = [0x01u8, 0x03, 0x00, 0x00, 0x00, 0x02];
    let sum: u16 = data.iter().map(|&b| b as u16).sum();
    let expected_lrc = (-(sum as i16)) as u8;

    let expected = format!(":010300000002{:02X}\r\n", expected_lrc);
    let expected_bytes = expected.as_bytes();

    assert_eq!(frame, expected_bytes);
    assert_eq!(frame[0], b':');
    assert_eq!(frame[frame.len() - 2], 0x0D);
    assert_eq!(frame[frame.len() - 1], 0x0A);
}

#[test]
fn test_ascii_frame_decoding() {
    let test_data = [0x01u8, 0x03, 0x04, 0x00, 0xAB, 0x00, 0xCD];
    let sum: u16 = test_data.iter().map(|&b| b as u16).sum();
    let lrc = (-(sum as i16)) as u8;

    let frame = format!(":01030400AB00CD{:02X}\r\n", lrc);
    let response = decode_ascii_response(frame.as_bytes()).unwrap();

    assert_eq!(response.slave_id, 0x01);
    assert_eq!(response.function, ModbusFunction::ReadHoldingRegisters);
    assert!(!response.is_exception());

    let exc_data = [0x01u8, 0x83, 0x02];
    let exc_sum: u16 = exc_data.iter().map(|&b| b as u16).sum();
    let exc_lrc = (-(exc_sum as i16)) as u8;

    let exception_frame = format!(":018302{:02X}\r\n", exc_lrc);
    let exception_response = decode_ascii_response(exception_frame.as_bytes()).unwrap();

    assert_eq!(exception_response.slave_id, 0x01);
    assert!(exception_response.is_exception());
}

#[test]
fn test_ascii_error_handling() {
    let invalid_start = b"X010300000002C5\r\n";
    assert!(decode_ascii_response(invalid_start).is_err());

    let invalid_end = b":010300000002C5\r\r";
    assert!(decode_ascii_response(invalid_end).is_err());

    let odd_length = b":01030000002C5\r\n";
    assert!(decode_ascii_response(odd_length).is_err());

    let wrong_lrc = b":010300000002FF\r\n";
    assert!(decode_ascii_response(wrong_lrc).is_err());
}

#[test]
fn ascii_error_messages() {
    let err = decode_ascii_response(b":0103\r").unwrap_err();
    assert_eq!(err.to_string(), "Frame error: ASCII frame too short");
    let err = decode_ascii_response(b"X010300000002C5\r\n").unwrap_err();
    assert_eq!(err.to_string(), "Frame error: Invalid ASCII frame start character");
    let err = decode_ascii_response(b":010300000002FF\r\n").unwrap_err();
    assert_eq!(err.to_string(), "Frame error: LRC mismatch: expected 0xFA, got 0xFF");
    let err = decode_ascii_response(b":01G300000002\r\n").unwrap_err();
    assert_eq!(err.to_string(), "Frame error: Invalid ASCII hex character: G");
    let err = ascii_hex_to_byte(b"ABC").unwrap_err();
    assert_eq!(err.to_string(), "Frame error: Invalid ASCII hex length");
}

#[test]
fn ascii_response_payload() {
    let body = [0x11u8, 0x03, 0x02, 0x12, 0x34];
    let frame = format!(":1103021234{:02X}\r\n", lrc_of(&body));
    let response = decode_ascii_response(frame.as_bytes()).unwrap();
    assert_eq!(response.slave_id, 0x11);
    assert_eq!(response.data, vec![0x02, 0x12, 0x34]);
    assert_eq!(response.parse_registers().unwrap(), vec![0x1234]);
}

#[test]
fn rtu_request_frame_bytes() {
    let request = ModbusRequest::new_read(0x01, ModbusFunction::ReadHoldingRegisters, 0x0000, 0x0002);
    let frame = encode_rtu_request(&request).unwrap();
    assert_eq!(frame, vec![0x01, 0x03, 0x00, 0x00, 0x00, 0x02, 0xC4, 0x0B]);
}

#[test]
fn rtu_write_frame_carries_count_and_payload() {
    let request = ModbusRequest::new_write(0x01, ModbusFunction::WriteMultipleRegisters, 0x0010, vec![0x00, 0x0A, 0x01, 0x02]);
    let frame = encode_rtu_request(&request).unwrap();
    assert_eq!(&frame[..11], &[0x01, 0x10, 0x00, 0x10, 0x00, 0x02, 0x04, 0x00, 0x0A, 0x01, 0x02]);
    assert_eq!(frame.len(), 13);
}

#[test]
fn rtu_response_decoding() {
    let frame = [0x01u8, 0x03, 0x04, 0x00, 0x0A, 0x00, 0x0B];
    let mut full = frame.to_vec();
    full.extend_from_slice(&[0x9B, 0xF6]);
    match decode_rtu_response(&full) {
        Ok(response) => {
            assert_eq!(response.slave_id, 1);
            assert_eq!(response.data, vec![0x04, 0x00, 0x0A, 0x00, 0x0B]);
        }
        Err(e) => panic!("unexpected error {}", e.to_string()),
    }
}

#[test]
fn rtu_crc_mismatch() {
    let frame = [0x01u8, 0x03, 0x00, 0x00, 0x00, 0x02, 0x00, 0x00];
    let err = decode_rtu_response(&frame).unwrap_err();
    assert_eq!(err.to_string(), "Frame error: CRC mismatch: expected 0x0BC4, got 0x0000");
    let err = decode_rtu_response(&[0x01, 0x03, 0x00]).unwrap_err();
    assert_eq!(err.to_string(), "Frame error: RTU frame too short");
}

#[test]
fn rtu_exception_decoding() {
    let frame = [0x01u8, 0x83, 0x02, 0xC0, 0xF1];
    let response = decode_rtu_response(&frame).unwrap();
    assert!(response.is_exception());
    assert_eq!(response.exception, Some(ModbusException::IllegalDataAddress));
}

#[test]
fn tcp_request_frame_bytes() {
    let request = ModbusRequest::new_read(0x11, ModbusFunction::ReadInputRegisters, 0x0008, 0x0001);
    let frame = encode_tcp_request(&request, 0x0102);
    assert_eq!(frame, vec![0x01, 0x02, 0x00, 0x00, 0x00, 0x06, 0x11, 0x04, 0x00, 0x08, 0x00, 0x01]);
}

#[test]
fn tcp_response_decoding() {
    let frame = [0x00u8, 0x01, 0x00, 0x00, 0x00, 0x05, 0x01, 0x03, 0x02, 0x12, 0x34];
    let response = decode_tcp_response(&frame).unwrap();
    assert_eq!(response.slave_id, 1);
    assert_eq!(response.function, ModbusFunction::ReadHoldingRegisters);
    assert_eq!(response.data, vec![0x02, 0x12, 0x34]);

    let exception = [0x00u8, 0x01, 0x00, 0x00, 0x00, 0x03, 0x01, 0x83, 0x02];
    let response = decode_tcp_response(&exception).unwrap();
    assert_eq!(response.exception, Some(ModbusException::IllegalDataAddress));

    let short = [0x00u8, 0x01, 0x00];
    assert_eq!(decode_tcp_response(&short).unwrap_err().to_string(), "Frame error: Frame too short");
    let incomplete = [0x00u8, 0x01, 0x00, 0x00, 0x00, 0x09, 0x01, 0x03];
    assert_eq!(decode_tcp_response(&incomplete).unwrap_err().to_string(), "Frame error: Incomplete frame");
    let unknown = [0x00u8, 0x01, 0x00, 0x00, 0x00, 0x02, 0x01, 0x42];
    assert!(matches!(decode_tcp_response(&unknown).unwrap_err(), ModbusError::InvalidFunction { code: 0x42 }));
}

#[test]
fn tcp_header_length() {
    let mut stats = TransportStats::new();
    assert_eq!(tcp_remaining_length(&mut stats, &[0, 1, 0, 0, 0, 6]).unwrap(), 5);
    assert_eq!(tcp_remaining_length(&mut stats, &[0, 1, 0, 0, 0, 0]).unwrap(), 0);
    assert_eq!(stats.errors, 0);
    let err = tcp_remaining_length(&mut stats, &[0, 1, 0, 0, 0x01, 0x05]).unwrap_err();
    assert_eq!(err.to_string(), "Frame error: Response frame too large");
    assert_eq!(stats.errors, 1);
}

#[test]
fn transaction_ids_skip_zero() {
    assert_eq!(next_transaction_id(1), 2);
    assert_eq!(next_transaction_id(0xFFFF), 1);
}

#[test]
fn response_checks() {
    let request = ModbusRequest::new_read(0x02, ModbusFunction::ReadCoils, 0, 8);
    let frame = [0x00u8, 0x01, 0x00, 0x00, 0x00, 0x04, 0x05, 0x01, 0x01, 0xFF];
    let response = decode_tcp_response(&frame).unwrap();
    let mut stats = TransportStats::new();
    let err = check_serial_response(&mut stats, &request, response).unwrap_err();
    assert_eq!(err.to_string(), "Protocol error: Response slave ID mismatch: expected 2, got 5");
    assert_eq!(stats.errors, 1);

    let exception = [0x00u8, 0x01, 0x00, 0x00, 0x00, 0x03, 0x01, 0x83, 0x02];
    let response = decode_tcp_response(&exception).unwrap();
    let err = check_tcp_response(&mut stats, response).unwrap_err();
    assert!(matches!(err, ModbusError::Exception { function: 0x03, code: 0x02, .. }));
    assert_eq!(stats.errors, 2);

    let ok = [0x00u8, 0x01, 0x00, 0x00, 0x00, 0x04, 0x02, 0x01, 0x01, 0xFF];
    let response = decode_tcp_response(&ok).unwrap();
    assert!(check_serial_response(&mut stats, &request, response).is_ok());
    assert_eq!(stats.errors, 2);
}

#[test]
fn hex_packet_text() {
    assert_eq!(format_hex_packet(&[0x01, 0x03, 0xAB]), "01 03 AB");
    assert_eq!(format_hex_packet(&[]), "");
}

#[test]
fn transport_stats_counting() {
    let mut stats = TransportStats::new();
    stats.record_request(8);
    stats.record_response(7);
    stats.record_error();
    stats.record_timeout();
    assert_eq!(stats.requests_sent, 1);
    assert_eq!(stats.responses_received, 1);
    assert_eq!(stats.bytes_sent, 8);
    assert_eq!(stats.bytes_received, 7);
    assert_eq!(stats.errors, 2);
    assert_eq!(stats.timeouts, 1);
}

#[test]
fn rtu_frame_reading() {
    let mut frame = Vec::new();
    for i in 0..256u32 {
        assert!(rtu_read_byte(&mut frame, i as u8).is_ok());
    }
    let err = rtu_read_byte(&mut frame, 0).unwrap_err();
    assert_eq!(err.to_string(), "Frame error: RTU frame too large");
    assert_eq!(frame.len(), 257);
}

#[test]
fn ascii_frame_reading() {
    let mut frame = Vec::new();
    for &b in b":0103" {
        assert_eq!(ascii_read_byte(&mut frame, b).unwrap(), false);
    }
    assert_eq!(ascii_read_byte(&mut frame, 0x0D).unwrap(), false);
    assert_eq!(ascii_read_byte(&mut frame, 0x0A).unwrap(), true);
    assert_eq!(frame, b":0103\r\n".to_vec());

    let mut long = vec![b'0'; 512];
    let err = ascii_read_byte(&mut long, b'1').unwrap_err();
    assert_eq!(err.to_string(), "Frame error: ASCII frame too large");

    assert!(ascii_read_pause(&[], 100).is_none());
    let err = ascii_read_pause(b":01", 100).unwrap();
    assert_eq!(err.to_string(), "Timeout after 100ms: Incomplete ASCII frame");
}

#[test]
fn decoding_definedness() {
    assert!(tcp_decode_defined(&[0x00, 0x01, 0x00, 0x00, 0x00, 0x05, 0x01, 0x03, 0x02, 0x12, 0x34]));
    assert!(!tcp_decode_defined(&[0x00, 0x01, 0x00, 0x00, 0x00, 0x01, 0x01, 0x03]));
    assert!(tcp_decode_defined(&[0x00, 0x01]));
}

#[test]
fn lrc_of_any_sum() {
    let mut data = vec![0xFFu8; 128];
    data.push(0x80);
    assert_eq!(calculate_lrc(&data), 0x00);
    let long = vec![0xFFu8; 300];
    assert_eq!(calculate_lrc(&long), ((256 - (300 * 255) % 256) % 256) as u8);

    let mut text = String::from(":");
    for _ in 0..128 {
        text.push_str("FF");
    }
    text.push_str("8000\r\n");
    let err = decode_ascii_response(text.as_bytes()).unwrap_err();
    assert_eq!(err.to_string(), "Invalid function code: 127");
}

#[test]
fn rtu_exception_with_unknown_code() {
    let frame = [0x01u8, 0x83, 0x07, 0x00, 0x00];
    let mut body = frame[..3].to_vec();
    let crc = {
        let mut c: u16 = 0xFFFF;
        for &b in &body {
            c ^= b as u16;
            for _ in 0..8 {
                c = if c & 1 != 0 { (c >> 1) ^ 0xA001 } else { c >> 1 };
            }
        }
        c
    };
    body.extend_from_slice(&crc.to_le_bytes());
    let response = decode_rtu_response(&body).unwrap();
    assert_eq!(response.exception, Some(ModbusException::Other(0x07)));
    let mut stats = TransportStats::new();
    assert!(check_tcp_response(&mut stats, response).is_err());
}
