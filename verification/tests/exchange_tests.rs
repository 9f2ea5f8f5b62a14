use voltage_modbus::client::{
    read_01_request, read_03_request, read_bits_result, read_registers_result, write_05_request,
    write_06_request, write_0f_request, write_10_request,
};
use voltage_modbus::server::{process_rtu_frame, process_tcp_request};
use voltage_modbus::transport::rtu::{decode_rtu_response, encode_rtu_request};
use voltage_modbus::transport::tcp::{decode_tcp_response, encode_tcp_request};
use voltage_modbus::ModbusRegisterBank;

#[test]
fn registers_written_then_read_over_tcp() {
    let mut bank = ModbusRegisterBank::new();
    let values = [0x0102u16, 0xFFFF, 0x0000, 0x8001];
    let write = write_10_request(3, 0x0100, &values).unwrap();
    let reply = process_tcp_request(&encode_tcp_request(&write, 11), &mut bank).unwrap();
    let echo = decode_tcp_response(&reply).unwrap();
    assert_eq!(echo.data, vec![0x01, 0x00, 0x00, 0x04]);

    let read = read_03_request(3, 0x0100, 4).unwrap();
    let reply = process_tcp_request(&encode_tcp_request(&read, 12), &mut bank).unwrap();
    let response = decode_tcp_response(&reply).unwrap();
    assert_eq!(response.slave_id, 3);
    assert_eq!(read_registers_result(&response).unwrap(), values.to_vec());
}

#[test]
fn coils_written_then_read_over_rtu() {
    let mut bank = ModbusRegisterBank::new();
    let values = [true, false, true, true, false, false, false, true, true, false, true];
    let write = write_0f_request(9, 20, &values).unwrap();
    let reply = process_rtu_frame(&encode_rtu_request(&write).unwrap(), &mut bank).unwrap();
    let echo = decode_rtu_response(&reply).unwrap();
    assert_eq!(echo.data, vec![0x00, 20, 0x00, 11]);

    let read = read_01_request(9, 20, 11).unwrap();
    let reply = process_rtu_frame(&encode_rtu_request(&read).unwrap(), &mut bank).unwrap();
    let response = decode_rtu_response(&reply).unwrap();
    assert_eq!(read_bits_result(&response, 11).unwrap(), values.to_vec());
}

#[test]
fn single_writes_then_read() {
    let mut bank = ModbusRegisterBank::new();
    let write = write_06_request(1, 7, 0xBEEF);
    process_tcp_request(&encode_tcp_request(&write, 1), &mut bank).unwrap();
    let read = read_03_request(1, 7, 1).unwrap();
    let reply = process_tcp_request(&encode_tcp_request(&read, 2), &mut bank).unwrap();
    assert_eq!(read_registers_result(&decode_tcp_response(&reply).unwrap()).unwrap(), vec![0xBEEF]);

    let write = write_05_request(1, 4, true);
    process_rtu_frame(&encode_rtu_request(&write).unwrap(), &mut bank).unwrap();
    let read = read_01_request(1, 4, 1).unwrap();
    let reply = process_rtu_frame(&encode_rtu_request(&read).unwrap(), &mut bank).unwrap();
    assert_eq!(read_bits_result(&decode_rtu_response(&reply).unwrap(), 1).unwrap(), vec![true]);
}

#[test]
fn tcp_and_rtu_carry_the_same_message() {
    let request = voltage_modbus::protocol::ModbusRequest::new_read(
        0x11,
        voltage_modbus::ModbusFunction::ReadInputRegisters,
        0x0030,
        0x0004,
    );
    let tcp = encode_tcp_request(&request, 0x2222);
    let rtu = encode_rtu_request(&request).unwrap();
    assert_eq!(&tcp[6..], &rtu[..rtu.len() - 2]);
}
