use voltage_modbus::client::{read_01_request, read_03_request, read_04_request, write_06_request};
use voltage_modbus::transport::rtu::encode_rtu_request;
use voltage_modbus::protocol::data_utils::{registers_to_u32, u32_to_registers};
use voltage_modbus::transport::{calculate_character_time_us, calculate_frame_gap_us};

#[test]
fn test_frame_gap_calculations() {
    let baud_rates = vec![9600, 19200, 38400, 57600, 115200];

    for baud_rate in baud_rates {
        let char_time = calculate_character_time_us(baud_rate);
        let frame_gap = calculate_frame_gap_us(baud_rate);

        assert!(char_time > 0);
        assert!(frame_gap >= char_time * 3);

        if baud_rate > 19200 {
            assert!(frame_gap >= 1750);
        }

        println!("Baud: {}, Char time: {}μs, Frame gap: {}μs", baud_rate, char_time, frame_gap);
    }
}

#[test]
fn test_data_type_handling() {
    let value_32 = 0x12345678u32;
    let [high_reg, low_reg] = u32_to_registers(value_32);

    assert_eq!(high_reg, 0x1234);
    assert_eq!(low_reg, 0x5678);

    let reconstructed = registers_to_u32(&[high_reg, low_reg]).unwrap();
    assert_eq!(reconstructed, value_32);

    let float_val = 123.45f32;
    let [reg1, reg2] = u32_to_registers(float_val.to_bits());

    let reconstructed_float = f32::from_bits(registers_to_u32(&[reg1, reg2]).unwrap());

    assert!((reconstructed_float - float_val).abs() < 0.001);
}

#[test]
fn frame_gap_values() {
    assert_eq!(calculate_character_time_us(9600), 1145);
    assert_eq!(calculate_frame_gap_us(9600), 4007);
    assert_eq!(calculate_frame_gap_us(19200), 2002);
    assert_eq!(calculate_frame_gap_us(115200), 1750);
}

#[test]
fn crc_known_vectors() {
    let cases = vec![
        (read_03_request(0x01, 0x0000, 0x0002).unwrap(), [0x01u8, 0x03, 0x00, 0x00, 0x00, 0x02, 0xC4, 0x0B]),
        (read_04_request(0x01, 0x0000, 0x0001).unwrap(), [0x01, 0x04, 0x00, 0x00, 0x00, 0x01, 0x31, 0xCA]),
        (write_06_request(0x01, 0x0001, 0x0003), [0x01, 0x06, 0x00, 0x01, 0x00, 0x03, 0x98, 0x0B]),
        (read_01_request(0x01, 0x0013, 0x0025).unwrap(), [0x01, 0x01, 0x00, 0x13, 0x00, 0x25, 0x0C, 0x14]),
        (read_03_request(0x02, 0x0000, 0x0001).unwrap(), [0x02, 0x03, 0x00, 0x00, 0x00, 0x01, 0x84, 0x39]),
    ];
    for (request, expected) in cases {
        assert_eq!(encode_rtu_request(&request).unwrap(), expected.to_vec());
    }
}
