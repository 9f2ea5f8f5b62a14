use voltage_modbus::ModbusRegisterBank;

#[test]
fn test_coil_operations() {
    let mut bank = ModbusRegisterBank::new();

    bank.write_05(10, true).unwrap();
    let coils = bank.read_01(10, 1).unwrap();
    assert_eq!(coils[0], true);

    bank.write_0f(20, &[true, false, true]).unwrap();
    let coils = bank.read_01(20, 3).unwrap();
    assert_eq!(coils, vec![true, false, true]);
}

#[test]
fn test_register_operations() {
    let mut bank = ModbusRegisterBank::new();

    bank.write_06(5, 42).unwrap();
    let registers = bank.read_03(5, 1).unwrap();
    assert_eq!(registers[0], 42);

    bank.write_10(100, &[100, 200, 300]).unwrap();
    let registers = bank.read_03(100, 3).unwrap();
    assert_eq!(registers, vec![100, 200, 300]);
}

#[test]
fn unwritten_addresses_read_as_defaults() {
    let bank = ModbusRegisterBank::default();
    assert_eq!(bank.read_coils(0, 3).unwrap(), vec![false, false, false]);
    assert_eq!(bank.read_input_registers(7, 2).unwrap(), vec![0, 0]);
    assert_eq!(bank.read_02(0, 0).unwrap(), Vec::<bool>::new());
}

#[test]
fn writes_wrap_around_the_address_space() {
    let mut bank = ModbusRegisterBank::new();
    bank.write_10(65535, &[7, 8]).unwrap();
    assert_eq!(bank.read_03(65535, 2).unwrap(), vec![7, 8]);
    assert_eq!(bank.read_03(0, 1).unwrap(), vec![8]);
    bank.write_multiple_coils(65535, &[true, true]).unwrap();
    assert_eq!(bank.read_coils(0, 1).unwrap(), vec![true]);
}

#[test]
fn tables_are_independent_and_counted() {
    let mut bank = ModbusRegisterBank::new();
    bank.write_single_coil(1, true).unwrap();
    bank.write_single_register(1, 0x1234).unwrap();
    bank.set_input_register(1, 99).unwrap();
    bank.set_discrete_input(1, true).unwrap();
    bank.set_discrete_input(2, false).unwrap();
    bank.write_multiple_registers(1, &[5, 6]).unwrap();
    assert_eq!(bank.read_holding_registers(1, 2).unwrap(), vec![5, 6]);
    assert_eq!(bank.read_04(1, 1).unwrap(), vec![99]);
    assert_eq!(bank.read_discrete_inputs(1, 2).unwrap(), vec![true, false]);
    let stats = bank.get_stats();
    assert_eq!(stats.coils_count, 1);
    assert_eq!(stats.discrete_inputs_count, 2);
    assert_eq!(stats.holding_registers_count, 2);
    assert_eq!(stats.input_registers_count, 1);
}

#[test]
fn stats_count_stored_addresses() {
    let mut bank = voltage_modbus::ModbusRegisterBank::new();
    let s = bank.get_stats();
    assert_eq!((s.coils_count, s.discrete_inputs_count, s.holding_registers_count, s.input_registers_count), (0, 0, 0, 0));
    bank.write_multiple_registers(10, &[1, 2, 3]).unwrap();
    bank.write_single_register(11, 9).unwrap();
    bank.write_single_coil(0, true).unwrap();
    bank.read_holding_registers(0, 20).unwrap();
    let s = bank.get_stats();
    assert_eq!(s.holding_registers_count, 3);
    assert_eq!(s.coils_count, 1);
}
