use voltage_modbus::utils::validation;
use voltage_modbus::utils::logging::request_response_line;
use voltage_modbus::{ModbusError, PerformanceMetrics, TimeSpan};

#[test]
fn test_validation() {
    assert!(validation::validate_slave_id(1).is_ok());
    assert!(validation::validate_slave_id(247).is_ok());
    assert!(validation::validate_slave_id(0).is_err());
    assert!(validation::validate_slave_id(248).is_err());

    assert!(validation::validate_address_range(0, 10).is_ok());
    assert!(validation::validate_address_range(65530, 5).is_ok());
    assert!(validation::validate_address_range(65530, 10).is_err());
}

#[test]
fn test_formatting() {
    let bytes = vec![0x01, 0x03, 0x10, 0xFF];
    assert_eq!(voltage_modbus::utils::format::bytes_to_hex(&bytes), "01 03 10 FF");

    let registers = vec![0x1234, 0x5678];
    assert_eq!(voltage_modbus::utils::format::registers_to_hex(&registers), "1234 5678");
}

#[test]
fn count_validation() {
    assert!(validation::validate_register_count(125).is_ok());
    match validation::validate_register_count(126) {
        Err(ModbusError::InvalidData { message }) => assert_eq!(message, "Invalid register count: 126 (must be 1-125)"),
        other => panic!("unexpected {:?}", other),
    }
    assert!(validation::validate_coil_count(2000).is_ok());
    match validation::validate_coil_count(0) {
        Err(ModbusError::InvalidData { message }) => assert_eq!(message, "Invalid coil count: 0 (must be 1-2000)"),
        other => panic!("unexpected {:?}", other),
    }
    match validation::validate_slave_id(0) {
        Err(ModbusError::InvalidData { message }) => assert_eq!(message, "Invalid slave ID: 0 (must be 1-247)"),
        other => panic!("unexpected {:?}", other),
    }
    assert!(validation::validate_address_range(0, 0).is_err());
    assert!(validation::validate_address_range(65535, 1).is_ok());
}

#[test]
fn empty_hex_texts() {
    assert_eq!(voltage_modbus::utils::format::bytes_to_hex(&[]), "");
    assert_eq!(voltage_modbus::utils::format::registers_to_hex(&[]), "");
}

#[test]
fn metrics_record_and_report() {
    let mut metrics = PerformanceMetrics::new();
    metrics.record_success(TimeSpan::from_millis(100));
    metrics.record_success(TimeSpan::from_millis(200));
    metrics.record_failure(TimeSpan::from_millis(150));
    assert_eq!(metrics.total_requests, 3);
    assert_eq!(metrics.successful_requests, 2);
    assert_eq!(metrics.failed_requests, 1);
    assert_eq!(metrics.avg_duration.as_millis(), 150);
    assert_eq!(metrics.min_duration.unwrap().as_millis(), 100);
    assert_eq!(metrics.max_duration.unwrap().as_millis(), 200);
    assert_eq!(metrics.total_duration.as_millis(), 450);
    metrics.reset();
    assert_eq!(metrics.total_requests, 0);
    assert!(metrics.min_duration.is_none());
}

#[test]
fn request_response_log_line() {
    let line = request_response_line(3, "read", 40, &[0x0A, 0xFF], "12ms", true);
    assert_eq!(line, "✅ Slave 3 read @ 40 | Data: 0A FF | Duration: 12ms");
}

#[test]
fn test_performance_metrics() {
    let mut metrics = PerformanceMetrics::new();

    metrics.record_success(TimeSpan::from_millis(100));
    metrics.record_success(TimeSpan::from_millis(200));
    metrics.record_failure(TimeSpan::from_millis(150));

    assert_eq!(metrics.total_requests, 3);
    assert_eq!(metrics.successful_requests, 2);
    assert_eq!(metrics.failed_requests, 1);
    let success_rate = metrics.successful_requests as f64 / metrics.total_requests as f64 * 100.0;
    assert!((success_rate - 66.67).abs() < 0.1);
}

#[test]
fn operation_timer_measures() {
    let timer = voltage_modbus::utils::OperationTimer::start("read");
    let d = timer.stop();
    assert!(d.as_secs() < 60);
    let timer = voltage_modbus::utils::OperationTimer::start("write");
    assert_eq!(timer.operation_name(), "write");
    let d = timer.stop_and_log(true);
    assert!(d.as_secs() < 60);
}
