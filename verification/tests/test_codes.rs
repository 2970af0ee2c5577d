use sensirion_uart_sensorbridge::protocol::commands::{
    AnalogMeasurement, FirstTransceive, ReadBuffer, SubsequentTransceive,
};
use sensirion_uart_sensorbridge::protocol::definitions::{
    byte_to_voltage_decivolts, SensorBridgePort, SensorBridgeSpiMode,
    SUPPORTED_VOLTAGES_DECIVOLTS,
};
use sensirion_uart_sensorbridge::protocol::errors::{
    hex_byte_string, sensorbridge_device_error_map, SensorBridgeError, ShdlcFault,
};
use sensirion_uart_sensorbridge::protocol::types::{
    BufferedValue, ReadBufferResponse, RepeatedTransceiveHandle,
};

#[test]
fn port_roundtrip_and_names() {
    for port in [SensorBridgePort::One, SensorBridgePort::Two, SensorBridgePort::All] {
        let b = port.to_byte(true).unwrap();
        assert_eq!(SensorBridgePort::from_byte(b, true).unwrap(), port);
    }
    assert!(matches!(
        SensorBridgePort::from_byte(0x07, true),
        Err(SensorBridgeError::InvalidPort(0x07))
    ));
    assert_eq!(SensorBridgePort::One.name(), "Port 1");
    assert_eq!(SensorBridgePort::Two.name(), "Port 2");
    assert_eq!(SensorBridgePort::All.name(), "All Ports");
}

#[test]
fn spi_mode_roundtrip() {
    for v in 0..4u8 {
        assert_eq!(SensorBridgeSpiMode::from_u8(v).unwrap().to_u8(), v);
    }
    assert!(matches!(
        SensorBridgeSpiMode::from_u8(9),
        Err(SensorBridgeError::InvalidSpiMode(9))
    ));
}

#[test]
fn voltage_codes_cover_table() {
    let mut seen = Vec::new();
    for &dv in &SUPPORTED_VOLTAGES_DECIVOLTS {
        let b = sensirion_uart_sensorbridge::protocol::definitions::voltage_decivolts_to_byte(dv)
            .unwrap();
        assert!(b <= 0x0B);
        assert!(!seen.contains(&b));
        seen.push(b);
        assert_eq!(byte_to_voltage_decivolts(b).unwrap(), dv);
    }
    assert!(matches!(
        byte_to_voltage_decivolts(0x10),
        Err(SensorBridgeError::InvalidVoltage(160))
    ));
}

#[test]
fn i2c_status_errors() {
    assert!(SensorBridgeError::from_i2c_status(0).is_none());
    assert!(matches!(
        SensorBridgeError::from_i2c_status(1),
        Some(SensorBridgeError::I2cNack)
    ));
    assert!(matches!(
        SensorBridgeError::from_i2c_status(2),
        Some(SensorBridgeError::I2cTimeout)
    ));
    assert!(matches!(
        SensorBridgeError::from_i2c_status(3),
        Some(SensorBridgeError::I2cTiming)
    ));
    match SensorBridgeError::from_i2c_status(0xAB) {
        Some(SensorBridgeError::I2cGeneric { code, message }) => {
            assert_eq!(code, 0xAB);
            assert_eq!(message, "I2C error code 0xab");
        }
        _ => panic!("expected I2cGeneric"),
    }
    assert_eq!(hex_byte_string(0x07), "0x07");
    assert_eq!(hex_byte_string(0xF0), "0xf0");
}

#[test]
fn device_error_table() {
    let m = sensorbridge_device_error_map();
    assert_eq!(m.len(), 7);
    assert_eq!(m[&0x20], "The command is not supported by the device.");
    assert_eq!(m[&0x29], "An I2C slave did not acknowledge the sent data.");
    assert_eq!(m[&0x2B], "An I2C operation timed out.");
    assert_eq!(m[&0x7F], "An unknown error occurred.");
    assert!(!m.contains_key(&0x23));
}

#[test]
fn frame_data_big_endian() {
    let cmd = FirstTransceive::new(0x01, 0x69, 0x0102_0304, 6, 1000, &[0x20, 0x32]);
    assert_eq!(
        cmd.data(),
        vec![0x00, 0x01, 0x69, 0x01, 0x02, 0x03, 0x04, 0, 0, 0, 6, 0, 0, 0x03, 0xE8, 0x20, 0x32]
    );
    let cmd = SubsequentTransceive::new(0x01, &[0x11, 0x22]);
    assert_eq!(cmd.data(), vec![0x01, 0x01, 0x11, 0x22]);
    assert_eq!(cmd.max_response_time_ms(), 10_000);
    assert_eq!(cmd.max_response_length(), 255);
}

#[test]
fn responses_decoded() {
    let cmd = ReadBuffer::new(0x10);
    let (lost, remaining, rx) = cmd
        .interpret_response(&[0x01, 0x02, 0x03, 0x04, 0, 0, 0x01, 0x00, 0x09])
        .unwrap();
    assert_eq!(lost, 0x0102_0304);
    assert_eq!(remaining, 0x100);
    assert_eq!(rx, vec![0x09]);
    assert_eq!(cmd.min_response_length(), 8);

    let analog = AnalogMeasurement::new(0x01);
    assert_eq!(analog.interpret_response(&[0x01, 0x02, 0x03, 0x04]).unwrap(), 0x0403_0201);
    match analog.interpret_response(&[0x01, 0x02]) {
        Err(ShdlcFault::ResponseError { message, raw_data }) => {
            assert_eq!(message, "Invalid length for analog measurement response");
            assert_eq!(raw_data, Some(vec![0x01, 0x02]));
        }
        _ => panic!("expected ResponseError"),
    }
}

#[test]
fn buffered_values() {
    match BufferedValue::new(&[]) {
        Err(SensorBridgeError::InvalidResponse(m)) => assert_eq!(m, "Empty buffer packet"),
        _ => panic!("expected InvalidResponse"),
    }
    let v = BufferedValue::new(&[0x05, 0x01]).unwrap();
    assert!(v.error().is_some());
    assert!(matches!(v.data(), Err(SensorBridgeError::I2cGeneric { code: 5, .. })));

    let resp = ReadBufferResponse::from_raw(0, 1, 2, &[0x00, 0x02]).unwrap();
    assert_eq!(resp.values.len(), 2);
    assert_eq!((resp.lost_bytes, resp.remaining_bytes), (1, 2));
    assert!(resp.values[0].raw_data.is_empty());
    match ReadBufferResponse::from_raw(usize::MAX, 0, 0, &[0x00]) {
        Err(SensorBridgeError::BufferLengthMismatch { expected: 0, actual: 1 }) => {}
        _ => panic!("expected BufferLengthMismatch"),
    }
}

#[test]
fn handle_nibbles() {
    let h = RepeatedTransceiveHandle::new(0x70, 4);
    assert_eq!((h.slot(), h.channel()), (7, 0));
    assert_eq!(h.port(), SensorBridgePort::One);
    let h = RepeatedTransceiveHandle::new(0xF5, 4);
    assert_eq!((h.slot(), h.channel()), (15, 5));
    assert_eq!(h.port(), SensorBridgePort::Two);
}
