use sensirion_uart_sensorbridge::device::buffer::BufferReadSession;
use sensirion_uart_sensorbridge::device::i2c_proxy::{proxy_error_status, proxy_port};
use sensirion_uart_sensorbridge::device::requests::{
    blink_led_command, measure_voltage_command, repeated_transceive_handles, scan_i2c_command,
    set_i2c_frequency_command, set_spi_config_command, set_supply_voltage_command,
    start_repeated_i2c_transceive_command, stop_repeated_i2c_transceive_command,
    switch_supply_command, transceive_spi_command,
};
use sensirion_uart_sensorbridge::device::{
    I2cProxyResult, I2cTransceiveSession, I2cTransceiveStep, I2C_STATUS_NACK, I2C_STATUS_OK,
    I2C_STATUS_TIMEOUT, I2C_STATUS_UNSPECIFIED_ERROR,
};
use sensirion_uart_sensorbridge::protocol::definitions::{SensorBridgePort, SensorBridgeSpiMode};
use sensirion_uart_sensorbridge::protocol::errors::{SensorBridgeError, ShdlcFault};
use sensirion_uart_sensorbridge::protocol::types::RepeatedTransceiveHandle;

fn expect_send(step: I2cTransceiveStep) -> Vec<u8> {
    match step {
        I2cTransceiveStep::Send(cmd) => cmd.tx_data,
        I2cTransceiveStep::Done(_) => panic!("expected a frame to send"),
    }
}

fn expect_done(step: I2cTransceiveStep) -> Vec<u8> {
    match step {
        I2cTransceiveStep::Done(rx) => rx,
        I2cTransceiveStep::Send(_) => panic!("expected the end of the transceive"),
    }
}

#[test]
fn transceive_single_frame() {
    let (mut s, first) =
        I2cTransceiveSession::start(SensorBridgePort::One, 0x70, &[0x01, 0x02], 3, 1000).unwrap();
    assert_eq!(first.port, 0x00);
    assert_eq!(first.address, 0x70);
    assert_eq!(first.tx_length, 2);
    assert_eq!(first.rx_length, 3);
    assert_eq!(first.timeout_us, 1000);
    assert_eq!(first.tx_data, vec![0x01, 0x02]);
    let rx = expect_done(s.on_reply(&[0xBE, 0xEF, 0x92]));
    assert_eq!(rx, vec![0xBE, 0xEF, 0x92]);
}

#[test]
fn transceive_refuses_all_ports() {
    match I2cTransceiveSession::start(SensorBridgePort::All, 0x70, &[], 1, 10) {
        Err(SensorBridgeError::InvalidPort(0xFF)) => {}
        _ => panic!("expected InvalidPort(0xFF)"),
    }
}

#[test]
fn transceive_splits_long_transmit() {
    let tx: Vec<u8> = (0..600u32).map(|i| (i % 256) as u8).collect();
    let (mut s, first) =
        I2cTransceiveSession::start(SensorBridgePort::Two, 0x10, &tx, 0, 5).unwrap();
    assert_eq!(first.port, 0x01);
    assert_eq!(first.tx_length, 600);
    assert_eq!(first.tx_data, tx[0..240].to_vec());
    let second = expect_send(s.on_reply(&[0xA0]));
    assert_eq!(second, tx[240..480].to_vec());
    let third = expect_send(s.on_reply(&[]));
    assert_eq!(third, tx[480..600].to_vec());
    let rx = expect_done(s.on_reply(&[0xA1]));
    assert_eq!(rx, vec![0xA0, 0xA1]);
}

#[test]
fn transceive_fetches_until_enough_or_empty() {
    let (mut s, _) = I2cTransceiveSession::start(SensorBridgePort::One, 0x44, &[], 6, 5).unwrap();
    assert!(expect_send(s.on_reply(&[1, 2])).is_empty());
    assert!(expect_send(s.on_reply(&[3])).is_empty());
    let rx = expect_done(s.on_reply(&[4, 5, 6]));
    assert_eq!(rx, vec![1, 2, 3, 4, 5, 6]);

    let (mut s, _) = I2cTransceiveSession::start(SensorBridgePort::One, 0x44, &[], 6, 5).unwrap();
    assert!(expect_send(s.on_reply(&[1, 2])).is_empty());
    let rx = expect_done(s.on_reply(&[]));
    assert_eq!(rx, vec![1, 2]);
}

#[test]
fn buffer_read_sums_and_stops() {
    let handle = RepeatedTransceiveHandle::new(0x20, 2);
    let (mut s, first) = BufferReadSession::start(handle, 10);
    assert_eq!(first.unwrap().handle, 0x20);
    let next = s.on_reply(3, 6, &[0x00, 0x11, 0x22]);
    assert_eq!(next.unwrap().handle, 0x20);
    let next = s.on_reply(4, 0, &[0x01, 0x33, 0x44]);
    assert!(next.is_none());
    let resp = s.finish().unwrap();
    assert_eq!(resp.lost_bytes, 7);
    assert_eq!(resp.remaining_bytes, 0);
    assert_eq!(resp.values.len(), 2);
    assert_eq!(resp.values[0].data().unwrap(), &[0x11, 0x22]);
    assert!(matches!(resp.values[1].data(), Err(SensorBridgeError::I2cNack)));
}

#[test]
fn buffer_read_respects_limit() {
    let handle = RepeatedTransceiveHandle::new(0x21, 0);
    let (s, first) = BufferReadSession::start(handle, 0);
    assert!(first.is_none());
    assert!(s.finished);
    let resp = s.finish().unwrap();
    assert!(resp.values.is_empty());

    let (mut s, _) = BufferReadSession::start(handle, 1);
    assert!(s.on_reply(u32::MAX, 9, &[0x00]).is_none());
    assert_eq!(s.remaining_bytes, 9);
    assert_eq!(s.lost_bytes, u32::MAX);
}

#[test]
fn buffer_read_length_mismatch() {
    let handle = RepeatedTransceiveHandle::new(0x20, 2);
    let (mut s, _) = BufferReadSession::start(handle, 1);
    s.on_reply(0, 0, &[0x00, 0x11]);
    match s.finish() {
        Err(SensorBridgeError::BufferLengthMismatch { expected: 3, actual: 2 }) => {}
        _ => panic!("expected BufferLengthMismatch"),
    }
}

#[test]
fn request_commands() {
    assert_eq!(blink_led_command(SensorBridgePort::All).unwrap().port, 0xFF);
    assert!(matches!(
        measure_voltage_command(SensorBridgePort::All),
        Err(SensorBridgeError::InvalidPort(0xFF))
    ));
    assert_eq!(measure_voltage_command(SensorBridgePort::Two).unwrap().port, 0x01);
    let c = set_supply_voltage_command(SensorBridgePort::All, 33).unwrap();
    assert_eq!((c.port, c.voltage), (0xFF, 0x02));
    assert!(matches!(
        set_supply_voltage_command(SensorBridgePort::One, 13),
        Err(SensorBridgeError::InvalidVoltage(13))
    ));
    let c = switch_supply_command(SensorBridgePort::One, true).unwrap();
    assert_eq!((c.port, c.state), (0x00, 1));
    let c = switch_supply_command(SensorBridgePort::One, false).unwrap();
    assert_eq!(c.state, 0);
    let c = set_i2c_frequency_command(SensorBridgePort::Two, 400_000).unwrap();
    assert_eq!((c.port, c.frequency), (0x01, 0x01));
    assert!(matches!(
        set_i2c_frequency_command(SensorBridgePort::Two, 200_000),
        Err(SensorBridgeError::InvalidI2cFrequency(200_000))
    ));
    let c = scan_i2c_command(SensorBridgePort::One, 1, 127).unwrap();
    assert_eq!(c.data(), vec![0x00, 1, 127]);
    assert!(scan_i2c_command(SensorBridgePort::All, 1, 127).is_err());
    let c = start_repeated_i2c_transceive_command(
        SensorBridgePort::All,
        10000,
        0x70,
        &[0xAA],
        6,
        1000,
        500,
    )
    .unwrap();
    assert_eq!(
        c.data(),
        vec![
            0x00, 0x00, 0x27, 0x10, 0xFF, 0x70, 0, 0, 0, 1, 0, 0, 0, 6, 0, 0, 0x03, 0xE8, 0, 0,
            0x01, 0xF4, 0xAA
        ]
    );
    let c = stop_repeated_i2c_transceive_command(None);
    assert_eq!(c.handle, 0xFF);
    let c = stop_repeated_i2c_transceive_command(Some(RepeatedTransceiveHandle::new(0x20, 6)));
    assert_eq!(c.handle, 0x20);
    let c = set_spi_config_command(SensorBridgePort::One, SensorBridgeSpiMode::Mode3, 1_000_000)
        .unwrap();
    assert_eq!(c.data(), vec![0x00, 3, 0x02]);
    assert!(matches!(
        set_spi_config_command(SensorBridgePort::One, SensorBridgeSpiMode::Mode0, 500_000),
        Err(SensorBridgeError::InvalidSpiFrequency(500_000))
    ));
    let c = transceive_spi_command(SensorBridgePort::One, &[0x01, 0x02]).unwrap();
    assert_eq!(c.data(), vec![0x00, 0, 0, 0, 2, 0x01, 0x02]);
    assert!(transceive_spi_command(SensorBridgePort::All, &[]).is_err());
}

#[test]
fn repeated_handles_keep_order() {
    let handles = repeated_transceive_handles(&[0x20, 0x21], 6);
    assert_eq!(handles.len(), 2);
    assert_eq!(handles[0].raw_handle, 0x20);
    assert_eq!(handles[1].raw_handle, 0x21);
    assert_eq!(handles[1].rx_length, 6);
    assert_eq!(handles[1].port(), SensorBridgePort::Two);
}

#[test]
fn proxy_statuses() {
    assert!(matches!(
        proxy_port(SensorBridgePort::All),
        Err(SensorBridgeError::InvalidPort(0xFF))
    ));
    assert_eq!(proxy_port(SensorBridgePort::Two).unwrap(), SensorBridgePort::Two);

    let ok = I2cProxyResult::from_transceive(Ok(vec![0x12, 0x34]), String::new());
    assert_eq!(ok.status, I2C_STATUS_OK);
    assert!(ok.error.is_none());
    assert_eq!(ok.rx_data, vec![0x12, 0x34]);

    let device_nack = SensorBridgeError::Shdlc(ShdlcFault::DeviceError {
        code: 0x29,
        message: String::from("nack"),
    });
    assert_eq!(proxy_error_status(&device_nack), I2C_STATUS_NACK);
    let r = I2cProxyResult::from_transceive(Err(device_nack), String::from("unused"));
    assert_eq!(r.status, I2C_STATUS_NACK);
    assert_eq!(r.error.as_deref(), Some("I2C slave NACK"));
    assert!(r.rx_data.is_empty());

    let r = I2cProxyResult::from_transceive(Err(SensorBridgeError::I2cTimeout), String::new());
    assert_eq!(r.status, I2C_STATUS_TIMEOUT);
    assert_eq!(r.error.as_deref(), Some("I2C operation timeout"));

    let device_timeout = SensorBridgeError::Shdlc(ShdlcFault::DeviceError {
        code: 0x2B,
        message: String::new(),
    });
    assert_eq!(proxy_error_status(&device_timeout), I2C_STATUS_TIMEOUT);

    let r = I2cProxyResult::from_transceive(
        Err(SensorBridgeError::I2cTiming),
        String::from("I2C timing error"),
    );
    assert_eq!(r.status, I2C_STATUS_UNSPECIFIED_ERROR);
    assert_eq!(r.error.as_deref(), Some("I2C timing error"));
}
