//! The command that each SensorBridge device operation sends, with the
//! checks it makes on its arguments before anything is sent.
use crate::protocol::commands::{
    AnalogMeasurement, Blink, I2cRepeatedTransceive, I2cScan, PortVoltageOnOff, SetI2cFrequency,
    SetPortVoltage, SpiConfig, SpiTransceive, StopRepeatedTransceive,
};
use crate::protocol::definitions::{
    i2c_frequency_to_byte, spec_i2c_frequency_code, spec_port_byte, spec_spi_frequency_code,
    spec_spi_mode_number, spec_voltage_code, spi_frequency_to_byte, voltage_decivolts_to_byte,
    SensorBridgePort, SensorBridgeSpiMode,
};
use crate::protocol::errors::SensorBridgeError;
use crate::protocol::types::RepeatedTransceiveHandle;
use vstd::prelude::*;

verus! {

/// The outcome of converting a port to its byte.
pub open spec fn spec_port_result(port: SensorBridgePort, accept_all: bool) -> Result<
    u8,
    SensorBridgeError,
> {
    if port == SensorBridgePort::All && !accept_all {
        Err(SensorBridgeError::InvalidPort(0xFF))
    } else {
        Ok(spec_port_byte(port))
    }
}

/// Blinking the LEDs accepts every port, `All` included.
pub fn blink_led_command(port: SensorBridgePort) -> (r: Result<Blink, SensorBridgeError>)
    ensures
        r is Ok,
        r matches Ok(c) ==> c.port == spec_port_byte(port),
{
    let raw_port = port.to_byte(true)?;
    Ok(Blink::new(raw_port))
}

/// An analog measurement is made on one port; `All` is refused.
pub fn measure_voltage_command(port: SensorBridgePort) -> (r: Result<
    AnalogMeasurement,
    SensorBridgeError,
>)
    ensures
        r is Ok <==> port != SensorBridgePort::All,
        r matches Ok(c) ==> c.port == spec_port_byte(port),
        r matches Err(e) ==> e == SensorBridgeError::InvalidPort(0xFF),
{
    let raw_port = port.to_byte(false)?;
    Ok(AnalogMeasurement::new(raw_port))
}

/// Sets the supply voltage (in tenths of a volt) of a port or of all ports;
/// a voltage without a code gives `InvalidVoltage`.
pub fn set_supply_voltage_command(port: SensorBridgePort, decivolts: i32) -> (r: Result<
    SetPortVoltage,
    SensorBridgeError,
>)
    ensures
        r is Ok <==> spec_voltage_code(decivolts as int) is Some,
        r matches Ok(c) ==> c.port == spec_port_byte(port) && Some(c.voltage) == spec_voltage_code(
            decivolts as int,
        ),
        r matches Err(e) ==> e == SensorBridgeError::InvalidVoltage(decivolts),
{
    let raw_port = port.to_byte(true)?;
    let raw_voltage = voltage_decivolts_to_byte(decivolts)?;
    Ok(SetPortVoltage::new(raw_port, raw_voltage))
}

/// Switches the supply of a port or of all ports on (state 1) or off
/// (state 0).
pub fn switch_supply_command(port: SensorBridgePort, on: bool) -> (r: Result<
    PortVoltageOnOff,
    SensorBridgeError,
>)
    ensures
        r is Ok,
        r matches Ok(c) ==> c.port == spec_port_byte(port) && c.state == (if on {
            1u8
        } else {
            0u8
        }),
{
    let raw_port = port.to_byte(true)?;
    let state: u8 = if on {
        1
    } else {
        0
    };
    Ok(PortVoltageOnOff::new(raw_port, state))
}

/// Sets the I2C frequency of a port or of all ports; a frequency without a
/// code gives `InvalidI2cFrequency`.
pub fn set_i2c_frequency_command(port: SensorBridgePort, frequency_hz: u32) -> (r: Result<
    SetI2cFrequency,
    SensorBridgeError,
>)
    ensures
        r is Ok <==> spec_i2c_frequency_code(frequency_hz) is Some,
        r matches Ok(c) ==> c.port == spec_port_byte(port) && Some(c.frequency)
            == spec_i2c_frequency_code(frequency_hz),
        r matches Err(e) ==> e == SensorBridgeError::InvalidI2cFrequency(frequency_hz),
{
    let raw_port = port.to_byte(true)?;
    let raw_freq = i2c_frequency_to_byte(frequency_hz)?;
    Ok(SetI2cFrequency::new(raw_port, raw_freq))
}

/// Scans one port for I2C devices in an address range; `All` is refused.
pub fn scan_i2c_command(port: SensorBridgePort, first_address: u8, last_address: u8) -> (r:
    Result<I2cScan, SensorBridgeError>)
    ensures
        r is Ok <==> port != SensorBridgePort::All,
        r matches Ok(c) ==> c.port == spec_port_byte(port) && c.first_address == first_address
            && c.last_address == last_address,
        r matches Err(e) ==> e == SensorBridgeError::InvalidPort(0xFF),
{
    let raw_port = port.to_byte(false)?;
    Ok(I2cScan::new(raw_port, first_address, last_address))
}

/// Starts a repeated I2C transceive on a port or on all ports; the length
/// fields carry the low 32 bits of the lengths.
#[allow(clippy::too_many_arguments)]
pub fn start_repeated_i2c_transceive_command(
    port: SensorBridgePort,
    interval_us: u32,
    address: u8,
    tx_data: &[u8],
    rx_length: usize,
    timeout_us: u32,
    read_delay_us: u32,
) -> (r: Result<I2cRepeatedTransceive, SensorBridgeError>)
    ensures
        r is Ok,
        r matches Ok(c) ==> {
            &&& c.interval_us == interval_us
            &&& c.port == spec_port_byte(port)
            &&& c.address == address
            &&& c.tx_length == tx_data@.len() as u32
            &&& c.rx_length == rx_length as u32
            &&& c.timeout_us == timeout_us
            &&& c.read_delay_us == read_delay_us
            &&& c.tx_data@ == tx_data@
        },
{
    let raw_port = port.to_byte(true)?;
    Ok(
        I2cRepeatedTransceive::new(
            interval_us,
            raw_port,
            address,
            tx_data.len() as u32,
            rx_length as u32,
            timeout_us,
            read_delay_us,
            tx_data,
        ),
    )
}

/// The handles of the started operations: one per raw handle, in the order
/// the device sent them, each with the receive length of the operation.
pub fn repeated_transceive_handles(raw_handles: &[u8], rx_length: usize) -> (handles: Vec<
    RepeatedTransceiveHandle,
>)
    ensures
        handles@.len() == raw_handles@.len(),
        forall|i: int|
            #![trigger handles@[i]]
            0 <= i < handles@.len() ==> handles@[i].raw_handle == raw_handles@[i]
                && handles@[i].rx_length == rx_length,
{
    let mut handles: Vec<RepeatedTransceiveHandle> = Vec::new();
    let n = raw_handles.len();
    let mut i: usize = 0;
    while i < n
        invariant
            n == raw_handles@.len(),
            i <= n,
            handles@.len() == i,
            forall|k: int|
                #![trigger handles@[k]]
                0 <= k < i ==> handles@[k].raw_handle == raw_handles@[k] && handles@[k].rx_length
                    == rx_length,
        decreases n - i,
    {
        handles.push(RepeatedTransceiveHandle::new(raw_handles[i], rx_length));
        i = i + 1;
    }
    handles
}

/// Stops one repeated transceive, or all of them (handle byte 0xFF) when no
/// handle is given.
pub fn stop_repeated_i2c_transceive_command(handle: Option<RepeatedTransceiveHandle>) -> (c:
    StopRepeatedTransceive)
    ensures
        c.handle == (match handle {
            Some(h) => h.raw_handle,
            None => 0xFFu8,
        }),
{
    let raw_handle = match handle {
        Some(h) => h.raw_handle,
        None => 0xFF,
    };
    StopRepeatedTransceive::new(raw_handle)
}

/// Configures SPI mode and frequency of a port or of all ports; a frequency
/// without a code gives `InvalidSpiFrequency`.
pub fn set_spi_config_command(
    port: SensorBridgePort,
    mode: SensorBridgeSpiMode,
    frequency_hz: u32,
) -> (r: Result<SpiConfig, SensorBridgeError>)
    ensures
        r is Ok <==> spec_spi_frequency_code(frequency_hz) is Some,
        r matches Ok(c) ==> c.port == spec_port_byte(port) && c.mode == spec_spi_mode_number(mode)
            && Some(c.frequency) == spec_spi_frequency_code(frequency_hz),
        r matches Err(e) ==> e == SensorBridgeError::InvalidSpiFrequency(frequency_hz),
{
    let raw_port = port.to_byte(true)?;
    let raw_freq = spi_frequency_to_byte(frequency_hz)?;
    Ok(SpiConfig::new(raw_port, mode.to_u8(), raw_freq))
}

/// Transceives an SPI frame on one port; `All` is refused.
pub fn transceive_spi_command(port: SensorBridgePort, tx_data: &[u8]) -> (r: Result<
    SpiTransceive,
    SensorBridgeError,
>)
    ensures
        r is Ok <==> port != SensorBridgePort::All,
        r matches Ok(c) ==> c.port == spec_port_byte(port) && c.length == tx_data@.len() as u32
            && c.tx_data@ == tx_data@,
        r matches Err(e) ==> e == SensorBridgeError::InvalidPort(0xFF),
{
    let raw_port = port.to_byte(false)?;
    Ok(SpiTransceive::new(raw_port, tx_data))
}

} // verus!
