//! Port identifiers, SPI modes and the code tables of supply voltages and
//! bus frequencies.
use crate::protocol::errors::SensorBridgeError;
use vstd::prelude::*;

verus! {

/// SensorBridge port identifier.
#[derive(Debug, Clone, Copy, PartialEq, Eq, Hash, Structural)]
pub enum SensorBridgePort {
    /// Port 1 (0x00)
    One,
    /// Port 2 (0x01)
    Two,
    /// All ports (0xFF)
    All,
}

/// The raw byte that stands for a port on the wire.
pub open spec fn spec_port_byte(port: SensorBridgePort) -> u8 {
    match port {
        SensorBridgePort::One => 0x00,
        SensorBridgePort::Two => 0x01,
        SensorBridgePort::All => 0xFF,
    }
}

/// The port that a raw byte stands for, if any.
pub open spec fn spec_byte_port(byte: u8) -> Option<SensorBridgePort> {
    if byte == 0x00 {
        Some(SensorBridgePort::One)
    } else if byte == 0x01 {
        Some(SensorBridgePort::Two)
    } else if byte == 0xFF {
        Some(SensorBridgePort::All)
    } else {
        None
    }
}

impl SensorBridgePort {
    /// Converts the port to its raw byte; `All` is refused with
    /// `InvalidPort(0xFF)` unless `accept_all` is set.
    pub fn to_byte(self, accept_all: bool) -> (r: Result<u8, SensorBridgeError>)
        ensures
            r is Ok <==> (self != SensorBridgePort::All || accept_all),
            r matches Ok(b) ==> b == spec_port_byte(self),
            r matches Err(e) ==> e == SensorBridgeError::InvalidPort(0xFF),
            self == SensorBridgePort::One ==> r == Ok::<u8, SensorBridgeError>(0x00),
            self == SensorBridgePort::Two ==> r == Ok::<u8, SensorBridgeError>(0x01),
            self == SensorBridgePort::All && accept_all ==> r == Ok::<u8, SensorBridgeError>(0xFF),
    {
        match self {
            SensorBridgePort::One => Ok(0x00),
            SensorBridgePort::Two => Ok(0x01),
            SensorBridgePort::All => {
                if accept_all {
                    Ok(0xFF)
                } else {
                    Err(SensorBridgeError::InvalidPort(0xFF))
                }
            },
        }
    }

    /// Converts a raw byte to a port; 0xFF is accepted only with
    /// `accept_all`, and any other unknown byte gives `InvalidPort(byte)`.
    pub fn from_byte(byte: u8, accept_all: bool) -> (r: Result<Self, SensorBridgeError>)
        ensures
            r is Ok <==> (spec_byte_port(byte) is Some && (byte != 0xFF || accept_all)),
            r matches Ok(p) ==> spec_byte_port(byte) == Some(p),
            r matches Err(e) ==> e == SensorBridgeError::InvalidPort(byte),
    {
        match byte {
            0x00 => Ok(SensorBridgePort::One),
            0x01 => Ok(SensorBridgePort::Two),
            0xFF if accept_all => Ok(SensorBridgePort::All),
            _ => Err(SensorBridgeError::InvalidPort(byte)),
        }
    }

    /// The name of the port as shown to users.
    pub fn name(self) -> (s: &'static str)
        ensures
            s@ == spec_port_name(self),
    {
        match self {
            SensorBridgePort::One => "Port 1",
            SensorBridgePort::Two => "Port 2",
            SensorBridgePort::All => "All Ports",
        }
    }
}

/// The name of a port as shown to users.
pub open spec fn spec_port_name(port: SensorBridgePort) -> Seq<char> {
    match port {
        SensorBridgePort::One => "Port 1"@,
        SensorBridgePort::Two => "Port 2"@,
        SensorBridgePort::All => "All Ports"@,
    }
}

/// SPI modes supported by the SensorBridge.
#[derive(Debug, Clone, Copy, PartialEq, Eq, Hash, Structural)]
pub enum SensorBridgeSpiMode {
    Mode0,
    Mode1,
    Mode2,
    Mode3,
}

/// The number of an SPI mode.
pub open spec fn spec_spi_mode_number(mode: SensorBridgeSpiMode) -> u8 {
    match mode {
        SensorBridgeSpiMode::Mode0 => 0,
        SensorBridgeSpiMode::Mode1 => 1,
        SensorBridgeSpiMode::Mode2 => 2,
        SensorBridgeSpiMode::Mode3 => 3,
    }
}

impl SensorBridgeSpiMode {
    /// Converts a mode number to a mode; numbers above 3 give
    /// `InvalidSpiMode(val)`.
    pub fn from_u8(val: u8) -> (r: Result<Self, SensorBridgeError>)
        ensures
            r is Ok <==> val <= 3,
            r matches Ok(m) ==> spec_spi_mode_number(m) == val,
            r matches Err(e) ==> e == SensorBridgeError::InvalidSpiMode(val),
    {
        match val {
            0 => Ok(SensorBridgeSpiMode::Mode0),
            1 => Ok(SensorBridgeSpiMode::Mode1),
            2 => Ok(SensorBridgeSpiMode::Mode2),
            3 => Ok(SensorBridgeSpiMode::Mode3),
            _ => Err(SensorBridgeError::InvalidSpiMode(val)),
        }
    }

    /// The number of the mode.
    pub fn to_u8(self) -> (r: u8)
        ensures
            r == spec_spi_mode_number(self),
    {
        match self {
            SensorBridgeSpiMode::Mode0 => 0,
            SensorBridgeSpiMode::Mode1 => 1,
            SensorBridgeSpiMode::Mode2 => 2,
            SensorBridgeSpiMode::Mode3 => 3,
        }
    }
}

/// Supported supply voltages in tenths of a volt (1.2 V to 5.5 V).
pub const SUPPORTED_VOLTAGES_DECIVOLTS: [i32; 12] = [12, 15, 18, 21, 24, 27, 30, 33, 36, 45, 50, 55];

/// The code of a supply voltage given in tenths of a volt:
/// 1.2 V -> 0x00, 1.8 V -> 0x01, 3.3 V -> 0x02, 5.0 V -> 0x03,
/// 1.5 V -> 0x04, 2.1 V -> 0x05, 2.4 V -> 0x06, 2.7 V -> 0x07,
/// 3.0 V -> 0x08, 3.6 V -> 0x09, 4.5 V -> 0x0A, 5.5 V -> 0x0B.
pub open spec fn spec_voltage_code(decivolts: int) -> Option<u8> {
    if decivolts == 12 {
        Some(0x00)
    } else if decivolts == 15 {
        Some(0x04)
    } else if decivolts == 18 {
        Some(0x01)
    } else if decivolts == 21 {
        Some(0x05)
    } else if decivolts == 24 {
        Some(0x06)
    } else if decivolts == 27 {
        Some(0x07)
    } else if decivolts == 30 {
        Some(0x08)
    } else if decivolts == 33 {
        Some(0x02)
    } else if decivolts == 36 {
        Some(0x09)
    } else if decivolts == 45 {
        Some(0x0A)
    } else if decivolts == 50 {
        Some(0x03)
    } else if decivolts == 55 {
        Some(0x0B)
    } else {
        None
    }
}

/// The supply voltage, in tenths of a volt, that a code stands for.
pub open spec fn spec_code_voltage(byte: u8) -> Option<i32> {
    if byte == 0x00 {
        Some(12)
    } else if byte == 0x01 {
        Some(18)
    } else if byte == 0x02 {
        Some(33)
    } else if byte == 0x03 {
        Some(50)
    } else if byte == 0x04 {
        Some(15)
    } else if byte == 0x05 {
        Some(21)
    } else if byte == 0x06 {
        Some(24)
    } else if byte == 0x07 {
        Some(27)
    } else if byte == 0x08 {
        Some(30)
    } else if byte == 0x09 {
        Some(36)
    } else if byte == 0x0A {
        Some(45)
    } else if byte == 0x0B {
        Some(55)
    } else {
        None
    }
}

/// Converts a supply voltage in tenths of a volt to its code; a voltage
/// without a code gives `InvalidVoltage(decivolts)`.
pub fn voltage_decivolts_to_byte(decivolts: i32) -> (r: Result<u8, SensorBridgeError>)
    ensures
        r is Ok <==> spec_voltage_code(decivolts as int) is Some,
        r matches Ok(b) ==> spec_voltage_code(decivolts as int) == Some(b),
        r matches Err(e) ==> e == SensorBridgeError::InvalidVoltage(decivolts),
        decivolts == 12 ==> r == Ok::<u8, SensorBridgeError>(0x00),
        decivolts == 18 ==> r == Ok::<u8, SensorBridgeError>(0x01),
        decivolts == 33 ==> r == Ok::<u8, SensorBridgeError>(0x02),
        decivolts == 50 ==> r == Ok::<u8, SensorBridgeError>(0x03),
        decivolts == 15 ==> r == Ok::<u8, SensorBridgeError>(0x04),
        decivolts == 21 ==> r == Ok::<u8, SensorBridgeError>(0x05),
        decivolts == 24 ==> r == Ok::<u8, SensorBridgeError>(0x06),
        decivolts == 27 ==> r == Ok::<u8, SensorBridgeError>(0x07),
        decivolts == 30 ==> r == Ok::<u8, SensorBridgeError>(0x08),
        decivolts == 36 ==> r == Ok::<u8, SensorBridgeError>(0x09),
        decivolts == 45 ==> r == Ok::<u8, SensorBridgeError>(0x0A),
        decivolts == 55 ==> r == Ok::<u8, SensorBridgeError>(0x0B),
{
    match decivolts {
        12 => Ok(0x00),
        15 => Ok(0x04),
        18 => Ok(0x01),
        21 => Ok(0x05),
        24 => Ok(0x06),
        27 => Ok(0x07),
        30 => Ok(0x08),
        33 => Ok(0x02),
        36 => Ok(0x09),
        45 => Ok(0x0A),
        50 => Ok(0x03),
        55 => Ok(0x0B),
        _ => Err(SensorBridgeError::InvalidVoltage(decivolts)),
    }
}

/// Converts a voltage code to the voltage in tenths of a volt; an unknown
/// code gives `InvalidVoltage` holding the code read as volts.
pub fn byte_to_voltage_decivolts(byte: u8) -> (r: Result<i32, SensorBridgeError>)
    ensures
        r is Ok <==> spec_code_voltage(byte) is Some,
        r matches Ok(v) ==> spec_code_voltage(byte) == Some(v),
        r matches Err(e) ==> e == SensorBridgeError::InvalidVoltage((byte * 10) as i32),
        byte == 0x00 ==> r == Ok::<i32, SensorBridgeError>(12),
        byte == 0x01 ==> r == Ok::<i32, SensorBridgeError>(18),
        byte == 0x02 ==> r == Ok::<i32, SensorBridgeError>(33),
        byte == 0x03 ==> r == Ok::<i32, SensorBridgeError>(50),
        byte == 0x04 ==> r == Ok::<i32, SensorBridgeError>(15),
        byte == 0x05 ==> r == Ok::<i32, SensorBridgeError>(21),
        byte == 0x06 ==> r == Ok::<i32, SensorBridgeError>(24),
        byte == 0x07 ==> r == Ok::<i32, SensorBridgeError>(27),
        byte == 0x08 ==> r == Ok::<i32, SensorBridgeError>(30),
        byte == 0x09 ==> r == Ok::<i32, SensorBridgeError>(36),
        byte == 0x0A ==> r == Ok::<i32, SensorBridgeError>(45),
        byte == 0x0B ==> r == Ok::<i32, SensorBridgeError>(55),
{
    match byte {
        0x00 => Ok(12),
        0x01 => Ok(18),
        0x02 => Ok(33),
        0x03 => Ok(50),
        0x04 => Ok(15),
        0x05 => Ok(21),
        0x06 => Ok(24),
        0x07 => Ok(27),
        0x08 => Ok(30),
        0x09 => Ok(36),
        0x0A => Ok(45),
        0x0B => Ok(55),
        _ => Err(SensorBridgeError::InvalidVoltage(byte as i32 * 10)),
    }
}

/// Supported I2C frequencies in Hz.
pub const SUPPORTED_I2C_FREQUENCIES: [u32; 6] = [10_000, 50_000, 100_000, 400_000, 1_000_000, 2_000_000];

/// The code of an I2C frequency.
pub open spec fn spec_i2c_frequency_code(frequency_hz: u32) -> Option<u8> {
    if frequency_hz == 100_000 {
        Some(0x00)
    } else if frequency_hz == 400_000 {
        Some(0x01)
    } else if frequency_hz == 1_000_000 {
        Some(0x02)
    } else if frequency_hz == 2_000_000 {
        Some(0x03)
    } else if frequency_hz == 10_000 {
        Some(0x04)
    } else if frequency_hz == 50_000 {
        Some(0x05)
    } else {
        None
    }
}

/// The I2C frequency that a code stands for.
pub open spec fn spec_code_i2c_frequency(byte: u8) -> Option<u32> {
    if byte == 0x00 {
        Some(100_000)
    } else if byte == 0x01 {
        Some(400_000)
    } else if byte == 0x02 {
        Some(1_000_000)
    } else if byte == 0x03 {
        Some(2_000_000)
    } else if byte == 0x04 {
        Some(10_000)
    } else if byte == 0x05 {
        Some(50_000)
    } else {
        None
    }
}

/// Converts an I2C frequency to its code; other frequencies give
/// `InvalidI2cFrequency(frequency_hz)`.
pub fn i2c_frequency_to_byte(frequency_hz: u32) -> (r: Result<u8, SensorBridgeError>)
    ensures
        r is Ok <==> spec_i2c_frequency_code(frequency_hz) is Some,
        r matches Ok(b) ==> spec_i2c_frequency_code(frequency_hz) == Some(b),
        r matches Err(e) ==> e == SensorBridgeError::InvalidI2cFrequency(frequency_hz),
        frequency_hz == 100000 ==> r == Ok::<u8, SensorBridgeError>(0x00),
        frequency_hz == 400000 ==> r == Ok::<u8, SensorBridgeError>(0x01),
        frequency_hz == 1000000 ==> r == Ok::<u8, SensorBridgeError>(0x02),
        frequency_hz == 2000000 ==> r == Ok::<u8, SensorBridgeError>(0x03),
        frequency_hz == 10000 ==> r == Ok::<u8, SensorBridgeError>(0x04),
        frequency_hz == 50000 ==> r == Ok::<u8, SensorBridgeError>(0x05),
{
    match frequency_hz {
        100_000 => Ok(0x00),
        400_000 => Ok(0x01),
        1_000_000 => Ok(0x02),
        2_000_000 => Ok(0x03),
        10_000 => Ok(0x04),
        50_000 => Ok(0x05),
        _ => Err(SensorBridgeError::InvalidI2cFrequency(frequency_hz)),
    }
}

/// Converts an I2C frequency code to the frequency; unknown codes give
/// `InvalidI2cFrequency(byte)`.
pub fn byte_to_i2c_frequency(byte: u8) -> (r: Result<u32, SensorBridgeError>)
    ensures
        r is Ok <==> spec_code_i2c_frequency(byte) is Some,
        r matches Ok(f) ==> spec_code_i2c_frequency(byte) == Some(f),
        r matches Err(e) ==> e == SensorBridgeError::InvalidI2cFrequency(byte as u32),
        byte == 0x00 ==> r == Ok::<u32, SensorBridgeError>(100000),
        byte == 0x01 ==> r == Ok::<u32, SensorBridgeError>(400000),
        byte == 0x02 ==> r == Ok::<u32, SensorBridgeError>(1000000),
        byte == 0x03 ==> r == Ok::<u32, SensorBridgeError>(2000000),
        byte == 0x04 ==> r == Ok::<u32, SensorBridgeError>(10000),
        byte == 0x05 ==> r == Ok::<u32, SensorBridgeError>(50000),
{
    match byte {
        0x00 => Ok(100_000),
        0x01 => Ok(400_000),
        0x02 => Ok(1_000_000),
        0x03 => Ok(2_000_000),
        0x04 => Ok(10_000),
        0x05 => Ok(50_000),
        _ => Err(SensorBridgeError::InvalidI2cFrequency(byte as u32)),
    }
}

/// Supported SPI frequencies in Hz.
pub const SUPPORTED_SPI_FREQUENCIES: [u32; 6] = [330_000, 600_000, 1_000_000, 5_000_000, 10_000_000, 21_000_000];

/// The code of an SPI frequency.
pub open spec fn spec_spi_frequency_code(frequency_hz: u32) -> Option<u8> {
    if frequency_hz == 330_000 {
        Some(0x00)
    } else if frequency_hz == 600_000 {
        Some(0x01)
    } else if frequency_hz == 1_000_000 {
        Some(0x02)
    } else if frequency_hz == 5_000_000 {
        Some(0x03)
    } else if frequency_hz == 10_000_000 {
        Some(0x04)
    } else if frequency_hz == 21_000_000 {
        Some(0x05)
    } else {
        None
    }
}

/// The SPI frequency that a code stands for.
pub open spec fn spec_code_spi_frequency(byte: u8) -> Option<u32> {
    if byte == 0x00 {
        Some(330_000)
    } else if byte == 0x01 {
        Some(600_000)
    } else if byte == 0x02 {
        Some(1_000_000)
    } else if byte == 0x03 {
        Some(5_000_000)
    } else if byte == 0x04 {
        Some(10_000_000)
    } else if byte == 0x05 {
        Some(21_000_000)
    } else {
        None
    }
}

/// Converts an SPI frequency to its code; other frequencies give
/// `InvalidSpiFrequency(frequency_hz)`.
pub fn spi_frequency_to_byte(frequency_hz: u32) -> (r: Result<u8, SensorBridgeError>)
    ensures
        r is Ok <==> spec_spi_frequency_code(frequency_hz) is Some,
        r matches Ok(b) ==> spec_spi_frequency_code(frequency_hz) == Some(b),
        r matches Err(e) ==> e == SensorBridgeError::InvalidSpiFrequency(frequency_hz),
        frequency_hz == 330000 ==> r == Ok::<u8, SensorBridgeError>(0x00),
        frequency_hz == 600000 ==> r == Ok::<u8, SensorBridgeError>(0x01),
        frequency_hz == 1000000 ==> r == Ok::<u8, SensorBridgeError>(0x02),
        frequency_hz == 5000000 ==> r == Ok::<u8, SensorBridgeError>(0x03),
        frequency_hz == 10000000 ==> r == Ok::<u8, SensorBridgeError>(0x04),
        frequency_hz == 21000000 ==> r == Ok::<u8, SensorBridgeError>(0x05),
{
    match frequency_hz {
        330_000 => Ok(0x00),
        600_000 => Ok(0x01),
        1_000_000 => Ok(0x02),
        5_000_000 => Ok(0x03),
        10_000_000 => Ok(0x04),
        21_000_000 => Ok(0x05),
        _ => Err(SensorBridgeError::InvalidSpiFrequency(frequency_hz)),
    }
}

/// Converts an SPI frequency code to the frequency; unknown codes give
/// `InvalidSpiFrequency(byte)`.
pub fn byte_to_spi_frequency(byte: u8) -> (r: Result<u32, SensorBridgeError>)
    ensures
        r is Ok <==> spec_code_spi_frequency(byte) is Some,
        r matches Ok(f) ==> spec_code_spi_frequency(byte) == Some(f),
        r matches Err(e) ==> e == SensorBridgeError::InvalidSpiFrequency(byte as u32),
        byte == 0x00 ==> r == Ok::<u32, SensorBridgeError>(330000),
        byte == 0x01 ==> r == Ok::<u32, SensorBridgeError>(600000),
        byte == 0x02 ==> r == Ok::<u32, SensorBridgeError>(1000000),
        byte == 0x03 ==> r == Ok::<u32, SensorBridgeError>(5000000),
        byte == 0x04 ==> r == Ok::<u32, SensorBridgeError>(10000000),
        byte == 0x05 ==> r == Ok::<u32, SensorBridgeError>(21000000),
{
    match byte {
        0x00 => Ok(330_000),
        0x01 => Ok(600_000),
        0x02 => Ok(1_000_000),
        0x03 => Ok(5_000_000),
        0x04 => Ok(10_000_000),
        0x05 => Ok(21_000_000),
        _ => Err(SensorBridgeError::InvalidSpiFrequency(byte as u32)),
    }
}

// ---------------------------------------------------------------------------
// Laws of the code tables
// ---------------------------------------------------------------------------

/// A port converted to its byte and back is the same port, and a byte that
/// names a port converts back to the same byte.
pub proof fn lemma_port_byte_roundtrip(port: SensorBridgePort, byte: u8)
    ensures
        spec_byte_port(spec_port_byte(port)) == Some(port),
        spec_byte_port(byte) matches Some(p) ==> spec_port_byte(p) == byte,
{
}

/// SPI modes and the numbers 0..=3 correspond one to one: a mode converted
/// to its number and back is the same mode.
pub proof fn lemma_spi_mode_roundtrip(mode: SensorBridgeSpiMode, other: SensorBridgeSpiMode, val: u8)
    ensures
        spec_spi_mode_number(mode) <= 3,
        spec_spi_mode_number(mode) == spec_spi_mode_number(other) ==> mode == other,
        val <= 3 ==> exists|m: SensorBridgeSpiMode| spec_spi_mode_number(m) == val,
{
    if val == 0 {
        assert(spec_spi_mode_number(SensorBridgeSpiMode::Mode0) == val);
    } else if val == 1 {
        assert(spec_spi_mode_number(SensorBridgeSpiMode::Mode1) == val);
    } else if val == 2 {
        assert(spec_spi_mode_number(SensorBridgeSpiMode::Mode2) == val);
    } else if val == 3 {
        assert(spec_spi_mode_number(SensorBridgeSpiMode::Mode3) == val);
    }
}

/// The voltage code table is a bijection between the supported voltages and
/// the codes 0x00..=0x0B, and a voltage has a code exactly when it is one of
/// `SUPPORTED_VOLTAGES_DECIVOLTS`.
pub proof fn lemma_voltage_code_roundtrip(decivolts: int, byte: u8)
    ensures
        spec_voltage_code(decivolts) matches Some(b) ==> spec_code_voltage(b) == Some(
            decivolts as i32,
        ),
        spec_code_voltage(byte) matches Some(v) ==> spec_voltage_code(v as int) == Some(byte),
        spec_code_voltage(byte) is Some <==> byte <= 0x0B,
        spec_voltage_code(decivolts) is Some <==> exists|i: int|
            0 <= i < 12 && SUPPORTED_VOLTAGES_DECIVOLTS@[i] == decivolts,
{
    let s = SUPPORTED_VOLTAGES_DECIVOLTS@;
    assert(s[0] == 12 && s[1] == 15 && s[2] == 18 && s[3] == 21 && s[4] == 24 && s[5] == 27);
    assert(s[6] == 30 && s[7] == 33 && s[8] == 36 && s[9] == 45 && s[10] == 50 && s[11] == 55);
    if spec_voltage_code(decivolts) is Some {
        let i: int = if decivolts == 12 {
            0
        } else if decivolts == 15 {
            1
        } else if decivolts == 18 {
            2
        } else if decivolts == 21 {
            3
        } else if decivolts == 24 {
            4
        } else if decivolts == 27 {
            5
        } else if decivolts == 30 {
            6
        } else if decivolts == 33 {
            7
        } else if decivolts == 36 {
            8
        } else if decivolts == 45 {
            9
        } else if decivolts == 50 {
            10
        } else {
            11
        };
        assert(s[i] == decivolts);
    }
}

/// The I2C frequency code table is a bijection between
/// `SUPPORTED_I2C_FREQUENCIES` and the codes 0x00..=0x05.
pub proof fn lemma_i2c_frequency_roundtrip(frequency_hz: u32, byte: u8)
    ensures
        spec_i2c_frequency_code(frequency_hz) matches Some(b) ==> spec_code_i2c_frequency(b)
            == Some(frequency_hz),
        spec_code_i2c_frequency(byte) matches Some(f) ==> spec_i2c_frequency_code(f) == Some(
            byte,
        ),
        spec_code_i2c_frequency(byte) is Some <==> byte <= 0x05,
        spec_i2c_frequency_code(frequency_hz) is Some <==> SUPPORTED_I2C_FREQUENCIES@.contains(
            frequency_hz,
        ),
{
    let s = SUPPORTED_I2C_FREQUENCIES@;
    assert(s[0] == 10_000 && s[1] == 50_000 && s[2] == 100_000);
    assert(s[3] == 400_000 && s[4] == 1_000_000 && s[5] == 2_000_000);
    if s.contains(frequency_hz) {
        let i = choose|i: int| 0 <= i < s.len() && s[i] == frequency_hz;
        assert(0 <= i < 6);
    }
    if spec_i2c_frequency_code(frequency_hz) is Some {
        let i: int = if frequency_hz == 10_000 {
            0
        } else if frequency_hz == 50_000 {
            1
        } else if frequency_hz == 100_000 {
            2
        } else if frequency_hz == 400_000 {
            3
        } else if frequency_hz == 1_000_000 {
            4
        } else {
            5
        };
        assert(s[i] == frequency_hz);
    }
}

/// The SPI frequency code table is a bijection between
/// `SUPPORTED_SPI_FREQUENCIES` and the codes 0x00..=0x05.
pub proof fn lemma_spi_frequency_roundtrip(frequency_hz: u32, byte: u8)
    ensures
        spec_spi_frequency_code(frequency_hz) matches Some(b) ==> spec_code_spi_frequency(b)
            == Some(frequency_hz),
        spec_code_spi_frequency(byte) matches Some(f) ==> spec_spi_frequency_code(f) == Some(
            byte,
        ),
        spec_code_spi_frequency(byte) is Some <==> byte <= 0x05,
        spec_spi_frequency_code(frequency_hz) is Some <==> SUPPORTED_SPI_FREQUENCIES@.contains(
            frequency_hz,
        ),
{
    let s = SUPPORTED_SPI_FREQUENCIES@;
    assert(s[0] == 330_000 && s[1] == 600_000 && s[2] == 1_000_000);
    assert(s[3] == 5_000_000 && s[4] == 10_000_000 && s[5] == 21_000_000);
    if s.contains(frequency_hz) {
        let i = choose|i: int| 0 <= i < s.len() && s[i] == frequency_hz;
        assert(0 <= i < 6);
    }
    if spec_spi_frequency_code(frequency_hz) is Some {
        let i: int = if frequency_hz == 330_000 {
            0
        } else if frequency_hz == 600_000 {
            1
        } else if frequency_hz == 1_000_000 {
            2
        } else if frequency_hz == 5_000_000 {
            3
        } else if frequency_hz == 10_000_000 {
            4
        } else {
            5
        };
        assert(s[i] == frequency_hz);
    }
}

/// The device's fixed voltage codes: 1.2 V is 0x00, 1.8 V is 0x01, 3.3 V is
/// 0x02, 5.0 V is 0x03, 1.5 V is 0x04, 2.1 V is 0x05, 2.4 V is 0x06, 2.7 V is
/// 0x07, 3.0 V is 0x08, 3.6 V is 0x09, 4.5 V is 0x0A and 5.5 V is 0x0B, in
/// both directions.
pub proof fn lemma_voltage_code_table()
    ensures
        spec_voltage_code(12) == Some(0x00u8),
        spec_voltage_code(18) == Some(0x01u8),
        spec_voltage_code(33) == Some(0x02u8),
        spec_voltage_code(50) == Some(0x03u8),
        spec_voltage_code(15) == Some(0x04u8),
        spec_voltage_code(21) == Some(0x05u8),
        spec_voltage_code(24) == Some(0x06u8),
        spec_voltage_code(27) == Some(0x07u8),
        spec_voltage_code(30) == Some(0x08u8),
        spec_voltage_code(36) == Some(0x09u8),
        spec_voltage_code(45) == Some(0x0Au8),
        spec_voltage_code(55) == Some(0x0Bu8),
        spec_code_voltage(0x00) == Some(12i32),
        spec_code_voltage(0x01) == Some(18i32),
        spec_code_voltage(0x02) == Some(33i32),
        spec_code_voltage(0x03) == Some(50i32),
        spec_code_voltage(0x04) == Some(15i32),
        spec_code_voltage(0x05) == Some(21i32),
        spec_code_voltage(0x06) == Some(24i32),
        spec_code_voltage(0x07) == Some(27i32),
        spec_code_voltage(0x08) == Some(30i32),
        spec_code_voltage(0x09) == Some(36i32),
        spec_code_voltage(0x0A) == Some(45i32),
        spec_code_voltage(0x0B) == Some(55i32),
{
}

/// The device's fixed I2C frequency codes: 100 kHz is 0x00, 400 kHz is 0x01,
/// 1 MHz is 0x02, 2 MHz is 0x03, 10 kHz is 0x04 and 50 kHz is 0x05, in both
/// directions.
pub proof fn lemma_i2c_frequency_code_table()
    ensures
        spec_i2c_frequency_code(100000) == Some(0x00u8),
        spec_i2c_frequency_code(400000) == Some(0x01u8),
        spec_i2c_frequency_code(1000000) == Some(0x02u8),
        spec_i2c_frequency_code(2000000) == Some(0x03u8),
        spec_i2c_frequency_code(10000) == Some(0x04u8),
        spec_i2c_frequency_code(50000) == Some(0x05u8),
        spec_code_i2c_frequency(0x00) == Some(100000u32),
        spec_code_i2c_frequency(0x01) == Some(400000u32),
        spec_code_i2c_frequency(0x02) == Some(1000000u32),
        spec_code_i2c_frequency(0x03) == Some(2000000u32),
        spec_code_i2c_frequency(0x04) == Some(10000u32),
        spec_code_i2c_frequency(0x05) == Some(50000u32),
{
}

/// The device's fixed SPI frequency codes: 330 kHz is 0x00, 600 kHz is 0x01,
/// 1 MHz is 0x02, 5 MHz is 0x03, 10 MHz is 0x04 and 21 MHz is 0x05, in both
/// directions.
pub proof fn lemma_spi_frequency_code_table()
    ensures
        spec_spi_frequency_code(330000) == Some(0x00u8),
        spec_spi_frequency_code(600000) == Some(0x01u8),
        spec_spi_frequency_code(1000000) == Some(0x02u8),
        spec_spi_frequency_code(5000000) == Some(0x03u8),
        spec_spi_frequency_code(10000000) == Some(0x04u8),
        spec_spi_frequency_code(21000000) == Some(0x05u8),
        spec_code_spi_frequency(0x00) == Some(330000u32),
        spec_code_spi_frequency(0x01) == Some(600000u32),
        spec_code_spi_frequency(0x02) == Some(1000000u32),
        spec_code_spi_frequency(0x03) == Some(5000000u32),
        spec_code_spi_frequency(0x04) == Some(10000000u32),
        spec_code_spi_frequency(0x05) == Some(21000000u32),
{
}

/// The device's fixed port bytes: port 1 is 0x00, port 2 is 0x01 and all
/// ports are 0xFF, in both directions.
pub proof fn lemma_port_byte_table()
    ensures
        spec_port_byte(SensorBridgePort::One) == 0x00u8,
        spec_port_byte(SensorBridgePort::Two) == 0x01u8,
        spec_port_byte(SensorBridgePort::All) == 0xFFu8,
        spec_byte_port(0x00) == Some(SensorBridgePort::One),
        spec_byte_port(0x01) == Some(SensorBridgePort::Two),
        spec_byte_port(0xFF) == Some(SensorBridgePort::All),
{
}

} // verus!
