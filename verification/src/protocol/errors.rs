//! Error values of the SensorBridge driver and the table of device error
//! codes that the SensorBridge adds to the SHDLC protocol.
use std::collections::HashMap;
use vstd::prelude::*;
use vstd::string::StringExecFns;

verus! {

/// An SHDLC failure, held as plain values: transport faults, malformed
/// responses, and error states reported by the device.
#[derive(Debug, Clone, PartialEq, Eq)]
pub enum ShdlcFault {
    /// No response arrived in time.
    Timeout,
    /// The device answered with data that does not fit the command.
    ResponseError { message: String, raw_data: Option<Vec<u8>> },
    /// The device reported an error state.
    DeviceError { code: u8, message: String },
    /// A firmware image carries the wrong signature.
    FirmwareImageSignatureError(Vec<u8>),
    /// A firmware image is meant for another product.
    FirmwareImageIncompatibilityError { expected: u32, actual: u32 },
    /// The transport failed.
    Transport(String),
    /// An I/O operation failed.
    Io(String),
    /// The port could not be configured.
    PortError(String),
    /// Any other failure.
    Other(String),
}

/// Error values of SensorBridge operations.
#[derive(Debug, Clone)]
pub enum SensorBridgeError {
    /// A failure of the underlying SHDLC exchange.
    Shdlc(ShdlcFault),
    /// A port byte or port that the operation does not accept.
    InvalidPort(u8),
    /// A supply voltage, in tenths of a volt, that has no code.
    InvalidVoltage(i32),
    /// An I2C frequency in Hz that has no code.
    InvalidI2cFrequency(u32),
    /// An SPI frequency in Hz that has no code.
    InvalidSpiFrequency(u32),
    /// An SPI mode number outside 0..=3.
    InvalidSpiMode(u8),
    /// The I2C slave did not acknowledge.
    I2cNack,
    /// The I2C operation timed out.
    I2cTimeout,
    /// The I2C frequency, interval, timeout or delay is invalid.
    I2cTiming,
    /// Any other I2C status code.
    I2cGeneric { code: u8, message: String },
    /// The device answered with data that cannot be interpreted.
    InvalidResponse(String),
    /// Buffered data whose length is not a multiple of the packet length.
    BufferLengthMismatch { expected: usize, actual: usize },
}

/// The sixteen lower-case hexadecimal digits.
pub open spec fn hex_digits() -> Seq<char> {
    seq!['0', '1', '2', '3', '4', '5', '6', '7', '8', '9', 'a', 'b', 'c', 'd', 'e', 'f']
}

/// A byte written as `0x` and two lower-case hexadecimal digits.
pub open spec fn spec_hex_byte(b: u8) -> Seq<char> {
    seq!['0', 'x', hex_digits()[(b / 16) as int], hex_digits()[(b % 16) as int]]
}

/// The text of an I2C status code that has no variant of its own.
pub open spec fn spec_i2c_status_message(code: u8) -> Seq<char> {
    "I2C error code "@ + spec_hex_byte(code)
}

/// The error that an I2C status code stands for; status 0 is success.
pub open spec fn spec_i2c_status_error(code: u8, e: SensorBridgeError) -> bool {
    match e {
        SensorBridgeError::I2cNack => code == 0x01,
        SensorBridgeError::I2cTimeout => code == 0x02,
        SensorBridgeError::I2cTiming => code == 0x03,
        SensorBridgeError::I2cGeneric { code: c, message } => code > 0x03 && c == code
            && message@ == spec_i2c_status_message(code),
        _ => false,
    }
}

/// One hexadecimal digit as a one-character string.
fn hex_digit_str(n: u8) -> (s: &'static str)
    requires
        n < 16,
    ensures
        s@ == seq![hex_digits()[n as int]],
{
    match n {
        0 => { proof { reveal_strlit("0"); } "0" },
        1 => { proof { reveal_strlit("1"); } "1" },
        2 => { proof { reveal_strlit("2"); } "2" },
        3 => { proof { reveal_strlit("3"); } "3" },
        4 => { proof { reveal_strlit("4"); } "4" },
        5 => { proof { reveal_strlit("5"); } "5" },
        6 => { proof { reveal_strlit("6"); } "6" },
        7 => { proof { reveal_strlit("7"); } "7" },
        8 => { proof { reveal_strlit("8"); } "8" },
        9 => { proof { reveal_strlit("9"); } "9" },
        10 => { proof { reveal_strlit("a"); } "a" },
        11 => { proof { reveal_strlit("b"); } "b" },
        12 => { proof { reveal_strlit("c"); } "c" },
        13 => { proof { reveal_strlit("d"); } "d" },
        14 => { proof { reveal_strlit("e"); } "e" },
        _ => { proof { reveal_strlit("f"); } "f" },
    }
}

/// Writes a byte as `0x` followed by two lower-case hexadecimal digits.
pub fn hex_byte_string(b: u8) -> (s: String)
    ensures
        s@ == spec_hex_byte(b),
{
    let mut s = String::from_str("0x");
    proof { reveal_strlit("0x"); }
    s.append(hex_digit_str(b / 16));
    s.append(hex_digit_str(b % 16));
    assert(s@ =~= spec_hex_byte(b));
    s
}

impl SensorBridgeError {
    /// Maps an I2C status code to an error: `None` for 0x00, `I2cNack`,
    /// `I2cTimeout`, `I2cTiming` for 0x01..=0x03, `I2cGeneric` otherwise.
    pub fn from_i2c_status(code: u8) -> (r: Option<Self>)
        ensures
            r is None <==> code == 0,
            r matches Some(e) ==> spec_i2c_status_error(code, e),
    {
        match code {
            0x00 => None,
            0x01 => Some(SensorBridgeError::I2cNack),
            0x02 => Some(SensorBridgeError::I2cTimeout),
            0x03 => Some(SensorBridgeError::I2cTiming),
            other => {
                let mut message = String::from_str("I2C error code ");
                message.append(hex_byte_string(other).as_str());
                Some(SensorBridgeError::I2cGeneric { code: other, message })
            },
        }
    }
}

/// The device error codes that the SensorBridge defines, with their texts.
pub open spec fn spec_device_error_text(code: u8) -> Option<Seq<char>> {
    if code == 0x20 {
        Some("The command is not supported by the device."@)
    } else if code == 0x21 {
        Some("Too many repeated transceive operations are already running."@)
    } else if code == 0x22 {
        Some("The received command contained a wrong checksum."@)
    } else if code == 0x26 {
        Some("The received command had a different size than specified in the size field."@)
    } else if code == 0x29 {
        Some("An I2C slave did not acknowledge the sent data."@)
    } else if code == 0x2B {
        Some("An I2C operation timed out."@)
    } else if code == 0x7F {
        Some("An unknown error occurred."@)
    } else {
        None
    }
}

/// Returns the SensorBridge device error codes and their messages, for
/// registration with an SHDLC device.
pub fn sensorbridge_device_error_map() -> (m: HashMap<u8, String>)
    ensures
        forall|code: u8|
            #![trigger m@.contains_key(code)]
            (m@.contains_key(code) <==> spec_device_error_text(code) is Some),
        forall|code: u8|
            #![trigger m@[code]]
            m@.contains_key(code) ==> m@[code]@ == spec_device_error_text(code)->0,
{
    broadcast use vstd::std_specs::hash::group_hash_axioms;

    let mut m: HashMap<u8, String> = HashMap::new();
    m.insert(0x20, String::from_str("The command is not supported by the device."));
    m.insert(
        0x21,
        String::from_str("Too many repeated transceive operations are already running."),
    );
    m.insert(0x22, String::from_str("The received command contained a wrong checksum."));
    m.insert(
        0x26,
        String::from_str(
            "The received command had a different size than specified in the size field.",
        ),
    );
    m.insert(0x29, String::from_str("An I2C slave did not acknowledge the sent data."));
    m.insert(0x2B, String::from_str("An I2C operation timed out."));
    m.insert(0x7F, String::from_str("An unknown error occurred."));
    m
}

} // verus!
