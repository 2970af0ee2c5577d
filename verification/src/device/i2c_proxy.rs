//! What an I2C proxy on one SensorBridge port reports for a transceive:
//! a status code, an error text, and the received bytes.
use crate::protocol::definitions::SensorBridgePort;
use crate::protocol::errors::{SensorBridgeError, ShdlcFault};
use vstd::prelude::*;
use vstd::string::StringExecFns;

verus! {

/// Status of a successful transceive.
pub const I2C_STATUS_OK: u8 = 0;

/// Status of a transceive on a disabled channel.
pub const I2C_STATUS_CHANNEL_DISABLED: u8 = 1;

/// Status of a transceive that the slave did not acknowledge.
pub const I2C_STATUS_NACK: u8 = 2;

/// Status of a transceive that timed out.
pub const I2C_STATUS_TIMEOUT: u8 = 3;

/// Status of a transceive that failed otherwise.
pub const I2C_STATUS_UNSPECIFIED_ERROR: u8 = 4;

/// Version of the I2C proxy interface.
pub const I2C_PROXY_API_VERSION: u32 = 1;

/// Result of an I2C transceive through a proxy.
#[derive(Debug, Clone)]
pub struct I2cProxyResult {
    pub status: u8,
    pub error: Option<String>,
    pub rx_data: Vec<u8>,
}

/// The status that a proxy reports for a failed transceive: NACK for a
/// missing acknowledge (I2C status or device error 0x29), TIMEOUT for a
/// timeout (I2C status or device error 0x2B), UNSPECIFIED_ERROR otherwise.
pub open spec fn spec_proxy_error_status(e: SensorBridgeError) -> u8 {
    match e {
        SensorBridgeError::I2cNack => I2C_STATUS_NACK,
        SensorBridgeError::Shdlc(ShdlcFault::DeviceError { code, .. }) if code == 0x29 =>
            I2C_STATUS_NACK,
        SensorBridgeError::I2cTimeout => I2C_STATUS_TIMEOUT,
        SensorBridgeError::Shdlc(ShdlcFault::DeviceError { code, .. }) if code == 0x2B =>
            I2C_STATUS_TIMEOUT,
        _ => I2C_STATUS_UNSPECIFIED_ERROR,
    }
}

/// The status that a proxy reports for a failed transceive.
pub fn proxy_error_status(e: &SensorBridgeError) -> (s: u8)
    ensures
        s == spec_proxy_error_status(*e),
{
    match e {
        SensorBridgeError::I2cNack => I2C_STATUS_NACK,
        SensorBridgeError::Shdlc(ShdlcFault::DeviceError { code, .. }) if *code == 0x29 => {
            I2C_STATUS_NACK
        },
        SensorBridgeError::I2cTimeout => I2C_STATUS_TIMEOUT,
        SensorBridgeError::Shdlc(ShdlcFault::DeviceError { code, .. }) if *code == 0x2B => {
            I2C_STATUS_TIMEOUT
        },
        _ => I2C_STATUS_UNSPECIFIED_ERROR,
    }
}

/// A proxy serves one port: `All` is refused with `InvalidPort(0xFF)`.
pub fn proxy_port(port: SensorBridgePort) -> (r: Result<SensorBridgePort, SensorBridgeError>)
    ensures
        r is Ok <==> port != SensorBridgePort::All,
        r matches Ok(p) ==> p == port,
        r matches Err(e) ==> e == SensorBridgeError::InvalidPort(0xFF),
{
    if port == SensorBridgePort::All {
        return Err(SensorBridgeError::InvalidPort(0xFF));
    }
    Ok(port)
}

impl I2cProxyResult {
    /// The proxy result of a device transceive: the received bytes with
    /// status OK on success; on failure no bytes, the status of the error,
    /// and the text "I2C slave NACK", "I2C operation timeout", or
    /// `error_text` (the text of the error itself) for other errors.
    pub fn from_transceive(result: Result<Vec<u8>, SensorBridgeError>, error_text: String) -> (r:
        Self)
        ensures
            result matches Ok(rx) ==> r.status == I2C_STATUS_OK && r.error is None && r.rx_data@
                == rx@,
            result matches Err(e) ==> {
                &&& r.status == spec_proxy_error_status(e)
                &&& r.rx_data@.len() == 0
                &&& r.error matches Some(t)
                &&& t@ == (if r.status == I2C_STATUS_NACK {
                    "I2C slave NACK"@
                } else if r.status == I2C_STATUS_TIMEOUT {
                    "I2C operation timeout"@
                } else {
                    error_text@
                })
            },
    {
        match result {
            Ok(rx_data) => I2cProxyResult { status: I2C_STATUS_OK, error: None, rx_data },
            Err(e) => {
                let status = proxy_error_status(&e);
                let text = if status == I2C_STATUS_NACK {
                    String::from_str("I2C slave NACK")
                } else if status == I2C_STATUS_TIMEOUT {
                    String::from_str("I2C operation timeout")
                } else {
                    error_text
                };
                I2cProxyResult { status, error: Some(text), rx_data: Vec::new() }
            },
        }
    }
}

} // verus!
