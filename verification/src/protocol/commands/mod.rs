//! SensorBridge-specific SHDLC commands: their identifiers, the data they
//! send, the response lengths and times they allow, and how their
//! responses are read.
use vstd::prelude::*;

pub mod analog;
pub mod blink;
pub mod i2c;
pub mod port_voltage;
pub mod spi;

pub use analog::AnalogMeasurement;
pub use blink::Blink;
pub use i2c::{
    FirstTransceive, I2cRepeatedTransceive, I2cScan, ReadBuffer, SetI2cFrequency, MAX_TX_LEN_PER_FRAME,
    StopRepeatedTransceive, SubsequentTransceive,
};
pub use port_voltage::{PortVoltageOnOff, SetPortVoltage};
pub use spi::{SpiConfig, SpiTransceive};

verus! {

} // verus!
