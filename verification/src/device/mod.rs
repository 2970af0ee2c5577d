//! Decisions of the SensorBridge device drivers: which command each
//! operation sends, how a long I2C transceive is split over several SHDLC
//! frames, how the buffer of a repeated transceive is read, and what an I2C
//! proxy reports. The transfers themselves are made by the caller.
use vstd::prelude::*;

pub mod buffer;
pub mod i2c_proxy;
pub mod requests;
pub mod transceive;

pub use buffer::BufferReadSession;
pub use i2c_proxy::{
    I2cProxyResult, I2C_STATUS_CHANNEL_DISABLED, I2C_STATUS_NACK, I2C_STATUS_OK,
    I2C_STATUS_TIMEOUT, I2C_STATUS_UNSPECIFIED_ERROR,
};
pub use transceive::{I2cTransceiveSession, I2cTransceiveStep};

verus! {

} // verus!
