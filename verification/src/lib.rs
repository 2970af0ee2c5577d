//! Driver logic for the Sensirion SEK-SensorBridge: port and frequency
//! codes, SHDLC command encoding and response decoding, and the decisions
//! that the device drivers take between two SHDLC transfers.
use vstd::prelude::*;

pub mod device;
pub mod protocol;

verus! {

} // verus!
