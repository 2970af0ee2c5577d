//! SHDLC command 0x80: analog measurement at the AIN pin of a port.
use crate::protocol::errors::ShdlcFault;
use crate::protocol::wire::{le_u32_first, spec_le_u32_value};
use vstd::prelude::*;
use vstd::string::StringExecFns;

verus! {

/// The error for an analog measurement response of fewer than four bytes.
pub open spec fn spec_short_analog_response(e: ShdlcFault, data: Seq<u8>) -> bool {
    &&& e matches ShdlcFault::ResponseError { message, raw_data }
    &&& message@ == "Invalid length for analog measurement response"@
    &&& raw_data matches Some(raw)
    &&& raw@ == data
}

/// SHDLC command 0x80: Analog Measurement.
#[derive(Debug, Clone, Copy)]
pub struct AnalogMeasurement {
    pub port: u8,
}

impl AnalogMeasurement {
    pub fn new(port: u8) -> (c: Self)
        ensures
            c.port == port,
    {
        Self { port }
    }

    pub fn id(&self) -> (id: u8)
        ensures
            id == 0x80,
    {
        0x80
    }

    /// The port byte.
    pub fn data(&self) -> (d: Vec<u8>)
        ensures
            d@ == seq![self.port],
    {
        vec![self.port]
    }

    /// Longest time the device may take to answer, in milliseconds.
    pub fn max_response_time_ms(&self) -> (t: u64)
        ensures
            t == 100,
    {
        100
    }

    pub fn min_response_length(&self) -> (n: usize)
        ensures
            n == 4,
    {
        4
    }

    pub fn max_response_length(&self) -> (n: usize)
        ensures
            n == 4,
    {
        4
    }

    /// The measured voltage as the bits of an IEEE-754 single-precision
    /// number, sent least significant byte first; fewer than four bytes give
    /// a `ResponseError` that carries the data.
    pub fn interpret_response(&self, data: &[u8]) -> (r: Result<u32, ShdlcFault>)
        ensures
            r is Ok <==> data@.len() >= 4,
            r matches Ok(bits) ==> bits == spec_le_u32_value(data@),
            r matches Err(e) ==> spec_short_analog_response(e, data@),
    {
        if data.len() < 4 {
            return Err(
                ShdlcFault::ResponseError {
                    message: String::from_str("Invalid length for analog measurement response"),
                    raw_data: Some(vstd::slice::slice_to_vec(data)),
                },
            );
        }
        Ok(le_u32_first(data))
    }
}

} // verus!
