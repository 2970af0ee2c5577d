//! SHDLC command 0x70: blink the LEDs of a port.
use crate::protocol::errors::ShdlcFault;
use vstd::prelude::*;

verus! {

/// SHDLC command 0x70: Blink.
#[derive(Debug, Clone, Copy)]
pub struct Blink {
    pub port: u8,
}

impl Blink {
    pub fn new(port: u8) -> (c: Self)
        ensures
            c.port == port,
    {
        Self { port }
    }

    pub fn id(&self) -> (id: u8)
        ensures
            id == 0x70,
    {
        0x70
    }

    /// The port byte.
    pub fn data(&self) -> (d: Vec<u8>)
        ensures
            d@ == seq![self.port],
    {
        vec![self.port]
    }

    /// Longest time the device may take to answer, in milliseconds.
    pub fn max_response_time_ms(&self) -> (t: u64)
        ensures
            t == 1000,
    {
        1000
    }

    pub fn min_response_length(&self) -> (n: usize)
        ensures
            n == 0,
    {
        0
    }

    pub fn max_response_length(&self) -> (n: usize)
        ensures
            n == 0,
    {
        0
    }

    /// The response carries no value.
    pub fn interpret_response(&self, _data: &[u8]) -> (r: Result<(), ShdlcFault>)
        ensures
            r is Ok,
    {
        Ok(())
    }
}

} // verus!
