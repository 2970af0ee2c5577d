//! SHDLC commands 0x00 and 0x01: supply voltage of a port.
use crate::protocol::errors::ShdlcFault;
use vstd::prelude::*;

verus! {

/// SHDLC command 0x00: Set Port Voltage.
#[derive(Debug, Clone, Copy)]
pub struct SetPortVoltage {
    pub port: u8,
    pub voltage: u8,
}

impl SetPortVoltage {
    pub fn new(port: u8, voltage: u8) -> (c: Self)
        ensures
            c.port == port,
            c.voltage == voltage,
    {
        Self { port, voltage }
    }

    pub fn id(&self) -> (id: u8)
        ensures
            id == 0x00,
    {
        0x00
    }

    /// The port byte, then the voltage code.
    pub fn data(&self) -> (d: Vec<u8>)
        ensures
            d@ == seq![self.port, self.voltage],
    {
        vec![self.port, self.voltage]
    }

    /// Longest time the device may take to answer, in milliseconds.
    pub fn max_response_time_ms(&self) -> (t: u64)
        ensures
            t == 50,
    {
        50
    }

    pub fn min_response_length(&self) -> (n: usize)
        ensures
            n == 0,
    {
        0
    }

    pub fn max_response_length(&self) -> (n: usize)
        ensures
            n == 0,
    {
        0
    }

    /// The response carries no value.
    pub fn interpret_response(&self, _data: &[u8]) -> (r: Result<(), ShdlcFault>)
        ensures
            r is Ok,
    {
        Ok(())
    }
}

/// SHDLC command 0x01: Port Voltage On/Off.
#[derive(Debug, Clone, Copy)]
pub struct PortVoltageOnOff {
    pub port: u8,
    pub state: u8,
}

impl PortVoltageOnOff {
    pub fn new(port: u8, state: u8) -> (c: Self)
        ensures
            c.port == port,
            c.state == state,
    {
        Self { port, state }
    }

    pub fn id(&self) -> (id: u8)
        ensures
            id == 0x01,
    {
        0x01
    }

    /// The port byte, then the state (1 on, 0 off).
    pub fn data(&self) -> (d: Vec<u8>)
        ensures
            d@ == seq![self.port, self.state],
    {
        vec![self.port, self.state]
    }

    /// Longest time the device may take to answer, in milliseconds.
    pub fn max_response_time_ms(&self) -> (t: u64)
        ensures
            t == 50,
    {
        50
    }

    pub fn min_response_length(&self) -> (n: usize)
        ensures
            n == 0,
    {
        0
    }

    pub fn max_response_length(&self) -> (n: usize)
        ensures
            n == 0,
    {
        0
    }

    /// The response carries no value.
    pub fn interpret_response(&self, _data: &[u8]) -> (r: Result<(), ShdlcFault>)
        ensures
            r is Ok,
    {
        Ok(())
    }
}

} // verus!
