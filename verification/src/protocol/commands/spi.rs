//! SHDLC commands 0x60 and 0x61: SPI configuration and transceive.
use crate::protocol::errors::ShdlcFault;
use crate::protocol::wire::{lemma_be_u32_roundtrip, push_be_u32, spec_be_u32_bytes, spec_be_u32_value};
use vstd::prelude::*;

verus! {

/// SHDLC command 0x60: SPI Config.
#[derive(Debug, Clone, Copy)]
pub struct SpiConfig {
    pub port: u8,
    pub mode: u8,
    pub frequency: u8,
}

impl SpiConfig {
    pub fn new(port: u8, mode: u8, frequency: u8) -> (c: Self)
        ensures
            c.port == port,
            c.mode == mode,
            c.frequency == frequency,
    {
        Self { port, mode, frequency }
    }

    pub fn id(&self) -> (id: u8)
        ensures
            id == 0x60,
    {
        0x60
    }

    /// The port byte, the mode number and the frequency code.
    pub fn data(&self) -> (d: Vec<u8>)
        ensures
            d@ == seq![self.port, self.mode, self.frequency],
    {
        vec![self.port, self.mode, self.frequency]
    }

    /// Longest time the device may take to answer, in milliseconds.
    pub fn max_response_time_ms(&self) -> (t: u64)
        ensures
            t == 100,
    {
        100
    }

    pub fn min_response_length(&self) -> (n: usize)
        ensures
            n == 0,
    {
        0
    }

    pub fn max_response_length(&self) -> (n: usize)
        ensures
            n == 0,
    {
        0
    }

    /// The response carries no value.
    pub fn interpret_response(&self, _data: &[u8]) -> (r: Result<(), ShdlcFault>)
        ensures
            r is Ok,
    {
        Ok(())
    }
}

/// SHDLC command 0x61: SPI Transceive.
#[derive(Debug, Clone)]
pub struct SpiTransceive {
    pub port: u8,
    pub length: u32,
    pub tx_data: Vec<u8>,
}

impl SpiTransceive {
    /// The length field is the number of bytes to transmit, kept to its
    /// low 32 bits.
    pub fn new(port: u8, tx_data: &[u8]) -> (c: Self)
        ensures
            c.port == port,
            c.length == tx_data@.len() as u32,
            c.tx_data@ == tx_data@,
    {
        Self { port, length: tx_data.len() as u32, tx_data: vstd::slice::slice_to_vec(tx_data) }
    }

    pub fn id(&self) -> (id: u8)
        ensures
            id == 0x61,
    {
        0x61
    }

    /// The port byte, the 32-bit length (big-endian), then the bytes to
    /// transmit.
    pub fn data(&self) -> (d: Vec<u8>)
        ensures
            d@ == seq![self.port] + spec_be_u32_bytes(self.length) + self.tx_data@,
            d@.len() == 5 + self.tx_data@.len(),
            d@[0] == self.port,
            spec_be_u32_value(d@.subrange(1, 5)) == self.length,
            d@.skip(5) == self.tx_data@,
    {
        let mut d: Vec<u8> = Vec::new();
        d.push(self.port);
        push_be_u32(&mut d, self.length);
        let mut rest = self.tx_data.clone();
        d.append(&mut rest);
        assert(d@ =~= seq![self.port] + spec_be_u32_bytes(self.length) + self.tx_data@);
        proof {
            lemma_be_u32_roundtrip(self.length);
            assert(d@.subrange(1, 5) =~= spec_be_u32_bytes(self.length));
            assert(d@.skip(5) =~= self.tx_data@);
        }
        d
    }

    /// Longest time the device may take to answer, in milliseconds.
    pub fn max_response_time_ms(&self) -> (t: u64)
        ensures
            t == 5000,
    {
        5000
    }

    pub fn min_response_length(&self) -> (n: usize)
        ensures
            n == 0,
    {
        0
    }

    pub fn max_response_length(&self) -> (n: usize)
        ensures
            n == 255,
    {
        255
    }

    /// The response bytes as they are.
    pub fn interpret_response(&self, data: &[u8]) -> (r: Result<Vec<u8>, ShdlcFault>)
        ensures
            r matches Ok(v) && v@ == data@,
    {
        Ok(vstd::slice::slice_to_vec(data))
    }
}

} // verus!
