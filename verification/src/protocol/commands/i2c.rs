//! SHDLC commands 0x02, 0x10, 0x11, 0x12, 0x50 and 0x51: I2C frequency,
//! scan, transceive and repeated transceive.
use crate::protocol::errors::ShdlcFault;
use crate::protocol::wire::{
    be_u32_at, lemma_be_u32_roundtrip, push_be_u32, spec_be_u32_bytes, spec_be_u32_value,
};
use vstd::prelude::*;

verus! {

/// Largest number of transmit bytes that one transceive frame carries.
pub const MAX_TX_LEN_PER_FRAME: usize = 240;

/// SHDLC command 0x02: Set I2C Frequency.
#[derive(Debug, Clone, Copy)]
pub struct SetI2cFrequency {
    pub port: u8,
    pub frequency: u8,
}

impl SetI2cFrequency {
    pub fn new(port: u8, frequency: u8) -> (c: Self)
        ensures
            c.port == port,
            c.frequency == frequency,
    {
        Self { port, frequency }
    }

    pub fn id(&self) -> (id: u8)
        ensures
            id == 0x02,
    {
        0x02
    }

    /// The port byte, then the frequency code.
    pub fn data(&self) -> (d: Vec<u8>)
        ensures
            d@ == seq![self.port, self.frequency],
    {
        vec![self.port, self.frequency]
    }

    /// Longest time the device may take to answer, in milliseconds.
    pub fn max_response_time_ms(&self) -> (t: u64)
        ensures
            t == 50,
    {
        50
    }

    pub fn min_response_length(&self) -> (n: usize)
        ensures
            n == 0,
    {
        0
    }

    pub fn max_response_length(&self) -> (n: usize)
        ensures
            n == 0,
    {
        0
    }

    /// The response carries no value.
    pub fn interpret_response(&self, _data: &[u8]) -> (r: Result<(), ShdlcFault>)
        ensures
            r is Ok,
    {
        Ok(())
    }
}

/// SHDLC command 0x10: I2C Scan.
#[derive(Debug, Clone, Copy)]
pub struct I2cScan {
    pub port: u8,
    pub first_address: u8,
    pub last_address: u8,
}

impl I2cScan {
    pub fn new(port: u8, first_address: u8, last_address: u8) -> (c: Self)
        ensures
            c.port == port,
            c.first_address == first_address,
            c.last_address == last_address,
    {
        Self { port, first_address, last_address }
    }

    pub fn id(&self) -> (id: u8)
        ensures
            id == 0x10,
    {
        0x10
    }

    /// The port byte, then the first and the last address.
    pub fn data(&self) -> (d: Vec<u8>)
        ensures
            d@ == seq![self.port, self.first_address, self.last_address],
    {
        vec![self.port, self.first_address, self.last_address]
    }

    /// Longest time the device may take to answer, in milliseconds.
    pub fn max_response_time_ms(&self) -> (t: u64)
        ensures
            t == 100,
    {
        100
    }

    pub fn min_response_length(&self) -> (n: usize)
        ensures
            n == 0,
    {
        0
    }

    pub fn max_response_length(&self) -> (n: usize)
        ensures
            n == 255,
    {
        255
    }

    /// The addresses that answered, as sent.
    pub fn interpret_response(&self, data: &[u8]) -> (r: Result<Vec<u8>, ShdlcFault>)
        ensures
            r matches Ok(v) && v@ == data@,
    {
        Ok(vstd::slice::slice_to_vec(data))
    }
}

/// The data of a first transceive frame: subcommand 0x00, port, address,
/// the three 32-bit lengths and timeout (big-endian), and the first bytes
/// to transmit.
pub open spec fn spec_first_transceive_data(c: FirstTransceive) -> Seq<u8> {
    seq![0x00u8, c.port, c.address] + spec_be_u32_bytes(c.tx_length) + spec_be_u32_bytes(
        c.rx_length,
    ) + spec_be_u32_bytes(c.timeout_us) + c.tx_data@
}

/// SHDLC command 0x11: First Transceive.
#[derive(Debug, Clone)]
pub struct FirstTransceive {
    pub port: u8,
    pub address: u8,
    pub tx_length: u32,
    pub rx_length: u32,
    pub timeout_us: u32,
    pub tx_data: Vec<u8>,
}

impl FirstTransceive {
    pub fn new(
        port: u8,
        address: u8,
        tx_length: u32,
        rx_length: u32,
        timeout_us: u32,
        tx_data: &[u8],
    ) -> (c: Self)
        ensures
            c.port == port,
            c.address == address,
            c.tx_length == tx_length,
            c.rx_length == rx_length,
            c.timeout_us == timeout_us,
            c.tx_data@ == tx_data@,
    {
        Self {
            port,
            address,
            tx_length,
            rx_length,
            timeout_us,
            tx_data: vstd::slice::slice_to_vec(tx_data),
        }
    }

    pub fn id(&self) -> (id: u8)
        ensures
            id == 0x11,
    {
        0x11
    }

    pub fn data(&self) -> (d: Vec<u8>)
        ensures
            d@ == spec_first_transceive_data(*self),
            d@.len() == 15 + self.tx_data@.len(),
            d@[0] == 0x00,
            d@[1] == self.port,
            d@[2] == self.address,
            spec_be_u32_value(d@.subrange(3, 7)) == self.tx_length,
            spec_be_u32_value(d@.subrange(7, 11)) == self.rx_length,
            spec_be_u32_value(d@.subrange(11, 15)) == self.timeout_us,
            d@.skip(15) == self.tx_data@,
    {
        proof {
            lemma_first_transceive_layout(*self);
        }
        let mut d: Vec<u8> = Vec::new();
        d.push(0x00);
        d.push(self.port);
        d.push(self.address);
        push_be_u32(&mut d, self.tx_length);
        push_be_u32(&mut d, self.rx_length);
        push_be_u32(&mut d, self.timeout_us);
        let mut rest = self.tx_data.clone();
        d.append(&mut rest);
        assert(d@ =~= spec_first_transceive_data(*self));
        d
    }

    /// Longest time the device may take to answer, in milliseconds.
    pub fn max_response_time_ms(&self) -> (t: u64)
        ensures
            t == 10000,
    {
        10000
    }

    pub fn min_response_length(&self) -> (n: usize)
        ensures
            n == 0,
    {
        0
    }

    pub fn max_response_length(&self) -> (n: usize)
        ensures
            n == 255,
    {
        255
    }

    /// The response bytes as they are.
    pub fn interpret_response(&self, data: &[u8]) -> (r: Result<Vec<u8>, ShdlcFault>)
        ensures
            r matches Ok(v) && v@ == data@,
    {
        Ok(vstd::slice::slice_to_vec(data))
    }
}

/// SHDLC command 0x11: Subsequent Transceive.
#[derive(Debug, Clone)]
pub struct SubsequentTransceive {
    pub port: u8,
    pub tx_data: Vec<u8>,
}

impl SubsequentTransceive {
    pub fn new(port: u8, tx_data: &[u8]) -> (c: Self)
        ensures
            c.port == port,
            c.tx_data@ == tx_data@,
    {
        Self { port, tx_data: vstd::slice::slice_to_vec(tx_data) }
    }

    pub fn id(&self) -> (id: u8)
        ensures
            id == 0x11,
    {
        0x11
    }

    /// Subcommand 0x01, the port byte, then the bytes to transmit.
    pub fn data(&self) -> (d: Vec<u8>)
        ensures
            d@ == seq![0x01u8, self.port] + self.tx_data@,
            d@.len() == 2 + self.tx_data@.len(),
            d@[0] == 0x01,
            d@[1] == self.port,
            d@.skip(2) == self.tx_data@,
    {
        let mut d: Vec<u8> = Vec::new();
        d.push(0x01);
        d.push(self.port);
        let mut rest = self.tx_data.clone();
        d.append(&mut rest);
        assert(d@ =~= seq![0x01u8, self.port] + self.tx_data@);
        assert(d@.skip(2) =~= self.tx_data@);
        d
    }

    /// Longest time the device may take to answer, in milliseconds.
    pub fn max_response_time_ms(&self) -> (t: u64)
        ensures
            t == 10000,
    {
        10000
    }

    pub fn min_response_length(&self) -> (n: usize)
        ensures
            n == 0,
    {
        0
    }

    pub fn max_response_length(&self) -> (n: usize)
        ensures
            n == 255,
    {
        255
    }

    /// The response bytes as they are.
    pub fn interpret_response(&self, data: &[u8]) -> (r: Result<Vec<u8>, ShdlcFault>)
        ensures
            r matches Ok(v) && v@ == data@,
    {
        Ok(vstd::slice::slice_to_vec(data))
    }
}

/// The data of a repeated transceive command: the interval, port and
/// address, the lengths, timeout and read delay (32-bit fields big-endian),
/// then the bytes to transmit.
pub open spec fn spec_repeated_transceive_data(c: I2cRepeatedTransceive) -> Seq<u8> {
    spec_be_u32_bytes(c.interval_us) + seq![c.port, c.address] + spec_be_u32_bytes(c.tx_length)
        + spec_be_u32_bytes(c.rx_length) + spec_be_u32_bytes(c.timeout_us) + spec_be_u32_bytes(
        c.read_delay_us,
    ) + c.tx_data@
}

/// SHDLC command 0x12: I2C Repeated Transceive.
#[derive(Debug, Clone)]
pub struct I2cRepeatedTransceive {
    pub interval_us: u32,
    pub port: u8,
    pub address: u8,
    pub tx_length: u32,
    pub rx_length: u32,
    pub timeout_us: u32,
    pub read_delay_us: u32,
    pub tx_data: Vec<u8>,
}

impl I2cRepeatedTransceive {
    #[allow(clippy::too_many_arguments)]
    pub fn new(
        interval_us: u32,
        port: u8,
        address: u8,
        tx_length: u32,
        rx_length: u32,
        timeout_us: u32,
        read_delay_us: u32,
        tx_data: &[u8],
    ) -> (c: Self)
        ensures
            c.interval_us == interval_us,
            c.port == port,
            c.address == address,
            c.tx_length == tx_length,
            c.rx_length == rx_length,
            c.timeout_us == timeout_us,
            c.read_delay_us == read_delay_us,
            c.tx_data@ == tx_data@,
    {
        Self {
            interval_us,
            port,
            address,
            tx_length,
            rx_length,
            timeout_us,
            read_delay_us,
            tx_data: vstd::slice::slice_to_vec(tx_data),
        }
    }

    pub fn id(&self) -> (id: u8)
        ensures
            id == 0x12,
    {
        0x12
    }

    pub fn data(&self) -> (d: Vec<u8>)
        ensures
            d@ == spec_repeated_transceive_data(*self),
            d@.len() == 22 + self.tx_data@.len(),
            spec_be_u32_value(d@.subrange(0, 4)) == self.interval_us,
            d@[4] == self.port,
            d@[5] == self.address,
            spec_be_u32_value(d@.subrange(6, 10)) == self.tx_length,
            spec_be_u32_value(d@.subrange(10, 14)) == self.rx_length,
            spec_be_u32_value(d@.subrange(14, 18)) == self.timeout_us,
            spec_be_u32_value(d@.subrange(18, 22)) == self.read_delay_us,
            d@.skip(22) == self.tx_data@,
    {
        proof {
            lemma_repeated_transceive_layout(*self);
        }
        let mut d: Vec<u8> = Vec::new();
        push_be_u32(&mut d, self.interval_us);
        d.push(self.port);
        d.push(self.address);
        push_be_u32(&mut d, self.tx_length);
        push_be_u32(&mut d, self.rx_length);
        push_be_u32(&mut d, self.timeout_us);
        push_be_u32(&mut d, self.read_delay_us);
        let mut rest = self.tx_data.clone();
        d.append(&mut rest);
        assert(d@ =~= spec_repeated_transceive_data(*self));
        d
    }

    /// Longest time the device may take to answer, in milliseconds.
    pub fn max_response_time_ms(&self) -> (t: u64)
        ensures
            t == 50,
    {
        50
    }

    pub fn min_response_length(&self) -> (n: usize)
        ensures
            n == 0,
    {
        0
    }

    pub fn max_response_length(&self) -> (n: usize)
        ensures
            n == 255,
    {
        255
    }

    /// The raw handles of the started operations, as sent.
    pub fn interpret_response(&self, data: &[u8]) -> (r: Result<Vec<u8>, ShdlcFault>)
        ensures
            r matches Ok(v) && v@ == data@,
    {
        Ok(vstd::slice::slice_to_vec(data))
    }
}

/// SHDLC command 0x50: Read Buffer.
#[derive(Debug, Clone, Copy)]
pub struct ReadBuffer {
    pub handle: u8,
}

impl ReadBuffer {
    pub fn new(handle: u8) -> (c: Self)
        ensures
            c.handle == handle,
    {
        Self { handle }
    }

    pub fn id(&self) -> (id: u8)
        ensures
            id == 0x50,
    {
        0x50
    }

    /// The raw handle byte.
    pub fn data(&self) -> (d: Vec<u8>)
        ensures
            d@ == seq![self.handle],
    {
        vec![self.handle]
    }

    /// Longest time the device may take to answer, in milliseconds.
    pub fn max_response_time_ms(&self) -> (t: u64)
        ensures
            t == 50,
    {
        50
    }

    pub fn min_response_length(&self) -> (n: usize)
        ensures
            n == 8,
    {
        8
    }

    pub fn max_response_length(&self) -> (n: usize)
        ensures
            n == 255,
    {
        255
    }

    /// The number of lost bytes and of bytes still buffered (both 32-bit
    /// big-endian), then the buffered packets.
    pub fn interpret_response(&self, data: &[u8]) -> (r: Result<(u32, u32, Vec<u8>), ShdlcFault>)
        requires
            data@.len() >= 8,
        ensures
            r matches Ok((lost, remaining, rx)) && lost == spec_be_u32_value(data@.subrange(0, 4))
                && remaining == spec_be_u32_value(data@.subrange(4, 8)) && rx@ == data@.skip(8),
    {
        let len = data.len();
        let lost_bytes = be_u32_at(data, 0);
        let remaining_bytes = be_u32_at(data, 4);
        let rx_data = vstd::slice::slice_to_vec(&data[8..len]);
        assert(rx_data@ =~= data@.skip(8));
        Ok((lost_bytes, remaining_bytes, rx_data))
    }
}

/// The data of a Read Buffer response: the two counts, big-endian, then the
/// packets.
pub open spec fn spec_read_buffer_response(lost: u32, remaining: u32, rx: Seq<u8>) -> Seq<u8> {
    spec_be_u32_bytes(lost) + spec_be_u32_bytes(remaining) + rx
}

/// A Read Buffer response made of two counts and packet data is read back
/// as the same counts and the same data.
pub proof fn lemma_read_buffer_response_roundtrip(lost: u32, remaining: u32, rx: Seq<u8>)
    ensures
        spec_read_buffer_response(lost, remaining, rx).len() >= 8,
        spec_be_u32_value(spec_read_buffer_response(lost, remaining, rx).subrange(0, 4)) == lost,
        spec_be_u32_value(spec_read_buffer_response(lost, remaining, rx).subrange(4, 8))
            == remaining,
        spec_read_buffer_response(lost, remaining, rx).skip(8) == rx,
{
    let data = spec_read_buffer_response(lost, remaining, rx);
    lemma_be_u32_roundtrip(lost);
    lemma_be_u32_roundtrip(remaining);
    assert(data.subrange(0, 4) =~= spec_be_u32_bytes(lost));
    assert(data.subrange(4, 8) =~= spec_be_u32_bytes(remaining));
    assert(data.skip(8) =~= rx);
}

/// SHDLC command 0x51: Stop Repeated Transceive.
#[derive(Debug, Clone, Copy)]
pub struct StopRepeatedTransceive {
    pub handle: u8,
}

impl StopRepeatedTransceive {
    pub fn new(handle: u8) -> (c: Self)
        ensures
            c.handle == handle,
    {
        Self { handle }
    }

    pub fn id(&self) -> (id: u8)
        ensures
            id == 0x51,
    {
        0x51
    }

    /// The raw handle byte (0xFF stops all operations).
    pub fn data(&self) -> (d: Vec<u8>)
        ensures
            d@ == seq![self.handle],
    {
        vec![self.handle]
    }

    /// Longest time the device may take to answer, in milliseconds.
    pub fn max_response_time_ms(&self) -> (t: u64)
        ensures
            t == 50,
    {
        50
    }

    pub fn min_response_length(&self) -> (n: usize)
        ensures
            n == 0,
    {
        0
    }

    pub fn max_response_length(&self) -> (n: usize)
        ensures
            n == 0,
    {
        0
    }

    /// The response carries no value.
    pub fn interpret_response(&self, _data: &[u8]) -> (r: Result<(), ShdlcFault>)
        ensures
            r is Ok,
    {
        Ok(())
    }
}

/// A first transceive frame is laid out as subcommand 0x00, port, address,
/// the transmit length, receive length and timeout (each read back as
/// given), then the transmit bytes unchanged.
pub proof fn lemma_first_transceive_layout(c: FirstTransceive)
    ensures
        spec_first_transceive_data(c).len() == 15 + c.tx_data@.len(),
        spec_first_transceive_data(c)[0] == 0x00,
        spec_first_transceive_data(c)[1] == c.port,
        spec_first_transceive_data(c)[2] == c.address,
        spec_be_u32_value(spec_first_transceive_data(c).subrange(3, 7)) == c.tx_length,
        spec_be_u32_value(spec_first_transceive_data(c).subrange(7, 11)) == c.rx_length,
        spec_be_u32_value(spec_first_transceive_data(c).subrange(11, 15)) == c.timeout_us,
        spec_first_transceive_data(c).skip(15) == c.tx_data@,
{
    let d = spec_first_transceive_data(c);
    lemma_be_u32_roundtrip(c.tx_length);
    lemma_be_u32_roundtrip(c.rx_length);
    lemma_be_u32_roundtrip(c.timeout_us);
    assert(d.subrange(3, 7) =~= spec_be_u32_bytes(c.tx_length));
    assert(d.subrange(7, 11) =~= spec_be_u32_bytes(c.rx_length));
    assert(d.subrange(11, 15) =~= spec_be_u32_bytes(c.timeout_us));
    assert(d.skip(15) =~= c.tx_data@);
}

/// A repeated transceive command is laid out as the interval, port,
/// address, transmit length, receive length, timeout and read delay (each
/// read back as given), then the transmit bytes unchanged and in order.
pub proof fn lemma_repeated_transceive_layout(c: I2cRepeatedTransceive)
    ensures
        spec_repeated_transceive_data(c).len() == 22 + c.tx_data@.len(),
        spec_be_u32_value(spec_repeated_transceive_data(c).subrange(0, 4)) == c.interval_us,
        spec_repeated_transceive_data(c)[4] == c.port,
        spec_repeated_transceive_data(c)[5] == c.address,
        spec_be_u32_value(spec_repeated_transceive_data(c).subrange(6, 10)) == c.tx_length,
        spec_be_u32_value(spec_repeated_transceive_data(c).subrange(10, 14)) == c.rx_length,
        spec_be_u32_value(spec_repeated_transceive_data(c).subrange(14, 18)) == c.timeout_us,
        spec_be_u32_value(spec_repeated_transceive_data(c).subrange(18, 22)) == c.read_delay_us,
        spec_repeated_transceive_data(c).skip(22) == c.tx_data@,
{
    let d = spec_repeated_transceive_data(c);
    lemma_be_u32_roundtrip(c.interval_us);
    lemma_be_u32_roundtrip(c.tx_length);
    lemma_be_u32_roundtrip(c.rx_length);
    lemma_be_u32_roundtrip(c.timeout_us);
    lemma_be_u32_roundtrip(c.read_delay_us);
    assert(d.subrange(0, 4) =~= spec_be_u32_bytes(c.interval_us));
    assert(d.subrange(6, 10) =~= spec_be_u32_bytes(c.tx_length));
    assert(d.subrange(10, 14) =~= spec_be_u32_bytes(c.rx_length));
    assert(d.subrange(14, 18) =~= spec_be_u32_bytes(c.timeout_us));
    assert(d.subrange(18, 22) =~= spec_be_u32_bytes(c.read_delay_us));
    assert(d.skip(22) =~= c.tx_data@);
}

} // verus!
