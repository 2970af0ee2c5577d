//! Reading the buffer of a repeated transceive operation: up to a given
//! number of reads, stopping early once the device reports that nothing
//! remains, with the lost-byte counts added up and the data appended.
use crate::protocol::commands::ReadBuffer;
use crate::protocol::errors::SensorBridgeError;
use crate::protocol::types::{
    spec_packet_len, spec_values_of_packets, ReadBufferResponse, RepeatedTransceiveHandle,
};
use vstd::prelude::*;

verus! {

/// State of a buffer read between two SHDLC frames.
pub struct BufferReadSession {
    /// The operation whose buffer is read.
    pub handle: RepeatedTransceiveHandle,
    /// Largest number of reads.
    pub max_reads: usize,
    /// Number of replies taken so far.
    pub reads: usize,
    /// Sum of the lost-byte counts so far (modulo 2^32).
    pub lost_bytes: u32,
    /// Count of bytes still buffered, from the last reply.
    pub remaining_bytes: u32,
    /// Buffered data received so far.
    pub rx_data: Vec<u8>,
    /// No further read is made.
    pub finished: bool,
}

impl BufferReadSession {
    /// The session is consistent: reads stay within the limit, and an
    /// unfinished session still has a read to make.
    pub open spec fn wf(&self) -> bool {
        &&& self.reads <= self.max_reads
        &&& !self.finished ==> self.reads < self.max_reads
    }

    /// Begins a buffer read of at most `max_reads` reads; the first read is
    /// returned, or none when `max_reads` is 0.
    pub fn start(handle: RepeatedTransceiveHandle, max_reads: usize) -> (r: (
        Self,
        Option<ReadBuffer>,
    ))
        ensures
            r.0.wf(),
            r.0.handle == handle,
            r.0.max_reads == max_reads,
            r.0.reads == 0,
            r.0.lost_bytes == 0,
            r.0.remaining_bytes == 0,
            r.0.rx_data@.len() == 0,
            r.0.finished <==> max_reads == 0,
            r.1 is None <==> max_reads == 0,
            r.1 matches Some(c) ==> c.handle == handle.raw_handle,
    {
        let session = Self {
            handle,
            max_reads,
            reads: 0,
            lost_bytes: 0,
            remaining_bytes: 0,
            rx_data: Vec::new(),
            finished: max_reads == 0,
        };
        if max_reads == 0 {
            (session, None)
        } else {
            (session, Some(ReadBuffer::new(handle.raw_handle)))
        }
    }

    /// Takes one reply (lost bytes, bytes still buffered, data) and returns
    /// the next read, or none once nothing remains or the limit is reached.
    pub fn on_reply(&mut self, lost: u32, remaining: u32, rx: &[u8]) -> (next: Option<ReadBuffer>)
        requires
            old(self).wf(),
            !old(self).finished,
        ensures
            final(self).wf(),
            final(self).handle == old(self).handle,
            final(self).max_reads == old(self).max_reads,
            final(self).reads == old(self).reads + 1,
            final(self).lost_bytes == (old(self).lost_bytes + lost) % 0x1_0000_0000,
            final(self).remaining_bytes == remaining,
            final(self).rx_data@ == old(self).rx_data@ + rx@,
            final(self).finished <==> (remaining == 0 || final(self).reads == final(self).max_reads),
            next is None <==> final(self).finished,
            next matches Some(c) ==> c.handle == old(self).handle.raw_handle,
    {
        self.lost_bytes = self.lost_bytes.wrapping_add(lost);
        self.remaining_bytes = remaining;
        let mut received = vstd::slice::slice_to_vec(rx);
        self.rx_data.append(&mut received);
        self.reads = self.reads + 1;
        if remaining == 0 || self.reads == self.max_reads {
            self.finished = true;
            None
        } else {
            Some(ReadBuffer::new(self.handle.raw_handle))
        }
    }

    /// The response made of everything read: the summed lost-byte count,
    /// the last count of bytes still buffered, and the data split into
    /// packets of the handle's receive length.
    pub fn finish(&self) -> (r: Result<ReadBufferResponse, SensorBridgeError>)
        ensures
            r is Ok <==> spec_packet_len(self.handle.rx_length) != 0 && (self.rx_data@.len() as int)
                % spec_packet_len(self.handle.rx_length) == 0,
            r matches Ok(resp) ==> {
                &&& resp.lost_bytes == self.lost_bytes
                &&& resp.remaining_bytes == self.remaining_bytes
                &&& spec_values_of_packets(
                    resp.values@,
                    self.rx_data@,
                    spec_packet_len(self.handle.rx_length),
                )
            },
            r matches Err(e) ==> (e == SensorBridgeError::BufferLengthMismatch {
                expected: spec_packet_len(self.handle.rx_length) as usize,
                actual: self.rx_data@.len() as usize,
            }),
    {
        ReadBufferResponse::from_raw(
            self.handle.rx_length,
            self.lost_bytes,
            self.remaining_bytes,
            self.rx_data.as_slice(),
        )
    }
}

} // verus!
