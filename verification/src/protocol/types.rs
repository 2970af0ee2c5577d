//! Values returned by repeated I2C transceive operations.
use crate::protocol::definitions::SensorBridgePort;
use crate::protocol::errors::{spec_i2c_status_error, SensorBridgeError};
use vstd::prelude::*;
use vstd::string::StringExecFns;

verus! {

/// Handle of a running repeated I2C transceive operation: the raw handle
/// byte (task slot in the high nibble, channel in the low nibble) and the
/// number of bytes read per transceive.
#[derive(Debug, Clone, Copy, PartialEq, Eq, Hash, Structural)]
pub struct RepeatedTransceiveHandle {
    pub raw_handle: u8,
    pub rx_length: usize,
}

impl RepeatedTransceiveHandle {
    pub fn new(raw_handle: u8, rx_length: usize) -> (h: Self)
        ensures
            h.raw_handle == raw_handle,
            h.rx_length == rx_length,
    {
        Self { raw_handle, rx_length }
    }

    /// Task slot number: the high nibble of the raw handle.
    pub fn slot(&self) -> (s: u8)
        ensures
            s == self.raw_handle / 16,
    {
        let raw = self.raw_handle;
        assert((raw >> 4u8) & 0x0Fu8 == raw / 16) by (bit_vector);
        (self.raw_handle >> 4) & 0x0F
    }

    /// Channel number: the low nibble of the raw handle.
    pub fn channel(&self) -> (c: u8)
        ensures
            c == self.raw_handle % 16,
    {
        let raw = self.raw_handle;
        assert(raw & 0x0Fu8 == raw % 16) by (bit_vector);
        self.raw_handle & 0x0F
    }

    /// Port of the channel: port 1 for channel 0, port 2 for any other.
    pub fn port(&self) -> (p: SensorBridgePort)
        ensures
            p == (if self.raw_handle % 16 == 0 {
                SensorBridgePort::One
            } else {
                SensorBridgePort::Two
            }),
    {
        if self.channel() == 0 {
            SensorBridgePort::One
        } else {
            SensorBridgePort::Two
        }
    }
}

/// A raw handle is its slot followed by its channel.
pub proof fn lemma_handle_nibbles(raw_handle: u8)
    ensures
        raw_handle == (raw_handle / 16) * 16 + raw_handle % 16,
        raw_handle / 16 < 16,
        raw_handle % 16 < 16,
{
}

/// One buffered value of a repeated I2C transceive: the I2C status byte
/// and the bytes read.
#[derive(Debug, Clone, PartialEq, Eq)]
pub struct BufferedValue {
    pub raw_status: u8,
    pub raw_data: Vec<u8>,
}

/// Outcome of reading the data of a buffered value.
pub open spec fn spec_buffered_data_ok(v: BufferedValue) -> bool {
    v.raw_status == 0
}

impl BufferedValue {
    /// Splits a packet into its status byte and its data; an empty packet
    /// gives `InvalidResponse("Empty buffer packet")`.
    pub fn new(raw_packet: &[u8]) -> (r: Result<Self, SensorBridgeError>)
        ensures
            r is Ok <==> raw_packet@.len() > 0,
            r matches Ok(v) ==> v.raw_status == raw_packet@[0] && v.raw_data@
                == raw_packet@.skip(1),
            r matches Err(e) ==> e matches SensorBridgeError::InvalidResponse(m) && m@
                == "Empty buffer packet"@,
    {
        if raw_packet.len() == 0 {
            return Err(SensorBridgeError::InvalidResponse(String::from_str("Empty buffer packet")));
        }
        let len = raw_packet.len();
        let rest = vstd::slice::slice_to_vec(&raw_packet[1..len]);
        assert(rest@ =~= raw_packet@.skip(1));
        Ok(Self { raw_status: raw_packet[0], raw_data: rest })
    }

    /// Whether the I2C status is success (0).
    pub fn is_ok(&self) -> (b: bool)
        ensures
            b == (self.raw_status == 0),
    {
        self.raw_status == 0
    }

    /// The error that the I2C status stands for, if it is not success.
    pub fn error(&self) -> (r: Option<SensorBridgeError>)
        ensures
            r is None <==> self.raw_status == 0,
            r matches Some(e) ==> spec_i2c_status_error(self.raw_status, e),
    {
        SensorBridgeError::from_i2c_status(self.raw_status)
    }

    /// The data read, or the error of the I2C status.
    pub fn data(&self) -> (r: Result<&[u8], SensorBridgeError>)
        ensures
            r is Ok <==> self.raw_status == 0,
            r matches Ok(d) ==> d@ == self.raw_data@,
            r matches Err(e) ==> spec_i2c_status_error(self.raw_status, e),
    {
        match self.error() {
            None => Ok(self.raw_data.as_slice()),
            Some(err) => Err(err),
        }
    }
}

/// Response of reading the buffer of a repeated transceive operation.
#[derive(Debug, Clone, PartialEq, Eq)]
pub struct ReadBufferResponse {
    pub lost_bytes: u32,
    pub remaining_bytes: u32,
    pub values: Vec<BufferedValue>,
}

/// The packet length for `rx_length` data bytes: one status byte more, as
/// a `usize` sum that wraps to 0 at `usize::MAX`.
pub open spec fn spec_packet_len(rx_length: usize) -> int {
    if rx_length == usize::MAX {
        0
    } else {
        rx_length + 1
    }
}

/// The `i`-th packet of `rx_data` for packets of length `p`.
pub open spec fn spec_packet(rx_data: Seq<u8>, p: int, i: int) -> Seq<u8> {
    rx_data.subrange(i * p, (i + 1) * p)
}

/// A buffered value read back as the packet it came from.
pub open spec fn spec_value_bytes(v: BufferedValue) -> Seq<u8> {
    seq![v.raw_status] + v.raw_data@
}

/// The packets of a list of buffered values, one after the other.
pub open spec fn spec_flatten_values(values: Seq<BufferedValue>) -> Seq<u8>
    decreases values.len(),
{
    if values.len() == 0 {
        Seq::empty()
    } else {
        spec_flatten_values(values.drop_last()) + spec_value_bytes(values.last())
    }
}

/// `values` are the packets of `rx_data`, for packets of length `p`.
pub open spec fn spec_values_of_packets(values: Seq<BufferedValue>, rx_data: Seq<u8>, p: int) -> bool {
    &&& p > 0
    &&& values.len() * p == rx_data.len()
    &&& forall|i: int|
        #![trigger values[i]]
        0 <= i < values.len() ==> spec_value_bytes(values[i]) == spec_packet(rx_data, p, i)
}

/// Each of `values` is the packet of `rx_data` at its position.
pub open spec fn spec_prefix_of_packets(values: Seq<BufferedValue>, rx_data: Seq<u8>, p: int) -> bool {
    forall|k: int|
        #![trigger values[k]]
        0 <= k < values.len() ==> spec_value_bytes(values[k]) == spec_packet(rx_data, p, k)
}

impl ReadBufferResponse {
    /// Splits buffered data into packets of one status byte and `rx_length`
    /// data bytes; data whose length is not a multiple of the packet length
    /// gives `BufferLengthMismatch`.
    pub fn from_raw(rx_length: usize, lost_bytes: u32, remaining_bytes: u32, rx_data: &[u8]) -> (r:
        Result<Self, SensorBridgeError>)
        ensures
            r is Ok <==> spec_packet_len(rx_length) != 0 && (rx_data@.len() as int)
                % spec_packet_len(rx_length) == 0,
            r matches Ok(resp) ==> {
                &&& resp.lost_bytes == lost_bytes
                &&& resp.remaining_bytes == remaining_bytes
                &&& spec_values_of_packets(resp.values@, rx_data@, spec_packet_len(rx_length))
            },
            r matches Err(e) ==> (e == SensorBridgeError::BufferLengthMismatch {
                expected: spec_packet_len(rx_length) as usize,
                actual: rx_data@.len() as usize,
            }),
    {
        let packet_len = rx_length.wrapping_add(1);
        let total = rx_data.len();
        if packet_len == 0 || total % packet_len != 0 {
            return Err(
                SensorBridgeError::BufferLengthMismatch { expected: packet_len, actual: total },
            );
        }
        let num_packets = total / packet_len;
        proof {
            vstd::arithmetic::div_mod::lemma_fundamental_div_mod(total as int, packet_len as int);
            vstd::arithmetic::mul::lemma_mul_is_commutative(num_packets as int, packet_len as int);
        }
        let mut values: Vec<BufferedValue> = Vec::with_capacity(num_packets);
        let mut i: usize = 0;
        let mut start: usize = 0;
        while i < num_packets
            invariant
                packet_len > 0,
                total == rx_data@.len(),
                num_packets * packet_len == total,
                i <= num_packets,
                start == i * packet_len,
                values@.len() == i,
                spec_prefix_of_packets(values@, rx_data@, packet_len as int),
            decreases num_packets - i,
        {
            proof {
                vstd::arithmetic::mul::lemma_mul_inequality(
                    i as int + 1,
                    num_packets as int,
                    packet_len as int,
                );
                vstd::arithmetic::mul::lemma_mul_is_distributive_add_other_way(
                    packet_len as int,
                    i as int,
                    1,
                );
            }
            let end = start + packet_len;
            let value = BufferedValue::new(&rx_data[start..end]);
            match value {
                Ok(v) => {
                    proof {
                        let pk = rx_data@.subrange(start as int, end as int);
                        assert(spec_value_bytes(v) =~= pk);
                    }
                    values.push(v);
                },
                Err(e) => {
                    return Err(e);
                },
            }
            i = i + 1;
            start = end;
        }
        Ok(Self { lost_bytes, remaining_bytes, values })
    }
}

/// The values of a successful `from_raw` laid end to end give back the
/// buffered data: no byte is lost, duplicated or reordered.
pub proof fn lemma_packets_flatten(values: Seq<BufferedValue>, rx_data: Seq<u8>, p: int)
    requires
        spec_values_of_packets(values, rx_data, p),
    ensures
        spec_flatten_values(values) == rx_data,
    decreases values.len(),
{
    if values.len() == 0 {
        assert(rx_data.len() == 0);
        assert(rx_data =~= Seq::empty());
    } else {
        let n = values.len() - 1;
        assert(values.len() * p == n * p + p) by (nonlinear_arith)
            requires
                n == values.len() - 1,
        ;
        assert(0 <= n * p) by (nonlinear_arith)
            requires
                n >= 0,
                p > 0,
        ;
        let front = rx_data.subrange(0, n * p);
        assert forall|i: int| 0 <= i < n implies #[trigger] spec_value_bytes(values.drop_last()[i])
            == spec_packet(front, p, i) by {
            assert(values.drop_last()[i] == values[i]);
            assert((i + 1) * p <= n * p) by (nonlinear_arith)
                requires
                    i + 1 <= n,
                    p > 0,
            ;
            assert(0 <= i * p) by (nonlinear_arith)
                requires
                    i >= 0,
                    p > 0,
            ;
            assert((i + 1) * p == i * p + p) by (nonlinear_arith);
            assert(front.len() == n * p);
            assert(spec_packet(front, p, i) =~= spec_packet(rx_data, p, i));
        }
        assert(values.drop_last().len() * p == front.len());
        lemma_packets_flatten(values.drop_last(), front, p);
        assert(spec_value_bytes(values[n]) == spec_packet(rx_data, p, n));
        assert((n + 1) * p == n * p + p) by (nonlinear_arith);
        assert(rx_data =~= front + spec_packet(rx_data, p, n));
    }
}

} // verus!
