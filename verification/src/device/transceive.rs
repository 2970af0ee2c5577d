//! Splitting an I2C transceive over several SHDLC frames: the first frame
//! carries the lengths and up to 240 bytes to transmit, the following
//! frames carry the rest of the transmit bytes, and empty frames then fetch
//! received bytes until enough have arrived or the device has nothing more.
use crate::protocol::commands::{FirstTransceive, SubsequentTransceive, MAX_TX_LEN_PER_FRAME};
use crate::protocol::definitions::{spec_port_byte, SensorBridgePort};
use crate::protocol::errors::SensorBridgeError;
use vstd::prelude::*;

verus! {

/// The end of the transmit chunk that starts at `offset`: at most 240
/// bytes further, and not past `len`.
pub open spec fn spec_chunk_end(len: int, offset: int) -> int {
    if len - offset <= 240 {
        len
    } else {
        offset + 240
    }
}

/// The transmit chunks that follow `offset`, in order.
pub open spec fn spec_remaining_chunks(tx: Seq<u8>, offset: int) -> Seq<Seq<u8>>
    decreases tx.len() - offset,
{
    if 0 <= offset < tx.len() {
        seq![tx.subrange(offset, spec_chunk_end(tx.len() as int, offset))]
            + spec_remaining_chunks(tx, spec_chunk_end(tx.len() as int, offset))
    } else {
        Seq::empty()
    }
}

/// What the driver does after a reply: send one more frame, or return the
/// received bytes.
pub enum I2cTransceiveStep {
    Send(SubsequentTransceive),
    Done(Vec<u8>),
}

/// State of one I2C transceive between two SHDLC frames.
pub struct I2cTransceiveSession {
    /// Port byte of every frame.
    pub raw_port: u8,
    /// All bytes to transmit.
    pub tx_data: Vec<u8>,
    /// Number of bytes to receive.
    pub rx_length: usize,
    /// Number of transmit bytes handed out in frames so far.
    pub offset: usize,
    /// Bytes received so far.
    pub rx_data: Vec<u8>,
    /// The frame last handed out is an empty frame that fetches received
    /// bytes.
    pub awaiting_empty: bool,
    /// The transceive is complete.
    pub finished: bool,
    /// The transmit chunks handed out so far, the first frame's included.
    pub chunks: Ghost<Seq<Seq<u8>>>,
}

/// How a session answers a reply that is not the end of reception:
/// the reply is appended; then the next transmit chunk is sent, or an empty
/// frame while fewer than `rx_length` bytes have arrived, or the received
/// bytes are returned.
pub open spec fn spec_after_reply(
    old: I2cTransceiveSession,
    reply: Seq<u8>,
    new: I2cTransceiveSession,
    step: I2cTransceiveStep,
) -> bool {
    let len = old.tx_data@.len() as int;
    &&& new.rx_data@ == old.rx_data@ + reply
    &&& if old.offset < len {
        &&& step matches I2cTransceiveStep::Send(c)
        &&& c.port == old.raw_port
        &&& c.tx_data@ == old.tx_data@.subrange(
            old.offset as int,
            spec_chunk_end(len, old.offset as int),
        )
        &&& new.offset == spec_chunk_end(len, old.offset as int)
        &&& new.chunks@ == old.chunks@.push(c.tx_data@)
        &&& !new.awaiting_empty
        &&& !new.finished
    } else if new.rx_data@.len() < old.rx_length {
        &&& step matches I2cTransceiveStep::Send(c)
        &&& c.port == old.raw_port
        &&& c.tx_data@.len() == 0
        &&& new.offset == old.offset
        &&& new.chunks@ == old.chunks@
        &&& new.awaiting_empty
        &&& !new.finished
    } else {
        &&& step matches I2cTransceiveStep::Done(rx)
        &&& rx@ == new.rx_data@
        &&& new.offset == old.offset
        &&& new.chunks@ == old.chunks@
        &&& new.finished
    }
}

/// How a session answers an empty reply to an empty frame: reception ends
/// and the bytes received so far are returned.
pub open spec fn spec_end_of_reception(
    old: I2cTransceiveSession,
    new: I2cTransceiveSession,
    step: I2cTransceiveStep,
) -> bool {
    &&& step matches I2cTransceiveStep::Done(rx)
    &&& rx@ == old.rx_data@
    &&& new.rx_data@ == old.rx_data@
    &&& new.offset == old.offset
    &&& new.chunks@ == old.chunks@
    &&& new.finished
}

impl I2cTransceiveSession {
    /// The session is consistent: chunks never go past the transmit bytes,
    /// and empty frames are only sent once all of them are out.
    pub open spec fn wf(&self) -> bool {
        &&& self.offset <= self.tx_data@.len()
        &&& self.awaiting_empty ==> self.offset == self.tx_data@.len()
        &&& self.chunks@.flatten() == self.tx_data@.take(self.offset as int)
        &&& forall|i: int|
            0 <= i < self.chunks@.len() ==> (#[trigger] self.chunks@[i]).len()
                <= MAX_TX_LEN_PER_FRAME
    }

    /// Begins a transceive on one port (`All` is refused): returns the
    /// session and the first frame, which announces the whole transmit and
    /// receive lengths (low 32 bits) and carries the first chunk.
    pub fn start(
        port: SensorBridgePort,
        address: u8,
        tx_data: &[u8],
        rx_length: usize,
        timeout_us: u32,
    ) -> (r: Result<(Self, FirstTransceive), SensorBridgeError>)
        ensures
            r is Ok <==> port != SensorBridgePort::All,
            r matches Err(e) ==> e == SensorBridgeError::InvalidPort(0xFF),
            r matches Ok((s, c)) ==> {
                &&& s.wf()
                &&& !s.finished
                &&& !s.awaiting_empty
                &&& s.raw_port == spec_port_byte(port)
                &&& s.tx_data@ == tx_data@
                &&& s.rx_length == rx_length
                &&& s.offset == spec_chunk_end(tx_data@.len() as int, 0)
                &&& s.rx_data@.len() == 0
                &&& c.port == s.raw_port
                &&& c.address == address
                &&& c.tx_length == tx_data@.len() as u32
                &&& c.rx_length == rx_length as u32
                &&& c.timeout_us == timeout_us
                &&& c.tx_data@ == tx_data@.subrange(0, s.offset as int)
                &&& s.chunks@ == seq![c.tx_data@]
            },
            r matches Ok((s, c)) ==> s.raw_port == (if port == SensorBridgePort::One {
                0x00u8
            } else {
                0x01u8
            }),
    {
        let raw_port = port.to_byte(false)?;
        let len = tx_data.len();
        let first_len = if len < MAX_TX_LEN_PER_FRAME {
            len
        } else {
            MAX_TX_LEN_PER_FRAME
        };
        let cmd = FirstTransceive::new(
            raw_port,
            address,
            len as u32,
            rx_length as u32,
            timeout_us,
            &tx_data[0..first_len],
        );
        let ghost first_chunks: Seq<Seq<u8>> = seq![tx_data@.subrange(0, first_len as int)];
        let session = Self {
            raw_port,
            tx_data: vstd::slice::slice_to_vec(tx_data),
            rx_length,
            offset: first_len,
            rx_data: Vec::new(),
            awaiting_empty: false,
            finished: false,
            chunks: Ghost(first_chunks),
        };
        proof {
            session.chunks@.lemma_flatten_one_element();
            assert(session.tx_data@.take(first_len as int) =~= tx_data@.subrange(
                0,
                first_len as int,
            ));
        }
        Ok((session, cmd))
    }

    /// Takes the reply to the frame last handed out and decides what comes
    /// next.
    pub fn on_reply(&mut self, reply: &[u8]) -> (step: I2cTransceiveStep)
        requires
            old(self).wf(),
            !old(self).finished,
        ensures
            final(self).wf(),
            final(self).raw_port == old(self).raw_port,
            final(self).tx_data@ == old(self).tx_data@,
            final(self).rx_length == old(self).rx_length,
            old(self).awaiting_empty && reply@.len() == 0 ==> spec_end_of_reception(
                *old(self),
                *final(self),
                step,
            ),
            !(old(self).awaiting_empty && reply@.len() == 0) ==> spec_after_reply(
                *old(self),
                reply@,
                *final(self),
                step,
            ),
            step is Done ==> final(self).finished && final(self).offset
                == final(self).tx_data@.len() && final(self).chunks@.flatten()
                == final(self).tx_data@,
            step is Send ==> !final(self).finished,
            step matches I2cTransceiveStep::Send(c) ==> c.port == old(self).raw_port,
    {
        if self.awaiting_empty && reply.len() == 0 {
            assert(self.tx_data@.take(self.offset as int) =~= self.tx_data@);
            self.finished = true;
            return I2cTransceiveStep::Done(self.rx_data.clone());
        }
        let mut received = vstd::slice::slice_to_vec(reply);
        self.rx_data.append(&mut received);
        let len = self.tx_data.len();
        if self.offset < len {
            let remaining = len - self.offset;
            let chunk = if remaining < MAX_TX_LEN_PER_FRAME {
                remaining
            } else {
                MAX_TX_LEN_PER_FRAME
            };
            let end = self.offset + chunk;
            let cmd = SubsequentTransceive::new(
                self.raw_port,
                &self.tx_data.as_slice()[self.offset..end],
            );
            proof {
                let piece = self.tx_data@.subrange(self.offset as int, end as int);
                let before = self.chunks@;
                vstd::seq_lib::lemma_flatten_concat(before, seq![piece]);
                seq![piece].lemma_flatten_one_element();
                assert(self.tx_data@.take(end as int) =~= self.tx_data@.take(self.offset as int)
                    + piece);
                self.chunks = Ghost(before.push(piece));
                assert(before.push(piece) =~= before + seq![piece]);
                assert forall|i: int| 0 <= i < self.chunks@.len() implies (
                #[trigger] self.chunks@[i]).len() <= MAX_TX_LEN_PER_FRAME by {
                    if i < before.len() {
                        assert(self.chunks@[i] == before[i]);
                    }
                }
            }
            self.offset = end;
            self.awaiting_empty = false;
            I2cTransceiveStep::Send(cmd)
        } else if self.rx_data.len() < self.rx_length {
            let nothing: Vec<u8> = Vec::new();
            self.awaiting_empty = true;
            I2cTransceiveStep::Send(SubsequentTransceive::new(self.raw_port, nothing.as_slice()))
        } else {
            self.finished = true;
            assert(self.tx_data@.take(self.offset as int) =~= self.tx_data@);
            I2cTransceiveStep::Done(self.rx_data.clone())
        }
    }
}

/// The transmit chunks after `offset` are consecutive, hold between one and
/// 240 bytes each, and together are exactly the transmit bytes after
/// `offset`.
pub proof fn lemma_chunks_cover(tx: Seq<u8>, offset: int)
    requires
        0 <= offset <= tx.len(),
    ensures
        spec_remaining_chunks(tx, offset).flatten() == tx.subrange(offset, tx.len() as int),
        forall|i: int|
            0 <= i < spec_remaining_chunks(tx, offset).len() ==> 1 <= (
            #[trigger] spec_remaining_chunks(tx, offset)[i]).len() <= 240,
    decreases tx.len() - offset,
{
    let chunks = spec_remaining_chunks(tx, offset);
    if offset < tx.len() {
        let end = spec_chunk_end(tx.len() as int, offset);
        let first = tx.subrange(offset, end);
        let rest = spec_remaining_chunks(tx, end);
        lemma_chunks_cover(tx, end);
        assert(chunks == seq![first] + rest);
        vstd::seq_lib::lemma_flatten_concat(seq![first], rest);
        seq![first].lemma_flatten_one_element();
        assert(tx.subrange(offset, tx.len() as int) =~= first + tx.subrange(end, tx.len() as int));
        assert forall|i: int| 0 <= i < chunks.len() implies 1 <= (#[trigger] chunks[i]).len()
            <= 240 by {
            if i > 0 {
                assert(chunks[i] == rest[i - 1]);
            }
        }
    } else {
        assert(tx.subrange(offset, tx.len() as int) =~= Seq::<u8>::empty());
    }
}

/// Every frame that follows a reply goes to the session's port, and the
/// session keeps that port; a reply that ends reception sends nothing more.
pub proof fn lemma_frames_keep_port(
    old: I2cTransceiveSession,
    reply: Seq<u8>,
    new: I2cTransceiveSession,
    step: I2cTransceiveStep,
)
    ensures
        spec_after_reply(old, reply, new, step) ==> (step matches I2cTransceiveStep::Send(c)
            ==> c.port == old.raw_port),
        spec_end_of_reception(old, new, step) ==> step is Done,
{
}

} // verus!
