//! An in-memory, packet-sequenced mock stream for exercising read/write/stream
//! code deterministically in tests.
//!
//! A [`MockStream`] owns an ordered sequence of [`Packet`]s and a cursor over
//! them. Each read call consumes at most one packet and advances the cursor,
//! each write call appends one new packet, and flushing is a committed no-op,
//! so tests can predict and inspect every state transition exactly.

use vstd::prelude::*;

pub mod laws;
mod packet;

pub use crate::packet::Packet;
pub use crate::packet::PacketModel;

verus! {

/// The one failure the fixture can report: reading a stream that holds no
/// packets at all, which models an uninitialized or closed connection.
#[derive(Debug, Clone, Copy, PartialEq, Eq, Structural)]
pub enum StreamError {
    ReadOnEmptyStream,
}

/// How many bytes one pull of the block-sequence view reads from the current
/// packet at most.
pub const BLOCK_LEN: usize = 1024;

/// The mathematical model of a [`MockStream`]: the models of its packets, in
/// delivery order, and the cursor, the index of the next packet a read acts
/// on.
pub ghost struct StreamModel {
    pub packets: Seq<PacketModel>,
    pub cursor: nat,
}

impl StreamModel {
    /// A stream is well formed when the cursor lies within the packet
    /// sequence or just past its end, and every packet is well formed.
    pub open spec fn wf(self) -> bool {
        &&& self.cursor <= self.packets.len()
        &&& forall|i: int| 0 <= i < self.packets.len() ==> self.packets[i].wf()
    }

    /// A stream freshly loaded with one packet per buffer, cursor at the
    /// first packet.
    pub open spec fn loaded(bufs: Seq<Seq<u8>>) -> StreamModel {
        StreamModel {
            packets: bufs.map_values(|b: Seq<u8>| PacketModel::loaded(b)),
            cursor: 0,
        }
    }

    /// Whether the stream holds no packets at all: the state in which a read
    /// is a misuse and fails.
    pub open spec fn is_unloaded(self) -> bool {
        self.packets.len() == 0
    }

    /// Whether the cursor has advanced past the last packet: every further
    /// read yields zero bytes.
    pub open spec fn is_exhausted(self) -> bool {
        self.cursor >= self.packets.len()
    }

    /// How many bytes a read with a buffer of length `buf_len` yields: zero
    /// on an unloaded or exhausted stream, and as much of the current packet
    /// as the buffer can hold otherwise.
    pub open spec fn read_len(self, buf_len: nat) -> nat {
        if self.is_unloaded() || self.is_exhausted() {
            0
        } else {
            self.packets[self.cursor as int].read_count(buf_len)
        }
    }

    /// The bytes a read with a buffer of length `buf_len` yields, taken from
    /// the current packet's unread content.
    pub open spec fn read_data(self, buf_len: nat) -> Seq<u8> {
        if self.is_unloaded() || self.is_exhausted() {
            Seq::<u8>::empty()
        } else {
            self.packets[self.cursor as int].read_bytes(buf_len)
        }
    }

    /// The stream after one read with a buffer of length `buf_len`: the
    /// current packet's cursor advances by the count read and the stream
    /// cursor moves one packet forward; an unloaded or exhausted stream is
    /// left unchanged.
    pub open spec fn read_step(self, buf_len: nat) -> StreamModel {
        if self.is_unloaded() || self.is_exhausted() {
            self
        } else {
            StreamModel {
                packets: self.packets.update(
                    self.cursor as int,
                    self.packets[self.cursor as int].advanced(
                        self.packets[self.cursor as int].read_count(buf_len),
                    ),
                ),
                cursor: self.cursor + 1,
            }
        }
    }

    /// The stream after one write of `buf`: a new packet seeded with exactly
    /// those bytes joins the end of the sequence and the cursor advances to
    /// point at it — it lands on the new packet count, so the packet one
    /// position behind the cursor is always the packet just written.
    pub open spec fn write_step(self, buf: Seq<u8>) -> StreamModel {
        StreamModel {
            packets: self.packets.push(PacketModel::loaded(buf)),
            cursor: self.packets.len() + 1,
        }
    }
}

/// An ordered sequence of [`Packet`]s plus a cursor: a deterministic,
/// in-memory stand-in for a network or file connection.
///
/// Reads consume from the packet at the cursor and advance it by one packet
/// per call; writes append a new packet seeded with the written bytes; flush
/// and close are committed no-ops that always succeed.
#[derive(Debug)]
pub struct MockStream {
    index: usize,
    packets: Vec<Packet>,
}

impl View for MockStream {
    type V = StreamModel;

    closed spec fn view(&self) -> StreamModel {
        StreamModel {
            packets: self.packets@.map_values(|p: Packet| p@),
            cursor: self.index as nat,
        }
    }
}

impl MockStream {
    /// Whether the stream's cursor and packets are well formed.
    pub open spec fn wf(&self) -> bool {
        self@.wf()
    }

    /// Creates a stream that holds exactly one packet, pre-loaded with the
    /// given bytes: the read-side fixture.
    pub fn with_buffer(buf: &[u8]) -> (s: MockStream)
        ensures
            s@ == StreamModel::loaded(seq![buf@]),
            s.wf(),
    {
        let mut packets: Vec<Packet> = Vec::new();
        packets.push(Packet::from(buf));
        let s = MockStream { index: 0, packets };
        proof {
            assert(s@.packets =~= StreamModel::loaded(seq![buf@]).packets);
        }
        s
    }

    /// Creates a stream with one packet per buffer, in the given order: the
    /// multi-message fixture.
    pub fn from(bufs: &[&[u8]]) -> (s: MockStream)
        ensures
            s@ == StreamModel::loaded(bufs.deep_view()),
            s.wf(),
    {
        let mut packets: Vec<Packet> = Vec::new();
        let mut i: usize = 0;
        while i < bufs.len()
            invariant
                i <= bufs@.len(),
                packets@.len() == i,
                forall|k: int|
                    0 <= k < i ==> packets@[k]@ == PacketModel::loaded(bufs.deep_view()[k]),
            decreases bufs@.len() - i,
        {
            packets.push(Packet::from(bufs[i]));
            proof {
                assert(bufs.deep_view()[i as int] =~= bufs@[i as int]@);
            }
            i += 1;
        }
        let s = MockStream { index: 0, packets };
        proof {
            assert(s@.packets =~= StreamModel::loaded(bufs.deep_view()).packets);
        }
        s
    }

    /// Returns the number of packets in the stream: after `k` writes it has
    /// grown by exactly `k`.
    pub fn len(&self) -> (n: usize)
        ensures
            n == self@.packets.len(),
    {
        self.packets.len()
    }

    /// Returns the stream cursor: the index of the next packet a read acts
    /// on. Inspection through [`MockStream::as_ref`] is meaningful only once
    /// this is at least one, that is, once some packet has been acted on.
    pub fn cursor(&self) -> (c: usize)
        ensures
            c == self@.cursor,
    {
        self.index
    }

    /// Checks whether the stream holds no packets at all. A stream built by
    /// [`MockStream::with_buffer`] over an empty buffer still holds one
    /// (empty) packet and is not empty in this sense.
    pub fn is_empty(&self) -> (e: bool)
        ensures
            e == self@.is_unloaded(),
    {
        self.packets.is_empty()
    }

    /// One read step. On a stream with no packets it fails with
    /// [`StreamError::ReadOnEmptyStream`]; past the last packet it yields
    /// zero bytes; otherwise it copies up to `buf.len()` unread bytes of the
    /// packet at the cursor into the front of `buf`, advances the cursor one
    /// packet forward, and returns the count copied.
    pub fn read(&mut self, buf: &mut [u8]) -> (r: Result<usize, StreamError>)
        requires
            old(self).wf(),
        ensures
            final(self).wf(),
            final(self)@ == old(self)@.read_step(old(buf)@.len()),
            old(self)@.is_unloaded() ==> r == Err::<usize, StreamError>(
                StreamError::ReadOnEmptyStream,
            ),
            !old(self)@.is_unloaded() ==> r == Ok::<usize, StreamError>(
                old(self)@.read_len(old(buf)@.len()) as usize,
            ),
            final(buf)@ == old(self)@.read_data(old(buf)@.len()) + old(buf)@.skip(
                old(self)@.read_len(old(buf)@.len()) as int,
            ),
    {
        if self.packets.len() == 0 {
            proof {
                assert(buf@ =~= old(self)@.read_data(old(buf)@.len()) + old(buf)@.skip(0));
            }
            return Err(StreamError::ReadOnEmptyStream);
        }
        if self.index == self.packets.len() {
            proof {
                assert(buf@ =~= old(self)@.read_data(old(buf)@.len()) + old(buf)@.skip(0));
            }
            return Ok(0);
        }
        let idx = self.index;
        proof {
            assert(old(self)@.packets[idx as int].wf());
        }
        let r = self.packets[idx].read(buf);
        self.index = idx + 1;
        proof {
            assert(self@.packets =~= old(self)@.read_step(old(buf)@.len()).packets);
        }
        r
    }

    /// One write step: appends a new packet seeded with exactly the given
    /// bytes, advances the cursor to point at it, and returns the full input
    /// length. Writes never append to an existing packet and never partially
    /// accept.
    pub fn write(&mut self, buf: &[u8]) -> (r: Result<usize, StreamError>)
        requires
            old(self).wf(),
        ensures
            final(self).wf(),
            final(self)@ == old(self)@.write_step(buf@),
            r == Ok::<usize, StreamError>(buf@.len() as usize),
    {
        self.packets.push(Packet::from(buf));
        self.index = self.packets.len();
        proof {
            assert(self@.packets =~= old(self)@.write_step(buf@).packets);
        }
        Ok(buf.len())
    }

    /// A committed no-op that always succeeds: the stream never buffers
    /// anything that would need committing, and flushing moves no cursor.
    pub fn flush(&mut self) -> (r: Result<(), StreamError>)
        requires
            old(self).wf(),
        ensures
            final(self).wf(),
            final(self)@ == old(self)@,
            r == Ok::<(), StreamError>(()),
    {
        Ok(())
    }

    /// Closing always trivially succeeds: there is no resource to release.
    pub fn close(&mut self) -> (r: Result<(), StreamError>)
        requires
            old(self).wf(),
        ensures
            final(self).wf(),
            final(self)@ == old(self)@,
            r == Ok::<(), StreamError>(()),
    {
        Ok(())
    }

    /// One pull of the lazy block-sequence view: performs one read step with
    /// an internal buffer of [`BLOCK_LEN`] bytes and yields the bytes read as
    /// one block — zero-length when the packet at the cursor is already
    /// drained — `None` once no packet remains at or ahead of the cursor, or
    /// the read error as a terminal item.
    pub fn next(&mut self) -> (r: Option<Result<Vec<u8>, StreamError>>)
        requires
            old(self).wf(),
        ensures
            final(self).wf(),
            final(self)@ == old(self)@.read_step(BLOCK_LEN as nat),
            old(self)@.is_unloaded() ==> r == Some(
                Err::<Vec<u8>, StreamError>(StreamError::ReadOnEmptyStream),
            ),
            !old(self)@.is_unloaded() && old(self)@.is_exhausted() ==> r == None::<
                Result<Vec<u8>, StreamError>,
            >,
            !old(self)@.is_unloaded() && !old(self)@.is_exhausted() ==> (r matches Some(b) && b
                matches Ok(v) && v@ == old(self)@.read_data(BLOCK_LEN as nat)),
    {
        if self.packets.len() > 0 && self.index == self.packets.len() {
            return None;
        }
        let mut block: [u8; BLOCK_LEN] = [0u8; BLOCK_LEN];
        match self.read(&mut block) {
            Err(e) => Some(Err(e)),
            Ok(n) => {
                let taken = vstd::slice::slice_subrange(block.as_slice(), 0, n);
                Some(Ok(vstd::slice::slice_to_vec(taken)))
            },
        }
    }

    /// Exposes the full content of the packet one position behind the
    /// cursor — after a write, the packet just written; after a read, the
    /// packet just read — for post-hoc inspection.
    pub fn as_ref(&self) -> (r: &[u8])
        requires
            self.wf(),
            1 <= self@.cursor,
        ensures
            r@ == self@.packets[self@.cursor - 1].content,
    {
        self.packets[self.index - 1].as_ref()
    }
}

impl Default for MockStream {
    /// A stream with no packets at all: the write-side fixture, on which a
    /// bare read is a misuse and fails.
    fn default() -> (s: MockStream)
        ensures
            s@ == StreamModel::loaded(Seq::<Seq<u8>>::empty()),
            s.wf(),
    {
        let s = MockStream { index: 0, packets: Vec::new() };
        proof {
            assert(s@.packets =~= StreamModel::loaded(Seq::<Seq<u8>>::empty()).packets);
        }
        s
    }
}

} // verus!
