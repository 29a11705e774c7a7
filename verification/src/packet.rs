//! A packet: one independently addressable byte buffer with its own read
//! cursor, the unit of "one write call's worth of data".

use vstd::prelude::*;

use crate::StreamError;

verus! {

/// The mathematical model of a [`Packet`]: its full byte content and the
/// offset of the next unread byte.
pub ghost struct PacketModel {
    pub content: Seq<u8>,
    pub read_position: nat,
}

impl PacketModel {
    /// A packet is well formed when its read cursor lies within its content.
    pub open spec fn wf(self) -> bool {
        self.read_position <= self.content.len()
    }

    /// How many bytes remain between the read cursor and the end of content.
    pub open spec fn remaining(self) -> nat
        recommends
            self.wf(),
    {
        (self.content.len() - self.read_position) as nat
    }

    /// How many bytes a read with a buffer of length `buf_len` yields: all the
    /// remaining bytes, or as many as the buffer can hold.
    pub open spec fn read_count(self, buf_len: nat) -> nat
        recommends
            self.wf(),
    {
        if buf_len <= self.remaining() {
            buf_len
        } else {
            self.remaining()
        }
    }

    /// The bytes a read with a buffer of length `buf_len` yields: the first
    /// `read_count` unread bytes.
    pub open spec fn read_bytes(self, buf_len: nat) -> Seq<u8>
        recommends
            self.wf(),
    {
        self.content.subrange(
            self.read_position as int,
            self.read_position + self.read_count(buf_len) as int,
        )
    }

    /// The same packet with its read cursor advanced by `n` bytes.
    pub open spec fn advanced(self, n: nat) -> PacketModel {
        PacketModel { content: self.content, read_position: self.read_position + n }
    }

    /// A fresh packet loaded with `content`, read cursor at the start.
    pub open spec fn loaded(content: Seq<u8>) -> PacketModel {
        PacketModel { content: content, read_position: 0 }
    }
}

/// An independent, growable byte buffer with an internal read cursor.
///
/// Reads copy from the cursor forward and advance it; writes always append to
/// the end of the content and never move the cursor; the content never
/// shrinks.
#[derive(Debug)]
pub struct Packet {
    content: Vec<u8>,
    read_position: usize,
}

impl View for Packet {
    type V = PacketModel;

    closed spec fn view(&self) -> PacketModel {
        PacketModel { content: self.content@, read_position: self.read_position as nat }
    }
}

impl Packet {
    /// Whether the packet's read cursor lies within its content.
    pub open spec fn wf(&self) -> bool {
        self@.wf()
    }

    /// Builds a packet whose content is exactly the given bytes, with the
    /// read cursor at the start.
    pub fn from(buf: &[u8]) -> (p: Packet)
        ensures
            p@ == PacketModel::loaded(buf@),
            p.wf(),
    {
        Packet { content: vstd::slice::slice_to_vec(buf), read_position: 0 }
    }

    /// Copies up to `min(buf.len(), remaining)` unread bytes into the front
    /// of `buf`, advances the read cursor by that count, and returns it.
    /// Reading past the end yields zero bytes, never an error.
    pub fn read(&mut self, buf: &mut [u8]) -> (r: Result<usize, StreamError>)
        requires
            old(self).wf(),
        ensures
            final(self).wf(),
            r == Ok::<usize, StreamError>(
                old(self)@.read_count(old(buf)@.len()) as usize,
            ),
            final(self)@ == old(self)@.advanced(old(self)@.read_count(old(buf)@.len())),
            final(buf)@ == old(self)@.read_bytes(old(buf)@.len()) + old(buf)@.skip(
                old(self)@.read_count(old(buf)@.len()) as int,
            ),
    {
        let remaining = self.content.len() - self.read_position;
        let n = if buf.len() < remaining {
            buf.len()
        } else {
            remaining
        };
        assert(n == old(self)@.read_count(old(buf)@.len()));
        let mut i: usize = 0;
        while i < n
            invariant
                i <= n,
                n <= buf@.len(),
                self == old(self),
                self.wf(),
                n <= self@.remaining(),
                self@.read_position + n <= self@.content.len() <= usize::MAX,
                buf@.len() == old(buf)@.len(),
                forall|k: int|
                    0 <= k < i ==> buf@[k] == self@.content[self@.read_position + k],
                forall|k: int| i <= k < buf@.len() ==> buf@[k] == old(buf)@[k],
            decreases n - i,
        {
            buf[i] = self.content[self.read_position + i];
            i += 1;
        }
        self.read_position = self.read_position + n;
        proof {
            assert(buf@ =~= old(self)@.read_bytes(old(buf)@.len()) + old(buf)@.skip(n as int));
        }
        Ok(n)
    }

    /// Appends the given bytes to the end of the content, leaving the read
    /// cursor where it was, and returns how many bytes were appended: always
    /// all of them.
    pub fn write(&mut self, buf: &[u8]) -> (r: Result<usize, StreamError>)
        requires
            old(self).wf(),
        ensures
            final(self).wf(),
            r == Ok::<usize, StreamError>(buf@.len() as usize),
            final(self)@.content == old(self)@.content + buf@,
            final(self)@.read_position == old(self)@.read_position,
    {
        let mut tail = vstd::slice::slice_to_vec(buf);
        self.content.append(&mut tail);
        Ok(buf.len())
    }

    /// A committed no-op that always succeeds: the packet never buffers
    /// anything that would need committing.
    pub fn flush(&mut self) -> (r: Result<(), StreamError>)
        requires
            old(self).wf(),
        ensures
            final(self).wf(),
            final(self)@ == old(self)@,
            r == Ok::<(), StreamError>(()),
    {
        Ok(())
    }

    /// Exposes the full content as a read-only byte view, independent of the
    /// read cursor, for post-hoc inspection.
    pub fn as_ref(&self) -> (r: &[u8])
        ensures
            r@ == self@.content,
    {
        self.content.as_slice()
    }
}

impl Default for Packet {
    /// A fresh packet with no content and the read cursor at the start.
    fn default() -> (p: Packet)
        ensures
            p@ == PacketModel::loaded(Seq::<u8>::empty()),
            p.wf(),
    {
        Packet { content: Vec::new(), read_position: 0 }
    }
}

} // verus!
