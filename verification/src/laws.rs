//! The general laws of the stream: proofs over [`StreamModel`] and
//! [`PacketModel`] that relate the operations to one another across any
//! number of calls.

use vstd::prelude::*;

use crate::packet::PacketModel;
use crate::StreamModel;
use crate::BLOCK_LEN;

verus! {

/// The stream after writing each of `bufs`, in order, one write per buffer.
pub open spec fn written(s: StreamModel, bufs: Seq<Seq<u8>>) -> StreamModel
    decreases bufs.len(),
{
    if bufs.len() == 0 {
        s
    } else {
        written(s.write_step(bufs.first()), bufs.drop_first())
    }
}

/// The stream after `k` reads, each with a buffer of length `buf_len`.
pub open spec fn read_n(s: StreamModel, buf_len: nat, k: nat) -> StreamModel
    decreases k,
{
    if k == 0 {
        s
    } else {
        read_n(s, buf_len, (k - 1) as nat).read_step(buf_len)
    }
}

/// Law: writing bytes and then inspecting the written packet yields exactly
/// those bytes, with none of them yet read — in every state: the written
/// packet is the last of the sequence, and it is the one the inspection path
/// shows, one position behind the cursor.
pub proof fn law_write_round_trip(s: StreamModel, buf: Seq<u8>)
    ensures
        s.write_step(buf).packets.last() == PacketModel::loaded(buf),
        s.write_step(buf).packets.last().content == buf,
        s.write_step(buf).cursor == s.write_step(buf).packets.len(),
        s.write_step(buf).packets[s.write_step(buf).cursor - 1].content == buf,
{
}

/// Law: packet count monotonicity — the packet count after a sequence of
/// write calls is the count before them plus the number of calls.
pub proof fn law_packet_count_monotonic(s: StreamModel, bufs: Seq<Seq<u8>>)
    ensures
        written(s, bufs).packets.len() == s.packets.len() + bufs.len(),
    decreases bufs.len(),
{
    if bufs.len() > 0 {
        law_packet_count_monotonic(s.write_step(bufs.first()), bufs.drop_first());
    }
}

/// Law: read exhaustion — once the cursor of a non-empty stream has advanced
/// past the last packet, any number of further reads leaves the stream
/// unchanged and yields zero bytes (and, by `read`'s contract, never an
/// error).
pub proof fn law_read_exhaustion(s: StreamModel, buf_len: nat, k: nat)
    requires
        !s.is_unloaded(),
        s.is_exhausted(),
    ensures
        read_n(s, buf_len, k) == s,
        read_n(s, buf_len, k).read_len(buf_len) == 0,
    decreases k,
{
    if k > 0 {
        law_read_exhaustion(s, buf_len, (k - 1) as nat);
    }
}

/// Law: the two empty fixtures are distinct states. A stream with zero
/// packets is unloaded, so a read leaves it unchanged and (by `read`'s
/// contract) fails with the empty-stream error; a stream holding exactly one
/// empty packet is not unloaded, and a read on it yields zero bytes
/// successfully.
pub proof fn law_empty_stream_read(buf_len: nat)
    ensures
        StreamModel::loaded(Seq::<Seq<u8>>::empty()).is_unloaded(),
        StreamModel::loaded(Seq::<Seq<u8>>::empty()).read_step(buf_len)
            == StreamModel::loaded(Seq::<Seq<u8>>::empty()),
        !StreamModel::loaded(seq![Seq::<u8>::empty()]).is_unloaded(),
        StreamModel::loaded(seq![Seq::<u8>::empty()]).read_len(buf_len) == 0,
        StreamModel::loaded(seq![Seq::<u8>::empty()]).read_data(buf_len) == Seq::<u8>::empty(),
{
    assert(StreamModel::loaded(seq![Seq::<u8>::empty()]).packets.len() == 1);
    assert(StreamModel::loaded(seq![Seq::<u8>::empty()]).read_data(buf_len)
        =~= Seq::<u8>::empty());
}

/// After `k` reads of a freshly loaded stream the cursor stands at packet
/// `k`, the packet count is unchanged, and the packets from `k` on are still
/// untouched.
proof fn lemma_read_n_loaded(bufs: Seq<Seq<u8>>, buf_len: nat, k: nat)
    requires
        k <= bufs.len(),
    ensures
        read_n(StreamModel::loaded(bufs), buf_len, k).cursor == k,
        read_n(StreamModel::loaded(bufs), buf_len, k).packets.len() == bufs.len(),
        forall|j: int|
            k <= j < bufs.len() ==> read_n(StreamModel::loaded(bufs), buf_len, k).packets[j]
                == PacketModel::loaded(bufs[j]),
    decreases k,
{
    if k > 0 {
        lemma_read_n_loaded(bufs, buf_len, (k - 1) as nat);
    }
}

/// Law: multi-packet ordering — on a freshly loaded multi-packet stream, the
/// i-th read call yields exactly the i-th buffer's content in full whenever
/// that buffer fits the caller's buffer.
pub proof fn law_multi_packet_ordering(bufs: Seq<Seq<u8>>, buf_len: nat, i: nat)
    requires
        i < bufs.len(),
        bufs[i as int].len() <= buf_len,
    ensures
        read_n(StreamModel::loaded(bufs), buf_len, i).read_len(buf_len) == bufs[i as int].len(),
        read_n(StreamModel::loaded(bufs), buf_len, i).read_data(buf_len) == bufs[i as int],
{
    lemma_read_n_loaded(bufs, buf_len, i);
    assert(read_n(StreamModel::loaded(bufs), buf_len, i).read_data(buf_len)
        =~= bufs[i as int]);
}

/// Law: the block-sequence view yields one block per packet, in order — on a
/// freshly loaded stream the i-th pull finds the stream neither unloaded nor
/// exhausted, so it yields a block, and that block is exactly the i-th
/// buffer's content whenever it fits one block.
pub proof fn law_block_sequence_ordering(bufs: Seq<Seq<u8>>, i: nat)
    requires
        i < bufs.len(),
        bufs[i as int].len() <= BLOCK_LEN as nat,
    ensures
        !read_n(StreamModel::loaded(bufs), BLOCK_LEN as nat, i).is_unloaded(),
        !read_n(StreamModel::loaded(bufs), BLOCK_LEN as nat, i).is_exhausted(),
        read_n(StreamModel::loaded(bufs), BLOCK_LEN as nat, i).read_data(BLOCK_LEN as nat)
            == bufs[i as int],
{
    lemma_read_n_loaded(bufs, BLOCK_LEN as nat, i);
    law_multi_packet_ordering(bufs, BLOCK_LEN as nat, i);
}

/// Law: the block-sequence view terminates — after one read per packet a
/// loaded stream is still non-empty but exhausted, so the pull after the
/// last packet yields no further block.
pub proof fn law_block_sequence_terminates(bufs: Seq<Seq<u8>>, buf_len: nat)
    ensures
        bufs.len() > 0 ==> !read_n(StreamModel::loaded(bufs), buf_len, bufs.len()).is_unloaded(),
        read_n(StreamModel::loaded(bufs), buf_len, bufs.len()).is_exhausted(),
        read_n(StreamModel::loaded(bufs), buf_len, bufs.len()).read_len(buf_len) == 0,
{
    lemma_read_n_loaded(bufs, buf_len, bufs.len());
}

/// Law: the stream cursor never moves backwards — a read advances it by at
/// most one packet and never past the end, and a write advances it to the
/// new packet count, at or ahead of wherever it stood.
pub proof fn law_cursor_monotonic(s: StreamModel, buf_len: nat, buf: Seq<u8>)
    requires
        s.wf(),
    ensures
        s.cursor <= s.read_step(buf_len).cursor,
        s.read_step(buf_len).cursor <= s.cursor + 1,
        s.cursor < s.write_step(buf).cursor,
        s.write_step(buf).cursor == s.packets.len() + 1,
{
}

} // verus!
