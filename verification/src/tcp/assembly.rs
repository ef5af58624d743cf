//! Taking the chunk stream of a bulk read apart.

use vstd::prelude::*;
use vstd::slice::{slice_subrange, slice_to_vec};
use crate::protocol::{append_bytes, read_u16, tcp_envelope, word_at};
use crate::transfer::{
    chunk_count, chunk_len, chunk_remainder, chunk_start, lemma_chunks_cover, max_chunk,
};

verus! {

/// The chunk stream of a bulk read while it is taken apart.
#[verifier::ext_equal]
pub struct Assembly {
    /// Received bytes not yet taken apart.
    pub stream: Seq<u8>,
    /// The payload of the chunk that is being received.
    pub chunk: Seq<u8>,
    /// The data set assembled so far.
    pub data: Seq<u8>,
    /// The number of chunks still to come.
    pub remaining: int,
    /// An inner packet announced a length below that of its own header.
    pub malformed: bool,
}

/// The bytes that complete a chunk: eight of metadata and a full chunk of
/// data while more than one chunk is to come, and eight of metadata and
/// the remainder for the last one.
pub open spec fn expected_chunk_bytes(size: int, remaining: int) -> int {
    if remaining > 1 {
        max_chunk() + 8
    } else {
        chunk_remainder(size) + 8
    }
}

/// Takes whole inner packets off the stream for as long as chunks are to
/// come. The envelope of each announces the inner length at bytes 4..6;
/// what follows the inner header goes to the chunk. A chunk that has
/// reached its expected size gives what follows its eight bytes of
/// metadata to the data set.
pub open spec fn drained(a: Assembly, size: int) -> Assembly
    decreases a.stream.len(),
{
    if a.malformed || a.remaining <= 0 || a.stream.len() < 8 {
        a
    } else {
        let len = word_at(a.stream, 4);
        if a.stream.len() < 8 + len {
            a
        } else if len < 8 {
            Assembly { malformed: true, ..a }
        } else {
            let chunk = a.chunk + a.stream.subrange(16, 8 + len);
            let rest = a.stream.skip(8 + len);
            if chunk.len() >= expected_chunk_bytes(size, a.remaining) {
                drained(
                    Assembly {
                        stream: rest,
                        chunk: Seq::empty(),
                        data: a.data + chunk.skip(8),
                        remaining: a.remaining - 1,
                        malformed: false,
                    },
                    size,
                )
            } else {
                drained(Assembly { stream: rest, chunk: chunk, ..a }, size)
            }
        }
    }
}

/// The chunk stream with the given parts, and no malformed packet seen.
pub open spec fn assembly(
    stream: Seq<u8>,
    chunk: Seq<u8>,
    data: Seq<u8>,
    remaining: int,
) -> Assembly {
    Assembly { stream, chunk, data, remaining, malformed: false }
}

/// Takes the whole inner packets off `stream`, as `drained` says. Returns
/// the number of chunks still to come, and whether a packet was malformed.
pub fn drain_stream(
    stream: &mut Vec<u8>,
    chunk: &mut Vec<u8>,
    data: &mut Vec<u8>,
    remaining: u32,
    size: u32,
) -> (left: (u32, bool))
    ensures
        drained(assembly(old(stream)@, old(chunk)@, old(data)@, remaining as int), size as int)
            == (Assembly {
            malformed: left.1,
            ..assembly(final(stream)@, final(chunk)@, final(data)@, left.0 as int)
        }),
{
    let ghost start = assembly(stream@, chunk@, data@, remaining as int);
    let n: usize = stream.len();
    let mut pos: usize = 0;
    let mut left: u32 = remaining;
    let mut malformed: bool = false;
    assert(stream@.skip(0) =~= stream@);
    loop
        invariant_except_break
            !malformed,
        invariant
            n == stream@.len(),
            stream@ == old(stream)@,
            pos <= n,
            drained(start, size as int) == drained(
                assembly(stream@.skip(pos as int), chunk@, data@, left as int),
                size as int,
            ),
        ensures
            n == stream@.len(),
            pos <= n,
            drained(start, size as int) == (Assembly {
                malformed: malformed,
                ..assembly(stream@.skip(pos as int), chunk@, data@, left as int)
            }),
        decreases n - pos,
    {
        let ghost cur = assembly(stream@.skip(pos as int), chunk@, data@, left as int);
        if left == 0 || n - pos < 8 {
            break;
        }
        let len: usize = read_u16(stream.as_slice(), pos + 4) as usize;
        assert(len == word_at(cur.stream, 4));
        if n - pos < 8 + len {
            break;
        }
        if len < 8 {
            malformed = true;
            break;
        }
        let body = slice_subrange(stream.as_slice(), pos + 16, pos + 8 + len);
        assert(body@ =~= cur.stream.subrange(16, 8 + len as int));
        append_bytes(chunk, body);
        assert(stream@.skip(pos as int + 8 + len as int) =~= cur.stream.skip(8 + len as int));
        pos = pos + 8 + len;
        let expected: usize = if left > 1 {
            65480
        } else {
            (size % 65472) as usize + 8
        };
        if chunk.len() >= expected {
            let tail = slice_subrange(chunk.as_slice(), 8, chunk.len());
            assert(tail@ =~= chunk@.skip(8));
            append_bytes(data, tail);
            chunk.clear();
            left = left - 1;
        }
    }
    let rest: Vec<u8> = slice_to_vec(slice_subrange(stream.as_slice(), pos, n));
    assert(rest@ =~= stream@.skip(pos as int));
    *stream = rest;
    (left, malformed)
}

/// One chunk of a data set as the device sends it in a single inner
/// packet.
pub struct ChunkPacket {
    /// The eight header bytes of the inner packet.
    pub header: Seq<u8>,
    /// The eight bytes of metadata in front of the data.
    pub meta: Seq<u8>,
    /// The bytes of the chunk.
    pub data: Seq<u8>,
}

/// The bytes of a chunk packet on the stream: the envelope with the inner
/// length, the inner header, the metadata and the data.
pub open spec fn framed(p: ChunkPacket) -> Seq<u8> {
    tcp_envelope(16 + p.data.len() as int) + p.header + p.meta + p.data
}

/// The stream of chunk packets, one after the other.
pub open spec fn chunk_stream(packets: Seq<ChunkPacket>) -> Seq<u8>
    decreases packets.len(),
{
    if packets.len() == 0 {
        Seq::empty()
    } else {
        framed(packets[0]) + chunk_stream(packets.skip(1))
    }
}

/// The data of chunk packets, one after the other.
pub open spec fn chunk_data(packets: Seq<ChunkPacket>) -> Seq<u8>
    decreases packets.len(),
{
    if packets.len() == 0 {
        Seq::empty()
    } else {
        packets[0].data + chunk_data(packets.skip(1))
    }
}

/// Whether the packets are the chunks of a data set of `size` bytes, each
/// of the length that was asked for.
pub open spec fn chunks_of(packets: Seq<ChunkPacket>, size: int) -> bool {
    &&& packets.len() == chunk_count(size)
    &&& forall|i: int|
        0 <= i < packets.len() ==> {
            &&& (#[trigger] packets[i]).header.len() == 8
            &&& packets[i].meta.len() == 8
            &&& packets[i].data.len() == chunk_len(size, i)
        }
}

/// What is left to take apart after the first `k` chunks, with `done`
/// assembled so far.
pub open spec fn assembly_after(packets: Seq<ChunkPacket>, k: int, done: Seq<u8>) -> Assembly {
    assembly(chunk_stream(packets.skip(k)), Seq::empty(), done, packets.len() - k)
}

/// The end of a bulk read that has assembled `data`.
pub open spec fn assembled(data: Seq<u8>) -> Assembly {
    assembly(Seq::empty(), Seq::empty(), data, 0)
}

/// Taking apart what is left after `k` chunks assembles the data of the
/// remaining chunks behind what was assembled before.
pub proof fn lemma_chunks_reassemble_from(
    packets: Seq<ChunkPacket>,
    size: int,
    k: int,
    done: Seq<u8>,
)
    requires
        0 <= size,
        chunks_of(packets, size),
        0 <= k <= packets.len(),
    ensures
        drained(assembly_after(packets, k, done), size) == assembled(
            done + chunk_data(packets.skip(k)),
        ),
    decreases packets.len() - k,
{
    let n = packets.len() as int;
    let rest_packets = packets.skip(k);
    if k == n {
        assert(rest_packets.len() == 0);
        assert(done + chunk_data(rest_packets) =~= done);
    } else {
        let p = packets[k];
        assert(rest_packets[0] == p);
        assert(rest_packets.skip(1) =~= packets.skip(k + 1));
        lemma_chunks_cover(size, k);
        let stream = chunk_stream(rest_packets);
        let tail = chunk_stream(packets.skip(k + 1));
        let len: int = 16 + p.data.len() as int;
        assert(stream == framed(p) + tail);
        assert(framed(p).len() == 8 + len);
        assert(stream[4] == framed(p)[4] && stream[5] == framed(p)[5]);
        assert(word_at(stream, 4) == len);
        assert(stream.subrange(16, 8 + len) =~= p.meta + p.data);
        assert(stream.skip(8 + len) =~= tail);
        let chunk = Seq::<u8>::empty() + stream.subrange(16, 8 + len);
        assert(chunk =~= p.meta + p.data);
        assert(chunk.skip(8) =~= p.data);
        assert(chunk.len() >= expected_chunk_bytes(size, n - k));
        lemma_chunks_reassemble_from(packets, size, k + 1, done + p.data);
        assert(done + p.data + chunk_data(packets.skip(k + 1)) =~= done + chunk_data(
            rest_packets,
        ));
    }
}

/// A bulk read assembles the data set: when every chunk that was asked
/// for comes in one inner packet, eight bytes of metadata in front of its
/// data, taking the stream apart gives the data of the chunks in their
/// order, with nothing left over and no chunk to come.
pub proof fn lemma_chunks_reassemble(packets: Seq<ChunkPacket>, size: int)
    requires
        0 <= size,
        chunks_of(packets, size),
    ensures
        drained(
            assembly(chunk_stream(packets), Seq::empty(), Seq::empty(), chunk_count(size)),
            size,
        ) == assembled(chunk_data(packets)),
        chunk_data(packets).len() == size,
{
    assert(packets.skip(0) =~= packets);
    lemma_chunks_reassemble_from(packets, size, 0, Seq::empty());
    assert(Seq::<u8>::empty() + chunk_data(packets) =~= chunk_data(packets));
    lemma_chunk_data_len(packets, size, 0);
}

/// The data of the chunks from the `k`th on is as long as what the data
/// set holds from the start of that chunk on.
pub proof fn lemma_chunk_data_len(packets: Seq<ChunkPacket>, size: int, k: int)
    requires
        0 <= size,
        chunks_of(packets, size),
        0 <= k <= packets.len(),
    ensures
        chunk_data(packets.skip(k)).len() == if k == packets.len() {
            0
        } else {
            size - chunk_start(k)
        },
    decreases packets.len() - k,
{
    let rest = packets.skip(k);
    if k < packets.len() {
        assert(rest[0] == packets[k]);
        assert(rest.skip(1) =~= packets.skip(k + 1));
        lemma_chunks_cover(size, k);
        lemma_chunk_data_len(packets, size, k + 1);
    }
}

} // verus!
