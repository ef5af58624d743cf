//! The plan of a bulk transfer: how a data set of a given size is asked
//! for in chunks.

use vstd::prelude::*;
use crate::protocol::{le32_bytes, push_u32};

verus! {

/// The largest chunk, as a number.
pub open spec fn max_chunk() -> int {
    65472
}

/// The number of chunks of a data set: `size / MAX_CHUNK`, rounded up.
pub open spec fn chunk_count(size: int) -> int {
    (size + max_chunk() - 1) / max_chunk()
}

/// What is left over when the data set is cut into full chunks.
pub open spec fn chunk_remainder(size: int) -> int {
    size % max_chunk()
}

/// The offset of chunk `i` in the data set.
pub open spec fn chunk_start(i: int) -> int {
    i * max_chunk()
}

/// The length of chunk `i`: the remainder for the last chunk, if there
/// is one, and a full chunk otherwise.
pub open spec fn chunk_len(size: int, i: int) -> int {
    if i == chunk_count(size) - 1 && chunk_remainder(size) > 0 {
        chunk_remainder(size)
    } else {
        max_chunk()
    }
}

/// The payload of the request for chunk `i`: its offset and its length.
pub open spec fn chunk_request_payload(size: int, i: int) -> Seq<u8> {
    le32_bytes(chunk_start(i)) + le32_bytes(chunk_len(size, i))
}

/// The seconds allowed for receiving all chunks.
pub open spec fn receive_budget_secs(size: int) -> int {
    60 + 30 * chunk_count(size)
}

/// The chunks of a data set follow one another without gap and end where
/// the data set ends; none is empty or longer than a full chunk.
pub proof fn lemma_chunks_cover(size: int, i: int)
    requires
        0 <= size,
        0 <= i < chunk_count(size),
    ensures
        0 < chunk_len(size, i) <= max_chunk(),
        chunk_start(i) + chunk_len(size, i) <= size,
        i + 1 < chunk_count(size) ==> chunk_start(i) + chunk_len(size, i) == chunk_start(i + 1),
        i + 1 == chunk_count(size) ==> chunk_start(i) + chunk_len(size, i) == size,
{
    let n = chunk_count(size);
    let r = chunk_remainder(size);
    assert(size == max_chunk() * (size / max_chunk()) + r);
    if r > 0 {
        assert(n == size / max_chunk() + 1);
    } else {
        assert(n == size / max_chunk());
    }
    assert(i * max_chunk() + max_chunk() == (i + 1) * max_chunk()) by (nonlinear_arith);
    assert(i + 1 <= n ==> (i + 1) * max_chunk() <= n * max_chunk()) by (nonlinear_arith);
    assert(i + 1 < n ==> (i + 2) * max_chunk() <= n * max_chunk()) by (nonlinear_arith);
}

/// A data set of no bytes has no chunks.
pub proof fn lemma_no_chunks_iff_empty(size: int)
    requires
        0 <= size,
    ensures
        chunk_count(size) == 0 <==> size == 0,
{
}

/// The number of chunks of a data set.
pub fn total_chunks(size: u32) -> (count: u32)
    ensures
        count as int == chunk_count(size as int),
        count <= 65601,
{
    ((size as u64 + 65471) / 65472) as u32
}

/// The seconds allowed for receiving all chunks of a data set.
pub fn receive_budget(size: u32) -> (secs: u64)
    ensures
        secs as int == receive_budget_secs(size as int),
{
    60 + 30 * (total_chunks(size) as u64)
}

/// The payload of the request for one chunk.
pub fn chunk_request(size: u32, index: u32) -> (payload: Vec<u8>)
    requires
        index < chunk_count(size as int),
    ensures
        payload@ == chunk_request_payload(size as int, index as int),
        payload@.len() == 8,
{
    let total: u32 = total_chunks(size);
    let remain: u32 = size % 65472;
    proof {
        lemma_chunks_cover(size as int, index as int);
    }
    let start: u32 = index * 65472;
    let len: u32 = if index == total - 1 && remain > 0 {
        remain
    } else {
        65472
    };
    let mut payload: Vec<u8> = Vec::new();
    push_u32(&mut payload, start);
    push_u32(&mut payload, len);
    payload
}

} // verus!
