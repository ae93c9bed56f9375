//! Splitting a sequence into groups of a bounded size.

use crate::error::ExpoNotificationError;
use vstd::prelude::*;
use vstd::slice::slice_subrange;

verus! {

/// The chunk size that matches the most that the server takes in one request.
pub const DEFAULT_CHUNK_SIZE: usize = 100;

/// The number of chunks that `len` items make at `size` items a chunk: the
/// quotient of `len` by `size`, rounded up.
pub open spec fn chunk_count(len: nat, size: nat) -> nat
    recommends
        size > 0,
{
    ((len + size - 1) / (size as int)) as nat
}

/// Where chunk `i` ends: `size` items after its start, or at the end of the
/// sequence where fewer are left.
pub open spec fn chunk_end(len: nat, size: nat, i: int) -> int {
    if (i + 1) * size <= len {
        (i + 1) * size
    } else {
        len as int
    }
}

/// Chunk `i` of a sequence: the items from `i * size` on, up to `size` of them.
pub open spec fn chunk_at<T>(items: Seq<T>, size: nat, i: int) -> Seq<T>
    recommends
        size > 0,
        0 <= i < chunk_count(items.len(), size),
{
    items.subrange(i * size, chunk_end(items.len(), size, i))
}

/// The chunks of a sequence, in order.
pub open spec fn chunks_of<T>(items: Seq<T>, size: nat) -> Seq<Seq<T>>
    recommends
        size > 0,
{
    Seq::new(chunk_count(items.len(), size), |i: int| chunk_at(items, size, i))
}

/// What a list of slices holds.
pub open spec fn slices_view<T>(slices: Seq<&[T]>) -> Seq<Seq<T>> {
    slices.map_values(|s: &[T]| s@)
}

/// The number of chunks is the least `count` with `count * size >= len`.
pub proof fn lemma_chunk_count_is_ceiling(len: nat, size: nat)
    requires
        size > 0,
    ensures
        chunk_count(len, size) * size >= len,
        chunk_count(len, size) > 0 ==> (chunk_count(len, size) - 1) * size < len,
        len == 0 <==> chunk_count(len, size) == 0,
{
    let count = (len + size - 1) / (size as int);
    vstd::arithmetic::div_mod::lemma_fundamental_div_mod(len + size - 1, size as int);
    vstd::arithmetic::div_mod::lemma_mod_bound(len + size - 1, size as int);
    assert(len + size - 1 == size * count + (len + size - 1) % (size as int));
    assert(size * count == count * size) by (nonlinear_arith);
    assert((count - 1) * size == count * size - size) by (nonlinear_arith);
    if len == 0 {
        vstd::arithmetic::div_mod::lemma_basic_div(size - 1, size as int);
    }
    if count <= 0 {
        assert(count * size <= 0) by (nonlinear_arith)
            requires
                count <= 0,
                size > 0,
        ;
    }
}

/// A count that reaches the length, while one less does not, is the number
/// of chunks.
pub proof fn lemma_ceiling_is_chunk_count(len: nat, size: nat, count: nat)
    requires
        size > 0,
        count * size >= len,
        count > 0 ==> (count - 1) * size < len,
    ensures
        count == chunk_count(len, size),
{
    lemma_chunk_count_is_ceiling(len, size);
    let other = chunk_count(len, size);
    if count < other {
        assert(count * size <= (other - 1) * size) by (nonlinear_arith)
            requires
                count <= other - 1,
                size > 0,
        ;
    }
    if other < count {
        assert(other * size <= (count - 1) * size) by (nonlinear_arith)
            requires
                other <= count - 1,
                size > 0,
        ;
    }
}

/// Every chunk but the last holds exactly `size` items, and the last holds
/// at least one and at most `size`.
pub proof fn lemma_chunk_lengths<T>(items: Seq<T>, size: nat, i: int)
    requires
        size > 0,
        0 <= i < chunk_count(items.len(), size),
    ensures
        0 <= i * size < items.len(),
        i * size < chunk_end(items.len(), size, i) <= items.len(),
        i + 1 < chunk_count(items.len(), size) ==> chunk_at(items, size, i).len() == size,
        1 <= chunk_at(items, size, i).len() <= size,
{
    let count = chunk_count(items.len(), size);
    lemma_chunk_count_is_ceiling(items.len(), size);
    assert(i * size <= (count - 1) * size) by (nonlinear_arith)
        requires
            0 <= i <= count - 1,
            size > 0,
    ;
    assert(0 <= i * size) by (nonlinear_arith)
        requires
            0 <= i,
            size > 0,
    ;
    assert((i + 1) * size == i * size + size) by (nonlinear_arith);
    if i + 1 < count {
        assert((i + 1) * size <= (count - 1) * size) by (nonlinear_arith)
            requires
                i + 1 <= count - 1,
                size > 0,
        ;
    }
}

/// The first `n` chunks, one after the other, are the items before the end
/// of chunk `n - 1`.
proof fn lemma_chunks_concat_prefix<T>(items: Seq<T>, size: nat, n: nat)
    requires
        size > 0,
        n <= chunk_count(items.len(), size),
    ensures
        Seq::new(n, |i: int| chunk_at(items, size, i)).flatten_alt() == items.take(
            if n == 0 {
                0
            } else {
                chunk_end(items.len(), size, n - 1)
            },
        ),
    decreases n,
{
    let chunks = Seq::new(n, |i: int| chunk_at(items, size, i));
    if n == 0 {
        assert(chunks.flatten_alt() =~= items.take(0));
    } else {
        let front = Seq::new((n - 1) as nat, |i: int| chunk_at(items, size, i));
        lemma_chunks_concat_prefix(items, size, (n - 1) as nat);
        lemma_chunk_lengths(items, size, n - 1);
        assert(chunks.drop_last() =~= front);
        assert(chunks.last() == chunk_at(items, size, n - 1));
        if n == 1 {
            assert(front.flatten_alt() =~= items.take(0));
            assert((n - 1) * size == 0);
        } else {
            lemma_chunk_lengths(items, size, n - 2);
            assert((n - 2 + 1) * size == (n - 1) * size);
            assert(chunk_end(items.len(), size, n - 2) == (n - 1) * size);
        }
        assert(items.take((n - 1) * size) + chunk_at(items, size, n - 1) =~= items.take(
            chunk_end(items.len(), size, n - 1),
        ));
    }
}

/// The chunks of a sequence, one after the other, are the sequence: no item
/// is lost, added or moved.
pub proof fn lemma_chunks_concat<T>(items: Seq<T>, size: nat)
    requires
        size > 0,
    ensures
        chunks_of(items, size).flatten() == items,
        chunks_of(items, size).len() == chunk_count(items.len(), size),
{
    let count = chunk_count(items.len(), size);
    lemma_chunk_count_is_ceiling(items.len(), size);
    lemma_chunks_concat_prefix(items, size, count);
    chunks_of(items, size).lemma_flatten_and_flatten_alt_are_equivalent();
    if count > 0 {
        assert((count - 1 + 1) * size == count * size);
        assert(chunk_end(items.len(), size, count - 1) == items.len());
    }
    assert(items.take(items.len() as int) =~= items);
    assert(items.take(0) =~= Seq::<T>::empty());
}

/// Splits a sequence into chunks of `size` items, in order; the last chunk
/// may be shorter. An empty sequence has no chunk. A size of zero is refused.
pub fn chunk<'a, T>(items: &'a [T], size: usize) -> (res: Result<Vec<&'a [T]>, ExpoNotificationError>)
    ensures
        size == 0 ==> res == Err::<Vec<&'a [T]>, ExpoNotificationError>(
            ExpoNotificationError::ChunkSize,
        ),
        size > 0 ==> res is Ok && slices_view(res->Ok_0@) == chunks_of(items@, size as nat),
{
    if size == 0 {
        return Err(ExpoNotificationError::ChunkSize);
    }
    let len = items.len();
    let mut chunks: Vec<&'a [T]> = Vec::new();
    let mut start: usize = 0;
    proof {
        assert(chunks.len() * size == 0) by (nonlinear_arith)
            requires
                chunks.len() == 0,
        ;
    }
    while start < len
        invariant
            size > 0,
            len == items@.len(),
            start <= len,
            start < len ==> start == chunks.len() * size,
            chunks.len() * size >= start,
            chunks.len() > 0 ==> (chunks.len() - 1) * size < len,
            forall|i: int|
                0 <= i < chunks.len() ==> (#[trigger] chunks[i])@ == chunk_at(items@, size as nat, i),
        decreases len - start,
    {
        let ghost i = chunks.len() as int;
        let end = if size < len - start {
            start + size
        } else {
            len
        };
        proof {
            assert((i + 1) * size == i * size + size) by (nonlinear_arith);
            assert((i + 1 - 1) * size == i * size);
            assert(end == chunk_end(len as nat, size as nat, i));
        }
        chunks.push(slice_subrange(items, start, end));
        start = end;
    }
    proof {
        lemma_ceiling_is_chunk_count(len as nat, size as nat, chunks.len() as nat);
        assert(slices_view(chunks@) =~= chunks_of(items@, size as nat));
    }
    Ok(chunks)
}

} // verus!
