use vstd::prelude::*;
use vstd::arithmetic::div_mod::{
    lemma_div_pos_is_pos, lemma_fundamental_div_mod, lemma_mod_bound,
};

verus! {

/// The chunks are contiguous, in order, and tile `0..n` exactly: the first
/// starts at zero, each starts where the one before it ended, and the last
/// ends at `n`. Every position in `0..n` therefore lies in exactly one chunk.
pub open spec fn chunks_tile(chunks: Seq<(usize, usize)>, n: int) -> bool {
    &&& forall|k: int|
        0 <= k < chunks.len() ==> (#[trigger] chunks[k]).0 < chunks[k].1 && chunks[k].1 <= n
    &&& (chunks.len() == 0 ==> n == 0)
    &&& (chunks.len() > 0 ==> chunks[0].0 == 0 && chunks[chunks.len() - 1].1 == n)
    &&& forall|k: int| 1 <= k < chunks.len() ==> (#[trigger] chunks[k]).0 == chunks[k - 1].1
}

/// A chunk size of `per` positions covers `0..n` with at most `workers`
/// chunks, provided each of `workers` chunks could hold its share.
proof fn lemma_ceil_chunks(n: int, workers: int, per: int)
    requires
        n >= 1,
        workers >= 1,
        per == (n - 1) / workers + 1,
    ensures
        per >= 1,
        per * workers >= n,
{
    let q = (n - 1) / workers;
    lemma_fundamental_div_mod(n - 1, workers);
    lemma_mod_bound(n - 1, workers);
    lemma_div_pos_is_pos(n - 1, workers);
    assert(per * workers == q * workers + workers) by (nonlinear_arith)
        requires
            per == q + 1,
    ;
    assert(q * workers == workers * q) by (nonlinear_arith);
}

/// Fewer than `workers + 1` chunks fit below `n` when each full chunk holds
/// `per` positions and `per` chunks of `workers` would already cover `n`.
proof fn lemma_chunk_count(count: int, per: int, workers: int, n: int)
    requires
        per >= 1,
        per * workers >= n,
        count >= 1,
        (count - 1) * per < n,
    ensures
        count <= workers,
{
    assert((count - 1) * per < per * workers ==> count - 1 < workers) by (nonlinear_arith)
        requires
            per >= 1,
    ;
}

/// Split the positions `0..n` into contiguous chunks, one per worker of a
/// pool of `workers`, each chunk holding an equal share of the batch (the
/// last may be shorter). Each worker then walks its own chunk, so every task
/// is attempted exactly once and no handoff queue is needed. An empty batch
/// yields no chunks at all.
pub fn partition(n: usize, workers: usize) -> (chunks: Vec<(usize, usize)>)
    requires
        workers >= 1,
    ensures
        chunks_tile(chunks@, n as int),
        chunks@.len() <= workers,
        n == 0 ==> chunks@.len() == 0,
{
    let mut chunks: Vec<(usize, usize)> = Vec::new();
    if n == 0 {
        return chunks;
    }
    let per = (n - 1) / workers + 1;
    proof {
        lemma_ceil_chunks(n as int, workers as int, per as int);
    }
    let mut start: usize = 0;
    while start < n
        invariant
            workers >= 1,
            n >= 1,
            per >= 1,
            per * workers >= n,
            start <= n,
            chunks@.len() * per >= start,
            start < n ==> chunks@.len() * per == start,
            chunks@.len() >= 1 ==> (chunks@.len() - 1) * per < n,
            forall|k: int|
                0 <= k < chunks@.len() ==> (#[trigger] chunks@[k]).0 < chunks@[k].1
                    && chunks@[k].1 <= n,
            chunks@.len() == 0 ==> start == 0,
            chunks@.len() > 0 ==> chunks@[0].0 == 0 && chunks@[chunks@.len() - 1].1 == start,
            forall|k: int|
                1 <= k < chunks@.len() ==> (#[trigger] chunks@[k]).0 == chunks@[k - 1].1,
        decreases n - start,
    {
        let end = if per < n - start {
            start + per
        } else {
            n
        };
        chunks.push((start, end));
        proof {
            let l = chunks@.len() as int;
            assert(l * per == (l - 1) * per + per) by (nonlinear_arith);
        }
        start = end;
    }
    proof {
        lemma_chunk_count(chunks@.len() as int, per as int, workers as int, n as int);
    }
    chunks
}

} // verus!
