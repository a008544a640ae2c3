//! Byte-cost accounting over a chunk-kind sequence: the total size reported by
//! the analyzer always equals the fixed 18-byte header-plus-padding overhead
//! plus the byte cost implied by the recorded chunk kinds.

use vstd::prelude::*;

use crate::pixel::{lemma_spec_hash_bound, spec_hash, QoiPixel};
use crate::qoi::{
    analyze_model, chunk_for_classify, cost_of_chunk, flush_model, is_run, lemma_run_model_counts,
    run_model, step_model, wf_model, AnalyzerModel, QoiChunk, RUN_MAX,
};

verus! {

/// Number of consecutive long-run entries immediately before position `i`.
pub open spec fn run16_before(s: Seq<QoiChunk>, i: int) -> int
    decreases i,
{
    if i <= 0 || i > s.len() {
        0
    } else if s[i - 1] == QoiChunk::Run16 {
        run16_before(s, i - 1) + 1
    } else {
        0
    }
}

/// The bytes the encoder pays at entry `i`: a non-run entry pays its own chunk
/// cost; a group of short-run entries pays one byte at its first entry; a
/// group of long-run entries pays two bytes at each flush boundary, that is at
/// every position whose distance into the group is a multiple of the maximum
/// run length.
pub open spec fn entry_cost(s: Seq<QoiChunk>, i: int) -> int {
    if s[i] == QoiChunk::Run8 {
        if i > 0 && s[i - 1] == QoiChunk::Run8 {
            0
        } else {
            1
        }
    } else if s[i] == QoiChunk::Run16 {
        if run16_before(s, i) % (RUN_MAX as int) == 0 {
            2
        } else {
            0
        }
    } else {
        cost_of_chunk(s[i])
    }
}

/// Total byte cost of the first `n` entries of the sequence.
pub open spec fn cost_upto(s: Seq<QoiChunk>, n: int) -> int
    decreases n,
{
    if n <= 0 {
        0
    } else {
        cost_upto(s, n - 1) + entry_cost(s, n - 1)
    }
}

/// The byte cost a chunk-kind sequence implies.
pub open spec fn seq_cost(s: Seq<QoiChunk>) -> int {
    cost_upto(s, s.len() as int)
}

/// The trailing long-run count is never negative.
proof fn lemma_run16_before_nonneg(s: Seq<QoiChunk>, i: int)
    ensures
        run16_before(s, i) >= 0,
    decreases i,
{
    if !(i <= 0 || i > s.len()) && s[i - 1] == QoiChunk::Run16 {
        lemma_run16_before_nonneg(s, i - 1);
    }
}

/// The trailing long-run count before a position depends only on the entries
/// before it.
proof fn lemma_run16_before_prefix(s: Seq<QoiChunk>, t: Seq<QoiChunk>, i: int)
    requires
        s.len() <= t.len(),
        forall|j: int| 0 <= j < s.len() ==> s[j] == t[j],
        0 <= i <= s.len(),
    ensures
        run16_before(t, i) == run16_before(s, i),
    decreases i,
{
    if i > 0 {
        lemma_run16_before_prefix(s, t, i - 1);
    }
}

/// The cost of a prefix depends only on the entries of that prefix.
proof fn lemma_cost_upto_prefix(s: Seq<QoiChunk>, t: Seq<QoiChunk>, n: int)
    requires
        s.len() <= t.len(),
        forall|j: int| 0 <= j < s.len() ==> s[j] == t[j],
        0 <= n <= s.len(),
    ensures
        cost_upto(t, n) == cost_upto(s, n),
    decreases n,
{
    if n > 0 {
        lemma_cost_upto_prefix(s, t, n - 1);
        lemma_run16_before_prefix(s, t, n - 1);
    }
}

/// Adding less than one whole maximal run to a multiple of the maximum run
/// length never lands on a flush boundary.
proof fn lemma_mod_shift(base: int, k: int)
    by (nonlinear_arith)
    requires
        base >= 0,
        base % 8224 == 0,
        0 <= k < 8224,
    ensures
        (base + k) % 8224 == k,
{
}

/// Adding one whole maximal run to a multiple of the maximum run length lands
/// on a flush boundary again.
proof fn lemma_mod_shift_full(base: int)
    by (nonlinear_arith)
    requires
        base >= 0,
        base % 8224 == 0,
    ensures
        (base + 8224) % 8224 == 0,
{
}

/// Appending one non-run chunk adds exactly its per-chunk cost and leaves no
/// trailing run group.
proof fn lemma_seq_cost_push_chunk(s: Seq<QoiChunk>, k: QoiChunk)
    requires
        !is_run(k),
    ensures
        seq_cost(s.push(k)) == seq_cost(s) + cost_of_chunk(k),
        run16_before(s.push(k), s.len() as int + 1) == 0,
        s.push(k).last() == k,
{
    let t = s.push(k);
    lemma_cost_upto_prefix(s, t, s.len() as int);
    assert(t[s.len() as int] == k);
}

/// Appending a block of 1..=32 short-run entries to a sequence that does not
/// end in a short-run entry adds exactly one byte.
proof fn lemma_seq_cost_append_run8(s: Seq<QoiChunk>, m: int)
    requires
        1 <= m <= 32,
        s.len() == 0 || s.last() != QoiChunk::Run8,
    ensures
        seq_cost(s + Seq::new(m as nat, |i: int| QoiChunk::Run8)) == seq_cost(s) + 1,
        run16_before(s + Seq::new(m as nat, |i: int| QoiChunk::Run8), s.len() + m) == 0,
        (s + Seq::new(m as nat, |i: int| QoiChunk::Run8)).last() == QoiChunk::Run8,
    decreases m,
{
    let t = s + Seq::new(m as nat, |i: int| QoiChunk::Run8);
    if m == 1 {
        assert(t =~= s.push(QoiChunk::Run8));
        lemma_cost_upto_prefix(s, t, s.len() as int);
        assert(t[s.len() as int] == QoiChunk::Run8);
        assert(entry_cost(t, s.len() as int) == 1);
    } else {
        let t0 = s + Seq::new((m - 1) as nat, |i: int| QoiChunk::Run8);
        lemma_seq_cost_append_run8(s, m - 1);
        assert(t =~= t0.push(QoiChunk::Run8));
        lemma_cost_upto_prefix(t0, t, t0.len() as int);
        assert(t[t0.len() as int] == QoiChunk::Run8);
        assert(t[t0.len() as int - 1] == QoiChunk::Run8);
        assert(entry_cost(t, t0.len() as int) == 0);
    }
}

/// Appending a block of 1..=8224 long-run entries when the trailing long-run
/// count is a multiple of the maximum run length adds exactly two bytes and
/// extends the trailing count by the block length.
proof fn lemma_seq_cost_append_run16(s: Seq<QoiChunk>, m: int)
    requires
        1 <= m <= RUN_MAX,
        run16_before(s, s.len() as int) % (RUN_MAX as int) == 0,
    ensures
        seq_cost(s + Seq::new(m as nat, |i: int| QoiChunk::Run16)) == seq_cost(s) + 2,
        run16_before(s + Seq::new(m as nat, |i: int| QoiChunk::Run16), s.len() + m)
            == run16_before(s, s.len() as int) + m,
        (s + Seq::new(m as nat, |i: int| QoiChunk::Run16)).last() == QoiChunk::Run16,
    decreases m,
{
    let t = s + Seq::new(m as nat, |i: int| QoiChunk::Run16);
    let base = run16_before(s, s.len() as int);
    lemma_run16_before_nonneg(s, s.len() as int);
    if m == 1 {
        assert(t =~= s.push(QoiChunk::Run16));
        lemma_cost_upto_prefix(s, t, s.len() as int);
        lemma_run16_before_prefix(s, t, s.len() as int);
        assert(t[s.len() as int] == QoiChunk::Run16);
        assert(entry_cost(t, s.len() as int) == 2);
        assert(run16_before(t, s.len() as int + 1) == base + 1);
    } else {
        let t0 = s + Seq::new((m - 1) as nat, |i: int| QoiChunk::Run16);
        lemma_seq_cost_append_run16(s, m - 1);
        assert(t =~= t0.push(QoiChunk::Run16));
        lemma_cost_upto_prefix(t0, t, t0.len() as int);
        lemma_run16_before_prefix(t0, t, t0.len() as int);
        assert(run16_before(t, t0.len() as int) == base + (m - 1));
        lemma_mod_shift(base, m - 1);
        assert((base + (m - 1)) % (RUN_MAX as int) != 0);
        assert(t[t0.len() as int] == QoiChunk::Run16);
        assert(entry_cost(t, t0.len() as int) == 0);
        assert(run16_before(t, t0.len() as int + 1) == base + m);
    }
}

/// The cost bookkeeping the analyzer maintains: the byte total is the 18-byte
/// overhead plus the implied cost of the recorded entries, any trailing
/// long-run group is a whole number of maximal flushes, and the sequence never
/// ends in a short-run entry while the analyzer is live.
pub open spec fn cost_inv(s: AnalyzerModel) -> bool {
    &&& s.filesize == 18 + seq_cost(s.chunks)
    &&& run16_before(s.chunks, s.chunks.len() as int) % (RUN_MAX as int) == 0
    &&& (s.chunks.len() == 0 || s.chunks.last() != QoiChunk::Run8)
}

/// Flushing keeps the byte total consistent with the implied cost; a forced
/// flush of a maximal run (and a no-op flush) keeps the whole invariant.
proof fn lemma_flush_model_cost(s: AnalyzerModel)
    requires
        cost_inv(s),
        0 <= s.run <= RUN_MAX,
    ensures
        flush_model(s).filesize == 18 + seq_cost(flush_model(s).chunks),
        s.run == 0 || s.run == RUN_MAX ==> cost_inv(flush_model(s)),
{
    lemma_run16_before_nonneg(s.chunks, s.chunks.len() as int);
    if s.run == 0 {
    } else if s.run <= 32 {
        lemma_seq_cost_append_run8(s.chunks, s.run);
    } else {
        lemma_seq_cost_append_run16(s.chunks, s.run);
        if s.run == RUN_MAX {
            lemma_mod_shift_full(run16_before(s.chunks, s.chunks.len() as int));
        }
    }
}

/// One analyzer step preserves the cost bookkeeping.
proof fn lemma_step_model_cost(s: AnalyzerModel, px: QoiPixel)
    requires
        cost_inv(s),
        wf_model(s),
    ensures
        cost_inv(step_model(s, px)),
{
    if px == s.px_prev {
        let s2 = AnalyzerModel { run: s.run + 1, ..s };
        if s.run + 1 == RUN_MAX {
            lemma_flush_model_cost(s2);
        }
    } else {
        lemma_flush_model_cost(s);
        lemma_spec_hash_bound(px);
        let s1 = flush_model(s);
        let h = spec_hash(px) as int;
        if s1.dict[h] == px {
            lemma_seq_cost_push_chunk(s1.chunks, QoiChunk::Index);
        } else {
            let k = chunk_for_classify(px, s.px_prev);
            assert(!is_run(k));
            lemma_seq_cost_push_chunk(s1.chunks, k);
        }
    }
}

/// The cost bookkeeping holds in every reachable analyzer state.
proof fn lemma_run_model_cost_inv(pixels: Seq<QoiPixel>)
    ensures
        cost_inv(run_model(pixels)),
    decreases pixels.len(),
{
    if pixels.len() > 0 {
        lemma_run_model_cost_inv(pixels.drop_last());
        lemma_run_model_counts(pixels.drop_last());
        lemma_step_model_cost(run_model(pixels.drop_last()), pixels.last());
    }
}

/// Round-trip consistency between the two results of an analysis: for every
/// pixel sequence, the total byte count equals 18 (header plus padding) plus
/// the byte cost implied by the returned chunk-kind sequence.
pub proof fn lemma_total_bytes_consistent(pixels: Seq<QoiPixel>)
    ensures
        analyze_model(pixels).filesize == 18 + seq_cost(analyze_model(pixels).chunks),
{
    lemma_run_model_cost_inv(pixels);
    lemma_run_model_counts(pixels);
    lemma_flush_model_cost(run_model(pixels));
}

} // verus!
