//! Stream analyzer: walks a pixel sequence, maintains the color cache, the
//! previous pixel and a run counter, and decides for each pixel which chunk
//! kind the codec would emit, accumulating the total byte cost.

use vstd::prelude::*;

use crate::pixel::{
    lemma_spec_hash_bound, spec_classify, spec_hash, spec_ones, zero_pixel, count_differing,
    DiffOrColor, PixelDict, PixelDiff, QoiPixel,
};

verus! {

/// Length of the fixed file header modeled in the byte total.
pub const QOI_HEADER_LEN: usize = 14;

/// Length of the fixed trailing padding modeled in the byte total.
pub const QOI_PADDING_LEN: usize = 4;

/// Largest run length a single run chunk can carry; reaching it forces a flush.
pub const RUN_MAX: u16 = 33 + 8191;

/// Number of distinct chunk kinds.
pub const CHUNK_KIND_COUNT: usize = 10;

/// The closed set of chunk kinds the analyzer can record for a pixel.
#[derive(Clone, Copy, Debug, Eq, Hash, PartialEq, Structural)]
pub enum QoiChunk {
    Index,
    Run8,
    Run16,
    Diff8,
    Diff16,
    Diff24,
    Color1,
    Color2,
    Color3,
    Color4,
}

impl QoiChunk {
    /// The stable position of this kind in histograms.
    pub open spec fn spec_index(self) -> int {
        match self {
            QoiChunk::Index => 0,
            QoiChunk::Run8 => 1,
            QoiChunk::Run16 => 2,
            QoiChunk::Diff8 => 3,
            QoiChunk::Diff16 => 4,
            QoiChunk::Diff24 => 5,
            QoiChunk::Color1 => 6,
            QoiChunk::Color2 => 7,
            QoiChunk::Color3 => 8,
            QoiChunk::Color4 => 9,
        }
    }

    /// The stable position of this kind in histograms.
    pub fn chunk_index(self) -> (i: usize)
        ensures
            i as int == self.spec_index(),
            i < 10,
    {
        match self {
            QoiChunk::Index => 0,
            QoiChunk::Run8 => 1,
            QoiChunk::Run16 => 2,
            QoiChunk::Diff8 => 3,
            QoiChunk::Diff16 => 4,
            QoiChunk::Diff24 => 5,
            QoiChunk::Color1 => 6,
            QoiChunk::Color2 => 7,
            QoiChunk::Color3 => 8,
            QoiChunk::Color4 => 9,
        }
    }

    /// The human-readable name of this chunk kind.
    pub open spec fn spec_name(self) -> Seq<char> {
        match self {
            QoiChunk::Index => "QOI_INDEX"@,
            QoiChunk::Run8 => "QOI_RUN_8"@,
            QoiChunk::Run16 => "QOI_RUN_16"@,
            QoiChunk::Diff8 => "QOI_DIFF_8"@,
            QoiChunk::Diff16 => "QOI_DIFF_16"@,
            QoiChunk::Diff24 => "QOI_DIFF_24"@,
            QoiChunk::Color1 => "QOI_COLOR (2-Bytes)"@,
            QoiChunk::Color2 => "QOI_COLOR (3-Bytes)"@,
            QoiChunk::Color3 => "QOI_COLOR (4-Bytes)"@,
            QoiChunk::Color4 => "QOI_COLOR (5-Bytes)"@,
        }
    }

    /// The human-readable name of this chunk kind.
    pub fn name(self) -> (s: &'static str)
        ensures
            s@ == self.spec_name(),
    {
        match self {
            QoiChunk::Index => "QOI_INDEX",
            QoiChunk::Run8 => "QOI_RUN_8",
            QoiChunk::Run16 => "QOI_RUN_16",
            QoiChunk::Diff8 => "QOI_DIFF_8",
            QoiChunk::Diff16 => "QOI_DIFF_16",
            QoiChunk::Diff24 => "QOI_DIFF_24",
            QoiChunk::Color1 => "QOI_COLOR (2-Bytes)",
            QoiChunk::Color2 => "QOI_COLOR (3-Bytes)",
            QoiChunk::Color3 => "QOI_COLOR (4-Bytes)",
            QoiChunk::Color4 => "QOI_COLOR (5-Bytes)",
        }
    }
}

/// Whether a chunk kind is one of the two run kinds.
pub open spec fn is_run(k: QoiChunk) -> bool {
    k == QoiChunk::Run8 || k == QoiChunk::Run16
}

/// The byte cost one chunk adds to the total: for run kinds this is the cost
/// of one whole flush, for every other kind the cost of its single chunk.
pub open spec fn cost_of_chunk(k: QoiChunk) -> int {
    match k {
        QoiChunk::Index => 1,
        QoiChunk::Run8 => 1,
        QoiChunk::Run16 => 2,
        QoiChunk::Diff8 => 1,
        QoiChunk::Diff16 => 2,
        QoiChunk::Diff24 => 3,
        QoiChunk::Color1 => 2,
        QoiChunk::Color2 => 3,
        QoiChunk::Color3 => 4,
        QoiChunk::Color4 => 5,
    }
}

/// The literal-color chunk kind for a given number of differing channels.
pub open spec fn color_chunk_of_ones(n: int) -> QoiChunk {
    if n <= 1 {
        QoiChunk::Color1
    } else if n == 2 {
        QoiChunk::Color2
    } else if n == 3 {
        QoiChunk::Color3
    } else {
        QoiChunk::Color4
    }
}

/// The chunk kind the analyzer records for a classified pixel difference.
pub open spec fn chunk_for_classify(cur: QoiPixel, prev: QoiPixel) -> QoiChunk {
    match spec_classify(cur, prev) {
        DiffOrColor::Diff(PixelDiff::Diff8(_)) => QoiChunk::Diff8,
        DiffOrColor::Diff(PixelDiff::Diff16(_)) => QoiChunk::Diff16,
        DiffOrColor::Diff(PixelDiff::Diff24 { .. }) => QoiChunk::Diff24,
        DiffOrColor::Color(_) => color_chunk_of_ones(spec_ones(cur, prev)),
    }
}

/// The mathematical state of the analyzer.
#[verifier::ext_equal]
pub struct AnalyzerModel {
    pub filesize: int,
    pub chunks: Seq<QoiChunk>,
    pub px_prev: QoiPixel,
    pub dict: Seq<QoiPixel>,
    pub run: int,
}

/// The canonical QOI initial reference pixel: opaque black.
pub open spec fn initial_pixel() -> QoiPixel {
    QoiPixel { r: 0, g: 0, b: 0, a: 255 }
}

/// The analyzer state at the start of an analysis.
pub open spec fn init_model() -> AnalyzerModel {
    AnalyzerModel {
        filesize: 18,
        chunks: Seq::empty(),
        px_prev: initial_pixel(),
        dict: Seq::new(64, |i: int| zero_pixel()),
        run: 0,
    }
}

/// Flushing a pending run: a run of 1..=32 pixels costs one byte and records
/// that many short-run entries; a run of 33..=8224 costs two bytes and records
/// that many long-run entries. The counter resets in all cases.
pub open spec fn flush_model(s: AnalyzerModel) -> AnalyzerModel {
    if s.run == 0 {
        s
    } else if s.run <= 32 {
        AnalyzerModel {
            filesize: s.filesize + 1,
            chunks: s.chunks + Seq::new(s.run as nat, |i: int| QoiChunk::Run8),
            run: 0,
            ..s
        }
    } else {
        AnalyzerModel {
            filesize: s.filesize + 2,
            chunks: s.chunks + Seq::new(s.run as nat, |i: int| QoiChunk::Run16),
            run: 0,
            ..s
        }
    }
}

/// One per-pixel step of the analyzer: equal pixels extend the run (with a
/// forced flush at the maximum); otherwise the pending run is flushed and the
/// pixel is resolved against the cache or classified against the previous one.
pub open spec fn step_model(s: AnalyzerModel, px: QoiPixel) -> AnalyzerModel {
    if px == s.px_prev {
        let s2 = AnalyzerModel { run: s.run + 1, ..s };
        if s.run + 1 == RUN_MAX {
            flush_model(s2)
        } else {
            s2
        }
    } else {
        let s1 = flush_model(s);
        let h = spec_hash(px) as int;
        if s1.dict[h] == px {
            AnalyzerModel {
                filesize: s1.filesize + 1,
                chunks: s1.chunks.push(QoiChunk::Index),
                px_prev: px,
                dict: s1.dict,
                run: 0,
            }
        } else {
            let k = chunk_for_classify(px, s.px_prev);
            AnalyzerModel {
                filesize: s1.filesize + cost_of_chunk(k),
                chunks: s1.chunks.push(k),
                px_prev: px,
                dict: s1.dict.update(h, px),
                run: 0,
            }
        }
    }
}

/// The analyzer state after consuming a whole pixel sequence.
pub open spec fn run_model(pixels: Seq<QoiPixel>) -> AnalyzerModel
    decreases pixels.len(),
{
    if pixels.len() == 0 {
        init_model()
    } else {
        step_model(run_model(pixels.drop_last()), pixels.last())
    }
}

/// The finalized analysis of a pixel sequence: the trailing run flushed.
pub open spec fn analyze_model(pixels: Seq<QoiPixel>) -> AnalyzerModel {
    flush_model(run_model(pixels))
}

/// Well-formedness of a live analyzer state.
pub open spec fn wf_model(s: AnalyzerModel) -> bool {
    &&& s.dict.len() == 64
    &&& 0 <= s.run < RUN_MAX
    &&& 18 <= s.filesize
    &&& s.filesize <= 18 + 5 * s.chunks.len() + 3 * s.run
}

/// Appends `n` copies of `kind` to `chunks`.
fn push_repeated(chunks: &mut Vec<QoiChunk>, kind: QoiChunk, n: u16)
    ensures
        final(chunks)@ == old(chunks)@ + Seq::new(n as nat, |i: int| kind),
{
    let ghost orig: Seq<QoiChunk> = chunks@;
    let mut i: u16 = 0;
    proof {
        assert(chunks@ =~= orig + Seq::new(0, |j: int| kind));
    }
    while i < n
        invariant
            i <= n,
            chunks@ == orig + Seq::new(i as nat, |j: int| kind),
        decreases n - i,
    {
        chunks.push(kind);
        i = i + 1;
        proof {
            assert(chunks@ =~= orig + Seq::new(i as nat, |j: int| kind));
        }
    }
}

/// The stateful scanner: cache, previous pixel, run counter, byte total and
/// the chunk-kind sequence recorded so far.
#[derive(Debug)]
pub struct Analyzer {
    filesize: usize,
    chunks: Vec<QoiChunk>,
    px_prev: QoiPixel,
    dict: PixelDict,
    run: u16,
}

impl View for Analyzer {
    type V = AnalyzerModel;

    closed spec fn view(&self) -> AnalyzerModel {
        AnalyzerModel {
            filesize: self.filesize as int,
            chunks: self.chunks@,
            px_prev: self.px_prev,
            dict: self.dict@,
            run: self.run as int,
        }
    }
}

impl Analyzer {
    /// A fresh analyzer: header-plus-padding byte total, opaque-black previous
    /// pixel, zeroed cache, no pending run, no recorded chunks.
    pub fn new() -> (a: Analyzer)
        ensures
            a@ == init_model(),
            wf_model(a@),
    {
        let a = Analyzer {
            filesize: QOI_HEADER_LEN + QOI_PADDING_LEN,
            chunks: Vec::new(),
            px_prev: QoiPixel::new(0, 0, 0, 255),
            dict: PixelDict::new(),
            run: 0,
        };
        proof {
            assert(a@.dict =~= init_model().dict);
            assert(a@.chunks =~= init_model().chunks);
            assert(a@ =~= init_model());
        }
        a
    }

    /// Flushes the pending run, if any, into the byte total and the chunk
    /// sequence, and resets the run counter.
    pub fn flush_run(&mut self)
        requires
            old(self)@.run <= RUN_MAX,
            old(self)@.filesize + 2 <= usize::MAX,
        ensures
            final(self)@ == flush_model(old(self)@),
    {
        if self.run == 0 {
        } else if self.run <= 32 {
            self.filesize = self.filesize + 1;
            let n: u16 = self.run;
            push_repeated(&mut self.chunks, QoiChunk::Run8, n);
        } else {
            self.filesize = self.filesize + 2;
            let n: u16 = self.run;
            push_repeated(&mut self.chunks, QoiChunk::Run16, n);
        }
        self.run = 0;
        proof {
            assert(self@ =~= flush_model(old(self)@));
        }
    }

    /// Consumes one pixel: a pixel equal to the previous one extends the run
    /// (flushing when the maximum is reached); any other pixel flushes the
    /// pending run and is recorded as a cache reference, a delta encoding or a
    /// literal color, updating the cache and the previous pixel.
    pub fn update(&mut self, px: QoiPixel)
        requires
            wf_model(old(self)@),
            old(self)@.filesize + 7 <= usize::MAX,
        ensures
            final(self)@ == step_model(old(self)@, px),
            wf_model(final(self)@),
    {
        if px == self.px_prev {
            self.run = self.run + 1;
            if self.run == RUN_MAX {
                self.flush_run();
            }
            proof {
                assert(self@ =~= step_model(old(self)@, px));
            }
            return;
        }

        self.flush_run();

        let hash: u8 = PixelDict::hash(px);

        if px == self.dict.get(hash) {
            self.filesize = self.filesize + 1;
            self.chunks.push(QoiChunk::Index);
        } else {
            let d = px.sub(self.px_prev);
            let chunk: QoiChunk = match d {
                DiffOrColor::Diff(PixelDiff::Diff8(_)) => {
                    self.filesize = self.filesize + 1;
                    QoiChunk::Diff8
                },
                DiffOrColor::Diff(PixelDiff::Diff16(_)) => {
                    self.filesize = self.filesize + 2;
                    QoiChunk::Diff16
                },
                DiffOrColor::Diff(PixelDiff::Diff24 { .. }) => {
                    self.filesize = self.filesize + 3;
                    QoiChunk::Diff24
                },
                DiffOrColor::Color(_mask) => {
                    let n: u8 = count_differing(px, self.px_prev);
                    self.filesize = self.filesize + (n as usize) + 1;
                    if n == 1 {
                        QoiChunk::Color1
                    } else if n == 2 {
                        QoiChunk::Color2
                    } else if n == 3 {
                        QoiChunk::Color3
                    } else {
                        QoiChunk::Color4
                    }
                },
            };
            self.chunks.push(chunk);
            self.dict.put(hash, px);
        }

        self.px_prev = px;
        proof {
            assert(self@ =~= step_model(old(self)@, px));
        }
    }

    /// Flushes any pending run and returns the accumulated byte total together
    /// with the recorded chunk-kind sequence. The analyzer is spent afterwards.
    pub fn finalize(self) -> (r: (usize, Vec<QoiChunk>))
        requires
            wf_model(self@),
            self@.filesize + 2 <= usize::MAX,
        ensures
            r.0 as int == flush_model(self@).filesize,
            r.1@ == flush_model(self@).chunks,
    {
        let mut a = self;
        a.flush_run();
        (a.filesize, a.chunks)
    }
}

/// The analyzer records one chunk entry or one pending run step per pixel:
/// the recorded entries plus the pending run count always equal the number of
/// pixels consumed, and the state stays well-formed.
pub proof fn lemma_run_model_counts(pixels: Seq<QoiPixel>)
    ensures
        wf_model(run_model(pixels)),
        run_model(pixels).chunks.len() + run_model(pixels).run == pixels.len(),
    decreases pixels.len(),
{
    if pixels.len() > 0 {
        lemma_run_model_counts(pixels.drop_last());
        lemma_spec_hash_bound(pixels.last());
    }
}

/// One chunk-kind entry is produced per input pixel, in input order.
pub proof fn lemma_one_entry_per_pixel(pixels: Seq<QoiPixel>)
    ensures
        analyze_model(pixels).chunks.len() == pixels.len(),
        analyze_model(pixels).run == 0,
{
    lemma_run_model_counts(pixels);
}

/// A pixel equal to the previous one takes the run path: the cache and the
/// previous pixel are untouched, the already-recorded entries are kept, and
/// anything newly recorded is a run entry — the classification is never
/// consulted for equal pixels.
pub proof fn lemma_equal_pixel_runs(s: AnalyzerModel, px: QoiPixel)
    requires
        px == s.px_prev,
    ensures
        step_model(s, px).dict == s.dict,
        step_model(s, px).px_prev == s.px_prev,
        step_model(s, px).chunks.len() >= s.chunks.len(),
        forall|j: int| 0 <= j < s.chunks.len() ==> step_model(s, px).chunks[j] == s.chunks[j],
        forall|j: int|
            s.chunks.len() <= j < step_model(s, px).chunks.len() ==> is_run(
                #[trigger] step_model(s, px).chunks[j],
            ),
{
}

/// Run accounting: a pending run of 1..=32 pixels flushes as one byte and that
/// many short-run entries; a pending run of 33..=8224 flushes as two bytes and
/// that many long-run entries.
pub proof fn lemma_flush_accounting(s: AnalyzerModel)
    ensures
        1 <= s.run <= 32 ==> flush_model(s) == (AnalyzerModel {
            filesize: s.filesize + 1,
            chunks: s.chunks + Seq::new(s.run as nat, |i: int| QoiChunk::Run8),
            run: 0,
            ..s
        }),
        33 <= s.run <= RUN_MAX ==> flush_model(s) == (AnalyzerModel {
            filesize: s.filesize + 2,
            chunks: s.chunks + Seq::new(s.run as nat, |i: int| QoiChunk::Run16),
            run: 0,
            ..s
        }),
{
}

/// Reaching the maximum run length forces an immediate flush: the counter
/// resets even though the streak of identical pixels may continue.
pub proof fn lemma_run_max_forces_flush(s: AnalyzerModel, px: QoiPixel)
    requires
        px == s.px_prev,
        s.run == RUN_MAX - 1,
    ensures
        step_model(s, px).run == 0,
        step_model(s, px).chunks == s.chunks + Seq::new(
            RUN_MAX as nat,
            |i: int| QoiChunk::Run16,
        ),
        step_model(s, px).filesize == s.filesize + 2,
{
}

/// Every cache slot holds the all-zero initial pixel or a pixel that has
/// already been consumed and whose hash is the slot's own index.
pub open spec fn dict_inv(s: AnalyzerModel, seen: Seq<QoiPixel>) -> bool {
    forall|h: int|
        0 <= h < 64 ==> ((#[trigger] s.dict[h]) == zero_pixel() || (seen.contains(s.dict[h])
            && spec_hash(s.dict[h]) == h))
}

/// The cache invariant holds after consuming any pixel sequence.
pub proof fn lemma_run_model_dict_inv(pixels: Seq<QoiPixel>)
    ensures
        dict_inv(run_model(pixels), pixels),
    decreases pixels.len(),
{
    if pixels.len() > 0 {
        let prefix = pixels.drop_last();
        lemma_run_model_dict_inv(prefix);
        lemma_run_model_counts(prefix);
        let s = run_model(prefix);
        let t = run_model(pixels);
        assert forall|h: int|
            0 <= h < 64 implies ((#[trigger] t.dict[h]) == zero_pixel() || (pixels.contains(
            t.dict[h],
        ) && spec_hash(t.dict[h]) == h)) by {
            if t.dict[h] == s.dict[h] {
                if s.dict[h] != zero_pixel() {
                    let i = choose|i: int|
                        0 <= i < prefix.len() && prefix[i] == s.dict[h];
                    assert(pixels[i] == s.dict[h]);
                }
            } else {
                lemma_spec_hash_bound(pixels.last());
                assert(t.dict[h] == pixels.last());
                assert(pixels[pixels.len() - 1] == pixels.last());
            }
        }
    }
}

/// The first occurrence of any pixel value other than the all-zero pixel
/// always misses the cache.
pub proof fn lemma_first_occurrence_misses(pixels: Seq<QoiPixel>, px: QoiPixel)
    requires
        !pixels.contains(px),
        px != zero_pixel(),
    ensures
        run_model(pixels).dict[spec_hash(px) as int] != px,
{
    lemma_run_model_dict_inv(pixels);
    lemma_run_model_counts(pixels);
    lemma_spec_hash_bound(px);
}

/// Re-encountering a pixel value that still occupies its cache slot is a hit:
/// one cache-reference entry, one byte, and the cache is left unchanged.
pub proof fn lemma_cache_hit(s: AnalyzerModel, px: QoiPixel)
    requires
        px != s.px_prev,
        s.dict[spec_hash(px) as int] == px,
    ensures
        step_model(s, px).chunks == flush_model(s).chunks.push(QoiChunk::Index),
        step_model(s, px).filesize == flush_model(s).filesize + 1,
        step_model(s, px).dict == s.dict,
{
}

/// How many entries of the sequence carry the given chunk kind.
pub open spec fn count_kind(s: Seq<QoiChunk>, k: QoiChunk) -> int
    decreases s.len(),
{
    if s.len() == 0 {
        0
    } else {
        count_kind(s.drop_last(), k) + if s.last() == k {
            1int
        } else {
            0int
        }
    }
}

/// A kind's count never exceeds the sequence length.
pub proof fn lemma_count_kind_le_len(s: Seq<QoiChunk>, k: QoiChunk)
    ensures
        0 <= count_kind(s, k) <= s.len(),
    decreases s.len(),
{
    if s.len() > 0 {
        lemma_count_kind_le_len(s.drop_last(), k);
    }
}

/// The sum of all ten per-kind counts of a chunk sequence.
pub open spec fn hist_total(s: Seq<QoiChunk>) -> int {
    count_kind(s, QoiChunk::Index) + count_kind(s, QoiChunk::Run8) + count_kind(
        s,
        QoiChunk::Run16,
    ) + count_kind(s, QoiChunk::Diff8) + count_kind(s, QoiChunk::Diff16) + count_kind(
        s,
        QoiChunk::Diff24,
    ) + count_kind(s, QoiChunk::Color1) + count_kind(s, QoiChunk::Color2) + count_kind(
        s,
        QoiChunk::Color3,
    ) + count_kind(s, QoiChunk::Color4)
}

/// Histogram entries sum to exactly the number of entries in the sequence —
/// with one entry per pixel, to the pixel count.
pub proof fn lemma_histogram_total(s: Seq<QoiChunk>)
    ensures
        hist_total(s) == s.len(),
    decreases s.len(),
{
    if s.len() > 0 {
        lemma_histogram_total(s.drop_last());
    }
}

/// Tallies, for each of the ten chunk kinds, how many entries of the sequence
/// carry that kind.
pub fn histogram(chunks: &Vec<QoiChunk>) -> (h: Vec<usize>)
    ensures
        h@.len() == 10,
        forall|k: QoiChunk| #[trigger] h@[k.spec_index()] as int == count_kind(chunks@, k),
{
    let mut h: Vec<usize> = Vec::new();
    let mut j: usize = 0;
    while j < 10
        invariant
            j <= 10,
            h@.len() == j,
            forall|idx: int| 0 <= idx < j ==> h@[idx] == 0,
        decreases 10 - j,
    {
        h.push(0);
        j = j + 1;
    }
    let mut i: usize = 0;
    while i < chunks.len()
        invariant
            i <= chunks@.len(),
            h@.len() == 10,
            forall|k: QoiChunk| #[trigger] h@[k.spec_index()] as int == count_kind(
                chunks@.take(i as int),
                k,
            ),
        decreases chunks@.len() - i,
    {
        let ghost prefix = chunks@.take(i as int);
        let idx: usize = chunks[i].chunk_index();
        proof {
            lemma_count_kind_le_len(prefix, chunks@[i as int]);
        }
        let c: usize = h[idx];
        h.set(idx, c + 1);
        i = i + 1;
        proof {
            let newprefix = chunks@.take(i as int);
            assert(newprefix.drop_last() =~= prefix);
            assert(newprefix.last() == chunks@[i - 1]);
            assert forall|k: QoiChunk| #[trigger] h@[k.spec_index()] as int == count_kind(
                newprefix,
                k,
            ) by {
                assert(count_kind(newprefix, k) == count_kind(prefix, k) + if newprefix.last()
                    == k {
                    1int
                } else {
                    0int
                });
            }
        }
    }
    proof {
        assert(chunks@.take(chunks@.len() as int) =~= chunks@);
    }
    h
}

/// Analyzes a pixel sequence: returns the total compressed size the codec
/// would produce, the per-pixel chunk-kind sequence, and its histogram.
pub fn qoi_analyze(pixels: &Vec<QoiPixel>) -> (r: (usize, Vec<QoiChunk>, Vec<usize>))
    requires
        5 * pixels@.len() + 25 <= usize::MAX,
    ensures
        r.0 as int == analyze_model(pixels@).filesize,
        r.1@ == analyze_model(pixels@).chunks,
        r.1@.len() == pixels@.len(),
        r.2@.len() == 10,
        forall|k: QoiChunk| #[trigger] r.2@[k.spec_index()] as int == count_kind(
            analyze_model(pixels@).chunks,
            k,
        ),
{
    let mut enc = Analyzer::new();
    let mut i: usize = 0;
    proof {
        assert(pixels@.take(0) =~= Seq::<QoiPixel>::empty());
    }
    while i < pixels.len()
        invariant
            i <= pixels@.len(),
            5 * pixels@.len() + 25 <= usize::MAX,
            enc@ == run_model(pixels@.take(i as int)),
        decreases pixels@.len() - i,
    {
        proof {
            lemma_run_model_counts(pixels@.take(i as int));
        }
        enc.update(pixels[i]);
        i = i + 1;
        proof {
            assert(pixels@.take(i as int).drop_last() =~= pixels@.take(i as int - 1));
            assert(pixels@.take(i as int).last() == pixels@[i - 1]);
        }
    }
    proof {
        assert(pixels@.take(pixels@.len() as int) =~= pixels@);
        lemma_run_model_counts(pixels@);
        lemma_one_entry_per_pixel(pixels@);
    }
    let fc: (usize, Vec<QoiChunk>) = enc.finalize();
    let hist: Vec<usize> = histogram(&fc.1);
    (fc.0, fc.1, hist)
}

} // verus!
