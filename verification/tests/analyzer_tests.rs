use qoi_vis::pixel::QoiPixel;
use qoi_vis::qoi::{histogram, qoi_analyze, Analyzer, QoiChunk};

#[test]
fn empty_input() {
    let pixels: Vec<QoiPixel> = Vec::new();
    let r: (usize, Vec<QoiChunk>, Vec<usize>) = qoi_analyze(&pixels);
    assert_eq!(r.0, 18);
    assert!(r.1.is_empty());
    let sum: usize = r.2.iter().sum();
    assert_eq!(sum, 0);
}

#[test]
fn run_of_32_costs_one_byte() {
    // 32 pixels equal to the initial reference pixel: one short-run flush.
    let px = QoiPixel::new(0, 0, 0, 255);
    let pixels: Vec<QoiPixel> = vec![px; 32];
    let r: (usize, Vec<QoiChunk>, Vec<usize>) = qoi_analyze(&pixels);
    assert_eq!(r.0, 19);
    assert_eq!(r.1, vec![QoiChunk::Run8; 32]);
}

#[test]
fn run_of_33_costs_two_bytes() {
    let px = QoiPixel::new(0, 0, 0, 255);
    let pixels: Vec<QoiPixel> = vec![px; 33];
    let r: (usize, Vec<QoiChunk>, Vec<usize>) = qoi_analyze(&pixels);
    assert_eq!(r.0, 20);
    assert_eq!(r.1, vec![QoiChunk::Run16; 33]);
}

#[test]
fn run_of_8224_flushes_at_boundary() {
    let px = QoiPixel::new(0, 0, 0, 255);
    let pixels: Vec<QoiPixel> = vec![px; 8224];
    let r: (usize, Vec<QoiChunk>, Vec<usize>) = qoi_analyze(&pixels);
    assert_eq!(r.0, 20);
    assert_eq!(r.1, vec![QoiChunk::Run16; 8224]);
}

#[test]
fn run_of_8225_produces_two_flush_groups() {
    // The forced flush at 8224 resets the counter; the leftover pixel starts a
    // fresh run that flushes as a short run.
    let px = QoiPixel::new(0, 0, 0, 255);
    let pixels: Vec<QoiPixel> = vec![px; 8225];
    let r: (usize, Vec<QoiChunk>, Vec<usize>) = qoi_analyze(&pixels);
    assert_eq!(r.0, 21);
    let mut expected: Vec<QoiChunk> = vec![QoiChunk::Run16; 8224];
    expected.push(QoiChunk::Run8);
    assert_eq!(r.1, expected);
}

#[test]
fn first_occurrence_misses_cache() {
    // (1, 2, 3, 255) has never been seen: the all-zero slot cannot match, so
    // the pixel is classified (deltas (1, 2, 3, 0): Diff16).
    let pixels: Vec<QoiPixel> = vec![QoiPixel::new(1, 2, 3, 255)];
    let r: (usize, Vec<QoiChunk>, Vec<usize>) = qoi_analyze(&pixels);
    assert_eq!(r.0, 20);
    assert_eq!(r.1, vec![QoiChunk::Diff16]);
}

#[test]
fn zero_pixel_hits_initial_cache() {
    // The all-zero pixel matches the initial cache contents at slot 0.
    let pixels: Vec<QoiPixel> = vec![QoiPixel::new(0, 0, 0, 0)];
    let r: (usize, Vec<QoiChunk>, Vec<usize>) = qoi_analyze(&pixels);
    assert_eq!(r.0, 19);
    assert_eq!(r.1, vec![QoiChunk::Index]);
}

#[test]
fn reencounter_hits_cache() {
    // a is cached at slot 63 on its miss; b lives at slot 53 and does not
    // evict it; re-encountering a is a one-byte cache reference.
    let a = QoiPixel::new(1, 2, 3, 255);
    let b = QoiPixel::new(10, 0, 0, 255);
    let pixels: Vec<QoiPixel> = vec![a, b, a];
    let r: (usize, Vec<QoiChunk>, Vec<usize>) = qoi_analyze(&pixels);
    assert_eq!(r.1, vec![QoiChunk::Diff16, QoiChunk::Diff16, QoiChunk::Index]);
    assert_eq!(r.0, 18 + 2 + 2 + 1);
}

#[test]
fn eviction_forces_reclassification() {
    // c shares slot 63 with a and evicts it, so the second a misses again.
    let a = QoiPixel::new(1, 2, 3, 255);
    let c = QoiPixel::new(3, 2, 1, 255);
    assert_eq!(1 ^ 2 ^ 3 ^ 255, 3 ^ 2 ^ 1 ^ 255);
    let pixels: Vec<QoiPixel> = vec![a, c, a];
    let r: (usize, Vec<QoiChunk>, Vec<usize>) = qoi_analyze(&pixels);
    assert_eq!(r.1, vec![QoiChunk::Diff16, QoiChunk::Diff16, QoiChunk::Diff16]);
    assert_ne!(r.1[2], QoiChunk::Index);
}

#[test]
fn color_chunks_and_costs() {
    // Only green differs, by 9: Color1, 2 bytes.
    let r1: (usize, Vec<QoiChunk>, Vec<usize>) =
        qoi_analyze(&vec![QoiPixel::new(0, 9, 0, 255)]);
    assert_eq!(r1.1, vec![QoiChunk::Color1]);
    assert_eq!(r1.0, 20);

    // All four channels differ with deltas out of Diff24 range: Color4, 5 bytes.
    let r4: (usize, Vec<QoiChunk>, Vec<usize>) =
        qoi_analyze(&vec![QoiPixel::new(20, 20, 20, 20)]);
    assert_eq!(r4.1, vec![QoiChunk::Color4]);
    assert_eq!(r4.0, 23);
}

#[test]
fn diff24_chunk_cost() {
    // deltas (15, -16, -9, 8): four differing channels, all in [-16, 15].
    let r: (usize, Vec<QoiChunk>, Vec<usize>) =
        qoi_analyze(&vec![QoiPixel::new(15, 240, 247, 7)]);
    assert_eq!(r.1, vec![QoiChunk::Diff24]);
    assert_eq!(r.0, 21);
}

#[test]
fn total_equals_overhead_plus_entry_costs() {
    // Mixed input: a run of three, a Diff16 pixel, then a fresh run of one.
    let base = QoiPixel::new(0, 0, 0, 255);
    let other = QoiPixel::new(5, 0, 0, 255);
    let pixels: Vec<QoiPixel> = vec![base, base, base, other, other];
    let r: (usize, Vec<QoiChunk>, Vec<usize>) = qoi_analyze(&pixels);
    assert_eq!(
        r.1,
        vec![
            QoiChunk::Run8,
            QoiChunk::Run8,
            QoiChunk::Run8,
            QoiChunk::Diff16,
            QoiChunk::Run8
        ]
    );
    // 18 overhead + 1 (short run of 3) + 2 (Diff16) + 1 (short run of 1).
    assert_eq!(r.0, 22);
}

#[test]
fn histogram_sums_to_pixel_count() {
    let base = QoiPixel::new(0, 0, 0, 255);
    let other = QoiPixel::new(5, 0, 0, 255);
    let pixels: Vec<QoiPixel> = vec![base, base, base, other, other, QoiPixel::new(0, 0, 0, 0)];
    let r: (usize, Vec<QoiChunk>, Vec<usize>) = qoi_analyze(&pixels);
    let sum: usize = r.2.iter().sum();
    assert_eq!(sum, pixels.len());
    assert_eq!(r.2.len(), 10);
}

#[test]
fn histogram_counts_each_kind() {
    let chunks: Vec<QoiChunk> = vec![
        QoiChunk::Run8,
        QoiChunk::Run8,
        QoiChunk::Diff16,
        QoiChunk::Index,
        QoiChunk::Run8,
        QoiChunk::Color3,
    ];
    let h: Vec<usize> = histogram(&chunks);
    assert_eq!(h, vec![1, 3, 0, 0, 1, 0, 0, 0, 1, 0]);
}

#[test]
fn analyzer_direct_api_matches_qoi_analyze() {
    let a = QoiPixel::new(1, 2, 3, 255);
    let b = QoiPixel::new(10, 0, 0, 255);
    let pixels: Vec<QoiPixel> = vec![a, a, b, a];

    let mut enc = Analyzer::new();
    for px in &pixels {
        enc.update(*px);
    }
    let fc: (usize, Vec<QoiChunk>) = enc.finalize();

    let r: (usize, Vec<QoiChunk>, Vec<usize>) = qoi_analyze(&pixels);
    assert_eq!(fc.0, r.0);
    assert_eq!(fc.1, r.1);
}

#[test]
fn flush_run_is_idempotent_when_no_run_pending() {
    let mut enc = Analyzer::new();
    enc.update(QoiPixel::new(0, 0, 0, 255));
    enc.flush_run();
    enc.flush_run();
    let fc: (usize, Vec<QoiChunk>) = enc.finalize();
    assert_eq!(fc.0, 19);
    assert_eq!(fc.1, vec![QoiChunk::Run8]);
}

#[test]
fn chunk_names() {
    assert_eq!(QoiChunk::Index.name(), "QOI_INDEX");
    assert_eq!(QoiChunk::Run8.name(), "QOI_RUN_8");
    assert_eq!(QoiChunk::Run16.name(), "QOI_RUN_16");
    assert_eq!(QoiChunk::Diff8.name(), "QOI_DIFF_8");
    assert_eq!(QoiChunk::Diff16.name(), "QOI_DIFF_16");
    assert_eq!(QoiChunk::Diff24.name(), "QOI_DIFF_24");
    assert_eq!(QoiChunk::Color1.name(), "QOI_COLOR (2-Bytes)");
    assert_eq!(QoiChunk::Color2.name(), "QOI_COLOR (3-Bytes)");
    assert_eq!(QoiChunk::Color3.name(), "QOI_COLOR (4-Bytes)");
    assert_eq!(QoiChunk::Color4.name(), "QOI_COLOR (5-Bytes)");
}

#[test]
fn chunk_indices_are_stable() {
    assert_eq!(QoiChunk::Index.chunk_index(), 0);
    assert_eq!(QoiChunk::Run8.chunk_index(), 1);
    assert_eq!(QoiChunk::Run16.chunk_index(), 2);
    assert_eq!(QoiChunk::Diff8.chunk_index(), 3);
    assert_eq!(QoiChunk::Diff16.chunk_index(), 4);
    assert_eq!(QoiChunk::Diff24.chunk_index(), 5);
    assert_eq!(QoiChunk::Color1.chunk_index(), 6);
    assert_eq!(QoiChunk::Color2.chunk_index(), 7);
    assert_eq!(QoiChunk::Color3.chunk_index(), 8);
    assert_eq!(QoiChunk::Color4.chunk_index(), 9);
}
