use qoi_vis::pixel::{count_differing, DiffOrColor, PixelDict, PixelDiff, QoiPixel};

fn pixel_diff_8(r: i8, g: i8, b: i8) -> PixelDiff {
    assert!(-2 <= r && r <= 1);
    assert!(-2 <= g && g <= 1);
    assert!(-2 <= b && b <= 1);
    PixelDiff::diff8_from_unbiased(r, g, b)
}

fn pixel_diff_16(r: i8, g: i8, b: i8) -> PixelDiff {
    assert!(-16 <= r && r <= 15);
    assert!(-8 <= g && g <= 7);
    assert!(-8 <= b && b <= 7);
    PixelDiff::diff16_from_unbiased(r, g, b)
}

fn pixel_diff_24(r: i8, g: i8, b: i8, a: i8) -> PixelDiff {
    assert!(-16 <= r && r <= 15);
    assert!(-16 <= g && g <= 15);
    assert!(-16 <= b && b <= 15);
    assert!(-16 <= a && a <= 15);
    PixelDiff::diff24_from_unbiased(r, g, b, a)
}

#[test]
fn test_pixel() {
    let px = QoiPixel::new(1, 2, 3, 4);

    assert_eq!(px.r(), 1);
    assert_eq!(px.g(), 2);
    assert_eq!(px.b(), 3);
    assert_eq!(px.a(), 4);

    assert_eq!(px, QoiPixel::from([1, 2, 3, 4]));
}

#[test]
fn test_pixel_sub() {
    let px = QoiPixel::new(0, 0, 0, 255);

    assert_eq!(px.sub(px), DiffOrColor::Diff(pixel_diff_8(0, 0, 0)));

    assert_eq!(
        px.sub(QoiPixel::new(2, 0, 255, 255)),
        DiffOrColor::Diff(pixel_diff_8(-2, 0, 1))
    );

    assert_eq!(
        px.sub(QoiPixel::new(16, 8, 249, 255)),
        DiffOrColor::Diff(pixel_diff_16(-16, -8, 7))
    );

    assert_eq!(
        px.sub(QoiPixel::new(241, 16, 9, 247)),
        DiffOrColor::Diff(pixel_diff_24(15, -16, -9, 8))
    );

    assert_eq!(
        px.sub(QoiPixel::new(1, 1, 30, 255)),
        DiffOrColor::Color(0b1110)
    );
    assert_eq!(
        px.sub(QoiPixel::new(0, 1, 30, 254)),
        DiffOrColor::Color(0b0111)
    );
    assert_eq!(
        px.sub(QoiPixel::new(1, 1, 30, 254)),
        DiffOrColor::Color(0b1111)
    );

    // If only one component differs, a literal color beats Diff24.
    assert_eq!(
        px.sub(QoiPixel::new(0, 9, 0, 255)),
        DiffOrColor::Color(0b0100)
    );
    assert_eq!(
        px.sub(QoiPixel::new(0, 0, 9, 255)),
        DiffOrColor::Color(0b0010)
    );
    assert_eq!(
        px.sub(QoiPixel::new(0, 0, 0, 254)),
        DiffOrColor::Color(0b0001)
    );
}

#[test]
fn diff8_scenario() {
    // deltas (-2, 0, 1, 0) fit the Diff8 ranges.
    let prev = QoiPixel::new(0, 0, 0, 255);
    let cur = QoiPixel::new(254, 0, 1, 255);
    assert_eq!(cur.sub(prev), DiffOrColor::Diff(pixel_diff_8(-2, 0, 1)));
}

#[test]
fn diff16_scenario() {
    // deltas (-16, -8, 7, 0) miss the Diff8 ranges but fit the Diff16 ranges.
    let prev = QoiPixel::new(0, 0, 0, 255);
    let cur = QoiPixel::new(240, 248, 7, 255);
    assert_eq!(cur.sub(prev), DiffOrColor::Diff(pixel_diff_16(-16, -8, 7)));
}

#[test]
fn diff24_scenario() {
    // deltas (15, -16, -9, 8) via wraparound: at least two channels differ.
    let prev = QoiPixel::new(241, 16, 9, 247);
    let cur = QoiPixel::new(0, 0, 0, 255);
    assert_eq!(
        cur.sub(prev),
        DiffOrColor::Diff(pixel_diff_24(15, -16, -9, 8))
    );
}

#[test]
fn single_channel_never_diff24() {
    // Only green differs, by 9: a 2-byte literal color, never Diff24.
    let prev = QoiPixel::new(0, 0, 0, 255);
    let cur = QoiPixel::new(0, 9, 0, 255);
    assert_eq!(cur.sub(prev), DiffOrColor::Color(0b0100));
    assert!(!matches!(
        cur.sub(prev),
        DiffOrColor::Diff(PixelDiff::Diff24 { .. })
    ));
}

#[test]
fn diff_payload_packing() {
    // Bias 2, fields 2 bits each: (-2, 0, 1) packs to 0*16 + 2*4 + 3.
    assert_eq!(pixel_diff_8(-2, 0, 1), PixelDiff::Diff8(11));
    // Bias 16/8/8, fields 5+4+4 bits: (-16, -8, 7) packs to 0*256 + 0*16 + 15.
    assert_eq!(pixel_diff_16(-16, -8, 7), PixelDiff::Diff16(15));
    // Bias 16 each, fields 5 bits: (15, -16, -9, 8) packs to r=31, gba=0*1024+7*32+24.
    assert_eq!(
        pixel_diff_24(15, -16, -9, 8),
        PixelDiff::Diff24 {
            diff_r: 31,
            diff_gba: 248
        }
    );
}

#[test]
fn count_differing_channels() {
    let prev = QoiPixel::new(0, 0, 0, 255);
    assert_eq!(count_differing(prev, prev), 0);
    assert_eq!(count_differing(QoiPixel::new(0, 9, 0, 255), prev), 1);
    assert_eq!(count_differing(QoiPixel::new(1, 1, 30, 254), prev), 4);
}

#[test]
fn pixel_dict_hash_and_slots() {
    assert_eq!(PixelDict::hash(QoiPixel::new(0, 0, 0, 255)), 63);
    assert_eq!(PixelDict::hash(QoiPixel::new(0, 0, 0, 0)), 0);
    assert_eq!(PixelDict::hash(QoiPixel::new(1, 2, 3, 255)), 63 & (1 ^ 2 ^ 3 ^ 255));

    let mut dict = PixelDict::new();
    assert_eq!(dict.get(63), QoiPixel::new(0, 0, 0, 0));
    let px = QoiPixel::new(1, 2, 3, 255);
    dict.put(63, px);
    assert_eq!(dict.get(63), px);
    assert_eq!(dict.get(0), QoiPixel::new(0, 0, 0, 0));
}
