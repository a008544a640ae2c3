//! Pixel algebra: RGBA8 pixels, wrapped channel deltas, and the classified
//! difference between two pixels (delta encoding or literal-color selector).

use vstd::prelude::*;

verus! {

/// An RGBA8 pixel: four 8-bit channels, compared by exact equality.
#[derive(Clone, Copy, Debug, Eq, Hash, PartialEq, Structural)]
pub struct QoiPixel {
    pub r: u8,
    pub g: u8,
    pub b: u8,
    pub a: u8,
}

/// The all-zero pixel that fills a fresh color cache.
pub open spec fn zero_pixel() -> QoiPixel {
    QoiPixel { r: 0, g: 0, b: 0, a: 0 }
}

/// The wrapped 8-bit difference `a - b`, reinterpreted as a signed value in
/// [-128, 127] (modulo-256 arithmetic).
pub open spec fn delta(a: u8, b: u8) -> int {
    if a >= b {
        if a - b < 128 {
            a - b
        } else {
            a - b - 256
        }
    } else {
        if a - b + 256 < 128 {
            a - b + 256
        } else {
            a - b
        }
    }
}

/// The 4-bit mask of channels on which `cur` differs from `prev`
/// (bit 3 = red, bit 2 = green, bit 1 = blue, bit 0 = alpha).
pub open spec fn spec_mask(cur: QoiPixel, prev: QoiPixel) -> u8 {
    ((if cur.r != prev.r {
        8int
    } else {
        0
    }) + (if cur.g != prev.g {
        4int
    } else {
        0
    }) + (if cur.b != prev.b {
        2int
    } else {
        0
    }) + (if cur.a != prev.a {
        1int
    } else {
        0
    })) as u8
}

/// How many of the four channels differ between `cur` and `prev`.
pub open spec fn spec_ones(cur: QoiPixel, prev: QoiPixel) -> int {
    (if cur.r != prev.r {
        1int
    } else {
        0
    }) + (if cur.g != prev.g {
        1int
    } else {
        0
    }) + (if cur.b != prev.b {
        1int
    } else {
        0
    }) + (if cur.a != prev.a {
        1int
    } else {
        0
    })
}

/// The result of comparing a pixel against the previous one: either a compact
/// delta encoding or a literal-color selector carrying the differs mask.
#[derive(Clone, Copy, Debug, Eq, Hash, PartialEq, Structural)]
pub enum DiffOrColor {
    Diff(PixelDiff),
    Color(u8),
}

/// Pixel delta encodings, with their packed bit payloads.
#[derive(Clone, Copy, Debug, Eq, Hash, PartialEq, Structural)]
pub enum PixelDiff {
    Diff8(u8),
    Diff16(u16),
    Diff24 { diff_r: u8, diff_gba: u16 },
}

/// The classification of `cur` against `prev`: the first applicable of
/// Diff8, Diff16, Diff24 (at least two differing channels), literal color.
pub open spec fn spec_classify(cur: QoiPixel, prev: QoiPixel) -> DiffOrColor {
    let dr = delta(cur.r, prev.r);
    let dg = delta(cur.g, prev.g);
    let db = delta(cur.b, prev.b);
    let da = delta(cur.a, prev.a);
    if da == 0 && -2 <= dr <= 1 && -2 <= dg <= 1 && -2 <= db <= 1 {
        DiffOrColor::Diff(PixelDiff::Diff8(((dr + 2) * 16 + (dg + 2) * 4 + (db + 2)) as u8))
    } else if da == 0 && -16 <= dr <= 15 && -8 <= dg <= 7 && -8 <= db <= 7 {
        DiffOrColor::Diff(
            PixelDiff::Diff16(((dr + 16) * 256 + (dg + 8) * 16 + (db + 8)) as u16),
        )
    } else if spec_ones(cur, prev) >= 2 && -16 <= dr <= 15 && -16 <= dg <= 15 && -16 <= db <= 15
        && -16 <= da <= 15 {
        DiffOrColor::Diff(
            PixelDiff::Diff24 {
                diff_r: (dr + 16) as u8,
                diff_gba: ((dg + 16) * 1024 + (db + 16) * 32 + (da + 16)) as u16,
            },
        )
    } else {
        DiffOrColor::Color(spec_mask(cur, prev))
    }
}

/// The wrapped difference `a - b` as a signed 8-bit value.
fn wrap_sub_signed(a: u8, b: u8) -> (d: i8)
    ensures
        d as int == delta(a, b),
{
    let w: u16 = if a >= b {
        (a - b) as u16
    } else {
        a as u16 + 256 - b as u16
    };
    if w < 128 {
        w as i8
    } else {
        (w as i16 - 256) as i8
    }
}

/// How many of the four channels differ between `cur` and `prev`.
pub fn count_differing(cur: QoiPixel, prev: QoiPixel) -> (n: u8)
    ensures
        n as int == spec_ones(cur, prev),
        n <= 4,
{
    let mut n: u8 = 0;
    if cur.r != prev.r {
        n = n + 1;
    }
    if cur.g != prev.g {
        n = n + 1;
    }
    if cur.b != prev.b {
        n = n + 1;
    }
    if cur.a != prev.a {
        n = n + 1;
    }
    n
}

impl QoiPixel {
    /// Creates RGBA8 pixel from channel components.
    pub fn new(r: u8, g: u8, b: u8, a: u8) -> (px: Self)
        ensures
            px == (QoiPixel { r, g, b, a }),
    {
        QoiPixel { r, g, b, a }
    }

    /// Returns the red channel component of this pixel.
    pub fn r(self) -> (c: u8)
        ensures
            c == self.r,
    {
        self.r
    }

    /// Returns the green channel component of this pixel.
    pub fn g(self) -> (c: u8)
        ensures
            c == self.g,
    {
        self.g
    }

    /// Returns the blue channel component of this pixel.
    pub fn b(self) -> (c: u8)
        ensures
            c == self.b,
    {
        self.b
    }

    /// Returns the alpha channel component of this pixel.
    pub fn a(self) -> (c: u8)
        ensures
            c == self.a,
    {
        self.a
    }

    /// Returns the classified difference `self - rhs`.
    pub fn sub(self, rhs: Self) -> (d: DiffOrColor)
        ensures
            d == spec_classify(self, rhs),
    {
        let dr: i8 = wrap_sub_signed(self.r, rhs.r);
        let dg: i8 = wrap_sub_signed(self.g, rhs.g);
        let db: i8 = wrap_sub_signed(self.b, rhs.b);
        let da: i8 = wrap_sub_signed(self.a, rhs.a);

        // A Diff8 or Diff16 candidate is always at least as good as a literal
        // color for the same pixel pair, so they are tried first whenever the
        // alpha channel is unchanged.
        if da == 0 {
            if -2 <= dr && dr <= 1 && -2 <= dg && dg <= 1 && -2 <= db && db <= 1 {
                return DiffOrColor::Diff(PixelDiff::diff8_from_unbiased(dr, dg, db));
            }
            if -16 <= dr && dr <= 15 && -8 <= dg && dg <= 7 && -8 <= db && db <= 7 {
                return DiffOrColor::Diff(PixelDiff::diff16_from_unbiased(dr, dg, db));
            }
        }

        let mask: u8 = (if dr != 0 {
            8
        } else {
            0
        }) + (if dg != 0 {
            4
        } else {
            0
        }) + (if db != 0 {
            2
        } else {
            0
        }) + (if da != 0 {
            1
        } else {
            0
        });
        let ones: u8 = count_differing(self, rhs);

        // With only one differing channel a literal color (2 bytes) beats
        // Diff24 (3 bytes), so Diff24 demands at least two differing channels.
        if ones >= 2 && -16 <= dr && dr <= 15 && -16 <= dg && dg <= 15 && -16 <= db && db <= 15
            && -16 <= da && da <= 15 {
            return DiffOrColor::Diff(PixelDiff::diff24_from_unbiased(dr, dg, db, da));
        }

        DiffOrColor::Color(mask)
    }
}

impl From<[u8; 4]> for QoiPixel {
    fn from(rgba: [u8; 4]) -> (px: Self) {
        QoiPixel::new(rgba[0], rgba[1], rgba[2], rgba[3])
    }
}

impl vstd::std_specs::convert::FromSpecImpl<[u8; 4]> for QoiPixel {
    open spec fn obeys_from_spec() -> bool {
        true
    }

    open spec fn from_spec(rgba: [u8; 4]) -> QoiPixel {
        QoiPixel { r: rgba[0], g: rgba[1], b: rgba[2], a: rgba[3] }
    }
}

impl PixelDiff {
    /// Packs already-biased 2-bit fields into a Diff8 payload.
    pub fn diff8_from_biased(r: u8, g: u8, b: u8) -> (d: Self)
        requires
            r < 4,
            g < 4,
            b < 4,
        ensures
            d == PixelDiff::Diff8((r * 16 + g * 4 + b) as u8),
    {
        Self::Diff8(r * 16 + g * 4 + b)
    }

    /// Biases signed Diff8 deltas (range [-2, 1], bias 2) and packs them.
    pub fn diff8_from_unbiased(r: i8, g: i8, b: i8) -> (d: Self)
        requires
            -2 <= r <= 1,
            -2 <= g <= 1,
            -2 <= b <= 1,
        ensures
            d == PixelDiff::Diff8(((r + 2) * 16 + (g + 2) * 4 + (b + 2)) as u8),
    {
        let br: u8 = (r + 2) as u8;
        let bg: u8 = (g + 2) as u8;
        let bb: u8 = (b + 2) as u8;
        Self::diff8_from_biased(br, bg, bb)
    }

    /// Packs already-biased 5+4+4-bit fields into a Diff16 payload.
    pub fn diff16_from_biased(r: u8, g: u8, b: u8) -> (d: Self)
        requires
            r < 32,
            g < 16,
            b < 16,
        ensures
            d == PixelDiff::Diff16((r * 256 + g * 16 + b) as u16),
    {
        let rw: u16 = r as u16;
        let gw: u16 = g as u16;
        let bw: u16 = b as u16;
        Self::Diff16(rw * 256 + gw * 16 + bw)
    }

    /// Biases signed Diff16 deltas (red in [-16, 15], green/blue in [-8, 7])
    /// and packs them.
    pub fn diff16_from_unbiased(r: i8, g: i8, b: i8) -> (d: Self)
        requires
            -16 <= r <= 15,
            -8 <= g <= 7,
            -8 <= b <= 7,
        ensures
            d == PixelDiff::Diff16(((r + 16) * 256 + (g + 8) * 16 + (b + 8)) as u16),
    {
        let br: u8 = (r + 16) as u8;
        let bg: u8 = (g + 8) as u8;
        let bb: u8 = (b + 8) as u8;
        Self::diff16_from_biased(br, bg, bb)
    }

    /// Packs already-biased 5-bit fields into a Diff24 payload.
    pub fn diff24_from_biased(r: u8, g: u8, b: u8, a: u8) -> (d: Self)
        requires
            r < 32,
            g < 32,
            b < 32,
            a < 32,
        ensures
            d == (PixelDiff::Diff24 { diff_r: r, diff_gba: (g * 1024 + b * 32 + a) as u16 }),
    {
        let gw: u16 = g as u16;
        let bw: u16 = b as u16;
        let aw: u16 = a as u16;
        let diff_gba: u16 = gw * 1024 + bw * 32 + aw;
        Self::Diff24 { diff_r: r, diff_gba }
    }

    /// Biases signed Diff24 deltas (all in [-16, 15], bias 16) and packs them.
    pub fn diff24_from_unbiased(r: i8, g: i8, b: i8, a: i8) -> (d: Self)
        requires
            -16 <= r <= 15,
            -16 <= g <= 15,
            -16 <= b <= 15,
            -16 <= a <= 15,
        ensures
            d == (PixelDiff::Diff24 {
                diff_r: (r + 16) as u8,
                diff_gba: ((g + 16) * 1024 + (b + 16) * 32 + (a + 16)) as u16,
            }),
    {
        let br: u8 = (r + 16) as u8;
        let bg: u8 = (g + 16) as u8;
        let bb: u8 = (b + 16) as u8;
        let ba: u8 = (a + 16) as u8;
        Self::diff24_from_biased(br, bg, bb, ba)
    }
}

/// Alpha unchanged and all RGB deltas in [-2, 1] always classify as Diff8.
pub proof fn lemma_diff8_applies(cur: QoiPixel, prev: QoiPixel)
    requires
        delta(cur.a, prev.a) == 0,
        -2 <= delta(cur.r, prev.r) <= 1,
        -2 <= delta(cur.g, prev.g) <= 1,
        -2 <= delta(cur.b, prev.b) <= 1,
    ensures
        spec_classify(cur, prev) == DiffOrColor::Diff(
            PixelDiff::Diff8(
                ((delta(cur.r, prev.r) + 2) * 16 + (delta(cur.g, prev.g) + 2) * 4 + (delta(
                    cur.b,
                    prev.b,
                ) + 2)) as u8,
            ),
        ),
{
}

/// Alpha unchanged and RGB deltas outside the Diff8 range but inside
/// [-16, 15] / [-8, 7] / [-8, 7] always classify as Diff16.
pub proof fn lemma_diff16_applies(cur: QoiPixel, prev: QoiPixel)
    requires
        delta(cur.a, prev.a) == 0,
        !(-2 <= delta(cur.r, prev.r) <= 1 && -2 <= delta(cur.g, prev.g) <= 1 && -2 <= delta(
            cur.b,
            prev.b,
        ) <= 1),
        -16 <= delta(cur.r, prev.r) <= 15,
        -8 <= delta(cur.g, prev.g) <= 7,
        -8 <= delta(cur.b, prev.b) <= 7,
    ensures
        spec_classify(cur, prev) == DiffOrColor::Diff(
            PixelDiff::Diff16(
                ((delta(cur.r, prev.r) + 16) * 256 + (delta(cur.g, prev.g) + 8) * 16 + (delta(
                    cur.b,
                    prev.b,
                ) + 8)) as u16,
            ),
        ),
{
}

/// A Diff24 classification implies at least two differing channels and all
/// four deltas within [-16, 15].
pub proof fn lemma_diff24_needs_two_channels(cur: QoiPixel, prev: QoiPixel)
    ensures
        (spec_classify(cur, prev) matches DiffOrColor::Diff(PixelDiff::Diff24 { .. })) ==> {
            &&& spec_ones(cur, prev) >= 2
            &&& -16 <= delta(cur.r, prev.r) <= 15
            &&& -16 <= delta(cur.g, prev.g) <= 15
            &&& -16 <= delta(cur.b, prev.b) <= 15
            &&& -16 <= delta(cur.a, prev.a) <= 15
        },
{
}

/// A single differing channel never classifies as Diff24, even when its delta
/// is in range.
pub proof fn lemma_single_channel_no_diff24(cur: QoiPixel, prev: QoiPixel)
    requires
        spec_ones(cur, prev) == 1,
    ensures
        !(spec_classify(cur, prev) matches DiffOrColor::Diff(PixelDiff::Diff24 { .. })),
{
    assert(delta(cur.r, prev.r) != 0 ==> cur.r != prev.r);
    assert(delta(cur.g, prev.g) != 0 ==> cur.g != prev.g);
    assert(delta(cur.b, prev.b) != 0 ==> cur.b != prev.b);
    assert(delta(cur.a, prev.a) != 0 ==> cur.a != prev.a);
}

/// The 6-bit cache index is always a valid slot number.
pub proof fn lemma_spec_hash_bound(px: QoiPixel)
    ensures
        spec_hash(px) < 64,
{
    assert(forall|x: u8| (x & 0x3F) < 64) by (bit_vector);
}

/// The 64-slot direct-mapped color cache: slot `h` holds the most recently
/// seen pixel whose hash is `h`, or the all-zero pixel if none has been seen.
#[derive(Debug)]
pub struct PixelDict(Vec<QoiPixel>);

impl View for PixelDict {
    type V = Seq<QoiPixel>;

    closed spec fn view(&self) -> Seq<QoiPixel> {
        self.0@
    }
}

/// The 6-bit cache index of a pixel: the XOR of its four channels, masked.
pub open spec fn spec_hash(px: QoiPixel) -> u8 {
    (px.r ^ px.g ^ px.b ^ px.a) & 0x3F
}

impl PixelDict {
    /// A fresh cache: 64 slots, each holding the all-zero pixel.
    pub fn new() -> (d: Self)
        ensures
            d@.len() == 64,
            forall|i: int| 0 <= i < 64 ==> d@[i] == zero_pixel(),
    {
        let mut slots: Vec<QoiPixel> = Vec::new();
        let mut i: usize = 0;
        while i < 64
            invariant
                i <= 64,
                slots@.len() == i,
                forall|j: int| 0 <= j < i ==> slots@[j] == zero_pixel(),
            decreases 64 - i,
        {
            slots.push(QoiPixel { r: 0, g: 0, b: 0, a: 0 });
            i = i + 1;
        }
        PixelDict(slots)
    }

    /// The 6-bit cache index of a pixel.
    pub fn hash(px: QoiPixel) -> (h: u8)
        ensures
            h == spec_hash(px),
            h < 64,
    {
        let h: u8 = (px.r ^ px.g ^ px.b ^ px.a) & 0x3F;
        proof {
            assert(forall|x: u8| (x & 0x3F) < 64) by (bit_vector);
        }
        h
    }

    /// Reads the slot at index `i`.
    pub fn get(&self, i: u8) -> (px: QoiPixel)
        requires
            self@.len() == 64,
            i < 64,
        ensures
            px == self@[i as int],
    {
        self.0[i as usize]
    }

    /// Overwrites the slot at index `i` (unconditional, direct-mapped).
    pub fn put(&mut self, i: u8, px: QoiPixel)
        requires
            old(self)@.len() == 64,
            i < 64,
        ensures
            final(self)@ == old(self)@.update(i as int, px),
    {
        self.0.set(i as usize, px);
    }
}

} // verus!
