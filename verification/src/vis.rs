//! Visualization support: per-chunk-kind visibility configuration and the
//! row-major RGBA byte buffer derived from a chunk-kind sequence.

use vstd::prelude::*;

use crate::qoi::QoiChunk;

verus! {

/// Which chunk kinds are currently visible in the visualization.
#[derive(Clone, Debug, Eq, Hash, PartialEq)]
pub struct VisConfig {
    visibles: Vec<bool>,
}

impl View for VisConfig {
    type V = Seq<bool>;

    closed spec fn view(&self) -> Seq<bool> {
        self.visibles@
    }
}

impl VisConfig {
    /// A configuration with every chunk kind visible.
    pub fn new() -> (c: Self)
        ensures
            c@.len() == 10,
            forall|i: int| 0 <= i < 10 ==> c@[i],
    {
        let mut visibles: Vec<bool> = Vec::new();
        let mut i: usize = 0;
        while i < 10
            invariant
                i <= 10,
                visibles@.len() == i,
                forall|j: int| 0 <= j < i ==> visibles@[j],
            decreases 10 - i,
        {
            visibles.push(true);
            i = i + 1;
        }
        VisConfig { visibles }
    }

    /// Whether the given chunk kind is visible.
    pub fn is_visible(&self, chunk: QoiChunk) -> (v: bool)
        requires
            self@.len() == 10,
        ensures
            v == self@[chunk.spec_index()],
    {
        let i: usize = chunk.chunk_index();
        self.visibles[i]
    }

    /// Flips the visibility of the given chunk kind.
    pub fn toggle_visibility(&mut self, chunk: QoiChunk)
        requires
            old(self)@.len() == 10,
        ensures
            final(self)@ == old(self)@.update(
                chunk.spec_index(),
                !old(self)@[chunk.spec_index()],
            ),
    {
        let i: usize = chunk.chunk_index();
        let v: bool = self.visibles[i];
        self.visibles.set(i, !v);
    }

    /// Makes every chunk kind visible.
    pub fn make_all_visible(&mut self)
        requires
            old(self)@.len() == 10,
        ensures
            final(self)@.len() == 10,
            forall|i: int| 0 <= i < 10 ==> final(self)@[i],
    {
        let mut i: usize = 0;
        while i < 10
            invariant
                i <= 10,
                self.visibles@.len() == 10,
                forall|j: int| 0 <= j < i ==> self.visibles@[j],
            decreases 10 - i,
        {
            self.visibles.set(i, true);
            i = i + 1;
        }
    }

    /// Makes every chunk kind invisible.
    pub fn make_all_invisible(&mut self)
        requires
            old(self)@.len() == 10,
        ensures
            final(self)@.len() == 10,
            forall|i: int| 0 <= i < 10 ==> !final(self)@[i],
    {
        let mut i: usize = 0;
        while i < 10
            invariant
                i <= 10,
                self.visibles@.len() == 10,
                forall|j: int| 0 <= j < i ==> !self.visibles@[j],
            decreases 10 - i,
        {
            self.visibles.set(i, false);
            i = i + 1;
        }
    }
}

impl Default for VisConfig {
    /// The default configuration has every chunk kind visible.
    fn default() -> (c: Self)
        ensures
            c@.len() == 10,
            forall|i: int| 0 <= i < 10 ==> c@[i],
    {
        Self::new()
    }
}

/// The display color (red, green, blue) of a chunk kind.
pub open spec fn spec_color_of(chunk: QoiChunk) -> Seq<u8> {
    match chunk {
        QoiChunk::Index => seq![0xFFu8, 0xFFu8, 0x00u8],
        QoiChunk::Run8 => seq![0xC0u8, 0xC0u8, 0xC0u8],
        QoiChunk::Run16 => seq![0x80u8, 0x80u8, 0x80u8],
        QoiChunk::Diff8 => seq![0x00u8, 0xFFu8, 0xFFu8],
        QoiChunk::Diff16 => seq![0x00u8, 0xC0u8, 0xC0u8],
        QoiChunk::Diff24 => seq![0x00u8, 0x80u8, 0x80u8],
        QoiChunk::Color1 => seq![0xFFu8, 0x00u8, 0x00u8],
        QoiChunk::Color2 => seq![0xC0u8, 0x00u8, 0x00u8],
        QoiChunk::Color3 => seq![0x80u8, 0x00u8, 0x00u8],
        QoiChunk::Color4 => seq![0x40u8, 0x00u8, 0x00u8],
    }
}

/// The display color of a chunk kind, as an RGB triple.
pub fn color_of_chunk(chunk: QoiChunk) -> (c: [u8; 3])
    ensures
        c@ == spec_color_of(chunk),
{
    let c: [u8; 3] = match chunk {
        QoiChunk::Index => [0xFF, 0xFF, 0x00],
        QoiChunk::Run8 => [0xC0, 0xC0, 0xC0],
        QoiChunk::Run16 => [0x80, 0x80, 0x80],
        QoiChunk::Diff8 => [0x00, 0xFF, 0xFF],
        QoiChunk::Diff16 => [0x00, 0xC0, 0xC0],
        QoiChunk::Diff24 => [0x00, 0x80, 0x80],
        QoiChunk::Color1 => [0xFF, 0x00, 0x00],
        QoiChunk::Color2 => [0xC0, 0x00, 0x00],
        QoiChunk::Color3 => [0x80, 0x00, 0x00],
        QoiChunk::Color4 => [0x40, 0x00, 0x00],
    };
    proof {
        assert(c@ =~= spec_color_of(chunk));
    }
    c
}

/// The visualization color of one entry: the kind's display color when the
/// kind is visible, black otherwise.
pub open spec fn vis_color(k: QoiChunk, visible: bool) -> Seq<u8> {
    if visible {
        spec_color_of(k)
    } else {
        seq![0u8, 0u8, 0u8]
    }
}

/// Renders a chunk-kind sequence to a row-major RGBA byte buffer, one 4-byte
/// pixel per entry: the entry's visualization color with full alpha.
pub fn visualize(chunks: &Vec<QoiChunk>, config: &VisConfig) -> (buf: Vec<u8>)
    requires
        config@.len() == 10,
        4 * chunks@.len() <= usize::MAX,
    ensures
        buf@.len() == 4 * chunks@.len(),
        forall|i: int|
            0 <= i < chunks@.len() ==> {
                let c = vis_color(#[trigger] chunks@[i], config@[chunks@[i].spec_index()]);
                buf@[4 * i] == c[0] && buf@[4 * i + 1] == c[1] && buf@[4 * i + 2] == c[2] && buf@[4
                    * i + 3] == 0xFF
            },
{
    let mut buf: Vec<u8> = Vec::new();
    let mut i: usize = 0;
    while i < chunks.len()
        invariant
            i <= chunks@.len(),
            config@.len() == 10,
            buf@.len() == 4 * i,
            forall|j: int|
                0 <= j < i ==> {
                    let c = vis_color(#[trigger] chunks@[j], config@[chunks@[j].spec_index()]);
                    buf@[4 * j] == c[0] && buf@[4 * j + 1] == c[1] && buf@[4 * j + 2] == c[2]
                        && buf@[4 * j + 3] == 0xFF
                },
        decreases chunks@.len() - i,
    {
        let chunk: QoiChunk = chunks[i];
        let visible: bool = config.is_visible(chunk);
        let color: [u8; 3] = if visible {
            color_of_chunk(chunk)
        } else {
            [0, 0, 0]
        };
        buf.push(color[0]);
        buf.push(color[1]);
        buf.push(color[2]);
        buf.push(0xFF);
        i = i + 1;
    }
    buf
}

} // verus!
