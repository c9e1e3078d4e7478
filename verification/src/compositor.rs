//! The frame compositor: a fixed 80 x 22 character buffer with a parallel
//! depth buffer, mutated only through the single `composite` operation.
//!
//! A sample is accepted if and only if its screen coordinates lie strictly
//! inside the window (0 < x < 80, 0 < y < 22) and its depth is strictly less
//! than the depth stored at its cell; ties never overwrite, so the first
//! writer wins on equal depth.  The spec-level fold `composite_all` is the
//! model a whole frame is rendered against, and the lemmas at the bottom
//! state the depth-monotonicity and bounds-safety laws of that model.

use vstd::prelude::*;

use crate::sample::SamplePixel;

verus! {

/// One sample as the compositor model sees it: screen x, screen y, depth,
/// and the shaded glyph.
pub type PixelRecord = (int, int, i8, char);

/// Whether a sample's coordinates lie strictly inside the screen window.
pub open spec fn in_window(x: int, y: int) -> bool {
    0 < x < 80 && 0 < y < 22
}

/// The buffer cell a sample targets.
pub open spec fn cell_index(x: int, y: int) -> int {
    x + y * 80
}

/// The effect of compositing one sample: a nearest-wins depth test, writing
/// the glyph and the depth only on a strict win.
pub open spec fn composite_spec(chars: Seq<char>, deps: Seq<i8>, p: PixelRecord) -> (
    Seq<char>,
    Seq<i8>,
) {
    let o = cell_index(p.0, p.1);
    if chars.len() == 1760 && deps.len() == 1760 && in_window(p.0, p.1) && (p.2 as int) < (
    deps[o] as int) {
        (chars.update(o, p.3), deps.update(o, p.2))
    } else {
        (chars, deps)
    }
}

/// Compositing a whole sequence of samples in order.
pub open spec fn composite_all(chars: Seq<char>, deps: Seq<i8>, ps: Seq<PixelRecord>) -> (
    Seq<char>,
    Seq<i8>,
)
    decreases ps.len(),
{
    if ps.len() == 0 {
        (chars, deps)
    } else {
        let cd = composite_spec(chars, deps, ps[0]);
        composite_all(cd.0, cd.1, ps.drop_first())
    }
}

/// The fixed-size character buffer and its parallel depth buffer.
pub struct FrameComposer {
    chars: Vec<char>,
    zbuf: Vec<i8>,
}

impl FrameComposer {
    /// Both buffers always have the full frame length.
    pub open spec fn wf(&self) -> bool {
        self.grid().len() == 1760 && self.depths().len() == 1760
    }

    /// The character grid, indexed by x + y * 80.
    pub closed spec fn grid(&self) -> Seq<char> {
        self.chars@
    }

    /// The stored depths, parallel to the grid.
    pub closed spec fn depths(&self) -> Seq<i8> {
        self.zbuf@
    }

    /// A fresh frame: every cell the space character, every depth the
    /// maximum representable value.
    pub fn new() -> (r: FrameComposer)
        ensures
            r.wf(),
            forall|k: int| 0 <= k < 1760 ==> r.grid()[k] == ' ',
            forall|k: int| 0 <= k < 1760 ==> r.depths()[k] == 127i8,
    {
        let mut chars: Vec<char> = Vec::new();
        let mut zbuf: Vec<i8> = Vec::new();
        let mut k: usize = 0;
        while k < 1760
            invariant
                k <= 1760,
                chars@.len() == k,
                zbuf@.len() == k,
                forall|i: int| 0 <= i < k ==> chars@[i] == ' ',
                forall|i: int| 0 <= i < k ==> zbuf@[i] == 127i8,
            decreases 1760 - k,
        {
            chars.push(' ');
            zbuf.push(127);
            k += 1;
        }
        FrameComposer { chars, zbuf }
    }

    /// Composites one sample: writes its glyph and depth at its cell if and
    /// only if it lies inside the window and wins the strict depth test.
    /// Stored depths never increase.
    pub fn composite(&mut self, px: &SamplePixel)
        requires
            old(self).wf(),
        ensures
            final(self).wf(),
            final(self).grid() == composite_spec(
                old(self).grid(),
                old(self).depths(),
                (px.x as int, px.y as int, px.depth, px.glyph),
            ).0,
            final(self).depths() == composite_spec(
                old(self).grid(),
                old(self).depths(),
                (px.x as int, px.y as int, px.depth, px.glyph),
            ).1,
            forall|k: int|
                0 <= k < 1760 ==> (final(self).depths()[k] as int) <= (old(self).depths()[k] as int),
    {
        if px.x > 0 && px.x < 80 && px.y > 0 && px.y < 22 {
            let o: usize = (px.x as usize) + (px.y as usize) * 80;
            if px.depth < self.zbuf[o] {
                self.zbuf[o] = px.depth;
                self.chars[o] = px.glyph;
            }
        }
    }

    /// The glyph currently stored at a cell.
    pub fn glyph_at(&self, k: usize) -> (c: char)
        requires
            self.wf(),
            k < 1760,
        ensures
            c == self.grid()[k as int],
    {
        self.chars[k]
    }

    /// The depth currently stored at a cell.
    pub fn depth_at(&self, k: usize) -> (d: i8)
        requires
            self.wf(),
            k < 1760,
        ensures
            d == self.depths()[k as int],
    {
        self.zbuf[k]
    }

    /// Hands the finished character grid out.
    pub fn into_grid(self) -> (v: Vec<char>)
        ensures
            v@ == self.grid(),
    {
        self.chars
    }
}

/// Depth monotonicity of the fold: compositing any sequence of samples never
/// raises a stored depth.
pub proof fn lemma_composite_all_monotonic(
    chars: Seq<char>,
    deps: Seq<i8>,
    ps: Seq<PixelRecord>,
    k: int,
)
    requires
        chars.len() == 1760,
        deps.len() == 1760,
        0 <= k < 1760,
    ensures
        composite_all(chars, deps, ps).1.len() == 1760,
        (composite_all(chars, deps, ps).1[k] as int) <= (deps[k] as int),
    decreases ps.len(),
{
    if ps.len() != 0 {
        let cd = composite_spec(chars, deps, ps[0]);
        lemma_composite_all_monotonic(cd.0, cd.1, ps.drop_first(), k);
    }
}

/// Depth monotonicity of a frame: after compositing a sequence of samples,
/// every in-window sample of the sequence - the losers of its cell's depth
/// comparisons among them - has a stored depth at its cell no greater than
/// its own depth.
pub proof fn lemma_depth_monotonicity(
    chars: Seq<char>,
    deps: Seq<i8>,
    ps: Seq<PixelRecord>,
    m: int,
)
    requires
        chars.len() == 1760,
        deps.len() == 1760,
        0 <= m < ps.len(),
        in_window(ps[m].0, ps[m].1),
    ensures
        (composite_all(chars, deps, ps).1[cell_index(ps[m].0, ps[m].1)] as int) <= (ps[m].2 as int),
    decreases ps.len(),
{
    let cd = composite_spec(chars, deps, ps[0]);
    if m == 0 {
        lemma_composite_all_monotonic(cd.0, cd.1, ps.drop_first(), cell_index(ps[0].0, ps[0].1));
    } else {
        lemma_depth_monotonicity(cd.0, cd.1, ps.drop_first(), m - 1);
    }
}

/// Bounds safety: a composite changes a cell only when its sample lies
/// strictly inside the window, and then only the sample's own cell, whose
/// index is inside the buffers.
pub proof fn lemma_bounds_safety(chars: Seq<char>, deps: Seq<i8>, p: PixelRecord, k: int)
    requires
        chars.len() == 1760,
        deps.len() == 1760,
        0 <= k < 1760,
        composite_spec(chars, deps, p).0[k] != chars[k] || (composite_spec(chars, deps, p).1[k] as int)
            != (deps[k] as int),
    ensures
        in_window(p.0, p.1),
        k == cell_index(p.0, p.1),
        0 < k < 1760,
{
}

} // verus!
