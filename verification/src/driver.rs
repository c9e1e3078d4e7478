//! The render driver: one frame is a fold of the full sample grid - 90 ring
//! steps, each with 324 tube steps - through the compositor, starting from
//! blank buffers.  The driver resets the per-frame rotation states, runs the
//! grid, hands the finished character grid out, and advances the two
//! persistent view rotations for the next frame.

use vstd::prelude::*;

use crate::compositor::FrameComposer;
use crate::compositor::PixelRecord;
use crate::compositor::cell_index;
use crate::compositor::composite_all;
use crate::compositor::composite_spec;
use crate::compositor::in_window;
use crate::compositor::lemma_depth_monotonicity;
use crate::fixed::lemma_floor_div_rem;
use crate::rotator::RotationState;
use crate::rotator::rotated_pair;
use crate::sample::lemma_depth_window;
use crate::sample::luminance_ramp;
use crate::sample::sample_point;
use crate::sample::sp_depth;
use crate::sample::sp_luminance;
use crate::sample::sp_screen_x;
use crate::sample::sp_screen_y;

verus! {

/// The sample a given combination of rotation states produces.
pub open spec fn pixel_at(t: (int, int), r: (int, int), a: (int, int), b: (int, int)) -> PixelRecord {
    (
        sp_screen_x(t, r, a, b),
        sp_screen_y(t, r, a, b),
        sp_depth(t, r, a) as i8,
        luminance_ramp(sp_luminance(t, r, a, b)),
    )
}

/// The samples of n tube steps from tube state t, in iteration order: each
/// step samples first, then advances the tube state by the (5, 8) increment.
pub open spec fn tube_pixels(
    t: (int, int),
    r: (int, int),
    a: (int, int),
    b: (int, int),
    n: nat,
) -> Seq<PixelRecord>
    decreases n,
{
    if n == 0 {
        Seq::empty()
    } else {
        seq![pixel_at(t, r, a, b)] + tube_pixels(
            rotated_pair(5, 256, t.0, t.1),
            r,
            a,
            b,
            (n - 1) as nat,
        )
    }
}

/// The samples of n ring steps from ring state r: each step runs a full pass
/// of 324 tube steps from the reset tube state, then advances the ring state
/// by the (9, 7) increment.
pub open spec fn ring_pixels(r: (int, int), a: (int, int), b: (int, int), n: nat) -> Seq<
    PixelRecord,
>
    decreases n,
{
    if n == 0 {
        Seq::empty()
    } else {
        tube_pixels((1024, 0), r, a, b, 324) + ring_pixels(
            rotated_pair(9, 128, r.0, r.1),
            a,
            b,
            (n - 1) as nat,
        )
    }
}

/// All samples of one frame, in iteration order, for view states a and b.
pub open spec fn frame_pixels(a: (int, int), b: (int, int)) -> Seq<PixelRecord> {
    ring_pixels((1024, 0), a, b, 90)
}

/// The blank character grid a frame starts from.
pub open spec fn blank_grid() -> Seq<char> {
    Seq::new(1760nat, |k: int| ' ')
}

/// The reset depth buffer a frame starts from: every cell at the maximum.
pub open spec fn blank_depths() -> Seq<i8> {
    Seq::new(1760nat, |k: int| 127i8)
}

/// The finished character grid of one frame rendered from view states a and
/// b: the full sample grid composited over blank buffers.
pub open spec fn spec_frame(a: (int, int), b: (int, int)) -> Seq<char> {
    composite_all(blank_grid(), blank_depths(), frame_pixels(a, b)).0
}

/// The depth buffer left behind by one full frame.
pub open spec fn spec_frame_depths(a: (int, int), b: (int, int)) -> Seq<i8> {
    composite_all(blank_grid(), blank_depths(), frame_pixels(a, b)).1
}

/// Depth monotonicity of a full frame: after compositing the whole sample
/// grid, the depth stored at any cell is at most the depth of every in-window
/// sample of the frame that targeted that cell - in particular of every
/// sample that lost its depth comparison there.
pub proof fn lemma_frame_depth_monotonicity(a: (int, int), b: (int, int), m: int)
    requires
        0 <= m < frame_pixels(a, b).len(),
        in_window(frame_pixels(a, b)[m].0, frame_pixels(a, b)[m].1),
    ensures
        (spec_frame_depths(a, b)[cell_index(frame_pixels(a, b)[m].0, frame_pixels(a, b)[m].1)] as int)
            <= (frame_pixels(a, b)[m].2 as int),
{
    lemma_depth_monotonicity(blank_grid(), blank_depths(), frame_pixels(a, b), m);
}

/// Renders one complete frame from the two view rotation states: resets the
/// buffers, runs the nested sample grid through the compositor, and returns
/// the 1760-cell character grid.  The result is a function of the two states
/// alone, so rendering twice from identical states gives identical output.
pub fn render_frame(view_a: &RotationState, view_b: &RotationState) -> (frame: Vec<char>)
    requires
        view_a.wf(),
        view_b.wf(),
    ensures
        frame@ == spec_frame(view_a.pair(), view_b.pair()),
        frame@.len() == 1760,
{
    let ghost ap = view_a.pair();
    let ghost bp = view_b.pair();
    let ghost target = composite_all(blank_grid(), blank_depths(), frame_pixels(ap, bp));
    let mut composer = FrameComposer::new();
    proof {
        assert(composer.grid() =~= blank_grid());
        assert(composer.depths() =~= blank_depths());
    }
    let mut ring = RotationState::unit();
    let mut j: usize = 0;
    while j < 90
        invariant
            j <= 90,
            ring.wf(),
            view_a.wf(),
            view_b.wf(),
            composer.wf(),
            ap == view_a.pair(),
            bp == view_b.pair(),
            target == composite_all(blank_grid(), blank_depths(), frame_pixels(ap, bp)),
            composite_all(
                composer.grid(),
                composer.depths(),
                ring_pixels(ring.pair(), ap, bp, (90 - j) as nat),
            ) == target,
        decreases 90 - j,
    {
        let ghost rp = ring.pair();
        let ghost rest = ring_pixels(rotated_pair(9, 128, rp.0, rp.1), ap, bp, (89 - j) as nat);
        proof {
            assert(ring_pixels(rp, ap, bp, (90 - j) as nat) == tube_pixels((1024, 0), rp, ap, bp, 324)
                + rest);
        }
        let mut tube = RotationState::unit();
        let mut i: usize = 0;
        while i < 324
            invariant
                i <= 324,
                tube.wf(),
                ring.wf(),
                view_a.wf(),
                view_b.wf(),
                composer.wf(),
                ap == view_a.pair(),
                bp == view_b.pair(),
                rp == ring.pair(),
                rest == ring_pixels(rotated_pair(9, 128, rp.0, rp.1), ap, bp, (89 - j) as nat),
                composite_all(
                    composer.grid(),
                    composer.depths(),
                    tube_pixels(tube.pair(), rp, ap, bp, (324 - i) as nat) + rest,
                ) == target,
            decreases 324 - i,
        {
            let ghost tp = tube.pair();
            let ghost g0 = composer.grid();
            let ghost d0 = composer.depths();
            let px = sample_point(&tube, &ring, view_a, view_b);
            proof {
                lemma_depth_window(tp, rp, ap);
            }
            let ghost p = pixel_at(tp, rp, ap, bp);
            proof {
                assert((px.x as int, px.y as int, px.depth, px.glyph) == p);
            }
            composer.composite(&px);
            proof {
                let n = (324 - i) as nat;
                let tail = tube_pixels(rotated_pair(5, 256, tp.0, tp.1), rp, ap, bp, (n - 1) as nat);
                let s = tail + rest;
                assert(tube_pixels(tp, rp, ap, bp, n) == seq![p] + tail);
                assert(tube_pixels(tp, rp, ap, bp, n) + rest =~= seq![p] + s);
                assert((seq![p] + s)[0] == p);
                assert((seq![p] + s).drop_first() =~= s);
                assert(composite_all(g0, d0, seq![p] + s) == composite_all(
                    composite_spec(g0, d0, p).0,
                    composite_spec(g0, d0, p).1,
                    s,
                ));
            }
            tube.advance(5, 8);
            i += 1;
        }
        proof {
            assert(tube_pixels(tube.pair(), rp, ap, bp, 0nat) + rest =~= rest);
        }
        ring.advance(9, 7);
        j += 1;
    }
    proof {
        assert(ring_pixels(ring.pair(), ap, bp, 0nat) =~= Seq::<PixelRecord>::empty());
    }
    let frame = composer.into_grid();
    proof {
        assert(frame@ == target.0);
    }
    frame
}

/// Advances the two persistent view rotation states by their per-frame
/// increments: (5, 7) for the first, (5, 8) for the second.
pub fn advance_views(view_a: &mut RotationState, view_b: &mut RotationState)
    requires
        old(view_a).wf(),
        old(view_b).wf(),
    ensures
        final(view_a).pair() == rotated_pair(5, 128, old(view_a).pair().0, old(view_a).pair().1),
        final(view_b).pair() == rotated_pair(5, 256, old(view_b).pair().0, old(view_b).pair().1),
        final(view_a).wf(),
        final(view_b).wf(),
{
    view_a.advance(5, 7);
    view_b.advance(5, 8);
}

/// The character at position k of the flushed frame text: rows of 80 cells
/// separated by newline characters (row stride 81 in the text).
pub open spec fn text_cell(frame: Seq<char>, k: int) -> char {
    if k % 81 == 80 {
        '\n'
    } else {
        frame[80 * (k / 81) + k % 81]
    }
}

/// Lays the finished grid out as flushable text: 22 rows of 80 characters
/// with a newline between consecutive rows.
pub fn frame_text(frame: &Vec<char>) -> (out: Vec<char>)
    requires
        frame@.len() == 1760,
    ensures
        out@.len() == 1781,
        forall|k: int| 0 <= k < 1781 ==> out@[k] == text_cell(frame@, k),
{
    let mut out: Vec<char> = Vec::new();
    let mut k: usize = 0;
    while k < 1781
        invariant
            k <= 1781,
            frame@.len() == 1760,
            out@.len() == k,
            forall|m: int| 0 <= m < k ==> out@[m] == text_cell(frame@, m),
        decreases 1781 - k,
    {
        proof {
            lemma_floor_div_rem(k as int, 81);
        }
        let row: usize = k / 81;
        let col: usize = k % 81;
        if col == 80 {
            out.push('\n');
        } else {
            out.push(frame[row * 80 + col]);
        }
        k += 1;
    }
    out
}

/// The render driver's persistent state: the two view rotations that carry
/// over from frame to frame.
pub struct Renderer {
    pub view_a: RotationState,
    pub view_b: RotationState,
}

impl Renderer {
    /// Both view states stay in the magnitude window.
    pub open spec fn wf(&self) -> bool {
        self.view_a.wf() && self.view_b.wf()
    }

    /// The documented initial driver state: both view rotations at the unit
    /// vector (1024, 0).
    pub fn new() -> (r: Renderer)
        ensures
            r.wf(),
            r.view_a.pair() == (1024int, 0int),
            r.view_b.pair() == (1024int, 0int),
    {
        Renderer { view_a: RotationState::unit(), view_b: RotationState::unit() }
    }

    /// Renders the next frame from the current view states and advances them
    /// by one per-frame increment each.
    pub fn next_frame(&mut self) -> (frame: Vec<char>)
        requires
            old(self).wf(),
        ensures
            final(self).wf(),
            frame@ == spec_frame(old(self).view_a.pair(), old(self).view_b.pair()),
            frame@.len() == 1760,
            final(self).view_a.pair() == rotated_pair(
                5,
                128,
                old(self).view_a.pair().0,
                old(self).view_a.pair().1,
            ),
            final(self).view_b.pair() == rotated_pair(
                5,
                256,
                old(self).view_b.pair().0,
                old(self).view_b.pair().1,
            ),
    {
        let frame = render_frame(&self.view_a, &self.view_b);
        let mut va = self.view_a;
        let mut vb = self.view_b;
        advance_views(&mut va, &mut vb);
        self.view_a = va;
        self.view_b = vb;
        frame
    }
}

} // verus!
