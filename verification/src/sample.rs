//! The coupled inner-loop computation of the renderer: sample one torus
//! surface point, rotate it through the two view rotations, project it to
//! screen coordinates with a fixed-point perspective divide, and shade it
//! against the fixed light direction.
//!
//! The torus has minor radius 1 and major radius 2048 (scale 1024); the
//! camera distance is 5120 * 1024.  The tube and ring angles come in as
//! rotation states, as do the two view rotations.  Every division below is
//! either a floor division (an arithmetic right shift) or the truncating
//! division of the perspective divide; the contracts pin each intermediate
//! to its exact value.

use vstd::prelude::*;

use crate::fixed::floor_div;
use crate::fixed::lemma_floor_div_rem;
use crate::fixed::lemma_mul_bounds;
use crate::fixed::toward_zero_div;
use crate::fixed::trunc_div;
use crate::rotator::RotationState;
use crate::rotator::lemma_component_bound;
use crate::rotator::wf_pair;

verus! {

/// The major-radius offset: minor_radius * cos(ring) + major_radius.
pub open spec fn sp_x0(ring: (int, int)) -> int {
    ring.0 + 2048
}

/// Horizontal torus coordinate: cos(tube) * x0 >> 10.
pub open spec fn sp_x1(tube: (int, int), ring: (int, int)) -> int {
    (tube.0 * sp_x0(ring)) / 1024
}

/// First view fold: cos(a) * sin(ring) >> 10.
pub open spec fn sp_x2(ring: (int, int), view_a: (int, int)) -> int {
    (view_a.0 * ring.1) / 1024
}

/// Out-of-plane torus coordinate: sin(tube) * x0 >> 10.
pub open spec fn sp_x3(tube: (int, int), ring: (int, int)) -> int {
    (tube.1 * sp_x0(ring)) / 1024
}

/// Vertical contribution after the first view rotation.
pub open spec fn sp_x4(tube: (int, int), ring: (int, int), view_a: (int, int)) -> int {
    sp_x2(ring, view_a) - (view_a.1 * sp_x3(tube, ring)) / 1024
}

/// Second view fold: sin(a) * sin(ring) >> 10.
pub open spec fn sp_x5(ring: (int, int), view_a: (int, int)) -> int {
    (view_a.1 * ring.1) / 1024
}

/// The perspective denominator: camera distance plus the depth contribution
/// of the rotated point.
pub open spec fn sp_x6(tube: (int, int), ring: (int, int), view_a: (int, int)) -> int {
    5242880 + 1024 * sp_x5(ring, view_a) + view_a.0 * sp_x3(tube, ring)
}

/// Surface-normal fold: cos(ring) * sin(tube) >> 10.
pub open spec fn sp_x7(tube: (int, int), ring: (int, int)) -> int {
    (ring.0 * tube.1) / 1024
}

/// Screen column of the projected point.
pub open spec fn sp_screen_x(
    tube: (int, int),
    ring: (int, int),
    view_a: (int, int),
    view_b: (int, int),
) -> int {
    40 + trunc_div(
        30 * (view_b.0 * sp_x1(tube, ring) - view_b.1 * sp_x4(tube, ring, view_a)),
        sp_x6(tube, ring, view_a),
    )
}

/// Screen row of the projected point.
pub open spec fn sp_screen_y(
    tube: (int, int),
    ring: (int, int),
    view_a: (int, int),
    view_b: (int, int),
) -> int {
    12 + trunc_div(
        15 * (view_b.0 * sp_x4(tube, ring, view_a) + view_a.1 * sp_x1(tube, ring)),
        sp_x6(tube, ring, view_a),
    )
}

/// Depth of the projected point: the scaled deviation of the perspective
/// denominator from the camera distance.
pub open spec fn sp_depth(tube: (int, int), ring: (int, int), view_a: (int, int)) -> int {
    (sp_x6(tube, ring, view_a) - 5242880) / 32768
}

/// Luminance of the surface point: a fixed-point dot product between the
/// surface-normal direction and the fixed light direction, scaled into a
/// small integer range.
pub open spec fn sp_luminance(
    tube: (int, int),
    ring: (int, int),
    view_a: (int, int),
    view_b: (int, int),
) -> int {
    ((-(view_a.0 * sp_x7(tube, ring)) - view_b.0 * ((-(view_a.1 * sp_x7(tube, ring))) / 1024 + sp_x2(
        ring,
        view_a,
    )) - tube.0 * ((ring.0 * view_b.1) / 1024)) / 1024 - sp_x5(ring, view_a)) / 128
}

/// The ordered ramp of 12 glyphs from dimmest to brightest.  A luminance
/// index outside 0..=11 (back-facing or edge-case geometry) clamps to the
/// dimmest glyph.
pub open spec fn luminance_ramp(i: int) -> char {
    if i == 1 {
        ','
    } else if i == 2 {
        '-'
    } else if i == 3 {
        '~'
    } else if i == 4 {
        ':'
    } else if i == 5 {
        ';'
    } else if i == 6 {
        '='
    } else if i == 7 {
        '!'
    } else if i == 8 {
        '*'
    } else if i == 9 {
        '#'
    } else if i == 10 {
        '$'
    } else if i == 11 {
        '@'
    } else {
        ' '
    }
}

/// One projected, shaded sample: screen coordinates, depth, and glyph.
#[derive(Clone, Copy)]
pub struct SamplePixel {
    pub x: i32,
    pub y: i32,
    pub depth: i8,
    pub glyph: char,
}

/// The Cauchy-Schwarz window on the perspective denominator: for states in
/// the magnitude window, the depth contribution is far smaller than the
/// camera distance, so the denominator is positive and the scaled depth fits
/// a narrow signed range by construction of the geometry constants.
/// Cauchy-Schwarz for two terms: a dot product squared is at most the
/// product of the squared norms, the difference being a perfect square.
proof fn lemma_cauchy_schwarz(a: int, b: int, p: int, q: int)
    by (nonlinear_arith)
    ensures
        (a * p + b * q) * (a * p + b * q) <= (a * a + b * b) * (p * p + q * q),
{
}

pub proof fn lemma_depth_window(tube: (int, int), ring: (int, int), view_a: (int, int))
    requires
        wf_pair(tube.0, tube.1),
        wf_pair(ring.0, ring.1),
        wf_pair(view_a.0, view_a.1),
    ensures
        -3343248 <= sp_x6(tube, ring, view_a) - 5242880 <= 3343248,
        -103 <= sp_depth(tube, ring, view_a) <= 102,
{
    lemma_component_bound(tube.0, tube.1);
    lemma_component_bound(ring.0, ring.1);
    lemma_component_bound(view_a.0, view_a.1);
    let ca = view_a.0;
    let sa = view_a.1;
    let x0 = sp_x0(ring);
    let qq = tube.1 * x0;
    let pp = 1024 * ring.1;
    lemma_mul_bounds(tube.1, x0, 1027, 3075);
    lemma_mul_bounds(sa, ring.1, 1027, 1027);
    let x5 = sp_x5(ring, view_a);
    let x3 = sp_x3(tube, ring);
    lemma_floor_div_rem(sa * ring.1, 1024);
    lemma_floor_div_rem(qq, 1024);
    let r5 = sa * ring.1 - 1024 * x5;
    let r3 = qq - 1024 * x3;
    assert(0 <= r5 < 1024 && 0 <= r3 < 1024);
    let x6 = sp_x6(tube, ring, view_a);
    // Fold the two rounding remainders out of the denominator.
    let dot = sa * pp + ca * qq;
    assert(1024 * (x6 - 5242880) == dot - 1024 * r5 - ca * r3) by (nonlinear_arith)
        requires
            x6 == 5242880 + 1024 * x5 + ca * x3,
            1024 * x5 == sa * ring.1 - r5,
            1024 * x3 == qq - r3,
            pp == 1024 * ring.1,
            dot == sa * pp + ca * qq,
    ;
    // Cauchy-Schwarz: the dot product is bounded by the product of the norms.
    lemma_cauchy_schwarz(sa, ca, pp, qq);
    assert(dot * dot <= (sa * sa + ca * ca) * (pp * pp + qq * qq));
    lemma_mul_bounds(pp, pp, 1051648, 1051648);
    lemma_mul_bounds(qq, qq, 3158025, 3158025);
    assert(0 <= pp * pp && 0 <= qq * qq) by (nonlinear_arith);
    assert(0 <= sa * sa + ca * ca <= 1056576);
    lemma_mul_bounds(sa * sa + ca * ca, pp * pp + qq * qq, 1056576, 11079085416529);
    assert(dot * dot <= 11705895753054544704);
    assert(-3421387987 <= dot <= 3421387987) by (nonlinear_arith)
        requires
            dot * dot <= 11705895753054544704,
    ;
    lemma_mul_bounds(ca, r3, 1027, 1023);
    assert(-3423486160 <= 1024 * (x6 - 5242880) <= 3423486160);
    assert(-3343248 <= x6 - 5242880 <= 3343248);
    lemma_floor_div_rem(x6 - 5242880, 32768);
}

/// Maps a luminance value to its ramp glyph, clamping anything outside the
/// valid 0..=11 range to the dimmest glyph.
pub fn glyph_for(luminance: i64) -> (c: char)
    ensures
        c == luminance_ramp(luminance as int),
{
    if luminance == 1 {
        ','
    } else if luminance == 2 {
        '-'
    } else if luminance == 3 {
        '~'
    } else if luminance == 4 {
        ':'
    } else if luminance == 5 {
        ';'
    } else if luminance == 6 {
        '='
    } else if luminance == 7 {
        '!'
    } else if luminance == 8 {
        '*'
    } else if luminance == 9 {
        '#'
    } else if luminance == 10 {
        '$'
    } else if luminance == 11 {
        '@'
    } else {
        ' '
    }
}

/// Samples one grid cell of the torus surface: computes the projected screen
/// coordinates, the depth, and the shaded glyph for the current tube, ring
/// and view rotation states.
pub fn sample_point(
    tube: &RotationState,
    ring: &RotationState,
    view_a: &RotationState,
    view_b: &RotationState,
) -> (r: SamplePixel)
    requires
        tube.wf(),
        ring.wf(),
        view_a.wf(),
        view_b.wf(),
    ensures
        r.x as int == sp_screen_x(tube.pair(), ring.pair(), view_a.pair(), view_b.pair()),
        r.y as int == sp_screen_y(tube.pair(), ring.pair(), view_a.pair(), view_b.pair()),
        r.depth as int == sp_depth(tube.pair(), ring.pair(), view_a.pair()),
        r.glyph == luminance_ramp(
            sp_luminance(tube.pair(), ring.pair(), view_a.pair(), view_b.pair()),
        ),
{
    let ghost tp = tube.pair();
    let ghost rp = ring.pair();
    let ghost ap = view_a.pair();
    let ghost bp = view_b.pair();
    proof {
        lemma_component_bound(tp.0, tp.1);
        lemma_component_bound(rp.0, rp.1);
        lemma_component_bound(ap.0, ap.1);
        lemma_component_bound(bp.0, bp.1);
        lemma_depth_window(tp, rp, ap);
    }
    let ci: i64 = tube.x as i64;
    let si: i64 = tube.y as i64;
    let cj: i64 = ring.x as i64;
    let sj: i64 = ring.y as i64;
    let ca: i64 = view_a.x as i64;
    let sa: i64 = view_a.y as i64;
    let cb: i64 = view_b.x as i64;
    let sb: i64 = view_b.y as i64;

    let x0: i64 = cj + 2048;
    proof {
        lemma_mul_bounds(ci as int, x0 as int, 1027, 3075);
        lemma_mul_bounds(si as int, x0 as int, 1027, 3075);
        lemma_mul_bounds(ca as int, sj as int, 1027, 1027);
        lemma_mul_bounds(sa as int, sj as int, 1027, 1027);
    }
    let x1: i64 = floor_div(ci * x0, 1024);
    let x2: i64 = floor_div(ca * sj, 1024);
    let x3: i64 = floor_div(si * x0, 1024);
    proof {
        lemma_mul_bounds(sa as int, x3 as int, 1027, 3085);
        lemma_mul_bounds(ca as int, x3 as int, 1027, 3085);
    }
    let x4: i64 = x2 - floor_div(sa * x3, 1024);
    let x5: i64 = floor_div(sa * sj, 1024);
    let x6: i64 = 5242880 + 1024 * x5 + ca * x3;
    assert(x6 == sp_x6(tp, rp, ap));
    proof {
        lemma_mul_bounds(rp.0, tp.1, 1027, 1027);
    }
    let x7: i64 = floor_div(cj * si, 1024);

    proof {
        lemma_mul_bounds(cb as int, x1 as int, 1027, 3085);
        lemma_mul_bounds(sb as int, x4 as int, 1027, 4125);
        lemma_mul_bounds(cb as int, x4 as int, 1027, 4125);
        lemma_mul_bounds(sa as int, x1 as int, 1027, 3085);
    }
    let sx: i64 = 40 + toward_zero_div(30 * (cb * x1 - sb * x4), x6);
    let sy: i64 = 12 + toward_zero_div(15 * (cb * x4 + sa * x1), x6);
    assert(sx == sp_screen_x(tp, rp, ap, bp));
    assert(sy == sp_screen_y(tp, rp, ap, bp));

    proof {
        lemma_mul_bounds(ca as int, x7 as int, 1027, 1031);
        lemma_mul_bounds(sa as int, x7 as int, 1027, 1031);
        lemma_mul_bounds(cj as int, sb as int, 1027, 1027);
    }
    let ghost lshift = (-(ap.1 * sp_x7(tp, rp))) / 1024 + sp_x2(rp, ap);
    let lfold: i64 = floor_div(-(sa * x7), 1024) + x2;
    assert(lfold == lshift);
    let light: i64 = floor_div(cj * sb, 1024);
    proof {
        lemma_mul_bounds(cb as int, lfold as int, 1027, 2066);
        lemma_mul_bounds(ci as int, light as int, 1027, 1031);
    }
    let lnum: i64 = -(ca * x7) - cb * lfold - ci * light;
    let lum: i64 = floor_div(floor_div(lnum, 1024) - x5, 128);
    assert(lum == sp_luminance(tp, rp, ap, bp));

    let zd: i64 = floor_div(x6 - 5242880, 32768);
    assert(zd == sp_depth(tp, rp, ap));

    SamplePixel { x: sx as i32, y: sy as i32, depth: zd as i8, glyph: glyph_for(lum) }
}

} // verus!
