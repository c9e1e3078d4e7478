//! Incremental fixed-point rotation of a 2-D unit-scaled vector.
//!
//! A rotation state is a pair (x, y) standing for the cosine-like and
//! sine-like components of a unit vector at scale 1024.  One advance step
//! first applies a linearised rotation by a small angle (multiplier over a
//! power-of-two shift) and then a first-order renormalization that pulls the
//! squared magnitude back toward 1024^2.  The proofs below show the squared
//! magnitude never leaves a fixed window around 1024^2, however many steps
//! are taken: the linearised rotation inflates it by under 2%, and the
//! correction contracts the deviation quadratically, leaving only bounded
//! rounding noise.

use vstd::prelude::*;

use crate::fixed::floor_div;
use crate::fixed::lemma_floor_div_rem;
use crate::fixed::lemma_mul_bounds;

verus! {

/// Squared magnitude of a pair.
pub open spec fn norm_sq(x: int, y: int) -> int {
    x * x + y * y
}

/// The magnitude window every rotation state lives in: the squared magnitude
/// stays within 8000 of 1024^2 = 1048576 (a relative drift under 0.4%).
pub open spec fn wf_pair(x: int, y: int) -> bool {
    1040576 <= norm_sq(x, y) <= 1056576
}

/// The rotation increments the renderer uses: a multiplier of at most 9 over
/// a shift of 7 or 8 (an angle of at most 9/128 radians per step).
pub open spec fn valid_rotation(multiplier: int, shift: int) -> bool {
    0 <= multiplier <= 9 && (shift == 7 || shift == 8)
}

/// The power of two divided by in the linearised rotation step.
pub open spec fn shift_pow(shift: int) -> int {
    if shift == 7 {
        128
    } else {
        256
    }
}

/// First component after the linearised rotation: x - (m*y >> shift).
pub open spec fn rot_x1(m: int, p: int, x: int, y: int) -> int {
    x - (m * y) / p
}

/// Second component after the linearised rotation: y + (m*x >> shift),
/// with x the value from before the step.
pub open spec fn rot_y1(m: int, p: int, x: int, y: int) -> int {
    y + (m * x) / p
}

/// The renormalization correction factor: (3*1024^2 - x1^2 - y1^2) >> 11,
/// close to 1024 and slightly biased against the current magnitude error.
pub open spec fn rot_t(m: int, p: int, x: int, y: int) -> int {
    (3145728 - rot_x1(m, p, x, y) * rot_x1(m, p, x, y) - rot_y1(m, p, x, y) * rot_y1(
        m,
        p,
        x,
        y,
    )) / 2048
}

/// First component of the advanced pair: (x1 * t) >> 10.
pub open spec fn rot_x2(m: int, p: int, x: int, y: int) -> int {
    (rot_x1(m, p, x, y) * rot_t(m, p, x, y)) / 1024
}

/// Second component of the advanced pair: (y1 * t) >> 10.
pub open spec fn rot_y2(m: int, p: int, x: int, y: int) -> int {
    (rot_y1(m, p, x, y) * rot_t(m, p, x, y)) / 1024
}

/// One advance of a rotation state.  Every division is a floor division,
/// exactly the arithmetic right shift of the fixed-point representation.
pub open spec fn rotated_pair(m: int, p: int, x: int, y: int) -> (int, int) {
    (rot_x2(m, p, x, y), rot_y2(m, p, x, y))
}

/// A pair in the magnitude window has both components within 1027.
pub proof fn lemma_component_bound(x: int, y: int)
    requires
        norm_sq(x, y) <= 1056576,
    ensures
        -1027 <= x <= 1027,
        -1027 <= y <= 1027,
{
    assert(-1027 <= x <= 1027 && -1027 <= y <= 1027) by (nonlinear_arith)
        requires
            x * x + y * y <= 1056576,
    ;
}

/// The advance step keeps the squared magnitude in the window, and every
/// intermediate of the recurrence stays in a narrow numeric range.
pub proof fn lemma_rotation_preserves_wf(m: int, p: int, x: int, y: int)
    requires
        0 <= m <= 9,
        p == 128 || p == 256,
        wf_pair(x, y),
    ensures
        wf_pair(rot_x2(m, p, x, y), rot_y2(m, p, x, y)),
        -75 <= (m * y) / p <= 75,
        -75 <= (m * x) / p <= 75,
        -1038 <= rot_x1(m, p, x, y) <= 1038,
        -1038 <= rot_y1(m, p, x, y) <= 1038,
        1009 <= rot_t(m, p, x, y) <= 1032,
{
    let s = norm_sq(x, y);
    lemma_component_bound(x, y);

    // The linearised rotation, with the floor remainders of the two shifts.
    let a = (m * y) / p;
    let b = (m * x) / p;
    lemma_mul_bounds(m, y, 9, 1027);
    lemma_mul_bounds(m, x, 9, 1027);
    lemma_floor_div_rem(m * y, p);
    lemma_floor_div_rem(m * x, p);
    let ra = m * y - p * a;
    let rb = m * x - p * b;
    assert(0 <= ra < p && 0 <= rb < p);
    assert(-9499 <= p * a <= 9243 && -9499 <= p * b <= 9243);
    assert(-75 <= a <= 75 && -75 <= b <= 75) by (nonlinear_arith)
        requires
            -9499 <= p * a <= 9243,
            -9499 <= p * b <= 9243,
            p == 128 || p == 256,
    ;
    assert(0 <= a * a <= 5508 && 0 <= b * b <= 5508) by (nonlinear_arith)
        requires
            -9499 <= p * a <= 9499,
            -9499 <= p * b <= 9499,
            p == 128 || p == 256,
    ;

    let x1 = rot_x1(m, p, x, y);
    let y1 = rot_y1(m, p, x, y);
    let s1 = norm_sq(x1, y1);
    // Exact effect of the linearised rotation on the squared magnitude.
    assert(s1 == s + a * a + b * b + 2 * (b * y - a * x)) by (nonlinear_arith)
        requires
            s == x * x + y * y,
            s1 == (x - a) * (x - a) + (y + b) * (y + b),
    ;
    // The cross term is pure rounding noise: p * (b*y - a*x) == ra*x - rb*y.
    let cross = b * y - a * x;
    assert(p * cross == ra * x - rb * y) by (nonlinear_arith)
        requires
            cross == b * y - a * x,
            p * a == m * y - ra,
            p * b == m * x - rb,
    ;
    lemma_mul_bounds(ra, x, 256, 1027);
    lemma_mul_bounds(rb, y, 256, 1027);
    assert(-525824 <= p * cross <= 525824);
    assert(-4108 <= cross <= 4108) by (nonlinear_arith)
        requires
            -525824 <= p * cross <= 525824,
            p == 128 || p == 256,
    ;
    assert(1032360 <= s1 <= 1075808);
    let u = s1 - 1048576;
    assert(-16216 <= u <= 27232);

    // The renormalization correction and its floor remainder.
    let t = rot_t(m, p, x, y);
    lemma_floor_div_rem(3145728 - s1, 2048);
    let rt = (3145728 - s1) - 2048 * t;
    assert(0 <= rt < 2048);
    let w = u + rt;
    assert(2048 * t == 2097152 - w);
    assert(-16216 <= w <= 29280);
    assert(1009 <= t <= 1032);

    assert(x1 * x1 <= s1 && y1 * y1 <= s1) by (nonlinear_arith)
        requires
            s1 == x1 * x1 + y1 * y1,
    ;
    assert(-1038 <= x1 <= 1038 && -1038 <= y1 <= 1038) by (nonlinear_arith)
        requires
            x1 * x1 <= 1075808,
            y1 * y1 <= 1075808,
    ;

    let px = x1 * t;
    let py = y1 * t;
    lemma_mul_bounds(x1, t, 1038, 1032);
    lemma_mul_bounds(y1, t, 1038, 1032);
    assert(-1071216 <= px <= 1071216 && -1071216 <= py <= 1071216);
    let x2 = rot_x2(m, p, x, y);
    let y2 = rot_y2(m, p, x, y);
    lemma_floor_div_rem(px, 1024);
    lemma_floor_div_rem(py, 1024);
    let rx = px - 1024 * x2;
    let ry = py - 1024 * y2;
    assert(0 <= rx < 1024 && 0 <= ry < 1024);
    let cc = px * rx + py * ry;
    let rr = rx * rx + ry * ry;
    lemma_mul_bounds(px, rx, 1071216, 1023);
    lemma_mul_bounds(py, ry, 1071216, 1023);
    assert(-2191727936 <= cc <= 2191727936);
    assert(0 <= rr <= 2093058) by (nonlinear_arith)
        requires
            rr == rx * rx + ry * ry,
            0 <= rx < 1024,
            0 <= ry < 1024,
    ;

    let s2 = norm_sq(x2, y2);
    // The exact algebraic account of the renormalized squared magnitude,
    // assembled from small ring identities.
    assert(1048576 * (x2 * x2) == px * px - 2 * (px * rx) + rx * rx) by (nonlinear_arith)
        requires
            1024 * x2 == px - rx,
    ;
    assert(1048576 * (y2 * y2) == py * py - 2 * (py * ry) + ry * ry) by (nonlinear_arith)
        requires
            1024 * y2 == py - ry,
    ;
    assert(px * px + py * py == s1 * (t * t)) by (nonlinear_arith)
        requires
            px == x1 * t,
            py == y1 * t,
            s1 == x1 * x1 + y1 * y1,
    ;
    assert(1048576 * s2 == s1 * (t * t) - 2 * cc + rr);
    assert(4194304 * (s1 * (t * t)) == (2097152 - w) * (2097152 - w) * (1048576 + u))
        by (nonlinear_arith)
        requires
            2048 * t == 2097152 - w,
            u == s1 - 1048576,
    ;
    assert((2097152 - w) * (2097152 - w) * (1048576 + u) == 4611686018427387904 + 4398046511104 * u
        - 4398046511104 * w - 4194304 * (u * w) + 1048576 * (w * w) + u * (w * w))
        by (nonlinear_arith);
    assert(u - w == -rt);
    assert(4398046511104 * (s2 - 1048576) == -4398046511104 * rt - 4194304 * (u * w) + 1048576 * (w
        * w) + u * (w * w) - 8388608 * cc + 4194304 * rr);

    // Bound every monomial and divide the combination back down.
    lemma_mul_bounds(u, w, 27232, 29280);
    lemma_mul_bounds(w, w, 29280, 29280);
    lemma_mul_bounds(u, w * w, 27232, 857318400);
    assert(-4398046511104 * 7950 <= 4398046511104 * (s2 - 1048576) <= 4398046511104 * 7950);
    assert(-7950 <= s2 - 1048576 <= 7950);
    assert(wf_pair(x2, y2));
}

/// The pair reached after n advance steps from (x, y).
pub open spec fn iterated_pair(m: int, p: int, x: int, y: int, n: nat) -> (int, int)
    decreases n,
{
    if n == 0 {
        (x, y)
    } else {
        let prev = iterated_pair(m, p, x, y, (n - 1) as nat);
        rotated_pair(m, p, prev.0, prev.1)
    }
}

/// Magnitude stability: starting from any pair in the magnitude window (the
/// initial unit-scaled pair among them), any number of advance steps keeps
/// the squared magnitude within the window around 1024^2 - there is no
/// unbounded drift, outward or inward.
pub proof fn lemma_magnitude_stability(m: int, p: int, x: int, y: int, n: nat)
    requires
        0 <= m <= 9,
        p == 128 || p == 256,
        wf_pair(x, y),
    ensures
        wf_pair(iterated_pair(m, p, x, y, n).0, iterated_pair(m, p, x, y, n).1),
    decreases n,
{
    if n > 0 {
        let prev = iterated_pair(m, p, x, y, (n - 1) as nat);
        lemma_magnitude_stability(m, p, x, y, (n - 1) as nat);
        lemma_rotation_preserves_wf(m, p, prev.0, prev.1);
    }
}

/// Advances the unit-scaled pair (x, y) in place: rotation by a small fixed
/// angle determined by multiplier and shift, then renormalization.  All
/// divisions round as the arithmetic right shifts of the recurrence do.
pub fn rotate(multiplier: i32, shift: i32, x: &mut i32, y: &mut i32)
    requires
        valid_rotation(multiplier as int, shift as int),
        wf_pair(*old(x) as int, *old(y) as int),
    ensures
        *final(x) == rot_x2(
            multiplier as int,
            shift_pow(shift as int),
            *old(x) as int,
            *old(y) as int,
        ),
        *final(y) == rot_y2(
            multiplier as int,
            shift_pow(shift as int),
            *old(x) as int,
            *old(y) as int,
        ),
        wf_pair(*final(x) as int, *final(y) as int),
{
    let ghost gm = multiplier as int;
    let ghost gx = *x as int;
    let ghost gy = *y as int;
    let m: i64 = multiplier as i64;
    let p: i64 = if shift == 7 {
        128
    } else {
        256
    };
    proof {
        lemma_rotation_preserves_wf(gm, p as int, gx, gy);
        lemma_component_bound(gx, gy);
        lemma_mul_bounds(gm, gy, 9, 1027);
        lemma_mul_bounds(gm, gx, 9, 1027);
    }
    let x0: i64 = *x as i64;
    let y0: i64 = *y as i64;
    let a: i64 = floor_div(m * y0, p);
    let b: i64 = floor_div(m * x0, p);
    let x1: i64 = x0 - a;
    let y1: i64 = y0 + b;
    assert(x1 == rot_x1(gm, p as int, gx, gy));
    assert(y1 == rot_y1(gm, p as int, gx, gy));
    proof {
        lemma_mul_bounds(x1 as int, x1 as int, 1038, 1038);
        lemma_mul_bounds(y1 as int, y1 as int, 1038, 1038);
    }
    let t: i64 = floor_div(3145728 - x1 * x1 - y1 * y1, 2048);
    assert(t == rot_t(gm, p as int, gx, gy));
    proof {
        lemma_mul_bounds(x1 as int, t as int, 1038, 1032);
        lemma_mul_bounds(y1 as int, t as int, 1038, 1032);
    }
    let x2: i64 = floor_div(x1 * t, 1024);
    let y2: i64 = floor_div(y1 * t, 1024);
    proof {
        lemma_component_bound(x2 as int, y2 as int);
    }
    *x = x2 as i32;
    *y = y2 as i32;
}

/// A unit-scaled 2-D rotation state: the cosine-like component x and the
/// sine-like component y of a unit vector at scale 1024.
#[derive(Clone, Copy, PartialEq, Eq, Structural)]
pub struct RotationState {
    pub x: i32,
    pub y: i32,
}

impl RotationState {
    /// The mathematical pair this state holds.
    pub open spec fn pair(&self) -> (int, int) {
        (self.x as int, self.y as int)
    }

    /// The state is inside the magnitude window around 1024^2.
    pub open spec fn wf(&self) -> bool {
        wf_pair(self.x as int, self.y as int)
    }

    /// The initial state: the unit vector (1024, 0) at angle zero.
    pub fn unit() -> (r: RotationState)
        ensures
            r.pair() == (1024int, 0int),
            r.wf(),
    {
        RotationState { x: 1024, y: 0 }
    }

    /// Advances this state in place by the small fixed angle that multiplier
    /// and shift determine, staying in the magnitude window.
    pub fn advance(&mut self, multiplier: i32, shift: i32)
        requires
            valid_rotation(multiplier as int, shift as int),
            old(self).wf(),
        ensures
            final(self).pair() == rotated_pair(
                multiplier as int,
                shift_pow(shift as int),
                old(self).pair().0,
                old(self).pair().1,
            ),
            final(self).wf(),
    {
        let mut cx = self.x;
        let mut cy = self.y;
        rotate(multiplier, shift, &mut cx, &mut cy);
        self.x = cx;
        self.y = cy;
    }
}

} // verus!
