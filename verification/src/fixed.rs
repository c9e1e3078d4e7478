//! Integer division primitives for the fixed-point pipeline (scale 1024).
//!
//! Two division flavours occur in the renderer and their exact rounding is
//! load-bearing for bit-identical frames: the arithmetic (sign-preserving)
//! right shift, which rounds toward negative infinity, and Rust's `/`, which
//! rounds toward zero.  Both are implemented here from the checked standard
//! division operations, with contracts pinning the exact quotient.

use vstd::prelude::*;

verus! {

/// Truncating (toward-zero) quotient for a positive divisor, the rounding of
/// Rust's `/` operator.  The spec-level `/` is Euclidean, which agrees on
/// non-negative dividends and is one off on negative ones.
pub open spec fn trunc_div(n: int, d: int) -> int {
    if n >= 0 {
        n / d
    } else {
        -((-n) / d)
    }
}

/// The Euclidean quotient by a positive divisor stays between the dividend
/// and zero, so it always fits the dividend's machine type.
proof fn lemma_div_quotient_bounds(v: int, d: int)
    requires
        1 <= d,
    ensures
        v >= 0 ==> 0 <= v / d <= v,
        v < 0 ==> v <= v / d <= 0,
{
    vstd::arithmetic::div_mod::lemma_fundamental_div_mod(v, d);
    vstd::arithmetic::div_mod::lemma_mod_bound(v, d);
    let q = v / d;
    let r = v % d;
    assert((v >= 0 ==> 0 <= q <= v) && (v < 0 ==> v <= q <= 0)) by (nonlinear_arith)
        requires
            v == d * q + r,
            0 <= r < d,
            1 <= d,
    ;
}

/// Floor quotient of `v` by a positive divisor `d`.  For `d == 2^s` this is
/// exactly the arithmetic right shift of `v` by `s`, the operation the
/// rotation recurrence and the projection are defined with.
pub fn floor_div(v: i64, d: i64) -> (r: i64)
    requires
        1 <= d,
        i64::MIN < v,
    ensures
        r == v as int / d as int,
        d * r <= v < d * r + d,
{
    proof {
        lemma_div_quotient_bounds(v as int, d as int);
        lemma_floor_div_rem(v as int, d as int);
    }
    match v.checked_div_euclid(d) {
        Some(q) => q,
        None => {
            proof {
                assert(false);
            }
            0
        },
    }
}

/// Truncating quotient of `n` by a positive divisor `d`, exactly Rust's
/// `n / d`, used for the perspective divide of the projector.
pub fn toward_zero_div(n: i64, d: i64) -> (r: i64)
    requires
        1 <= d,
        i64::MIN < n,
    ensures
        r == trunc_div(n as int, d as int),
        n >= 0 ==> 0 <= r <= n,
        n < 0 ==> n <= r <= 0,
{
    proof {
        lemma_div_quotient_bounds(n as int, d as int);
        lemma_div_quotient_bounds(-(n as int), d as int);
    }
    match n.checked_div(d) {
        Some(q) => q,
        None => {
            proof {
                assert(false);
            }
            0
        },
    }
}

/// A product of two bounded factors is bounded by the product of the bounds.
pub proof fn lemma_mul_bounds(p: int, q: int, pb: int, qb: int)
    by (nonlinear_arith)
    requires
        -pb <= p <= pb,
        -qb <= q <= qb,
    ensures
        -(pb * qb) <= p * q <= pb * qb,
{
}

/// The floor quotient by a positive divisor, characterised by its remainder:
/// the form the magnitude and range proofs consume.
pub proof fn lemma_floor_div_rem(v: int, d: int)
    requires
        1 <= d,
    ensures
        d * (v / d) <= v < d * (v / d) + d,
{
    vstd::arithmetic::div_mod::lemma_fundamental_div_mod(v, d);
    vstd::arithmetic::div_mod::lemma_mod_bound(v, d);
}

} // verus!
