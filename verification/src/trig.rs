//! Fixed-point sine and cosine.
//!
//! An angle is a fixed-point number of radians. The angle is reduced into
//! one turn, folded into the first quadrant, and evaluated there with a
//! truncated Taylor polynomial in exact integer arithmetic. At angle zero
//! the results are exactly zero and one, which makes an unrotated
//! model-view matrix the exact identity.

use vstd::prelude::*;

use crate::fixed::Fx;
use crate::fixed::FX_MAX_BITS;

verus! {

/// One quarter turn (pi/2) in scale units.
pub const HALF_PI_BITS: i64 = 102944;

/// One half turn (pi) in scale units.
pub const PI_BITS: i64 = 205887;

/// Three quarter turns (3*pi/2) in scale units.
pub const THREE_HALF_PI_BITS: i64 = 308831;

/// One full turn (2*pi) in scale units.
pub const TWO_PI_BITS: i64 = 411775;

/// The magnitude of an angle, folded into one turn.
pub open spec fn turn_of(a: int) -> int {
    (if a < 0 {
        -a
    } else {
        a
    }) % (TWO_PI_BITS as int)
}

/// The sine Taylor polynomial on the first quadrant,
/// in scale units with truncating steps.
pub open spec fn sin_poly_spec(x: int) -> int {
    let p2 = (x * x) / 65536;
    let p3 = (p2 * x) / 65536;
    let p5 = (p3 * p2) / 65536;
    let p7 = (p5 * p2) / 65536;
    let p9 = (p7 * p2) / 65536;
    x - p3 / 6 + p5 / 120 - p7 / 5040 + p9 / 362880
}

/// The cosine Taylor polynomial on the first quadrant.
pub open spec fn cos_poly_spec(x: int) -> int {
    let p2 = (x * x) / 65536;
    let p4 = (p2 * p2) / 65536;
    let p6 = (p4 * p2) / 65536;
    let p8 = (p6 * p2) / 65536;
    65536 - p2 / 2 + p4 / 24 - p6 / 720 + p8 / 40320
}

/// What the sine of an angle is: the quadrant-folded polynomial,
/// negated for negative angles.
pub open spec fn sin_spec(a: int) -> int {
    let r = turn_of(a);
    let s = if r < HALF_PI_BITS as int {
        sin_poly_spec(r)
    } else if r < PI_BITS as int {
        sin_poly_spec(PI_BITS as int - r)
    } else if r < THREE_HALF_PI_BITS as int {
        -sin_poly_spec(r - PI_BITS as int)
    } else {
        -sin_poly_spec(TWO_PI_BITS as int - r)
    };
    if a < 0 {
        -s
    } else {
        s
    }
}

/// What the cosine of an angle is; cosine is even, so the sign
/// of the angle does not matter.
pub open spec fn cos_spec(a: int) -> int {
    let r = turn_of(a);
    if r < HALF_PI_BITS as int {
        cos_poly_spec(r)
    } else if r < PI_BITS as int {
        -cos_poly_spec(PI_BITS as int - r)
    } else if r < THREE_HALF_PI_BITS as int {
        -cos_poly_spec(r - PI_BITS as int)
    } else {
        cos_poly_spec(TWO_PI_BITS as int - r)
    }
}

/// Division of a non-negative value by a positive constant.
fn div_nn(a: i64, d: i64) -> (r: i64)
    requires
        0 <= a,
        0 < d,
    ensures
        r == a as int / d as int,
        0 <= r <= a,
{
    let q = match a.checked_div(d) {
        Some(q) => q,
        None => 0,  // unreachable: the divisor is positive
    };
    proof {
        if a > 0 {
            vstd::arithmetic::div_mod::lemma_div_nonincreasing(a as int, d as int);
            vstd::arithmetic::div_mod::lemma_div_pos_is_pos(a as int, d as int);
        }
    }
    q
}

/// One truncating scale step: the product of two bounded non-negative
/// values, brought back to scale units.
fn scale_step(a: i64, b: i64) -> (r: i64)
    requires
        0 <= a <= 0x4000_0000,
        0 <= b <= 0x4000_0000,
    ensures
        r == (a as int * b as int) / 65536,
        0 <= r,
{
    proof {
        assert(0 <= a as int * b as int <= 0x1000_0000_0000_0000) by (nonlinear_arith)
            requires
                0 <= a <= 0x4000_0000,
                0 <= b <= 0x4000_0000,
        ;
    }
    let p: i64 = a * b;
    div_nn(p, 65536)
}

/// The scale step keeps a bound: if both factors stay under their bounds,
/// the result stays under the scaled product of the bounds.
proof fn lemma_scale_step_bound(a: int, b: int, ma: int, mb: int)
    requires
        0 <= a <= ma,
        0 <= b <= mb,
    ensures
        0 <= (a * b) / 65536 <= (ma * mb) / 65536,
{
    assert(a * b <= ma * mb) by (nonlinear_arith)
        requires
            0 <= a <= ma,
            0 <= b <= mb,
    ;
    vstd::arithmetic::div_mod::lemma_div_is_ordered(a * b, ma * mb, 65536);
    vstd::arithmetic::div_mod::lemma_div_pos_is_pos(a * b, 65536);
}

/// The sine polynomial on the first quadrant.
fn sin_poly(x: i64) -> (r: i64)
    requires
        0 <= x <= HALF_PI_BITS,
    ensures
        r == sin_poly_spec(x as int),
        -0x1000_0000 <= r <= 0x1000_0000,
{
    let p2 = scale_step(x, x);
    proof {
        lemma_scale_step_bound(x as int, x as int, 102944, 102944);
    }
    let p3 = scale_step(p2, x);
    proof {
        lemma_scale_step_bound(p2 as int, x as int, 262144, 102944);
    }
    let p5 = scale_step(p3, p2);
    proof {
        lemma_scale_step_bound(p3 as int, p2 as int, 524288, 262144);
    }
    let p7 = scale_step(p5, p2);
    proof {
        lemma_scale_step_bound(p5 as int, p2 as int, 2097152, 262144);
    }
    let p9 = scale_step(p7, p2);
    proof {
        lemma_scale_step_bound(p7 as int, p2 as int, 8388608, 262144);
    }
    x - div_nn(p3, 6) + div_nn(p5, 120) - div_nn(p7, 5040) + div_nn(p9, 362880)
}

/// The cosine polynomial on the first quadrant.
fn cos_poly(x: i64) -> (r: i64)
    requires
        0 <= x <= HALF_PI_BITS,
    ensures
        r == cos_poly_spec(x as int),
        -0x1000_0000 <= r <= 0x1000_0000,
{
    let p2 = scale_step(x, x);
    proof {
        lemma_scale_step_bound(x as int, x as int, 102944, 102944);
    }
    let p4 = scale_step(p2, p2);
    proof {
        lemma_scale_step_bound(p2 as int, p2 as int, 262144, 262144);
    }
    let p6 = scale_step(p4, p2);
    proof {
        lemma_scale_step_bound(p4 as int, p2 as int, 1048576, 262144);
    }
    let p8 = scale_step(p6, p2);
    proof {
        lemma_scale_step_bound(p6 as int, p2 as int, 4194304, 262144);
    }
    65536 - div_nn(p2, 2) + div_nn(p4, 24) - div_nn(p6, 720) + div_nn(p8, 40320)
}

/// The magnitude of the angle folded into one turn, and whether the
/// angle was negative.
fn fold_turn(a: Fx) -> (r: (i64, bool))
    ensures
        r.0 == turn_of(a@),
        0 <= r.0 < TWO_PI_BITS,
        r.1 == (a@ < 0),
{
    proof {
        use_type_invariant(a);
    }
    let bits = a.bits();
    let neg = bits < 0;
    let mag: u64 = if neg {
        (-bits) as u64
    } else {
        bits as u64
    };
    let folded = mag % (TWO_PI_BITS as u64);
    (folded as i64, neg)
}

/// The sine of a fixed-point angle in radians.
pub fn sin_fx(a: Fx) -> (r: Fx)
    ensures
        r@ == sin_spec(a@),
{
    let (folded, neg) = fold_turn(a);
    let s: i64 = if folded < HALF_PI_BITS {
        sin_poly(folded)
    } else if folded < PI_BITS {
        sin_poly(PI_BITS - folded)
    } else if folded < THREE_HALF_PI_BITS {
        -sin_poly(folded - PI_BITS)
    } else {
        -sin_poly(TWO_PI_BITS - folded)
    };
    let signed: i64 = if neg {
        -s
    } else {
        s
    };
    assert(signed < FX_MAX_BITS && -FX_MAX_BITS < signed);
    Fx::from_bits(signed)
}

/// The cosine of a fixed-point angle in radians.
pub fn cos_fx(a: Fx) -> (r: Fx)
    ensures
        r@ == cos_spec(a@),
{
    let (folded, _neg) = fold_turn(a);
    let s: i64 = if folded < HALF_PI_BITS {
        cos_poly(folded)
    } else if folded < PI_BITS {
        -cos_poly(PI_BITS - folded)
    } else if folded < THREE_HALF_PI_BITS {
        -cos_poly(folded - PI_BITS)
    } else {
        cos_poly(TWO_PI_BITS - folded)
    };
    assert(s < FX_MAX_BITS && -FX_MAX_BITS < s);
    Fx::from_bits(s)
}

/// At angle zero the sine is exactly zero.
pub proof fn lemma_sin_zero()
    ensures
        sin_spec(0) == 0,
{
}

/// At angle zero the cosine is exactly one.
pub proof fn lemma_cos_zero()
    ensures
        cos_spec(0) == 65536,
{
    assert(turn_of(0) == 0);
    assert((0int * 0int) / 65536int == 0);
    assert(cos_poly_spec(0) == 65536);
}

} // verus!
