//! Signed fixed-point numbers with sixteen fractional bits.
//!
//! An `Fx` carries a value scaled by 65536 in an `i64`, kept within
//! `[-FX_MAX_BITS, FX_MAX_BITS]` so that sums, differences and the triple
//! products of the backface test never overflow the machine integers.
//! Every operation saturates at that range; multiplication and division
//! truncate toward zero, as the spec functions below state exactly.

use vstd::prelude::*;

verus! {

/// Number of fractional scale units in 1.0.
pub const FX_ONE_BITS: i64 = 65536;

/// Largest magnitude a fixed-point value may hold (2^40 scale units,
/// about sixteen million whole units).
pub const FX_MAX_BITS: i64 = 0x100_0000_0000;

/// Saturate an unbounded value into the representable range.
pub open spec fn fx_clip(v: int) -> int {
    if v > FX_MAX_BITS as int {
        FX_MAX_BITS as int
    } else if v < -(FX_MAX_BITS as int) {
        -(FX_MAX_BITS as int)
    } else {
        v
    }
}

/// Division truncating toward zero, the rounding of machine division.
pub open spec fn fx_tdiv(x: int, d: int) -> int
    recommends
        d != 0,
{
    if x == 0 {
        0
    } else if x > 0 && d > 0 {
        x / d
    } else if x < 0 && d < 0 {
        (x * -1) / (d * -1)
    } else if x < 0 {
        ((x * -1) / d) * -1
    } else {
        (x / (d * -1)) * -1
    }
}

/// What adding two fixed-point values yields.
pub open spec fn fx_add(a: int, b: int) -> int {
    fx_clip(a + b)
}

/// What subtracting two fixed-point values yields.
pub open spec fn fx_sub(a: int, b: int) -> int {
    fx_clip(a - b)
}

/// What multiplying two fixed-point values yields: the scaled product,
/// truncated toward zero and saturated.
pub open spec fn fx_mul(a: int, b: int) -> int {
    fx_clip(fx_tdiv(a * b, FX_ONE_BITS as int))
}

/// What dividing two fixed-point values yields. A zero divisor saturates
/// to the extreme of the numerator's sign, standing in for infinity.
pub open spec fn fx_div(a: int, b: int) -> int {
    if b == 0 {
        if a >= 0 {
            FX_MAX_BITS as int
        } else {
            -(FX_MAX_BITS as int)
        }
    } else {
        fx_clip(fx_tdiv(a * (FX_ONE_BITS as int), b))
    }
}

/// A signed fixed-point number with sixteen fractional bits.
#[derive(Clone, Copy, Debug, PartialEq, Eq, Structural)]
pub struct Fx {
    bits: i64,
}

impl View for Fx {
    type V = int;

    closed spec fn view(&self) -> int {
        self.bits as int
    }
}

impl Fx {
    /// Every fixed-point value lies in the saturation range; Verus assumes
    /// this of any `Fx` an exec function holds (`use_type_invariant`).
    #[verifier::type_invariant]
    pub open spec fn in_range(self) -> bool {
        -(FX_MAX_BITS as int) <= self@ <= FX_MAX_BITS as int
    }

    /// Build a value from raw scale units, saturating.
    pub fn from_bits(bits: i64) -> (r: Fx)
        ensures
            r@ == fx_clip(bits as int),
    {
        if bits > FX_MAX_BITS {
            Fx { bits: FX_MAX_BITS }
        } else if bits < -FX_MAX_BITS {
            Fx { bits: -FX_MAX_BITS }
        } else {
            Fx { bits }
        }
    }

    /// Build a whole number, saturating.
    pub fn from_int(units: i32) -> (r: Fx)
        ensures
            r@ == fx_clip(units as int * FX_ONE_BITS as int),
    {
        Fx::from_bits((units as i64) * FX_ONE_BITS)
    }

    /// The value zero.
    pub fn zero() -> (r: Fx)
        ensures
            r@ == 0,
    {
        Fx { bits: 0 }
    }

    /// The value one.
    pub fn one() -> (r: Fx)
        ensures
            r@ == FX_ONE_BITS as int,
    {
        Fx { bits: FX_ONE_BITS }
    }

    /// The raw scale units of this value.
    pub fn bits(self) -> (b: i64)
        ensures
            b as int == self@,
    {
        self.bits
    }

    pub fn add(self, o: Fx) -> (r: Fx)
        ensures
            r@ == fx_add(self@, o@),
    {
        proof {
            use_type_invariant(self);
            use_type_invariant(o);
        }
        Fx::from_bits(self.bits + o.bits)
    }

    pub fn sub(self, o: Fx) -> (r: Fx)
        ensures
            r@ == fx_sub(self@, o@),
    {
        proof {
            use_type_invariant(self);
            use_type_invariant(o);
        }
        Fx::from_bits(self.bits - o.bits)
    }

    pub fn neg(self) -> (r: Fx)
        ensures
            r@ == -self@,
    {
        proof {
            use_type_invariant(self);
        }
        Fx { bits: -self.bits }
    }

    pub fn mul(self, o: Fx) -> (r: Fx)
        ensures
            r@ == fx_mul(self@, o@),
    {
        proof {
            use_type_invariant(self);
            use_type_invariant(o);
            lemma_mul_bound(self.bits as int, o.bits as int, FX_MAX_BITS as int, FX_MAX_BITS as int);
        }
        let p: i128 = (self.bits as i128) * (o.bits as i128);
        let q: i128 = match p.checked_div(FX_ONE_BITS as i128) {
            Some(q) => q,
            None => 0,  // unreachable: the divisor is a positive constant
        };
        proof {
            lemma_tdiv_magnitude(p as int, FX_ONE_BITS as int);
        }
        Fx::from_bits_wide(q)
    }

    pub fn div(self, o: Fx) -> (r: Fx)
        ensures
            r@ == fx_div(self@, o@),
    {
        proof {
            use_type_invariant(self);
            use_type_invariant(o);
        }
        if o.bits == 0 {
            if self.bits >= 0 {
                Fx { bits: FX_MAX_BITS }
            } else {
                Fx { bits: -FX_MAX_BITS }
            }
        } else {
            proof {
                lemma_mul_bound(self.bits as int, FX_ONE_BITS as int, FX_MAX_BITS as int, FX_ONE_BITS as int);
            }
            let n: i128 = (self.bits as i128) * (FX_ONE_BITS as i128);
            let q: i128 = match n.checked_div(o.bits as i128) {
                Some(q) => q,
                None => 0,  // unreachable: the divisor is nonzero and small
            };
            proof {
                lemma_tdiv_magnitude(n as int, o.bits as int);
            }
            Fx::from_bits_wide(q)
        }
    }

    /// Saturate a wide intermediate result back into range.
    fn from_bits_wide(v: i128) -> (r: Fx)
        ensures
            r@ == fx_clip(v as int),
    {
        if v > FX_MAX_BITS as i128 {
            Fx { bits: FX_MAX_BITS }
        } else if v < -(FX_MAX_BITS as i128) {
            Fx { bits: -FX_MAX_BITS }
        } else {
            Fx { bits: v as i64 }
        }
    }
}

/// The magnitude of a product is bounded by the product of the bounds.
pub proof fn lemma_mul_bound(a: int, b: int, m: int, n: int)
    requires
        -m <= a <= m,
        -n <= b <= n,
        0 <= m,
        0 <= n,
    ensures
        -(m * n) <= a * b <= m * n,
{
    assert(-(m * n) <= a * b <= m * n) by (nonlinear_arith)
        requires
            -m <= a <= m,
            -n <= b <= n,
            0 <= m,
            0 <= n,
    ;
}

/// Truncating division never grows the magnitude beyond `|x|`.
proof fn lemma_tdiv_magnitude(x: int, d: int)
    requires
        d != 0,
    ensures
        fx_tdiv(x, d) <= if x >= 0 { x } else { -x },
        -fx_tdiv(x, d) <= if x >= 0 { x } else { -x },
{
    if x == 0 {
    } else if x > 0 && d > 0 {
        vstd::arithmetic::div_mod::lemma_div_nonincreasing(x, d);
        vstd::arithmetic::div_mod::lemma_div_pos_is_pos(x, d);
    } else if x < 0 && d < 0 {
        vstd::arithmetic::div_mod::lemma_div_nonincreasing(x * -1, d * -1);
        vstd::arithmetic::div_mod::lemma_div_pos_is_pos(x * -1, d * -1);
    } else if x < 0 {
        vstd::arithmetic::div_mod::lemma_div_nonincreasing(x * -1, d);
        vstd::arithmetic::div_mod::lemma_div_pos_is_pos(x * -1, d);
    } else {
        vstd::arithmetic::div_mod::lemma_div_nonincreasing(x, d * -1);
        vstd::arithmetic::div_mod::lemma_div_pos_is_pos(x, d * -1);
    }
}

} // verus!
