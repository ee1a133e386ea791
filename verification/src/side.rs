//! Which side of a plane a point lies on.
//!
//! A point `p` is cut away by the plane `(n, w)` when `n . p < w` and kept
//! otherwise; a point on the plane itself is kept. The product `n . p` is
//! binary32 arithmetic and is the caller's to compute. What is decided here is
//! the comparison, on bit patterns, against the numbers those patterns stand
//! for.

use vstd::prelude::*;
use vstd::arithmetic::power2::{
    lemma2_to64, lemma_pow2_pos, lemma_pow2_strictly_increases, lemma_pow2_unfold, pow2,
};
use crate::plane::Plane;

verus! {

/// Every bit but the sign.
pub const MAGNITUDE_MASK: u32 = 0x7FFF_FFFF;

/// The sign bit.
pub const SIGN_MASK: u32 = 0x8000_0000;

/// Bit pattern of positive infinity: the largest magnitude that is a number.
pub const INFINITY_BITS: u32 = 0x7F80_0000;

/// Two to the power 23: the weight of the exponent field within a magnitude,
/// and the implicit leading bit of a normal number's significand.
pub const HIDDEN_BIT: u32 = 0x0080_0000;

/// The two sides of a plane.
#[derive(Clone, Copy, Debug, PartialEq, Eq, Structural)]
pub enum Side {
    /// On the plane or above it: drawn.
    Kept,
    /// Strictly below the plane: discarded.
    Cut,
}

/// A pattern without its sign bit: the exponent field above the fraction.
pub open spec fn magnitude(bits: u32) -> u32 {
    bits & MAGNITUDE_MASK
}

/// Whether the sign bit is set.
pub open spec fn is_negative(bits: u32) -> bool {
    bits & SIGN_MASK != 0
}

/// Whether a pattern stands for no number.
pub open spec fn is_nan(bits: u32) -> bool {
    magnitude(bits) > INFINITY_BITS
}

/// The absolute value that a magnitude stands for, in units of two to the
/// power -149. With exponent field `e` and fraction `f` that is `f` for a
/// subnormal (`e == 0`) and `(2^23 + f) * 2^(e - 1)` otherwise. Infinity
/// comes out as `2^277`, above every finite value.
pub open spec fn magnitude_value(m: u32) -> int {
    let e = m as int / (HIDDEN_BIT as int);
    let f = m as int % (HIDDEN_BIT as int);
    if e == 0 {
        f
    } else {
        (HIDDEN_BIT + f) * pow2((e - 1) as nat)
    }
}

/// The number that a pattern stands for, in units of two to the power -149.
/// Both zeros come out as zero.
pub open spec fn scaled_value(bits: u32) -> int
    recommends
        !is_nan(bits),
{
    if is_negative(bits) {
        -magnitude_value(magnitude(bits))
    } else {
        magnitude_value(magnitude(bits))
    }
}

/// `a < b` as binary32 numbers: false when either is no number.
pub open spec fn spec_less_than(a: u32, b: u32) -> bool {
    !is_nan(a) && !is_nan(b) && scaled_value(a) < scaled_value(b)
}

/// The side of a point whose product with the normal is `distance`, for a
/// plane with offset `offset`.
pub open spec fn side_of(distance: u32, offset: u32) -> Side {
    if spec_less_than(distance, offset) {
        Side::Cut
    } else {
        Side::Kept
    }
}

/// Among magnitudes up to infinity, a larger pattern stands for a larger
/// value.
proof fn lemma_magnitude_value_increases(a: u32, b: u32)
    requires
        a < b <= INFINITY_BITS,
    ensures
        0 <= magnitude_value(a) < magnitude_value(b),
{
    let h = HIDDEN_BIT as int;
    let ea = a as int / h;
    let fa = a as int % h;
    let eb = b as int / h;
    let fb = b as int % h;
    lemma2_to64();
    assert(ea <= eb);
    if ea > 0 {
        lemma_pow2_pos((ea - 1) as nat);
        assert(0 <= (h + fa) * pow2((ea - 1) as nat)) by (nonlinear_arith)
            requires
                0 <= h + fa,
                pow2((ea - 1) as nat) > 0,
        ;
    }
    if ea == eb {
        if ea > 0 {
            let p = pow2((ea - 1) as nat);
            assert((h + fa) * p < (h + fb) * p) by (nonlinear_arith)
                requires
                    fa < fb,
                    p > 0,
            ;
        }
    } else {
        let q = pow2((eb - 1) as nat);
        lemma_pow2_pos((eb - 1) as nat);
        // The value of `a` lies below 2^23 * 2^ea.
        let pa = pow2(ea as nat);
        if ea > 0 {
            let p = pow2((ea - 1) as nat);
            lemma_pow2_unfold(ea as nat);
            assert((h + fa) * p < h * (2 * p)) by (nonlinear_arith)
                requires
                    0 <= fa < h,
                    p > 0,
            ;
        }
        assert(magnitude_value(a) < h * pa);
        // 2^ea is at most 2^(eb - 1).
        if ea < eb - 1 {
            lemma_pow2_strictly_increases(ea as nat, (eb - 1) as nat);
        }
        assert(h * pa <= (h + fb) * q) by (nonlinear_arith)
            requires
                pa <= q,
                0 <= fb,
                h > 0,
                pa > 0,
        ;
    }
}

/// Among magnitudes up to infinity, the patterns are ordered as the values
/// they stand for, and only the zero pattern stands for zero.
pub proof fn lemma_magnitude_order(a: u32, b: u32)
    requires
        a <= INFINITY_BITS,
        b <= INFINITY_BITS,
    ensures
        a < b <==> magnitude_value(a) < magnitude_value(b),
        a == b <==> magnitude_value(a) == magnitude_value(b),
        magnitude_value(a) >= 0,
        a == 0 <==> magnitude_value(a) == 0,
{
    if a < b {
        lemma_magnitude_value_increases(a, b);
    }
    if b < a {
        lemma_magnitude_value_increases(b, a);
    }
    if 0 < a {
        lemma_magnitude_value_increases(0, a);
    }
}

/// Compares two binary32 bit patterns as numbers. Negative zero equals
/// positive zero, and nothing is below or above a pattern that is no number.
#[verifier::when_used_as_spec(spec_less_than)]
pub fn less_than(a: u32, b: u32) -> (less: bool)
    ensures
        less == spec_less_than(a, b),
{
    let a_mag = a & MAGNITUDE_MASK;
    let b_mag = b & MAGNITUDE_MASK;
    if a_mag > INFINITY_BITS || b_mag > INFINITY_BITS {
        return false;
    }
    proof {
        lemma_magnitude_order(a_mag, b_mag);
        lemma_magnitude_order(b_mag, a_mag);
    }
    let a_negative = a & SIGN_MASK != 0;
    let b_negative = b & SIGN_MASK != 0;
    if a_negative {
        if b_negative {
            b_mag < a_mag
        } else {
            a_mag != 0 || b_mag != 0
        }
    } else {
        if b_negative {
            false
        } else {
            a_mag < b_mag
        }
    }
}

impl Plane {
    /// The side of a point, given `distance`, the product of the normal and
    /// the point. The point is cut exactly when `distance` is a number below
    /// the offset; on the plane it is kept.
    pub fn classify(&self, distance: u32) -> (side: Side)
        ensures
            side == side_of(distance, self.w),
    {
        if less_than(distance, self.w) {
            Side::Cut
        } else {
            Side::Kept
        }
    }
}

/// For numbers, a point is kept exactly when its product with the normal is
/// at least the offset. In particular a point on the plane is kept.
pub proof fn lemma_kept_iff_not_below(distance: u32, offset: u32)
    requires
        !is_nan(distance),
        !is_nan(offset),
    ensures
        side_of(distance, offset) == Side::Kept <==> scaled_value(distance) >= scaled_value(
            offset,
        ),
        scaled_value(distance) == scaled_value(offset) ==> side_of(distance, offset) == Side::Kept,
{
}

/// The inert plane keeps every point: a product with the zero normal is a
/// zero or no number, and neither lies below the offset zero.
pub proof fn lemma_inert_plane_keeps(distance: u32)
    requires
        magnitude(distance) == 0 || is_nan(distance),
    ensures
        side_of(distance, Plane::zero().w) == Side::Kept,
{
    assert(0u32 & 0x7FFF_FFFFu32 == 0 && 0u32 & 0x8000_0000u32 == 0) by (bit_vector);
}

} // verus!
