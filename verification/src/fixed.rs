//! Fixed-point arithmetic for the kernel model.
//!
//! All quantities the effect reasons about — depths, colors, normals,
//! thresholds — are carried as signed 64-bit fixed-point numbers with
//! [`FP_ONE`] standing for one unit. The kernel's decisions (gradient
//! comparisons, steep-angle compensation, distortion offsets) are exact
//! over this representation.

use vstd::prelude::*;
use vstd::arithmetic::div_mod::{lemma_div_is_ordered, lemma_fundamental_div_mod_converse};
use vstd::arithmetic::mul::lemma_mul_inequality;

verus! {

/// One unit in the fixed-point representation.
pub const FP_ONE: i64 = 1_000_000;

/// Half a unit; used to round a thickness to a whole texel radius.
pub const FP_HALF: i64 = 500_000;

/// Largest magnitude a sample, threshold or thickness may carry.
/// The bound exists so that the kernel's sums and products fit in `i64`.
pub const FP_MAX: i64 = 0x8_0000_0000;

/// A sample or threshold within the representable range.
pub open spec fn fp_bounded(v: int) -> bool {
    -FP_MAX <= v <= FP_MAX
}

/// A value within one unit of zero: a normal component, a sine value,
/// a distortion strength.
pub open spec fn fp_unit(v: int) -> bool {
    -FP_ONE <= v <= FP_ONE
}

/// Division of a product by the scale, truncating toward zero, as the
/// executable code performs it on a product of either sign.
pub open spec fn fp_scale_down(p: int) -> int {
    if p >= 0 {
        p / (FP_ONE as int)
    } else {
        -((-p) / (FP_ONE as int))
    }
}

/// The fixed-point product of `a` and `b`.
pub open spec fn spec_fp_mul(a: int, b: int) -> int {
    fp_scale_down(a * b)
}

/// Magnitude bound on a product of bounded factors.
pub proof fn lemma_mul_bound(a: int, b: int, aa: int, bb: int)
    requires
        -aa <= a <= aa,
        -bb <= b <= bb,
        0 <= aa,
        0 <= bb,
    ensures
        -(aa * bb) <= a * b <= aa * bb,
{
    assert(-(aa * bb) <= a * b <= aa * bb) by (nonlinear_arith)
        requires
            -aa <= a <= aa,
            -bb <= b <= bb,
            0 <= aa,
            0 <= bb,
    ;
}

/// Scaling down preserves order.
pub proof fn lemma_fp_scale_down_monotonic(p: int, q: int)
    requires
        p <= q,
    ensures
        fp_scale_down(p) <= fp_scale_down(q),
{
    let d = FP_ONE as int;
    if p >= 0 {
        lemma_div_is_ordered(p, q, d);
    } else if q >= 0 {
        assert((-p) / d >= 0) by {
            lemma_div_is_ordered(0, -p, d);
        }
        assert(q / d >= 0) by {
            lemma_div_is_ordered(0, q, d);
        }
    } else {
        lemma_div_is_ordered(-q, -p, d);
    }
}

/// Scaling down a multiple of the scale recovers the factor.
pub proof fn lemma_fp_scale_down_exact(a: int)
    requires
        a >= 0,
    ensures
        fp_scale_down(a * FP_ONE) == a,
{
    let d = FP_ONE as int;
    assert(a * d >= 0) by (nonlinear_arith)
        requires
            a >= 0,
            d > 0,
    ;
    lemma_fundamental_div_mod_converse(a * d, d, a, 0);
}

/// A product with a factor of at most one unit never exceeds the other
/// factor: the heart of the steep-angle compensation bound.
pub proof fn lemma_fp_mul_le(a: int, b: int)
    requires
        0 <= a,
        0 <= b <= FP_ONE,
    ensures
        0 <= spec_fp_mul(a, b) <= a,
        b == FP_ONE ==> spec_fp_mul(a, b) == a,
{
    let d = FP_ONE as int;
    assert(0 <= a * b) by (nonlinear_arith)
        requires
            0 <= a,
            0 <= b,
    ;
    lemma_mul_inequality(b, d, a);
    assert(b * a == a * b) by (nonlinear_arith);
    assert(d * a == a * d) by (nonlinear_arith);
    lemma_div_is_ordered(a * b, a * d, d);
    lemma_fp_scale_down_exact(a);
    assert(0 <= a * b / d) by {
        lemma_div_is_ordered(0, a * b, d);
    }
}

/// A zero factor yields a zero product, whatever the other factor holds.
pub proof fn lemma_fp_mul_zero(b: int)
    ensures
        spec_fp_mul(0, b) == 0,
        spec_fp_mul(b, 0) == 0,
{
    assert(0 * b == 0) by (nonlinear_arith);
    assert(b * 0 == 0) by (nonlinear_arith);
}

/// Fixed-point multiplication, truncating toward zero.
pub fn fp_mul(a: i64, b: i64) -> (r: i64)
    requires
        -0x7fff_ffff_ffff_ffff <= a * b <= 0x7fff_ffff_ffff_ffff,
    ensures
        r == spec_fp_mul(a as int, b as int),
{
    let p: i64 = a * b;
    if p >= 0 {
        ((p as u64) / (FP_ONE as u64)) as i64
    } else {
        proof {
            lemma_div_is_ordered(0, -(p as int), FP_ONE as int);
            lemma_div_is_ordered(-(p as int), 0x7fff_ffff_ffff_ffff, FP_ONE as int);
        }
        -((((-p) as u64) / (FP_ONE as u64)) as i64)
    }
}

/// Clamp a value to the closed interval `[lo, hi]`.
pub open spec fn spec_clamp(v: int, lo: int, hi: int) -> int {
    if v < lo {
        lo
    } else if v > hi {
        hi
    } else {
        v
    }
}

/// Executable clamp.
pub fn clamp(v: i64, lo: i64, hi: i64) -> (r: i64)
    requires
        lo <= hi,
    ensures
        r == spec_clamp(v as int, lo as int, hi as int),
{
    if v < lo {
        lo
    } else if v > hi {
        hi
    } else {
        v
    }
}

/// Magnitude of a value.
pub open spec fn spec_abs(v: int) -> int {
    if v >= 0 {
        v
    } else {
        -v
    }
}

/// Executable magnitude.
pub fn abs(v: i64) -> (r: i64)
    requires
        v != i64::MIN,
    ensures
        r == spec_abs(v as int),
{
    if v >= 0 {
        v
    } else {
        -v
    }
}

/// The larger of two values.
pub open spec fn spec_max(a: int, b: int) -> int {
    if a >= b {
        a
    } else {
        b
    }
}

/// Executable maximum.
pub fn max(a: i64, b: i64) -> (r: i64)
    ensures
        r == spec_max(a as int, b as int),
{
    if a >= b {
        a
    } else {
        b
    }
}

} // verus!
