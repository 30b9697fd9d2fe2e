//! Fixed-point scalars.
//!
//! Every quantity in the library is an `i64` counting micro-units: `FP_ONE`
//! stands for one whole unit.  Products and quotients are computed exactly
//! on wide integers, rounded toward zero, and clamped into
//! `[-FP_MAX, FP_MAX]`; a division by zero yields the signed sentinel
//! `FP_MAX`, the finite stand-in for a diverging magnitude.

use vstd::prelude::*;

verus! {

/// One whole unit.
pub const FP_ONE: i64 = 1_000_000;

/// The largest representable magnitude: the finite sentinel that stands in
/// for a value diverging toward infinity.
pub const FP_MAX: i64 = 1_000_000_000_000;

pub open spec fn fp_in_range(v: int) -> bool {
    -(FP_MAX as int) <= v <= FP_MAX as int
}

/// `v` clamped into `[-FP_MAX, FP_MAX]`.
pub open spec fn fp_clamped(v: int) -> int {
    if v > FP_MAX as int {
        FP_MAX as int
    } else if v < -(FP_MAX as int) {
        -(FP_MAX as int)
    } else {
        v
    }
}

pub open spec fn abs_val(v: int) -> int {
    if v >= 0 {
        v
    } else {
        -v
    }
}

/// Quotient rounded toward zero; meaningful only for a nonzero divisor.
pub open spec fn div_tz(n: int, d: int) -> int
    recommends
        d != 0,
{
    if (n >= 0) == (d >= 0) {
        abs_val(n) / abs_val(d)
    } else {
        -(abs_val(n) / abs_val(d))
    }
}

/// The fixed-point product: the exact product scaled back down, rounded
/// toward zero and clamped into the finite range.
pub open spec fn fp_mul_spec(a: int, b: int) -> int {
    fp_clamped(div_tz(a * b, FP_ONE as int))
}

/// The fixed-point quotient: a zero divisor diverges to the signed
/// sentinel; otherwise the scaled quotient, rounded toward zero and
/// clamped.
pub open spec fn fp_div_spec(n: int, d: int) -> int {
    if d == 0 {
        if n >= 0 {
            FP_MAX as int
        } else {
            -(FP_MAX as int)
        }
    } else {
        fp_clamped(div_tz(n * (FP_ONE as int), d))
    }
}

/// The fixed-point reciprocal: one divided by the argument.
pub open spec fn fp_recip_spec(d: int) -> int {
    fp_div_spec(FP_ONE as int, d)
}

pub open spec fn clamp_spec(v: int, lo: int, hi: int) -> int
    recommends
        lo <= hi,
{
    if v < lo {
        lo
    } else if v > hi {
        hi
    } else {
        v
    }
}

/// The magnitude of a product is the product of the magnitudes, and a
/// product of two nonzero factors is nonnegative exactly when the factors
/// agree in sign.
pub proof fn lemma_abs_mul(a: int, b: int)
    ensures
        abs_val(a * b) == abs_val(a) * abs_val(b),
        a != 0 && b != 0 ==> ((a * b >= 0) <==> ((a >= 0) <==> (b >= 0))),
{
    if a == 0 || b == 0 {
        assert(a * b == 0) by (nonlinear_arith)
            requires
                a == 0 || b == 0,
        ;
        assert(abs_val(a) * abs_val(b) == 0) by (nonlinear_arith)
            requires
                abs_val(a) == 0 || abs_val(b) == 0,
        ;
    } else if a > 0 && b > 0 {
        assert(a * b > 0) by (nonlinear_arith)
            requires
                a > 0 && b > 0,
        ;
    } else if a > 0 && b < 0 {
        assert(a * b < 0 && a * (-b) == -(a * b)) by (nonlinear_arith)
            requires
                a > 0 && b < 0,
        ;
    } else if a < 0 && b > 0 {
        assert(a * b < 0 && (-a) * b == -(a * b)) by (nonlinear_arith)
            requires
                a < 0 && b > 0,
        ;
    } else {
        assert(a * b > 0 && (-a) * (-b) == a * b) by (nonlinear_arith)
            requires
                a < 0 && b < 0,
        ;
    }
}

/// A product of nonnegative factors has a nonnegative fixed-point product.
pub proof fn lemma_fp_mul_nonneg(a: int, b: int)
    requires
        a >= 0,
        b >= 0,
    ensures
        0 <= fp_mul_spec(a, b) <= FP_MAX as int,
{
    vstd::arithmetic::mul::lemma_mul_nonnegative(a, b);
    vstd::arithmetic::div_mod::lemma_div_pos_is_pos(a * b, FP_ONE as int);
}

/// The reciprocal of a positive value is nonnegative.
pub proof fn lemma_fp_recip_nonneg(d: int)
    requires
        d > 0,
    ensures
        0 <= fp_recip_spec(d) <= FP_MAX as int,
{
    vstd::arithmetic::div_mod::lemma_div_pos_is_pos(
        (FP_ONE as int) * (FP_ONE as int),
        abs_val(d),
    );
}

/// The magnitude of `v`, widened so that even `i64::MIN` is representable.
fn abs_mag(v: i64) -> (r: u128)
    ensures
        r == abs_val(v as int),
{
    if v >= 0 {
        v as u128
    } else {
        (-(v as i128)) as u128
    }
}

/// The magnitude of an in-range value.
pub fn fp_abs(v: i64) -> (r: i64)
    requires
        i64::MIN < v,
    ensures
        r == abs_val(v as int),
{
    if v >= 0 {
        v
    } else {
        -v
    }
}

/// Clamp into `[-FP_MAX, FP_MAX]`.
pub fn fp_clamp(v: i64) -> (r: i64)
    ensures
        r == fp_clamped(v as int),
{
    if v > FP_MAX {
        FP_MAX
    } else if v < -FP_MAX {
        -FP_MAX
    } else {
        v
    }
}

/// Clamp into `[lo, hi]`.
pub fn clamp_to(v: i64, lo: i64, hi: i64) -> (r: i64)
    requires
        lo <= hi,
    ensures
        r == clamp_spec(v as int, lo as int, hi as int),
{
    if v < lo {
        lo
    } else if v > hi {
        hi
    } else {
        v
    }
}

/// Fixed-point product.
pub fn fp_mul(a: i64, b: i64) -> (r: i64)
    ensures
        r == fp_mul_spec(a as int, b as int),
        fp_in_range(r as int),
{
    let neg: bool = (a < 0) != (b < 0);
    let am: u128 = abs_mag(a);
    let bm: u128 = abs_mag(b);
    proof {
        lemma_abs_mul(a as int, b as int);
        assert(am * bm == abs_val(a as int) * abs_val(b as int)) by (nonlinear_arith)
            requires
                am == abs_val(a as int) && bm == abs_val(b as int),
        ;
        assert(am * bm <= 0x8000_0000_0000_0000u128 * 0x8000_0000_0000_0000u128)
            by (nonlinear_arith)
            requires
                am <= 0x8000_0000_0000_0000u128 && bm <= 0x8000_0000_0000_0000u128,
        ;
    }
    let p: u128 = am * bm;
    let q: u128 = p / (FP_ONE as u128);
    let m: u128 = if q > (FP_MAX as u128) {
        FP_MAX as u128
    } else {
        q
    };
    let mi: i64 = m as i64;
    let ab: Ghost<int> = Ghost((a as int) * (b as int));
    proof {
        assert(q == abs_val(ab@) / (FP_ONE as int));
        if ab@ >= 0 {
            assert(div_tz(ab@, FP_ONE as int) == q);
            assert(fp_clamped(q as int) == mi);
        } else {
            assert(div_tz(ab@, FP_ONE as int) == -(q as int));
            assert(fp_clamped(-(q as int)) == -(mi as int));
            assert(neg);
        }
    }
    if neg {
        -mi
    } else {
        mi
    }
}

/// Fixed-point quotient; a zero divisor yields the signed sentinel.
pub fn fp_div(n: i64, d: i64) -> (r: i64)
    ensures
        r == fp_div_spec(n as int, d as int),
        fp_in_range(r as int),
{
    if d == 0 {
        if n >= 0 {
            FP_MAX
        } else {
            -FP_MAX
        }
    } else {
        let neg: bool = (n < 0) != (d < 0);
        let nm: u128 = abs_mag(n);
        let dm: u128 = abs_mag(d);
        proof {
            lemma_abs_mul(n as int, FP_ONE as int);
        }
        let p: u128 = nm * (FP_ONE as u128);
        let q: u128 = p / dm;
        let m: u128 = if q > (FP_MAX as u128) {
            FP_MAX as u128
        } else {
            q
        };
        let mi: i64 = m as i64;
        let nf: Ghost<int> = Ghost((n as int) * (FP_ONE as int));
        proof {
            assert(p == abs_val(nf@));
            assert(q == abs_val(nf@) / abs_val(d as int));
            if (nf@ >= 0) == (d as int >= 0) {
                assert(div_tz(nf@, d as int) == q);
                assert(fp_clamped(q as int) == mi);
                assert(!neg || q == 0);
            } else {
                assert(div_tz(nf@, d as int) == -(q as int));
                assert(fp_clamped(-(q as int)) == -(mi as int));
                assert(neg || q == 0);
            }
        }
        if neg {
            -mi
        } else {
            mi
        }
    }
}

/// Fixed-point reciprocal.
pub fn fp_recip(d: i64) -> (r: i64)
    ensures
        r == fp_recip_spec(d as int),
        fp_in_range(r as int),
{
    fp_div(FP_ONE, d)
}

/// Sum of two in-range values, clamped back into the finite range.
pub fn fp_add_clamped(a: i64, b: i64) -> (r: i64)
    requires
        fp_in_range(a as int),
        fp_in_range(b as int),
    ensures
        r == fp_clamped(a + b),
        fp_in_range(r as int),
{
    fp_clamp(a + b)
}

} // verus!
