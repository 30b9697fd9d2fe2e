//! Fixed-point trigonometry.
//!
//! The angle is a fixed-point count of radians.  Sine is computed by a
//! rational approximation on a half-turn, chosen so that it is exact at
//! every quadrant boundary (`sin 0 == 0`, `sin (pi/2) == 1`, `sin pi == 0`);
//! cosine is sine shifted by a quarter turn.  The four reciprocal values
//! are derived from the primary three, so a division by an exact zero
//! diverges to the signed sentinel `FP_MAX` instead of overflowing.

use vstd::prelude::*;

verus! {

use crate::fixed::{
    FP_MAX, FP_ONE, abs_val, div_tz, fp_clamped, fp_div, fp_div_spec, fp_in_range, fp_mul,
    fp_mul_spec, fp_recip, fp_recip_spec,
};
use vstd::arithmetic::div_mod::{
    lemma_div_is_ordered, lemma_div_pos_is_pos, lemma_mod_division_less_than_divisor,
};

/// Half a turn, in fixed-point radians (pi, rounded to micro-units).
pub const PI_FP: i64 = 3_141_592;

/// A quarter turn: exactly half of `PI_FP`.
pub const HALF_PI_FP: i64 = 1_570_796;

/// A full turn: exactly twice `PI_FP`, so that quadrant reductions stay
/// exact.
pub const TAU_FP: i64 = 6_283_184;

/// The angle reduced into `[0, TAU_FP)`.
pub open spec fn angle_norm(x: int) -> int {
    x % (TAU_FP as int)
}

/// The rational half-turn approximation of sine, for `0 <= x <= PI_FP`:
/// `16 a / (5 pi^2 - 4 a)` scaled by `FP_ONE`, where `a == x (pi - x)`.
pub open spec fn half_turn_sine(x: int) -> int
    recommends
        0 <= x <= PI_FP as int,
{
    let a = x * (PI_FP as int - x);
    (16 * a * (FP_ONE as int)) / (5 * (PI_FP as int) * (PI_FP as int) - 4 * a)
}

/// Fixed-point sine of any angle: reduce into one turn, evaluate the
/// half-turn approximation, negative in the second half-turn.
pub open spec fn sin_spec(x: int) -> int {
    let y = angle_norm(x);
    if y <= PI_FP as int {
        half_turn_sine(y)
    } else {
        -half_turn_sine(y - PI_FP as int)
    }
}

/// Fixed-point cosine: sine shifted by a quarter turn.
pub open spec fn cos_spec(x: int) -> int {
    sin_spec(x + HALF_PI_FP as int)
}

/// The product `x (pi - x)` stays within `[0, pi^2 / 4]` on the half turn.
proof fn lemma_half_turn_product_bounds(x: int)
    requires
        0 <= x <= PI_FP as int,
    ensures
        0 <= x * (PI_FP as int - x),
        4 * (x * (PI_FP as int - x)) <= (PI_FP as int) * (PI_FP as int),
{
    assert(0 <= x * (PI_FP as int - x)) by (nonlinear_arith)
        requires
            0 <= x <= PI_FP as int,
    ;
    assert(4 * (x * (PI_FP as int - x)) <= (PI_FP as int) * (PI_FP as int)) by (nonlinear_arith);
}

/// The half-turn approximation stays within `[0, FP_ONE]`.
pub proof fn lemma_half_turn_sine_bounds(x: int)
    requires
        0 <= x <= PI_FP as int,
    ensures
        0 <= half_turn_sine(x) <= FP_ONE as int,
{
    let a = x * (PI_FP as int - x);
    let num = 16 * a * (FP_ONE as int);
    let den = 5 * (PI_FP as int) * (PI_FP as int) - 4 * a;
    lemma_half_turn_product_bounds(x);
    assert(den >= 4 * (PI_FP as int) * (PI_FP as int));
    assert(16 * a * (FP_ONE as int) >= 0) by (nonlinear_arith)
        requires
            a >= 0,
    ;
    lemma_div_pos_is_pos(num, den);
    // 20 a <= 5 pi^2, so the numerator is at most FP_ONE times the denominator.
    assert(16 * a <= den);
    assert(16 * a * (FP_ONE as int) <= den * (FP_ONE as int)) by (nonlinear_arith)
        requires
            16 * a <= den,
            FP_ONE as int > 0,
    ;
    assert(den * (FP_ONE as int) / den == FP_ONE as int) by (nonlinear_arith)
        requires
            den > 0,
    ;
    lemma_div_is_ordered(num, den * (FP_ONE as int), den);
}

/// Sine has period one full turn.
pub proof fn lemma_sin_period(x: int)
    ensures
        sin_spec(x + TAU_FP as int) == sin_spec(x),
{
    vstd::arithmetic::div_mod::lemma_mod_add_multiples_vanish(x, TAU_FP as int);
}

/// Evaluate the half-turn approximation.
fn half_turn_sine_fp(x: i64) -> (r: i64)
    requires
        0 <= x <= PI_FP,
    ensures
        r == half_turn_sine(x as int),
        0 <= r <= FP_ONE,
{
    proof {
        lemma_half_turn_product_bounds(x as int);
        lemma_half_turn_sine_bounds(x as int);
    }
    let a: i64 = x * (PI_FP - x);
    let num: u128 = 16u128 * (a as u128) * (FP_ONE as u128);
    let den: u128 = 5u128 * (PI_FP as u128) * (PI_FP as u128) - 4u128 * (a as u128);
    let q: u128 = num / den;
    q as i64
}

/// Fixed-point sine of a nonnegative angle.
pub fn sin_fp(x: i64) -> (r: i64)
    requires
        0 <= x,
    ensures
        r == sin_spec(x as int),
        -FP_ONE <= r <= FP_ONE,
{
    proof {
        lemma_mod_division_less_than_divisor(x as int, TAU_FP as int);
    }
    let y: i64 = ((x as u64) % (TAU_FP as u64)) as i64;
    if y <= PI_FP {
        half_turn_sine_fp(y)
    } else {
        let m: i64 = half_turn_sine_fp(y - PI_FP);
        -m
    }
}

/// Fixed-point cosine of a nonnegative in-range angle.
pub fn cos_fp(x: i64) -> (r: i64)
    requires
        0 <= x,
        fp_in_range(x as int),
    ensures
        r == cos_spec(x as int),
        -FP_ONE <= r <= FP_ONE,
{
    sin_fp(x + HALF_PI_FP)
}

/// The six trigonometric values of one angle, either raw (scaled by
/// `FP_ONE`) or scaled into render space by a radius.
#[derive(Clone, Copy, Debug, PartialEq, Eq, Structural)]
pub struct TrigValues {
    /// Sine.
    pub sin: i64,
    /// Cosine.
    pub cos: i64,
    /// Tangent.
    pub tan: i64,
    /// Cotangent.
    pub cot: i64,
    /// Secant.
    pub sec: i64,
    /// Cosecant.
    pub csc: i64,
}

impl TrigValues {
    pub open spec fn all_in_range(self) -> bool {
        &&& fp_in_range(self.sin as int)
        &&& fp_in_range(self.cos as int)
        &&& fp_in_range(self.tan as int)
        &&& fp_in_range(self.cot as int)
        &&& fp_in_range(self.sec as int)
        &&& fp_in_range(self.csc as int)
    }

    /// Clamp the four values that may diverge into the finite range.
    pub fn clamp_inf(&mut self)
        ensures
            final(self).sin == old(self).sin,
            final(self).cos == old(self).cos,
            final(self).tan == fp_clamped(old(self).tan as int),
            final(self).cot == fp_clamped(old(self).cot as int),
            final(self).sec == fp_clamped(old(self).sec as int),
            final(self).csc == fp_clamped(old(self).csc as int),
    {
        self.tan = crate::fixed::fp_clamp(self.tan);
        self.cot = crate::fixed::fp_clamp(self.cot);
        self.sec = crate::fixed::fp_clamp(self.sec);
        self.csc = crate::fixed::fp_clamp(self.csc);
    }

    /// Scale all six values by `rhs`.
    pub fn mul(self, rhs: i64) -> (r: TrigValues)
        ensures
            r.sin == fp_mul_spec(self.sin as int, rhs as int),
            r.cos == fp_mul_spec(self.cos as int, rhs as int),
            r.tan == fp_mul_spec(self.tan as int, rhs as int),
            r.cot == fp_mul_spec(self.cot as int, rhs as int),
            r.sec == fp_mul_spec(self.sec as int, rhs as int),
            r.csc == fp_mul_spec(self.csc as int, rhs as int),
            r.all_in_range(),
    {
        TrigValues {
            sin: fp_mul(self.sin, rhs),
            cos: fp_mul(self.cos, rhs),
            tan: fp_mul(self.tan, rhs),
            cot: fp_mul(self.cot, rhs),
            sec: fp_mul(self.sec, rhs),
            csc: fp_mul(self.csc, rhs),
        }
    }
}

/// Compute the six raw values of an angle: sine and cosine from the
/// approximation, tangent as their quotient, and each remaining value as
/// the reciprocal of one of the primary three.
pub fn compute_raw_trig(theta: i64) -> (r: TrigValues)
    requires
        0 <= theta,
        fp_in_range(theta as int),
    ensures
        r.sin == sin_spec(theta as int),
        r.cos == cos_spec(theta as int),
        r.tan == fp_div_spec(r.sin as int, r.cos as int),
        r.cot == fp_recip_spec(r.tan as int),
        r.sec == fp_recip_spec(r.cos as int),
        r.csc == fp_recip_spec(r.sin as int),
        r.all_in_range(),
{
    let s: i64 = sin_fp(theta);
    let c: i64 = cos_fp(theta);
    let t: i64 = fp_div(s, c);
    TrigValues {
        sin: s,
        cos: c,
        tan: t,
        cot: fp_recip(t),
        sec: fp_recip(c),
        csc: fp_recip(s),
    }
}

/// At an exact asymptote the reciprocal is the sentinel itself, with the
/// sign of the numerator; elsewhere its sign follows the argument.
pub proof fn lemma_recip_diverges(d: int)
    ensures
        d == 0 ==> fp_recip_spec(d) == FP_MAX as int,
        0 < d * (FP_MAX as int) <= (FP_ONE as int) * (FP_ONE as int) ==> fp_recip_spec(d)
            == FP_MAX as int,
        0 < (-d) * (FP_MAX as int) <= (FP_ONE as int) * (FP_ONE as int) ==> fp_recip_spec(d) == -(
        FP_MAX as int),
        d > 0 ==> 0 <= fp_recip_spec(d) <= FP_MAX as int,
        d < 0 ==> -(FP_MAX as int) <= fp_recip_spec(d) <= 0,
{
    let f2 = (FP_ONE as int) * (FP_ONE as int);
    assert(f2 == 1_000_000_000_000) by (nonlinear_arith)
        requires
            f2 == 1_000_000int * 1_000_000int,
    ;
    if d != 0 {
        lemma_div_pos_is_pos(f2, abs_val(d));
        vstd::arithmetic::div_mod::lemma_div_basics(f2);
        if 0 < d * (FP_MAX as int) <= f2 {
            // A positive one-micro-unit divisor: the quotient reaches the sentinel.
            assert(d == 1) by (nonlinear_arith)
                requires
                    0 < d * (FP_MAX as int) <= f2,
                    f2 == 1_000_000_000_000,
                    FP_MAX as int == 1_000_000_000_000,
            ;
            assert(div_tz(f2, 1) == f2);
        }
        if 0 < (-d) * (FP_MAX as int) <= f2 {
            assert(d == -1) by (nonlinear_arith)
                requires
                    0 < (-d) * (FP_MAX as int) <= f2,
                    f2 == 1_000_000_000_000,
                    FP_MAX as int == 1_000_000_000_000,
            ;
            assert(div_tz(f2, -1) == -f2);
        }
    }
}

} // verus!
