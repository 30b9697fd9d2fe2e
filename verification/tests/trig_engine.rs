//! The trigonometric engine: angle advance, the six derived values, and
//! divergence clamping, all in fixed-point micro-units.

use unit_circle::fixed::{fp_div, fp_recip, FP_MAX, FP_ONE};
use unit_circle::geometry::Point;
use unit_circle::model::Model;
use unit_circle::trig::{compute_raw_trig, sin_fp, HALF_PI_FP, PI_FP, TAU_FP};

#[test]
fn theta_zero_gives_exact_cardinal_values() {
    // sin = 0, cos = 1, tan = 0, sec = 1; cotangent and cosecant diverge
    // at zero, so both report the positive sentinel.
    let v = compute_raw_trig(0);
    assert_eq!(v.sin, 0);
    assert_eq!(v.cos, FP_ONE);
    assert_eq!(v.tan, 0);
    assert_eq!(v.cot, FP_MAX);
    assert_eq!(v.sec, FP_ONE);
    assert_eq!(v.csc, FP_MAX);
}

#[test]
fn divergence_at_quarter_turn_hits_sentinel() {
    // cos(pi/2) is exactly zero in this representation, so tangent and
    // secant report the positive sentinel instead of overflowing.
    let v = compute_raw_trig(HALF_PI_FP);
    assert_eq!(v.sin, FP_ONE);
    assert_eq!(v.cos, 0);
    assert_eq!(v.tan, FP_MAX);
    assert_eq!(v.sec, FP_MAX);
    assert_eq!(v.csc, FP_ONE);
}

#[test]
fn all_values_stay_finite_across_a_sweep() {
    let mut theta: i64 = 0;
    while theta < TAU_FP {
        let v = compute_raw_trig(theta);
        for value in [v.sin, v.cos, v.tan, v.cot, v.sec, v.csc] {
            assert!(-FP_MAX <= value && value <= FP_MAX);
        }
        theta += 10_007;
    }
}

#[test]
fn reciprocal_consistency_across_a_sweep() {
    // cot == 1/tan, sec == 1/cos, csc == 1/sin, exactly as the
    // fixed-point reciprocal defines them.
    let mut theta: i64 = 0;
    while theta < TAU_FP {
        let v = compute_raw_trig(theta);
        assert_eq!(v.cot, fp_recip(v.tan));
        assert_eq!(v.sec, fp_recip(v.cos));
        assert_eq!(v.csc, fp_recip(v.sin));
        assert_eq!(v.tan, fp_div(v.sin, v.cos));
        theta += 9_973;
    }
}

#[test]
fn sine_is_antisymmetric_around_the_half_turn() {
    // sin(pi + x) == -sin(x) holds exactly for the rational form.
    let mut x: i64 = 0;
    while x < PI_FP {
        assert_eq!(sin_fp(PI_FP + x), -sin_fp(x));
        x += 123_457;
    }
}

#[test]
fn wraparound_keeps_theta_under_one_turn() {
    // rate 0.25 rad/s for one second starting at 6.2 rad: just under a
    // full turn, so one subtraction lands near 0.167 rad.
    let mut m = Model::new();
    m.theta = 6_200_000;
    m.rate = 250_000;
    m.update_theta(1_000_000);
    assert_eq!(m.theta, 166_816);
}

#[test]
fn theta_stays_in_range_over_many_frames() {
    let mut m = Model::new();
    m.rate = 3_000_000; // three radians per second
    for _ in 0..500 {
        m.update(33_000, Point { x: 0, y: 0 }, false);
        assert!(0 <= m.theta && m.theta < TAU_FP);
    }
}

#[test]
fn paused_clock_holds_theta() {
    let mut m = Model::new();
    m.theta = 1_234_567;
    m.toggle_running();
    m.update_theta(1_000_000);
    assert_eq!(m.theta, 1_234_567);
}

#[test]
fn scaled_values_follow_the_radius() {
    let mut m = Model::new();
    m.theta = 0;
    m.compute_trig_values();
    // cos = 1, radius = 200: the scaled cosine is the radius itself.
    assert_eq!(m.trig_values_scaled.cos, 200_000_000);
    assert_eq!(m.trig_values_scaled.sin, 0);
}
