//! The scene orchestrator: toggles, rate and radius stepping, the value
//! readout hit test, and label anchoring.

use unit_circle::consts::{DEFAULT_RATE, RATE_INCREMENT, UNIT_RADIUS};
use unit_circle::fixed::{FP_MAX, FP_ONE};
use unit_circle::geometry::Point;
use unit_circle::labels::Label;
use unit_circle::model::{Model, Theme, OFFSCREEN};

#[test]
fn fresh_model_has_the_documented_defaults() {
    let m = Model::new();
    assert_eq!(m.theta, 0);
    assert_eq!(m.rate, DEFAULT_RATE);
    assert_eq!(m.radius, UNIT_RADIUS);
    assert!(m.is_running && m.draw_labels && m.draw_values && m.draw_theta);
    assert!(m.theme.is_dark());
    assert_eq!(m.labels.get_opacity(Label::Sin), FP_ONE);
}

#[test]
fn rate_steps_up_and_floors_at_zero() {
    let mut m = Model::new();
    m.increment_rate();
    assert_eq!(m.rate, DEFAULT_RATE + RATE_INCREMENT);
    m.reset_rate();
    assert_eq!(m.rate, DEFAULT_RATE);
    for _ in 0..10 {
        m.decrement_rate();
    }
    assert_eq!(m.rate, 0);
}

#[test]
fn radius_steps_both_ways_and_resets() {
    let mut m = Model::new();
    m.increase_scale();
    assert_eq!(m.radius, UNIT_RADIUS + 10_000_000);
    m.reset_scale();
    for _ in 0..25 {
        m.decrease_scale();
    }
    // The radius has no floor: it may cross zero and go negative.
    assert_eq!(m.radius, UNIT_RADIUS - 250_000_000);
    m.reset_scale();
    assert_eq!(m.radius, UNIT_RADIUS);
}

#[test]
fn toggles_flip_and_flip_back() {
    let mut m = Model::new();
    m.toggle_running();
    assert!(!m.is_running);
    m.toggle_running();
    assert!(m.is_running);
    m.toggle_labels();
    assert!(!m.draw_labels);
    m.toggle_values();
    assert!(!m.draw_values);
    m.toggle_theta();
    assert!(!m.draw_theta);
    m.toggle_theme();
    assert_eq!(m.theme, Theme::Light);
    m.toggle_theme();
    assert_eq!(m.theme, Theme::Dark);
}

#[test]
fn reset_theta_returns_to_zero() {
    let mut m = Model::new();
    m.theta = 3_000_000;
    m.reset_theta();
    assert_eq!(m.theta, 0);
}

#[test]
fn a_fresh_click_on_the_top_box_toggles_sine() {
    let mut m = Model::new();
    // The readout is drawn shifted left by 120 units, so a pointer at
    // (270, 150) lands on the box centered at (390, 150): index 5, sine.
    let p = Point { x: 270_000_000, y: 150_000_000 };
    m.update_value_rects(p, true);
    assert!(!m.visible.sin);
    assert!(m.mouse_state);
    // Holding the button over the box must not toggle again.
    m.update_value_rects(p, true);
    assert!(!m.visible.sin);
    // Release, then press again: it toggles back.
    m.update_value_rects(p, false);
    assert!(!m.mouse_state);
    m.update_value_rects(p, true);
    assert!(m.visible.sin);
}

#[test]
fn a_click_outside_every_box_toggles_nothing() {
    let mut m = Model::new();
    m.update_value_rects(Point { x: 0, y: 0 }, true);
    assert!(m.visible.sin && m.visible.cos && m.visible.tan);
    assert!(m.visible.cot && m.visible.sec && m.visible.csc);
    assert!(m.mouse_state);
}

#[test]
fn the_bottom_box_toggles_cosecant() {
    let mut m = Model::new();
    // Index 0 sits at (390, -150): pointer (270, -150).
    m.update_value_rects(Point { x: 270_000_000, y: -150_000_000 }, true);
    assert!(!m.visible.csc);
    assert!(m.visible.sin);
}

#[test]
fn labels_anchor_at_the_zero_angle_geometry() {
    let mut m = Model::new();
    m.compute_trig_values();
    m.update_label_positions();
    // cos(0) = 1 scaled by the radius: the sine label sits just right
    // of the moving point, at half the (zero) sine height.
    let sin_pos = m.labels.get_position(Label::Sin);
    assert_eq!(sin_pos.x, 222_000_000);
    assert_eq!(sin_pos.y, 0);
    // The angle label rides the arc at half the angle, 93% of the
    // radius out: at zero that is (186, 0).
    let theta_pos = m.labels.get_position(Label::Theta);
    assert_eq!(theta_pos.x, 186_000_000);
    assert_eq!(theta_pos.y, 0);
}

#[test]
fn hidden_lines_park_their_labels_off_screen() {
    let mut m = Model::new();
    m.visible.sin = false;
    m.compute_trig_values();
    m.update_label_positions();
    let p = m.labels.get_position(Label::Sin);
    assert_eq!(p.x, OFFSCREEN);
    assert_eq!(p.y, OFFSCREEN);
}

#[test]
fn a_full_frame_runs_every_stage_in_order() {
    let mut m = Model::new();
    m.update(33_000, Point { x: 0, y: 0 }, false);
    // theta advanced by 0.25 * 0.033 seconds.
    assert_eq!(m.theta, 8_250);
    // The trig values belong to the new angle, not the old one.
    assert!(m.trig_values.sin > 0);
    assert!(m.trig_values.cos < FP_ONE);
    assert!(m.trig_values.cot <= FP_MAX);
    // Labels moved off the origin.
    assert!(m.labels.get_position(Label::Theta).x > 0);
}

#[test]
fn arc_sampling_covers_the_angle() {
    let mut m = Model::new();
    m.compute_trig_values();
    // No angle, no arc: a renderer must not draw a degenerate line.
    assert!(m.theta_arc_points().is_empty());
    // A quarter turn samples exactly 32 steps, 33 points, running from
    // the circle's rightmost point up to its topmost.
    m.theta = unit_circle::trig::HALF_PI_FP;
    let pts = m.theta_arc_points();
    assert_eq!(pts.len(), 33);
    assert_eq!(pts[0].x, 200_000_000);
    assert_eq!(pts[0].y, 0);
    assert_eq!(pts[32].x, 0);
    assert_eq!(pts[32].y, 200_000_000);
}

#[test]
fn opacity_bounds_hold_through_whole_frames() {
    let mut m = Model::new();
    let floor = FP_ONE - unit_circle::consts::FADE_INTENSITY;
    for _ in 0..300 {
        m.update(33_000, Point { x: 0, y: 0 }, false);
        for l in [Label::Sin, Label::Cos, Label::Theta, Label::Unit] {
            let op = m.labels.get_opacity(l);
            assert!(floor <= op && op <= FP_ONE);
        }
    }
}
