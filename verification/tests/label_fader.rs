//! The label overlap and fade engine: the trigger relation, the overlap
//! scenario, opacity bounds, ramp timing and directionality.

use unit_circle::consts::FADE_INTENSITY;
use unit_circle::fixed::FP_ONE;
use unit_circle::geometry::{Point, Rect};
use unit_circle::labels::{label_bounds, Label, Labels};

const FLOOR: i64 = FP_ONE - FADE_INTENSITY;
const FAR: i64 = 500_000_000;

/// Park every label far apart so no pair overlaps.
fn spread_out(labels: &mut Labels) {
    let all = [
        Label::Sin,
        Label::Cos,
        Label::Tan,
        Label::Cot,
        Label::Sec,
        Label::Csc,
        Label::Theta,
        Label::Unit,
    ];
    for (i, l) in all.iter().enumerate() {
        labels.set_position(*l, Point { x: FAR + (i as i64) * 100_000_000, y: FAR });
    }
}

#[test]
fn fade_relation_matches_the_design_table() {
    assert!(Label::Sin.should_fade(Label::Tan));
    assert!(Label::Sin.should_fade(Label::Csc));
    assert!(!Label::Sin.should_fade(Label::Cos));
    assert!(Label::Cos.should_fade(Label::Sec));
    assert!(!Label::Cos.should_fade(Label::Tan));
    assert!(Label::Theta.should_fade(Label::Sin));
    assert!(Label::Unit.should_fade(Label::Cos));
    assert!(Label::Unit.should_fade(Label::Sin));
    assert!(Label::Unit.should_fade(Label::Csc));
    assert!(!Label::Unit.should_fade(Label::Tan));
    // The four never-fading labels trigger on nothing at all.
    for other in [Label::Sin, Label::Cos, Label::Theta, Label::Unit, Label::Cot] {
        assert!(!Label::Tan.should_fade(other));
        assert!(!Label::Cot.should_fade(other));
        assert!(!Label::Sec.should_fade(other));
        assert!(!Label::Csc.should_fade(other));
    }
}

#[test]
fn label_bounds_are_the_fixed_box_size() {
    let (w, h) = label_bounds();
    assert_eq!(w, 30_000_000);
    assert_eq!(h, 25_000_000);
}

#[test]
fn rects_with_small_vertical_offset_overlap() {
    // Centers (100, 0) and (100, 5) with half-extents (20, 15): the
    // vertical gap of 5 is well under the combined 30.
    let a = Rect { cx: 100_000_000, cy: 0, hw: 20_000_000, hh: 15_000_000 };
    let b = Rect { cx: 100_000_000, cy: 5_000_000, hw: 20_000_000, hh: 15_000_000 };
    assert!(a.overlaps(&b));
    assert!(b.overlaps(&a));
}

#[test]
fn touching_rects_do_not_overlap() {
    // Overlap needs positive area: rectangles that only share an edge
    // do not count.
    let a = Rect { cx: 0, cy: 0, hw: 20_000_000, hh: 15_000_000 };
    let b = Rect { cx: 40_000_000, cy: 0, hw: 20_000_000, hh: 15_000_000 };
    assert!(!a.overlaps(&b));
    let c = Rect { cx: 39_999_999, cy: 0, hw: 20_000_000, hh: 15_000_000 };
    assert!(a.overlaps(&c));
}

#[test]
fn sine_over_tangent_sets_its_fade_flag() {
    let mut labels = Labels::new();
    spread_out(&mut labels);
    labels.set_position(Label::Sin, Point { x: 100_000_000, y: 0 });
    labels.set_position(Label::Tan, Point { x: 100_000_000, y: 5_000_000 });
    labels.evaluate_overlaps();
    assert!(labels.get_should_fade(Label::Sin));
    assert!(!labels.get_should_fade(Label::Cos));
    assert!(!labels.get_should_fade(Label::Theta));
    assert!(!labels.get_should_fade(Label::Unit));
}

#[test]
fn separated_labels_clear_their_fade_flags() {
    let mut labels = Labels::new();
    spread_out(&mut labels);
    labels.set_position(Label::Sin, Point { x: 100_000_000, y: 0 });
    labels.set_position(Label::Tan, Point { x: 100_000_000, y: 5_000_000 });
    labels.evaluate_overlaps();
    assert!(labels.get_should_fade(Label::Sin));
    spread_out(&mut labels);
    labels.evaluate_overlaps();
    assert!(!labels.get_should_fade(Label::Sin));
}

#[test]
fn overlap_alone_does_not_fade_without_the_relation() {
    // Cosine overlapping tangent is not in the trigger table.
    let mut labels = Labels::new();
    spread_out(&mut labels);
    labels.set_position(Label::Cos, Point { x: 100_000_000, y: 0 });
    labels.set_position(Label::Tan, Point { x: 100_000_000, y: 5_000_000 });
    labels.evaluate_overlaps();
    assert!(!labels.get_should_fade(Label::Cos));
}

#[test]
fn directional_overlap_fades_only_the_sensitive_label() {
    // The angle label fades over sine, but sine's relation does not
    // name the angle label: only theta's opacity moves.
    let mut labels = Labels::new();
    spread_out(&mut labels);
    labels.set_position(Label::Theta, Point { x: 100_000_000, y: 0 });
    labels.set_position(Label::Sin, Point { x: 100_000_000, y: 5_000_000 });
    for _ in 0..5 {
        labels.update(100_000);
    }
    assert!(labels.get_opacity(Label::Theta) < FP_ONE);
    assert_eq!(labels.get_opacity(Label::Sin), FP_ONE);
}

#[test]
fn opacity_stays_within_bounds_forever() {
    let mut labels = Labels::new();
    // Alternate between heavy overlap and separation; the opacity may
    // ramp but never leaves [1 - fade_intensity, 1].
    for round in 0..40 {
        if round % 2 == 0 {
            spread_out(&mut labels);
            labels.set_position(Label::Sin, Point { x: 0, y: 0 });
            labels.set_position(Label::Csc, Point { x: 0, y: 0 });
            labels.set_position(Label::Unit, Point { x: 0, y: 0 });
        } else {
            spread_out(&mut labels);
        }
        for _ in 0..7 {
            labels.update(77_000);
            for l in [Label::Sin, Label::Cos, Label::Theta, Label::Unit] {
                let op = labels.get_opacity(l);
                assert!(FLOOR <= op && op <= FP_ONE);
            }
        }
    }
}

#[test]
fn fade_out_ramp_is_linear_until_the_floor() {
    // fade_out = 0.3 s, dt = 0.1 s: each frame subtracts
    // (1/0.3) * 0.1 = 333_333 micro-units, then the floor clamps.
    let mut labels = Labels::new();
    spread_out(&mut labels);
    labels.set_position(Label::Sin, Point { x: 100_000_000, y: 0 });
    labels.set_position(Label::Tan, Point { x: 100_000_000, y: 5_000_000 });
    labels.update(100_000);
    assert_eq!(labels.get_opacity(Label::Sin), 666_667);
    labels.update(100_000);
    assert_eq!(labels.get_opacity(Label::Sin), 333_334);
    labels.update(100_000);
    assert_eq!(labels.get_opacity(Label::Sin), FLOOR);
    labels.update(100_000);
    assert_eq!(labels.get_opacity(Label::Sin), FLOOR);
}

#[test]
fn fade_in_ramp_is_linear_until_full() {
    let mut labels = Labels::new();
    spread_out(&mut labels);
    labels.set_position(Label::Sin, Point { x: 100_000_000, y: 0 });
    labels.set_position(Label::Tan, Point { x: 100_000_000, y: 5_000_000 });
    for _ in 0..4 {
        labels.update(100_000);
    }
    assert_eq!(labels.get_opacity(Label::Sin), FLOOR);
    // Separate them; the ramp climbs by the same step.
    spread_out(&mut labels);
    labels.set_position(Label::Sin, Point { x: 100_000_000, y: 0 });
    labels.update(100_000);
    assert_eq!(labels.get_opacity(Label::Sin), FLOOR + 333_333);
    labels.update(100_000);
    assert_eq!(labels.get_opacity(Label::Sin), FLOOR + 666_666);
    labels.update(100_000);
    assert_eq!(labels.get_opacity(Label::Sin), FP_ONE);
    labels.update(100_000);
    assert_eq!(labels.get_opacity(Label::Sin), FP_ONE);
}

#[test]
fn unwatched_labels_stay_fully_opaque() {
    let mut labels = Labels::new();
    // Everything piled at the origin: every possible overlap holds.
    for _ in 0..10 {
        labels.update(100_000);
    }
    assert_eq!(labels.get_opacity(Label::Tan), FP_ONE);
    assert_eq!(labels.get_opacity(Label::Cot), FP_ONE);
    assert_eq!(labels.get_opacity(Label::Sec), FP_ONE);
    assert_eq!(labels.get_opacity(Label::Csc), FP_ONE);
}

#[test]
fn zero_dt_holds_the_opacity() {
    let mut labels = Labels::new();
    spread_out(&mut labels);
    labels.set_position(Label::Sin, Point { x: 0, y: 0 });
    labels.set_position(Label::Csc, Point { x: 0, y: 0 });
    labels.update(0);
    assert_eq!(labels.get_opacity(Label::Sin), FP_ONE);
}

#[test]
fn positions_round_trip_through_the_fader() {
    let mut labels = Labels::new();
    labels.set_position(Label::Sec, Point { x: -42_000_000, y: 7_000_000 });
    let p = labels.get_position(Label::Sec);
    assert_eq!(p.x, -42_000_000);
    assert_eq!(p.y, 7_000_000);
}
