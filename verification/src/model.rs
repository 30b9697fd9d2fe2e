//! The scene orchestrator.
//!
//! Each frame, in fixed order: advance the angle, derive the six
//! trigonometric values (raw and radius-scaled), place every label at its
//! geometry-derived anchor, run the pointer hit test over the value
//! boxes, and let the fader re-evaluate overlaps and ramp opacities.
//! External input only flips toggles and nudges the rate and the radius.

use vstd::prelude::*;

verus! {

use crate::consts::{DEFAULT_RATE, RADIUS_INCREMENT, RATE_INCREMENT, UNIT_RADIUS};
use crate::fixed::{FP_MAX, FP_ONE, abs_val, fp_abs, fp_add_clamped, fp_clamped, fp_in_range,
    fp_mul, fp_mul_spec, fp_div_spec, fp_recip_spec, lemma_fp_mul_nonneg};
use crate::geometry::{Point, Rect};
use crate::labels::{Label, Labels, opacity_after, watched};
use crate::trig::{HALF_PI_FP, PI_FP, TAU_FP, TrigValues, compute_raw_trig, cos_fp, cos_spec,
    lemma_sin_period, sin_fp, sin_spec};

/// Where an invisible line parks its label, far outside the diagram.
pub const OFFSCREEN: i64 = 1_000_000_000;

/// The two color themes of the diagram.
#[derive(Clone, Copy, Debug, PartialEq, Eq, Structural)]
pub enum Theme {
    Dark,
    Light,
}

impl Theme {
    /// Swap dark for light and back.
    pub fn toggle_light_dark(&mut self)
        ensures
            *final(self) == (if *old(self) == Theme::Dark {
                Theme::Light
            } else {
                Theme::Dark
            }),
    {
        match self {
            Theme::Dark => {
                *self = Theme::Light;
            },
            Theme::Light => {
                *self = Theme::Dark;
            },
        }
    }

    pub fn is_dark(self) -> (r: bool)
        ensures
            r == (self == Theme::Dark),
    {
        matches!(self, Theme::Dark)
    }
}

impl Default for Theme {
    fn default() -> (r: Theme)
        ensures
            r == Theme::Dark,
    {
        Theme::Dark
    }
}

/// Which of the six trigonometric lines are drawn; an invisible line
/// parks its label far off screen.
#[derive(Clone, Copy, Debug, PartialEq, Eq, Structural)]
pub struct Visible {
    pub sin: bool,
    pub cos: bool,
    pub tan: bool,
    pub cot: bool,
    pub sec: bool,
    pub csc: bool,
}

impl Default for Visible {
    fn default() -> (r: Visible)
        ensures
            r == (Visible { sin: true, cos: true, tan: true, cot: true, sec: true, csc: true }),
    {
        Visible { sin: true, cos: true, tan: true, cot: true, sec: true, csc: true }
    }
}

/// Where the angle lands after one frame: hold while paused, otherwise
/// add `rate * dt`, subtract one full turn once past it, and cap at the
/// machine limit.
pub open spec fn theta_after(theta: int, rate: int, dt: int, running: bool) -> int {
    if !running {
        theta
    } else {
        let t = theta + fp_mul_spec(rate, dt);
        let w = if t >= TAU_FP as int {
            t - TAU_FP as int
        } else {
            t
        };
        if w > FP_MAX as int {
            FP_MAX as int
        } else {
            w
        }
    }
}

/// One frame cannot take the angle out of `[0, TAU_FP)` as long as its
/// increment stays under a full turn: the single subtraction wraps it
/// back.
pub proof fn lemma_theta_wraparound(theta: int, rate: int, dt: int)
    requires
        0 <= theta < TAU_FP as int,
        0 <= rate,
        0 <= dt,
        fp_mul_spec(rate, dt) < TAU_FP as int,
    ensures
        0 <= theta_after(theta, rate, dt, true) < TAU_FP as int,
        0 <= theta_after(theta, rate, dt, false) < TAU_FP as int,
{
    lemma_fp_mul_nonneg(rate, dt);
}

/// Half of a fixed-point value, as the label layout computes it.
pub open spec fn half_of(v: int) -> int {
    fp_mul_spec(v, 500_000)
}

/// Where one label's rectangle is anchored, from the current line
/// visibility, the raw and radius-scaled trigonometric values, the
/// radius and the angle.  The offsets are the diagram's visual tuning,
/// kept exactly as designed; an invisible line's label goes off screen.
pub open spec fn label_anchor(
    visible: Visible,
    raw: TrigValues,
    scaled: TrigValues,
    radius: int,
    theta: int,
    l: Label,
) -> (int, int) {
    match l {
        Label::Sin => if visible.sin {
            (fp_clamped(scaled.cos + 22_000_000), half_of(scaled.sin as int))
        } else {
            (OFFSCREEN as int, OFFSCREEN as int)
        },
        Label::Cos => if visible.cos {
            (half_of(scaled.cos as int), 15_000_000)
        } else {
            (OFFSCREEN as int, OFFSCREEN as int)
        },
        Label::Tan => if visible.tan {
            (fp_clamped(radius + 23_000_000), half_of(scaled.tan as int))
        } else {
            (OFFSCREEN as int, OFFSCREEN as int)
        },
        Label::Cot => if visible.cot {
            (
                fp_clamped(
                    half_of(scaled.cos as int) + (if theta >= PI_FP as int {
                        -fp_mul_spec(raw.cos as int, 20_000_000)
                    } else {
                        fp_mul_spec(raw.cos as int, 20_000_000)
                    }),
                ),
                fp_clamped(
                    fp_clamped(fp_mul_spec(scaled.sin + scaled.csc, 500_000) + 12_000_000)
                        + fp_mul_spec(abs_val(raw.sin as int), 8_000_000),
                ),
            )
        } else {
            (OFFSCREEN as int, OFFSCREEN as int)
        },
        Label::Sec => if visible.sec {
            (
                fp_clamped(
                    fp_clamped(half_of(radius) - fp_mul_spec(raw.tan as int, 5_000_000))
                        - fp_mul_spec(
                        (if raw.tan >= 0 {
                            abs_val(raw.sin as int)
                        } else {
                            -abs_val(raw.sin as int)
                        }),
                        10_000_000,
                    ),
                ),
                fp_clamped(half_of(scaled.tan as int) + 18_000_000),
            )
        } else {
            (OFFSCREEN as int, OFFSCREEN as int)
        },
        Label::Csc => if visible.csc {
            (-25_000_000, half_of(scaled.csc as int))
        } else {
            (OFFSCREEN as int, OFFSCREEN as int)
        },
        Label::Theta => (
            fp_mul_spec(fp_mul_spec(cos_spec(theta / 2), radius), 930_000),
            fp_mul_spec(fp_mul_spec(sin_spec(theta / 2), radius), 930_000),
        ),
        Label::Unit => (
            fp_clamped(
                half_of(scaled.cos as int) + fp_mul_spec(
                    cos_spec(theta - HALF_PI_FP as int),
                    15_000_000,
                ),
            ),
            fp_clamped(
                half_of(scaled.sin as int) + fp_mul_spec(
                    sin_spec(theta - HALF_PI_FP as int),
                    15_000_000,
                ),
            ),
        ),
    }
}

/// How many fractions of the angle the arc is sampled at: 128 per full
/// turn, rounded up so that any positive angle gets at least one.
pub open spec fn arc_point_count(theta: int) -> int {
    (128 * theta + (TAU_FP as int - 1)) / (TAU_FP as int)
}

/// The angle of the `i`-th arc sample: `i` equal steps toward `theta`.
pub open spec fn arc_angle(theta: int, i: int) -> int {
    theta * i / arc_point_count(theta)
}

/// The pointer position shifted into the readout's coordinate frame.
pub open spec fn shifted_point(p: Point) -> Point {
    Point { x: fp_clamped(p.x + 120_000_000) as i64, y: p.y }
}

/// The lowest index at or after `i` whose box contains the point.
pub open spec fn first_hit_from(rects: Seq<Rect>, p: Point, i: int) -> Option<int>
    decreases rects.len() - i,
    when 0 <= i <= rects.len()
{
    if i >= rects.len() {
        None
    } else if rects[i].contains_spec(p) {
        Some(i)
    } else {
        first_hit_from(rects, p, i + 1)
    }
}

/// The visibility set after a click that hit one readout box; the boxes
/// run bottom to top, so the lowest indices flip the last functions.
pub open spec fn toggle_visible(v: Visible, hit: Option<int>) -> Visible {
    match hit {
        Option::Some(i) => {
            if i == 5 {
                Visible { sin: !v.sin, ..v }
            } else if i == 4 {
                Visible { cos: !v.cos, ..v }
            } else if i == 3 {
                Visible { tan: !v.tan, ..v }
            } else if i == 2 {
                Visible { cot: !v.cot, ..v }
            } else if i == 1 {
                Visible { sec: !v.sec, ..v }
            } else if i == 0 {
                Visible { csc: !v.csc, ..v }
            } else {
                v
            }
        },
        Option::None => v,
    }
}

/// The fixed screen box of one row of the value readout, indexed from
/// the bottom; the fourth row is skipped to leave a gap.
pub open spec fn value_rect_spec(i: int) -> Rect {
    let row = if i < 3 {
        i
    } else {
        i + 1
    };
    Rect {
        cx: 390_000_000,
        cy: (row * 50_000_000 - 150_000_000) as i64,
        hw: 70_000_000,
        hh: 25_000_000,
    }
}

/// The animated diagram: the angle clock, the derived trigonometric
/// values, the display toggles and the label fader.
pub struct Model {
    /// The current angle, fixed-point radians in `[0, FP_MAX]`.
    pub theta: i64,
    /// The angular rate, fixed-point radians per second.
    pub rate: i64,
    /// The six values of `theta`, scaled by `FP_ONE`.
    pub trig_values: TrigValues,
    /// The six values of `theta`, scaled by the display radius.
    pub trig_values_scaled: TrigValues,
    /// Whether the clock advances.
    pub is_running: bool,
    /// Whether labels are drawn.
    pub draw_labels: bool,
    /// Whether the value readout is drawn.
    pub draw_values: bool,
    /// Whether the angle arc is drawn.
    pub draw_theta: bool,
    /// The color theme.
    pub theme: Theme,
    /// The display radius of the unit circle.
    pub radius: i64,
    /// Whether the primary button was already down last frame.
    pub mouse_state: bool,
    /// The six hit boxes of the value readout.
    pub value_rects: Vec<Rect>,
    /// Which trigonometric lines are drawn.
    pub visible: Visible,
    /// The label overlap and fade engine.
    pub labels: Labels,
}

impl Model {
    pub open spec fn wf(self) -> bool {
        &&& 0 <= self.theta <= FP_MAX
        &&& 0 <= self.rate <= FP_MAX
        &&& fp_in_range(self.radius as int)
        &&& self.trig_values.all_in_range()
        &&& self.trig_values_scaled.all_in_range()
        &&& self.labels.wf()
        &&& self.value_rects@.len() == 6
        &&& forall|i: int| 0 <= i < 6 ==> #[trigger] self.value_rects@[i] == value_rect_spec(i)
    }

    /// A fresh model: angle at zero, default rate and radius, everything
    /// running and visible, all labels opaque at the origin.
    pub fn new() -> (r: Model)
        ensures
            r.wf(),
            r.theta == 0,
            r.rate == DEFAULT_RATE,
            r.trig_values == (TrigValues { sin: 0, cos: 0, tan: 0, cot: 0, sec: 0, csc: 0 }),
            r.trig_values_scaled == r.trig_values,
            r.is_running,
            r.draw_labels,
            r.draw_values,
            r.draw_theta,
            r.theme == Theme::Dark,
            r.radius == UNIT_RADIUS,
            !r.mouse_state,
            r.visible == (Visible { sin: true, cos: true, tan: true, cot: true, sec: true, csc: true }),
            forall|l: Label|
                (#[trigger] r.labels.rec(l)).rect.cx == 0 && r.labels.rec(l).rect.cy == 0
                    && r.labels.rec(l).should_fade == false && r.labels.rec(l).opacity == FP_ONE,
    {
        let zero: TrigValues = TrigValues { sin: 0, cos: 0, tan: 0, cot: 0, sec: 0, csc: 0 };
        let mut value_rects: Vec<Rect> = Vec::new();
        let mut i: usize = 0;
        while i < 6
            invariant
                i <= 6,
                value_rects@.len() == i,
                forall|j: int| 0 <= j < i ==> #[trigger] value_rects@[j] == value_rect_spec(j),
            decreases 6 - i,
        {
            let row: i64 = if i < 3 {
                i as i64
            } else {
                i as i64 + 1
            };
            value_rects.push(
                Rect {
                    cx: 390_000_000,
                    cy: row * 50_000_000 - 150_000_000,
                    hw: 70_000_000,
                    hh: 25_000_000,
                },
            );
            i = i + 1;
        }
        Model {
            theta: 0,
            rate: DEFAULT_RATE,
            trig_values: zero,
            trig_values_scaled: zero,
            is_running: true,
            draw_labels: true,
            draw_values: true,
            draw_theta: true,
            theme: Theme::Dark,
            radius: UNIT_RADIUS,
            mouse_state: false,
            value_rects,
            visible: Visible::default(),
            labels: Labels::new(),
        }
    }

    /// Advance the angle by `rate * dt` while running, wrapping a full
    /// turn once crossed.
    pub fn update_theta(&mut self, delta_time: i64)
        requires
            old(self).wf(),
            0 <= delta_time <= FP_MAX,
        ensures
            final(self).wf(),
            final(self).theta == theta_after(
                old(self).theta as int,
                old(self).rate as int,
                delta_time as int,
                old(self).is_running,
            ),
            *final(self) == (Model { theta: final(self).theta, ..*old(self) }),
    {
        if !self.is_running {
            return ;
        }
        proof {
            lemma_fp_mul_nonneg(self.rate as int, delta_time as int);
        }
        let inc: i64 = fp_mul(self.rate, delta_time);
        let mut t: i64 = self.theta + inc;
        if t >= TAU_FP {
            t = t - TAU_FP;
        }
        if t > FP_MAX {
            t = FP_MAX;
        }
        self.theta = t;
    }

    /// Derive the six raw trigonometric values from the angle, scale
    /// them by the radius, and clamp both copies into the finite range.
    pub fn compute_trig_values(&mut self)
        requires
            old(self).wf(),
        ensures
            final(self).wf(),
            final(self).trig_values.sin == sin_spec(old(self).theta as int),
            final(self).trig_values.cos == cos_spec(old(self).theta as int),
            final(self).trig_values.tan == fp_div_spec(
                final(self).trig_values.sin as int,
                final(self).trig_values.cos as int,
            ),
            final(self).trig_values.cot == fp_recip_spec(final(self).trig_values.tan as int),
            final(self).trig_values.sec == fp_recip_spec(final(self).trig_values.cos as int),
            final(self).trig_values.csc == fp_recip_spec(final(self).trig_values.sin as int),
            final(self).trig_values_scaled.sin == fp_mul_spec(
                final(self).trig_values.sin as int,
                old(self).radius as int,
            ),
            final(self).trig_values_scaled.cos == fp_mul_spec(
                final(self).trig_values.cos as int,
                old(self).radius as int,
            ),
            final(self).trig_values_scaled.tan == fp_mul_spec(
                final(self).trig_values.tan as int,
                old(self).radius as int,
            ),
            final(self).trig_values_scaled.cot == fp_mul_spec(
                final(self).trig_values.cot as int,
                old(self).radius as int,
            ),
            final(self).trig_values_scaled.sec == fp_mul_spec(
                final(self).trig_values.sec as int,
                old(self).radius as int,
            ),
            final(self).trig_values_scaled.csc == fp_mul_spec(
                final(self).trig_values.csc as int,
                old(self).radius as int,
            ),
            *final(self) == (Model {
                trig_values: final(self).trig_values,
                trig_values_scaled: final(self).trig_values_scaled,
                ..*old(self)
            }),
    {
        let raw: TrigValues = compute_raw_trig(self.theta);
        let scaled: TrigValues = raw.mul(self.radius);
        self.trig_values = raw;
        self.trig_values_scaled = scaled;
        // Both copies are clamped; the arithmetic above already lands in
        // the finite range, so this leaves the values unchanged.
        self.trig_values.clamp_inf();
        self.trig_values_scaled.clamp_inf();
    }

    /// Anchor every label at its geometry-derived position for this
    /// frame.  Labels of invisible lines go off screen; the angle and
    /// unit labels ride the arc and the radius line.
    pub fn update_label_positions(&mut self)
        requires
            old(self).wf(),
        ensures
            final(self).wf(),
            forall|l: Label|
                (#[trigger] final(self).labels.rec(l)).rect.cx == label_anchor(
                    old(self).visible,
                    old(self).trig_values,
                    old(self).trig_values_scaled,
                    old(self).radius as int,
                    old(self).theta as int,
                    l,
                ).0 && final(self).labels.rec(l).rect.cy == label_anchor(
                    old(self).visible,
                    old(self).trig_values,
                    old(self).trig_values_scaled,
                    old(self).radius as int,
                    old(self).theta as int,
                    l,
                ).1,
            forall|l: Label|
                (#[trigger] final(self).labels.rec(l)).rect.hw == old(self).labels.rec(l).rect.hw
                    && final(self).labels.rec(l).rect.hh == old(self).labels.rec(l).rect.hh
                    && final(self).labels.rec(l).should_fade == old(self).labels.rec(
                    l,
                ).should_fade && final(self).labels.rec(l).opacity == old(self).labels.rec(
                    l,
                ).opacity,
            final(self).labels.fade_out_secs == old(self).labels.fade_out_secs,
            final(self).labels.fade_in_secs == old(self).labels.fade_in_secs,
            final(self).labels.fade_intensity == old(self).labels.fade_intensity,
            *final(self) == (Model { labels: final(self).labels, ..*old(self) }),
    {
        let off: Point = Point { x: OFFSCREEN, y: OFFSCREEN };

        // sin
        let p_sin: Point = if self.visible.sin {
            Point {
                x: fp_add_clamped(self.trig_values_scaled.cos, 22_000_000),
                y: fp_mul(self.trig_values_scaled.sin, 500_000),
            }
        } else {
            off
        };
        self.labels.set_position(Label::Sin, p_sin);

        // cos
        let p_cos: Point = if self.visible.cos {
            Point { x: fp_mul(self.trig_values_scaled.cos, 500_000), y: 15_000_000 }
        } else {
            off
        };
        self.labels.set_position(Label::Cos, p_cos);

        // tan
        let p_tan: Point = if self.visible.tan {
            Point {
                x: fp_add_clamped(self.radius, 23_000_000),
                y: fp_mul(self.trig_values_scaled.tan, 500_000),
            }
        } else {
            off
        };
        self.labels.set_position(Label::Tan, p_tan);

        // cot: nudged along the bisector between the sine and cosecant
        // segment endpoints.
        let p_cot: Point = if self.visible.cot {
            let swing: i64 = fp_mul(self.trig_values.cos, 20_000_000);
            let x: i64 = fp_add_clamped(
                fp_mul(self.trig_values_scaled.cos, 500_000),
                if self.theta >= PI_FP {
                    -swing
                } else {
                    swing
                },
            );
            let mid: i64 = fp_mul(
                self.trig_values_scaled.sin + self.trig_values_scaled.csc,
                500_000,
            );
            let lift: i64 = fp_mul(fp_abs(self.trig_values.sin), 8_000_000);
            let y: i64 = fp_add_clamped(fp_add_clamped(mid, 12_000_000), lift);
            Point { x, y }
        } else {
            off
        };
        self.labels.set_position(Label::Cot, p_cot);

        // sec: signed offset by tangent and sine keeps it beside its line.
        let p_sec: Point = if self.visible.sec {
            let tan_off: i64 = fp_mul(self.trig_values.tan, 5_000_000);
            let swing: i64 = fp_abs(self.trig_values.sin);
            let signed_swing: i64 = if self.trig_values.tan >= 0 {
                swing
            } else {
                -swing
            };
            let x: i64 = fp_add_clamped(
                fp_add_clamped(fp_mul(self.radius, 500_000), -tan_off),
                -fp_mul(signed_swing, 10_000_000),
            );
            let y: i64 = fp_add_clamped(fp_mul(self.trig_values_scaled.tan, 500_000), 18_000_000);
            Point { x, y }
        } else {
            off
        };
        self.labels.set_position(Label::Sec, p_sec);

        // csc
        let p_csc: Point = if self.visible.csc {
            Point { x: -25_000_000, y: fp_mul(self.trig_values_scaled.csc, 500_000) }
        } else {
            off
        };
        self.labels.set_position(Label::Csc, p_csc);

        // theta: just inside the arc, at half the current angle.
        let half_theta: i64 = ((self.theta as u64) / 2) as i64;
        let th_x: i64 = cos_fp(half_theta);
        let th_y: i64 = sin_fp(half_theta);
        let p_theta: Point = Point {
            x: fp_mul(fp_mul(th_x, self.radius), 930_000),
            y: fp_mul(fp_mul(th_y, self.radius), 930_000),
        };
        self.labels.set_position(Label::Theta, p_theta);

        // unit: beside the midpoint of the radius line, offset a quarter
        // turn behind the angle.
        let un_arg: i64 = if self.theta >= HALF_PI_FP {
            self.theta - HALF_PI_FP
        } else {
            self.theta - HALF_PI_FP + TAU_FP
        };
        proof {
            if old(self).theta < HALF_PI_FP {
                lemma_sin_period(old(self).theta - HALF_PI_FP as int);
                lemma_sin_period(old(self).theta as int);
            }
        }
        let un_x: i64 = cos_fp(un_arg);
        let un_y: i64 = sin_fp(un_arg);
        let p_unit: Point = Point {
            x: fp_add_clamped(
                fp_mul(self.trig_values_scaled.cos, 500_000),
                fp_mul(un_x, 15_000_000),
            ),
            y: fp_add_clamped(
                fp_mul(self.trig_values_scaled.sin, 500_000),
                fp_mul(un_y, 15_000_000),
            ),
        };
        self.labels.set_position(Label::Unit, p_unit);
    }

    /// Edge-triggered hit test of the pointer against the value readout
    /// boxes: a fresh press over a box toggles that line's visibility;
    /// holding the button does nothing more until it is released.
    pub fn update_value_rects(&mut self, mouse_pos: Point, mouse_down: bool)
        requires
            old(self).wf(),
            mouse_pos.wf(),
        ensures
            final(self).wf(),
            *final(self) == (Model {
                mouse_state: final(self).mouse_state,
                visible: final(self).visible,
                ..*old(self)
            }),
            mouse_down && old(self).mouse_state ==> final(self).mouse_state == old(
                self,
            ).mouse_state && final(self).visible == old(self).visible,
            !mouse_down ==> final(self).mouse_state == false && final(self).visible == old(
                self,
            ).visible,
            mouse_down && !old(self).mouse_state ==> final(self).mouse_state == true
                && final(self).visible == toggle_visible(
                old(self).visible,
                first_hit_from(old(self).value_rects@, shifted_point(mouse_pos), 0),
            ),
    {
        // The readout is drawn translated; shift the pointer to match.
        let sp: Point = Point { x: fp_add_clamped(mouse_pos.x, 120_000_000), y: mouse_pos.y };
        if mouse_down && self.mouse_state {
            return ;
        }
        if !mouse_down {
            self.mouse_state = false;
            return ;
        }
        let ghost rects: Seq<Rect> = self.value_rects@;
        let mut idx: usize = 0;
        let mut found: bool = false;
        let mut hit_i: usize = 0;
        while idx < 6
            invariant
                old(self).wf(),
                *self == *old(self),
                rects == self.value_rects@,
                sp == shifted_point(mouse_pos),
                sp.wf(),
                idx <= 6,
                hit_i < 6,
                found ==> first_hit_from(rects, sp, 0) == Some(hit_i as int),
                !found ==> first_hit_from(rects, sp, 0) == first_hit_from(rects, sp, idx as int),
            decreases 6 - idx,
        {
            if !found {
                let r: Rect = self.value_rects[idx];
                proof {
                    assert(r == value_rect_spec(idx as int));
                }
                if r.contains(sp) {
                    found = true;
                    hit_i = idx;
                }
            }
            idx = idx + 1;
        }
        if found {
            if hit_i == 5 {
                self.visible.sin = !self.visible.sin;
            } else if hit_i == 4 {
                self.visible.cos = !self.visible.cos;
            } else if hit_i == 3 {
                self.visible.tan = !self.visible.tan;
            } else if hit_i == 2 {
                self.visible.cot = !self.visible.cot;
            } else if hit_i == 1 {
                self.visible.sec = !self.visible.sec;
            } else {
                self.visible.csc = !self.visible.csc;
            }
        }
        self.mouse_state = true;
    }

    /// One frame: advance the angle, derive the trigonometric values,
    /// anchor the labels, run the pointer hit test, and let the fader
    /// evaluate overlaps and ramp opacities — in that fixed order.
    pub fn update(&mut self, delta_time: i64, mouse_pos: Point, mouse_down: bool)
        requires
            old(self).wf(),
            0 <= delta_time <= FP_MAX,
            mouse_pos.wf(),
        ensures
            final(self).wf(),
            final(self).theta == theta_after(
                old(self).theta as int,
                old(self).rate as int,
                delta_time as int,
                old(self).is_running,
            ),
            final(self).trig_values.sin == sin_spec(final(self).theta as int),
            final(self).trig_values.cos == cos_spec(final(self).theta as int),
            final(self).trig_values.tan == fp_div_spec(
                final(self).trig_values.sin as int,
                final(self).trig_values.cos as int,
            ),
            final(self).trig_values.cot == fp_recip_spec(final(self).trig_values.tan as int),
            final(self).trig_values.sec == fp_recip_spec(final(self).trig_values.cos as int),
            final(self).trig_values.csc == fp_recip_spec(final(self).trig_values.sin as int),
            final(self).trig_values_scaled.sin == fp_mul_spec(
                final(self).trig_values.sin as int,
                old(self).radius as int,
            ),
            final(self).trig_values_scaled.cos == fp_mul_spec(
                final(self).trig_values.cos as int,
                old(self).radius as int,
            ),
            final(self).trig_values_scaled.tan == fp_mul_spec(
                final(self).trig_values.tan as int,
                old(self).radius as int,
            ),
            final(self).trig_values_scaled.cot == fp_mul_spec(
                final(self).trig_values.cot as int,
                old(self).radius as int,
            ),
            final(self).trig_values_scaled.sec == fp_mul_spec(
                final(self).trig_values.sec as int,
                old(self).radius as int,
            ),
            final(self).trig_values_scaled.csc == fp_mul_spec(
                final(self).trig_values.csc as int,
                old(self).radius as int,
            ),
            forall|l: Label|
                (#[trigger] final(self).labels.rec(l)).rect.cx == label_anchor(
                    old(self).visible,
                    final(self).trig_values,
                    final(self).trig_values_scaled,
                    old(self).radius as int,
                    final(self).theta as int,
                    l,
                ).0 && final(self).labels.rec(l).rect.cy == label_anchor(
                    old(self).visible,
                    final(self).trig_values,
                    final(self).trig_values_scaled,
                    old(self).radius as int,
                    final(self).theta as int,
                    l,
                ).1,
            forall|l: Label|
                (#[trigger] final(self).labels.rec(l)).should_fade == (watched(l)
                    && final(self).labels.overlap_trigger(l)),
            forall|l: Label|
                watched(l) ==> (#[trigger] final(self).labels.rec(l)).opacity == opacity_after(
                    old(self).labels.rec(l).opacity as int,
                    final(self).labels.overlap_trigger(l),
                    old(self).labels.fade_out_secs as int,
                    old(self).labels.fade_in_secs as int,
                    old(self).labels.fade_intensity as int,
                    delta_time as int,
                ),
            forall|l: Label|
                !watched(l) ==> (#[trigger] final(self).labels.rec(l)).opacity == old(
                    self,
                ).labels.rec(l).opacity,
            mouse_down && old(self).mouse_state ==> final(self).mouse_state == old(
                self,
            ).mouse_state && final(self).visible == old(self).visible,
            !mouse_down ==> final(self).mouse_state == false && final(self).visible == old(
                self,
            ).visible,
            mouse_down && !old(self).mouse_state ==> final(self).mouse_state == true
                && final(self).visible == toggle_visible(
                old(self).visible,
                first_hit_from(old(self).value_rects@, shifted_point(mouse_pos), 0),
            ),
            final(self).rate == old(self).rate,
            final(self).is_running == old(self).is_running,
            final(self).draw_labels == old(self).draw_labels,
            final(self).draw_values == old(self).draw_values,
            final(self).draw_theta == old(self).draw_theta,
            final(self).theme == old(self).theme,
            final(self).radius == old(self).radius,
            final(self).value_rects@ == old(self).value_rects@,
    {
        self.update_theta(delta_time);
        self.compute_trig_values();
        self.update_label_positions();
        let ghost placed: Labels = self.labels;
        self.update_value_rects(mouse_pos, mouse_down);
        self.labels.update(delta_time);
        proof {
            assert forall|l: Label|
                #[trigger] self.labels.overlap_trigger(l) == placed.overlap_trigger(l) by {
                crate::labels::lemma_trigger_depends_on_rects(placed, self.labels, l);
            };
        }
    }

    /// The sample points of the angle arc, from zero around to the
    /// current angle: one point per sampled fraction of the angle, on
    /// the circle of the current radius.  An angle of zero yields no
    /// points at all, so a renderer draws nothing rather than a
    /// degenerate line.
    pub fn theta_arc_points(&self) -> (r: Vec<Point>)
        requires
            self.wf(),
        ensures
            r@.len() == (if arc_point_count(self.theta as int) == 0 {
                0int
            } else {
                arc_point_count(self.theta as int) + 1
            }),
            forall|i: int|
                0 <= i < r@.len() ==> (#[trigger] r@[i]).x == fp_mul_spec(
                    cos_spec(arc_angle(self.theta as int, i)),
                    self.radius as int,
                ) && r@[i].y == fp_mul_spec(
                    sin_spec(arc_angle(self.theta as int, i)),
                    self.radius as int,
                ),
    {
        let mut points: Vec<Point> = Vec::new();
        let num_wide: u128 = (128u128 * (self.theta as u128) + (TAU_FP as u128 - 1))
            / (TAU_FP as u128);
        proof {
            assert(num_wide <= 0x7fff_ffff) by (nonlinear_arith)
                requires
                    num_wide == (128 * (self.theta as int) + (TAU_FP as int - 1)) / (
                    TAU_FP as int),
                    0 <= self.theta <= FP_MAX as int,
                    TAU_FP == 6_283_184i64,
            ;
        }
        let num: usize = num_wide as usize;
        if num == 0 {
            return points;
        }
        let mut i: usize = 0;
        while i <= num
            invariant
                self.wf(),
                1 <= num <= 0x7fff_ffff,
                num == arc_point_count(self.theta as int),
                i <= num + 1,
                points@.len() == i,
                forall|j: int|
                    0 <= j < i ==> (#[trigger] points@[j]).x == fp_mul_spec(
                        cos_spec(arc_angle(self.theta as int, j)),
                        self.radius as int,
                    ) && points@[j].y == fp_mul_spec(
                        sin_spec(arc_angle(self.theta as int, j)),
                        self.radius as int,
                    ),
            decreases num + 1 - i,
        {
            proof {
                assert((self.theta as int) * (i as int) <= (FP_MAX as int) * 0x8000_0000)
                    by (nonlinear_arith)
                    requires
                        0 <= self.theta <= FP_MAX as int,
                        0 <= i <= 0x8000_0000,
                ;
                assert(0 <= (self.theta as int) * (i as int)) by (nonlinear_arith)
                    requires
                        0 <= self.theta,
                        0 <= i,
                ;
            }
            let angle_wide: u128 = ((self.theta as u128) * (i as u128)) / (num as u128);
            proof {
                vstd::arithmetic::div_mod::lemma_div_pos_is_pos(
                    (self.theta as int) * (i as int),
                    num as int,
                );
                assert((self.theta as int) * (i as int) <= (self.theta as int) * (
                num as int)) by (nonlinear_arith)
                    requires
                        0 <= self.theta,
                        i <= num,
                ;
                vstd::arithmetic::div_mod::lemma_div_is_ordered(
                    (self.theta as int) * (i as int),
                    (self.theta as int) * (num as int),
                    num as int,
                );
                vstd::arithmetic::div_mod::lemma_div_multiples_vanish(
                    self.theta as int,
                    num as int,
                );
            }
            let angle: i64 = angle_wide as i64;
            let x: i64 = fp_mul(cos_fp(angle), self.radius);
            let y: i64 = fp_mul(sin_fp(angle), self.radius);
            points.push(Point { x, y });
            i = i + 1;
        }
        points
    }

    // Setting methods

    /// Raise the rate by one step, up to the machine limit.
    pub fn increment_rate(&mut self)
        requires
            old(self).wf(),
        ensures
            final(self).wf(),
            final(self).rate == fp_clamped(old(self).rate + RATE_INCREMENT),
            *final(self) == (Model { rate: final(self).rate, ..*old(self) }),
    {
        self.rate = fp_add_clamped(self.rate, RATE_INCREMENT);
    }

    /// Lower the rate by one step, with a floor at zero.
    pub fn decrement_rate(&mut self)
        requires
            old(self).wf(),
        ensures
            final(self).wf(),
            final(self).rate == (if old(self).rate - RATE_INCREMENT >= 0 {
                old(self).rate - RATE_INCREMENT
            } else {
                0
            }),
            *final(self) == (Model { rate: final(self).rate, ..*old(self) }),
    {
        if self.rate >= RATE_INCREMENT {
            self.rate = self.rate - RATE_INCREMENT;
        } else {
            self.rate = 0;
        }
    }

    pub fn toggle_running(&mut self)
        requires
            old(self).wf(),
        ensures
            final(self).wf(),
            final(self).is_running == !old(self).is_running,
            *final(self) == (Model { is_running: final(self).is_running, ..*old(self) }),
    {
        self.is_running = !self.is_running;
    }

    pub fn toggle_labels(&mut self)
        requires
            old(self).wf(),
        ensures
            final(self).wf(),
            final(self).draw_labels == !old(self).draw_labels,
            *final(self) == (Model { draw_labels: final(self).draw_labels, ..*old(self) }),
    {
        self.draw_labels = !self.draw_labels;
    }

    pub fn toggle_values(&mut self)
        requires
            old(self).wf(),
        ensures
            final(self).wf(),
            final(self).draw_values == !old(self).draw_values,
            *final(self) == (Model { draw_values: final(self).draw_values, ..*old(self) }),
    {
        self.draw_values = !self.draw_values;
    }

    pub fn toggle_theta(&mut self)
        requires
            old(self).wf(),
        ensures
            final(self).wf(),
            final(self).draw_theta == !old(self).draw_theta,
            *final(self) == (Model { draw_theta: final(self).draw_theta, ..*old(self) }),
    {
        self.draw_theta = !self.draw_theta;
    }

    pub fn reset_theta(&mut self)
        requires
            old(self).wf(),
        ensures
            final(self).wf(),
            final(self).theta == 0,
            *final(self) == (Model { theta: 0, ..*old(self) }),
    {
        self.theta = 0;
    }

    pub fn reset_rate(&mut self)
        requires
            old(self).wf(),
        ensures
            final(self).wf(),
            final(self).rate == DEFAULT_RATE,
            *final(self) == (Model { rate: DEFAULT_RATE, ..*old(self) }),
    {
        self.rate = DEFAULT_RATE;
    }

    /// Widen the circle by one step, up to the machine limit.
    pub fn increase_scale(&mut self)
        requires
            old(self).wf(),
        ensures
            final(self).wf(),
            final(self).radius == fp_clamped(old(self).radius + RADIUS_INCREMENT),
            *final(self) == (Model { radius: final(self).radius, ..*old(self) }),
    {
        self.radius = fp_add_clamped(self.radius, RADIUS_INCREMENT);
    }

    /// Narrow the circle by one step.  The radius has no floor: it may
    /// cross zero and go negative, mirroring the diagram.
    pub fn decrease_scale(&mut self)
        requires
            old(self).wf(),
        ensures
            final(self).wf(),
            final(self).radius == fp_clamped(old(self).radius - RADIUS_INCREMENT),
            *final(self) == (Model { radius: final(self).radius, ..*old(self) }),
    {
        self.radius = fp_add_clamped(self.radius, -RADIUS_INCREMENT);
    }

    pub fn reset_scale(&mut self)
        requires
            old(self).wf(),
        ensures
            final(self).wf(),
            final(self).radius == UNIT_RADIUS,
            *final(self) == (Model { radius: UNIT_RADIUS, ..*old(self) }),
    {
        self.radius = UNIT_RADIUS;
    }

    pub fn toggle_theme(&mut self)
        requires
            old(self).wf(),
        ensures
            final(self).wf(),
            final(self).theme == (if old(self).theme == Theme::Dark {
                Theme::Light
            } else {
                Theme::Dark
            }),
            *final(self) == (Model { theme: final(self).theme, ..*old(self) }),
    {
        self.theme.toggle_light_dark();
    }
}

} // verus!
