//! The label overlap and fade engine.
//!
//! Eight labels each own one rectangle.  Four of them — sine, cosine, the
//! angle arc and the unit radius — are *watched*: every frame their
//! rectangles are tested against the labels their fixed fade-trigger
//! relation names, and their opacity ramps linearly toward a faded or a
//! full value.  The remaining labels never fade; their rectangles only
//! serve as overlap targets.

use vstd::prelude::*;

verus! {

use crate::consts::{FADE_INTENSITY, FADE_TIME_SECS};
use crate::fixed::{FP_MAX, FP_ONE, clamp_spec, clamp_to, fp_mul, fp_mul_spec, fp_recip,
    fp_recip_spec};
use crate::geometry::{Point, Rect};

/// Full width and height of every label's bounding box.
pub const LABEL_BOUNDS_W: i64 = 30_000_000;

pub const LABEL_BOUNDS_H: i64 = 25_000_000;

/// The fixed size every label rectangle is given.
pub fn label_bounds() -> (r: (i64, i64))
    ensures
        r.0 == LABEL_BOUNDS_W,
        r.1 == LABEL_BOUNDS_H,
{
    (LABEL_BOUNDS_W, LABEL_BOUNDS_H)
}

/// The identity of one label of the diagram.
#[derive(Clone, Copy, Debug, PartialEq, Eq, Structural)]
pub enum Label {
    Sin,
    Cos,
    Tan,
    Cot,
    Sec,
    Csc,
    Theta,
    Unit,
}

/// The fixed, asymmetric fade-trigger relation: `fade_relation(l, o)`
/// holds when an overlap with `o`'s rectangle makes `l` fade.
pub open spec fn fade_relation(l: Label, o: Label) -> bool {
    match l {
        Label::Sin => o == Label::Tan || o == Label::Csc,
        Label::Cos => o == Label::Sec,
        Label::Theta => o == Label::Sin,
        Label::Unit => o == Label::Cos || o == Label::Sin || o == Label::Csc,
        Label::Tan | Label::Cot | Label::Sec | Label::Csc => false,
    }
}

/// A label is watched when the fader animates its opacity.
pub open spec fn watched(l: Label) -> bool {
    l == Label::Sin || l == Label::Cos || l == Label::Theta || l == Label::Unit
}

/// Each label's position in the record table.
pub open spec fn label_index(l: Label) -> int {
    match l {
        Label::Sin => 0,
        Label::Cos => 1,
        Label::Tan => 2,
        Label::Cot => 3,
        Label::Sec => 4,
        Label::Csc => 5,
        Label::Theta => 6,
        Label::Unit => 7,
    }
}

/// The label at one position of the record table.
pub open spec fn label_at(i: int) -> Label {
    if i == 0 {
        Label::Sin
    } else if i == 1 {
        Label::Cos
    } else if i == 2 {
        Label::Tan
    } else if i == 3 {
        Label::Cot
    } else if i == 4 {
        Label::Sec
    } else if i == 5 {
        Label::Csc
    } else if i == 6 {
        Label::Theta
    } else {
        Label::Unit
    }
}

/// The table position and the label identity determine one another.
pub proof fn lemma_label_table()
    ensures
        forall|l: Label| label_at(label_index(l)) == l,
        forall|i: int| 0 <= i < 8 ==> label_index(#[trigger] label_at(i)) == i,
        forall|l: Label| 0 <= #[trigger] label_index(l) < 8,
{
}

impl Label {
    /// Whether an overlap with `other`'s rectangle makes this label fade.
    pub fn should_fade(self, other: Self) -> (r: bool)
        ensures
            r == fade_relation(self, other),
    {
        match self {
            Self::Sin => matches!(other, Self::Tan | Self::Csc),
            Self::Cos => matches!(other, Self::Sec),
            Self::Theta => matches!(other, Self::Sin),
            Self::Unit => matches!(other, Self::Cos | Self::Sin | Self::Csc),
            Self::Tan | Self::Cot | Self::Sec | Self::Csc => false,
        }
    }

    /// Whether the fader animates this label's opacity.
    pub fn is_watched(self) -> (r: bool)
        ensures
            r == watched(self),
    {
        matches!(self, Self::Sin | Self::Cos | Self::Theta | Self::Unit)
    }

    /// This label's position in the record table.
    pub fn index_of(self) -> (r: usize)
        ensures
            r == label_index(self),
    {
        match self {
            Self::Sin => 0,
            Self::Cos => 1,
            Self::Tan => 2,
            Self::Cot => 3,
            Self::Sec => 4,
            Self::Csc => 5,
            Self::Theta => 6,
            Self::Unit => 7,
        }
    }

    /// The label at one position of the record table.
    pub fn at_index(i: usize) -> (r: Label)
        requires
            i < 8,
        ensures
            r == label_at(i as int),
    {
        if i == 0 {
            Self::Sin
        } else if i == 1 {
            Self::Cos
        } else if i == 2 {
            Self::Tan
        } else if i == 3 {
            Self::Cot
        } else if i == 4 {
            Self::Sec
        } else if i == 5 {
            Self::Csc
        } else if i == 6 {
            Self::Theta
        } else {
            Self::Unit
        }
    }
}

/// The per-frame state of one label.
#[derive(Clone, Copy, Debug, PartialEq, Eq, Structural)]
pub struct LabelRecord {
    /// The bounding box used for overlap tests.
    pub rect: Rect,
    /// Whether the latest evaluation found a qualifying overlap.
    pub should_fade: bool,
    /// The animated opacity, between the fade floor and `FP_ONE`.
    pub opacity: i64,
}

/// The label overlap and fade engine: one record per label, plus the fade
/// timing parameters.
pub struct Labels {
    /// One record per label, indexed by `label_index`.
    pub records: Vec<LabelRecord>,
    /// Seconds a continuous overlap takes to fade a label fully out.
    pub fade_out_secs: i64,
    /// Seconds a continuous non-overlap takes to fade a label fully back in.
    pub fade_in_secs: i64,
    /// How much of the full opacity a fade takes away.
    pub fade_intensity: i64,
}

impl Labels {
    /// The record of one label.
    pub open spec fn rec(self, l: Label) -> LabelRecord {
        self.records@[label_index(l)]
    }

    /// The lowest opacity a fade may reach.
    pub open spec fn opacity_floor(self) -> int {
        FP_ONE - self.fade_intensity
    }

    pub open spec fn wf(self) -> bool {
        &&& self.records@.len() == 8
        &&& 0 < self.fade_out_secs <= FP_MAX
        &&& 0 < self.fade_in_secs <= FP_MAX
        &&& 0 <= self.fade_intensity <= FP_ONE
        &&& forall|l: Label| (#[trigger] self.rec(l)).rect.wf()
        &&& forall|l: Label| self.opacity_floor() <= (#[trigger] self.rec(l)).opacity <= FP_ONE
        &&& forall|l: Label|
            !watched(l) ==> (#[trigger] self.rec(l)).should_fade == false && self.rec(l).opacity
                == FP_ONE
    }

    /// Whether label `l` currently overlaps some label its fade-trigger
    /// relation names.
    pub open spec fn overlap_trigger(self, l: Label) -> bool {
        exists|o: Label|
            o != l && fade_relation(l, o) && self.rec(l).rect.overlaps_spec(
                (#[trigger] self.rec(o)).rect,
            )
    }

    /// A fresh fader: every rectangle sits at the origin with the fixed
    /// label bounds, nothing fades, everything is fully opaque.
    pub fn new() -> (r: Labels)
        ensures
            r.wf(),
            forall|l: Label| (#[trigger] r.rec(l)).rect.cx == 0 && r.rec(l).rect.cy == 0,
            forall|l: Label|
                (#[trigger] r.rec(l)).rect.hw == LABEL_BOUNDS_W as int / 2 && r.rec(l).rect.hh
                    == LABEL_BOUNDS_H as int / 2,
            forall|l: Label|
                (#[trigger] r.rec(l)).should_fade == false && r.rec(l).opacity == FP_ONE,
            r.fade_out_secs == FADE_TIME_SECS,
            r.fade_in_secs == FADE_TIME_SECS,
            r.fade_intensity == FADE_INTENSITY,
    {
        let (w, h): (i64, i64) = label_bounds();
        let base: LabelRecord = LabelRecord {
            rect: Rect::from_center(Point { x: 0, y: 0 }, w, h),
            should_fade: false,
            opacity: FP_ONE,
        };
        let mut records: Vec<LabelRecord> = Vec::new();
        records.push(base);
        records.push(base);
        records.push(base);
        records.push(base);
        records.push(base);
        records.push(base);
        records.push(base);
        records.push(base);
        let r = Labels {
            records,
            fade_out_secs: FADE_TIME_SECS,
            fade_in_secs: FADE_TIME_SECS,
            fade_intensity: FADE_INTENSITY,
        };
        proof {
            lemma_label_table();
            assert(forall|l: Label| 0 <= #[trigger] label_index(l) < 8);
        }
        r
    }

    /// Move one label's rectangle to a new center, keeping its extent.
    pub fn set_position(&mut self, label: Label, p: Point)
        requires
            old(self).wf(),
            p.wf(),
        ensures
            final(self).wf(),
            final(self).rec(label).rect.cx == p.x,
            final(self).rec(label).rect.cy == p.y,
            final(self).rec(label).rect.hw == old(self).rec(label).rect.hw,
            final(self).rec(label).rect.hh == old(self).rec(label).rect.hh,
            final(self).rec(label).should_fade == old(self).rec(label).should_fade,
            final(self).rec(label).opacity == old(self).rec(label).opacity,
            forall|l: Label| l != label ==> #[trigger] final(self).rec(l) == old(self).rec(l),
            final(self).fade_out_secs == old(self).fade_out_secs,
            final(self).fade_in_secs == old(self).fade_in_secs,
            final(self).fade_intensity == old(self).fade_intensity,
    {
        proof {
            lemma_label_table();
        }
        let i: usize = label.index_of();
        let mut r: LabelRecord = self.records[i];
        r.rect.cx = p.x;
        r.rect.cy = p.y;
        self.records[i] = r;
        proof {
            assert(self.records@ == old(self).records@.update(label_index(label), r));
            assert(old(self).rec(label).rect.wf());
            assert(old(self).opacity_floor() <= old(self).rec(label).opacity <= FP_ONE);
            assert forall|l: Label| l != label implies #[trigger] self.rec(l) == old(self).rec(
                l,
            ) by {
                assert(label_at(label_index(l)) == l);
                assert(label_at(label_index(label)) == label);
            };
            assert(self.rec(label).rect.wf());
        }
    }

    /// The current center of one label's rectangle.  The label set is a
    /// closed enumeration and every label always has a record, so the
    /// lookup is total: a malformed table cannot be built.
    pub fn get_position(&self, label: Label) -> (r: Point)
        requires
            self.wf(),
        ensures
            r.x == self.rec(label).rect.cx,
            r.y == self.rec(label).rect.cy,
    {
        let i: usize = label.index_of();
        let rec: LabelRecord = self.records[i];
        Point { x: rec.rect.cx, y: rec.rect.cy }
    }

    /// The current opacity of one label; an unwatched label is always
    /// fully opaque.
    pub fn get_opacity(&self, label: Label) -> (r: i64)
        requires
            self.wf(),
        ensures
            r == self.rec(label).opacity,
            !watched(label) ==> r == FP_ONE,
    {
        let i: usize = label.index_of();
        self.records[i].opacity
    }

    /// Whether the latest evaluation asked this label to fade.
    pub fn get_should_fade(&self, label: Label) -> (r: bool)
        requires
            self.wf(),
        ensures
            r == self.rec(label).should_fade,
    {
        let i: usize = label.index_of();
        self.records[i].should_fade
    }

    /// First pass of the evaluation: compute every label's fade flag
    /// against the current, unmutated rectangles.
    fn compute_fade_flags(&self) -> (flags: Vec<bool>)
        requires
            self.wf(),
        ensures
            flags@.len() == 8,
            forall|j: int|
                0 <= j < 8 ==> flags@[j] == (watched(label_at(j)) && self.overlap_trigger(
                    label_at(j),
                )),
    {
        proof {
            lemma_label_table();
        }
        let mut flags: Vec<bool> = Vec::new();
        let mut i: usize = 0;
        while i < 8
            invariant
                self.wf(),
                i <= 8,
                flags@.len() == i,
                forall|j: int|
                    0 <= j < i ==> flags@[j] == (watched(label_at(j)) && self.overlap_trigger(
                        label_at(j),
                    )),
            decreases 8 - i,
        {
            let l: Label = Label::at_index(i);
            let f: bool = if l.is_watched() {
                self.scan_for_overlap(l)
            } else {
                false
            };
            flags.push(f);
            i = i + 1;
        }
        flags
    }

    /// Scan every other label; the first one that `l`'s fade-trigger
    /// relation names and whose rectangle overlaps `l`'s decides.
    fn scan_for_overlap(&self, l: Label) -> (r: bool)
        requires
            self.wf(),
        ensures
            r == self.overlap_trigger(l),
    {
        proof {
            lemma_label_table();
        }
        let i: usize = l.index_of();
        let rect: Rect = self.records[i].rect;
        let mut k: usize = 0;
        let mut hit: bool = false;
        while k < 8
            invariant
                self.wf(),
                k <= 8,
                i == label_index(l),
                rect == self.rec(l).rect,
                hit == exists|j: int|
                    0 <= j < k && j != i && fade_relation(l, #[trigger] label_at(j))
                        && self.rec(l).rect.overlaps_spec(self.rec(label_at(j)).rect),
            decreases 8 - k,
        {
            proof {
                lemma_label_table();
                assert((#[trigger] self.rec(label_at(k as int))).rect.wf());
                assert(self.rec(label_at(k as int)) == self.records@[k as int]);
                assert((#[trigger] self.rec(l)).rect.wf());
            }
            if k != i {
                let o: Label = Label::at_index(k);
                if l.should_fade(o) && rect.overlaps(&self.records[k].rect) {
                    proof {
                        assert(label_at(k as int) == o);
                        assert(fade_relation(l, label_at(k as int))
                            && self.rec(l).rect.overlaps_spec(self.rec(label_at(k as int)).rect));
                    }
                    hit = true;
                }
            }
            k = k + 1;
        }
        proof {
            lemma_label_table();
            if hit {
                let j = choose|j: int|
                    0 <= j < 8 && j != i && fade_relation(l, #[trigger] label_at(j))
                        && self.rec(l).rect.overlaps_spec(self.rec(label_at(j)).rect);
                assert(label_at(j) != l);
                assert(self.overlap_trigger(l));
            }
            if self.overlap_trigger(l) {
                let o = choose|o: Label|
                    o != l && fade_relation(l, o) && self.rec(l).rect.overlaps_spec(
                        (#[trigger] self.rec(o)).rect,
                    );
                assert(label_at(label_index(o)) == o);
                assert(label_index(o) != i);
                assert(hit);
            }
        }
        hit
    }

    /// Recompute every watched label's fade flag from the current
    /// rectangles; unwatched labels never fade.  The flags are computed
    /// in one pass against unmutated state and applied in a second.
    pub fn evaluate_overlaps(&mut self)
        requires
            old(self).wf(),
        ensures
            final(self).wf(),
            forall|l: Label|
                (#[trigger] final(self).rec(l)).should_fade == (watched(l) && old(
                    self,
                ).overlap_trigger(l)),
            forall|l: Label|
                (#[trigger] final(self).rec(l)).rect == old(self).rec(l).rect && final(self).rec(
                    l,
                ).opacity == old(self).rec(l).opacity,
            final(self).fade_out_secs == old(self).fade_out_secs,
            final(self).fade_in_secs == old(self).fade_in_secs,
            final(self).fade_intensity == old(self).fade_intensity,
    {
        proof {
            lemma_label_table();
        }
        let flags: Vec<bool> = self.compute_fade_flags();
        let mut i: usize = 0;
        while i < 8
            invariant
                i <= 8,
                flags@.len() == 8,
                self.records@.len() == 8,
                old(self).wf(),
                self.fade_out_secs == old(self).fade_out_secs,
                self.fade_in_secs == old(self).fade_in_secs,
                self.fade_intensity == old(self).fade_intensity,
                forall|j: int|
                    0 <= j < 8 ==> flags@[j] == (watched(label_at(j)) && old(
                        self,
                    ).overlap_trigger(label_at(j))),
                forall|j: int| i <= j < 8 ==> self.records@[j] == old(self).records@[j],
                forall|j: int|
                    0 <= j < i ==> (#[trigger] self.records@[j]).should_fade == flags@[j]
                        && self.records@[j].rect == old(self).records@[j].rect
                        && self.records@[j].opacity == old(self).records@[j].opacity,
            decreases 8 - i,
        {
            let mut r: LabelRecord = self.records[i];
            r.should_fade = flags[i];
            self.records[i] = r;
            i = i + 1;
        }
        proof {
            lemma_label_table();
            assert forall|l: Label| (#[trigger] self.rec(l)).should_fade == (watched(l) && old(
                self,
            ).overlap_trigger(l)) by {
                assert(0 <= label_index(l) < 8);
                assert(label_at(label_index(l)) == l);
            };
            assert forall|l: Label|
                (#[trigger] self.rec(l)).rect == old(self).rec(l).rect && self.rec(l).opacity
                    == old(self).rec(l).opacity by {
                assert(0 <= label_index(l) < 8);
            };
        }
    }

    /// Ramp every watched label's opacity one frame: down while its fade
    /// flag is set, up while it is not, clamped between the floor and
    /// full opacity.
    pub fn advance_opacity(&mut self, dt: i64)
        requires
            old(self).wf(),
            0 <= dt <= FP_MAX,
        ensures
            final(self).wf(),
            forall|l: Label|
                watched(l) ==> (#[trigger] final(self).rec(l)).opacity == opacity_after(
                    old(self).rec(l).opacity as int,
                    old(self).rec(l).should_fade,
                    old(self).fade_out_secs as int,
                    old(self).fade_in_secs as int,
                    old(self).fade_intensity as int,
                    dt as int,
                ),
            forall|l: Label| !watched(l) ==> #[trigger] final(self).rec(l) == old(self).rec(l),
            forall|l: Label|
                (#[trigger] final(self).rec(l)).rect == old(self).rec(l).rect && final(self).rec(
                    l,
                ).should_fade == old(self).rec(l).should_fade,
            final(self).fade_out_secs == old(self).fade_out_secs,
            final(self).fade_in_secs == old(self).fade_in_secs,
            final(self).fade_intensity == old(self).fade_intensity,
    {
        proof {
            lemma_label_table();
            crate::fixed::lemma_fp_recip_nonneg(self.fade_out_secs as int);
            crate::fixed::lemma_fp_recip_nonneg(self.fade_in_secs as int);
        }
        let out_delta: i64 = fp_mul(fp_recip(self.fade_out_secs), dt);
        let in_delta: i64 = fp_mul(fp_recip(self.fade_in_secs), dt);
        proof {
            crate::fixed::lemma_fp_mul_nonneg(
                fp_recip_spec(self.fade_out_secs as int),
                dt as int,
            );
            crate::fixed::lemma_fp_mul_nonneg(fp_recip_spec(self.fade_in_secs as int), dt as int);
        }
        let floor: i64 = FP_ONE - self.fade_intensity;
        let mut i: usize = 0;
        while i < 8
            invariant
                i <= 8,
                self.records@.len() == 8,
                old(self).wf(),
                self.fade_out_secs == old(self).fade_out_secs,
                self.fade_in_secs == old(self).fade_in_secs,
                self.fade_intensity == old(self).fade_intensity,
                0 < self.fade_out_secs <= FP_MAX,
                0 < self.fade_in_secs <= FP_MAX,
                0 <= self.fade_intensity <= FP_ONE,
                floor == FP_ONE - self.fade_intensity,
                0 <= out_delta <= FP_MAX,
                0 <= in_delta <= FP_MAX,
                out_delta == ramp_delta(self.fade_out_secs as int, dt as int),
                in_delta == ramp_delta(self.fade_in_secs as int, dt as int),
                forall|j: int| i <= j < 8 ==> self.records@[j] == old(self).records@[j],
                forall|j: int|
                    0 <= j < i && watched(label_at(j)) ==> (#[trigger] self.records@[j]).opacity
                        == opacity_after(
                        old(self).records@[j].opacity as int,
                        old(self).records@[j].should_fade,
                        old(self).fade_out_secs as int,
                        old(self).fade_in_secs as int,
                        old(self).fade_intensity as int,
                        dt as int,
                    ),
                forall|j: int|
                    0 <= j < i && !watched(label_at(j)) ==> #[trigger] self.records@[j] == old(
                        self,
                    ).records@[j],
                forall|j: int|
                    0 <= j < i ==> (#[trigger] self.records@[j]).rect == old(
                        self,
                    ).records@[j].rect && self.records@[j].should_fade == old(
                        self,
                    ).records@[j].should_fade,
            decreases 8 - i,
        {
            proof {
                lemma_label_table();
                assert((#[trigger] old(self).rec(label_at(i as int))) == old(
                    self,
                ).records@[i as int]);
                assert(old(self).opacity_floor() <= old(self).rec(label_at(i as int)).opacity
                    <= FP_ONE);
            }
            let l: Label = Label::at_index(i);
            if l.is_watched() {
                let mut r: LabelRecord = self.records[i];
                let next: i64 = if r.should_fade {
                    r.opacity - out_delta
                } else {
                    r.opacity + in_delta
                };
                r.opacity = clamp_to(next, floor, FP_ONE);
                self.records[i] = r;
            }
            i = i + 1;
        }
        proof {
            lemma_label_table();
            assert forall|l: Label| (#[trigger] self.rec(l)).rect.wf() by {
                assert(0 <= label_index(l) < 8);
                assert(label_at(label_index(l)) == l);
                assert(old(self).rec(l).rect.wf());
            };
            assert forall|l: Label|
                self.opacity_floor() <= (#[trigger] self.rec(l)).opacity <= FP_ONE by {
                assert(0 <= label_index(l) < 8);
                assert(label_at(label_index(l)) == l);
                assert(old(self).opacity_floor() <= old(self).rec(l).opacity <= FP_ONE);
            };
            assert forall|l: Label| !watched(l) implies (#[trigger] self.rec(l)).should_fade
                == false && self.rec(l).opacity == FP_ONE by {
                assert(0 <= label_index(l) < 8);
                assert(label_at(label_index(l)) == l);
                assert(old(self).rec(l).should_fade == false && old(self).rec(l).opacity
                    == FP_ONE);
            };
        }
    }

    /// One frame of the fader: re-evaluate every overlap against the
    /// current rectangles, then ramp the opacities by the elapsed time.
    pub fn update(&mut self, delta_time: i64)
        requires
            old(self).wf(),
            0 <= delta_time <= FP_MAX,
        ensures
            final(self).wf(),
            forall|l: Label|
                (#[trigger] final(self).rec(l)).should_fade == (watched(l) && old(
                    self,
                ).overlap_trigger(l)),
            forall|l: Label|
                watched(l) ==> (#[trigger] final(self).rec(l)).opacity == opacity_after(
                    old(self).rec(l).opacity as int,
                    old(self).overlap_trigger(l),
                    old(self).fade_out_secs as int,
                    old(self).fade_in_secs as int,
                    old(self).fade_intensity as int,
                    delta_time as int,
                ),
            forall|l: Label|
                !watched(l) ==> (#[trigger] final(self).rec(l)).opacity == old(self).rec(
                    l,
                ).opacity,
            forall|l: Label| (#[trigger] final(self).rec(l)).rect == old(self).rec(l).rect,
            final(self).fade_out_secs == old(self).fade_out_secs,
            final(self).fade_in_secs == old(self).fade_in_secs,
            final(self).fade_intensity == old(self).fade_intensity,
    {
        self.evaluate_overlaps();
        self.advance_opacity(delta_time);
    }
}

/// The per-frame opacity increment that a fade time yields for `dt`
/// elapsed seconds: the reciprocal of the fade time, scaled by `dt`.
pub open spec fn ramp_delta(fade_secs: int, dt: int) -> int {
    fp_mul_spec(fp_recip_spec(fade_secs), dt)
}

/// One frame's opacity update: ramp down while fading, up while not,
/// clamped between the fade floor and full opacity.
pub open spec fn opacity_after(
    op: int,
    fading: bool,
    fade_out: int,
    fade_in: int,
    intensity: int,
    dt: int,
) -> int {
    let delta = if fading {
        -ramp_delta(fade_out, dt)
    } else {
        ramp_delta(fade_in, dt)
    };
    clamp_spec(op + delta, FP_ONE - intensity, FP_ONE as int)
}

/// The opacity after `k` frames of `dt` seconds each, under one
/// unchanging fade decision.
pub open spec fn opacity_after_frames(
    op: int,
    fading: bool,
    fade_out: int,
    fade_in: int,
    intensity: int,
    dt: int,
    k: nat,
) -> int
    decreases k,
{
    if k == 0 {
        op
    } else {
        opacity_after(
            opacity_after_frames(op, fading, fade_out, fade_in, intensity, dt, (k - 1) as nat),
            fading,
            fade_out,
            fade_in,
            intensity,
            dt,
        )
    }
}

/// A watched label's opacity never leaves `[FP_ONE - fade_intensity,
/// FP_ONE]`, whatever sequence of frames has run.
pub proof fn lemma_opacity_bounded(s: Labels, l: Label)
    requires
        s.wf(),
    ensures
        s.opacity_floor() <= s.rec(l).opacity <= FP_ONE,
{
}

/// The fade-out ramp is linear: while a label keeps fading, each frame
/// subtracts the same step, so `k` frames lose exactly `k` steps — as
/// long as the floor has not cut the ramp short.
pub proof fn lemma_fade_out_ramp(
    op: int,
    fade_out: int,
    fade_in: int,
    intensity: int,
    dt: int,
    k: nat,
)
    requires
        0 < fade_out <= FP_MAX,
        0 < fade_in <= FP_MAX,
        0 <= intensity <= FP_ONE,
        0 <= dt <= FP_MAX,
        FP_ONE - intensity <= op <= FP_ONE,
        FP_ONE - intensity <= op - k * ramp_delta(fade_out, dt),
    ensures
        opacity_after_frames(op, true, fade_out, fade_in, intensity, dt, k) == op - k * ramp_delta(
            fade_out,
            dt,
        ),
    decreases k,
{
    let delta = ramp_delta(fade_out, dt);
    crate::fixed::lemma_fp_recip_nonneg(fade_out);
    crate::fixed::lemma_fp_mul_nonneg(fp_recip_spec(fade_out), dt);
    if k == 0 {
        assert(k * delta == 0) by (nonlinear_arith)
            requires
                k == 0,
        ;
    } else {
        let km1 = (k - 1) as nat;
        assert(km1 * delta == k * delta - delta) by (nonlinear_arith)
            requires
                km1 == k - 1,
        ;
        vstd::arithmetic::mul::lemma_mul_nonnegative(km1 as int, delta);
        lemma_fade_out_ramp(op, fade_out, fade_in, intensity, dt, km1);
        let prev = opacity_after_frames(op, true, fade_out, fade_in, intensity, dt, km1);
        assert(prev == op - km1 * delta);
        assert(opacity_after_frames(op, true, fade_out, fade_in, intensity, dt, k)
            == opacity_after(prev, true, fade_out, fade_in, intensity, dt));
        assert(prev - delta == op - k * delta);
        assert(FP_ONE - intensity <= prev - delta <= FP_ONE);
        assert(opacity_after(prev, true, fade_out, fade_in, intensity, dt) == prev - delta);
    }
}

/// The fade-in ramp is linear: while a label keeps brightening, each
/// frame adds the same step, so `k` frames gain exactly `k` steps — as
/// long as full opacity has not cut the ramp short.
pub proof fn lemma_fade_in_ramp(
    op: int,
    fade_out: int,
    fade_in: int,
    intensity: int,
    dt: int,
    k: nat,
)
    requires
        0 < fade_out <= FP_MAX,
        0 < fade_in <= FP_MAX,
        0 <= intensity <= FP_ONE,
        0 <= dt <= FP_MAX,
        FP_ONE - intensity <= op <= FP_ONE,
        op + k * ramp_delta(fade_in, dt) <= FP_ONE,
    ensures
        opacity_after_frames(op, false, fade_out, fade_in, intensity, dt, k) == op + k * ramp_delta(
            fade_in,
            dt,
        ),
    decreases k,
{
    let delta = ramp_delta(fade_in, dt);
    crate::fixed::lemma_fp_recip_nonneg(fade_in);
    crate::fixed::lemma_fp_mul_nonneg(fp_recip_spec(fade_in), dt);
    if k == 0 {
        assert(k * delta == 0) by (nonlinear_arith)
            requires
                k == 0,
        ;
    } else {
        let km1 = (k - 1) as nat;
        assert(km1 * delta == k * delta - delta) by (nonlinear_arith)
            requires
                km1 == k - 1,
        ;
        vstd::arithmetic::mul::lemma_mul_nonnegative(km1 as int, delta);
        lemma_fade_in_ramp(op, fade_out, fade_in, intensity, dt, km1);
        let prev = opacity_after_frames(op, false, fade_out, fade_in, intensity, dt, km1);
        assert(prev == op + km1 * delta);
        assert(opacity_after_frames(op, false, fade_out, fade_in, intensity, dt, k)
            == opacity_after(prev, false, fade_out, fade_in, intensity, dt));
        assert(prev + delta == op + k * delta);
        assert(FP_ONE - intensity <= prev + delta <= FP_ONE);
        assert(opacity_after(prev, false, fade_out, fade_in, intensity, dt) == prev + delta);
    }
}

/// Whether a label fades depends on the rectangles alone: two states
/// whose rectangles agree make the same overlap decisions.
pub proof fn lemma_trigger_depends_on_rects(s1: Labels, s2: Labels, l: Label)
    requires
        forall|o: Label| (#[trigger] s2.rec(o)).rect == s1.rec(o).rect,
    ensures
        s2.overlap_trigger(l) == s1.overlap_trigger(l),
{
    if s1.overlap_trigger(l) {
        let o = choose|o: Label|
            o != l && fade_relation(l, o) && s1.rec(l).rect.overlaps_spec(
                (#[trigger] s1.rec(o)).rect,
            );
        assert(s2.rec(o).rect == s1.rec(o).rect && s2.rec(l).rect == s1.rec(l).rect);
        assert(s2.overlap_trigger(l));
    }
    if s2.overlap_trigger(l) {
        let o = choose|o: Label|
            o != l && fade_relation(l, o) && s2.rec(l).rect.overlaps_spec(
                (#[trigger] s2.rec(o)).rect,
            );
        assert(s2.rec(o).rect == s1.rec(o).rect && s2.rec(l).rect == s1.rec(l).rect);
        assert(s1.overlap_trigger(l));
    }
}

/// The fade-trigger relation is directional: when `b`'s relation does
/// not name `a`, moving `a`'s rectangle alone can never change whether
/// `b` fades — even while `a`'s own relation may fire on `b`.
pub proof fn lemma_overlap_directionality(s1: Labels, s2: Labels, a: Label, b: Label)
    requires
        a != b,
        !fade_relation(b, a),
        forall|l: Label| l != a ==> #[trigger] s2.rec(l) == s1.rec(l),
    ensures
        s2.overlap_trigger(b) == s1.overlap_trigger(b),
{
    if s1.overlap_trigger(b) {
        let o = choose|o: Label|
            o != b && fade_relation(b, o) && s1.rec(b).rect.overlaps_spec(
                (#[trigger] s1.rec(o)).rect,
            );
        assert(o != a);
        assert(s2.rec(o) == s1.rec(o) && s2.rec(b) == s1.rec(b));
        assert(s2.overlap_trigger(b));
    }
    if s2.overlap_trigger(b) {
        let o = choose|o: Label|
            o != b && fade_relation(b, o) && s2.rec(b).rect.overlaps_spec(
                (#[trigger] s2.rec(o)).rect,
            );
        assert(o != a);
        assert(s2.rec(o) == s1.rec(o) && s2.rec(b) == s1.rec(b));
        assert(s1.overlap_trigger(b));
    }
}

} // verus!
