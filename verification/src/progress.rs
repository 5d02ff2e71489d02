//! The progress bar: clamped value state, time-eased display animation,
//! change and threshold notification, and the derived fill and text visuals.

use vstd::prelude::*;
use vstd::string::StringExecFns;

use crate::WidgetId;
use crate::color::Color;
use crate::easing::{ease_spec, EasingFunction};
use crate::fixed::{
    abs_int, clamp_spec, clamp64, fits, lemma_div_range, lemma_mul_div_bound, lemma_scale_shrinks,
    lemma_tdiv_abs, mul_div, tdiv, SCALE, VAL_MAX,
};
use crate::text::{format_fixed, spec_format_fixed};

verus! {

/// Smallest denominator a range computation divides by, so a degenerate
/// range cannot divide by zero.
pub const EPS_DENOM: i64 = 10_000;

/// Smallest animation duration the eased model divides by.
pub const DUR_EPS: i64 = 1_000;

/// Value deltas above this count as a direct jump rather than an increment.
pub const DIRECT_JUMP: i64 = 10_000_000;

#[derive(Debug, Clone, Copy, PartialEq, Eq, Structural)]
pub enum ProgressOrientation {
    Horizontal,
    Vertical,
}

#[derive(Debug, Clone, Copy, PartialEq, Eq, Structural)]
pub enum FillDirection {
    LeftToRight,
    RightToLeft,
    TopToBottom,
    BottomToTop,
}

#[derive(Debug, Clone, Copy, PartialEq, Eq, Structural)]
pub enum ProgressChangeKind {
    Incremental,
    Direct,
    Reset,
    Complete,
}

#[derive(Debug, Clone, Copy, PartialEq, Eq, Structural)]
pub enum ProgressTextFormat {
    /// Whole-number percentage of the maximum, e.g. `42%`.
    Percentage,
    /// Whole numbers, e.g. `42/100`.
    Fraction,
    /// One decimal place, e.g. `42.5/100.0`.
    Absolute,
}

#[derive(Debug, Clone, Copy, PartialEq)]
pub struct ProgressBar {
    pub current: i64,
    pub max: i64,
    pub min: i64,
    /// The value before the latest change, kept for threshold detection.
    pub previous_value: i64,
}

#[derive(Debug, Clone, Copy, PartialEq)]
pub struct ProgressBarVisuals {
    pub orientation: ProgressOrientation,
    pub fill_direction: FillDirection,
    pub show_text: bool,
    pub text_format: ProgressTextFormat,
    pub track_color: Color,
    pub fill_color: Color,
    pub border_color: Color,
    pub text_color: Color,
    pub border_width: i64,
    pub fill_margin: i64,
    /// Seconds one display animation takes, fixed-point.
    pub animation_duration: i64,
    pub easing: EasingFunction,
}

#[derive(Debug, Clone, Copy, PartialEq)]
pub struct ProgressAnimation {
    pub target_fraction: i64,
    pub current_display_fraction: i64,
    /// Where the running animation started from.
    pub start_fraction: i64,
    /// Fixed-point seconds on the host clock when the animation started.
    pub start_time: i64,
    pub duration: i64,
    pub is_animating: bool,
}

/// Cached references from a bar's root to its owned sub-nodes, populated at
/// construction so the passes never walk the hierarchy.
#[derive(Debug, Clone, Copy, PartialEq, Eq, Structural)]
pub struct ProgressBarParts {
    pub fill: WidgetId,
    pub text: Option<WidgetId>,
}

/// The writable style slots of the fill sub-node: each a percentage of the
/// track, fixed-point (so `100 * SCALE` is the full track).
#[derive(Debug, Clone, Copy, PartialEq)]
pub struct FillNode {
    pub width_percent: i64,
    pub height_percent: i64,
}

#[derive(Debug, Clone, Copy, PartialEq)]
pub struct ProgressChangedEvent {
    pub progress_entity: WidgetId,
    pub previous_value: i64,
    pub new_value: i64,
    pub change_kind: ProgressChangeKind,
}

#[derive(Debug, Clone, Copy, PartialEq)]
pub struct ProgressThresholdEvent {
    pub progress_entity: WidgetId,
    /// Normalized position in `(0, SCALE)` that was crossed.
    pub threshold: i64,
    pub crossed_up: bool,
}

#[derive(Debug, Clone, Copy, PartialEq)]
pub struct ProgressCompletedEvent {
    pub progress_entity: WidgetId,
}

impl ProgressBar {
    pub open spec fn wf(self) -> bool {
        &&& fits(self.min as int)
        &&& fits(self.max as int)
        &&& self.min <= self.max
        &&& self.min <= self.current <= self.max
        &&& self.min <= self.previous_value <= self.max
    }

    /// A bar over `[0, max]` starting at `current` (clamped in).
    pub fn new(current: i64, max: i64) -> (r: ProgressBar)
        requires
            0 <= max,
            fits(max as int),
        ensures
            r.min == 0,
            r.max == max,
            r.current == clamp_spec(current as int, 0, max as int),
            r.previous_value == r.current,
            r.wf(),
    {
        let c = clamp64(current, 0, max);
        ProgressBar { current: c, max, min: 0, previous_value: c }
    }

    /// The bar after a value change: the new value is clamped into range and
    /// the old one is remembered.
    pub open spec fn set_value_spec(self, value: int) -> ProgressBar {
        ProgressBar {
            current: clamp_spec(value, self.min as int, self.max as int) as i64,
            previous_value: self.current,
            ..self
        }
    }

    /// Sets the value, clamping into `[min, max]`; the previous value is
    /// snapshotted in the same operation.
    pub fn set_value(&mut self, value: i64)
        requires
            old(self).wf(),
        ensures
            *final(self) == old(self).set_value_spec(value as int),
            final(self).wf(),
    {
        self.previous_value = self.current;
        self.current = clamp64(value, self.min, self.max);
    }

    /// Position of `v` inside the range, normalized to `[0, SCALE]` against
    /// an epsilon-guarded denominator.
    pub open spec fn normalized_spec(self, v: int) -> int {
        let denom = if self.max - self.min < EPS_DENOM {
            EPS_DENOM as int
        } else {
            self.max - self.min
        };
        tdiv((v - self.min) * SCALE, denom)
    }

    /// The fraction shown: the normalized current value, clamped to
    /// `[0, SCALE]`.
    pub open spec fn fraction_spec(self) -> int {
        clamp_spec(self.normalized_spec(self.current as int), 0, SCALE as int)
    }

    pub fn fraction(&self) -> (r: i64)
        requires
            self.wf(),
        ensures
            r == self.fraction_spec(),
            0 <= r <= SCALE,
    {
        clamp64(self.normalized(self.current), 0, SCALE)
    }

    /// The fraction as a fixed-point percentage in `[0, 100 * SCALE]`.
    pub fn percentage(&self) -> (r: i64)
        requires
            self.wf(),
        ensures
            r == 100 * self.fraction_spec(),
    {
        100 * self.fraction()
    }

    /// How the latest change is classified: reaching the maximum is a
    /// completion, falling to the minimum a reset, a jump wider than the
    /// direct-jump threshold a direct set, anything else an increment.
    pub open spec fn change_kind_spec(self) -> ProgressChangeKind {
        if self.current >= self.max {
            ProgressChangeKind::Complete
        } else if self.current <= self.min {
            ProgressChangeKind::Reset
        } else if abs_int(self.current - self.previous_value) > DIRECT_JUMP {
            ProgressChangeKind::Direct
        } else {
            ProgressChangeKind::Incremental
        }
    }

    pub fn change_kind(&self) -> (r: ProgressChangeKind)
        requires
            self.wf(),
        ensures
            r == self.change_kind_spec(),
    {
        if self.current >= self.max {
            ProgressChangeKind::Complete
        } else if self.current <= self.min {
            ProgressChangeKind::Reset
        } else {
            let delta = if self.current >= self.previous_value {
                self.current - self.previous_value
            } else {
                self.previous_value - self.current
            };
            if delta > DIRECT_JUMP {
                ProgressChangeKind::Direct
            } else {
                ProgressChangeKind::Incremental
            }
        }
    }

    /// The change event for the latest mutation, snapshotting previous and
    /// new value at the moment of construction.
    pub fn changed_event(&self, id: WidgetId) -> (r: ProgressChangedEvent)
        requires
            self.wf(),
        ensures
            r == (ProgressChangedEvent {
                progress_entity: id,
                previous_value: self.previous_value,
                new_value: self.current,
                change_kind: self.change_kind_spec(),
            }),
    {
        ProgressChangedEvent {
            progress_entity: id,
            previous_value: self.previous_value,
            new_value: self.current,
            change_kind: self.change_kind(),
        }
    }

    /// Whether the bar sits at its maximum.
    pub fn is_complete(&self) -> (r: bool)
        ensures
            r == (self.current >= self.max),
    {
        self.current >= self.max
    }

    /// Adds `amount` to the value through the same clamping and snapshotting
    /// as a direct set.
    pub fn increment(&mut self, amount: i64)
        requires
            old(self).wf(),
            fits(amount as int),
        ensures
            *final(self) == old(self).set_value_spec(old(self).current + amount),
            final(self).wf(),
    {
        let current = self.current;
        self.set_value(current + amount);
    }
}

/// How a threshold in `(0, SCALE)` relates a previous and a current
/// normalized position: crossed upward, crossed downward, or not crossed.
pub open spec fn crossing_spec(prev_n: int, cur_n: int, th: int) -> Option<bool> {
    if prev_n < th && th <= cur_n {
        Some(true)
    } else if prev_n >= th && th > cur_n {
        Some(false)
    } else {
        None
    }
}

/// The threshold events one change emits, one per crossed threshold, in the
/// thresholds' own order.
pub open spec fn threshold_events_spec(
    id: WidgetId,
    prev_n: int,
    cur_n: int,
    ths: Seq<i64>,
) -> Seq<ProgressThresholdEvent>
    decreases ths.len(),
{
    if ths.len() == 0 {
        Seq::empty()
    } else {
        let rest = threshold_events_spec(id, prev_n, cur_n, ths.drop_last());
        match crossing_spec(prev_n, cur_n, ths.last() as int) {
            Some(up) => rest.push(
                ProgressThresholdEvent {
                    progress_entity: id,
                    threshold: ths.last(),
                    crossed_up: up,
                },
            ),
            None => rest,
        }
    }
}

impl ProgressBar {
    /// Evaluates every configured threshold against the normalized previous
    /// and current positions, emitting crossed-up and crossed-down events.
    pub fn threshold_events(&self, id: WidgetId, thresholds: &Vec<i64>) -> (r: Vec<
        ProgressThresholdEvent,
    >)
        requires
            self.wf(),
        ensures
            r@ == threshold_events_spec(
                id,
                self.normalized_spec(self.previous_value as int),
                self.normalized_spec(self.current as int),
                thresholds@,
            ),
    {
        let prev_n = self.normalized(self.previous_value);
        let cur_n = self.normalized(self.current);
        let mut out: Vec<ProgressThresholdEvent> = Vec::new();
        let mut i: usize = 0;
        while i < thresholds.len()
            invariant
                i <= thresholds@.len(),
                prev_n == self.normalized_spec(self.previous_value as int),
                cur_n == self.normalized_spec(self.current as int),
                out@ == threshold_events_spec(
                    id,
                    prev_n as int,
                    cur_n as int,
                    thresholds@.take(i as int),
                ),
            decreases thresholds@.len() - i,
        {
            let th = thresholds[i];
            if (prev_n < th && th <= cur_n) || (prev_n >= th && th > cur_n) {
                out.push(
                    ProgressThresholdEvent {
                        progress_entity: id,
                        threshold: th,
                        crossed_up: prev_n < th,
                    },
                );
            }
            i = i + 1;
            proof {
                let pre = thresholds@.take(i - 1);
                let now_seq = thresholds@.take(i as int);
                assert(now_seq.drop_last() =~= pre);
                assert(now_seq.last() == thresholds@[i - 1]);
            }
        }
        proof {
            assert(thresholds@.take(thresholds@.len() as int) =~= thresholds@);
        }
        out
    }

    /// The normalized position of an in-range value; it lands in
    /// `[0, SCALE]` without any clamping.
    pub fn normalized(&self, v: i64) -> (r: i64)
        requires
            self.wf(),
            self.min <= v <= self.max,
        ensures
            r == self.normalized_spec(v as int),
            0 <= r <= SCALE,
    {
        let denom = if self.max - self.min < EPS_DENOM {
            EPS_DENOM
        } else {
            self.max - self.min
        };
        proof {
            assert(0 <= (v as int - self.min as int) * SCALE as int && (v as int - self.min as int)
                * SCALE as int <= SCALE as int * denom as int) by (nonlinear_arith)
                requires
                    0 <= v as int - self.min as int <= denom as int,
                    SCALE as int > 0,
            ;
            lemma_div_range((v as int - self.min as int) * SCALE as int, denom as int, SCALE as int);
        }
        mul_div(v - self.min, SCALE, denom)
    }
}

/// The fill percentage (fixed-point, `100 * SCALE` is full) derived from a
/// display fraction under a fill direction: reversed directions fill the
/// complement.
pub open spec fn fill_percent_spec(fraction: int, dir: FillDirection) -> int {
    match dir {
        FillDirection::RightToLeft | FillDirection::BottomToTop => 100 * (SCALE - fraction),
        _ => 100 * fraction,
    }
}

/// The fill percentage for a bar's own (unanimated) fraction.
pub fn calculate_fill_percentage(progress: &ProgressBar, visuals: &ProgressBarVisuals) -> (r: i64)
    requires
        progress.wf(),
    ensures
        r == fill_percent_spec(progress.fraction_spec(), visuals.fill_direction),
        0 <= r <= 100 * SCALE,
{
    let f = progress.fraction();
    match visuals.fill_direction {
        FillDirection::RightToLeft | FillDirection::BottomToTop => 100 * (SCALE - f),
        _ => 100 * f,
    }
}

/// The fill node after one style write: the axis the orientation picks is
/// set to the fill percentage, the other axis keeps its value.
pub open spec fn fill_style_spec(
    fill: FillNode,
    percent: int,
    orientation: ProgressOrientation,
) -> FillNode {
    match orientation {
        ProgressOrientation::Horizontal => FillNode { width_percent: percent as i64, ..fill },
        ProgressOrientation::Vertical => FillNode { height_percent: percent as i64, ..fill },
    }
}

/// Writes the fill percentage into the style slot the orientation picks.
pub fn update_fill_style(fill: &mut FillNode, percent: i64, visuals: &ProgressBarVisuals)
    ensures
        *final(fill) == fill_style_spec(*old(fill), percent as int, visuals.orientation),
{
    match visuals.orientation {
        ProgressOrientation::Horizontal => {
            fill.width_percent = percent;
        },
        ProgressOrientation::Vertical => {
            fill.height_percent = percent;
        },
    }
}

impl ProgressAnimation {
    pub open spec fn wf(self) -> bool {
        &&& 0 <= self.target_fraction <= SCALE
        &&& 0 <= self.current_display_fraction <= SCALE
        &&& 0 <= self.start_fraction <= SCALE
        &&& 0 <= self.start_time <= VAL_MAX
        &&& 0 <= self.duration <= VAL_MAX
    }

    /// A fresh idle animation resting on `fraction`.
    pub fn resting_at(fraction: i64, duration: i64) -> (r: ProgressAnimation)
        requires
            0 <= fraction <= SCALE,
            0 <= duration <= VAL_MAX,
        ensures
            r == (ProgressAnimation {
                target_fraction: fraction,
                current_display_fraction: fraction,
                start_fraction: 0,
                start_time: 0,
                duration,
                is_animating: false,
            }),
            r.wf(),
    {
        ProgressAnimation {
            target_fraction: fraction,
            current_display_fraction: fraction,
            start_fraction: 0,
            start_time: 0,
            duration,
            is_animating: false,
        }
    }

    /// The animation after a state change retargets it: it starts from the
    /// currently displayed fraction, at the current time, toward the new
    /// target.
    pub open spec fn restart_spec(self, target: int, now: int, duration: int) -> ProgressAnimation {
        ProgressAnimation {
            target_fraction: target as i64,
            start_fraction: self.current_display_fraction,
            start_time: now as i64,
            duration: duration as i64,
            is_animating: true,
            ..self
        }
    }

    /// Retargets the animation at the moment of a state change.
    pub fn restart(&mut self, target: i64, now: i64, duration: i64)
        requires
            old(self).wf(),
            0 <= target <= SCALE,
            0 <= now <= VAL_MAX,
            0 <= duration <= VAL_MAX,
        ensures
            *final(self) == old(self).restart_spec(target as int, now as int, duration as int),
            final(self).wf(),
    {
        self.start_fraction = self.current_display_fraction;
        self.target_fraction = target;
        self.start_time = now;
        self.duration = duration;
        self.is_animating = true;
    }

    /// The elapsed-time ratio at `now`, clamped to `[0, SCALE]`, against an
    /// epsilon-guarded duration.
    pub open spec fn t_ratio_spec(self, now: int) -> int {
        let dur = if self.duration < DUR_EPS {
            DUR_EPS as int
        } else {
            self.duration as int
        };
        clamp_spec(tdiv((now - self.start_time) * SCALE, dur), 0, SCALE as int)
    }

    /// The displayed fraction while animating: the start fraction moved
    /// toward the target by the eased share of elapsed time.
    pub open spec fn display_at_spec(self, easing: EasingFunction, now: int) -> int {
        self.start_fraction + tdiv(
            (self.target_fraction - self.start_fraction) * ease_spec(easing, self.t_ratio_spec(now)),
            SCALE as int,
        )
    }

    /// The animation after one eased tick: idle animations are untouched; a
    /// running one shows the eased interpolation, and at full elapsed time it
    /// stops exactly on its target.
    pub open spec fn eased_tick_spec(self, easing: EasingFunction, now: int) -> ProgressAnimation {
        if !self.is_animating {
            self
        } else if self.t_ratio_spec(now) >= SCALE {
            ProgressAnimation {
                current_display_fraction: self.target_fraction,
                is_animating: false,
                ..self
            }
        } else {
            ProgressAnimation {
                current_display_fraction: self.display_at_spec(easing, now) as i64,
                ..self
            }
        }
    }

    /// Advances the eased animation to time `now`; the result says whether
    /// the animation finished on this very tick.
    pub fn eased_tick(&mut self, easing: EasingFunction, now: i64) -> (finished: bool)
        requires
            old(self).wf(),
            0 <= now <= VAL_MAX,
        ensures
            *final(self) == old(self).eased_tick_spec(easing, now as int),
            final(self).wf(),
            finished == (old(self).is_animating && old(self).t_ratio_spec(now as int)
                >= SCALE as int),
            finished ==> final(self).current_display_fraction == final(self).target_fraction
                && !final(self).is_animating,
    {
        if !self.is_animating {
            return false;
        }
        let dur = if self.duration < DUR_EPS {
            DUR_EPS
        } else {
            self.duration
        };
        proof {
            assert(abs_int(now as int - self.start_time as int) * abs_int(SCALE as int) <= (1_000
                * VAL_MAX as int) * dur as int) by (nonlinear_arith)
                requires
                    abs_int(now as int - self.start_time as int) <= VAL_MAX as int,
                    dur as int >= DUR_EPS as int,
                    SCALE as int == DUR_EPS as int * 1_000,
                    0 < DUR_EPS as int,
            ;
            lemma_mul_div_bound(
                now as int - self.start_time as int,
                SCALE as int,
                dur as int,
                1_000 * VAL_MAX as int,
            );
        }
        let t = clamp64(mul_div(now - self.start_time, SCALE, dur), 0, SCALE);
        let eased = easing.sample(t);
        let span = self.target_fraction - self.start_fraction;
        proof {
            lemma_scale_shrinks(span as int * eased as int, SCALE as int);
            assert(abs_int(span as int * eased as int) <= SCALE as int * SCALE as int)
                by (nonlinear_arith)
                requires
                    abs_int(span as int) <= SCALE as int,
                    0 <= eased as int <= SCALE as int,
            ;
            lemma_tdiv_abs(span as int * eased as int, SCALE as int);
            lemma_lerp_stays_in_band(
                self.start_fraction as int,
                self.target_fraction as int,
                eased as int,
            );
        }
        let step = mul_div(span, eased, SCALE);
        self.current_display_fraction = self.start_fraction + step;
        if t >= SCALE {
            self.is_animating = false;
            self.current_display_fraction = self.target_fraction;
            true
        } else {
            false
        }
    }
}

/// Interpolating from `a` toward `b` by an eased share in `[0, SCALE]` stays
/// inside the band the two endpoints span.
proof fn lemma_lerp_stays_in_band(a: int, b: int, e: int)
    requires
        0 <= a <= SCALE as int,
        0 <= b <= SCALE as int,
        0 <= e <= SCALE as int,
    ensures
        0 <= a + tdiv((b - a) * e, SCALE as int) <= SCALE as int,
{
    let s = SCALE as int;
    let d = b - a;
    lemma_tdiv_abs(d * e, s);
    assert(abs_int(d * e) == abs_int(d) * e) by (nonlinear_arith)
        requires
            0 <= e,
    ;
    assert(abs_int(d) * e <= abs_int(d) * s) by (nonlinear_arith)
        requires
            0 <= e <= s,
            0 <= abs_int(d),
    ;
    crate::fixed::lemma_div_monotone(abs_int(d) * e, abs_int(d) * s, s);
    assert(tdiv(abs_int(d) * s, s) == abs_int(d)) by (nonlinear_arith)
        requires
            s > 0,
            0 <= abs_int(d),
    ;
    assert(abs_int(tdiv(d * e, s)) <= abs_int(d));
    assert(d >= 0 ==> d * e >= 0) by (nonlinear_arith)
        requires
            0 <= e,
    ;
    assert(d < 0 ==> d * e <= 0) by (nonlinear_arith)
        requires
            0 <= e,
    ;
    if d >= 0 {
        assert(0 <= tdiv(d * e, s) <= d);
    } else {
        assert(d <= tdiv(d * e, s) <= 0);
    }
}

/// The eased model is idempotent under zero-delta ticks: a second tick at
/// the very same clock reading computes the very same elapsed ratio and thus
/// the very same displayed fraction, and a finished animation stays finished.
pub proof fn lemma_eased_zero_delta_idempotent(
    anim: ProgressAnimation,
    easing: EasingFunction,
    now: int,
)
    requires
        anim.wf(),
    ensures
        anim.eased_tick_spec(easing, now).eased_tick_spec(easing, now) == anim.eased_tick_spec(
            easing,
            now,
        ),
{
}

/// One tick of the display animation for a bar: the eased step, the fill
/// style write from the displayed fraction, and the completion event, fired
/// exactly when an animation whose value sits at the maximum finishes.
pub fn progress_bar_animate(
    progress: &ProgressBar,
    visuals: &ProgressBarVisuals,
    animation: &mut ProgressAnimation,
    fill: &mut FillNode,
    id: WidgetId,
    now: i64,
) -> (completed: Option<ProgressCompletedEvent>)
    requires
        progress.wf(),
        old(animation).wf(),
        0 <= now <= VAL_MAX,
    ensures
        *final(animation) == old(animation).eased_tick_spec(visuals.easing, now as int),
        final(animation).wf(),
        old(animation).is_animating ==> *final(fill) == fill_style_spec(
            *old(fill),
            fill_percent_spec(
                final(animation).current_display_fraction as int,
                visuals.fill_direction,
            ),
            visuals.orientation,
        ),
        !old(animation).is_animating ==> *final(fill) == *old(fill) && completed.is_none(),
        completed.is_some() <==> (old(animation).is_animating && old(animation).t_ratio_spec(
            now as int,
        ) >= SCALE as int && progress.current >= progress.max),
        completed.is_some() ==> completed == Some(ProgressCompletedEvent { progress_entity: id }),
{
    if !animation.is_animating {
        return None;
    }
    let finished = animation.eased_tick(visuals.easing, now);
    let f = animation.current_display_fraction;
    let percent = match visuals.fill_direction {
        FillDirection::RightToLeft | FillDirection::BottomToTop => 100 * (SCALE - f),
        _ => 100 * f,
    };
    update_fill_style(fill, percent, visuals);
    if finished && progress.current >= progress.max {
        Some(ProgressCompletedEvent { progress_entity: id })
    } else {
        None
    }
}

/// A value change reaching the animated bar: emits the change event captured
/// at the mutation and retargets the display animation toward the new
/// fraction.
pub fn progress_bar_apply_change(
    progress: &ProgressBar,
    visuals: &ProgressBarVisuals,
    animation: &mut ProgressAnimation,
    id: WidgetId,
    now: i64,
) -> (ev: ProgressChangedEvent)
    requires
        progress.wf(),
        old(animation).wf(),
        0 <= now <= VAL_MAX,
        0 <= visuals.animation_duration <= VAL_MAX,
    ensures
        ev == (ProgressChangedEvent {
            progress_entity: id,
            previous_value: progress.previous_value,
            new_value: progress.current,
            change_kind: progress.change_kind_spec(),
        }),
        *final(animation) == old(animation).restart_spec(
            progress.fraction_spec(),
            now as int,
            visuals.animation_duration as int,
        ),
        final(animation).wf(),
{
    let ev = progress.changed_event(id);
    let target = progress.fraction();
    animation.restart(target, now, visuals.animation_duration);
    ev
}

/// A value change reaching a bar without an animation: emits the change
/// event and writes the fill style immediately.
pub fn progress_bar_apply_change_immediate(
    progress: &ProgressBar,
    visuals: &ProgressBarVisuals,
    fill: &mut FillNode,
    id: WidgetId,
) -> (ev: ProgressChangedEvent)
    requires
        progress.wf(),
    ensures
        ev == (ProgressChangedEvent {
            progress_entity: id,
            previous_value: progress.previous_value,
            new_value: progress.current,
            change_kind: progress.change_kind_spec(),
        }),
        *final(fill) == fill_style_spec(
            *old(fill),
            fill_percent_spec(progress.fraction_spec(), visuals.fill_direction),
            visuals.orientation,
        ),
{
    let ev = progress.changed_event(id);
    let percent = calculate_fill_percentage(progress, visuals);
    update_fill_style(fill, percent, visuals);
    ev
}

/// The configured normalized thresholds, each in `(0, SCALE)`, that change
/// notification compares crossings against.
pub struct ProgressThresholds(pub Vec<i64>);

/// The percentage of the maximum that `current` stands at, fixed-point, with
/// an epsilon-guarded denominator.
pub open spec fn percent_of_max_spec(current: int, max: int) -> int {
    let d = if max < EPS_DENOM {
        EPS_DENOM as int
    } else {
        max
    };
    tdiv(current * (100 * SCALE as int), d)
}

impl ProgressTextFormat {
    /// The exact label text: `42%`, `42/100` or `42.5/100.0`, values rounded
    /// to the printed precision.
    pub open spec fn spec_format(self, current: int, max: int) -> Seq<char> {
        match self {
            ProgressTextFormat::Percentage => spec_format_fixed(
                percent_of_max_spec(current, max),
                0,
            ) + seq!['%'],
            ProgressTextFormat::Fraction => spec_format_fixed(current, 0) + seq!['/']
                + spec_format_fixed(max, 0),
            ProgressTextFormat::Absolute => spec_format_fixed(current, 1) + seq!['/']
                + spec_format_fixed(max, 1),
        }
    }

    /// Renders the bar's text label.
    pub fn format(&self, current: i64, max: i64) -> (r: String)
        requires
            fits(current as int),
            fits(max as int),
        ensures
            r@ == self.spec_format(current as int, max as int),
    {
        match self {
            ProgressTextFormat::Percentage => {
                let d = if max < EPS_DENOM {
                    EPS_DENOM
                } else {
                    max
                };
                proof {
                    assert(abs_int(current as int) * abs_int(100 * SCALE as int) <= (10_000
                        * VAL_MAX as int) * d as int) by (nonlinear_arith)
                        requires
                            abs_int(current as int) <= VAL_MAX as int,
                            d as int >= EPS_DENOM as int,
                            100 * SCALE as int == 10_000 * EPS_DENOM as int,
                            0 < EPS_DENOM as int,
                    ;
                    lemma_mul_div_bound(
                        current as int,
                        100 * SCALE as int,
                        d as int,
                        10_000 * VAL_MAX as int,
                    );
                }
                let pv = mul_div(current, 100 * SCALE, d);
                let mut s = format_fixed(pv, 0);
                proof {
                    reveal_strlit("%");
                }
                s.append("%");
                proof {
                    assert(s@ =~= self.spec_format(current as int, max as int));
                }
                s
            },
            ProgressTextFormat::Fraction => {
                let mut s = format_fixed(current, 0);
                proof {
                    reveal_strlit("/");
                }
                s.append("/");
                s.append(format_fixed(max, 0).as_str());
                proof {
                    assert(s@ =~= self.spec_format(current as int, max as int));
                }
                s
            },
            ProgressTextFormat::Absolute => {
                let mut s = format_fixed(current, 1);
                proof {
                    reveal_strlit("/");
                }
                s.append("/");
                s.append(format_fixed(max, 1).as_str());
                proof {
                    assert(s@ =~= self.spec_format(current as int, max as int));
                }
                s
            },
        }
    }
}

/// The cache key the text pass compares before re-rendering: the value at a
/// tenth of a unit, truncated toward zero.  A label is rewritten only when
/// this key moved.
pub fn text_cache_key(current: i64) -> (r: i64)
    requires
        fits(current as int),
    ensures
        r == tdiv(current as int, 100_000),
{
    if current >= 0 {
        current / 100_000
    } else {
        -((-current) / 100_000)
    }
}

impl Default for ProgressBarVisuals {
    /// The stock look: horizontal, filling left to right, a percentage label,
    /// dark track, green fill, 0.3-second ease-out animation.
    fn default() -> (r: ProgressBarVisuals)
        ensures
            r == (ProgressBarVisuals {
                orientation: ProgressOrientation::Horizontal,
                fill_direction: FillDirection::LeftToRight,
                show_text: true,
                text_format: ProgressTextFormat::Percentage,
                track_color: Color { red: 100_000, green: 100_000, blue: 100_000, alpha: SCALE as i64 },
                fill_color: Color { red: 200_000, green: 600_000, blue: 200_000, alpha: SCALE as i64 },
                border_color: Color { red: 300_000, green: 300_000, blue: 300_000, alpha: SCALE as i64 },
                text_color: Color { red: SCALE as i64, green: SCALE as i64, blue: SCALE as i64, alpha: SCALE as i64 },
                border_width: (2 * SCALE) as i64,
                fill_margin: SCALE as i64,
                animation_duration: 300_000,
                easing: EasingFunction::EaseOut,
            }),
    {
        ProgressBarVisuals {
            orientation: ProgressOrientation::Horizontal,
            fill_direction: FillDirection::LeftToRight,
            show_text: true,
            text_format: ProgressTextFormat::Percentage,
            track_color: Color::rgb(100_000, 100_000, 100_000),
            fill_color: Color::rgb(200_000, 600_000, 200_000),
            border_color: Color::rgb(300_000, 300_000, 300_000),
            text_color: Color::rgb(SCALE, SCALE, SCALE),
            border_width: 2 * SCALE,
            fill_margin: SCALE,
            animation_duration: 300_000,
            easing: EasingFunction::EaseOut,
        }
    }
}

/// The fraction a bar displays: always the clamp of the normalized current
/// value into `[0, 1]`, whatever value was requested — out-of-range requests
/// saturate at the range ends.
pub proof fn lemma_fraction_clamped(p: ProgressBar, v: int)
    requires
        p.wf(),
    ensures
        0 <= p.fraction_spec() <= SCALE as int,
        p.set_value_spec(v).current == clamp_spec(v, p.min as int, p.max as int),
        p.current == p.min ==> p.fraction_spec() == 0,
        p.current == p.max && p.max - p.min >= EPS_DENOM ==> p.fraction_spec() == SCALE as int,
{
    let s = SCALE as int;
    if p.current == p.min {
        assert(tdiv(0 * s, if p.max - p.min < EPS_DENOM {
            EPS_DENOM as int
        } else {
            p.max - p.min
        }) == 0) by (nonlinear_arith);
    }
    if p.current == p.max && p.max - p.min >= EPS_DENOM {
        let d = p.max - p.min;
        assert(tdiv(d * s, d) >= s) by (nonlinear_arith)
            requires
                d > 0,
                s > 0,
        ;
    }
}

} // verus!
