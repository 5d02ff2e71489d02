//! The slider: pointer-drag and arrow-key value changes with step snapping,
//! buffered or continuous change emission, key auto-repeat, and the
//! dirty-driven handle/fill/text visual sync.

use vstd::prelude::*;

use crate::{Key, WidgetId};
use crate::fixed::{
    abs_int, clamp_spec, clamp64, fits, lemma_div_range, lemma_rdiv_exact, lemma_rdiv_monotone,
    lemma_rdiv_near, lemma_tdiv_abs, mul_div, rdiv, round_div, tdiv, SCALE, VAL_MAX,
};
use crate::text::{format_fixed, spec_format_fixed};

verus! {

/// Milliseconds (as fixed-point seconds) a key is held before it repeats.
pub const KEY_REPEAT_DELAY: i64 = 300_000;

/// Repeat interval once the initial delay has passed.
pub const KEY_REPEAT_INTERVAL: i64 = 50_000;

/// Smallest track length a drag projection divides by.
pub const TRACK_EPS: i64 = 10_000;

/// The stock track size the drag path measures against, in fixed-point
/// pixels, standing in for the live layout size of the track.
pub const DRAG_TRACK_WIDTH: i64 = 200_000_000;

pub const DRAG_TRACK_HEIGHT: i64 = 24_000_000;

#[derive(Debug, Clone, Copy, PartialEq, Eq, Structural)]
pub enum SliderOrientation {
    Horizontal,
    Vertical,
}

#[derive(Debug, Clone, Copy, PartialEq)]
pub struct Slider {
    pub min: i64,
    pub max: i64,
    /// Grid the value snaps to, when positive; a missing or non-positive
    /// step passes values through unsnapped.
    pub step: Option<i64>,
    pub orientation: SliderOrientation,
    pub value: i64,
    /// The handle sub-node, cached so change events can carry it.
    pub handle_entity: WidgetId,
}

#[derive(Debug, Clone, Copy, PartialEq, Eq, Structural)]
pub enum ValueFormat {
    /// The value with that many decimals (capped at the six representable).
    Precision(u32),
    /// The value times one hundred with that many decimals, then `%`.
    Percent(u32),
}

#[derive(Debug, Clone, Copy, PartialEq)]
pub struct SliderOptions {
    pub format: ValueFormat,
    pub show_value: bool,
}

#[derive(Debug, Clone, Copy, PartialEq, Eq, Structural)]
pub enum SliderEmitMode {
    Continuous,
    OnRelease,
}

/// A change held back while the release-only emit mode waits for the pointer
/// to let go.
#[derive(Debug, Clone, Copy, PartialEq)]
pub struct SliderPendingChange {
    pub value: i64,
}

#[derive(Debug, Clone, PartialEq)]
pub struct SliderValueChangedEvent {
    pub entity: WidgetId,
    pub handle_entity: WidgetId,
    pub previous_value: i64,
    pub new_value: i64,
    pub orientation: SliderOrientation,
}

/// The derived visuals of a slider: handle offset and fill size as
/// fixed-point percentages, and the value label.
#[derive(Debug, Clone, PartialEq)]
pub struct SliderVisuals {
    pub handle_percent: i64,
    pub fill_percent: i64,
    pub value_text: String,
}

/// A slider widget root with its state, options, dirty marker and derived
/// visuals.
pub struct SliderWidget {
    pub id: WidgetId,
    pub slider: Slider,
    pub options: SliderOptions,
    pub needs_visual_update: bool,
    pub visuals: SliderVisuals,
}

impl Slider {
    pub open spec fn wf(self) -> bool {
        &&& fits(self.min as int)
        &&& fits(self.max as int)
        &&& self.min <= self.max
        &&& self.min <= self.value <= self.max
        &&& match self.step {
            Some(s) => fits(s as int),
            None => true,
        }
    }

    /// The value's position in the range, normalized to `[0, SCALE]` against
    /// an epsilon-guarded track length.
    pub open spec fn normalized_spec(self) -> int {
        let denom = if self.max - self.min < TRACK_EPS {
            TRACK_EPS as int
        } else {
            self.max - self.min
        };
        tdiv((self.value - self.min) * SCALE, denom)
    }

    pub fn normalized(&self) -> (r: i64)
        requires
            self.wf(),
        ensures
            r == self.normalized_spec(),
            0 <= r <= SCALE,
    {
        let denom = if self.max - self.min < TRACK_EPS {
            TRACK_EPS
        } else {
            self.max - self.min
        };
        proof {
            assert(0 <= (self.value - self.min) * SCALE as int && (self.value - self.min)
                * SCALE as int <= SCALE as int * denom as int) by (nonlinear_arith)
                requires
                    0 <= self.value - self.min <= denom as int,
                    SCALE as int > 0,
            ;
            lemma_div_range((self.value - self.min) * SCALE as int, denom as int, SCALE as int);
        }
        mul_div(self.value - self.min, SCALE, denom)
    }
}

impl Default for Slider {
    /// The stock slider: the unit range, no step, horizontal, resting in the
    /// middle, with no handle cached yet.
    fn default() -> (r: Slider)
        ensures
            r == (Slider {
                min: 0,
                max: SCALE as i64,
                step: None,
                orientation: SliderOrientation::Horizontal,
                value: 500_000,
                handle_entity: 0,
            }),
            r.wf(),
    {
        Slider {
            min: 0,
            max: SCALE,
            step: None,
            orientation: SliderOrientation::Horizontal,
            value: 500_000,
            handle_entity: 0,
        }
    }
}

impl Default for ValueFormat {
    /// Two decimal places.
    fn default() -> (r: ValueFormat)
        ensures
            r == ValueFormat::Precision(2u32),
    {
        ValueFormat::Precision(2)
    }
}

/// The value snapped onto the step grid: `min + round((v - min) / step) *
/// step` for a positive step; a missing or non-positive step passes the
/// value through.
pub open spec fn apply_step_spec(value: int, min: int, step: Option<i64>) -> int {
    match step {
        Some(s) => {
            if s <= 0 {
                value
            } else {
                min + rdiv(value - min, s as int) * (s as int)
            }
        },
        None => value,
    }
}

/// Snaps a value onto the step grid; the snapped value sits within half a
/// step of the request.
pub fn apply_step(value: i64, min: i64, step: Option<i64>) -> (r: i64)
    requires
        -2 * VAL_MAX <= value <= 2 * VAL_MAX,
        fits(min as int),
        match step {
            Some(s) => fits(s as int),
            None => true,
        },
    ensures
        r == apply_step_spec(value as int, min as int, step),
        2 * abs_int(r as int - value as int) <= match step {
            Some(s) => {
                if s > 0 {
                    s as int
                } else {
                    0
                }
            },
            None => 0,
        },
{
    match step {
        Some(s) => {
            if s <= 0 {
                value
            } else {
                proof {
                    crate::fixed::lemma_rdiv_shrinks(value as int - min as int, s as int);
                    lemma_rdiv_near(value as int - min as int, s as int);
                }
                let q = round_div(value - min, s);
                proof {
                    assert(abs_int(q as int * s as int) <= abs_int(value as int - min as int)
                        + s as int) by (nonlinear_arith)
                        requires
                            2 * abs_int(q as int * s as int - (value as int - min as int))
                                <= s as int,
                    ;
                }
                min + q * s
            }
        },
        None => value,
    }
}

/// Projects a pointer coordinate onto the track axis and scales it into the
/// slider's range: the relative position along the track, clamped to
/// `[0, 1]`, interpolated between `min` and `max`.
pub open spec fn pointer_value_spec(
    cursor: int,
    track_center: int,
    track_size: int,
    min: int,
    max: int,
) -> int {
    let size = if track_size < TRACK_EPS {
        TRACK_EPS as int
    } else {
        track_size
    };
    let rel = clamp_spec(tdiv((cursor - (track_center - size / 2)) * SCALE, size), 0, SCALE as int);
    min + tdiv(rel * (max - min), SCALE as int)
}

/// The pointer projection lands inside `[min, max]` for any coordinate.
pub fn cursor_position_to_value(
    cursor: i64,
    track_center: i64,
    track_size: i64,
    min: i64,
    max: i64,
) -> (r: i64)
    requires
        fits(cursor as int),
        fits(track_center as int),
        0 <= track_size <= VAL_MAX,
        fits(min as int),
        fits(max as int),
        min <= max,
    ensures
        r == pointer_value_spec(cursor as int, track_center as int, track_size as int, min as int, max as int),
        min <= r <= max,
{
    let size = if track_size < TRACK_EPS {
        TRACK_EPS
    } else {
        track_size
    };
    let offset = cursor - (track_center - size / 2);
    proof {
        lemma_tdiv_abs(offset as int * SCALE as int, size as int);
        assert(abs_int(offset as int * SCALE as int) == abs_int(offset as int) * SCALE as int)
            by (nonlinear_arith)
            requires
                SCALE as int > 0,
        ;
        assert(abs_int(offset as int) * SCALE as int <= (3 * VAL_MAX as int) * (SCALE as int))
            by (nonlinear_arith)
            requires
                abs_int(offset as int) <= 3 * VAL_MAX as int,
        ;
        assert((3 * VAL_MAX as int) * (SCALE as int) <= (3 * VAL_MAX as int * 100) * size as int)
            by (nonlinear_arith)
            requires
                size as int >= TRACK_EPS as int,
                SCALE as int == 100 * TRACK_EPS as int,
        ;
        lemma_div_range(
            abs_int(offset as int * SCALE as int),
            size as int,
            3 * VAL_MAX as int * 100,
        );
    }
    let rel = clamp64(mul_div(offset, SCALE, size), 0, SCALE);
    let span = max - min;
    proof {
        assert(0 <= rel as int * span as int && rel as int * span as int <= SCALE as int
            * span as int) by (nonlinear_arith)
            requires
                0 <= rel as int <= SCALE as int,
                0 <= span as int,
        ;
        lemma_div_range(rel as int * span as int, SCALE as int, span as int);
    }
    min + mul_div(rel, span, SCALE)
}

impl SliderWidget {
    pub open spec fn wf(self) -> bool {
        self.slider.wf()
    }

    /// Builds a slider root over an already clamped state; the first sync is
    /// already requested.
    pub fn new(id: WidgetId, slider: Slider, options: SliderOptions) -> (r: SliderWidget)
        requires
            slider.wf(),
        ensures
            r.id == id,
            r.slider == slider,
            r.options == options,
            r.needs_visual_update,
            r.wf(),
    {
        SliderWidget {
            id,
            slider,
            options,
            needs_visual_update: true,
            visuals: SliderVisuals {
                handle_percent: 0,
                fill_percent: 0,
                value_text: String::new(),
            },
        }
    }

    /// Applies a requested value through the shared pipeline: snap to the
    /// step grid, clamp into range, and emit a change (marking the widget
    /// dirty) exactly when the stored value moves.
    fn apply_value(&mut self, requested: i64) -> (ev: Option<SliderValueChangedEvent>)
        requires
            old(self).wf(),
            -2 * VAL_MAX <= requested <= 2 * VAL_MAX,
        ensures
            final(self).wf(),
            ({
                let stepped = clamp_spec(
                    apply_step_spec(requested as int, old(self).slider.min as int, old(self).slider.step),
                    old(self).slider.min as int,
                    old(self).slider.max as int,
                );
                if stepped != old(self).slider.value {
                    &&& final(self).slider == (Slider { value: stepped as i64, ..old(self).slider })
                    &&& final(self).needs_visual_update
                    &&& final(self).options == old(self).options
                    &&& final(self).visuals == old(self).visuals
                    &&& final(self).id == old(self).id
                    &&& ev == Some(
                        SliderValueChangedEvent {
                            entity: old(self).id,
                            handle_entity: old(self).slider.handle_entity,
                            previous_value: old(self).slider.value,
                            new_value: stepped as i64,
                            orientation: old(self).slider.orientation,
                        },
                    )
                } else {
                    &&& *final(self) == *old(self)
                    &&& ev.is_none()
                }
            }),
    {
        let stepped = apply_step(requested, self.slider.min, self.slider.step);
        let clamped = clamp64(stepped, self.slider.min, self.slider.max);
        if clamped != self.slider.value {
            let previous = self.slider.value;
            self.slider.value = clamped;
            self.needs_visual_update = true;
            Some(
                SliderValueChangedEvent {
                    entity: self.id,
                    handle_entity: self.slider.handle_entity,
                    previous_value: previous,
                    new_value: clamped,
                    orientation: self.slider.orientation,
                },
            )
        } else {
            None
        }
    }

    /// One drag update: the pointer coordinate on the track's own axis is
    /// projected into the range, snapped, clamped, and stored; a change is
    /// emitted only when the value actually moves.
    pub fn drag_to(
        &mut self,
        cursor_x: i64,
        cursor_y: i64,
        track_center_x: i64,
        track_center_y: i64,
        track_size_x: i64,
        track_size_y: i64,
    ) -> (ev: Option<SliderValueChangedEvent>)
        requires
            old(self).wf(),
            fits(cursor_x as int),
            fits(cursor_y as int),
            fits(track_center_x as int),
            fits(track_center_y as int),
            0 <= track_size_x <= VAL_MAX,
            0 <= track_size_y <= VAL_MAX,
        ensures
            final(self).wf(),
            old(self).slider.min <= final(self).slider.value <= old(self).slider.max,
            final(self).slider.min == old(self).slider.min && final(self).slider.max == old(
                self,
            ).slider.max && final(self).slider.step == old(self).slider.step,
            ({
                let raw = if old(self).slider.orientation == SliderOrientation::Horizontal {
                    pointer_value_spec(
                        cursor_x as int,
                        track_center_x as int,
                        track_size_x as int,
                        old(self).slider.min as int,
                        old(self).slider.max as int,
                    )
                } else {
                    pointer_value_spec(
                        cursor_y as int,
                        track_center_y as int,
                        track_size_y as int,
                        old(self).slider.min as int,
                        old(self).slider.max as int,
                    )
                };
                let stepped = clamp_spec(
                    apply_step_spec(raw, old(self).slider.min as int, old(self).slider.step),
                    old(self).slider.min as int,
                    old(self).slider.max as int,
                );
                if stepped != old(self).slider.value {
                    final(self).slider.value == stepped && final(self).needs_visual_update
                        && ev == Some(
                        SliderValueChangedEvent {
                            entity: old(self).id,
                            handle_entity: old(self).slider.handle_entity,
                            previous_value: old(self).slider.value,
                            new_value: stepped as i64,
                            orientation: old(self).slider.orientation,
                        },
                    )
                } else {
                    *final(self) == *old(self) && ev.is_none()
                }
            }),
    {
        let raw = match self.slider.orientation {
            SliderOrientation::Horizontal => cursor_position_to_value(
                cursor_x,
                track_center_x,
                track_size_x,
                self.slider.min,
                self.slider.max,
            ),
            SliderOrientation::Vertical => cursor_position_to_value(
                cursor_y,
                track_center_y,
                track_size_y,
                self.slider.min,
                self.slider.max,
            ),
        };
        self.apply_value(raw)
    }

    /// One arrow-key step: by the configured step, or five percent of the
    /// range when none (or a non-positive one) is configured.
    pub fn step_by(&mut self, direction: i64) -> (ev: Option<SliderValueChangedEvent>)
        requires
            old(self).wf(),
            -1 <= direction <= 1,
        ensures
            final(self).wf(),
            old(self).slider.min <= final(self).slider.value <= old(self).slider.max,
            ({
                let amount = step_amount_spec(old(self).slider);
                let stepped = clamp_spec(
                    apply_step_spec(
                        old(self).slider.value + direction * amount,
                        old(self).slider.min as int,
                        old(self).slider.step,
                    ),
                    old(self).slider.min as int,
                    old(self).slider.max as int,
                );
                if stepped != old(self).slider.value {
                    final(self).slider.value == stepped && final(self).needs_visual_update
                        && ev == Some(
                        SliderValueChangedEvent {
                            entity: old(self).id,
                            handle_entity: old(self).slider.handle_entity,
                            previous_value: old(self).slider.value,
                            new_value: stepped as i64,
                            orientation: old(self).slider.orientation,
                        },
                    )
                } else {
                    *final(self) == *old(self) && ev.is_none()
                }
            }),
    {
        let amount = step_amount(&self.slider);
        proof {
            assert(abs_int(direction as int * amount as int) <= VAL_MAX as int)
                by (nonlinear_arith)
                requires
                    -1 <= direction as int <= 1,
                    0 <= amount as int <= VAL_MAX as int,
            ;
        }
        let requested = self.slider.value + direction * amount;
        self.apply_value(requested)
    }

    /// The direct programmatic mutator: requests a value through the same
    /// snapping, clamping and event emission as the user-driven paths.
    pub fn set_value(&mut self, value: i64) -> (ev: Option<SliderValueChangedEvent>)
        requires
            old(self).wf(),
            fits(value as int),
        ensures
            final(self).wf(),
            old(self).slider.min <= final(self).slider.value <= old(self).slider.max,
            ({
                let stepped = clamp_spec(
                    apply_step_spec(value as int, old(self).slider.min as int, old(self).slider.step),
                    old(self).slider.min as int,
                    old(self).slider.max as int,
                );
                if stepped != old(self).slider.value {
                    final(self).slider.value == stepped && final(self).needs_visual_update && ev
                        == Some(
                        SliderValueChangedEvent {
                            entity: old(self).id,
                            handle_entity: old(self).slider.handle_entity,
                            previous_value: old(self).slider.value,
                            new_value: stepped as i64,
                            orientation: old(self).slider.orientation,
                        },
                    )
                } else {
                    *final(self) == *old(self) && ev.is_none()
                }
            }),
    {
        self.apply_value(value)
    }

    /// The dirty-driven visual pass: recomputes the handle offset, the fill
    /// size and the value label from the state, then clears the dirty
    /// marker.
    pub fn sync(&mut self)
        requires
            old(self).wf(),
        ensures
            final(self).wf(),
            !final(self).needs_visual_update,
            final(self).slider == old(self).slider,
            final(self).options == old(self).options,
            final(self).id == old(self).id,
            final(self).visuals.handle_percent == 100 * old(self).slider.normalized_spec(),
            final(self).visuals.fill_percent == 100 * old(self).slider.normalized_spec(),
            final(self).visuals.value_text@ == format_value_spec(
                old(self).slider.value as int,
                old(self).options.format,
            ),
    {
        let n = self.slider.normalized();
        let text = format_value(self.slider.value, &self.options.format);
        self.visuals = SliderVisuals {
            handle_percent: 100 * n,
            fill_percent: 100 * n,
            value_text: text,
        };
        self.needs_visual_update = false;
    }
}

/// The amount one arrow-key step moves the value: the configured step, or
/// five percent of the range when none (or a non-positive one) is set.
pub open spec fn step_amount_spec(s: Slider) -> int {
    match s.step {
        Some(st) => {
            if st > 0 {
                st as int
            } else {
                tdiv((s.max - s.min) * 5, 100)
            }
        },
        None => tdiv((s.max - s.min) * 5, 100),
    }
}

fn step_amount(s: &Slider) -> (r: i64)
    requires
        s.wf(),
    ensures
        r == step_amount_spec(*s),
        0 <= r <= VAL_MAX,
{
    let configured: i64 = match s.step {
        Some(st) => st,
        None => 0,
    };
    if configured > 0 {
        proof {
            assert(fits(configured as int));
        }
        configured
    } else {
        let span = s.max - s.min;
        proof {
            assert(0 <= span as int * 5 && span as int * 5 <= VAL_MAX as int * 100)
                by (nonlinear_arith)
                requires
                    0 <= span as int <= 2 * VAL_MAX as int,
            ;
            lemma_div_range(span as int * 5, 100, VAL_MAX as int);
        }
        (span * 5) / 100
    }
}

/// The exact value label: the value with the asked-for decimals, or the
/// value as a percentage.  Decimals are capped at the six the fixed-point
/// representation carries.
pub open spec fn format_value_spec(value: int, format: ValueFormat) -> Seq<char> {
    match format {
        ValueFormat::Precision(p) => spec_format_fixed(
            value,
            if p > 6 {
                6
            } else {
                p as int
            },
        ),
        ValueFormat::Percent(p) => spec_format_fixed(
            100 * value,
            if p > 6 {
                6
            } else {
                p as int
            },
        ) + seq!['%'],
    }
}

/// Renders a slider value under a format.
pub fn format_value(value: i64, format: &ValueFormat) -> (r: String)
    requires
        fits(value as int),
    ensures
        r@ == format_value_spec(value as int, *format),
{
    match format {
        ValueFormat::Precision(p) => {
            let d = if *p > 6 {
                6
            } else {
                *p
            };
            format_fixed(value, d)
        },
        ValueFormat::Percent(p) => {
            let d = if *p > 6 {
                6
            } else {
                *p
            };
            let mut s = format_fixed(100 * value, d);
            proof {
                reveal_strlit("%");
            }
            s.append("%");
            proof {
                assert(s@ =~= format_value_spec(value as int, *format));
            }
            s
        },
    }
}

/// The key auto-repeat state: which arrow key is held and how long until it
/// fires again.
pub struct SliderInputState {
    pub held_key: Option<Key>,
    /// Fixed-point seconds until the held key repeats.
    pub remaining: i64,
}

impl Default for SliderInputState {
    /// No key held; the first press will arm the initial delay.
    fn default() -> (r: SliderInputState)
        ensures
            r.held_key.is_none(),
            r.remaining == KEY_REPEAT_DELAY,
    {
        SliderInputState { held_key: None, remaining: KEY_REPEAT_DELAY }
    }
}

/// The stepping direction an arrow key asks for.
pub open spec fn arrow_direction_spec(key: Key) -> int {
    match key {
        Key::ArrowRight | Key::ArrowUp => 1,
        Key::ArrowLeft | Key::ArrowDown => -1,
        _ => 0,
    }
}

pub fn arrow_direction(key: Key) -> (r: i64)
    ensures
        r == arrow_direction_spec(key),
{
    match key {
        Key::ArrowRight | Key::ArrowUp => 1,
        Key::ArrowLeft | Key::ArrowDown => -1,
        _ => 0,
    }
}

impl SliderInputState {
    /// Consumes one tick of keyboard input and decides the step direction:
    /// a fresh arrow press steps at once and arms the initial delay; a key
    /// still held steps again each time the timer runs out, at the faster
    /// repeat interval; releasing the key (or pressing a different one)
    /// resets the cycle.
    pub fn key_tick(&mut self, just_pressed: Option<Key>, held_down: bool, dt: i64) -> (direction:
        i64)
        requires
            0 <= dt <= VAL_MAX,
            0 <= old(self).remaining <= KEY_REPEAT_DELAY,
        ensures
            -1 <= direction <= 1,
            0 <= final(self).remaining <= KEY_REPEAT_DELAY,
            match just_pressed {
                Some(k) => {
                    &&& (arrow_direction_spec(k) != 0 ==> direction == arrow_direction_spec(k)
                        && final(self).held_key == Some(k) && final(self).remaining
                        == KEY_REPEAT_DELAY)
                    &&& (arrow_direction_spec(k) == 0 ==> direction == 0)
                },
                None => {
                    &&& (old(self).held_key.is_none() ==> direction == 0 && *final(self) == *old(
                        self))
                    &&& (old(self).held_key.is_some() && !held_down ==> direction == 0 && final(
                        self).held_key.is_none())
                    &&& (old(self).held_key.is_some() && held_down ==> {
                        let left = old(self).remaining - dt;
                        if left <= 0 {
                            direction == arrow_direction_spec(old(self).held_key.unwrap())
                                && final(self).remaining == KEY_REPEAT_INTERVAL && final(
                                self).held_key == old(self).held_key
                        } else {
                            direction == 0 && final(self).remaining == left && final(self).held_key
                                == old(self).held_key
                        }
                    })
                },
            },
    {
        match just_pressed {
            Some(k) => {
                let dir = arrow_direction(k);
                if dir != 0 {
                    self.held_key = Some(k);
                    self.remaining = KEY_REPEAT_DELAY;
                    dir
                } else {
                    0
                }
            },
            None => {
                match self.held_key {
                    Some(k) => {
                        if held_down {
                            if self.remaining <= dt {
                                self.remaining = KEY_REPEAT_INTERVAL;
                                arrow_direction(k)
                            } else {
                                self.remaining = self.remaining - dt;
                                0
                            }
                        } else {
                            self.held_key = None;
                            0
                        }
                    },
                    None => 0,
                }
            },
        }
    }
}

/// Buffering for the release-only emit mode: a change arriving while the
/// mode is `OnRelease` is held back as the pending value instead of being
/// passed downstream.
pub fn buffer_change(
    mode: &SliderEmitMode,
    event: &SliderValueChangedEvent,
    pending: Option<SliderPendingChange>,
) -> (r: Option<SliderPendingChange>)
    ensures
        *mode == SliderEmitMode::OnRelease ==> r == Some(
            SliderPendingChange { value: event.new_value },
        ),
        *mode == SliderEmitMode::Continuous ==> r == pending,
{
    match mode {
        SliderEmitMode::OnRelease => Some(SliderPendingChange { value: event.new_value }),
        SliderEmitMode::Continuous => pending,
    }
}

/// The release side of the buffered mode: when the interaction signal falls
/// back to idle, the pending change is consumed.
pub fn release_pending(
    interaction: crate::Interaction,
    pending: Option<SliderPendingChange>,
) -> (r: Option<SliderPendingChange>)
    ensures
        interaction == crate::Interaction::Idle ==> r.is_none(),
        interaction != crate::Interaction::Idle ==> r == pending,
{
    match interaction {
        crate::Interaction::Idle => None,
        _ => pending,
    }
}

/// The visual sync pass is idempotent: it reads only the slider state and
/// the options, and leaves both unchanged, so a second pass with no
/// intervening change derives the very same handle offset, fill size and
/// label, and the dirty marker is already gone after the first pass.
pub proof fn lemma_slider_sync_idempotent(a: SliderWidget, b: SliderWidget)
    requires
        a.slider == b.slider,
        a.options == b.options,
    ensures
        a.slider.normalized_spec() == b.slider.normalized_spec(),
        format_value_spec(a.slider.value as int, a.options.format) == format_value_spec(
            b.slider.value as int,
            b.options.format,
        ),
{
}

/// Any pointer coordinate yields a value inside `[min, max]`; and when a
/// positive step that divides the range is configured, the snapped value
/// needs no clamping and `value - min` is an exact multiple of the step.
pub proof fn lemma_drag_lands_on_grid(raw: int, min: int, max: int, s: int)
    requires
        min <= raw <= max,
        0 < s <= VAL_MAX,
        -VAL_MAX <= min <= max <= VAL_MAX,
        (max - min) % s == 0,
    ensures
        ({
            let stepped = apply_step_spec(raw, min, Some(s as i64));
            &&& min <= stepped <= max
            &&& clamp_spec(stepped, min, max) == stepped
            &&& (stepped - min) % s == 0
        }),
{
    let q = rdiv(raw - min, s);
    let k = (max - min) / s;
    vstd::arithmetic::div_mod::lemma_fundamental_div_mod(max - min, s);
    assert(max - min == k * s) by (nonlinear_arith)
        requires
            max - min == s * k + (max - min) % s,
            (max - min) % s == 0,
    ;
    assert(k >= 0) by (nonlinear_arith)
        requires
            max - min >= 0,
            max - min == k * s,
            s > 0,
    ;
    lemma_rdiv_monotone(0, raw - min, s);
    lemma_rdiv_monotone(raw - min, max - min, s);
    lemma_rdiv_exact(0, s);
    lemma_rdiv_exact(k, s);
    assert(rdiv(0, s) == 0) by (nonlinear_arith)
        requires
            rdiv(0 * s, s) == 0,
    ;
    assert(0 <= q <= k);
    assert(0 <= q * s <= k * s) by (nonlinear_arith)
        requires
            0 <= q <= k,
            s > 0,
    ;
    vstd::arithmetic::div_mod::lemma_mod_multiples_basic(q, s);
    assert((min + q * s - min) % s == 0);
}

} // verus!
