//! The toggle switch: a boolean state flipped by presses or keys, a
//! constant-speed knob animation, and the dirty-driven track/knob visual
//! sync.

use vstd::prelude::*;

use crate::{Interaction, Key, WidgetId};
use crate::color::Color;
use crate::fixed::{
    abs_int, clamp_spec, lemma_div_range, lemma_scale_shrinks, lemma_tdiv_abs, mul_div, tdiv,
    SCALE, VAL_MAX,
};

verus! {

/// Fixed-point distance from the target inside which the lerp snaps exactly
/// onto it.
pub const SNAP_EPS: i64 = 10_000;

/// Smallest animation duration the lerp divides by.
pub const TOGGLE_DUR_EPS: i64 = 1_000;

/// Longest tick the toggle animation accepts: one second.
pub const TOGGLE_DT_MAX: i64 = 1_000_000;

#[derive(Debug, Clone, Copy, PartialEq, Eq, Structural)]
pub struct Toggle {
    pub is_on: bool,
}

/// Cached references from a toggle root to its owned sub-nodes, populated at
/// construction so the sync pass never walks the hierarchy.
#[derive(Debug, Clone, Copy, PartialEq, Eq, Structural)]
pub struct ToggleParts {
    pub track: WidgetId,
    pub knob: WidgetId,
}

#[derive(Debug, Clone, Copy, PartialEq)]
pub struct ToggleConfig {
    pub animated: bool,
    /// Seconds a full off-to-on sweep takes, fixed-point.
    pub animation_duration: i64,
    pub on_color: Color,
    pub off_color: Color,
    pub knob_color: Color,
    /// Track width, fixed-point pixels.
    pub size_x: i64,
    /// Track height, fixed-point pixels.
    pub size_y: i64,
    /// Gap between the knob and the track edge, fixed-point pixels.
    pub knob_margin: i64,
    /// Pointer travel, fixed-point pixels, below which a press stays a press.
    pub drag_threshold: i64,
}

impl ToggleConfig {
    pub open spec fn wf(self) -> bool {
        &&& self.on_color.wf()
        &&& self.off_color.wf()
        &&& self.knob_color.wf()
        &&& 0 <= self.animation_duration <= VAL_MAX
        &&& 0 < self.size_y <= self.size_x <= VAL_MAX
        &&& 0 <= 2 * self.knob_margin <= self.size_y
        &&& 0 <= self.drag_threshold <= VAL_MAX
    }
}

impl Default for ToggleConfig {
    /// The stock switch: animated over 0.2 seconds, green when on, gray when
    /// off, a white knob, 50 by 25 pixels with a 2-pixel knob margin.
    fn default() -> (r: ToggleConfig)
        ensures
            r == (ToggleConfig {
                animated: true,
                animation_duration: 200_000,
                on_color: Color { red: 200_000, green: 800_000, blue: 200_000, alpha: SCALE as i64 },
                off_color: Color { red: 500_000, green: 500_000, blue: 500_000, alpha: SCALE as i64 },
                knob_color: Color { red: SCALE as i64, green: SCALE as i64, blue: SCALE as i64, alpha: SCALE as i64 },
                size_x: 50_000_000,
                size_y: 25_000_000,
                knob_margin: 2_000_000,
                drag_threshold: 5_000_000,
            }),
            r.wf(),
    {
        ToggleConfig {
            animated: true,
            animation_duration: 200_000,
            on_color: Color::rgb(200_000, 800_000, 200_000),
            off_color: Color::rgb(500_000, 500_000, 500_000),
            knob_color: Color::rgb(SCALE, SCALE, SCALE),
            size_x: 50_000_000,
            size_y: 25_000_000,
            knob_margin: 2_000_000,
            drag_threshold: 5_000_000,
        }
    }
}

#[derive(Debug, Clone, Copy, PartialEq)]
pub struct ToggleAnimation {
    /// Animated knob position in `[0, SCALE]`.
    pub progress: i64,
    /// Position the animation heads toward: 0 when off, `SCALE` when on.
    pub target_progress: i64,
}

impl ToggleAnimation {
    pub open spec fn wf(self) -> bool {
        &&& 0 <= self.progress <= SCALE
        &&& 0 <= self.target_progress <= SCALE
    }
}

#[derive(Debug, Clone, Copy, PartialEq, Eq, Structural)]
pub enum ToggleChangeKind {
    User,
    Programmatic,
}

#[derive(Debug, Clone, Copy, PartialEq)]
pub struct ToggleChangedEvent {
    pub toggle_entity: WidgetId,
    pub previous_state: bool,
    pub new_state: bool,
    pub kind: ToggleChangeKind,
}

/// The derived visual attributes of a toggle: the track colour and the
/// knob's offset and size, fixed-point pixels.
#[derive(Debug, Clone, Copy, PartialEq)]
pub struct ToggleVisuals {
    pub track_color: Color,
    pub knob_left: i64,
    pub knob_size: i64,
}

/// A toggle widget root with its owned state, animation, dirty marker, focus
/// flag and derived visuals.
#[derive(Debug, Clone, Copy, PartialEq)]
pub struct ToggleWidget {
    pub id: WidgetId,
    pub toggle: Toggle,
    pub config: ToggleConfig,
    pub animation: ToggleAnimation,
    pub needs_visual_update: bool,
    pub focused: bool,
    pub disabled: bool,
    pub visuals: ToggleVisuals,
}

/// The track colour derived from state and animation: the off colour blended
/// toward the on colour by the animation progress (or picked outright when
/// unanimated), dimmed to half alpha when disabled.
pub open spec fn toggle_track_color_spec(w: ToggleWidget) -> Color {
    let base = if w.config.animated {
        w.config.off_color.mix_spec(w.config.on_color, w.animation.progress as int)
    } else if w.toggle.is_on {
        w.config.on_color
    } else {
        w.config.off_color
    };
    if w.disabled {
        Color { alpha: 500_000, ..base }
    } else {
        base
    }
}

/// The knob offset: its margin plus the animated share of the travel
/// distance `size_x - size_y`.
pub open spec fn toggle_knob_left_spec(w: ToggleWidget) -> int {
    w.config.knob_margin + tdiv(
        (w.config.size_x - w.config.size_y) * w.animation.progress,
        SCALE as int,
    )
}

/// The knob diameter: the track height minus both margins.
pub open spec fn toggle_knob_size_spec(w: ToggleWidget) -> int {
    w.config.size_y - 2 * w.config.knob_margin
}

/// What the sync pass leaves behind: every derived visual recomputed from
/// state and animation, and the dirty marker cleared; nothing else moves.
pub open spec fn toggle_sync_spec(w: ToggleWidget) -> ToggleWidget {
    ToggleWidget {
        visuals: ToggleVisuals {
            track_color: toggle_track_color_spec(w),
            knob_left: toggle_knob_left_spec(w) as i64,
            knob_size: toggle_knob_size_spec(w) as i64,
        },
        needs_visual_update: false,
        ..w
    }
}

/// One constant-speed animation tick: the progress moves toward the target
/// at rate `1 / duration` per second and snaps onto it from within one step
/// or the snap band; an unanimated toggle jumps straight to the target.
pub open spec fn toggle_animate_spec(w: ToggleWidget, dt: int) -> ToggleAnimation {
    let target: int = if w.toggle.is_on {
        SCALE as int
    } else {
        0
    };
    if !w.config.animated {
        ToggleAnimation { progress: target as i64, target_progress: target as i64 }
    } else {
        let dur = if w.config.animation_duration < TOGGLE_DUR_EPS {
            TOGGLE_DUR_EPS as int
        } else {
            w.config.animation_duration as int
        };
        let step = tdiv(dt * SCALE, dur);
        let rem = target - w.animation.progress;
        if abs_int(rem) <= step || abs_int(rem) < SNAP_EPS {
            ToggleAnimation { progress: target as i64, target_progress: target as i64 }
        } else if rem > 0 {
            ToggleAnimation {
                progress: (w.animation.progress + step) as i64,
                target_progress: target as i64,
            }
        } else {
            ToggleAnimation {
                progress: (w.animation.progress - step) as i64,
                target_progress: target as i64,
            }
        }
    }
}

impl ToggleWidget {
    pub open spec fn wf(self) -> bool {
        &&& self.config.wf()
        &&& self.animation.wf()
    }

    /// Builds a toggle root: the animation rests on the initial state and the
    /// first sync is already requested.
    pub fn new(id: WidgetId, initial_state: bool, config: ToggleConfig, disabled: bool) -> (r:
        ToggleWidget)
        requires
            config.wf(),
        ensures
            r.id == id,
            r.toggle.is_on == initial_state,
            r.config == config,
            r.disabled == disabled,
            r.needs_visual_update,
            !r.focused,
            r.animation.progress == if initial_state {
                SCALE as int
            } else {
                0
            },
            r.animation.target_progress == r.animation.progress,
            r.visuals == toggle_sync_spec(r).visuals,
            r.wf(),
    {
        let progress: i64 = if initial_state {
            SCALE
        } else {
            0
        };
        let mut w = ToggleWidget {
            id,
            toggle: Toggle { is_on: initial_state },
            config,
            animation: ToggleAnimation { progress, target_progress: progress },
            needs_visual_update: true,
            focused: false,
            disabled,
            visuals: ToggleVisuals {
                track_color: config.off_color,
                knob_left: 0,
                knob_size: 0,
            },
        };
        let v = toggle_compute_visuals(&w);
        w.visuals = v;
        w
    }

    /// Flips the state and reports the change; the caller says whether a
    /// user or a program asked.
    fn flip(&mut self, kind: ToggleChangeKind) -> (ev: ToggleChangedEvent)
        requires
            old(self).wf(),
        ensures
            final(self).toggle.is_on == !old(self).toggle.is_on,
            final(self).needs_visual_update,
            *final(self) == (ToggleWidget {
                toggle: Toggle { is_on: !old(self).toggle.is_on },
                needs_visual_update: true,
                ..*old(self)
            }),
            ev == (ToggleChangedEvent {
                toggle_entity: old(self).id,
                previous_state: old(self).toggle.is_on,
                new_state: !old(self).toggle.is_on,
                kind,
            }),
    {
        let previous = self.toggle.is_on;
        self.toggle.is_on = !previous;
        self.needs_visual_update = true;
        ToggleChangedEvent {
            toggle_entity: self.id,
            previous_state: previous,
            new_state: !previous,
            kind,
        }
    }

    /// Routes one interaction-state change: a press flips an enabled toggle
    /// (emitting a user change and marking it dirty) and grants focus; the
    /// signal falling back to idle revokes focus; hovering does nothing.
    pub fn on_interaction(&mut self, interaction: Interaction) -> (ev: Option<ToggleChangedEvent>)
        requires
            old(self).wf(),
        ensures
            final(self).wf(),
            interaction == Interaction::Pressed && !old(self).disabled ==> {
                &&& *final(self) == (ToggleWidget {
                    toggle: Toggle { is_on: !old(self).toggle.is_on },
                    needs_visual_update: true,
                    focused: true,
                    ..*old(self)
                })
                &&& ev == Some(
                    ToggleChangedEvent {
                        toggle_entity: old(self).id,
                        previous_state: old(self).toggle.is_on,
                        new_state: !old(self).toggle.is_on,
                        kind: ToggleChangeKind::User,
                    },
                )
            },
            interaction == Interaction::Pressed && old(self).disabled ==> *final(self) == (
            ToggleWidget { focused: true, ..*old(self) }) && ev.is_none(),
            interaction == Interaction::Idle ==> *final(self) == (ToggleWidget {
                focused: false,
                ..*old(self)
            }) && ev.is_none(),
            interaction == Interaction::Hovered ==> *final(self) == *old(self) && ev.is_none(),
    {
        match interaction {
            Interaction::Pressed => {
                let ev = if !self.disabled {
                    Some(self.flip(ToggleChangeKind::User))
                } else {
                    None
                };
                self.focused = true;
                ev
            },
            Interaction::Idle => {
                self.focused = false;
                None
            },
            Interaction::Hovered => None,
        }
    }

    /// Routes one key press: Space or Enter flips a focused toggle.
    pub fn on_key(&mut self, key: Key) -> (ev: Option<ToggleChangedEvent>)
        requires
            old(self).wf(),
        ensures
            final(self).wf(),
            old(self).focused && (key == Key::Space || key == Key::Enter) ==> {
                &&& *final(self) == (ToggleWidget {
                    toggle: Toggle { is_on: !old(self).toggle.is_on },
                    needs_visual_update: true,
                    ..*old(self)
                })
                &&& ev == Some(
                    ToggleChangedEvent {
                        toggle_entity: old(self).id,
                        previous_state: old(self).toggle.is_on,
                        new_state: !old(self).toggle.is_on,
                        kind: ToggleChangeKind::User,
                    },
                )
            },
            !(old(self).focused && (key == Key::Space || key == Key::Enter)) ==> *final(self)
                == *old(self) && ev.is_none(),
    {
        if self.focused && (matches!(key, Key::Space) || matches!(key, Key::Enter)) {
            Some(self.flip(ToggleChangeKind::User))
        } else {
            None
        }
    }

    /// The direct programmatic mutator: sets the state, emitting a
    /// programmatic change exactly when the state actually moves.
    pub fn set_on(&mut self, on: bool) -> (ev: Option<ToggleChangedEvent>)
        requires
            old(self).wf(),
        ensures
            final(self).wf(),
            final(self).toggle.is_on == on,
            on != old(self).toggle.is_on ==> {
                &&& *final(self) == (ToggleWidget {
                    toggle: Toggle { is_on: on },
                    needs_visual_update: true,
                    ..*old(self)
                })
                &&& ev == Some(
                    ToggleChangedEvent {
                        toggle_entity: old(self).id,
                        previous_state: old(self).toggle.is_on,
                        new_state: on,
                        kind: ToggleChangeKind::Programmatic,
                    },
                )
            },
            on == old(self).toggle.is_on ==> *final(self) == *old(self) && ev.is_none(),
    {
        if on != self.toggle.is_on {
            Some(self.flip(ToggleChangeKind::Programmatic))
        } else {
            None
        }
    }

    /// Advances the knob animation by `dt` seconds.
    pub fn animate(&mut self, dt: i64)
        requires
            old(self).wf(),
            0 <= dt <= TOGGLE_DT_MAX,
        ensures
            *final(self) == (ToggleWidget {
                animation: toggle_animate_spec(*old(self), dt as int),
                ..*old(self)
            }),
            final(self).wf(),
    {
        let target: i64 = if self.toggle.is_on {
            SCALE
        } else {
            0
        };
        if !self.config.animated {
            self.animation.progress = target;
            self.animation.target_progress = target;
            return ;
        }
        let dur = if self.config.animation_duration < TOGGLE_DUR_EPS {
            TOGGLE_DUR_EPS
        } else {
            self.config.animation_duration
        };
        proof {
            assert(0 <= dt as int * SCALE as int && dt as int * SCALE as int <= (SCALE as int
                * 1_000) * dur as int) by (nonlinear_arith)
                requires
                    0 <= dt as int <= TOGGLE_DT_MAX as int,
                    dur as int >= TOGGLE_DUR_EPS as int,
                    TOGGLE_DT_MAX as int == SCALE as int,
                    SCALE as int == 1_000 * TOGGLE_DUR_EPS as int,
            ;
            lemma_div_range(dt as int * SCALE as int, dur as int, SCALE as int * 1_000);
        }
        let step = mul_div(dt, SCALE, dur);
        let rem = target - self.animation.progress;
        let rem_abs = if rem < 0 {
            -rem
        } else {
            rem
        };
        self.animation.target_progress = target;
        if rem_abs <= step || rem_abs < SNAP_EPS {
            self.animation.progress = target;
        } else if rem > 0 {
            self.animation.progress = self.animation.progress + step;
        } else {
            self.animation.progress = self.animation.progress - step;
        }
    }

    /// The dirty-driven visual pass: recomputes the track colour and the knob
    /// offset and size from state and animation, then clears the dirty
    /// marker.  The marker is never re-set here.
    pub fn sync(&mut self)
        requires
            old(self).wf(),
        ensures
            *final(self) == toggle_sync_spec(*old(self)),
            final(self).wf(),
            !final(self).needs_visual_update,
    {
        let v = toggle_compute_visuals(self);
        self.visuals = v;
        self.needs_visual_update = false;
    }
}

/// Computes the derived visuals of a toggle without writing them back.
fn toggle_compute_visuals(w: &ToggleWidget) -> (r: ToggleVisuals)
    requires
        w.wf(),
    ensures
        r == toggle_sync_spec(*w).visuals,
{
    let base = if w.config.animated {
        w.config.off_color.mix(&w.config.on_color, w.animation.progress)
    } else if w.toggle.is_on {
        w.config.on_color
    } else {
        w.config.off_color
    };
    let track_color = if w.disabled {
        base.with_alpha(500_000)
    } else {
        base
    };
    let travel = w.config.size_x - w.config.size_y;
    proof {
        lemma_tdiv_abs(travel as int * w.animation.progress as int, SCALE as int);
        assert(abs_int(travel as int * w.animation.progress as int) <= VAL_MAX as int
            * SCALE as int) by (nonlinear_arith)
            requires
                0 <= travel as int <= VAL_MAX as int,
                0 <= w.animation.progress as int <= SCALE as int,
        ;
        crate::fixed::lemma_div_range(
            abs_int(travel as int * w.animation.progress as int),
            SCALE as int,
            VAL_MAX as int,
        );
    }
    let knob_left = w.config.knob_margin + mul_div(travel, w.animation.progress, SCALE);
    let knob_size = w.config.size_y - 2 * w.config.knob_margin;
    ToggleVisuals { track_color, knob_left, knob_size }
}

/// The visual sync pass is idempotent: a second pass with no intervening
/// state or animation change recomputes the very same visual values, and the
/// dirty marker is already gone after the first pass.
pub proof fn lemma_toggle_sync_idempotent(w: ToggleWidget)
    requires
        w.wf(),
    ensures
        !toggle_sync_spec(w).needs_visual_update,
        toggle_sync_spec(toggle_sync_spec(w)) == toggle_sync_spec(w),
{
}

/// The knob animation is idempotent under zero-delta ticks: a tick that
/// advances time by nothing either leaves the animation untouched or snaps a
/// knob already inside the snap band onto its target, and a second such tick
/// changes nothing more.
pub proof fn lemma_toggle_zero_dt_idempotent(w: ToggleWidget)
    requires
        w.wf(),
    ensures
        ({
            let once = toggle_animate_spec(w, 0);
            toggle_animate_spec(ToggleWidget { animation: once, ..w }, 0) == once
        }),
{
    let s = SCALE as int;
    assert(tdiv(0 * s, if w.config.animation_duration < TOGGLE_DUR_EPS {
        TOGGLE_DUR_EPS as int
    } else {
        w.config.animation_duration as int
    }) == 0) by (nonlinear_arith)
        requires
            w.config.animation_duration as int >= 0,
            TOGGLE_DUR_EPS as int > 0,
    ;
}

/// At the ends of its sweep the toggle's visuals are exact: at progress 0
/// the knob sits on its margin and the track shows the off colour; at full
/// progress the knob offset is `size_x - size_y + margin` and the track
/// shows exactly the on colour.
pub proof fn lemma_toggle_visuals_at_ends(w: ToggleWidget)
    requires
        w.wf(),
        w.config.animated,
        !w.disabled,
    ensures
        w.animation.progress == 0 ==> toggle_knob_left_spec(w) == w.config.knob_margin
            && toggle_track_color_spec(w) == w.config.off_color,
        w.animation.progress == SCALE ==> toggle_knob_left_spec(w) == w.config.size_x
            - w.config.size_y + w.config.knob_margin && toggle_track_color_spec(w)
            == w.config.on_color,
{
    let s = SCALE as int;
    let travel = w.config.size_x - w.config.size_y;
    crate::color::lemma_mix_ends(w.config.off_color, w.config.on_color);
    assert(tdiv(travel * 0, s) == 0) by (nonlinear_arith)
        requires
            s > 0,
    ;
    assert(tdiv(travel * s, s) == travel) by (nonlinear_arith)
        requires
            s > 0,
    ;
}

} // verus!
