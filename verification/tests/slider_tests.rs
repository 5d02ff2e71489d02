use widget_runtime::fixed::SCALE;
use widget_runtime::slider::{
    apply_step, buffer_change, cursor_position_to_value, format_value, release_pending,
    SliderEmitMode, SliderInputState, SliderOptions, SliderOrientation, SliderVisuals,
    SliderWidget, Slider, ValueFormat, KEY_REPEAT_DELAY, KEY_REPEAT_INTERVAL,
};
use widget_runtime::{Interaction, Key};

const HUNDRED: i64 = 100 * SCALE;

fn stock_slider(step: Option<i64>) -> SliderWidget {
    SliderWidget {
        id: 11,
        slider: Slider {
            min: 0,
            max: HUNDRED,
            step,
            orientation: SliderOrientation::Horizontal,
            value: 50 * SCALE,
            handle_entity: 12,
        },
        options: SliderOptions { format: ValueFormat::Precision(2), show_value: true },
        needs_visual_update: false,
        visuals: SliderVisuals { handle_percent: 0, fill_percent: 0, value_text: String::new() },
    }
}

// a 200-pixel track centred at x = 100 px, so its left edge sits at zero
const CENTER_X: i64 = 100 * SCALE;
const TRACK_W: i64 = 200 * SCALE;

#[test]
fn pointer_projection_is_linear_along_the_track() {
    let v = cursor_position_to_value(50 * SCALE, CENTER_X, TRACK_W, 0, HUNDRED);
    assert_eq!(v, 25 * SCALE);
}

#[test]
fn pointer_outside_the_track_clamps_to_the_range_ends() {
    let low = cursor_position_to_value(-50 * SCALE, CENTER_X, TRACK_W, 0, HUNDRED);
    let high = cursor_position_to_value(500 * SCALE, CENTER_X, TRACK_W, 0, HUNDRED);
    assert_eq!(low, 0);
    assert_eq!(high, HUNDRED);
}

#[test]
fn drag_snaps_onto_the_step_grid() {
    let mut w = stock_slider(Some(10 * SCALE));
    // pointer at 34% of the track: the nearest grid point is 30
    let ev = w.drag_to(68 * SCALE, 0, CENTER_X, 0, TRACK_W, 0).expect("the value moved");
    assert_eq!(w.slider.value, 30 * SCALE);
    assert_eq!(ev.previous_value, 50 * SCALE);
    assert_eq!(ev.new_value, 30 * SCALE);
    assert!(w.slider.value % (10 * SCALE) == 0);
    // dragging to the same grid point again emits nothing
    assert!(w.drag_to(68 * SCALE, 0, CENTER_X, 0, TRACK_W, 0).is_none());
}

#[test]
fn dragged_value_always_lands_inside_the_range() {
    let mut w = stock_slider(Some(7 * SCALE));
    let mut x = -300 * SCALE;
    while x <= 300 * SCALE {
        w.drag_to(x, 0, CENTER_X, 0, TRACK_W, 0);
        assert!(w.slider.value >= w.slider.min);
        assert!(w.slider.value <= w.slider.max);
        x += 13 * SCALE;
    }
}

#[test]
fn vertical_sliders_project_the_y_coordinate() {
    let mut w = stock_slider(None);
    w.slider.orientation = SliderOrientation::Vertical;
    w.drag_to(0, 50 * SCALE, 0, CENTER_X, 0, TRACK_W);
    assert_eq!(w.slider.value, 25 * SCALE);
}

#[test]
fn arrow_steps_use_the_configured_step() {
    let mut w = stock_slider(Some(10 * SCALE));
    let ev = w.step_by(1).expect("stepping moves");
    assert_eq!(ev.new_value, 60 * SCALE);
    w.step_by(-1);
    assert_eq!(w.slider.value, 50 * SCALE);
}

#[test]
fn arrow_steps_fall_back_to_five_percent_of_the_range() {
    let mut w = stock_slider(None);
    w.step_by(1);
    assert_eq!(w.slider.value, 55 * SCALE);
}

#[test]
fn stepping_at_the_end_of_the_range_stays_clamped() {
    let mut w = stock_slider(Some(30 * SCALE));
    w.slider.value = 90 * SCALE;
    w.step_by(1);
    assert_eq!(w.slider.value, HUNDRED);
}

#[test]
fn apply_step_passes_a_non_positive_step_through() {
    assert_eq!(apply_step(47 * SCALE, 0, Some(0)), 47 * SCALE);
    assert_eq!(apply_step(47 * SCALE, 0, Some(-5)), 47 * SCALE);
    assert_eq!(apply_step(47 * SCALE, 0, None), 47 * SCALE);
}

#[test]
fn key_repeat_waits_then_fires_at_the_fast_interval() {
    let mut state = SliderInputState::default();
    // a fresh press steps at once and arms the delay
    let d = state.key_tick(Some(Key::ArrowRight), true, 0);
    assert_eq!(d, 1);
    assert_eq!(state.remaining, KEY_REPEAT_DELAY);
    // holding for five 50 ms ticks is still inside the 300 ms delay
    for _ in 0..5 {
        assert_eq!(state.key_tick(None, true, 50_000), 0);
    }
    // the sixth tick exhausts the delay and fires, arming the fast interval
    assert_eq!(state.key_tick(None, true, 50_000), 1);
    assert_eq!(state.remaining, KEY_REPEAT_INTERVAL);
    // from now on it fires every 50 ms tick
    assert_eq!(state.key_tick(None, true, 50_000), 1);
    // releasing the key resets the cycle
    assert_eq!(state.key_tick(None, false, 50_000), 0);
    assert!(state.held_key.is_none());
}

#[test]
fn a_new_key_resets_the_repeat_delay() {
    let mut state = SliderInputState::default();
    state.key_tick(Some(Key::ArrowRight), true, 0);
    state.key_tick(None, true, 250_000);
    // switching keys re-arms the full delay
    let d = state.key_tick(Some(Key::ArrowLeft), true, 0);
    assert_eq!(d, -1);
    assert_eq!(state.remaining, KEY_REPEAT_DELAY);
}

#[test]
fn value_labels_render_exactly() {
    assert_eq!(format_value(42_500_000, &ValueFormat::Precision(2)), "42.50");
    assert_eq!(format_value(42_500_000, &ValueFormat::Precision(0)), "43");
    assert_eq!(format_value(-2_500_000, &ValueFormat::Precision(1)), "-2.5");
    assert_eq!(format_value(425_000, &ValueFormat::Percent(1)), "42.5%");
    assert_eq!(format_value(425_000, &ValueFormat::Percent(0)), "43%");
}

#[test]
fn sync_derives_handle_fill_and_label() {
    let mut w = stock_slider(None);
    w.needs_visual_update = true;
    w.sync();
    assert!(!w.needs_visual_update);
    assert_eq!(w.visuals.handle_percent, 100 * 500_000);
    assert_eq!(w.visuals.fill_percent, 100 * 500_000);
    assert_eq!(w.visuals.value_text, "50.00");
    let first = w.visuals.clone();
    w.sync();
    assert_eq!(w.visuals, first);
}

#[test]
fn stock_slider_rests_mid_range() {
    let s = Slider::default();
    assert_eq!(s.min, 0);
    assert_eq!(s.max, SCALE);
    assert_eq!(s.value, 500_000);
    assert!(s.step.is_none());
    assert_eq!(s.orientation, SliderOrientation::Horizontal);
    assert_eq!(ValueFormat::default(), ValueFormat::Precision(2));
}

#[test]
fn programmatic_set_value_snaps_and_notifies() {
    let mut w = stock_slider(Some(10 * SCALE));
    let ev = w.set_value(33 * SCALE).expect("a change notifies");
    assert_eq!(ev.new_value, 30 * SCALE);
    assert_eq!(w.slider.value, 30 * SCALE);
    assert!(w.set_value(32 * SCALE).is_none());
}

#[test]
fn release_mode_buffers_changes_until_the_pointer_lets_go() {
    let mut w = stock_slider(None);
    let ev = w.step_by(1).unwrap();
    let pending = buffer_change(&SliderEmitMode::OnRelease, &ev, None);
    assert_eq!(pending.as_ref().map(|p| p.value), Some(55 * SCALE));
    // while still pressed the pending change stays
    let kept = release_pending(Interaction::Pressed, pending);
    assert!(kept.is_some());
    // the signal falling back to idle consumes it
    assert!(release_pending(Interaction::Idle, kept).is_none());
    // continuous mode never buffers
    let none = buffer_change(&SliderEmitMode::Continuous, &ev, None);
    assert!(none.is_none());
}

#[test]
fn a_degenerate_range_never_divides_by_zero() {
    let mut w = stock_slider(None);
    w.slider.min = 40 * SCALE;
    w.slider.max = 40 * SCALE;
    w.slider.value = 40 * SCALE;
    // dragging anywhere keeps the single admissible value
    w.drag_to(500 * SCALE, 0, CENTER_X, 0, TRACK_W, 0);
    assert_eq!(w.slider.value, 40 * SCALE);
    w.sync();
    assert_eq!(w.visuals.handle_percent, 0);
}
