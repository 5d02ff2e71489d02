use widget_runtime::fixed::SCALE;
use widget_runtime::toggle::{ToggleChangeKind, ToggleConfig, ToggleWidget};
use widget_runtime::Interaction;
use widget_runtime::Key;

const DT_60HZ: i64 = 16_667;

fn stock_toggle() -> ToggleWidget {
    ToggleWidget::new(1, false, ToggleConfig::default(), false)
}

#[test]
fn toggle_starts_off_at_zero_progress() {
    let w = stock_toggle();
    assert!(!w.toggle.is_on);
    assert_eq!(w.animation.progress, 0);
}

#[test]
fn press_flips_emits_user_event_and_marks_dirty() {
    let mut w = stock_toggle();
    let ev = w.on_interaction(Interaction::Pressed).expect("a press emits a change");
    assert!(w.toggle.is_on);
    assert!(w.needs_visual_update);
    assert!(w.focused);
    assert!(!ev.previous_state);
    assert!(ev.new_state);
    assert_eq!(ev.kind, ToggleChangeKind::User);
}

#[test]
fn full_duration_of_ticks_reaches_exactly_one() {
    let mut w = stock_toggle();
    w.on_interaction(Interaction::Pressed);
    // duration 0.2 s at 60 Hz: twelve ticks cover the whole sweep
    for _ in 0..12 {
        w.animate(DT_60HZ);
    }
    assert_eq!(w.animation.progress, SCALE);
}

#[test]
fn synced_visuals_at_full_progress_match_the_on_state() {
    let mut w = stock_toggle();
    w.on_interaction(Interaction::Pressed);
    for _ in 0..12 {
        w.animate(DT_60HZ);
    }
    w.sync();
    assert!(!w.needs_visual_update);
    assert_eq!(w.visuals.track_color, w.config.on_color);
    let expected_offset = w.config.size_x - w.config.size_y + w.config.knob_margin;
    assert_eq!(w.visuals.knob_left, expected_offset);
    assert_eq!(w.visuals.knob_size, w.config.size_y - 2 * w.config.knob_margin);
}

#[test]
fn sync_twice_gives_identical_visuals_and_clears_dirty_once() {
    let mut w = stock_toggle();
    w.on_interaction(Interaction::Pressed);
    w.animate(DT_60HZ);
    w.sync();
    assert!(!w.needs_visual_update);
    let first = w.visuals;
    w.sync();
    assert_eq!(w.visuals, first);
    assert!(!w.needs_visual_update);
}

#[test]
fn disabled_toggle_ignores_presses() {
    let mut w = ToggleWidget::new(2, false, ToggleConfig::default(), true);
    assert!(w.on_interaction(Interaction::Pressed).is_none());
    assert!(!w.toggle.is_on);
}

#[test]
fn space_flips_a_focused_toggle() {
    let mut w = stock_toggle();
    w.on_interaction(Interaction::Pressed);
    assert!(w.focused);
    let ev = w.on_key(Key::Space).expect("space flips");
    assert!(!ev.new_state);
    assert!(!w.toggle.is_on);
    // an unfocused toggle ignores keys
    w.on_interaction(Interaction::Idle);
    assert!(w.on_key(Key::Enter).is_none());
}

#[test]
fn programmatic_set_emits_exactly_on_change() {
    let mut w = stock_toggle();
    let ev = w.set_on(true).expect("a real change emits");
    assert_eq!(ev.kind, ToggleChangeKind::Programmatic);
    assert!(w.set_on(true).is_none());
}

#[test]
fn unanimated_toggle_jumps_to_target() {
    let mut config = ToggleConfig::default();
    config.animated = false;
    let mut w = ToggleWidget::new(3, false, config, false);
    w.on_interaction(Interaction::Pressed);
    w.animate(DT_60HZ);
    assert_eq!(w.animation.progress, SCALE);
}

#[test]
fn end_to_end_press_animate_and_sync() {
    let mut w = stock_toggle();
    assert!(!w.toggle.is_on);
    assert_eq!(w.animation.progress, 0);
    let ev = w.on_interaction(Interaction::Pressed).unwrap();
    assert!(w.toggle.is_on);
    assert!(!ev.previous_state && ev.new_state);
    assert_eq!(ev.kind, ToggleChangeKind::User);
    assert!(w.needs_visual_update);
    // 0.2 seconds of animation at sixty ticks per second
    for _ in 0..12 {
        w.animate(DT_60HZ);
    }
    assert_eq!(w.animation.progress, SCALE);
    w.sync();
    assert_eq!(w.visuals.track_color, w.config.on_color);
    assert_eq!(w.visuals.knob_left, w.config.size_x - w.config.size_y + w.config.knob_margin);
}

#[test]
fn disabled_toggle_dims_its_track() {
    let mut w = ToggleWidget::new(4, true, ToggleConfig::default(), true);
    w.sync();
    assert_eq!(w.visuals.track_color.alpha, 500_000);
}
