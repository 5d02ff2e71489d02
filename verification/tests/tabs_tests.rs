use widget_runtime::fixed::SCALE;
use widget_runtime::tabs::{
    tab_color_blend, tab_target_color, tab_target_scale, TabChangeKind, TabGroupConfig,
    TabGroupWidget,
};
use widget_runtime::{Interaction, Key};

fn three_tabs() -> TabGroupWidget {
    TabGroupWidget::new(30, 3, 0, TabGroupConfig::default())
}

#[test]
fn pressing_a_different_tab_switches_and_notifies() {
    let mut w = three_tabs();
    let ev = w.on_button_interaction(1, Interaction::Pressed).expect("a switch notifies");
    assert_eq!(ev.previous_tab, 0);
    assert_eq!(ev.new_tab, 1);
    assert_eq!(ev.change_kind, TabChangeKind::UserInteraction);
    assert_eq!(w.group.selected_tab, 1);
    assert!(w.needs_visual_update);
}

#[test]
fn pressing_the_selected_tab_changes_nothing() {
    let mut w = three_tabs();
    assert!(w.on_button_interaction(0, Interaction::Pressed).is_none());
    assert_eq!(w.group.selected_tab, 0);
}

#[test]
fn a_stray_button_index_is_skipped() {
    let mut w = three_tabs();
    assert!(w.on_button_interaction(7, Interaction::Pressed).is_none());
    assert_eq!(w.group.selected_tab, 0);
}

#[test]
fn sync_shows_exactly_the_selected_pane() {
    let mut w = three_tabs();
    w.on_button_interaction(2, Interaction::Pressed);
    w.sync();
    assert!(!w.needs_visual_update);
    assert_eq!(w.content_visible, vec![false, false, true]);
    let first = w.content_visible.clone();
    w.sync();
    assert_eq!(w.content_visible, first);
}

#[test]
fn arrow_keys_wrap_around_the_selection() {
    let mut w = three_tabs();
    w.focused_tab = Some(0);
    let ev = w.on_key(Key::ArrowLeft).expect("wraps to the last tab");
    assert_eq!(ev.new_tab, 2);
    let ev = w.on_key(Key::ArrowRight).expect("wraps back to the first");
    assert_eq!(ev.new_tab, 0);
    // without focus the keys are ignored
    w.focused_tab = None;
    assert!(w.on_key(Key::ArrowRight).is_none());
}

#[test]
fn space_selects_the_focused_tab() {
    let mut w = three_tabs();
    w.focused_tab = Some(2);
    let ev = w.on_key(Key::Space).expect("space selects");
    assert_eq!(ev.new_tab, 2);
    assert_eq!(w.group.selected_tab, 2);
}

#[test]
fn focus_moves_with_wraparound() {
    let mut w = three_tabs();
    w.focused_tab = Some(0);
    w.move_focus(Key::ArrowLeft);
    assert_eq!(w.focused_tab, Some(2));
    w.move_focus(Key::ArrowRight);
    assert_eq!(w.focused_tab, Some(0));
}

#[test]
fn programmatic_selection_reports_its_kind() {
    let mut w = three_tabs();
    let ev = w.set_selected(1).expect("a change notifies");
    assert_eq!(ev.change_kind, TabChangeKind::Programmatic);
    assert!(w.set_selected(1).is_none());
}

#[test]
fn button_colors_follow_the_priority_order() {
    let selected = tab_target_color(true, true, true, true);
    let pressed = tab_target_color(false, true, true, true);
    let focused = tab_target_color(false, false, true, true);
    let hovered = tab_target_color(false, false, false, true);
    let idle = tab_target_color(false, false, false, false);
    assert_eq!(selected.red, 900_000);
    assert_eq!(pressed.red, 600_000);
    assert_eq!(focused.blue, 900_000);
    assert_eq!(hovered.red, 750_000);
    assert_eq!(idle.red, 650_000);
}

#[test]
fn color_blend_saturates_to_the_target_on_long_ticks() {
    let from = tab_target_color(false, false, false, false);
    let to = tab_target_color(true, false, false, false);
    // ten times a 0.1-second tick is a full share
    let blended = tab_color_blend(&from, &to, 100_000);
    assert_eq!(blended, to);
    // a short tick moves only part of the way
    let partial = tab_color_blend(&from, &to, 10_000);
    assert!(partial.red > from.red && partial.red < to.red);
}

#[test]
fn pressed_buttons_shrink_toward_ninety_five_percent() {
    assert_eq!(tab_target_scale(true), 950_000);
    assert_eq!(tab_target_scale(false), SCALE);
}

#[test]
fn content_panes_carry_their_back_references() {
    let pane = widget_runtime::tabs::TabContent::default();
    assert_eq!(pane.tab_index, 0);
    assert_eq!(pane.group_entity, 0);
    let wired = widget_runtime::tabs::TabContent { tab_index: 2, group_entity: 30 };
    assert_eq!(wired.tab_index, 2);
}

#[test]
fn interaction_markers_follow_the_signal() {
    let mut w = three_tabs();
    w.on_button_interaction(1, Interaction::Hovered);
    assert!(w.buttons[1].hovered);
    w.on_button_interaction(1, Interaction::Pressed);
    assert!(w.buttons[1].pressed);
    w.on_button_interaction(1, Interaction::Idle);
    assert!(!w.buttons[1].hovered && !w.buttons[1].pressed);
}

#[test]
fn a_single_tab_wraps_onto_itself() {
    let mut w = TabGroupWidget::new(31, 1, 0, TabGroupConfig::default());
    w.focused_tab = Some(0);
    assert!(w.on_key(Key::ArrowRight).is_none());
    w.move_focus(Key::ArrowLeft);
    assert_eq!(w.focused_tab, Some(0));
    w.sync();
    assert_eq!(w.content_visible, vec![true]);
}
