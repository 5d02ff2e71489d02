use widget_runtime::dropdown::{
    resolve_option_owner, ChildOf, DropdownChangeKind, DropdownConfig, DropdownWidget,
};
use widget_runtime::fixed::SCALE;
use widget_runtime::registry::DropdownOptionRegistry;
use widget_runtime::Key;

const DT_60HZ: i64 = 16_667;

fn fruits() -> (DropdownOptionRegistry, DropdownWidget) {
    let mut reg = DropdownOptionRegistry::new();
    let ids = reg.register_options(vec![
        ("Apple".to_string(), None),
        ("Banana".to_string(), None),
        ("Cherry".to_string(), Some(77)),
    ]);
    let w = DropdownWidget::new(20, ids, DropdownConfig::default());
    (reg, w)
}

#[test]
fn registry_ids_are_sequential_and_labels_resolve() {
    let (reg, w) = fruits();
    assert_eq!(w.dropdown.option_ids, vec![0, 1, 2]);
    assert_eq!(reg.label_of(1), "Banana");
    assert_eq!(reg.label_of(5), "Invalid option");
    assert_eq!(reg.option_count(), 3);
}

#[test]
fn opening_emits_exactly_one_opened_event() {
    let (_reg, mut w) = fruits();
    let ev = w.press_button();
    assert!(w.dropdown.is_open);
    assert_eq!(ev.kind, DropdownChangeKind::Opened);
    assert!(w.focused);
    assert!(w.needs_visual_update);
    let ev2 = w.press_button();
    assert!(!w.dropdown.is_open);
    assert_eq!(ev2.kind, DropdownChangeKind::Closed);
    assert!(!w.focused);
}

#[test]
fn selecting_while_open_emits_one_selection_changed_with_registry_labels() {
    let (reg, mut w) = fruits();
    w.press_button();
    let ev = w.select_option(1, &reg).expect("an owned option selects");
    assert_eq!(ev.kind, DropdownChangeKind::SelectionChanged);
    assert_eq!(ev.previous_id, None);
    assert_eq!(ev.new_id, Some(1));
    assert_eq!(ev.previous_label, None);
    assert_eq!(ev.new_label.as_deref(), Some("Banana"));
    assert_eq!(w.dropdown.selected_id, Some(1));
    assert!(!w.dropdown.is_open);
    assert!(!w.focused);
    // selecting again resolves the previous label at selection time
    w.press_button();
    let ev = w.select_option(2, &reg).unwrap();
    assert_eq!(ev.previous_label.as_deref(), Some("Banana"));
    assert_eq!(ev.new_label.as_deref(), Some("Cherry"));
}

#[test]
fn selecting_a_foreign_option_or_while_closed_is_skipped() {
    let (reg, mut w) = fruits();
    assert!(w.select_option(1, &reg).is_none());
    w.press_button();
    assert!(w.select_option(9, &reg).is_none());
    assert_eq!(w.dropdown.selected_id, None);
    assert!(w.dropdown.is_open);
}

#[test]
fn escape_cancels_without_touching_the_selection() {
    let (reg, mut w) = fruits();
    w.press_button();
    w.select_option(0, &reg);
    w.press_button();
    assert!(w.dropdown.is_open && w.focused);
    let ev = w.on_key(Key::Escape).expect("escape cancels");
    assert_eq!(ev.kind, DropdownChangeKind::Cancelled);
    assert_eq!(ev.previous_id, Some(0));
    assert_eq!(ev.new_id, Some(0));
    assert!(!w.dropdown.is_open);
    assert_eq!(w.dropdown.selected_id, Some(0));
    // a closed dropdown ignores escape
    assert!(w.on_key(Key::Escape).is_none());
}

#[test]
fn backdrop_press_cancels_only_while_open() {
    let (_reg, mut w) = fruits();
    assert!(w.press_backdrop().is_none());
    w.press_button();
    let ev = w.press_backdrop().expect("the backdrop is reachable while open");
    assert_eq!(ev.kind, DropdownChangeKind::Cancelled);
    assert!(!w.dropdown.is_open);
    assert!(!w.focused);
}

#[test]
fn option_presses_resolve_through_two_parent_hops() {
    // nodes: option 301 inside list 201 inside dropdown 20
    let links = vec![
        (301u64, ChildOf::new(201)),
        (302u64, ChildOf::new(201)),
        (201u64, ChildOf::new(20)),
    ];
    assert_eq!(resolve_option_owner(&links, 301), Some(20));
    assert_eq!(resolve_option_owner(&links, 302), Some(20));
    // a broken hop resolves to nothing, so the tick skips the widget
    assert_eq!(resolve_option_owner(&links, 999), None);
    let orphan = vec![(301u64, ChildOf::new(201))];
    assert_eq!(resolve_option_owner(&orphan, 301), None);
}

#[test]
fn open_dropdown_springs_to_full_height_and_shows_its_list() {
    let (reg, mut w) = fruits();
    w.press_button();
    for _ in 0..120 {
        w.animate(DT_60HZ);
    }
    assert_eq!(w.animation.progress, SCALE);
    w.sync(&reg);
    assert!(!w.needs_visual_update);
    assert_eq!(w.visuals.button_label, "Select an option...");
    assert_eq!(w.visuals.list_height, w.config.max_height);
    assert!(w.visuals.list_visible);
    assert_eq!(w.visuals.list_offset_y, 0);
}

#[test]
fn synced_label_shows_the_selection_and_survives_a_second_pass() {
    let (reg, mut w) = fruits();
    w.press_button();
    w.select_option(2, &reg);
    w.sync(&reg);
    assert_eq!(w.visuals.button_label, "Cherry");
    let first = w.visuals.clone();
    w.sync(&reg);
    assert_eq!(w.visuals.button_label, first.button_label);
    assert_eq!(w.visuals.list_height, first.list_height);
    assert_eq!(w.visuals.list_visible, first.list_visible);
    assert_eq!(w.visuals.list_offset_y, first.list_offset_y);
}

#[test]
fn focus_decays_with_the_closing_animation() {
    let (_reg, mut w) = fruits();
    w.press_button();
    for _ in 0..120 {
        w.animate(DT_60HZ);
    }
    w.press_button();
    // the list is still springing shut: focus was already revoked by the
    // close, but a focus grant through another path would decay too
    w.focused = true;
    for _ in 0..120 {
        w.animate(DT_60HZ);
        w.focus_decay();
    }
    assert_eq!(w.animation.progress, 0);
    assert!(!w.focused);
}

#[test]
fn programmatic_open_and_selection_share_the_user_paths() {
    let (reg, mut w) = fruits();
    let ev = w.set_open(true).expect("a real open emits");
    assert_eq!(ev.kind, DropdownChangeKind::Opened);
    assert!(w.set_open(true).is_none());
    let ev = w.set_selected(2, &reg).expect("a real selection emits");
    assert_eq!(ev.kind, DropdownChangeKind::SelectionChanged);
    assert_eq!(ev.new_label.as_deref(), Some("Cherry"));
    // the programmatic path leaves the open state alone
    assert!(w.dropdown.is_open);
    assert!(w.set_selected(2, &reg).is_none());
    assert!(w.set_selected(9, &reg).is_none());
    assert_eq!(w.dropdown.selected_id, Some(2));
}

#[test]
fn closed_list_is_hidden() {
    let (reg, mut w) = fruits();
    w.sync(&reg);
    assert!(!w.visuals.list_visible);
    assert_eq!(w.visuals.list_height, 0);
}

#[test]
fn a_dropdown_without_options_still_routes() {
    let reg = DropdownOptionRegistry::new();
    let mut w = DropdownWidget::new(21, Vec::new(), DropdownConfig::default());
    let ev = w.press_button();
    assert_eq!(ev.kind, DropdownChangeKind::Opened);
    assert!(w.select_option(0, &reg).is_none());
    assert!(w.on_key(Key::Escape).is_some());
    assert!(!w.dropdown.is_open);
}
