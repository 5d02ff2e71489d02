use widget_runtime::zorder::{overlay_z_pass, UiZIndexAllocator, Z_CEILING};

#[test]
fn later_overlays_stack_above_earlier_ones() {
    let mut alloc = UiZIndexAllocator::default();
    let a = overlay_z_pass(&mut alloc, 0, 500_000);
    let b = overlay_z_pass(&mut alloc, 0, 300_000);
    assert!(b > a);
}

#[test]
fn a_reopened_overlay_stacks_above_everything_still_open() {
    let mut alloc = UiZIndexAllocator::default();
    let a = overlay_z_pass(&mut alloc, 0, 500_000);
    let b = overlay_z_pass(&mut alloc, 0, 500_000);
    // overlay A closes: its animation decays and the index is released
    let a_closed = overlay_z_pass(&mut alloc, a, 5_000);
    assert_eq!(a_closed, 0);
    // reopening A hands out a fresh index above B's
    let a_again = overlay_z_pass(&mut alloc, 0, 100_000);
    assert!(a_again > b);
}

#[test]
fn an_assigned_overlay_keeps_its_index_while_open() {
    let mut alloc = UiZIndexAllocator::default();
    let a = overlay_z_pass(&mut alloc, 0, 500_000);
    let same = overlay_z_pass(&mut alloc, a, 900_000);
    assert_eq!(same, a);
}

#[test]
fn the_counter_resets_past_its_ceiling() {
    let mut alloc = UiZIndexAllocator::default();
    // exhaust the counter up to the ceiling
    for _ in 0..(Z_CEILING - 1) {
        alloc.next();
    }
    assert_eq!(alloc.next(), Z_CEILING);
    // the wraparound hands out 1 again: monotonicity is best-effort here
    assert_eq!(alloc.next(), 1);
}

#[test]
fn release_happens_at_the_epsilon_not_at_zero_only() {
    let mut alloc = UiZIndexAllocator::default();
    let a = overlay_z_pass(&mut alloc, 0, 1);
    assert!(a > 0);
    // progress just above the release epsilon keeps the index
    assert_eq!(overlay_z_pass(&mut alloc, a, 10_001), a);
    // at the epsilon it is released
    assert_eq!(overlay_z_pass(&mut alloc, a, 10_000), 0);
}
