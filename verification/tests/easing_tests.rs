use widget_runtime::easing::EasingFunction;
use widget_runtime::fixed::SCALE;

#[test]
fn linear_fixes_both_endpoints() {
    assert_eq!(EasingFunction::Linear.sample(0), 0);
    assert_eq!(EasingFunction::Linear.sample(SCALE), SCALE);
}

#[test]
fn ease_out_fixes_both_endpoints() {
    assert_eq!(EasingFunction::EaseOut.sample(0), 0);
    assert_eq!(EasingFunction::EaseOut.sample(SCALE), SCALE);
}

#[test]
fn ease_in_quadratic_at_midpoint() {
    assert_eq!(EasingFunction::EaseIn.sample(SCALE / 2), 250_000);
}

#[test]
fn ease_in_out_meets_midpoint() {
    assert_eq!(EasingFunction::EaseInOut.sample(SCALE / 2), 500_000);
}

#[test]
fn bounce_stays_non_negative_and_bounded() {
    let mut t = 0;
    while t <= SCALE {
        let v = EasingFunction::Bounce.sample(t);
        assert!(v >= 0, "bounce({t}) = {v}");
        assert!(v <= SCALE, "bounce({t}) = {v}");
        t += 1_000;
    }
    assert_eq!(EasingFunction::Bounce.sample(SCALE), SCALE);
    assert_eq!(EasingFunction::Bounce.sample(500_000), 765_624);
}

#[test]
fn elastic_stays_non_negative_and_fixes_endpoints() {
    let mut t = 0;
    while t <= SCALE {
        let v = EasingFunction::Elastic.sample(t);
        assert!(v >= 0, "elastic({t}) = {v}");
        assert!(v <= SCALE, "elastic({t}) = {v}");
        t += 1_000;
    }
    assert_eq!(EasingFunction::Elastic.sample(0), 0);
    assert_eq!(EasingFunction::Elastic.sample(SCALE), SCALE);
    // near the end the wave has almost decayed onto the target
    assert_eq!(EasingFunction::Elastic.sample(950_000), 355_438);
}

#[test]
fn sampling_clamps_out_of_range_ratios() {
    assert_eq!(EasingFunction::Linear.sample(-5 * SCALE), 0);
    assert_eq!(EasingFunction::Linear.sample(5 * SCALE), SCALE);
}
