use widget_runtime::easing::EasingFunction;
use widget_runtime::fixed::SCALE;
use widget_runtime::progress::{
    progress_bar_animate, progress_bar_apply_change, FillDirection, FillNode, ProgressAnimation,
    ProgressBar, ProgressBarVisuals, ProgressChangeKind, ProgressTextFormat,
};

// 100.0 in fixed-point units
const HUNDRED: i64 = 100 * SCALE;

#[test]
fn set_value_clamps_above_the_maximum() {
    let mut bar = ProgressBar::new(0, HUNDRED);
    bar.set_value(150 * SCALE);
    assert_eq!(bar.current, HUNDRED);
    assert_eq!(bar.fraction(), SCALE);
}

#[test]
fn set_value_clamps_below_the_minimum() {
    let mut bar = ProgressBar::new(50 * SCALE, HUNDRED);
    bar.set_value(-25 * SCALE);
    assert_eq!(bar.current, 0);
    assert_eq!(bar.fraction(), 0);
}

#[test]
fn fraction_is_the_normalized_position() {
    let bar = ProgressBar::new(25 * SCALE, HUNDRED);
    assert_eq!(bar.fraction(), 250_000);
    assert_eq!(bar.percentage(), 100 * 250_000);
}

#[test]
fn change_kinds_cover_the_four_cases() {
    let mut bar = ProgressBar::new(50 * SCALE, HUNDRED);
    bar.set_value(HUNDRED);
    assert_eq!(bar.change_kind(), ProgressChangeKind::Complete);
    bar.set_value(0);
    assert_eq!(bar.change_kind(), ProgressChangeKind::Reset);
    bar.set_value(50 * SCALE);
    assert_eq!(bar.change_kind(), ProgressChangeKind::Direct);
    bar.set_value(55 * SCALE);
    assert_eq!(bar.change_kind(), ProgressChangeKind::Incremental);
}

#[test]
fn thresholds_cross_up_and_down_independently() {
    let thresholds = vec![250_000i64, 500_000, 750_000];
    let mut bar = ProgressBar::new(20 * SCALE, HUNDRED);
    bar.set_value(80 * SCALE);
    let up = bar.threshold_events(7, &thresholds);
    assert_eq!(up.len(), 3);
    assert!(up.iter().all(|e| e.crossed_up && e.progress_entity == 7));
    assert_eq!(up[0].threshold, 250_000);
    bar.set_value(30 * SCALE);
    let down = bar.threshold_events(7, &thresholds);
    assert_eq!(down.len(), 2);
    assert!(down.iter().all(|e| !e.crossed_up));
    bar.set_value(40 * SCALE);
    assert_eq!(bar.threshold_events(7, &thresholds).len(), 0);
    // a value sitting exactly on a threshold counts as reached
    bar.set_value(24 * SCALE);
    bar.set_value(25 * SCALE);
    let exact = bar.threshold_events(7, &thresholds);
    assert_eq!(exact.len(), 1);
    assert!(exact[0].crossed_up);
}

#[test]
fn a_change_restarts_the_animation_from_the_displayed_fraction() {
    let visuals = ProgressBarVisuals::default();
    let mut bar = ProgressBar::new(0, HUNDRED);
    let mut anim = ProgressAnimation::resting_at(0, visuals.animation_duration);
    bar.set_value(50 * SCALE);
    let ev = progress_bar_apply_change(&bar, &visuals, &mut anim, 9, 1_000_000);
    assert_eq!(ev.previous_value, 0);
    assert_eq!(ev.new_value, 50 * SCALE);
    assert!(anim.is_animating);
    assert_eq!(anim.start_fraction, 0);
    assert_eq!(anim.target_fraction, 500_000);
    assert_eq!(anim.start_time, 1_000_000);
}

#[test]
fn linear_animation_interpolates_and_stops_exactly_on_target() {
    let mut visuals = ProgressBarVisuals::default();
    visuals.easing = EasingFunction::Linear;
    visuals.animation_duration = 300_000;
    let bar = ProgressBar::new(50 * SCALE, HUNDRED);
    let mut anim = ProgressAnimation::resting_at(0, visuals.animation_duration);
    let mut fill = FillNode { width_percent: 0, height_percent: 0 };
    let mut b = bar.clone();
    b.set_value(50 * SCALE);
    progress_bar_apply_change(&b, &visuals, &mut anim, 9, 0);
    // halfway through the duration the displayed fraction is half the target
    let done = progress_bar_animate(&b, &visuals, &mut anim, &mut fill, 9, 150_000);
    assert!(done.is_none());
    assert_eq!(anim.current_display_fraction, 250_000);
    assert_eq!(fill.width_percent, 100 * 250_000);
    // past the duration it stops exactly on the target, with no completion
    // event because the bar is not at its maximum
    let done = progress_bar_animate(&b, &visuals, &mut anim, &mut fill, 9, 400_000);
    assert!(done.is_none());
    assert!(!anim.is_animating);
    assert_eq!(anim.current_display_fraction, 500_000);
}

#[test]
fn completion_event_fires_exactly_once_at_the_maximum() {
    let visuals = ProgressBarVisuals::default();
    let mut bar = ProgressBar::new(0, HUNDRED);
    bar.set_value(HUNDRED);
    let mut anim = ProgressAnimation::resting_at(0, visuals.animation_duration);
    let mut fill = FillNode { width_percent: 0, height_percent: 0 };
    progress_bar_apply_change(&bar, &visuals, &mut anim, 9, 0);
    let ev = progress_bar_animate(&bar, &visuals, &mut anim, &mut fill, 9, 400_000);
    assert!(ev.is_some());
    assert_eq!(ev.unwrap().progress_entity, 9);
    // the animation is over: another tick fires nothing
    let again = progress_bar_animate(&bar, &visuals, &mut anim, &mut fill, 9, 500_000);
    assert!(again.is_none());
}

#[test]
fn reversed_fill_direction_fills_the_complement() {
    let mut visuals = ProgressBarVisuals::default();
    visuals.fill_direction = FillDirection::RightToLeft;
    let bar = ProgressBar::new(25 * SCALE, HUNDRED);
    let p = widget_runtime::progress::calculate_fill_percentage(&bar, &visuals);
    assert_eq!(p, 100 * 750_000);
}

#[test]
fn percentage_label_rounds_to_whole_percent() {
    let fmt = ProgressTextFormat::Percentage;
    assert_eq!(fmt.format(42_500_000, HUNDRED), "43%");
    assert_eq!(fmt.format(0, HUNDRED), "0%");
    assert_eq!(fmt.format(HUNDRED, HUNDRED), "100%");
}

#[test]
fn fraction_and_absolute_labels() {
    assert_eq!(ProgressTextFormat::Fraction.format(42_500_000, HUNDRED), "43/100");
    assert_eq!(ProgressTextFormat::Absolute.format(42_500_000, HUNDRED), "42.5/100.0");
}

#[test]
fn text_cache_key_has_a_tenth_of_a_unit_resolution() {
    assert_eq!(widget_runtime::progress::text_cache_key(42_560_000), 425);
    assert_eq!(widget_runtime::progress::text_cache_key(42_640_000), 426);
    assert_eq!(widget_runtime::progress::text_cache_key(-1_500_000), -15);
}

#[test]
fn increments_accumulate_and_clamp() {
    let mut bar = ProgressBar::new(90 * SCALE, HUNDRED);
    bar.increment(5 * SCALE);
    assert_eq!(bar.current, 95 * SCALE);
    assert_eq!(bar.previous_value, 90 * SCALE);
    bar.increment(20 * SCALE);
    assert_eq!(bar.current, HUNDRED);
    bar.increment(-250 * SCALE);
    assert_eq!(bar.current, 0);
}

#[test]
fn contrast_check_flags_gray_on_gray() {
    let visuals = ProgressBarVisuals::default();
    assert!(widget_runtime::color::contrast_ok(&visuals.text_color, &visuals.track_color));
    assert!(!widget_runtime::color::contrast_ok(&visuals.track_color, &visuals.border_color));
}

#[test]
fn an_empty_range_never_divides_by_zero() {
    let mut bar = ProgressBar::new(0, 0);
    bar.set_value(50 * SCALE);
    assert_eq!(bar.current, 0);
    assert_eq!(bar.fraction(), 0);
    assert_eq!(ProgressTextFormat::Percentage.format(0, 0), "0%");
}
