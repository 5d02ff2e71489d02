use widget_runtime::fixed::SCALE;
use widget_runtime::spring::{spring_step, SpringParams, SpringState};

const DT_60HZ: i64 = 16_667;

fn stock() -> SpringParams {
    SpringParams::new(170, 26, 10_000)
}

#[test]
fn stock_spring_converges_within_a_bounded_tick_count() {
    let params = stock();
    let mut s = SpringState { progress: 0, target: SCALE, velocity: 0 };
    let mut ticks = 0;
    while !(s.progress == s.target && s.velocity == 0) {
        spring_step(&mut s, &params, DT_60HZ);
        ticks += 1;
        assert!(ticks <= 120, "spring did not settle within 120 ticks");
    }
    assert_eq!(ticks, 49);
    assert_eq!(s.progress, SCALE);
    assert_eq!(s.velocity, 0);
}

#[test]
fn velocity_never_grows_once_inside_twice_the_settling_band() {
    let params = stock();
    let mut s = SpringState { progress: 0, target: SCALE, velocity: 0 };
    let mut in_band = false;
    let mut last_speed: i64 = 0;
    for _ in 0..200 {
        spring_step(&mut s, &params, DT_60HZ);
        let disp = (s.target - s.progress).abs();
        let speed = s.velocity.abs();
        if in_band {
            assert!(speed <= last_speed, "velocity grew from {last_speed} to {speed}");
        }
        if disp <= 2 * params.precision && speed <= 2 * params.precision {
            in_band = true;
        }
        last_speed = speed;
    }
    assert!(in_band);
}

#[test]
fn settled_spring_stays_put() {
    let params = stock();
    let mut s = SpringState::at(SCALE);
    for _ in 0..10 {
        spring_step(&mut s, &params, DT_60HZ);
        assert_eq!(s.progress, SCALE);
        assert_eq!(s.velocity, 0);
    }
}

#[test]
fn snap_is_exact_not_asymptotic() {
    let params = stock();
    // one tick from just inside the band lands exactly on the target
    let mut s = SpringState { progress: SCALE - 50, target: SCALE, velocity: 0 };
    spring_step(&mut s, &params, DT_60HZ);
    assert_eq!(s.progress, SCALE);
    assert_eq!(s.velocity, 0);
}

#[test]
fn closing_spring_returns_to_zero() {
    let params = stock();
    let mut s = SpringState { progress: SCALE, target: 0, velocity: 0 };
    let mut ticks = 0;
    while !(s.progress == 0 && s.velocity == 0) {
        spring_step(&mut s, &params, DT_60HZ);
        ticks += 1;
        assert!(ticks <= 120);
    }
    assert_eq!(s.progress, 0);
}
