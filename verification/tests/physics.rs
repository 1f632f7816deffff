use slick_ricks_luge_lounge::Resolution;
use slick_ricks_luge_lounge::luge::{
    LaneBackdrop, RunTimer, ScrollSpeed, SCROLL_SPEED_DEFAULT_MILLI, decelerate_luigee,
    scroll_delta_milli, scroll_lanes,
};

#[test]
fn scroll_speed_default_is_1000() {
    assert_eq!(ScrollSpeed::default().0, 1_000_000);
    assert_eq!(SCROLL_SPEED_DEFAULT_MILLI, 1_000_000);
}

#[test]
fn decel_formula_without_braking() {
    // speed stat 1, one second: the speed drops by 50 units = 50_000 milli.
    let mut s = ScrollSpeed(1_000_000);
    let ended = decelerate_luigee(&mut s, 1, false, 1000);
    assert_eq!(s.0, 950_000);
    assert!(!ended);
}

#[test]
fn decel_formula_with_braking_triples() {
    let mut s = ScrollSpeed(1_000_000);
    let ended = decelerate_luigee(&mut s, 1, true, 1000);
    assert_eq!(s.0, 850_000);
    assert!(!ended);
}

#[test]
fn decel_divides_by_speed_stat() {
    let mut s = ScrollSpeed(1_000_000);
    let ended = decelerate_luigee(&mut s, 5, false, 1000);
    assert_eq!(s.0, 990_000);
    assert!(!ended);
}

#[test]
fn decel_clamps_at_zero_and_signals_run_end() {
    let mut s = ScrollSpeed(40_000);
    let ended = decelerate_luigee(&mut s, 1, false, 1000);
    assert_eq!(s.0, 0);
    assert!(ended);
}

#[test]
fn decel_is_monotone_nonincreasing() {
    let mut s = ScrollSpeed(1_000_000);
    let mut prev = s.0;
    for _ in 0..30 {
        decelerate_luigee(&mut s, 1, false, 700);
        assert!(s.0 <= prev);
        prev = s.0;
    }
}

#[test]
fn decel_signals_exactly_when_zero_is_reached() {
    let mut s = ScrollSpeed(1_000_000);
    let mut fires = 0;
    // 20 one-second frames at stat 1 reach exactly 0.
    for _ in 0..20 {
        if decelerate_luigee(&mut s, 1, false, 1000) {
            fires += 1;
        }
    }
    assert_eq!(s.0, 0);
    assert_eq!(fires, 1);
}

#[test]
fn scroll_delta_is_speed_times_stat_tenth() {
    // 1000 px/s at stat 1 for 16 ms: 1000 * 0.1 * 0.016 = 1.6 px.
    let d = scroll_delta_milli(&ScrollSpeed(1_000_000), 1, 16);
    assert_eq!(d, 1600);
    // stat 10 makes the factor 1.0.
    let d10 = scroll_delta_milli(&ScrollSpeed(1_000_000), 10, 16);
    assert_eq!(d10, 16_000);
}

#[test]
fn backdrop_scrolls_down_and_wraps() {
    let res = Resolution::Hd;
    let mut backdrop = LaneBackdrop::init(&res);
    assert_eq!(backdrop.y0_milli, 0);
    assert_eq!(backdrop.y1_milli, 1_080_000);
    scroll_lanes(&mut backdrop, 100_000, &res);
    assert_eq!(backdrop.y0_milli, -100_000);
    assert_eq!(backdrop.y1_milli, 980_000);
    // push the lower sprite past one screen height below the origin
    let mut low = LaneBackdrop { y0_milli: -1_000_000, y1_milli: 80_000 };
    scroll_lanes(&mut low, 100_000, &res);
    // -1_100_000 <= -1_080_000, so it wraps up by two screen heights
    assert_eq!(low.y0_milli, -1_100_000 + 2_160_000);
    assert_eq!(low.y1_milli, -20_000);
}

#[test]
fn run_timer_accumulates_and_resets() {
    let mut t = RunTimer::default();
    assert_eq!(t.elapsed_ms, 0);
    t.tick(16);
    t.tick(700);
    assert_eq!(t.elapsed_ms, 716);
    t.reset();
    assert_eq!(t.elapsed_ms, 0);
}
