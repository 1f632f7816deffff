use slick_ricks_luge_lounge::luge::RunTimer;
use slick_ricks_luge_lounge::luge::spawner::PlayerCoins;
use slick_ricks_luge_lounge::luge::ui::{
    i64_dec_string, pad2_string, stats_readout, u64_dec_string, update_coin_count_text,
    update_run_timer_text,
};
use slick_ricks_luge_lounge::player::PlayerStats;

#[test]
fn decimal_rendering() {
    assert_eq!(u64_dec_string(0), "0");
    assert_eq!(u64_dec_string(7), "7");
    assert_eq!(u64_dec_string(10), "10");
    assert_eq!(u64_dec_string(90210), "90210");
    assert_eq!(u64_dec_string(18_446_744_073_709_551_615), "18446744073709551615");
}

#[test]
fn signed_decimal_rendering() {
    assert_eq!(i64_dec_string(-1), "-1");
    assert_eq!(i64_dec_string(0), "0");
    assert_eq!(i64_dec_string(42), "42");
    assert_eq!(i64_dec_string(-366), "-366");
}

#[test]
fn two_digit_padding() {
    assert_eq!(pad2_string(0), "00");
    assert_eq!(pad2_string(9), "09");
    assert_eq!(pad2_string(10), "10");
    assert_eq!(pad2_string(100), "100");
}

#[test]
fn run_timer_formats_as_minutes_seconds_centis() {
    assert_eq!(update_run_timer_text(&RunTimer { elapsed_ms: 0 }), "00:00.00");
    assert_eq!(update_run_timer_text(&RunTimer { elapsed_ms: 65_250 }), "01:05.25");
    assert_eq!(update_run_timer_text(&RunTimer { elapsed_ms: 59_999 }), "00:59.99");
    assert_eq!(update_run_timer_text(&RunTimer { elapsed_ms: 60_000 }), "01:00.00");
    // centiseconds truncate
    assert_eq!(update_run_timer_text(&RunTimer { elapsed_ms: 1_019 }), "00:01.01");
    // minutes widen past two digits
    assert_eq!(update_run_timer_text(&RunTimer { elapsed_ms: 6_000_000 }), "100:00.00");
}

#[test]
fn coin_count_text() {
    assert_eq!(update_coin_count_text(&PlayerCoins(0)), "Coins: 0");
    assert_eq!(update_coin_count_text(&PlayerCoins(12345)), "Coins: 12345");
}

#[test]
fn stat_readout_lines() {
    let stats = PlayerStats { attack: 2, defence: 13, speed: 1, luck: 0 };
    let lines = stats_readout(&stats);
    assert_eq!(lines, vec!["ATK: 2", "DEF: 13", "SPD: 1", "LCK: 0"]);
    let default_lines = stats_readout(&PlayerStats::default());
    assert_eq!(default_lines, vec!["ATK: 1", "DEF: 1", "SPD: 1", "LCK: 1"]);
}
