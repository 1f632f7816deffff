use slick_ricks_luge_lounge::Resolution;
use slick_ricks_luge_lounge::luge::LaneLocation;
use slick_ricks_luge_lounge::luge::spawner::{
    Occupant, PlayerCoins, SpawnTimer, collect_coins, collect_threshold_milli,
    despawn_cutoff_milli, despawn_offscreen, lane_from_roll, reset_player_coins, scroll_occupants,
    spawn_coins, spawn_initial_coin, spawn_interval_ms, spawn_y_milli, tier_from_roll,
    weight_total,
};

#[test]
fn spawn_interval_luck_1_is_2_27_seconds() {
    // 2.5 s / 1.1, not clamped since it stays above 0.8 s
    assert_eq!(spawn_interval_ms(1), 2272);
}

#[test]
fn spawn_interval_luck_0_is_2_5_seconds() {
    assert_eq!(spawn_interval_ms(0), 2500);
}

#[test]
fn spawn_interval_clamps_at_800_ms() {
    assert_eq!(spawn_interval_ms(100), 800);
    assert_eq!(spawn_interval_ms(1000), 800);
}

#[test]
fn tier_weights_at_luck_0_are_100_10_2() {
    assert_eq!(weight_total(0), 112);
    let mut count_1 = 0;
    let mut count_5 = 0;
    let mut count_25 = 0;
    for roll in 0..112 {
        match tier_from_roll(roll, 0).1 {
            1 => count_1 += 1,
            5 => count_5 += 1,
            25 => count_25 += 1,
            other => panic!("unexpected tier value {other}"),
        }
    }
    assert_eq!((count_1, count_5, count_25), (100, 10, 2));
}

#[test]
fn tier_weights_grow_with_luck_but_common_stays_100() {
    // luck 4: weights 100 / 30 / 10
    assert_eq!(weight_total(4), 140);
    let mut count_1 = 0;
    let mut count_5 = 0;
    let mut count_25 = 0;
    for roll in 0..140 {
        match tier_from_roll(roll, 4).1 {
            1 => count_1 += 1,
            5 => count_5 += 1,
            25 => count_25 += 1,
            other => panic!("unexpected tier value {other}"),
        }
    }
    assert_eq!((count_1, count_5, count_25), (100, 30, 10));
}

#[test]
fn tier_atlas_indices_match_values() {
    assert_eq!(tier_from_roll(0, 0), (0, 1));
    assert_eq!(tier_from_roll(99, 0), (0, 1));
    assert_eq!(tier_from_roll(100, 0), (1, 5));
    assert_eq!(tier_from_roll(109, 0), (1, 5));
    assert_eq!(tier_from_roll(110, 0), (2, 25));
    assert_eq!(tier_from_roll(111, 0), (2, 25));
}

#[test]
fn lane_rolls_cover_all_lanes() {
    assert_eq!(lane_from_roll(0), LaneLocation::Left);
    assert_eq!(lane_from_roll(1), LaneLocation::Center);
    assert_eq!(lane_from_roll(2), LaneLocation::Right);
}

#[test]
fn spawn_timer_fires_on_interval_and_keeps_remainder() {
    let mut t = SpawnTimer::init(0);
    assert_eq!(t.interval_ms, 2500);
    assert!(!t.tick(1000));
    assert!(!t.tick(1000));
    assert!(t.tick(600));
    assert_eq!(t.elapsed_ms, 100);
}

#[test]
fn initial_coin_is_value_1_center_at_spawn_height() {
    let res = Resolution::Hd;
    let mut occupants: Vec<Occupant> = Vec::new();
    spawn_initial_coin(&mut occupants, &res);
    assert_eq!(occupants.len(), 1);
    assert_eq!(occupants[0].lane, LaneLocation::Center);
    assert_eq!(occupants[0].value, 1);
    // 1080 / 2 + 50 = 590 pixels
    assert_eq!(occupants[0].y_milli, 590_000);
    assert_eq!(spawn_y_milli(&res), 590_000);
}

#[test]
fn spawn_coins_without_timer_is_a_no_op() {
    let res = Resolution::Hd;
    let mut occupants: Vec<Occupant> = Vec::new();
    let mut timer: Option<SpawnTimer> = None;
    let spawned = spawn_coins(&mut occupants, &mut timer, 0, 1000, &res);
    assert!(!spawned);
    assert!(occupants.is_empty());
    assert!(timer.is_none());
}

#[test]
fn spawn_coins_rolls_a_weighted_coin_when_the_timer_fires() {
    let res = Resolution::Hd;
    for _ in 0..50 {
        let mut occupants: Vec<Occupant> = Vec::new();
        let mut timer = Some(SpawnTimer { interval_ms: 800, elapsed_ms: 700 });
        let spawned = spawn_coins(&mut occupants, &mut timer, 1, 150, &res);
        assert!(spawned);
        assert_eq!(occupants.len(), 1);
        let coin = occupants[0];
        assert!(matches!(
            coin.lane,
            LaneLocation::Left | LaneLocation::Center | LaneLocation::Right
        ));
        assert!(coin.value == 1 || coin.value == 5 || coin.value == 25);
        assert_eq!(coin.y_milli, 590_000);
        assert_eq!(timer.unwrap().elapsed_ms, 50);
    }
}

#[test]
fn scroll_occupants_moves_everything_down() {
    let mut occupants = vec![
        Occupant { lane: LaneLocation::Left, value: 1, y_milli: 590_000 },
        Occupant { lane: LaneLocation::Right, value: 25, y_milli: 0 },
    ];
    scroll_occupants(&mut occupants, 1600);
    assert_eq!(occupants[0].y_milli, 588_400);
    assert_eq!(occupants[1].y_milli, -1600);
}

#[test]
fn collection_requires_lane_match_and_proximity() {
    let res = Resolution::Hd;
    // threshold is 40 * 3 = 120 pixels
    assert_eq!(collect_threshold_milli(&res), 120_000);
    let player_y = -360_000i64;
    let mut occupants = vec![
        // same lane, inside the threshold: collected
        Occupant { lane: LaneLocation::Left, value: 5, y_milli: player_y + 119_999 },
        // same lane, exactly at the threshold: kept (strict comparison)
        Occupant { lane: LaneLocation::Left, value: 25, y_milli: player_y + 120_000 },
        // wrong lane, inside the threshold: kept
        Occupant { lane: LaneLocation::Center, value: 1, y_milli: player_y },
    ];
    let mut coins = PlayerCoins(2);
    collect_coins(&mut occupants, &mut coins, LaneLocation::Left, player_y, &res);
    assert_eq!(coins.0, 7);
    assert_eq!(occupants.len(), 2);
    assert_eq!(occupants[0].value, 25);
    assert_eq!(occupants[1].value, 1);
}

#[test]
fn collection_adds_each_coin_exactly_once() {
    let res = Resolution::Hd;
    let player_y = -360_000i64;
    let mut occupants = vec![
        Occupant { lane: LaneLocation::Center, value: 5, y_milli: player_y + 1000 },
        Occupant { lane: LaneLocation::Center, value: 5, y_milli: player_y - 1000 },
    ];
    let mut coins = PlayerCoins(0);
    collect_coins(&mut occupants, &mut coins, LaneLocation::Center, player_y, &res);
    assert_eq!(coins.0, 10);
    assert!(occupants.is_empty());
    // a second pass across a later frame finds nothing left to count
    collect_coins(&mut occupants, &mut coins, LaneLocation::Center, player_y, &res);
    assert_eq!(coins.0, 10);
}

#[test]
fn despawn_removes_only_coins_past_the_cutoff() {
    let res = Resolution::Hd;
    // 1080 / 2 + 100 = 640 pixels below center
    assert_eq!(despawn_cutoff_milli(&res), -640_000);
    let mut occupants = vec![
        Occupant { lane: LaneLocation::Left, value: 1, y_milli: -640_000 },
        Occupant { lane: LaneLocation::Left, value: 1, y_milli: -640_001 },
        Occupant { lane: LaneLocation::Left, value: 1, y_milli: 0 },
    ];
    despawn_offscreen(&mut occupants, &res);
    assert_eq!(occupants.len(), 2);
    assert_eq!(occupants[0].y_milli, -640_000);
    assert_eq!(occupants[1].y_milli, 0);
}

#[test]
fn player_coins_reset() {
    let mut coins = PlayerCoins(41);
    reset_player_coins(&mut coins);
    assert_eq!(coins.0, 0);
    assert_eq!(PlayerCoins::default().0, 0);
}
