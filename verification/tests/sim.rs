use slick_ricks_luge_lounge::Resolution;
use slick_ricks_luge_lounge::luge::dialogue::{RickLines, Scene, SceneId};
use slick_ricks_luge_lounge::luge::ui::toggle_launch_button;
use slick_ricks_luge_lounge::luge::{CoinResetPolicy, LaneLocation, LugeSim, LugeState};
use slick_ricks_luge_lounge::player::PlayerStats;

fn fresh_sim() -> LugeSim {
    LugeSim::new(Resolution::Hd, PlayerStats::default(), RickLines::init())
}

#[test]
fn new_sim_starts_in_loadout_with_defaults() {
    let sim = fresh_sim();
    assert_eq!(sim.state, LugeState::Loadout);
    assert_eq!(sim.player_lane.0, LaneLocation::Center);
    assert_eq!(sim.player_x, 0);
    assert_eq!(sim.scroll_speed.0, 1_000_000);
    assert_eq!(sim.player_coins.0, 0);
    assert!(sim.occupants.is_empty());
    assert!(sim.spawn_timer.is_none());
    assert!(sim.dialogue.waiting_for_input);
}

#[test]
fn stale_input_suppresses_continue_until_released() {
    let mut sim = fresh_sim();
    sim.enter_playing();
    assert!(sim.input_cooldown);

    // the click that entered the scene is still held: the continue
    // action must not be processed
    let t1 = sim.loadout_frame(true, true);
    assert!(t1.is_none());
    assert_eq!(sim.dialogue.line_index, 0);
    assert!(sim.input_cooldown);

    // released: the cooldown lifts, nothing pressed this frame
    let t2 = sim.loadout_frame(false, false);
    assert!(t2.is_none());
    assert!(!sim.input_cooldown);

    // a fresh press now advances the dialogue
    let t3 = sim.loadout_frame(true, true);
    assert!(t3.is_some());
    assert_eq!(sim.dialogue.line_index, 1);
}

#[test]
fn launch_resets_run_state_and_spawns_first_coin() {
    let mut sim = fresh_sim();
    sim.enter_playing();
    sim.loadout_frame(false, false);
    sim.launch();
    assert_eq!(sim.state, LugeState::Launched);
    assert_eq!(sim.run_timer.elapsed_ms, 0);
    assert_eq!(sim.scroll_speed.0, 1_000_000);
    assert_eq!(sim.occupants.len(), 1);
    assert_eq!(sim.occupants[0].lane, LaneLocation::Center);
    assert_eq!(sim.occupants[0].value, 1);
    let timer = sim.spawn_timer.expect("spawn timer installed on launch");
    // luck 1: 2.5 s / 1.1
    assert_eq!(timer.interval_ms, 2272);
}

#[test]
fn run_decays_to_zero_and_ends_exactly_once() {
    let mut sim = fresh_sim();
    sim.enter_playing();
    sim.loadout_frame(false, false);
    sim.launch();
    let mut fires = 0;
    let mut frames = 0;
    while sim.state == LugeState::Launched {
        assert!(sim.launched_frame_ready(1000));
        if sim.launched_frame(false, false, false, 1000) {
            fires += 1;
        }
        frames += 1;
        assert!(frames <= 30, "run should end by deceleration");
    }
    // at stat 1 without braking the default speed decays in 20 s
    assert_eq!(frames, 20);
    assert_eq!(fires, 1);
    assert_eq!(sim.scroll_speed.0, 0);
    assert_eq!(sim.state, LugeState::Loadout);
    assert!(sim.occupants.is_empty());
    assert!(sim.spawn_timer.is_none());
    assert_eq!(sim.player_lane.0, LaneLocation::Center);
    assert_eq!(sim.player_x, 0);
    assert_eq!(sim.run_timer.elapsed_ms, 20_000);
}

#[test]
fn braking_ends_the_run_sooner() {
    let mut sim = fresh_sim();
    sim.enter_playing();
    sim.launch();
    let mut frames = 0;
    while sim.state == LugeState::Launched {
        sim.launched_frame(false, false, true, 1000);
        frames += 1;
        assert!(frames <= 30);
    }
    // 150 units lost per second: 0 after 7 seconds
    assert_eq!(frames, 7);
}

#[test]
fn lane_movement_follows_input_during_a_run() {
    let mut sim = fresh_sim();
    sim.enter_playing();
    sim.launch();
    sim.launched_frame(true, false, false, 16);
    assert_eq!(sim.player_lane.0, LaneLocation::Left);
    assert_eq!(sim.player_x, -183);
    sim.launched_frame(false, true, false, 16);
    sim.launched_frame(false, true, false, 16);
    assert_eq!(sim.player_lane.0, LaneLocation::Right);
    assert_eq!(sim.player_x, 183);
    // the right boundary absorbs
    sim.launched_frame(false, true, false, 16);
    assert_eq!(sim.player_lane.0, LaneLocation::Right);
}

#[test]
fn coin_total_persists_across_runs_within_one_visit() {
    let mut sim = fresh_sim();
    sim.enter_playing();
    sim.player_coins.0 = 15;
    sim.launch();
    while sim.state == LugeState::Launched {
        sim.launched_frame(false, false, true, 1000);
    }
    assert!(sim.player_coins.0 >= 15);
    // a fresh scene visit resets the total
    sim.enter_playing();
    assert_eq!(sim.player_coins.0, 0);
}

#[test]
fn per_launch_reset_policy_clears_the_total_on_launch() {
    let mut sim = fresh_sim();
    sim.enter_playing();
    assert_eq!(sim.coin_reset_policy, CoinResetPolicy::SceneEntry);
    sim.coin_reset_policy = CoinResetPolicy::EveryLaunch;
    sim.player_coins.0 = 15;
    sim.launch();
    assert_eq!(sim.player_coins.0, 0);
}

#[test]
fn run_spawns_coins_on_the_spawn_timer() {
    let mut sim = LugeSim::new(
        Resolution::Hd,
        PlayerStats { attack: 1, defence: 1, speed: 1, luck: 100 },
        RickLines::init(),
    );
    sim.enter_playing();
    sim.launch();
    // luck 100 clamps the interval to 0.8 s; after 5 seconds several
    // coins have spawned (the initial coin plus timer spawns), all of
    // legal tiers, none below the despawn cutoff
    for _ in 0..5 {
        sim.launched_frame(false, false, false, 1000);
    }
    assert!(sim.occupants.len() >= 2);
    for coin in &sim.occupants {
        assert!(coin.value == 1 || coin.value == 5 || coin.value == 25);
        assert!(coin.y_milli >= -640_000);
        assert!(coin.y_milli <= 590_000);
    }
}

#[test]
fn dialogue_exhaustion_reveals_the_launch_button() {
    let script = RickLines(vec![
        Scene { id: SceneId::Intro, lines: vec!["hi".to_string()], completed: false },
        Scene { id: SceneId::Shop, lines: vec![], completed: false },
    ]);
    let mut sim = LugeSim::new(Resolution::Hd, PlayerStats::default(), script);
    sim.enter_playing();
    sim.loadout_frame(false, false);
    assert_eq!(toggle_launch_button(&sim.dialogue), (false, true));
    sim.loadout_frame(true, true);
    assert!(!sim.dialogue.waiting_for_input);
    assert_eq!(toggle_launch_button(&sim.dialogue), (true, false));
}
