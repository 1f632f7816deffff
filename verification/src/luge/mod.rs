//! The run simulation: lane model, scroll/deceleration physics, the
//! run timer, and the per-frame driver that sequences the systems in a
//! fixed declared order.

pub mod dialogue;
pub mod spawner;
pub mod ui;

use vstd::prelude::*;
use vstd::arithmetic::div_mod::lemma_div_is_ordered;
use crate::Resolution;
use crate::player::PlayerStats;
use self::dialogue::{DialogueState, RickLines, advance_dialogue, spec_advance_rel};
use self::spawner::{
    Occupant, PlayerCoins, SpawnTimer, cleanup_spawner, collect_coins, despawn_offscreen,
    lemma_gain_bounded, lemma_onscreen_bounded, lemma_survivors_bounded, reset_player_coins,
    scroll_occupants, spawn_coins, spawn_initial_coin, spec_coin_for, spec_collect_gain,
    spec_collect_threshold_milli, spec_despawn_cutoff_milli, spec_occupants_bounded,
    spec_onscreen, spec_scrolled, spec_spawn_interval_ms, spec_spawn_y_milli, spec_survivors,
    spec_weight_total,
};

verus! {

/// Sub-states of one visit to the playing scene: the pre-run loadout
/// phase (dialogue and stat review) and the active run.
#[derive(Clone, Copy, PartialEq, Eq, Structural, Debug)]
pub enum LugeState {
    Loadout,
    Launched,
}

impl Default for LugeState {
    fn default() -> (r: Self)
        ensures
            r == LugeState::Loadout,
    {
        LugeState::Loadout
    }
}

/// One of the three fixed lateral tracks the player can occupy.
#[derive(Clone, Copy, PartialEq, Eq, Structural, Debug)]
pub enum LaneLocation {
    Left,
    Center,
    Right,
}

impl Default for LaneLocation {
    fn default() -> (r: Self)
        ensures
            r == LaneLocation::Center,
    {
        LaneLocation::Center
    }
}

impl LaneLocation {
    /// The lane one step to the left; the left end absorbs.
    pub open spec fn spec_shift_left(self) -> LaneLocation {
        match self {
            LaneLocation::Left => LaneLocation::Left,
            LaneLocation::Center => LaneLocation::Left,
            LaneLocation::Right => LaneLocation::Center,
        }
    }

    /// The lane one step to the left; shifting left from the left lane
    /// stays in the left lane (boundary absorption, no wraparound).
    pub fn shift_left(&self) -> (r: Self)
        ensures
            r == self.spec_shift_left(),
    {
        match self {
            LaneLocation::Left => LaneLocation::Left,
            LaneLocation::Center => LaneLocation::Left,
            LaneLocation::Right => LaneLocation::Center,
        }
    }

    /// The lane one step to the right; the right end absorbs.
    pub open spec fn spec_shift_right(self) -> LaneLocation {
        match self {
            LaneLocation::Left => LaneLocation::Center,
            LaneLocation::Center => LaneLocation::Right,
            LaneLocation::Right => LaneLocation::Right,
        }
    }

    /// The lane one step to the right; shifting right from the right
    /// lane stays in the right lane (boundary absorption, no wraparound).
    pub fn shift_right(&self) -> (r: Self)
        ensures
            r == self.spec_shift_right(),
    {
        match self {
            LaneLocation::Left => LaneLocation::Center,
            LaneLocation::Center => LaneLocation::Right,
            LaneLocation::Right => LaneLocation::Right,
        }
    }
}

/// The lane the player currently occupies.
#[derive(Clone, Copy, PartialEq, Eq, Structural, Debug)]
pub struct PlayerLane(pub LaneLocation);

impl Default for PlayerLane {
    fn default() -> (r: Self)
        ensures
            r == PlayerLane(LaneLocation::Center),
    {
        PlayerLane(LaneLocation::Center)
    }
}

/// Screen-space x offset of one lane, in pixels.
#[derive(Clone, Copy, PartialEq, Eq, Structural, Debug)]
pub struct Lane {
    pub x: i32,
}

/// Derived lane geometry: the x offset of each lane for the current
/// resolution. Recomputed on entry to the playing scene and whenever
/// the resolution changes; read-only in between.
#[derive(Clone, Copy, PartialEq, Eq, Structural, Debug)]
pub struct Lanes {
    pub left: Lane,
    pub center: Lane,
    pub right: Lane,
}

impl Lanes {
    /// Lane geometry for a resolution: left and right sit at the
    /// offsets `Resolution::calculate_lanes` gives, the center at 0.
    pub fn init(resolution: &Resolution) -> (r: Self)
        ensures
            r.left.x == -61 * resolution.spec_scale(),
            r.center.x == 0,
            r.right.x == 61 * resolution.spec_scale(),
    {
        let transform = resolution.calculate_lanes();
        Self {
            left: Lane { x: transform.0 },
            center: Lane { x: 0 },
            right: Lane { x: transform.1 },
        }
    }

    /// The x offset recorded for a lane.
    pub open spec fn spec_x_for(self, lane: LaneLocation) -> i32 {
        match lane {
            LaneLocation::Left => self.left.x,
            LaneLocation::Center => self.center.x,
            LaneLocation::Right => self.right.x,
        }
    }

    /// Pure lookup of the x offset for a lane.
    pub fn x_for(&self, lane: LaneLocation) -> (x: i32)
        ensures
            x == self.spec_x_for(lane),
    {
        match lane {
            LaneLocation::Left => self.left.x,
            LaneLocation::Center => self.center.x,
            LaneLocation::Right => self.right.x,
        }
    }
}

/// World-scroll rate in thousandths of a pixel per second. Reset to
/// `SCROLL_SPEED_DEFAULT_MILLI` on each launch; decremented every tick
/// by the deceleration term and floored at 0, which ends the run.
#[derive(Clone, Copy, PartialEq, Eq, Structural, Debug)]
pub struct ScrollSpeed(pub u64);

/// The scroll speed every run starts from: 1000 pixels per second.
pub const SCROLL_SPEED_DEFAULT_MILLI: u64 = 1_000_000;

impl Default for ScrollSpeed {
    fn default() -> (r: Self)
        ensures
            r == ScrollSpeed(SCROLL_SPEED_DEFAULT_MILLI),
    {
        ScrollSpeed(SCROLL_SPEED_DEFAULT_MILLI)
    }
}

/// Base deceleration in pixels per second per second, before the speed
/// stat divides it and braking multiplies it.
pub const BASE_DECELERATION: u64 = 50;

/// How much faster the sled sheds speed while the brake is held.
pub const BRAKING_MULTIPLIER: u64 = 3;

/// The speed lost over `dt_ms` milliseconds, in thousandths of a pixel
/// per second: `50 / speed_stat * braking_factor * dt`, with the
/// braking factor 3 while the brake is held and 1 otherwise.
pub open spec fn spec_decel_amount(speed_stat: int, braking: bool, dt_ms: int) -> int
    recommends
        speed_stat >= 1,
{
    BASE_DECELERATION * (if braking { BRAKING_MULTIPLIER as int } else { 1int }) * dt_ms
        / speed_stat
}

/// The scroll speed left after one deceleration tick: the previous
/// speed minus the deceleration amount, floored at 0.
pub open spec fn spec_speed_after_decel(
    speed_milli: int,
    speed_stat: int,
    braking: bool,
    dt_ms: int,
) -> int {
    let amount = spec_decel_amount(speed_stat, braking, dt_ms);
    if speed_milli >= amount {
        speed_milli - amount
    } else {
        0
    }
}

/// One deceleration tick. The new speed is `max(0, old - decel * dt)`
/// with `decel = 50 / speed_stat * braking_factor`; the result is
/// monotonically non-increasing. Returns whether the run ends this
/// tick, which holds exactly when the new speed is 0.
pub fn decelerate_luigee(
    scroll_speed: &mut ScrollSpeed,
    speed_stat: i32,
    braking: bool,
    dt_ms: u64,
) -> (ended: bool)
    requires
        speed_stat >= 1,
        dt_ms <= MAX_FRAME_MS,
    ensures
        final(scroll_speed).0 == spec_speed_after_decel(
            old(scroll_speed).0 as int,
            speed_stat as int,
            braking,
            dt_ms as int,
        ),
        final(scroll_speed).0 <= old(scroll_speed).0,
        ended <==> final(scroll_speed).0 == 0,
{
    proof {
        assert(BASE_DECELERATION * BRAKING_MULTIPLIER * dt_ms == 150 * dt_ms)
            by (nonlinear_arith)
            requires
                BASE_DECELERATION * BRAKING_MULTIPLIER == 150,
        {};
        assert(BASE_DECELERATION * dt_ms == 50 * dt_ms) by (nonlinear_arith)
            requires
                BASE_DECELERATION == 50,
        {};
    }
    let amount: u64 = if braking {
        BASE_DECELERATION * BRAKING_MULTIPLIER * dt_ms / (speed_stat as u64)
    } else {
        BASE_DECELERATION * dt_ms / (speed_stat as u64)
    };
    if scroll_speed.0 >= amount {
        scroll_speed.0 = scroll_speed.0 - amount;
    } else {
        scroll_speed.0 = 0;
    }
    scroll_speed.0 == 0
}

/// The widest frame delta the physics accepts, in milliseconds.
pub const MAX_FRAME_MS: u64 = 1_000_000_000;

/// The widest speed stat the physics accepts.
pub const MAX_STAT: i32 = 100_000;

/// Screen height in milli-pixels.
pub open spec fn spec_screen_h_milli(resolution: Resolution) -> int {
    resolution.spec_vec2().1 * 1000
}

/// How far the world scrolls in one frame, in milli-pixels: the scroll
/// speed times `speed_stat / 10` times the frame delta in seconds.
pub open spec fn spec_scroll_delta_milli(speed_milli: int, speed_stat: int, dt_ms: int) -> int {
    speed_milli * speed_stat * dt_ms / 10_000
}

/// How far the world scrolls this frame, in milli-pixels.
pub fn scroll_delta_milli(scroll_speed: &ScrollSpeed, speed_stat: i32, dt_ms: u64) -> (d: u64)
    requires
        scroll_speed.0 <= SCROLL_SPEED_DEFAULT_MILLI,
        1 <= speed_stat <= MAX_STAT,
        dt_ms <= MAX_FRAME_MS,
    ensures
        d == spec_scroll_delta_milli(scroll_speed.0 as int, speed_stat as int, dt_ms as int),
        d <= 10_000_000_000_000_000,
{
    proof {
        assert(scroll_speed.0 * speed_stat <= 1_000_000 * 100_000
            && scroll_speed.0 * speed_stat * dt_ms
                <= 1_000_000 * 100_000 * 1_000_000_000) by (nonlinear_arith)
            requires
                scroll_speed.0 <= 1_000_000,
                0 <= speed_stat <= 100_000,
                dt_ms <= 1_000_000_000,
        {};
    }
    let wide: u128 = scroll_speed.0 as u128 * (speed_stat as u128) * (dt_ms as u128) / 10_000;
    wide as u64
}

/// The y positions, in milli-pixels, of the two vertically tiled lane
/// background sprites; one starts at the origin, the other one screen
/// height above it.
#[derive(Clone, Copy, PartialEq, Eq, Structural, Debug)]
pub struct LaneBackdrop {
    pub y0_milli: i64,
    pub y1_milli: i64,
}

impl LaneBackdrop {
    /// The backdrop as placed on scene entry and on each run reset.
    pub fn init(resolution: &Resolution) -> (r: Self)
        ensures
            r.y0_milli == 0,
            r.y1_milli == spec_screen_h_milli(*resolution),
    {
        let h = resolution.vec2().1;
        LaneBackdrop { y0_milli: 0, y1_milli: h as i64 * 1000 }
    }
}

/// One scroll step of a tiling sprite: it moves down by the scroll
/// delta, and once it has passed one screen height below the origin it
/// is shifted up by two screen heights (a seamless vertical loop over
/// exactly two sprites one screen height apart).
pub open spec fn spec_wrap_scroll(y_milli: int, delta_milli: int, h_milli: int) -> int {
    let moved = y_milli - delta_milli;
    if moved <= -h_milli {
        moved + 2 * h_milli
    } else {
        moved
    }
}

/// Scroll the two lane background sprites and wrap them for a
/// seamless loop. The wrap is seamless only while one frame's scroll
/// distance stays within two screen heights, which the run driver
/// maintains.
pub fn scroll_lanes(
    backdrop: &mut LaneBackdrop,
    delta_milli: u64,
    resolution: &Resolution,
)
    requires
        -spec_screen_h_milli(*resolution) < old(backdrop).y0_milli
            <= spec_screen_h_milli(*resolution),
        -spec_screen_h_milli(*resolution) < old(backdrop).y1_milli
            <= spec_screen_h_milli(*resolution),
        delta_milli <= 2 * spec_screen_h_milli(*resolution),
    ensures
        final(backdrop).y0_milli == spec_wrap_scroll(
            old(backdrop).y0_milli as int,
            delta_milli as int,
            spec_screen_h_milli(*resolution),
        ),
        final(backdrop).y1_milli == spec_wrap_scroll(
            old(backdrop).y1_milli as int,
            delta_milli as int,
            spec_screen_h_milli(*resolution),
        ),
        -spec_screen_h_milli(*resolution) < final(backdrop).y0_milli
            <= spec_screen_h_milli(*resolution),
        -spec_screen_h_milli(*resolution) < final(backdrop).y1_milli
            <= spec_screen_h_milli(*resolution),
{
    let h_milli: i64 = resolution.vec2().1 as i64 * 1000;
    let mut y = backdrop.y0_milli - delta_milli as i64;
    if y <= -h_milli {
        y = y + 2 * h_milli;
    }
    backdrop.y0_milli = y;
    let mut y = backdrop.y1_milli - delta_milli as i64;
    if y <= -h_milli {
        y = y + 2 * h_milli;
    }
    backdrop.y1_milli = y;
}

/// The player lane after one frame of movement input: a just-pressed
/// left shifts left, then a just-pressed right shifts right.
pub open spec fn spec_move_luigee(
    lane: LaneLocation,
    left_just_pressed: bool,
    right_just_pressed: bool,
) -> LaneLocation {
    let after_left = if left_just_pressed {
        lane.spec_shift_left()
    } else {
        lane
    };
    if right_just_pressed {
        after_left.spec_shift_right()
    } else {
        after_left
    }
}

/// Apply one frame of movement input to the player lane.
pub fn move_luigee(
    player_lane: &mut PlayerLane,
    left_just_pressed: bool,
    right_just_pressed: bool,
)
    ensures
        final(player_lane).0 == spec_move_luigee(
            old(player_lane).0,
            left_just_pressed,
            right_just_pressed,
        ),
{
    if left_just_pressed {
        player_lane.0 = player_lane.0.shift_left();
    }
    if right_just_pressed {
        player_lane.0 = player_lane.0.shift_right();
    }
}

/// Sync the player sprite's x position to the current lane's offset.
pub fn update_luigee_sprite(player_lane: &PlayerLane, lanes: &Lanes) -> (x: i32)
    ensures
        x == lanes.spec_x_for(player_lane.0),
{
    lanes.x_for(player_lane.0)
}

/// The player sprite's fixed y position, in pixels: a third of the
/// screen height below the center.
pub fn player_y_px(resolution: &Resolution) -> (y: i32)
    ensures
        y == -(resolution.spec_vec2().1 / 3) as int,
{
    -((resolution.vec2().1 / 3) as i32)
}

/// Monotonic elapsed-time accumulator for the current run, reset on
/// launch and never decremented.
#[derive(Clone, Copy, PartialEq, Eq, Structural, Debug)]
pub struct RunTimer {
    pub elapsed_ms: u64,
}

impl Default for RunTimer {
    fn default() -> (r: Self)
        ensures
            r == (RunTimer { elapsed_ms: 0u64 }),
    {
        RunTimer { elapsed_ms: 0 }
    }
}

impl RunTimer {
    /// Advance the accumulator by one frame delta.
    pub fn tick(&mut self, dt_ms: u64)
        requires
            old(self).elapsed_ms + dt_ms <= u64::MAX,
        ensures
            final(self).elapsed_ms == old(self).elapsed_ms + dt_ms,
    {
        self.elapsed_ms = self.elapsed_ms + dt_ms;
    }

    /// Restart the accumulator at 0.
    pub fn reset(&mut self)
        ensures
            final(self).elapsed_ms == 0,
    {
        self.elapsed_ms = 0;
    }
}

/// When the player's coin total resets. Observed behavior resets it
/// on each entry to the playing scene only, so it persists across
/// runs within one visit; the alternative resets it on every launch.
#[derive(Clone, Copy, PartialEq, Eq, Structural, Debug)]
pub enum CoinResetPolicy {
    SceneEntry,
    EveryLaunch,
}

impl Default for CoinResetPolicy {
    fn default() -> (r: Self)
        ensures
            r == CoinResetPolicy::SceneEntry,
    {
        CoinResetPolicy::SceneEntry
    }
}

/// The whole run simulation, gathered into one explicit state struct.
/// The per-frame drivers below run the systems in a fixed declared
/// order: in the loadout phase, stale-input consumption before
/// dialogue advance; in a run, timer tick, deceleration, lane
/// movement, sprite sync, backdrop scroll, then the coin pipeline
/// spawn, scroll, collect, despawn — collection always sees
/// post-scroll positions, and despawning never races collection.
pub struct LugeSim {
    pub resolution: Resolution,
    pub stats: PlayerStats,
    pub state: LugeState,
    pub player_lane: PlayerLane,
    pub lanes: Lanes,
    pub player_x: i32,
    pub player_y_milli: i64,
    pub backdrop: LaneBackdrop,
    pub scroll_speed: ScrollSpeed,
    pub dialogue: DialogueState,
    pub script: RickLines,
    pub run_timer: RunTimer,
    pub player_coins: PlayerCoins,
    pub spawn_timer: Option<SpawnTimer>,
    pub occupants: Vec<Occupant>,
    pub input_cooldown: bool,
    pub continue_enabled: bool,
    pub coin_reset_policy: CoinResetPolicy,
}

impl LugeSim {
    /// The simulation's invariant. A launched run always has positive
    /// scroll speed — reaching 0 leaves the launched state within the
    /// same frame, so the run-end transition fires exactly once per
    /// run — and a live spawn timer; the loadout phase holds no
    /// occupants and no timer; occupants sit between the despawn
    /// cutoff and the spawn height with tier values at most 25; the
    /// lane geometry and player sprite match the resolution and lane;
    /// and the continue action is only ever disabled while the
    /// stale-input cooldown is present.
    pub open spec fn wf(self) -> bool {
        &&& 1 <= self.stats.speed <= MAX_STAT
        &&& 0 <= self.stats.luck <= MAX_STAT
        &&& self.scroll_speed.0 <= SCROLL_SPEED_DEFAULT_MILLI
        &&& (self.state == LugeState::Launched ==> self.scroll_speed.0 > 0)
        &&& (self.state == LugeState::Launched ==> self.spawn_timer.is_some())
        &&& (self.state == LugeState::Loadout ==> self.spawn_timer.is_none()
            && self.occupants@.len() == 0)
        &&& (self.spawn_timer.is_some() ==> self.spawn_timer.unwrap().wf())
        &&& spec_occupants_bounded(
            self.occupants@,
            spec_despawn_cutoff_milli(self.resolution),
            spec_spawn_y_milli(self.resolution),
        )
        &&& self.lanes.left.x == -61 * self.resolution.spec_scale()
        &&& self.lanes.center.x == 0
        &&& self.lanes.right.x == 61 * self.resolution.spec_scale()
        &&& self.player_x == self.lanes.spec_x_for(self.player_lane.0)
        &&& self.player_y_milli == -((self.resolution.spec_vec2().1 / 3) * 1000)
        &&& -spec_screen_h_milli(self.resolution) < self.backdrop.y0_milli
            <= spec_screen_h_milli(self.resolution)
        &&& -spec_screen_h_milli(self.resolution) < self.backdrop.y1_milli
            <= spec_screen_h_milli(self.resolution)
        &&& (!self.input_cooldown ==> self.continue_enabled)
        &&& (self.dialogue.waiting_for_input ==> self.dialogue.line_index < usize::MAX)
    }

    /// A fresh simulation, as assembled when the game starts: loadout
    /// phase, centered player, default scroll speed, the given script
    /// at its first line, no coins and no cooldown yet.
    pub fn new(resolution: Resolution, stats: PlayerStats, script: RickLines) -> (sim: LugeSim)
        requires
            1 <= stats.speed <= MAX_STAT,
            0 <= stats.luck <= MAX_STAT,
        ensures
            sim.wf(),
            sim.resolution == resolution,
            sim.stats == stats,
            sim.state == LugeState::Loadout,
            sim.player_lane == PlayerLane(LaneLocation::Center),
            sim.player_x == 0,
            sim.scroll_speed == ScrollSpeed(SCROLL_SPEED_DEFAULT_MILLI),
            sim.dialogue == (DialogueState {
                current_scene: dialogue::SceneId::Intro,
                line_index: 0usize,
                waiting_for_input: true,
            }),
            sim.script == script,
            sim.run_timer.elapsed_ms == 0,
            sim.player_coins.0 == 0,
            sim.spawn_timer.is_none(),
            sim.occupants@.len() == 0,
            !sim.input_cooldown,
            sim.continue_enabled,
            sim.coin_reset_policy == CoinResetPolicy::SceneEntry,
    {
        let lanes = Lanes::init(&resolution);
        let backdrop = LaneBackdrop::init(&resolution);
        let y_px = player_y_px(&resolution);
        LugeSim {
            resolution,
            stats,
            state: LugeState::Loadout,
            player_lane: PlayerLane(LaneLocation::Center),
            lanes,
            player_x: 0,
            player_y_milli: y_px as i64 * 1000,
            backdrop,
            scroll_speed: ScrollSpeed(SCROLL_SPEED_DEFAULT_MILLI),
            dialogue: DialogueState::default(),
            script,
            run_timer: RunTimer { elapsed_ms: 0 },
            player_coins: PlayerCoins(0),
            spawn_timer: Option::None,
            occupants: Vec::new(),
            input_cooldown: false,
            continue_enabled: true,
            coin_reset_policy: CoinResetPolicy::SceneEntry,
        }
    }

    /// Entry to the playing scene: recompute the lane geometry,
    /// recenter the player, reset the backdrop and the coin total,
    /// clear any leftover occupants, and install the stale-input
    /// cooldown. The dialogue and script persist across visits; the
    /// coin total does not.
    pub fn enter_playing(&mut self)
        requires
            old(self).wf(),
        ensures
            final(self).wf(),
            final(self).resolution == old(self).resolution,
            final(self).stats == old(self).stats,
            final(self).dialogue == old(self).dialogue,
            final(self).script.0@ == old(self).script.0@,
            final(self).scroll_speed == old(self).scroll_speed,
            final(self).run_timer == old(self).run_timer,
            final(self).state == LugeState::Loadout,
            final(self).player_lane == PlayerLane(LaneLocation::Center),
            final(self).player_x == 0,
            final(self).backdrop.y0_milli == 0,
            final(self).backdrop.y1_milli == spec_screen_h_milli(old(self).resolution),
            final(self).player_coins.0 == 0,
            final(self).occupants@.len() == 0,
            final(self).spawn_timer.is_none(),
            final(self).input_cooldown,
            final(self).continue_enabled,
            final(self).coin_reset_policy == old(self).coin_reset_policy,
    {
        self.state = LugeState::Loadout;
        self.player_lane = PlayerLane(LaneLocation::Center);
        self.lanes = Lanes::init(&self.resolution);
        self.player_x = 0;
        let y_px = player_y_px(&self.resolution);
        self.player_y_milli = y_px as i64 * 1000;
        self.backdrop = LaneBackdrop::init(&self.resolution);
        reset_player_coins(&mut self.player_coins);
        cleanup_spawner(&mut self.occupants, &mut self.spawn_timer);
        self.input_cooldown = true;
        self.continue_enabled = true;
    }

    /// One frame of the loadout phase, in fixed order: stale-input
    /// consumption, then the dialogue advance. While the cooldown is
    /// present and a suppressing physical input (primary pointer
    /// button or space) is held, the continue action stays disabled;
    /// once released, the action is re-enabled and the cooldown is
    /// removed. The continue action is never processed while the
    /// cooldown is present. A just-pressed continue implies its
    /// physical input is held this tick, which the precondition
    /// records.
    pub fn loadout_frame(&mut self, suppress_held: bool, continue_just_pressed: bool) -> (text:
        Option<String>)
        requires
            old(self).wf(),
            old(self).state == LugeState::Loadout,
            continue_just_pressed ==> suppress_held,
        ensures
            final(self).wf(),
            final(self).state == LugeState::Loadout,
            final(self).resolution == old(self).resolution,
            final(self).stats == old(self).stats,
            final(self).lanes == old(self).lanes,
            final(self).player_lane == old(self).player_lane,
            final(self).player_x == old(self).player_x,
            final(self).player_y_milli == old(self).player_y_milli,
            final(self).backdrop == old(self).backdrop,
            final(self).scroll_speed == old(self).scroll_speed,
            final(self).run_timer == old(self).run_timer,
            final(self).player_coins == old(self).player_coins,
            final(self).occupants@ == old(self).occupants@,
            final(self).spawn_timer == old(self).spawn_timer,
            final(self).coin_reset_policy == old(self).coin_reset_policy,
            old(self).input_cooldown && suppress_held ==> final(self).input_cooldown
                && !final(self).continue_enabled,
            old(self).input_cooldown && !suppress_held ==> !final(self).input_cooldown
                && final(self).continue_enabled,
            !old(self).input_cooldown ==> !final(self).input_cooldown && final(self).continue_enabled
                == old(self).continue_enabled,
            old(self).input_cooldown ==> final(self).dialogue == old(self).dialogue
                && final(self).script.0@ == old(self).script.0@ && text.is_none(),
            !old(self).input_cooldown ==> spec_advance_rel(
                old(self).dialogue,
                old(self).script.0@,
                continue_just_pressed,
                final(self).dialogue,
                final(self).script.0@,
                (if text.is_some() {
                    Option::Some(text.unwrap()@)
                } else {
                    Option::None
                }),
            ),
    {
        if self.input_cooldown {
            consume_stale_input(&mut self.input_cooldown, &mut self.continue_enabled, suppress_held);
        }
        let effective = continue_just_pressed && self.continue_enabled;
        advance_dialogue(&mut self.dialogue, &mut self.script, effective)
    }

    /// Launch the run: reset the run timer, restore the default
    /// scroll speed, start the spawn timer from the luck stat, and
    /// spawn the guaranteed first coin in the center lane. The coin
    /// total survives the launch unless the reset policy asks for a
    /// reset on every launch.
    pub fn launch(&mut self)
        requires
            old(self).wf(),
            old(self).state == LugeState::Loadout,
        ensures
            final(self).wf(),
            final(self).state == LugeState::Launched,
            final(self).resolution == old(self).resolution,
            final(self).stats == old(self).stats,
            final(self).dialogue == old(self).dialogue,
            final(self).script.0@ == old(self).script.0@,
            final(self).lanes == old(self).lanes,
            final(self).player_lane == old(self).player_lane,
            final(self).player_x == old(self).player_x,
            final(self).player_y_milli == old(self).player_y_milli,
            final(self).backdrop == old(self).backdrop,
            final(self).player_coins.0 == (if old(self).coin_reset_policy
                == CoinResetPolicy::EveryLaunch {
                0u32
            } else {
                old(self).player_coins.0
            }),
            final(self).coin_reset_policy == old(self).coin_reset_policy,
            final(self).input_cooldown == old(self).input_cooldown,
            final(self).continue_enabled == old(self).continue_enabled,
            final(self).run_timer.elapsed_ms == 0,
            final(self).scroll_speed == ScrollSpeed(SCROLL_SPEED_DEFAULT_MILLI),
            final(self).spawn_timer.is_some(),
            final(self).spawn_timer.unwrap().interval_ms == spec_spawn_interval_ms(
                old(self).stats.luck as int,
            ),
            final(self).spawn_timer.unwrap().elapsed_ms == 0,
            final(self).occupants@.len() == 1,
            final(self).occupants@[0] == (Occupant {
                lane: LaneLocation::Center,
                value: 1u32,
                y_milli: spec_spawn_y_milli(old(self).resolution) as i64,
            }),
    {
        if self.coin_reset_policy == CoinResetPolicy::EveryLaunch {
            reset_player_coins(&mut self.player_coins);
        }
        self.run_timer.reset();
        self.scroll_speed = ScrollSpeed(SCROLL_SPEED_DEFAULT_MILLI);
        self.spawn_timer = Option::Some(SpawnTimer::init(self.stats.luck));
        spawn_initial_coin(&mut self.occupants, &self.resolution);
        self.state = LugeState::Launched;
    }

    /// Whether one run frame's numeric preconditions hold for this
    /// frame delta: the run timer will not overflow, the coin total
    /// cannot overflow even if every coin and one fresh spawn were
    /// collected, and the frame's scroll distance stays within two
    /// screen heights, the span the two-sprite backdrop loop covers.
    pub fn launched_frame_ready(&self, dt_ms: u64) -> (r: bool)
        requires
            self.wf(),
            dt_ms <= MAX_FRAME_MS,
        ensures
            r <==> {
                &&& self.run_timer.elapsed_ms + dt_ms <= u64::MAX
                &&& self.player_coins.0 + 25 * (self.occupants@.len() + 1) <= u32::MAX
                &&& spec_scroll_delta_milli(
                    self.scroll_speed.0 as int,
                    self.stats.speed as int,
                    dt_ms as int,
                ) <= 2 * spec_screen_h_milli(self.resolution)
            },
    {
        let timer_ok = self.run_timer.elapsed_ms <= u64::MAX - dt_ms;
        let coins_ok = (self.player_coins.0 as u128) + 25 * (self.occupants.len() as u128 + 1)
            <= u32::MAX as u128;
        let delta = scroll_delta_milli(&self.scroll_speed, self.stats.speed, dt_ms);
        let h_milli = self.resolution.vec2().1 as u64 * 1000;
        let delta_ok = delta <= 2 * h_milli;
        timer_ok && coins_ok && delta_ok
    }

    /// One frame of an active run, in fixed order: run-timer tick,
    /// deceleration with the run-end check, lane movement, sprite
    /// sync, backdrop scroll, then the coin pipeline — spawn, scroll,
    /// collect, despawn, in that order, so collection sees post-scroll
    /// positions and despawning cannot remove a coin before collection
    /// had its chance in the same frame. When the speed reaches
    /// exactly 0 the run ends this frame: the spawner is torn down,
    /// the player recentered, the backdrop reset, and the simulation
    /// returns to the loadout phase. The coin total keeps everything
    /// collected, this frame included. Which lane and tier a spawn
    /// rolls is random; the contract promises a coin that the weighted
    /// rules describe for some pair of in-range rolls.
    pub fn launched_frame(
        &mut self,
        left_just_pressed: bool,
        right_just_pressed: bool,
        brake_held: bool,
        dt_ms: u64,
    ) -> (ended: bool)
        requires
            old(self).wf(),
            old(self).state == LugeState::Launched,
            dt_ms <= MAX_FRAME_MS,
            old(self).run_timer.elapsed_ms + dt_ms <= u64::MAX,
            old(self).player_coins.0 + 25 * (old(self).occupants@.len() + 1) <= u32::MAX,
            spec_scroll_delta_milli(
                old(self).scroll_speed.0 as int,
                old(self).stats.speed as int,
                dt_ms as int,
            ) <= 2 * spec_screen_h_milli(old(self).resolution),
        ensures
            final(self).wf(),
            ended <==> final(self).scroll_speed.0 == 0,
            final(self).scroll_speed.0 == spec_speed_after_decel(
                old(self).scroll_speed.0 as int,
                old(self).stats.speed as int,
                brake_held,
                dt_ms as int,
            ),
            final(self).scroll_speed.0 <= old(self).scroll_speed.0,
            final(self).state == (if ended {
                LugeState::Loadout
            } else {
                LugeState::Launched
            }),
            final(self).run_timer.elapsed_ms == old(self).run_timer.elapsed_ms + dt_ms,
            final(self).resolution == old(self).resolution,
            final(self).stats == old(self).stats,
            final(self).lanes == old(self).lanes,
            final(self).dialogue == old(self).dialogue,
            final(self).script.0@ == old(self).script.0@,
            final(self).player_y_milli == old(self).player_y_milli,
            final(self).input_cooldown == old(self).input_cooldown,
            final(self).continue_enabled == old(self).continue_enabled,
            final(self).coin_reset_policy == old(self).coin_reset_policy,
            final(self).player_lane.0 == (if ended {
                LaneLocation::Center
            } else {
                spec_move_luigee(old(self).player_lane.0, left_just_pressed, right_just_pressed)
            }),
            final(self).player_x == final(self).lanes.spec_x_for(final(self).player_lane.0),
            ended ==> final(self).occupants@.len() == 0 && final(self).spawn_timer.is_none()
                && final(self).backdrop.y0_milli == 0 && final(self).backdrop.y1_milli
                == spec_screen_h_milli(old(self).resolution),
            !ended ==> final(self).spawn_timer.is_some() && final(self).spawn_timer.unwrap().interval_ms
                == old(self).spawn_timer.unwrap().interval_ms
                && final(self).spawn_timer.unwrap().elapsed_ms == (
                old(self).spawn_timer.unwrap().elapsed_ms + dt_ms) % (
                old(self).spawn_timer.unwrap().interval_ms as int) && final(self).backdrop.y0_milli
                == spec_wrap_scroll(
                old(self).backdrop.y0_milli as int,
                spec_scroll_delta_milli(
                    final(self).scroll_speed.0 as int,
                    old(self).stats.speed as int,
                    dt_ms as int,
                ),
                spec_screen_h_milli(old(self).resolution),
            ) && final(self).backdrop.y1_milli == spec_wrap_scroll(
                old(self).backdrop.y1_milli as int,
                spec_scroll_delta_milli(
                    final(self).scroll_speed.0 as int,
                    old(self).stats.speed as int,
                    dt_ms as int,
                ),
                spec_screen_h_milli(old(self).resolution),
            ),
            exists|lane_roll: int, tier_roll: int|
                {
                    &&& 0 <= lane_roll < 3
                    &&& 0 <= tier_roll < spec_weight_total(old(self).stats.luck as int)
                    &&& ({
                        let fired = old(self).spawn_timer.unwrap().elapsed_ms + dt_ms >= old(
                            self,
                        ).spawn_timer.unwrap().interval_ms;
                        let s1 = if fired {
                            old(self).occupants@.push(
                                #[trigger] spec_coin_for(
                                    lane_roll,
                                    tier_roll,
                                    old(self).stats.luck as int,
                                    old(self).resolution,
                                ),
                            )
                        } else {
                            old(self).occupants@
                        };
                        let delta = spec_scroll_delta_milli(
                            final(self).scroll_speed.0 as int,
                            old(self).stats.speed as int,
                            dt_ms as int,
                        );
                        let s2 = spec_scrolled(s1, delta);
                        let lane2 = spec_move_luigee(
                            old(self).player_lane.0,
                            left_just_pressed,
                            right_just_pressed,
                        );
                        let thr = spec_collect_threshold_milli(old(self).resolution);
                        let py = old(self).player_y_milli as int;
                        &&& final(self).player_coins.0 == old(self).player_coins.0
                            + spec_collect_gain(s2, lane2, py, thr)
                        &&& (!ended ==> final(self).occupants@ == spec_onscreen(
                            spec_survivors(s2, lane2, py, thr),
                            spec_despawn_cutoff_milli(old(self).resolution),
                        ))
                    })
                },
    {
        let ghost pre = *old(self);
        self.run_timer.tick(dt_ms);
        let ended = decelerate_luigee(&mut self.scroll_speed, self.stats.speed, brake_held, dt_ms);
        move_luigee(&mut self.player_lane, left_just_pressed, right_just_pressed);
        self.player_x = update_luigee_sprite(&self.player_lane, &self.lanes);
        proof {
            assert(self.scroll_speed.0 * self.stats.speed * dt_ms <= pre.scroll_speed.0
                * pre.stats.speed * dt_ms) by (nonlinear_arith)
                requires
                    self.scroll_speed.0 <= pre.scroll_speed.0,
                    self.stats.speed == pre.stats.speed,
                    self.stats.speed >= 0,
            {};
            lemma_div_is_ordered(
                self.scroll_speed.0 * self.stats.speed * dt_ms,
                pre.scroll_speed.0 * pre.stats.speed * dt_ms,
                10_000,
            );
        }
        let delta = scroll_delta_milli(&self.scroll_speed, self.stats.speed, dt_ms);
        scroll_lanes(&mut self.backdrop, delta, &self.resolution);
        let ghost s0 = self.occupants@;
        let spawned = spawn_coins(
            &mut self.occupants,
            &mut self.spawn_timer,
            self.stats.luck,
            dt_ms,
            &self.resolution,
        );
        let ghost s1 = self.occupants@;
        let ghost rolls: (int, int) = if spawned {
            choose|r1: int, r2: int|
                0 <= r1 < 3 && 0 <= r2 < spec_weight_total(pre.stats.luck as int) && s1 == s0.push(
                    spec_coin_for(r1, r2, pre.stats.luck as int, pre.resolution),
                )
        } else {
            (0int, 0int)
        };
        let ghost cutoff = spec_despawn_cutoff_milli(pre.resolution);
        let ghost spawn_y = spec_spawn_y_milli(pre.resolution);
        proof {
            assert(spec_occupants_bounded(s1, cutoff, spawn_y));
            assert(forall|i: int|
                0 <= i < s1.len() ==> (#[trigger] s1[i]).y_milli - delta >= i64::MIN);
        }
        scroll_occupants(&mut self.occupants, delta);
        let ghost s2 = self.occupants@;
        let ghost lane2 = self.player_lane.0;
        let ghost py = self.player_y_milli as int;
        let ghost thr = spec_collect_threshold_milli(pre.resolution);
        proof {
            assert(spec_occupants_bounded(s2, cutoff - delta, spawn_y));
            lemma_gain_bounded(s2, lane2, py, thr);
        }
        collect_coins(
            &mut self.occupants,
            &mut self.player_coins,
            self.player_lane.0,
            self.player_y_milli,
            &self.resolution,
        );
        proof {
            lemma_survivors_bounded(s2, lane2, py, thr, cutoff - delta, spawn_y);
        }
        despawn_offscreen(&mut self.occupants, &self.resolution);
        proof {
            lemma_onscreen_bounded(
                spec_survivors(s2, lane2, py, thr),
                cutoff,
                cutoff - delta,
                spawn_y,
            );
        }
        if ended {
            cleanup_spawner(&mut self.occupants, &mut self.spawn_timer);
            self.player_lane = PlayerLane(LaneLocation::Center);
            self.player_x = 0;
            self.backdrop = LaneBackdrop::init(&self.resolution);
            self.state = LugeState::Loadout;
        }
        proof {
            let fired = pre.spawn_timer.unwrap().elapsed_ms + dt_ms
                >= pre.spawn_timer.unwrap().interval_ms;
            let coin = spec_coin_for(rolls.0, rolls.1, pre.stats.luck as int, pre.resolution);
            let s1w = if fired {
                s0.push(coin)
            } else {
                s0
            };
            assert(fired == spawned);
            assert(s1w == s1);
            assert(0 <= rolls.0 < 3);
            assert(0 <= rolls.1 < spec_weight_total(pre.stats.luck as int));
            assert(lane2 == spec_move_luigee(
                pre.player_lane.0,
                left_just_pressed,
                right_just_pressed,
            ));
            assert(s2 == spec_scrolled(s1w, delta as int));
            assert(self.player_coins.0 == pre.player_coins.0 + spec_collect_gain(
                s2,
                lane2,
                py,
                thr,
            ));
            if !ended {
                assert(self.occupants@ == spec_onscreen(
                    spec_survivors(s2, lane2, py, thr),
                    cutoff,
                ));
            }
        }
        ended
    }
}

/// One tick of the stale-input guard, run while the cooldown is
/// present: as long as a suppressing physical input is still held the
/// continue action is disabled; once released the action is
/// re-enabled and the cooldown removed. This keeps the click that
/// entered the scene from being reinterpreted as a dialogue advance.
pub fn consume_stale_input(
    input_cooldown: &mut bool,
    continue_enabled: &mut bool,
    suppress_held: bool,
)
    requires
        *old(input_cooldown),
    ensures
        suppress_held ==> *final(input_cooldown) && !*final(continue_enabled),
        !suppress_held ==> !*final(input_cooldown) && *final(continue_enabled),
{
    if suppress_held {
        *continue_enabled = false;
    } else {
        *continue_enabled = true;
        *input_cooldown = false;
    }
}

/// A simulation whose scroll speed sits clamped at 0 is never still
/// launched: reaching 0 leaves the launched state in the same frame,
/// and the deceleration tick runs only while launched, so the
/// run-end transition cannot fire again within the same run.
pub proof fn lemma_run_end_fires_once(sim: LugeSim)
    requires
        sim.wf(),
        sim.scroll_speed.0 == 0,
    ensures
        sim.state == LugeState::Loadout,
{
}

} // verus!
