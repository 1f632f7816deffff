//! Coin spawning and the coin economy: a repeating spawn timer whose
//! interval shortens with luck, luck-weighted coin tiers, per-frame
//! scrolling of lane occupants, proximity collection, and off-screen
//! despawning.

use vstd::prelude::*;
use rand::RngExt;
use crate::Resolution;
use super::{LaneLocation, MAX_FRAME_MS, MAX_STAT};

verus! {

/// A transient lane occupant: a coin of some value scrolling down a
/// lane. `y_milli` is its vertical position in milli-pixels.
#[derive(Clone, Copy, PartialEq, Eq, Structural, Debug)]
pub struct Occupant {
    pub lane: LaneLocation,
    pub value: u32,
    pub y_milli: i64,
}

/// The player's running coin total; reset on scene entry, not on each
/// run within a scene.
#[derive(Clone, Copy, PartialEq, Eq, Structural, Debug)]
pub struct PlayerCoins(pub u32);

impl Default for PlayerCoins {
    fn default() -> (r: Self)
        ensures
            r == PlayerCoins(0u32),
    {
        PlayerCoins(0)
    }
}

/// The weight of the common 1-coin tier, fixed whatever the luck stat.
pub const COMMON_TIER_WEIGHT: u32 = 100;

/// The weight of the 5-coin tier: `10 + luck * 5`.
pub open spec fn spec_weight_5(luck: int) -> int {
    10 + luck * 5
}

/// The weight of the 25-coin tier: `2 + luck * 2`.
pub open spec fn spec_weight_25(luck: int) -> int {
    2 + luck * 2
}

/// The total tier weight: `100 + (10 + 5 luck) + (2 + 2 luck)`.
pub open spec fn spec_weight_total(luck: int) -> int {
    COMMON_TIER_WEIGHT + spec_weight_5(luck) + spec_weight_25(luck)
}

/// The total tier weight for a luck stat.
pub fn weight_total(luck: i32) -> (t: u32)
    requires
        0 <= luck <= MAX_STAT,
    ensures
        t == spec_weight_total(luck as int),
        t >= 112,
{
    COMMON_TIER_WEIGHT + (10 + luck as u32 * 5) + (2 + luck as u32 * 2)
}

/// The spawn interval in milliseconds: `2.5 s / (1 + luck * 0.1)`,
/// floored at 0.8 s. Since luck is non-negative the interval never
/// exceeds 2.5 s.
pub open spec fn spec_spawn_interval_ms(luck: int) -> int {
    if 25_000int / (10 + luck) >= 800 {
        25_000int / (10 + luck)
    } else {
        800
    }
}

/// The spawn interval for a luck stat, in milliseconds.
pub fn spawn_interval_ms(luck: i32) -> (r: u32)
    requires
        0 <= luck <= MAX_STAT,
    ensures
        r == spec_spawn_interval_ms(luck as int),
        800 <= r <= 2500,
{
    proof {
        assert(25_000int / (10 + luck as int) <= 2500) by (nonlinear_arith)
            requires
                0 <= luck,
        {};
    }
    let raw: u32 = 25_000 / (10 + luck as u32);
    if raw >= 800 {
        raw
    } else {
        800
    }
}

/// The repeating coin-spawn timer; lives only while a run is active.
/// `elapsed_ms` counts up to the interval and keeps the remainder when
/// it fires.
#[derive(Clone, Copy, PartialEq, Eq, Structural, Debug)]
pub struct SpawnTimer {
    pub interval_ms: u32,
    pub elapsed_ms: u32,
}

impl SpawnTimer {
    /// The timer is well formed when its interval is in the clamped
    /// range and its accumulator has not yet reached the interval.
    pub open spec fn wf(self) -> bool {
        800 <= self.interval_ms <= 2500 && self.elapsed_ms < self.interval_ms
    }

    /// A fresh timer for a luck stat.
    pub fn init(luck: i32) -> (r: Self)
        requires
            0 <= luck <= MAX_STAT,
        ensures
            r.wf(),
            r.interval_ms == spec_spawn_interval_ms(luck as int),
            r.elapsed_ms == 0,
    {
        SpawnTimer { interval_ms: spawn_interval_ms(luck), elapsed_ms: 0 }
    }

    /// Advance the timer by one frame delta. It fires when the
    /// accumulated time reaches the interval, and then keeps the
    /// remainder modulo the interval.
    pub fn tick(&mut self, dt_ms: u64) -> (fired: bool)
        requires
            old(self).wf(),
            dt_ms <= MAX_FRAME_MS,
        ensures
            final(self).wf(),
            final(self).interval_ms == old(self).interval_ms,
            fired <==> old(self).elapsed_ms + dt_ms >= old(self).interval_ms,
            final(self).elapsed_ms == (old(self).elapsed_ms + dt_ms) % (
            old(self).interval_ms as int),
    {
        let total: u64 = self.elapsed_ms as u64 + dt_ms;
        let fired: bool = total >= self.interval_ms as u64;
        self.elapsed_ms = (total % self.interval_ms as u64) as u32;
        fired
    }
}

/// Relies on `rand`: `rng().random_range(0..n)` returns a value of the
/// given half-open range; it panics only on an empty range, which the
/// precondition rules out. Nothing further is assumed of which value
/// comes back.
#[verifier::external_body]
fn random_below(n: u32) -> (r: u32)
    requires
        n > 0,
    ensures
        r < n,
{
    rand::rng().random_range(0..n)
}

/// The lane a uniform roll in `0..3` selects.
pub open spec fn spec_lane_from_roll(roll: int) -> LaneLocation {
    if roll == 0 {
        LaneLocation::Left
    } else if roll == 1 {
        LaneLocation::Center
    } else {
        LaneLocation::Right
    }
}

/// Pick a lane from a uniform roll in `0..3`.
pub fn lane_from_roll(roll: u32) -> (lane: LaneLocation)
    requires
        roll < 3,
    ensures
        lane == spec_lane_from_roll(roll as int),
{
    match roll {
        0 => LaneLocation::Left,
        1 => LaneLocation::Center,
        _ => LaneLocation::Right,
    }
}

/// The coin value a weighted roll selects: rolls below 100 give the
/// 1-coin tier, the next `10 + luck * 5` rolls the 5-coin tier, and
/// the last `2 + luck * 2` rolls the 25-coin tier.
pub open spec fn spec_value_from_roll(roll: int, luck: int) -> u32 {
    if roll < COMMON_TIER_WEIGHT {
        1u32
    } else if roll < COMMON_TIER_WEIGHT + spec_weight_5(luck) {
        5u32
    } else {
        25u32
    }
}

/// The sprite-atlas index of a coin tier: 0, 1 and 2 for values 1, 5
/// and 25.
pub open spec fn spec_atlas_index_for_value(value: u32) -> u32 {
    if value == 1 {
        0u32
    } else if value == 5 {
        1u32
    } else {
        2u32
    }
}

/// Pick a coin tier from a weighted roll in `0..spec_weight_total(luck)`.
/// Returns the sprite-atlas index and the coin value.
pub fn tier_from_roll(roll: u32, luck: i32) -> (r: (u32, u32))
    requires
        0 <= luck <= MAX_STAT,
        roll < spec_weight_total(luck as int),
    ensures
        r.1 == spec_value_from_roll(roll as int, luck as int),
        r.0 == spec_atlas_index_for_value(r.1),
        r.1 == 1 || r.1 == 5 || r.1 == 25,
{
    if roll < COMMON_TIER_WEIGHT {
        (0, 1)
    } else if roll < COMMON_TIER_WEIGHT + (10 + luck as u32 * 5) {
        (1, 5)
    } else {
        (2, 25)
    }
}

/// Where a new coin appears, in milli-pixels: 50 pixels above the top
/// edge of the screen.
pub open spec fn spec_spawn_y_milli(resolution: Resolution) -> int {
    (resolution.spec_vec2().1 / 2 + 50) * 1000
}

/// Where a new coin appears, in milli-pixels.
pub fn spawn_y_milli(resolution: &Resolution) -> (y: i64)
    ensures
        y == spec_spawn_y_milli(*resolution),
{
    (resolution.vec2().1 / 2 + 50) as i64 * 1000
}

/// The cutoff below which occupants are despawned, in milli-pixels:
/// 100 pixels below the bottom edge of the screen.
pub open spec fn spec_despawn_cutoff_milli(resolution: Resolution) -> int {
    -((resolution.spec_vec2().1 / 2 + 100) * 1000)
}

/// The cutoff below which occupants are despawned, in milli-pixels.
pub fn despawn_cutoff_milli(resolution: &Resolution) -> (y: i64)
    ensures
        y == spec_despawn_cutoff_milli(*resolution),
{
    -((resolution.vec2().1 / 2 + 100) as i64 * 1000)
}

/// The coin a pair of rolls spawns: the lane from the uniform lane
/// roll, the value from the weighted tier roll, at the spawn height.
pub open spec fn spec_coin_for(
    lane_roll: int,
    tier_roll: int,
    luck: int,
    resolution: Resolution,
) -> Occupant {
    Occupant {
        lane: spec_lane_from_roll(lane_roll),
        value: spec_value_from_roll(tier_roll, luck),
        y_milli: spec_spawn_y_milli(resolution) as i64,
    }
}

/// Spawn the guaranteed first coin of a run: value 1, center lane, at
/// the spawn height.
pub fn spawn_initial_coin(occupants: &mut Vec<Occupant>, resolution: &Resolution)
    ensures
        final(occupants)@ == old(occupants)@.push(
            Occupant {
                lane: LaneLocation::Center,
                value: 1u32,
                y_milli: spec_spawn_y_milli(*resolution) as i64,
            },
        ),
{
    let y = spawn_y_milli(resolution);
    occupants.push(Occupant { lane: LaneLocation::Center, value: 1, y_milli: y });
}

/// Tick the spawn timer and, when it fires, spawn one coin in a
/// uniformly random lane with a luck-weighted tier. A missing timer
/// (the run is not active) is a silent no-op. Which lane and tier come
/// back is random; whatever the rolls, the spawned coin is one that
/// `spec_coin_for` describes for in-range rolls.
pub fn spawn_coins(
    occupants: &mut Vec<Occupant>,
    spawn_timer: &mut Option<SpawnTimer>,
    luck: i32,
    dt_ms: u64,
    resolution: &Resolution,
) -> (spawned: bool)
    requires
        0 <= luck <= MAX_STAT,
        dt_ms <= MAX_FRAME_MS,
        old(spawn_timer).is_some() ==> old(spawn_timer).unwrap().wf(),
    ensures
        old(spawn_timer).is_none() ==> {
            &&& !spawned
            &&& final(spawn_timer).is_none()
            &&& final(occupants)@ == old(occupants)@
        },
        old(spawn_timer).is_some() ==> {
            &&& final(spawn_timer).is_some()
            &&& final(spawn_timer).unwrap().wf()
            &&& final(spawn_timer).unwrap().interval_ms
                == old(spawn_timer).unwrap().interval_ms
            &&& final(spawn_timer).unwrap().elapsed_ms == (old(spawn_timer).unwrap().elapsed_ms
                + dt_ms) % (old(spawn_timer).unwrap().interval_ms as int)
            &&& (spawned <==> old(spawn_timer).unwrap().elapsed_ms + dt_ms
                >= old(spawn_timer).unwrap().interval_ms)
        },
        !spawned ==> final(occupants)@ == old(occupants)@,
        spawned ==> exists|lane_roll: int, tier_roll: int|
            0 <= lane_roll < 3 && 0 <= tier_roll < spec_weight_total(luck as int)
                && final(occupants)@ == old(occupants)@.push(
                spec_coin_for(lane_roll, tier_roll, luck as int, *resolution),
            ),
{
    let timer = match spawn_timer {
        Option::Some(t) => t,
        Option::None => {
            return false;
        },
    };
    let fired = timer.tick(dt_ms);
    if !fired {
        return false;
    }
    let lane_roll = random_below(3);
    let tier_roll = random_below(weight_total(luck));
    let lane = lane_from_roll(lane_roll);
    let tier = tier_from_roll(tier_roll, luck);
    let y = spawn_y_milli(resolution);
    occupants.push(Occupant { lane, value: tier.1, y_milli: y });
    proof {
        assert(occupants@ == old(occupants)@.push(
            spec_coin_for(lane_roll as int, tier_roll as int, luck as int, *resolution),
        ));
    }
    true
}

/// The occupant sequence after one frame of scrolling: every occupant
/// moved down by the scroll delta.
pub open spec fn spec_scrolled(s: Seq<Occupant>, delta_milli: int) -> Seq<Occupant> {
    Seq::new(
        s.len(),
        |i: int|
            Occupant {
                lane: s[i].lane,
                value: s[i].value,
                y_milli: (s[i].y_milli - delta_milli) as i64,
            },
    )
}

/// Move every lane occupant down by the scroll delta.
pub fn scroll_occupants(occupants: &mut Vec<Occupant>, delta_milli: u64)
    requires
        delta_milli <= 10_000_000_000_000_000,
        forall|i: int|
            0 <= i < old(occupants)@.len() ==> old(occupants)@[i].y_milli - delta_milli
                >= i64::MIN,
    ensures
        final(occupants)@ == spec_scrolled(old(occupants)@, delta_milli as int),
{
    let n = occupants.len();
    let mut out: Vec<Occupant> = Vec::new();
    let mut i: usize = 0;
    while i < n
        invariant
            n == occupants@.len(),
            occupants@ == old(occupants)@,
            0 <= i <= n,
            delta_milli <= 10_000_000_000_000_000,
            forall|j: int| 0 <= j < n ==> occupants@[j].y_milli - delta_milli >= i64::MIN,
            out@ == spec_scrolled(occupants@, delta_milli as int).take(i as int),
        decreases n - i,
    {
        let o = occupants[i];
        out.push(Occupant { lane: o.lane, value: o.value, y_milli: o.y_milli - delta_milli as i64 });
        proof {
            assert(out@ =~= spec_scrolled(occupants@, delta_milli as int).take(i as int + 1));
        }
        i = i + 1;
    }
    proof {
        assert(spec_scrolled(occupants@, delta_milli as int).take(n as int) =~= spec_scrolled(
            occupants@,
            delta_milli as int,
        ));
    }
    *occupants = out;
}

/// The widest vertical position, in milli-pixels, at which the
/// collection distance is computed without overflow.
pub const Y_BOUND_MILLI: i64 = 2_305_843_009_213_693_952;

/// The collection threshold in milli-pixels: 40 scaled pixels of
/// vertical distance.
pub open spec fn spec_collect_threshold_milli(resolution: Resolution) -> int {
    40_000 * resolution.spec_scale()
}

/// The collection threshold in milli-pixels.
pub fn collect_threshold_milli(resolution: &Resolution) -> (t: i64)
    ensures
        t == spec_collect_threshold_milli(*resolution),
{
    40_000 * resolution.scale() as i64
}

/// Whether a coin is collected: it sits in the player's lane and its
/// vertical distance to the player is strictly within the threshold.
pub open spec fn spec_is_collected(
    o: Occupant,
    lane: LaneLocation,
    player_y_milli: int,
    threshold_milli: int,
) -> bool {
    o.lane == lane && (if o.y_milli >= player_y_milli {
        o.y_milli - player_y_milli
    } else {
        player_y_milli - o.y_milli
    }) < threshold_milli
}

/// The occupants left after one collection pass: those not collected,
/// in their original order.
pub open spec fn spec_survivors(
    s: Seq<Occupant>,
    lane: LaneLocation,
    player_y_milli: int,
    threshold_milli: int,
) -> Seq<Occupant>
    decreases s.len(),
{
    if s.len() == 0 {
        Seq::empty()
    } else {
        let rest = spec_survivors(s.drop_last(), lane, player_y_milli, threshold_milli);
        if spec_is_collected(s.last(), lane, player_y_milli, threshold_milli) {
            rest
        } else {
            rest.push(s.last())
        }
    }
}

/// The total value collected in one collection pass.
pub open spec fn spec_collect_gain(
    s: Seq<Occupant>,
    lane: LaneLocation,
    player_y_milli: int,
    threshold_milli: int,
) -> int
    decreases s.len(),
{
    if s.len() == 0 {
        0
    } else {
        spec_collect_gain(s.drop_last(), lane, player_y_milli, threshold_milli) + (
        if spec_is_collected(s.last(), lane, player_y_milli, threshold_milli) {
            s.last().value as int
        } else {
            0int
        })
    }
}

/// One step of the collection recursion, phrased over a prefix: the
/// pass over the first `i + 1` occupants extends the pass over the
/// first `i` by the `i`-th occupant alone.
proof fn lemma_collect_take_unfold(
    s: Seq<Occupant>,
    lane: LaneLocation,
    player_y_milli: int,
    threshold_milli: int,
    i: int,
)
    requires
        0 <= i < s.len(),
    ensures
        spec_collect_gain(s.take(i + 1), lane, player_y_milli, threshold_milli)
            == spec_collect_gain(s.take(i), lane, player_y_milli, threshold_milli) + (
        if spec_is_collected(s[i], lane, player_y_milli, threshold_milli) {
            s[i].value as int
        } else {
            0int
        }),
        spec_survivors(s.take(i + 1), lane, player_y_milli, threshold_milli) == (
        if spec_is_collected(s[i], lane, player_y_milli, threshold_milli) {
            spec_survivors(s.take(i), lane, player_y_milli, threshold_milli)
        } else {
            spec_survivors(s.take(i), lane, player_y_milli, threshold_milli).push(s[i])
        }),
{
    assert(s.take(i + 1).drop_last() =~= s.take(i));
    assert(s.take(i + 1).last() == s[i]);
}

/// The value collected in one pass is never negative.
proof fn lemma_collect_gain_nonneg(
    s: Seq<Occupant>,
    lane: LaneLocation,
    player_y_milli: int,
    threshold_milli: int,
)
    ensures
        spec_collect_gain(s, lane, player_y_milli, threshold_milli) >= 0,
    decreases s.len(),
{
    if s.len() > 0 {
        lemma_collect_gain_nonneg(s.drop_last(), lane, player_y_milli, threshold_milli);
    }
}

/// The value collected from any prefix is between 0 and the value
/// collected from the whole sequence.
proof fn lemma_collect_gain_prefix(
    s: Seq<Occupant>,
    lane: LaneLocation,
    player_y_milli: int,
    threshold_milli: int,
    i: int,
)
    requires
        0 <= i <= s.len(),
    ensures
        0 <= spec_collect_gain(s.take(i), lane, player_y_milli, threshold_milli)
            <= spec_collect_gain(s, lane, player_y_milli, threshold_milli),
    decreases s.len() - i,
{
    lemma_collect_gain_nonneg(s.take(i), lane, player_y_milli, threshold_milli);
    if i == s.len() {
        assert(s.take(i) =~= s);
    } else {
        lemma_collect_take_unfold(s, lane, player_y_milli, threshold_milli, i);
        lemma_collect_gain_prefix(s, lane, player_y_milli, threshold_milli, i + 1);
    }
}

/// Collect every coin in the player's lane within the vertical
/// threshold: each such coin is removed and its value added to the
/// player's total exactly once; the rest keep their order.
pub fn collect_coins(
    occupants: &mut Vec<Occupant>,
    player_coins: &mut PlayerCoins,
    player_lane: LaneLocation,
    player_y_milli: i64,
    resolution: &Resolution,
)
    requires
        -Y_BOUND_MILLI <= player_y_milli <= Y_BOUND_MILLI,
        forall|i: int|
            0 <= i < old(occupants)@.len() ==> -Y_BOUND_MILLI <= (#[trigger] old(
                occupants,
            )@[i]).y_milli <= Y_BOUND_MILLI,
        old(player_coins).0 + spec_collect_gain(
            old(occupants)@,
            player_lane,
            player_y_milli as int,
            spec_collect_threshold_milli(*resolution),
        ) <= u32::MAX,
    ensures
        final(occupants)@ == spec_survivors(
            old(occupants)@,
            player_lane,
            player_y_milli as int,
            spec_collect_threshold_milli(*resolution),
        ),
        final(player_coins).0 == old(player_coins).0 + spec_collect_gain(
            old(occupants)@,
            player_lane,
            player_y_milli as int,
            spec_collect_threshold_milli(*resolution),
        ),
{
    let ghost thr: int = spec_collect_threshold_milli(*resolution);
    let threshold = collect_threshold_milli(resolution);
    let n = occupants.len();
    let mut out: Vec<Occupant> = Vec::new();
    let mut gained: u32 = 0;
    let mut i: usize = 0;
    proof {
        assert(occupants@.take(0) =~= Seq::<Occupant>::empty());
    }
    while i < n
        invariant
            n == occupants@.len(),
            occupants@ == old(occupants)@,
            0 <= i <= n,
            threshold == thr,
            thr == spec_collect_threshold_milli(*resolution),
            -Y_BOUND_MILLI <= player_y_milli <= Y_BOUND_MILLI,
            forall|j: int|
                0 <= j < occupants@.len() ==> -Y_BOUND_MILLI <= (
                #[trigger] occupants@[j]).y_milli <= Y_BOUND_MILLI,
            old(player_coins).0 + spec_collect_gain(
                occupants@,
                player_lane,
                player_y_milli as int,
                thr,
            ) <= u32::MAX,
            player_coins.0 == old(player_coins).0,
            out@ == spec_survivors(occupants@.take(i as int), player_lane, player_y_milli as int, thr),
            gained == spec_collect_gain(
                occupants@.take(i as int),
                player_lane,
                player_y_milli as int,
                thr,
            ),
        decreases n - i,
    {
        let o = occupants[i];
        proof {
            assert(o == old(occupants)@[i as int]);
            lemma_collect_take_unfold(occupants@, player_lane, player_y_milli as int, thr, i as int);
            lemma_collect_gain_prefix(
                occupants@,
                player_lane,
                player_y_milli as int,
                thr,
                i as int + 1,
            );
        }
        let dist = if o.y_milli >= player_y_milli {
            o.y_milli - player_y_milli
        } else {
            player_y_milli - o.y_milli
        };
        if o.lane == player_lane && dist < threshold {
            gained = gained + o.value;
        } else {
            out.push(o);
        }
        i = i + 1;
    }
    proof {
        assert(occupants@.take(n as int) =~= occupants@);
    }
    player_coins.0 = player_coins.0 + gained;
    *occupants = out;
}

/// The occupants still on screen: those at or above the despawn
/// cutoff, in their original order.
pub open spec fn spec_onscreen(s: Seq<Occupant>, cutoff_milli: int) -> Seq<Occupant>
    decreases s.len(),
{
    if s.len() == 0 {
        Seq::empty()
    } else {
        let rest = spec_onscreen(s.drop_last(), cutoff_milli);
        if s.last().y_milli < cutoff_milli {
            rest
        } else {
            rest.push(s.last())
        }
    }
}

/// Despawn every occupant that has scrolled fully past the bottom
/// cutoff, 100 pixels below the screen's bottom edge.
pub fn despawn_offscreen(occupants: &mut Vec<Occupant>, resolution: &Resolution)
    ensures
        final(occupants)@ == spec_onscreen(
            old(occupants)@,
            spec_despawn_cutoff_milli(*resolution),
        ),
{
    let ghost cut: int = spec_despawn_cutoff_milli(*resolution);
    let cutoff = despawn_cutoff_milli(resolution);
    let n = occupants.len();
    let mut out: Vec<Occupant> = Vec::new();
    let mut i: usize = 0;
    proof {
        assert(occupants@.take(0) =~= Seq::<Occupant>::empty());
    }
    while i < n
        invariant
            n == occupants@.len(),
            occupants@ == old(occupants)@,
            0 <= i <= n,
            cutoff == cut,
            cut == spec_despawn_cutoff_milli(*resolution),
            out@ == spec_onscreen(occupants@.take(i as int), cut),
        decreases n - i,
    {
        let o = occupants[i];
        proof {
            assert(occupants@.take(i as int + 1).drop_last() =~= occupants@.take(i as int));
            assert(occupants@.take(i as int + 1).last() == occupants@[i as int]);
        }
        if o.y_milli >= cutoff {
            out.push(o);
        }
        i = i + 1;
    }
    proof {
        assert(occupants@.take(n as int) =~= occupants@);
    }
    *occupants = out;
}

/// Tear down the spawner on run end: every lane occupant is despawned
/// and the spawn timer removed.
pub fn cleanup_spawner(occupants: &mut Vec<Occupant>, spawn_timer: &mut Option<SpawnTimer>)
    ensures
        final(occupants)@ == Seq::<Occupant>::empty(),
        final(spawn_timer).is_none(),
{
    occupants.clear();
    *spawn_timer = Option::None;
}

/// Reset the player's coin total on scene entry.
pub fn reset_player_coins(player_coins: &mut PlayerCoins)
    ensures
        final(player_coins).0 == 0,
{
    player_coins.0 = 0;
}

/// Occupants with bounded positions and values: every occupant's
/// vertical position lies in `[lo, hi]` and its value is at most 25.
pub open spec fn spec_occupants_bounded(s: Seq<Occupant>, lo: int, hi: int) -> bool {
    forall|i: int|
        0 <= i < s.len() ==> lo <= (#[trigger] s[i]).y_milli <= hi && s[i].value <= 25
}

/// A collection pass keeps the survivors within the source's bounds.
pub proof fn lemma_survivors_bounded(
    s: Seq<Occupant>,
    lane: LaneLocation,
    player_y_milli: int,
    threshold_milli: int,
    lo: int,
    hi: int,
)
    requires
        spec_occupants_bounded(s, lo, hi),
    ensures
        spec_occupants_bounded(
            spec_survivors(s, lane, player_y_milli, threshold_milli),
            lo,
            hi,
        ),
    decreases s.len(),
{
    if s.len() > 0 {
        assert(spec_occupants_bounded(s.drop_last(), lo, hi));
        lemma_survivors_bounded(s.drop_last(), lane, player_y_milli, threshold_milli, lo, hi);
        assert(s.last() == s[s.len() - 1]);
    }
}

/// A despawn pass keeps the remaining occupants within the source's
/// bounds, and raises the floor to the cutoff.
pub proof fn lemma_onscreen_bounded(s: Seq<Occupant>, cutoff_milli: int, lo: int, hi: int)
    requires
        spec_occupants_bounded(s, lo, hi),
    ensures
        spec_occupants_bounded(
            spec_onscreen(s, cutoff_milli),
            if lo >= cutoff_milli {
                lo
            } else {
                cutoff_milli
            },
            hi,
        ),
    decreases s.len(),
{
    if s.len() > 0 {
        assert(spec_occupants_bounded(s.drop_last(), lo, hi));
        lemma_onscreen_bounded(s.drop_last(), cutoff_milli, lo, hi);
        assert(s.last() == s[s.len() - 1]);
    }
}

/// With every value at most 25, one pass collects at most 25 per
/// occupant.
pub proof fn lemma_gain_bounded(
    s: Seq<Occupant>,
    lane: LaneLocation,
    player_y_milli: int,
    threshold_milli: int,
)
    requires
        forall|i: int| 0 <= i < s.len() ==> (#[trigger] s[i]).value <= 25,
    ensures
        0 <= spec_collect_gain(s, lane, player_y_milli, threshold_milli) <= 25 * s.len(),
    decreases s.len(),
{
    if s.len() > 0 {
        assert(forall|i: int|
            0 <= i < s.drop_last().len() ==> (#[trigger] s.drop_last()[i]).value <= 25);
        lemma_gain_bounded(s.drop_last(), lane, player_y_milli, threshold_milli);
        assert(s.last() == s[s.len() - 1]);
    }
}

/// A coin is collected at most once: after one collection pass no
/// remaining occupant is collectible, so a second pass over the
/// survivors removes nothing and adds nothing to the coin total, even
/// if the check runs again across later frames before anything moves.
pub proof fn lemma_collect_exactly_once(
    s: Seq<Occupant>,
    lane: LaneLocation,
    player_y_milli: int,
    threshold_milli: int,
)
    ensures
        forall|j: int|
            0 <= j < spec_survivors(s, lane, player_y_milli, threshold_milli).len()
                ==> !spec_is_collected(
                #[trigger] spec_survivors(s, lane, player_y_milli, threshold_milli)[j],
                lane,
                player_y_milli,
                threshold_milli,
            ),
        spec_collect_gain(
            spec_survivors(s, lane, player_y_milli, threshold_milli),
            lane,
            player_y_milli,
            threshold_milli,
        ) == 0,
        spec_survivors(
            spec_survivors(s, lane, player_y_milli, threshold_milli),
            lane,
            player_y_milli,
            threshold_milli,
        ) == spec_survivors(s, lane, player_y_milli, threshold_milli),
    decreases s.len(),
{
    if s.len() > 0 {
        lemma_collect_exactly_once(s.drop_last(), lane, player_y_milli, threshold_milli);
        let rest = spec_survivors(s.drop_last(), lane, player_y_milli, threshold_milli);
        if !spec_is_collected(s.last(), lane, player_y_milli, threshold_milli) {
            let t = rest.push(s.last());
            assert(t.drop_last() =~= rest);
            assert(t.last() == s.last());
            assert(spec_survivors(t, lane, player_y_milli, threshold_milli) =~= t);
        }
    }
}

/// Raising the luck stat strictly raises the relative share of the
/// 5-coin and 25-coin tiers while the 1-coin tier's absolute weight
/// stays fixed at 100. The share comparisons are cross-multiplied:
/// `w(l2) / total(l2) > w(l1) / total(l1)` is stated as
/// `w(l2) * total(l1) > w(l1) * total(l2)`.
pub proof fn lemma_luck_skews_tiers(l1: int, l2: int)
    requires
        0 <= l1 < l2,
    ensures
        spec_weight_5(l2) > spec_weight_5(l1),
        spec_weight_25(l2) > spec_weight_25(l1),
        spec_weight_5(l2) * spec_weight_total(l1) > spec_weight_5(l1) * spec_weight_total(l2),
        spec_weight_25(l2) * spec_weight_total(l1) > spec_weight_25(l1) * spec_weight_total(l2),
        forall|roll: int| 0 <= roll ==> (spec_value_from_roll(roll, l1) == 1u32 <==> roll < 100),
        forall|roll: int| 0 <= roll ==> (spec_value_from_roll(roll, l2) == 1u32 <==> roll < 100),
{
    assert((10 + 5 * l2) * (112 + 7 * l1) - (10 + 5 * l1) * (112 + 7 * l2) == 490 * (l2 - l1))
        by (nonlinear_arith);
    assert((2 + 2 * l2) * (112 + 7 * l1) - (2 + 2 * l1) * (112 + 7 * l2) == 210 * (l2 - l1))
        by (nonlinear_arith);
}

} // verus!
