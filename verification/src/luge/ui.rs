//! Display output for the run: decimal text rendering for the run
//! timer, the coin count and the stat readout, and the loadout
//! screen's launch-button logic.

use vstd::prelude::*;
use vstd::string::StringExecFns;
use crate::player::PlayerStats;
use crate::ui::{ButtonColors, Interaction, Rgb};
use super::{LugeState, RunTimer};
use super::dialogue::DialogueState;
use super::spawner::PlayerCoins;

verus! {

/// The rendering of one decimal digit.
pub open spec fn spec_digit_seq(d: int) -> Seq<char> {
    if d == 0 {
        "0"@
    } else if d == 1 {
        "1"@
    } else if d == 2 {
        "2"@
    } else if d == 3 {
        "3"@
    } else if d == 4 {
        "4"@
    } else if d == 5 {
        "5"@
    } else if d == 6 {
        "6"@
    } else if d == 7 {
        "7"@
    } else if d == 8 {
        "8"@
    } else {
        "9"@
    }
}

/// The decimal rendering of a natural number, most significant digit
/// first, with no leading zeros (a lone zero for 0).
pub open spec fn spec_dec_digits(n: nat) -> Seq<char>
    decreases n,
{
    if n < 10 {
        spec_digit_seq(n as int)
    } else {
        spec_dec_digits(n / 10) + spec_digit_seq((n % 10) as int)
    }
}

/// The decimal rendering of a natural number, zero-padded on the left
/// to at least two digits.
pub open spec fn spec_pad2(n: nat) -> Seq<char> {
    if n < 10 {
        "0"@ + spec_dec_digits(n)
    } else {
        spec_dec_digits(n)
    }
}

/// One decimal digit as text.
fn digit_str(d: u64) -> (s: &'static str)
    requires
        d < 10,
    ensures
        s@ == spec_digit_seq(d as int),
{
    match d {
        0 => "0",
        1 => "1",
        2 => "2",
        3 => "3",
        4 => "4",
        5 => "5",
        6 => "6",
        7 => "7",
        8 => "8",
        _ => "9",
    }
}

/// Render a number in decimal.
pub fn u64_dec_string(n: u64) -> (s: String)
    ensures
        s@ == spec_dec_digits(n as nat),
    decreases n,
{
    if n < 10 {
        digit_str(n).to_owned()
    } else {
        let mut s = u64_dec_string(n / 10);
        s.append(digit_str(n % 10));
        s
    }
}

/// Render a number in decimal, zero-padded to at least two digits.
pub fn pad2_string(n: u64) -> (s: String)
    ensures
        s@ == spec_pad2(n as nat),
{
    if n < 10 {
        let mut s = "0".to_owned();
        s.append(digit_str(n));
        s
    } else {
        u64_dec_string(n)
    }
}

/// The decimal rendering of a signed number: a minus sign before the
/// digits of its magnitude.
pub open spec fn spec_i64_dec(n: int) -> Seq<char> {
    if n < 0 {
        "-"@ + spec_dec_digits((-n) as nat)
    } else {
        spec_dec_digits(n as nat)
    }
}

/// Render a signed number in decimal.
pub fn i64_dec_string(n: i64) -> (s: String)
    requires
        n > i64::MIN,
    ensures
        s@ == spec_i64_dec(n as int),
{
    if n < 0 {
        let mut s = "-".to_owned();
        let m = u64_dec_string((-n) as u64);
        s.append(m.as_str());
        s
    } else {
        u64_dec_string(n as u64)
    }
}

/// The run-timer display: minutes, zero-padded to two digits, a
/// colon, seconds zero-padded to two digits, a dot, and centiseconds
/// (truncated) zero-padded to two digits.
pub open spec fn spec_run_timer_text(elapsed_ms: nat) -> Seq<char> {
    spec_pad2(elapsed_ms / 60_000) + ":"@ + spec_pad2((elapsed_ms % 60_000) / 1000) + "."@
        + spec_pad2((elapsed_ms % 1000) / 10)
}

/// Format the run timer for display as `MM:SS.cc`.
pub fn update_run_timer_text(timer: &RunTimer) -> (s: String)
    ensures
        s@ == spec_run_timer_text(timer.elapsed_ms as nat),
{
    let minutes: u64 = timer.elapsed_ms / 60_000;
    let seconds: u64 = (timer.elapsed_ms % 60_000) / 1000;
    let centis: u64 = (timer.elapsed_ms % 1000) / 10;
    let mut s = pad2_string(minutes);
    s.append(":");
    let sec_text = pad2_string(seconds);
    s.append(sec_text.as_str());
    s.append(".");
    let centi_text = pad2_string(centis);
    s.append(centi_text.as_str());
    s
}

/// The coin-count display.
pub open spec fn spec_coin_count_text(count: nat) -> Seq<char> {
    "Coins: "@ + spec_dec_digits(count)
}

/// Format the player's coin total for display.
pub fn update_coin_count_text(player_coins: &PlayerCoins) -> (s: String)
    ensures
        s@ == spec_coin_count_text(player_coins.0 as nat),
{
    let mut s = "Coins: ".to_owned();
    let count = u64_dec_string(player_coins.0 as u64);
    s.append(count.as_str());
    s
}

/// The four stat readout lines shown beside the run.
pub fn stats_readout(stats: &PlayerStats) -> (lines: Vec<String>)
    ensures
        lines@.len() == 4,
        lines@[0]@ == "ATK: "@ + spec_i64_dec(stats.attack as int),
        lines@[1]@ == "DEF: "@ + spec_i64_dec(stats.defence as int),
        lines@[2]@ == "SPD: "@ + spec_i64_dec(stats.speed as int),
        lines@[3]@ == "LCK: "@ + spec_i64_dec(stats.luck as int),
{
    let mut lines: Vec<String> = Vec::new();
    let mut atk = "ATK: ".to_owned();
    let t = i64_dec_string(stats.attack as i64);
    atk.append(t.as_str());
    lines.push(atk);
    let mut def = "DEF: ".to_owned();
    let t = i64_dec_string(stats.defence as i64);
    def.append(t.as_str());
    lines.push(def);
    let mut spd = "SPD: ".to_owned();
    let t = i64_dec_string(stats.speed as i64);
    spd.append(t.as_str());
    lines.push(spd);
    let mut lck = "LCK: ".to_owned();
    let t = i64_dec_string(stats.luck as i64);
    lck.append(t.as_str());
    lines.push(lck);
    lines
}

/// The launch button shows once the dialogue is done waiting for
/// input, and the continue hint shows while it still waits. Returns
/// `(button_visible, hint_visible)`.
pub fn toggle_launch_button(dialogue_state: &DialogueState) -> (vis: (bool, bool))
    ensures
        vis.0 == !dialogue_state.waiting_for_input,
        vis.1 == dialogue_state.waiting_for_input,
{
    if dialogue_state.waiting_for_input {
        (false, true)
    } else {
        (true, false)
    }
}

/// What one interaction with the launch button causes.
#[derive(Clone, Copy, PartialEq, Eq, Structural, Debug)]
pub enum LaunchButtonEffect {
    RequestState(LugeState),
    SetColor(Rgb),
    NoEffect,
}

/// A press of the launch button requests the launched state; hovering
/// and leaving recolor the button.
pub fn launch_button_handler(interaction: Interaction, colors: &ButtonColors) -> (e:
    LaunchButtonEffect)
    ensures
        interaction == Interaction::Pressed ==> e == LaunchButtonEffect::RequestState(
            LugeState::Launched,
        ),
        interaction == Interaction::Hovered ==> e == LaunchButtonEffect::SetColor(colors.hovered),
        interaction == Interaction::Idle ==> e == LaunchButtonEffect::SetColor(colors.normal),
{
    match interaction {
        Interaction::Pressed => LaunchButtonEffect::RequestState(LugeState::Launched),
        Interaction::Hovered => LaunchButtonEffect::SetColor(colors.hovered),
        Interaction::Idle => LaunchButtonEffect::SetColor(colors.normal),
    }
}

} // verus!
