//! Core simulation library for a lane-based luge arcade game.
//!
//! The library models the run simulation: lane selection and geometry,
//! scroll-speed physics with braking deceleration, timed coin spawning
//! with luck-weighted randomization, coin collection, a linear dialogue
//! sequencer gated by a stale-input guard, and the run timer with its
//! display formatting.
//!
//! All continuous quantities are carried as fixed-point integers:
//! screen positions in thousandths of a pixel ("milli-pixels"),
//! scroll speed in thousandths of a pixel per second, and time in
//! milliseconds. The host front end converts at its edges.

pub mod actions;
pub mod luge;
pub mod player;
pub mod settings;
pub mod ui;

use vstd::prelude::*;

verus! {

/// Coarse top-level game states dispatched by the host window shell.
#[derive(Clone, Copy, PartialEq, Eq, Structural, Debug)]
pub enum GameState {
    Loading,
    Playing,
    Menu,
    Settings,
}

impl Default for GameState {
    fn default() -> (r: Self)
        ensures
            r == GameState::Loading,
    {
        GameState::Loading
    }
}

/// The screen resolutions the game offers, each with a fixed integer
/// sprite scale and derived lane geometry.
#[derive(Clone, Copy, PartialEq, Eq, Structural, Debug)]
pub enum Resolution {
    Sd,
    Hd,
    Qhd,
    Uhd,
}

impl Default for Resolution {
    fn default() -> (r: Self)
        ensures
            r == Resolution::Hd,
    {
        Resolution::Hd
    }
}

impl Resolution {
    /// Screen width and height in pixels.
    pub open spec fn spec_vec2(self) -> (u32, u32) {
        match self {
            Resolution::Sd => (1280u32, 720u32),
            Resolution::Hd => (1920u32, 1080u32),
            Resolution::Qhd => (2560u32, 1440u32),
            Resolution::Uhd => (3840u32, 2160u32),
        }
    }

    /// Screen width and height in pixels.
    pub fn vec2(&self) -> (wh: (u32, u32))
        ensures
            wh == self.spec_vec2(),
    {
        match self {
            Resolution::Sd => (1280, 720),
            Resolution::Hd => (1920, 1080),
            Resolution::Qhd => (2560, 1440),
            Resolution::Uhd => (3840, 2160),
        }
    }

    /// Integer sprite scale factor for this resolution.
    pub open spec fn spec_scale(self) -> u32 {
        match self {
            Resolution::Sd => 2u32,
            Resolution::Hd => 3u32,
            Resolution::Qhd => 4u32,
            Resolution::Uhd => 6u32,
        }
    }

    /// Integer sprite scale factor for this resolution.
    pub fn scale(&self) -> (s: u32)
        ensures
            s == self.spec_scale(),
    {
        match self {
            Resolution::Sd => 2,
            Resolution::Hd => 3,
            Resolution::Qhd => 4,
            Resolution::Uhd => 6,
        }
    }

    /// The x offsets, in pixels, of the left and right lanes: the lane
    /// art places them 61 scaled pixels either side of the center.
    pub fn calculate_lanes(&self) -> (lr: (i32, i32))
        ensures
            lr.0 == -61 * self.spec_scale(),
            lr.1 == 61 * self.spec_scale(),
    {
        let offset: i32 = 61 * self.scale() as i32;
        (-offset, offset)
    }

    /// Display label for this resolution.
    pub open spec fn spec_label(self) -> Seq<char> {
        match self {
            Resolution::Sd => "720p"@,
            Resolution::Hd => "1080p"@,
            Resolution::Qhd => "1440p"@,
            Resolution::Uhd => "4k"@,
        }
    }

    /// Display label for this resolution.
    pub fn label(&self) -> (r: &'static str)
        ensures
            r@ == self.spec_label(),
    {
        match self {
            Resolution::Sd => "720p",
            Resolution::Hd => "1080p",
            Resolution::Qhd => "1440p",
            Resolution::Uhd => "4k",
        }
    }
}

} // verus!
