//! The settings screen's model: its own resolution table (an earlier
//! lane-geometry variant with a 66-pixel half-width per scale step),
//! the chosen settings, and the dropdown's pure state changes.

use vstd::prelude::*;

verus! {

/// The resolutions the settings screen offers. This table keeps the
/// lane half-width at 66 scaled pixels and a scale of 5 for the
/// largest size.
#[derive(Clone, Copy, PartialEq, Eq, Structural, Debug)]
pub enum Resolution {
    Sd,
    Hd,
    Qhd,
    Uhd,
}

impl Default for Resolution {
    fn default() -> (r: Self)
        ensures
            r == Resolution::Hd,
    {
        Resolution::Hd
    }
}

impl Resolution {
    /// Screen width and height in pixels.
    pub open spec fn spec_vec2(self) -> (u32, u32) {
        match self {
            Resolution::Sd => (1280u32, 720u32),
            Resolution::Hd => (1920u32, 1080u32),
            Resolution::Qhd => (2560u32, 1440u32),
            Resolution::Uhd => (3840u32, 2160u32),
        }
    }

    /// Screen width and height in pixels.
    pub fn vec2(&self) -> (wh: (u32, u32))
        ensures
            wh == self.spec_vec2(),
    {
        match self {
            Resolution::Sd => (1280, 720),
            Resolution::Hd => (1920, 1080),
            Resolution::Qhd => (2560, 1440),
            Resolution::Uhd => (3840, 2160),
        }
    }

    /// Display label for this resolution.
    pub open spec fn spec_label(self) -> Seq<char> {
        match self {
            Resolution::Sd => "720p"@,
            Resolution::Hd => "1080p"@,
            Resolution::Qhd => "1440p"@,
            Resolution::Uhd => "4k"@,
        }
    }

    /// Display label for this resolution.
    pub fn label(&self) -> (r: &'static str)
        ensures
            r@ == self.spec_label(),
    {
        match self {
            Resolution::Sd => "720p",
            Resolution::Hd => "1080p",
            Resolution::Qhd => "1440p",
            Resolution::Uhd => "4k",
        }
    }

    /// Integer sprite scale factor in this table: 2, 3, 4 and 5.
    pub open spec fn spec_scale(self) -> u32 {
        match self {
            Resolution::Sd => 2u32,
            Resolution::Hd => 3u32,
            Resolution::Qhd => 4u32,
            Resolution::Uhd => 5u32,
        }
    }

    /// Integer sprite scale factor in this table.
    pub fn scale(&self) -> (s: u32)
        ensures
            s == self.spec_scale(),
    {
        match self {
            Resolution::Sd => 2,
            Resolution::Hd => 3,
            Resolution::Qhd => 4,
            Resolution::Uhd => 5,
        }
    }

    /// The x offsets, in pixels, of the left and right lanes in this
    /// table: 66 scaled pixels either side of the center (the lane art
    /// is 200 pixels wide at a third of the base scale).
    pub fn calculate_lanes(&self) -> (lr: (i32, i32))
        ensures
            lr.0 == -66 * self.spec_scale(),
            lr.1 == 66 * self.spec_scale(),
    {
        match self {
            Resolution::Sd => (-132, 132),
            Resolution::Hd => (-198, 198),
            Resolution::Qhd => (-264, 264),
            Resolution::Uhd => (-330, 330),
        }
    }
}

/// The chosen settings.
#[derive(Clone, Copy, PartialEq, Eq, Structural, Debug)]
pub struct Settings {
    pub resolution: Resolution,
}

impl Default for Settings {
    fn default() -> (r: Self)
        ensures
            r == (Settings { resolution: Resolution::Hd }),
    {
        Settings { resolution: Resolution::Hd }
    }
}

/// Marker for everything the settings screen spawns.
#[derive(Clone, Copy, PartialEq, Eq, Structural, Debug)]
pub struct SettingsCleanup;

/// Marker for the dropdown's clickable head.
#[derive(Clone, Copy, PartialEq, Eq, Structural, Debug)]
pub struct DropdownHead;

/// Marker for the dropdown's label text.
#[derive(Clone, Copy, PartialEq, Eq, Structural, Debug)]
pub struct DropdownLabel;

/// Marker for the dropdown's option panel.
#[derive(Clone, Copy, PartialEq, Eq, Structural, Debug)]
pub struct DropdownPanel;

/// One selectable option of the dropdown.
#[derive(Clone, Copy, PartialEq, Eq, Structural, Debug)]
pub struct DropdownChoice(pub Resolution);

/// Whether the dropdown's option panel is laid out.
#[derive(Clone, Copy, PartialEq, Eq, Structural, Debug)]
pub enum PanelDisplay {
    Hidden,
    Shown,
}

/// A press on the dropdown head flips the panel between hidden and
/// shown; without a press it stays as it is.
pub fn toggle_dropdown(pressed: bool, panel: PanelDisplay) -> (r: PanelDisplay)
    ensures
        pressed && panel == PanelDisplay::Hidden ==> r == PanelDisplay::Shown,
        pressed && panel == PanelDisplay::Shown ==> r == PanelDisplay::Hidden,
        !pressed ==> r == panel,
{
    if pressed {
        match panel {
            PanelDisplay::Hidden => PanelDisplay::Shown,
            PanelDisplay::Shown => PanelDisplay::Hidden,
        }
    } else {
        panel
    }
}

impl Settings {
    /// Select a resolution from the dropdown: the settings keep it,
    /// the label shows it, and the panel closes. The host applies the
    /// returned window size.
    pub fn select_option(&mut self, choice: Resolution) -> (r: (&'static str, PanelDisplay))
        ensures
            final(self).resolution == choice,
            r.0@ == choice.spec_label(),
            r.1 == PanelDisplay::Hidden,
    {
        self.resolution = choice;
        (choice.label(), PanelDisplay::Hidden)
    }
}

} // verus!
