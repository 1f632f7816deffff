//! The shared widget vocabulary: the palette, button colors, and the
//! pure decision behind the menu button handler. Colors carry their
//! components in thousandths of full intensity; the host converts to
//! its own color type at the edge.

use vstd::prelude::*;
use crate::GameState;

verus! {

/// A color with red, green and blue in thousandths of full intensity.
#[derive(Clone, Copy, PartialEq, Eq, Structural, Debug)]
pub struct Rgb {
    pub r: u16,
    pub g: u16,
    pub b: u16,
}

/// The fixed six-step palette the screens draw from.
#[derive(Clone, Copy, PartialEq, Eq, Structural, Debug)]
pub enum UiColor {
    Darkest,
    Darker,
    Dark,
    Light,
    Lighter,
    Lightest,
}

impl UiColor {
    /// The palette entry's color.
    pub open spec fn spec_color(self) -> Rgb {
        match self {
            UiColor::Darkest => Rgb { r: 192u16, g: 212u16, b: 220u16 },
            UiColor::Darker => Rgb { r: 196u16, g: 325u16, b: 373u16 },
            UiColor::Dark => Rgb { r: 39u16, g: 467u16, b: 478u16 },
            UiColor::Light => Rgb { r: 290u16, g: 659u16, b: 506u16 },
            UiColor::Lighter => Rgb { r: 451u16, g: 937u16, b: 910u16 },
            UiColor::Lightest => Rgb { r: 925u16, g: 953u16, b: 690u16 },
        }
    }

    /// The palette entry's color.
    pub fn color(&self) -> (c: Rgb)
        ensures
            c == self.spec_color(),
    {
        match self {
            UiColor::Darkest => Rgb { r: 192, g: 212, b: 220 },
            UiColor::Darker => Rgb { r: 196, g: 325, b: 373 },
            UiColor::Dark => Rgb { r: 39, g: 467, b: 478 },
            UiColor::Light => Rgb { r: 290, g: 659, b: 506 },
            UiColor::Lighter => Rgb { r: 451, g: 937, b: 910 },
            UiColor::Lightest => Rgb { r: 925, g: 953, b: 690 },
        }
    }
}

/// The colors a button shows at rest and under the pointer.
#[derive(Clone, Copy, PartialEq, Eq, Structural, Debug)]
pub struct ButtonColors {
    pub normal: Rgb,
    pub hovered: Rgb,
}

impl Default for ButtonColors {
    fn default() -> (r: Self)
        ensures
            r.normal == UiColor::Light.spec_color(),
            r.hovered == UiColor::Lighter.spec_color(),
    {
        ButtonColors { normal: UiColor::Light.color(), hovered: UiColor::Lighter.color() }
    }
}

/// A button tag: pressing it requests this top-level game state.
#[derive(Clone, Copy, PartialEq, Eq, Structural, Debug)]
pub struct ChangeState(pub GameState);

/// A button tag: pressing it opens this link in the browser.
#[derive(Clone, Copy, PartialEq, Eq, Debug)]
pub struct OpenLink(pub &'static str);

/// The pointer's interaction with a widget this tick.
#[derive(Clone, Copy, PartialEq, Eq, Structural, Debug)]
pub enum Interaction {
    Pressed,
    Hovered,
    Idle,
}

/// What one interaction with a menu button causes.
#[derive(Clone, Copy, PartialEq, Eq, Debug)]
pub enum ButtonEffect {
    RequestState(GameState),
    OpenUrl(&'static str),
    SetColor(Rgb),
    NoEffect,
}

/// The decision behind the menu button handler: a press requests the
/// button's target state if it has one, else opens its link if it has
/// one, else does nothing; hovering and leaving recolor the button.
/// The host performs the returned effect.
pub fn button_click_handler(
    interaction: Interaction,
    change_state: Option<ChangeState>,
    open_link: Option<OpenLink>,
    colors: &ButtonColors,
) -> (e: ButtonEffect)
    ensures
        interaction == Interaction::Pressed && change_state.is_some() ==> e
            == ButtonEffect::RequestState(change_state.unwrap().0),
        interaction == Interaction::Pressed && change_state.is_none() && open_link.is_some() ==> e
            == ButtonEffect::OpenUrl(open_link.unwrap().0),
        interaction == Interaction::Pressed && change_state.is_none() && open_link.is_none() ==> e
            == ButtonEffect::NoEffect,
        interaction == Interaction::Hovered ==> e == ButtonEffect::SetColor(colors.hovered),
        interaction == Interaction::Idle ==> e == ButtonEffect::SetColor(colors.normal),
{
    match interaction {
        Interaction::Pressed => {
            match change_state {
                Option::Some(target) => ButtonEffect::RequestState(target.0),
                Option::None => {
                    match open_link {
                        Option::Some(link) => ButtonEffect::OpenUrl(link.0),
                        Option::None => ButtonEffect::NoEffect,
                    }
                },
            }
        },
        Interaction::Hovered => ButtonEffect::SetColor(colors.hovered),
        Interaction::Idle => ButtonEffect::SetColor(colors.normal),
    }
}

} // verus!
