//! The colour names that guests may use.
use vstd::prelude::*;
use crate::text::is_text;

verus! {

/// The colours the portal draws guest shapes and labels with.
#[derive(Clone, Copy, Debug, PartialEq, Eq, Structural)]
pub enum PortalColor {
    White,
    Black,
    Red,
    Blue,
    RoyalPurple,
}

/// The portal colour that a guest's colour name stands for: `white`,
/// `black`, `red`, `blue` and `royal_purple` name their colours; any other
/// name is black.
pub open spec fn portal_color_named(name: Seq<char>) -> PortalColor {
    if name == "white"@ {
        PortalColor::White
    } else if name == "black"@ {
        PortalColor::Black
    } else if name == "red"@ {
        PortalColor::Red
    } else if name == "blue"@ {
        PortalColor::Blue
    } else if name == "royal_purple"@ {
        PortalColor::RoyalPurple
    } else {
        PortalColor::Black
    }
}

/// Reads a guest's colour name (see [`portal_color_named`]).
pub fn color_from_name(name: &str) -> (c: PortalColor)
    ensures
        c == portal_color_named(name@),
{
    if is_text(name, "white") {
        PortalColor::White
    } else if is_text(name, "black") {
        PortalColor::Black
    } else if is_text(name, "red") {
        PortalColor::Red
    } else if is_text(name, "blue") {
        PortalColor::Blue
    } else if is_text(name, "royal_purple") {
        PortalColor::RoyalPurple
    } else {
        PortalColor::Black
    }
}

/// The colours of the immediate-mode drawing host.
#[derive(Clone, Copy, Debug, PartialEq, Eq, Structural)]
pub enum ScreenColor {
    Red,
    Blue,
    Green,
    Yellow,
    DarkGray,
    LightGray,
    White,
}

/// The screen colour that a guest's colour name stands for: `RED`, `BLUE`,
/// `GREEN`, `YELLOW`, `DARKGRAY` and `LIGHTGRAY` name their colours; any
/// other name is white.
pub open spec fn screen_color_named(name: Seq<char>) -> ScreenColor {
    if name == "RED"@ {
        ScreenColor::Red
    } else if name == "BLUE"@ {
        ScreenColor::Blue
    } else if name == "GREEN"@ {
        ScreenColor::Green
    } else if name == "YELLOW"@ {
        ScreenColor::Yellow
    } else if name == "DARKGRAY"@ {
        ScreenColor::DarkGray
    } else if name == "LIGHTGRAY"@ {
        ScreenColor::LightGray
    } else {
        ScreenColor::White
    }
}

/// Reads a guest's colour name for the drawing host (see
/// [`screen_color_named`]).
pub fn screen_color_from_name(name: &str) -> (c: ScreenColor)
    ensures
        c == screen_color_named(name@),
{
    if is_text(name, "RED") {
        ScreenColor::Red
    } else if is_text(name, "BLUE") {
        ScreenColor::Blue
    } else if is_text(name, "GREEN") {
        ScreenColor::Green
    } else if is_text(name, "YELLOW") {
        ScreenColor::Yellow
    } else if is_text(name, "DARKGRAY") {
        ScreenColor::DarkGray
    } else if is_text(name, "LIGHTGRAY") {
        ScreenColor::LightGray
    } else {
        ScreenColor::White
    }
}

} // verus!
