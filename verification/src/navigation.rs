//! When the portal loads a new address.
use vstd::prelude::*;

verus! {

/// Whether the portal loads the address in the address bar this frame:
/// when Return was just pressed, or R was just pressed while the command
/// key (Control, or Super on macOS) is held.
pub fn wants_navigation(return_just_pressed: bool, command_held: bool, r_just_pressed: bool) -> (go: bool)
    ensures
        go == (return_just_pressed || (command_held && r_just_pressed)),
{
    return_just_pressed || (command_held && r_just_pressed)
}

/// How the pointer relates to a button.
#[derive(Clone, Copy, Debug, PartialEq, Eq, Structural)]
pub enum PointerInteraction {
    Pressed,
    Hovered,
    Away,
}

/// How the refresh button and the guest's links answer the pointer.
#[derive(Clone, Copy, Debug, PartialEq, Eq, Structural)]
pub struct ButtonResponse {
    /// Whether the button is shown as under the pointer (a highlighted
    /// background, or a hand cursor over a link).
    pub highlighted: bool,
    /// Whether the portal loads the button's address.
    pub navigate: bool,
}

/// A pressed button is highlighted and loads its address; a hovered one is
/// only highlighted; otherwise neither.
pub fn respond_to_pointer(interaction: PointerInteraction) -> (r: ButtonResponse)
    ensures
        r.highlighted == (interaction != PointerInteraction::Away),
        r.navigate == (interaction == PointerInteraction::Pressed),
{
    match interaction {
        PointerInteraction::Pressed => ButtonResponse { highlighted: true, navigate: true },
        PointerInteraction::Hovered => ButtonResponse { highlighted: true, navigate: false },
        PointerInteraction::Away => ButtonResponse { highlighted: false, navigate: false },
    }
}

/// Whether a freshly loaded guest's setup is to run now: it runs once, on
/// the first frame after the guest was loaded, and the flag is cleared.
pub fn begin_guest_setup(first_run: &mut bool) -> (run_setup: bool)
    ensures
        run_setup == *old(first_run),
        *final(first_run) == false,
{
    let run_setup = *first_run;
    *first_run = false;
    run_setup
}

} // verus!
