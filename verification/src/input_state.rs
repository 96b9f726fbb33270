//! Button state tracking for the host loop: the four states a key or
//! mouse button moves through, and the pure transition rules the loop
//! applies on events and at the end of each tick.

use vstd::prelude::*;

verus! {

/// The state of one button.
#[derive(Clone, Copy, Debug, PartialEq, Eq, Structural)]
pub enum InputState {
    JustPressed,
    Held,
    JustReleased,
    Released,
}

impl InputState {
    /// The state after a press event: a fresh or re-pressed button
    /// becomes `JustPressed`; a button already `JustPressed` or `Held`
    /// counts as held.
    pub fn on_press(current: Option<InputState>) -> (r: InputState)
        ensures
            current == Some(InputState::JustPressed) ==> r == InputState::Held,
            current == Some(InputState::Held) ==> r == InputState::Held,
            (current != Some(InputState::JustPressed) && current != Some(InputState::Held))
                ==> r == InputState::JustPressed,
    {
        match current {
            Some(InputState::JustPressed) => InputState::Held,
            Some(InputState::Held) => InputState::Held,
            _ => InputState::JustPressed,
        }
    }

    /// The state after a release event: always `JustReleased`.
    pub fn on_release(current: Option<InputState>) -> (r: InputState)
        ensures
            r == InputState::JustReleased,
    {
        InputState::JustReleased
    }

    /// The state carried into the next tick: edge states settle into
    /// their level states, level states persist.
    pub fn end_tick(self) -> (r: InputState)
        ensures
            self == InputState::JustPressed ==> r == InputState::Held,
            self == InputState::JustReleased ==> r == InputState::Released,
            self == InputState::Held ==> r == InputState::Held,
            self == InputState::Released ==> r == InputState::Released,
    {
        match self {
            InputState::JustPressed => InputState::Held,
            InputState::JustReleased => InputState::Released,
            other => other,
        }
    }

    /// Whether the button counts as down this tick.
    pub fn is_down(self) -> (r: bool)
        ensures
            r == (self == InputState::JustPressed || self == InputState::Held),
    {
        match self {
            InputState::JustPressed => true,
            InputState::Held => true,
            _ => false,
        }
    }
}

} // verus!
