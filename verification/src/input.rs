//! Input values that the menus read: pointer interactions with a button and
//! the abstract menu actions bound to keyboard and gamepad keys.
use vstd::prelude::*;

verus! {

/// How the pointer currently interacts with a button widget.
///
/// `Idle` is the state in which the pointer neither hovers nor presses the
/// button (the engine calls it `None`).
#[derive(Clone, Copy, Debug, PartialEq, Eq, Structural)]
pub enum Interaction {
    Pressed,
    Hovered,
    Idle,
}

impl Default for Interaction {
    fn default() -> (r: Self)
        ensures
            r == Interaction::Idle,
    {
        Interaction::Idle
    }
}

/// A click completes when the pointer is released over the button: the button
/// was `Pressed` on the previous frame and is `Hovered` now.
pub open spec fn is_release(current: Interaction, previous: Interaction) -> bool {
    current == Interaction::Hovered && previous == Interaction::Pressed
}

/// Whether the pointer was just released over a button.
pub fn button_released(current: Interaction, previous: Interaction) -> (r: bool)
    ensures
        r == is_release(current, previous),
{
    match current {
        Interaction::Hovered => match previous {
            Interaction::Pressed => true,
            _ => false,
        },
        _ => false,
    }
}

/// Abstract menu actions, each bound to keys of a keyboard or a gamepad.
#[derive(Clone, Copy, Debug, PartialEq, Eq, Structural)]
pub enum MenuAction {
    Confirm,
    Back,
    JoinKeyboard,
    JoinGamepad,
    NavigateUpKeyboard,
    NavigateUpGamepad,
    NavigateDownKeyboard,
    NavigateDownGamepad,
    NavigateLeftKeyboard,
    NavigateLeftGamepad,
    NavigateRightKeyboard,
    NavigateRightGamepad,
    PlayerReadyKeyboard,
    PlayerReadyGamepad,
}

/// Whether `action` occurs in `actions`.
pub fn contains_action(actions: &Vec<MenuAction>, action: MenuAction) -> (r: bool)
    ensures
        r == actions@.contains(action),
{
    let mut i: usize = 0;
    while i < actions.len()
        invariant
            i <= actions.len(),
            forall|j: int| 0 <= j < i ==> actions@[j] != action,
        decreases actions.len() - i,
    {
        if actions[i] == action {
            return true;
        }
        i = i + 1;
    }
    false
}

} // verus!
