//! Sound effects the menus ask the audio system to play.
use vstd::prelude::*;

verus! {

/// A sound effect played in response to menu input.
#[derive(Clone, Copy, Debug, PartialEq, Eq, Structural)]
pub enum SoundEffectType {
    /// A button lost the selection and none took its place.
    ButtonRelease,
    /// A button became selected.
    ButtonSelect,
    /// A button was clicked or confirmed.
    ButtonConfirm,
    /// A menu input took effect.
    MenuInputSuccess,
}

} // verus!
