//! The options menu's form: volume and bloom sliders from 0 to 100.
use vstd::prelude::*;

verus! {

/// The options "form". Every level is from 0 to 100 (inclusive); for the
/// volumes 50 is the unaltered level, 100 louder and 0 silent.
#[derive(Clone, Copy, Debug, PartialEq, Eq, Structural)]
pub struct OptionsUIState {
    pub master_volume_level: u8,
    pub background_volume_level: u8,
    pub bloom_intensity: u8,
}

impl Default for OptionsUIState {
    fn default() -> (r: Self)
        ensures
            r == (OptionsUIState {
                master_volume_level: 50,
                background_volume_level: 50,
                bloom_intensity: 100,
            }),
    {
        OptionsUIState { master_volume_level: 50, background_volume_level: 50, bloom_intensity: 100 }
    }
}

impl OptionsUIState {
    /// The form as the options menu opens: the master volume unaltered, the
    /// background music at 70, and the bloom level read from the game's
    /// options (as a percentage).
    pub fn from_game_options(bloom_level: u8) -> (r: Self)
        ensures
            r == (OptionsUIState {
                master_volume_level: 50,
                background_volume_level: 70,
                bloom_intensity: bloom_level,
            }),
    {
        OptionsUIState { master_volume_level: 50, background_volume_level: 70, bloom_intensity: bloom_level }
    }

    /// Bloom is enabled exactly when its level is above zero.
    pub fn bloom_enabled(&self) -> (r: bool)
        ensures
            r == (self.bloom_intensity > 0),
    {
        self.bloom_intensity > 0
    }
}

} // verus!
