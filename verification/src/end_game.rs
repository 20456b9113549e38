//! The fade-out at the end of a run and the state that follows it.
use vstd::prelude::*;

verus! {

/// The application's top-level states.
#[derive(Clone, Copy, Debug, PartialEq, Eq, Structural)]
pub enum AppStates {
    MainMenu,
    CharacterSelection,
    InitializeRun,
    Game,
    GameOver,
    Victory,
}

/// Whether the end-of-game fade-out runs and which state it leads to.
#[derive(Clone, Copy, Debug, PartialEq, Eq, Structural)]
pub struct EndGameTransition {
    pub start: bool,
    pub next_state: Option<AppStates>,
}

impl EndGameTransition {
    /// Not started, no next state.
    pub fn new() -> (r: Self)
        ensures
            !r.start,
            r.next_state is None,
    {
        EndGameTransition { start: false, next_state: None }
    }

    /// Starts the fade-out towards `app_state`.
    pub fn start(&mut self, app_state: AppStates)
        ensures
            final(self).start,
            final(self).next_state == Some(app_state),
    {
        self.start = true;
        self.next_state = Some(app_state);
    }

    /// The state entered when the fade-out finishes.
    pub fn state_after_fade_out(&self) -> (r: AppStates)
        requires
            self.next_state is Some,
        ensures
            r == self.next_state->Some_0,
    {
        match self.next_state {
            Some(s) => s,
            None => AppStates::MainMenu,
        }
    }
}

} // verus!
