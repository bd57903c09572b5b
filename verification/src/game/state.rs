use vstd::prelude::*;

verus! {

/// The loading flow of the whole game.
#[derive(Debug, Clone, Copy, PartialEq, Eq, Hash, Structural)]
pub enum AppState {
    Loading,
    Loaded,
    InGame,
}

impl AppState {
    /// Position of the state in the loading flow.
    pub open spec fn rank(self) -> nat {
        match self {
            AppState::Loading => 0,
            AppState::Loaded => 1,
            AppState::InGame => 2,
        }
    }

    /// The state the flow moves on to: the collision (or level) is loaded,
    /// then the game starts; a running game has no successor.
    pub open spec fn spec_next(self) -> Option<AppState> {
        match self {
            AppState::Loading => Some(AppState::Loaded),
            AppState::Loaded => Some(AppState::InGame),
            AppState::InGame => None,
        }
    }

    /// The state that the flow moves on to from this one, if any.
    pub fn next(self) -> (r: Option<AppState>)
        ensures
            r == self.spec_next(),
    {
        match self {
            AppState::Loading => Some(AppState::Loaded),
            AppState::Loaded => Some(AppState::InGame),
            AppState::InGame => None,
        }
    }
}

/// Each step of the loading flow moves exactly one stage forward, so the flow
/// never goes back and never repeats a state; only a running game has no
/// next state.
pub proof fn lemma_app_state_advances(s: AppState)
    ensures
        s.spec_next() is None <==> s == AppState::InGame,
        s.spec_next() matches Some(t) ==> t.rank() == s.rank() + 1,
        s.spec_next() matches Some(t) ==> t != s,
{
}

/// From `Loading` the flow reaches `InGame` in two steps, through `Loaded`.
pub proof fn lemma_app_state_reaches_game()
    ensures
        AppState::Loading.spec_next() == Some(AppState::Loaded),
        AppState::Loaded.spec_next() == Some(AppState::InGame),
        AppState::InGame.spec_next() is None,
{
}

} // verus!
