//! The two phases of the game's start-up and the rule that moves from the
//! first to the second.

use vstd::prelude::*;

verus! {

/// The phase the game is in.
#[derive(Debug, Clone, Copy, PartialEq, Eq, Hash, Structural)]
pub enum AppState {
    /// The terrain sprites are being loaded.
    Setup,
    /// The sprites are loaded and the map is on screen.
    Finished,
}

impl Default for AppState {
    /// The game starts in `Setup`.
    fn default() -> (state: AppState)
        ensures
            state == AppState::Setup,
    {
        AppState::Setup
    }
}

/// How far the loading of a group of assets has come.
#[derive(Debug, Clone, Copy, PartialEq, Eq, Hash, Structural)]
pub enum LoadState {
    NotLoaded,
    Loading,
    Loaded,
    Failed,
    Unloaded,
}

/// The phase that `check_textures` asks for: `Finished` once the whole group
/// is loaded, none before that.
pub open spec fn phase_after(load_state: LoadState) -> Option<AppState> {
    if load_state == LoadState::Loaded {
        Some(AppState::Finished)
    } else {
        None
    }
}

/// Looks at how far the loading of the terrain sprites has come and says
/// which phase to enter next, if any.
pub fn check_textures(load_state: LoadState) -> (next: Option<AppState>)
    ensures
        next == phase_after(load_state),
{
    match load_state {
        LoadState::Loaded => Some(AppState::Finished),
        _ => None,
    }
}

} // verus!
