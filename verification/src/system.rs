//! Shared application state for the surrounding server.

use vstd::prelude::*;

verus! {

/// State every request handler sees: the display name of the song now on
/// air, empty when nothing plays. The surrounding runtime shares one value
/// of this between its handlers and the orchestrator loop.
pub struct AppState {
    pub current_song: String,
}

impl AppState {
    /// The initial state of the app: nothing on air yet.
    pub fn new() -> (state: AppState)
        ensures
            state.current_song@ == Seq::<char>::empty(),
    {
        AppState { current_song: String::new() }
    }
}

} // verus!
