use vstd::prelude::*;

verus! {

/// The smallest side, in blocks, that a new universe may have on each axis.
pub const MIN_DIMENSION: i32 = 32;

/// The largest side, in blocks, that a new universe may have on each axis.
pub const MAX_DIMENSION: i32 = 256;

/// The state of the home screen: whether a universe has been loaded, and the
/// size asked for the next universe to be created.
pub struct HomeState {
    pub is_universe_loaded: bool,
    pub input_universe_dimensions: (u32, u32, u32),
}

impl Default for HomeState {
    /// No universe is loaded and no size has been entered yet.
    fn default() -> (h: Self)
        ensures
            !h.is_universe_loaded,
            h.input_universe_dimensions == (0u32, 0u32, 0u32),
    {
        HomeState { is_universe_loaded: false, input_universe_dimensions: (0, 0, 0) }
    }
}

/// Whether a universe has been loaded: the home screen shows until one is,
/// and the universe's own systems run once it is.
pub fn is_universe_loaded(game_state: &HomeState) -> (loaded: bool)
    ensures
        loaded == game_state.is_universe_loaded,
{
    game_state.is_universe_loaded
}

} // verus!
