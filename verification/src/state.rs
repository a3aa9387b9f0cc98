use vstd::prelude::*;

use crate::clock::{ends_with_utc_offset, read_utc_clock, rfc3339_text};
use crate::save::{save_file_name, save_file_name_of, universe_id, universe_id_of};

verus! {

/// The state of the game before universes had a height: whether a universe
/// is loaded, and the width and height asked for the next one.
pub struct GameState {
    pub is_universe_loaded: bool,
    pub input_universe_dimensions: (u32, u32),
}

/// What a flat universe's save file records: its identifier, its width and
/// height and when it was created.
pub struct UniverseData {
    pub id: String,
    pub width: u32,
    pub height: u32,
    pub created_at: String,
}

impl Default for GameState {
    /// No universe is loaded and no size has been entered yet.
    fn default() -> (g: Self)
        ensures
            !g.is_universe_loaded,
            g.input_universe_dimensions == (0u32, 0u32),
    {
        GameState { is_universe_loaded: false, input_universe_dimensions: (0, 0) }
    }
}

impl GameState {
    /// The record of a universe of the size entered in this state, created at
    /// `timestamp`, with `created_at` as its creation time.
    pub fn universe_record(&self, timestamp: i64, created_at: String) -> (d: UniverseData)
        ensures
            d.id@ == universe_id_of(timestamp as int),
            d.width == self.input_universe_dimensions.0,
            d.height == self.input_universe_dimensions.1,
            d.created_at == created_at,
    {
        UniverseData {
            id: universe_id(timestamp),
            width: self.input_universe_dimensions.0,
            height: self.input_universe_dimensions.1,
            created_at,
        }
    }

    /// A new universe of the size entered in this state, created now, and the
    /// name of the file that is to store it; `None` when the system clock
    /// cannot be read as a time after the Unix epoch.
    ///
    /// The identifier is taken from the current UTC time in whole seconds
    /// since the epoch, and the creation time is that same reading in RFC
    /// 3339; both come from the clock, so only their form is stated.
    pub fn new_universe(&self) -> (r: Option<(UniverseData, String)>)
        ensures
            r matches Some(p) ==> {
                &&& p.0.width == self.input_universe_dimensions.0
                &&& p.0.height == self.input_universe_dimensions.1
                &&& exists|t: i64, n: u32|
                #![trigger universe_id_of(t as int), rfc3339_text(t, n)]
                t >= 0 && n < 1_000_000_000 && p.0.id@ == universe_id_of(t as int)
                    && rfc3339_text(t, n) == Some(p.0.created_at@)
                &&& ends_with_utc_offset(p.0.created_at@)
                &&& p.1@ == save_file_name_of(p.0.id@)
            },
    {
        match read_utc_clock() {
            Some((timestamp, created_at)) => {
                let data = self.universe_record(timestamp, created_at);
                let file_name = save_file_name(data.id.as_str());
                Some((data, file_name))
            },
            None => None,
        }
    }
}

/// Whether a universe has been loaded.
pub fn is_universe_loaded(game_state: &GameState) -> (loaded: bool)
    ensures
        loaded == game_state.is_universe_loaded,
{
    game_state.is_universe_loaded
}

} // verus!
