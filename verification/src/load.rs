use vstd::prelude::*;

use crate::height::{starting_layer, HeightData};
use crate::home::HomeState;
use crate::save::SaveFileData;

verus! {

/// What reading a save file does to the game: when the file was read and
/// understood (`loaded` is `Some`), its data becomes the current save data,
/// the universe counts as loaded and the view starts halfway up the loaded
/// universe; when it was not, nothing changes. Returns whether the universe
/// was loaded.
pub fn apply_loaded_save(
    game_state: &mut HomeState,
    save_data: &mut SaveFileData,
    height_data: &mut HeightData,
    loaded: Option<SaveFileData>,
) -> (done: bool)
    ensures
        done == loaded.is_some(),
        loaded.is_some() ==> *final(save_data) == loaded.unwrap(),
        loaded.is_some() ==> final(game_state).is_universe_loaded,
        loaded.is_some() ==> final(height_data).current_z == starting_layer(
            loaded.unwrap().z as int,
        ),
        loaded.is_none() ==> *final(save_data) == *old(save_data),
        loaded.is_none() ==> final(game_state).is_universe_loaded == old(
            game_state,
        ).is_universe_loaded,
        loaded.is_none() ==> *final(height_data) == *old(height_data),
        final(game_state).input_universe_dimensions == old(game_state).input_universe_dimensions,
{
    match loaded {
        Some(data) => {
            *height_data = HeightData::for_universe(data.z);
            *save_data = data;
            game_state.is_universe_loaded = true;
            true
        },
        None => false,
    }
}

} // verus!
