use vstd::prelude::*;

use crate::clock::{ends_with_utc_offset, read_utc_clock, rfc3339_text};
use crate::decimal::{int_decimal, lemma_int_decimal_injective, push_i64};

verus! {

/// The side of a universe, in blocks, on each axis when nothing else was
/// chosen.
pub const DEFAULT_DIMENSION: u32 = 32;

/// What a save file records of a universe: its identifier, its size along the
/// three axes and when it was created.
pub struct SaveFileData {
    pub id: String,
    pub x: u32,
    pub y: u32,
    pub z: u32,
    pub created_at: String,
}

/// `universe_`, the start of every universe identifier.
pub open spec fn universe_prefix() -> Seq<char> {
    seq!['u', 'n', 'i', 'v', 'e', 'r', 's', 'e', '_']
}

/// `.json`, the ending of every save file name.
pub open spec fn save_file_extension() -> Seq<char> {
    seq!['.', 'j', 's', 'o', 'n']
}

/// The identifier of a universe created at `timestamp` (seconds since the
/// Unix epoch): `universe_` followed by the timestamp in decimal.
pub open spec fn universe_id_of(timestamp: int) -> Seq<char> {
    universe_prefix() + int_decimal(timestamp)
}

/// The name of the file that stores the universe `id`: the identifier
/// followed by `.json`.
pub open spec fn save_file_name_of(id: Seq<char>) -> Seq<char> {
    id + save_file_extension()
}

impl SaveFileData {
    /// An unnamed universe of the default size on every axis, made at
    /// `created_at`: the save data in use before any file is loaded.
    pub fn with_default_size(created_at: String) -> (d: Self)
        ensures
            d.id@ == Seq::<char>::empty(),
            d.x == DEFAULT_DIMENSION,
            d.y == DEFAULT_DIMENSION,
            d.z == DEFAULT_DIMENSION,
            d.created_at == created_at,
    {
        SaveFileData {
            id: String::new(),
            x: DEFAULT_DIMENSION,
            y: DEFAULT_DIMENSION,
            z: DEFAULT_DIMENSION,
            created_at,
        }
    }
}

/// The identifier of a universe created at `timestamp`.
pub fn universe_id(timestamp: i64) -> (id: String)
    ensures
        id@ == universe_id_of(timestamp as int),
{
    let mut id = String::from_str("universe_");
    proof {
        reveal_strlit("universe_");
    }
    push_i64(&mut id, timestamp);
    id
}

/// The name of the file that stores the universe `id`.
pub fn save_file_name(id: &str) -> (name: String)
    ensures
        name@ == save_file_name_of(id@),
{
    let mut name = String::from_str(id);
    name.append(".json");
    proof {
        reveal_strlit(".json");
    }
    name
}

/// The record of a universe of the given size created at `timestamp`, with
/// `created_at` as its creation time.
pub fn universe_record(dimensions: (u32, u32, u32), timestamp: i64, created_at: String) -> (d:
    SaveFileData)
    ensures
        d.id@ == universe_id_of(timestamp as int),
        d.x == dimensions.0,
        d.y == dimensions.1,
        d.z == dimensions.2,
        d.created_at == created_at,
{
    SaveFileData {
        id: universe_id(timestamp),
        x: dimensions.0,
        y: dimensions.1,
        z: dimensions.2,
        created_at,
    }
}

/// A new universe of the given size, created now, and the name of the file
/// that is to store it; `None` when the system clock cannot be read as a
/// time after the Unix epoch.
///
/// The identifier is taken from the current UTC time in whole seconds since
/// the epoch, and the creation time is that same reading in RFC 3339; both
/// come from the clock, so only their form is stated.
pub fn new_universe(dimensions: (u32, u32, u32)) -> (r: Option<(SaveFileData, String)>)
    ensures
        r matches Some(p) ==> {
            &&& p.0.x == dimensions.0
            &&& p.0.y == dimensions.1
            &&& p.0.z == dimensions.2
            &&& exists|t: i64, n: u32|
                #![trigger universe_id_of(t as int), rfc3339_text(t, n)]
                t >= 0 && n < 1_000_000_000 && p.0.id@ == universe_id_of(t as int)
                    && rfc3339_text(t, n) == Some(p.0.created_at@)
            &&& ends_with_utc_offset(p.0.created_at@)
            &&& p.1@ == save_file_name_of(p.0.id@)
        },
{
    match read_utc_clock() {
        Some((timestamp, created_at)) => {
            let data = universe_record(dimensions, timestamp, created_at);
            let file_name = save_file_name(data.id.as_str());
            Some((data, file_name))
        },
        None => None,
    }
}

/// Universes created at different seconds get different identifiers and
/// different save file names, so a new universe never takes the file of one
/// created at another second.
pub proof fn lemma_universe_ids_distinct(a: int, b: int)
    requires
        a != b,
    ensures
        universe_id_of(a) != universe_id_of(b),
        save_file_name_of(universe_id_of(a)) != save_file_name_of(universe_id_of(b)),
{
    if universe_id_of(a) == universe_id_of(b) {
        assert(int_decimal(a) =~= universe_id_of(a).subrange(9, universe_id_of(a).len() as int));
        assert(int_decimal(b) =~= universe_id_of(b).subrange(9, universe_id_of(b).len() as int));
        lemma_int_decimal_injective(a, b);
    }
    if save_file_name_of(universe_id_of(a)) == save_file_name_of(universe_id_of(b)) {
        let fa = save_file_name_of(universe_id_of(a));
        let fb = save_file_name_of(universe_id_of(b));
        assert(universe_id_of(a) =~= fa.subrange(0, fa.len() - 5));
        assert(universe_id_of(b) =~= fb.subrange(0, fb.len() - 5));
        assert(int_decimal(a) =~= universe_id_of(a).subrange(9, universe_id_of(a).len() as int));
        assert(int_decimal(b) =~= universe_id_of(b).subrange(9, universe_id_of(b).len() as int));
        lemma_int_decimal_injective(a, b);
    }
}

} // verus!
