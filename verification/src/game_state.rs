//! The maps of the game state: which map a name stands for, and where a map's files lie.
use crate::text::{opt_view, str_eq};
use vstd::prelude::*;

verus! {

/// A row of the map table, with the fields that the game state reads.
pub struct MapRow {
    pub id: i32,
    pub directory: String,
}

/// Why a map cannot be entered.
#[derive(Debug, Clone, Copy, PartialEq, Eq, Structural)]
pub enum MapError {
    /// No map has the name.
    UnknownName,
    /// The map table has no row for the map.
    UndefinedMap,
}

/// The number of maps that `Map::variants` of wow_world_messages lists.
pub const MAP_COUNT: usize = 135;

/// The id (`Map::as_int`) and the display name of the map at `index` in `Map::variants`.
pub uninterp spec fn map_variant(index: int) -> (u32, Seq<char>);

/// `Map::variants()[index]` of wow_world_messages, as its id (`as_int`) and its display name
/// (its `Display` text). Both are named by `map_variant`; the list has `MAP_COUNT` maps, and
/// indexing past them would panic.
#[verifier::external_body]
fn map_variant_at(index: usize) -> (r: (u32, String))
    requires
        index < MAP_COUNT,
    ensures
        (r.0, r.1@) == map_variant(index as int),
{
    let map = wow_world_messages::wrath::Map::variants()[index];
    (map.as_int(), map.to_string())
}

/// The id of the first map from `index` on whose display name is `name`.
pub open spec fn map_named_from(name: Seq<char>, index: int) -> Option<u32>
    decreases MAP_COUNT - index,
{
    if index < 0 || index >= MAP_COUNT {
        None
    } else if map_variant(index).1 == name {
        Some(map_variant(index).0)
    } else {
        map_named_from(name, index + 1)
    }
}

/// The id of the map whose display name is `name`: the first such map in the list of maps.
pub fn map_id_for_name(name: &str) -> (r: Option<u32>)
    ensures
        r == map_named_from(name@, 0),
{
    let mut index: usize = 0;
    while index < MAP_COUNT
        invariant
            index <= MAP_COUNT,
            map_named_from(name@, 0) == map_named_from(name@, index as int),
        decreases MAP_COUNT - index,
    {
        let (id, display) = map_variant_at(index);
        if str_eq(display.as_str(), name) {
            return Some(id);
        }
        index += 1;
    }
    None
}

/// The row of a map: the first row whose id, read as a `u32`, is the map's id.
pub open spec fn map_row_for(rows: Seq<MapRow>, map_id: u32) -> Option<MapRow>
    decreases rows.len(),
{
    if rows.len() == 0 {
        None
    } else if rows[0].id as u32 == map_id {
        Some(rows[0])
    } else {
        map_row_for(rows.drop_first(), map_id)
    }
}

/// The directory of a map's files, from its row of the map table.
pub fn map_directory(rows: &Vec<MapRow>, map_id: u32) -> (r: Option<String>)
    ensures
        opt_view(r) == match map_row_for(rows@, map_id) {
            Some(row) => Some(row.directory@),
            None => None,
        },
{
    let n = rows.len();
    let mut i: usize = 0;
    assert(rows@.skip(0) =~= rows@);
    while i < n
        invariant
            n == rows@.len(),
            i <= n,
            map_row_for(rows@, map_id) == map_row_for(rows@.skip(i as int), map_id),
        decreases n - i,
    {
        assert(rows@.skip(i as int).drop_first() =~= rows@.skip(i + 1));
        if rows[i].id as u32 == map_id {
            return Some(rows[i].directory.clone());
        }
        i += 1;
    }
    None
}

/// The map that a name stands for, and the directory of its files: `UnknownName` where no map
/// has the name, `UndefinedMap` where the map table has no row for it.
pub fn map_for_name(rows: &Vec<MapRow>, name: &str) -> (r: Result<(u32, String), MapError>)
    ensures
        match map_named_from(name@, 0) {
            None => r == Err::<(u32, String), MapError>(MapError::UnknownName),
            Some(id) => match map_row_for(rows@, id) {
                None => r == Err::<(u32, String), MapError>(MapError::UndefinedMap),
                Some(row) => r matches Ok((i, dir)) && i == id && dir@ == row.directory@,
            },
        },
{
    let id = match map_id_for_name(name) {
        Some(id) => id,
        None => {
            return Err(MapError::UnknownName);
        },
    };
    match map_directory(rows, id) {
        Some(directory) => Ok((id, directory)),
        None => Err(MapError::UndefinedMap),
    }
}

} // verus!
