//! Client view of a multiplayer game: entity classes and the map received
//! from the server.
use vstd::prelude::*;

use crate::text::str_eq;
use crate::world::{spec_to_byte, TileMap};

verus! {

/// The entity kinds that are buildings.
pub open spec fn spec_is_building(kind: Seq<char>) -> bool {
    kind == "town_hall"@ || kind == "great_hall"@ || kind == "barracks"@ || kind == "orc_barracks"@
        || kind == "farm"@ || kind == "stable"@ || kind == "blacksmith"@ || kind == "church"@
        || kind == "orc_blacksmith"@ || kind == "altar"@
}

pub fn is_building(kind: &str) -> (r: bool)
    ensures
        r == spec_is_building(kind@),
{
    str_eq(kind, "town_hall") || str_eq(kind, "great_hall") || str_eq(kind, "barracks") || str_eq(
        kind,
        "orc_barracks",
    ) || str_eq(kind, "farm") || str_eq(kind, "stable") || str_eq(kind, "blacksmith") || str_eq(
        kind,
        "church",
    ) || str_eq(kind, "orc_blacksmith") || str_eq(kind, "altar")
}

/// Workers: peasants and peons.
pub fn is_worker(kind: &str) -> (r: bool)
    ensures
        r == (kind@ == "peasant"@ || kind@ == "peon"@),
{
    str_eq(kind, "peasant") || str_eq(kind, "peon")
}

/// Index into the eight tile colors of the tile `(tx, ty)` of a map received
/// as bytes: the byte of the tile (0 when the bytes stop short), at most 7.
pub open spec fn spec_tile_color_index(map_tiles: Seq<u8>, map_w: int, tx: int, ty: int) -> int {
    let idx = ty * map_w + tx;
    let kind = if 0 <= idx < map_tiles.len() { map_tiles[idx] as int } else { 0 };
    if kind < 7 { kind } else { 7 }
}

pub fn tile_color_index(map_tiles: &[u8], map_w: u32, tx: u32, ty: u32) -> (r: usize)
    requires
        ty * map_w + tx <= u32::MAX,
    ensures
        r == spec_tile_color_index(map_tiles@, map_w as int, tx as int, ty as int),
{
    assert(0 <= ty * map_w) by (nonlinear_arith);
    let idx = (ty * map_w + tx) as usize;
    let kind: usize = if idx < map_tiles.len() { map_tiles[idx] as usize } else { 0 };
    if kind < 7 { kind } else { 7 }
}

/// What the client reads back from the map the server sends is the kind of
/// the tile: for every tile of a map, the color index computed from the
/// map's bytes is the tile's wire code.
pub proof fn law_tile_bytes_roundtrip(map: TileMap, bytes: Seq<u8>, x: int, y: int)
    requires
        map.wf(),
        map.in_bounds(x, y),
        bytes.len() == map@.len(),
        forall|i: int| 0 <= i < bytes.len() ==> #[trigger] bytes[i] == spec_to_byte(map@[i]),
    ensures
        spec_tile_color_index(bytes, map.width as int, x, y) == spec_to_byte(map.tile_at(x, y)),
{
    crate::grid::lemma_cell_index_bounds(x, y, map.width as int, map.height as int);
    let i = crate::grid::cell_index(x, y, map.width as int);
    assert(bytes[i] == spec_to_byte(map@[i]));
}

} // verus!
