//! The developer editor: its modes, labels, terrain palette and painting.
use vstd::prelude::*;

use crate::components::UnitKind;
use crate::grid::{cell_index, lemma_cell_index_bounds};
use crate::tilemap::{Tile, TileKind, TileMap};

verus! {

/// What a click on the map does in the editor.
#[derive(Clone, Copy, PartialEq, Eq, Debug, Structural)]
pub enum EditorMode {
    /// Paint terrain.
    Tiles,
    /// Place an entity.
    Units,
    /// Select and inspect an entity.
    Select,
    /// Delete the entity under the cursor.
    Erase,
}

/// Display name of a tile kind.
pub fn tile_kind_name(kind: TileKind) -> (r: &'static str)
    ensures
        r@ == match kind {
            TileKind::Grass => "Grass"@,
            TileKind::Dirt => "Dirt"@,
            TileKind::Forest => "Forest"@,
            TileKind::Water => "Water"@,
            TileKind::DeepWater => "Deep Water"@,
            TileKind::Sand => "Sand"@,
            TileKind::Rock => "Rock"@,
            TileKind::Bridge => "Bridge"@,
        },
{
    match kind {
        TileKind::Grass => "Grass",
        TileKind::Dirt => "Dirt",
        TileKind::Forest => "Forest",
        TileKind::Water => "Water",
        TileKind::DeepWater => "Deep Water",
        TileKind::Sand => "Sand",
        TileKind::Rock => "Rock",
        TileKind::Bridge => "Bridge",
    }
}

/// Short display name of a palette kind.
pub fn unit_kind_short(kind: UnitKind) -> (r: &'static str)
    ensures
        r@ == match kind {
            UnitKind::Peon => "Peon"@,
            UnitKind::Grunt => "Grunt"@,
            UnitKind::Archer => "Archer"@,
            UnitKind::Catapult => "Catapult"@,
            UnitKind::TownHall => "Town Hall"@,
            UnitKind::Barracks => "Barracks"@,
        },
{
    match kind {
        UnitKind::Peon => "Peon",
        UnitKind::Grunt => "Grunt",
        UnitKind::Archer => "Archer",
        UnitKind::Catapult => "Catapult",
        UnitKind::TownHall => "Town Hall",
        UnitKind::Barracks => "Barracks",
    }
}

/// The terrain palette of the editor, top to bottom.
pub open spec fn spec_tile_palette() -> Seq<TileKind> {
    seq![
        TileKind::Grass,
        TileKind::Dirt,
        TileKind::Forest,
        TileKind::Water,
        TileKind::DeepWater,
        TileKind::Sand,
        TileKind::Rock,
        TileKind::Bridge,
    ]
}

/// The kinds of the terrain palette, top to bottom.
pub fn tile_palette() -> (r: Vec<TileKind>)
    ensures
        r@ == spec_tile_palette(),
{
    let r = vec![
        TileKind::Grass,
        TileKind::Dirt,
        TileKind::Forest,
        TileKind::Water,
        TileKind::DeepWater,
        TileKind::Sand,
        TileKind::Rock,
        TileKind::Bridge,
    ];
    assert(r@ =~= spec_tile_palette());
    r
}

/// Position of `kind` in the palette (what the eyedropper selects): the
/// first entry of that kind, if any.
pub fn palette_index(palette: &[TileKind], kind: TileKind) -> (r: Option<usize>)
    ensures
        match r {
            Some(i) => i < palette@.len() && palette@[i as int] == kind && forall|j: int|
                0 <= j < i ==> palette@[j] != kind,
            None => forall|j: int| 0 <= j < palette@.len() ==> palette@[j] != kind,
        },
{
    let n = palette.len();
    for i in 0..n
        invariant
            n == palette@.len(),
            forall|j: int| 0 <= j < i ==> palette@[j] != kind,
    {
        if palette[i] == kind {
            return Some(i);
        }
    }
    None
}

/// Paints tile `(tx, ty)` with `kind` and lifts its fog of war; outside the
/// map nothing changes.
pub fn paint_tile(map: &mut TileMap, kind: TileKind, tx: u32, ty: u32)
    requires
        old(map).wf(),
    ensures
        final(map).wf(),
        final(map).width == old(map).width,
        final(map).height == old(map).height,
        old(map).in_bounds(tx as int, ty as int) ==> final(map)@ == old(map)@.update(
            cell_index(tx as int, ty as int, old(map).width as int),
            Tile { kind, visible: true, explored: true },
        ),
        !old(map).in_bounds(tx as int, ty as int) ==> final(map)@ == old(map)@,
{
    map.set(tx, ty, kind);
    if let Some(t) = map.get_mut(tx, ty) {
        t.visible = true;
        t.explored = true;
    }
    proof {
        if old(map).in_bounds(tx as int, ty as int) {
            lemma_cell_index_bounds(tx as int, ty as int, old(map).width as int, old(map).height as int);
            assert(map@ =~= old(map)@.update(
                cell_index(tx as int, ty as int, old(map).width as int),
                Tile { kind, visible: true, explored: true },
            ));
        }
    }
}

/// The editor mode after this frame's mode keys (T tiles, U units, S select,
/// X erase); of several keys pressed at once the later in that list wins.
pub fn mode_after_keys(mode: EditorMode, t: bool, u: bool, s: bool, x: bool) -> (r: EditorMode)
    ensures
        r == (if x {
            EditorMode::Erase
        } else if s {
            EditorMode::Select
        } else if u {
            EditorMode::Units
        } else if t {
            EditorMode::Tiles
        } else {
            mode
        }),
{
    let mut m = mode;
    if t {
        m = EditorMode::Tiles;
    }
    if u {
        m = EditorMode::Units;
    }
    if s {
        m = EditorMode::Select;
    }
    if x {
        m = EditorMode::Erase;
    }
    m
}

} // verus!
