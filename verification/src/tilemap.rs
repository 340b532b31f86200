//! Terrain tiles and the fog-of-war tile map of the client.
use vstd::prelude::*;

use crate::grid::{cell_index, lemma_cell_index_bounds, lemma_cell_index_injective};
use crate::session::walkable;
use crate::world::spec_to_byte;

verus! {

/// Kind of a terrain tile.
#[derive(Clone, Copy, Debug, PartialEq, Eq, Hash, Structural)]
pub enum TileKind {
    Grass,
    Dirt,
    Water,
    DeepWater,
    Forest,
    Rock,
    Sand,
    Bridge,
}

/// Column of a tile kind in the terrain sheet (all kinds sit on row 0).
pub open spec fn spec_sheet_col(kind: TileKind) -> u32 {
    match kind {
        TileKind::Grass => 0,
        TileKind::Dirt => 1,
        TileKind::Water => 2,
        TileKind::DeepWater => 3,
        TileKind::Forest => 4,
        TileKind::Rock => 5,
        TileKind::Sand => 6,
        TileKind::Bridge => 7,
    }
}

/// Ground units cannot cross water, deep water or rock.
pub open spec fn spec_is_passable(kind: TileKind) -> bool {
    !(kind == TileKind::Water || kind == TileKind::DeepWater || kind == TileKind::Rock)
}

impl TileKind {
    /// Position of the kind in the terrain spritesheet, as (column, row).
    pub fn sheet_pos(self) -> (r: (u32, u32))
        ensures
            r == (spec_sheet_col(self), 0u32),
    {
        match self {
            TileKind::Grass => (0, 0),
            TileKind::Dirt => (1, 0),
            TileKind::Water => (2, 0),
            TileKind::DeepWater => (3, 0),
            TileKind::Forest => (4, 0),
            TileKind::Rock => (5, 0),
            TileKind::Sand => (6, 0),
            TileKind::Bridge => (7, 0),
        }
    }

    /// True when ground units may walk over the tile.
    pub fn is_passable(self) -> (r: bool)
        ensures
            r == spec_is_passable(self),
    {
        match self {
            TileKind::Water | TileKind::DeepWater | TileKind::Rock => false,
            _ => true,
        }
    }
}

/// The client and the server agree on where ground units can go: a client
/// tile and a server tile with the same code (the client's sheet column is
/// the byte the server sends for its tile) are both passable or both not.
pub proof fn law_passable_as_server(a: TileKind, b: crate::world::TileKind)
    requires
        spec_sheet_col(a) == spec_to_byte(b) as u32,
    ensures
        spec_is_passable(a) == walkable(b),
{
}

/// One cell of the map.
#[derive(Clone, Copy, Debug, PartialEq, Eq, Structural)]
pub struct Tile {
    pub kind: TileKind,
    /// Currently visible (fog of war lifted).
    pub visible: bool,
    /// Seen at least once; stays true when the tile is no longer visible.
    pub explored: bool,
}

/// The tile a map starts with: not visible, not explored.
pub open spec fn fresh_tile(kind: TileKind) -> Tile {
    Tile { kind, visible: false, explored: false }
}

/// The tile after the fog of war is lifted from it.
pub open spec fn revealed(t: Tile) -> Tile {
    Tile { kind: t.kind, visible: true, explored: true }
}

impl Tile {
    pub fn new(kind: TileKind) -> (t: Tile)
        ensures
            t == fresh_tile(kind),
    {
        Tile { kind, visible: false, explored: false }
    }
}

/// Rectangular map of tiles, stored row by row.
pub struct TileMap {
    pub width: u32,
    pub height: u32,
    /// The tiles, row by row: cell `(x, y)` is at `y * width + x`.
    pub tiles: Vec<Tile>,
}

impl View for TileMap {
    type V = Seq<Tile>;

    open spec fn view(&self) -> Seq<Tile> {
        self.tiles@
    }
}

/// The disc of radius `r` around `(cx, cy)`, boundary included.
pub open spec fn in_disc(cx: int, cy: int, r: int, x: int, y: int) -> bool {
    (x - cx) * (x - cx) + (y - cy) * (y - cy) <= r * r
}

/// A point of the disc lies in its bounding square.
pub proof fn lemma_disc_bounds(cx: int, cy: int, r: int, x: int, y: int)
    requires
        0 <= r,
        in_disc(cx, cy, r, x, y),
    ensures
        -r <= x - cx <= r,
        -r <= y - cy <= r,
{
    let dx = x - cx;
    let dy = y - cy;
    assert(-r <= dx <= r && -r <= dy <= r) by (nonlinear_arith)
        requires
            dx * dx + dy * dy <= r * r,
            0 <= r,
    ;
}

impl TileMap {
    /// One tile per cell, and a cell count that fits in `u32`.
    pub open spec fn wf(&self) -> bool {
        &&& self@.len() == self.width * self.height
        &&& self.width * self.height <= u32::MAX
    }

    pub open spec fn in_bounds(&self, x: int, y: int) -> bool {
        0 <= x < self.width && 0 <= y < self.height
    }

    /// The tile of cell `(x, y)`.
    pub open spec fn tile_at(&self, x: int, y: int) -> Tile {
        self@[cell_index(x, y, self.width as int)]
    }

    /// A map of the given size whose every tile is `fresh_tile(kind)`.
    pub fn new_filled(width: u32, height: u32, kind: TileKind) -> (m: TileMap)
        requires
            width * height <= u32::MAX,
        ensures
            m.wf(),
            m.width == width,
            m.height == height,
            forall|i: int| 0 <= i < m@.len() ==> #[trigger] m@[i] == fresh_tile(kind),
    {
        let n = width * height;
        let tiles = vec![Tile::new(kind); n as usize];
        TileMap { width, height, tiles }
    }

    /// The tile of `(x, y)`, or `None` outside the map.
    pub fn get(&self, x: u32, y: u32) -> (r: Option<&Tile>)
        requires
            self.wf(),
        ensures
            r == (if self.in_bounds(x as int, y as int) {
                Some(&self.tile_at(x as int, y as int))
            } else {
                None
            }),
    {
        if x < self.width && y < self.height {
            proof {
                lemma_cell_index_bounds(x as int, y as int, self.width as int, self.height as int);
            }
            Some(&self.tiles[(y * self.width + x) as usize])
        } else {
            None
        }
    }

    /// Mutable access to the tile of `(x, y)`, or `None` outside the map.
    pub fn get_mut(&mut self, x: u32, y: u32) -> (r: Option<&mut Tile>)
        requires
            old(self).wf(),
        ensures
            final(self).width == old(self).width,
            final(self).height == old(self).height,
            old(self).in_bounds(x as int, y as int) ==> (r matches Some(t) && *t == old(self).tile_at(
                x as int,
                y as int,
            ) && final(self)@ == old(self)@.update(
                cell_index(x as int, y as int, old(self).width as int),
                *final(t),
            )),
            !old(self).in_bounds(x as int, y as int) ==> (r is None && final(self)@ == old(self)@),
    {
        if x < self.width && y < self.height {
            proof {
                lemma_cell_index_bounds(x as int, y as int, self.width as int, self.height as int);
            }
            Some(&mut self.tiles[(y * self.width + x) as usize])
        } else {
            None
        }
    }

    /// Changes the tile at `(x, y)`, if it is inside the map: `reveal` lifts
    /// its fog of war, otherwise its kind becomes `kind`.
    fn touch(&mut self, x: u32, y: u32, reveal: bool, kind: TileKind)
        requires
            old(self).wf(),
        ensures
            final(self).wf(),
            final(self).width == old(self).width,
            final(self).height == old(self).height,
            forall|xx: int, yy: int|
                old(self).in_bounds(xx, yy) ==> #[trigger] final(self).tile_at(xx, yy) == (if xx == x && yy
                    == y {
                    if reveal {
                        revealed(old(self).tile_at(xx, yy))
                    } else {
                        Tile { kind, ..old(self).tile_at(xx, yy) }
                    }
                } else {
                    old(self).tile_at(xx, yy)
                }),
    {
        let ghost before = *self;
        if x < self.width && y < self.height {
            proof {
                lemma_cell_index_bounds(x as int, y as int, self.width as int, self.height as int);
            }
        }
        if let Some(t) = self.get_mut(x, y) {
            if reveal {
                t.visible = true;
                t.explored = true;
            } else {
                t.kind = kind;
            }
        }
        proof {
            assert forall|xx: int, yy: int| before.in_bounds(xx, yy) && (xx != x || yy != y) implies
                #[trigger] self.tile_at(xx, yy) == before.tile_at(xx, yy) by {
                lemma_cell_index_bounds(xx, yy, before.width as int, before.height as int);
                if before.in_bounds(x as int, y as int) {
                    if cell_index(xx, yy, before.width as int) == cell_index(x as int, y as int, before.width as int) {
                        lemma_cell_index_injective(xx, yy, x as int, y as int, before.width as int);
                    }
                }
            }
        }
    }

    /// Changes, as `touch` does, every tile with `x0 <= x < x1` and `y0 <= y < y1`.
    fn touch_rect(&mut self, x0: u32, x1: u32, y0: u32, y1: u32, reveal: bool, kind: TileKind)
        requires
            old(self).wf(),
        ensures
            final(self).wf(),
            final(self).width == old(self).width,
            final(self).height == old(self).height,
            forall|x: int, y: int|
                old(self).in_bounds(x, y) ==> #[trigger] final(self).tile_at(x, y) == (if x0 <= x < x1
                    && y0 <= y < y1 {
                    if reveal {
                        revealed(old(self).tile_at(x, y))
                    } else {
                        Tile { kind, ..old(self).tile_at(x, y) }
                    }
                } else {
                    old(self).tile_at(x, y)
                }),
    {
        let ghost start = *self;
        let mut y = y0;
        while y < y1
            invariant
                self.wf(),
                self.width == start.width,
                self.height == start.height,
                (y0 <= y && y <= y1) || (y1 < y0 && y == y0),
                forall|x: int, yy: int|
                    start.in_bounds(x, yy) ==> #[trigger] self.tile_at(x, yy) == (if x0 <= x < x1 && y0
                        <= yy < y {
                        if reveal {
                            revealed(start.tile_at(x, yy))
                        } else {
                            Tile { kind, ..start.tile_at(x, yy) }
                        }
                    } else {
                        start.tile_at(x, yy)
                    }),
            decreases y1 - y,
        {
            let mut x = x0;
            while x < x1
                invariant
                    self.wf(),
                    self.width == start.width,
                    self.height == start.height,
                    y0 <= y < y1,
                    (x0 <= x && x <= x1) || (x1 < x0 && x == x0),
                    forall|xx: int, yy: int|
                        start.in_bounds(xx, yy) ==> #[trigger] self.tile_at(xx, yy) == (if (x0 <= xx < x1
                            && y0 <= yy < y) || (x0 <= xx < x && yy == y) {
                            if reveal {
                                revealed(start.tile_at(xx, yy))
                            } else {
                                Tile { kind, ..start.tile_at(xx, yy) }
                            }
                        } else {
                            start.tile_at(xx, yy)
                        }),
                decreases x1 - x,
            {
                self.touch(x, y, reveal, kind);
                x = x + 1;
            }
            y = y + 1;
        }
    }

    /// Sets the kind of every tile with `x0 <= x < x1` and `y0 <= y < y1`,
    /// keeping its fog of war.
    pub fn fill_rect(&mut self, x0: u32, x1: u32, y0: u32, y1: u32, kind: TileKind)
        requires
            old(self).wf(),
        ensures
            final(self).wf(),
            final(self).width == old(self).width,
            final(self).height == old(self).height,
            forall|x: int, y: int|
                old(self).in_bounds(x, y) ==> #[trigger] final(self).tile_at(x, y) == (if x0 <= x < x1
                    && y0 <= y < y1 {
                    Tile { kind, ..old(self).tile_at(x, y) }
                } else {
                    old(self).tile_at(x, y)
                }),
    {
        self.touch_rect(x0, x1, y0, y1, false, kind);
    }

    /// Lifts the fog of war from every tile with `x0 <= x < x1` and `y0 <= y < y1`.
    pub fn reveal_rect(&mut self, x0: u32, x1: u32, y0: u32, y1: u32)
        requires
            old(self).wf(),
        ensures
            final(self).wf(),
            final(self).width == old(self).width,
            final(self).height == old(self).height,
            forall|x: int, y: int|
                old(self).in_bounds(x, y) ==> #[trigger] final(self).tile_at(x, y) == (if x0 <= x < x1
                    && y0 <= y < y1 {
                    revealed(old(self).tile_at(x, y))
                } else {
                    old(self).tile_at(x, y)
                }),
    {
        self.touch_rect(x0, x1, y0, y1, true, TileKind::Grass);
    }

    /// Lifts the fog of war from the disc of `radius_tiles` tiles around tile
    /// `(cx, cy)`, boundary included. Does nothing when `(cx, cy)` is
    /// outside the map.
    pub fn reveal_circle(&mut self, cx: u32, cy: u32, radius_tiles: u32)
        requires
            old(self).wf(),
            radius_tiles <= 32767,
            cx + radius_tiles <= i32::MAX,
            cy + radius_tiles <= i32::MAX,
        ensures
            final(self).wf(),
            final(self).width == old(self).width,
            final(self).height == old(self).height,
            forall|x: int, y: int|
                old(self).in_bounds(x, y) ==> #[trigger] final(self).tile_at(x, y) == (if old(self).in_bounds(
                    cx as int,
                    cy as int,
                ) && in_disc(cx as int, cy as int, radius_tiles as int, x, y) {
                    revealed(old(self).tile_at(x, y))
                } else {
                    old(self).tile_at(x, y)
                }),
    {
        if !(cx < self.width && cy < self.height) {
            return;
        }
        let ghost start = *self;
        let r = radius_tiles as i32;
        assert(0 <= r * r <= 32767 * 32767) by (nonlinear_arith)
            requires
                0 <= r <= 32767,
        ;
        let r2 = r * r;
        proof {
            assert forall|x: int, y: int| in_disc(cx as int, cy as int, r as int, x, y) implies -r <= x - cx
                <= r && -r <= y - cy <= r by {
                lemma_disc_bounds(cx as int, cy as int, r as int, x, y);
            }
        }
        let mut dy: i32 = -r;
        while dy <= r
            invariant
                self.wf(),
                self.width == start.width,
                self.height == start.height,
                start.in_bounds(cx as int, cy as int),
                r == radius_tiles,
                r2 == r * r,
                0 <= r <= 32767,
                cx + r <= i32::MAX,
                cy + r <= i32::MAX,
                -r <= dy <= r + 1,
                forall|x: int, y: int|
                    start.in_bounds(x, y) ==> #[trigger] self.tile_at(x, y) == (if in_disc(
                        cx as int,
                        cy as int,
                        r as int,
                        x,
                        y,
                    ) && y - cy < dy {
                        revealed(start.tile_at(x, y))
                    } else {
                        start.tile_at(x, y)
                    }),
            decreases r + 1 - dy,
        {
            let mut dx: i32 = -r;
            proof {
                assert forall|x: int, y: int| in_disc(cx as int, cy as int, r as int, x, y) implies -r <= x - cx
                    <= r && -r <= y - cy <= r by {
                    lemma_disc_bounds(cx as int, cy as int, r as int, x, y);
                }
            }
            while dx <= r
                invariant
                    self.wf(),
                    self.width == start.width,
                    self.height == start.height,
                    r == radius_tiles,
                    r2 == r * r,
                    0 <= r <= 32767,
                    cx + r <= i32::MAX,
                    cy + r <= i32::MAX,
                    -r <= dy <= r,
                    -r <= dx <= r + 1,
                    forall|x: int, y: int|
                        start.in_bounds(x, y) ==> #[trigger] self.tile_at(x, y) == (if in_disc(
                            cx as int,
                            cy as int,
                            r as int,
                            x,
                            y,
                        ) && (y - cy < dy || (y - cy == dy && x - cx < dx)) {
                            revealed(start.tile_at(x, y))
                        } else {
                            start.tile_at(x, y)
                        }),
                decreases r + 1 - dx,
            {
                assert(0 <= dx * dx <= r * r && 0 <= dy * dy <= r * r) by (nonlinear_arith)
                    requires
                        -r <= dx <= r,
                        -r <= dy <= r,
                ;
                assert(r * r <= 32767 * 32767) by (nonlinear_arith)
                    requires
                        0 <= r <= 32767,
                ;
                if dx * dx + dy * dy <= r2 {
                    let tx = cx as i32 + dx;
                    let ty = cy as i32 + dy;
                    if tx >= 0 && ty >= 0 {
                        self.touch(tx as u32, ty as u32, true, TileKind::Grass);
                    }
                }
                dx = dx + 1;
            }
            proof {
                assert forall|x: int, y: int| start.in_bounds(x, y) implies #[trigger] self.tile_at(x, y) == (
                if in_disc(cx as int, cy as int, r as int, x, y) && y - cy < dy + 1 {
                    revealed(start.tile_at(x, y))
                } else {
                    start.tile_at(x, y)
                }) by {
                    if in_disc(cx as int, cy as int, r as int, x, y) && y - cy == dy {
                        let ddx = x - cx;
                        let ddy = y - cy;
                        assert(ddx <= r) by (nonlinear_arith)
                            requires
                                ddx * ddx + ddy * ddy <= r * r,
                                0 <= r,
                        ;
                    }
                }
            }
            dy = dy + 1;
        }
        proof {
            assert forall|x: int, y: int| start.in_bounds(x, y) implies #[trigger] self.tile_at(x, y) == (
            if in_disc(cx as int, cy as int, r as int, x, y) {
                revealed(start.tile_at(x, y))
            } else {
                start.tile_at(x, y)
            }) by {
                if in_disc(cx as int, cy as int, r as int, x, y) {
                    let ddx = x - cx;
                    let ddy = y - cy;
                    assert(ddy <= r) by (nonlinear_arith)
                        requires
                            ddx * ddx + ddy * ddy <= r * r,
                            0 <= r,
                    ;
                }
            }
        }
    }

    /// Sets the kind of the tile at `(x, y)`; does nothing outside the map.
    pub fn set(&mut self, x: u32, y: u32, kind: TileKind)
        requires
            old(self).wf(),
        ensures
            final(self).wf(),
            final(self).width == old(self).width,
            final(self).height == old(self).height,
            final(self)@ == (if old(self).in_bounds(x as int, y as int) {
                old(self)@.update(
                    cell_index(x as int, y as int, old(self).width as int),
                    Tile { kind, ..old(self).tile_at(x as int, y as int) },
                )
            } else {
                old(self)@
            }),
    {
        if x < self.width && y < self.height {
            proof {
                lemma_cell_index_bounds(x as int, y as int, self.width as int, self.height as int);
            }
        }
        if let Some(t) = self.get_mut(x, y) {
            t.kind = kind;
        }
    }
}

/// What a read gives back after a write: once `set` has put `kind` at
/// `(x, y)` (`n` is the map after the write), that cell holds it, with the
/// rest of its state kept, and every other cell holds what it held.
pub proof fn law_set_then_get(m: TileMap, n: TileMap, x: int, y: int, kind: TileKind, x2: int, y2: int)
    requires
        m.wf(),
        m.in_bounds(x, y),
        m.in_bounds(x2, y2),
        n.width == m.width,
        n.height == m.height,
        n@ == m@.update(cell_index(x, y, m.width as int), Tile { kind, ..m.tile_at(x, y) }),
    ensures
        n.tile_at(x2, y2) == (if x2 == x && y2 == y {
            Tile { kind, ..m.tile_at(x, y) }
        } else {
            m.tile_at(x2, y2)
        }),
{
    lemma_cell_index_bounds(x, y, m.width as int, m.height as int);
    lemma_cell_index_bounds(x2, y2, m.width as int, m.height as int);
    if !(x2 == x && y2 == y) && cell_index(x2, y2, m.width as int) == cell_index(x, y, m.width as int) {
        lemma_cell_index_injective(x2, y2, x, y, m.width as int);
    }
}

} // verus!
