//! Server-side components without rendering data, and the server's terrain map.
use vstd::prelude::*;

use crate::grid::{cell_index, lemma_cell_index_bounds, lemma_cell_index_injective, lemma_cell_of_index};

verus! {

/// Team of an entity: 0 is the first player.
pub struct Team(pub u8);

/// Hit points of an entity.
pub struct Health {
    pub current: i32,
    pub max: i32,
}

impl Health {
    /// Full health.
    pub fn new(max: i32) -> (h: Health)
        ensures
            h.current == max,
            h.max == max,
    {
        Health { current: max, max }
    }

    /// Alive while some hit points remain.
    pub fn is_alive(&self) -> (r: bool)
        ensures
            r == (self.current > 0),
    {
        self.current > 0
    }
}

/// Kind of an entity: a key into the unit definitions of the scripts.
pub struct UnitKindId(pub String);

/// The training orders of a building: the unit in training and the units
/// waiting, first come first served. The time left on the unit in training
/// and the rally point live beside it, with the game world.
#[derive(Debug)]
pub struct ProductionQueue {
    pub current: Option<String>,
    /// How many units may wait.
    pub capacity: usize,
    pub queue: Vec<String>,
}

/// What became of a training order.
#[derive(Clone, Copy, Debug, PartialEq, Eq, Structural)]
pub enum TrainResult {
    /// Nothing was in training: the unit starts now.
    Started,
    /// The unit waits at the end of the queue.
    Queued,
    /// The queue is full: the order is dropped.
    Refused,
}

impl ProductionQueue {
    /// An idle building whose queue holds up to `cap` units.
    pub fn new(cap: usize) -> (r: ProductionQueue)
        ensures
            r.current is None,
            r.capacity == cap,
            r.queue@.len() == 0,
    {
        ProductionQueue { current: None, capacity: cap, queue: Vec::new() }
    }

    /// Puts `kind` at the end of the queue if there is room; says whether it did.
    pub fn enqueue(&mut self, kind: String) -> (r: bool)
        ensures
            old(self).queue@.len() <= old(self).capacity ==> final(self).queue@.len() <= final(self).capacity,
            r == (old(self).queue@.len() < old(self).capacity),
            r ==> final(self).queue@ == old(self).queue@.push(kind),
            !r ==> final(self).queue@ == old(self).queue@,
            final(self).current == old(self).current,
            final(self).capacity == old(self).capacity,
    {
        if self.queue.len() < self.capacity {
            self.queue.push(kind);
            true
        } else {
            false
        }
    }

    /// A training order: starts `kind` when nothing is in training, else
    /// queues it.
    pub fn train(&mut self, kind: String) -> (r: TrainResult)
        ensures
            old(self).queue@.len() <= old(self).capacity ==> final(self).queue@.len() <= final(self).capacity,
            final(self).capacity == old(self).capacity,
            old(self).current is None ==> r == TrainResult::Started && final(self).current == Some(kind)
                && final(self).queue@ == old(self).queue@,
            old(self).current is Some ==> final(self).current == old(self).current && if old(self).queue@.len()
                < old(self).capacity {
                r == TrainResult::Queued && final(self).queue@ == old(self).queue@.push(kind)
            } else {
                r == TrainResult::Refused && final(self).queue@ == old(self).queue@
            },
    {
        if self.current.is_none() {
            self.current = Some(kind);
            TrainResult::Started
        } else if self.enqueue(kind) {
            TrainResult::Queued
        } else {
            TrainResult::Refused
        }
    }

    /// Drops the unit in training; the queue stays.
    pub fn cancel(&mut self)
        ensures
            final(self).current is None,
            final(self).queue@ == old(self).queue@,
            final(self).capacity == old(self).capacity,
    {
        self.current = None;
    }

    /// When nothing is in training and a unit waits, the first waiting unit
    /// starts. Says whether one did.
    pub fn advance(&mut self) -> (r: bool)
        ensures
            old(self).queue@.len() <= old(self).capacity ==> final(self).queue@.len() <= final(self).capacity,
            r == (old(self).current is None && old(self).queue@.len() > 0),
            r ==> final(self).current == Some(old(self).queue@[0]) && final(self).queue@ == old(
                self,
            ).queue@.drop_first(),
            !r ==> final(self).current == old(self).current && final(self).queue@ == old(self).queue@,
            final(self).capacity == old(self).capacity,
    {
        if self.current.is_none() && self.queue.len() > 0 {
            let next = self.queue.remove(0);
            self.current = Some(next);
            true
        } else {
            false
        }
    }
}

/// Kind of a terrain tile.
#[derive(Clone, Copy, Debug, PartialEq, Eq, Structural)]
pub enum TileKind {
    Grass,
    Dirt,
    Water,
    DeepWater,
    Forest,
    Rock,
    Sand,
    Bridge,
}

/// Wire code of a tile kind: 0 Grass, 1 Dirt, 2 Water, 3 DeepWater, 4 Forest,
/// 5 Rock, 6 Sand, 7 Bridge.
pub open spec fn spec_to_byte(kind: TileKind) -> u8 {
    match kind {
        TileKind::Grass => 0,
        TileKind::Dirt => 1,
        TileKind::Water => 2,
        TileKind::DeepWater => 3,
        TileKind::Forest => 4,
        TileKind::Rock => 5,
        TileKind::Sand => 6,
        TileKind::Bridge => 7,
    }
}

impl TileKind {
    pub fn to_byte(self) -> (b: u8)
        ensures
            b == spec_to_byte(self),
    {
        match self {
            TileKind::Grass => 0,
            TileKind::Dirt => 1,
            TileKind::Water => 2,
            TileKind::DeepWater => 3,
            TileKind::Forest => 4,
            TileKind::Rock => 5,
            TileKind::Sand => 6,
            TileKind::Bridge => 7,
        }
    }
}

/// Rectangular terrain map, stored row by row.
pub struct TileMap {
    pub width: u32,
    pub height: u32,
    /// The tiles, row by row: cell `(x, y)` is at `y * width + x`.
    pub tiles: Vec<TileKind>,
}

impl View for TileMap {
    type V = Seq<TileKind>;

    open spec fn view(&self) -> Seq<TileKind> {
        self.tiles@
    }
}

impl TileMap {
    /// One tile per cell, and a cell count that fits in `u32`.
    pub open spec fn wf(&self) -> bool {
        &&& self@.len() == self.width * self.height
        &&& self.width * self.height <= u32::MAX
    }

    pub open spec fn in_bounds(&self, x: int, y: int) -> bool {
        0 <= x < self.width && 0 <= y < self.height
    }

    /// The tile of cell `(x, y)`.
    pub open spec fn tile_at(&self, x: int, y: int) -> TileKind {
        self@[cell_index(x, y, self.width as int)]
    }

    /// A map of the given size filled with `kind`.
    pub fn new_filled(w: u32, h: u32, kind: TileKind) -> (m: TileMap)
        requires
            w * h <= u32::MAX,
        ensures
            m.wf(),
            m.width == w,
            m.height == h,
            forall|i: int| 0 <= i < m@.len() ==> #[trigger] m@[i] == kind,
    {
        let tiles = vec![kind; (w * h) as usize];
        TileMap { width: w, height: h, tiles }
    }

    /// The tile of `(x, y)`, or `None` outside the map.
    pub fn get(&self, x: u32, y: u32) -> (r: Option<TileKind>)
        requires
            self.wf(),
        ensures
            r == (if self.in_bounds(x as int, y as int) {
                Some(self.tile_at(x as int, y as int))
            } else {
                None
            }),
    {
        if x < self.width && y < self.height {
            proof {
                lemma_cell_index_bounds(x as int, y as int, self.width as int, self.height as int);
            }
            Some(self.tiles[(y * self.width + x) as usize])
        } else {
            None
        }
    }

    /// Sets the tile at `(x, y)`; does nothing outside the map.
    pub fn set(&mut self, x: u32, y: u32, kind: TileKind)
        requires
            old(self).wf(),
        ensures
            final(self).wf(),
            final(self).width == old(self).width,
            final(self).height == old(self).height,
            final(self)@ == (if old(self).in_bounds(x as int, y as int) {
                old(self)@.update(cell_index(x as int, y as int, old(self).width as int), kind)
            } else {
                old(self)@
            }),
    {
        if x < self.width && y < self.height {
            proof {
                lemma_cell_index_bounds(x as int, y as int, self.width as int, self.height as int);
            }
            self.tiles.set((y * self.width + x) as usize, kind);
        }
    }

    /// Sets every cell with `x0 <= x < x1` and `y0 <= y < y1` to `kind`
    /// (the part of the rectangle inside the map).
    pub fn fill_rect(&mut self, x0: u32, x1: u32, y0: u32, y1: u32, kind: TileKind)
        requires
            old(self).wf(),
        ensures
            final(self).wf(),
            final(self).width == old(self).width,
            final(self).height == old(self).height,
            forall|x: int, y: int|
                old(self).in_bounds(x, y) ==> #[trigger] final(self).tile_at(x, y) == (if x0 <= x < x1
                    && y0 <= y < y1 {
                    kind
                } else {
                    old(self).tile_at(x, y)
                }),
    {
        let ghost start = *self;
        let mut y = y0;
        while y < y1
            invariant
                self.wf(),
                self.width == start.width,
                self.height == start.height,
                (y0 <= y && y <= y1) || (y1 < y0 && y == y0),
                forall|x: int, yy: int|
                    start.in_bounds(x, yy) ==> #[trigger] self.tile_at(x, yy) == (if x0 <= x < x1 && y0
                        <= yy < y {
                        kind
                    } else {
                        start.tile_at(x, yy)
                    }),
            decreases y1 - y,
        {
            let mut x = x0;
            while x < x1
                invariant
                    self.wf(),
                    self.width == start.width,
                    self.height == start.height,
                    y0 <= y < y1,
                    (x0 <= x && x <= x1) || (x1 < x0 && x == x0),
                    forall|xx: int, yy: int|
                        start.in_bounds(xx, yy) ==> #[trigger] self.tile_at(xx, yy) == (if (x0 <= xx < x1
                            && y0 <= yy < y) || (x0 <= xx < x && yy == y) {
                            kind
                        } else {
                            start.tile_at(xx, yy)
                        }),
                decreases x1 - x,
            {
                let ghost before = *self;
                self.set(x, y, kind);
                proof {
                    assert forall|xx: int, yy: int| start.in_bounds(xx, yy) implies #[trigger] self.tile_at(xx, yy)
                        == (if (x0 <= xx < x1 && y0 <= yy < y) || (x0 <= xx < x + 1 && yy == y) {
                        kind
                    } else {
                        start.tile_at(xx, yy)
                    }) by {
                        lemma_cell_index_bounds(xx, yy, start.width as int, start.height as int);
                        if before.in_bounds(x as int, y as int) {
                            lemma_cell_index_bounds(x as int, y as int, start.width as int, start.height as int);
                            if xx != x || yy != y {
                                assert(cell_index(xx, yy, start.width as int) != cell_index(x as int, y as int, start.width as int)) by {
                                    if cell_index(xx, yy, start.width as int) == cell_index(x as int, y as int, start.width as int) {
                                        lemma_cell_index_injective(xx, yy, x as int, y as int, start.width as int);
                                    }
                                }
                            }
                        }
                        assert(self.tile_at(xx, yy) == before.tile_at(xx, yy) || (xx == x && yy == y));
                    }
                }
                x = x + 1;
            }
            proof {
                assert forall|xx: int, yy: int| start.in_bounds(xx, yy) implies #[trigger] self.tile_at(xx, yy)
                    == (if x0 <= xx < x1 && y0 <= yy < y + 1 {
                    kind
                } else {
                    start.tile_at(xx, yy)
                }) by {
                    if xx >= x1 && yy == y {
                    }
                }
            }
            y = y + 1;
        }
    }
}

/// What a read gives back after a write: once `set` has put `kind` at
/// `(x, y)` (`n` is the map after the write), that cell holds it, with the
/// rest of its state kept, and every other cell holds what it held.
pub proof fn law_set_then_get(m: TileMap, n: TileMap, x: int, y: int, kind: TileKind, x2: int, y2: int)
    requires
        m.wf(),
        m.in_bounds(x, y),
        m.in_bounds(x2, y2),
        n.width == m.width,
        n.height == m.height,
        n@ == m@.update(cell_index(x, y, m.width as int), kind),
    ensures
        n.tile_at(x2, y2) == (if x2 == x && y2 == y {
            kind
        } else {
            m.tile_at(x2, y2)
        }),
{
    lemma_cell_index_bounds(x, y, m.width as int, m.height as int);
    lemma_cell_index_bounds(x2, y2, m.width as int, m.height as int);
    if !(x2 == x && y2 == y) && cell_index(x2, y2, m.width as int) == cell_index(x, y, m.width as int) {
        lemma_cell_index_injective(x2, y2, x, y, m.width as int);
    }
}

} // verus!
