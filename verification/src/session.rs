//! Rules of the server's game session that do not depend on positions:
//! the arena map, its wire form, the end of a game and production times.
use vstd::prelude::*;
use vstd::multiset::Multiset;

use crate::world::{spec_to_byte, Health, Team, TileKind, TileMap};
use crate::grid::{cell_index, lemma_cell_index_bounds, lemma_cell_of_index};
use crate::text::str_eq;
use crate::defs::{unit_table, UnitKind};

verus! {

/// Ticks per second of the session.
pub const TICK_RATE: u8 = 20;

/// Width and height of the arena, in tiles.
pub const ARENA_SIZE: u32 = 64;

/// The game session of a lobby; it runs on a thread of its own.
pub struct GameSession;

pub open spec fn in_rect(x: int, y: int, x0: int, x1: int, y0: int, y1: int) -> bool {
    x0 <= x < x1 && y0 <= y < y1
}

/// The arena that every game is played on (64 x 64 tiles), feature by
/// feature; a feature listed earlier lies on top of the ones below it.
pub open spec fn arena_kind(x: int, y: int) -> TileKind {
    // Decorative dirt by both bases.
    if (x == 10 && y == 10) || (x == 11 && y == 10) || (x == 10 && y == 11) || (x == 53 && y == 53)
        || (x == 52 && y == 53) || (x == 53 && y == 52) {
        TileKind::Dirt
    // Woods between the passes.
    } else if in_rect(x, y, 18, 26, 22, 27) || in_rect(x, y, 38, 46, 37, 42) {
        TileKind::Forest
    // Two bridges on each side of the rock wall.
    } else if in_rect(x, y, 12, 14, 32, 35) || in_rect(x, y, 50, 52, 32, 35) {
        TileKind::Bridge
    // The river, left and right of the rock wall: deep in the middle row.
    } else if (in_rect(x, y, 0, 28, 33, 34) || in_rect(x, y, 36, 64, 33, 34)) {
        TileKind::DeepWater
    } else if in_rect(x, y, 0, 28, 32, 35) || in_rect(x, y, 36, 64, 32, 35) {
        TileKind::Water
    // The rock wall across the middle, with passes at rows 27..=30 and 36..=39.
    } else if in_rect(x, y, 28, 36, 20, 44) && !(27 <= y <= 30) && !(36 <= y <= 39) {
        TileKind::Rock
    // Rocks beside the bases.
    } else if in_rect(x, y, 62, 64, 51, 55) {
        TileKind::Rock
    } else if in_rect(x, y, 40, 50, 58, 64) || in_rect(x, y, 58, 64, 40, 50) {
        TileKind::Forest
    } else if in_rect(x, y, 0, 2, 9, 13) {
        TileKind::Rock
    // Woods behind the bases.
    } else if in_rect(x, y, 14, 24, 0, 6) || in_rect(x, y, 0, 6, 14, 24) {
        TileKind::Forest
    } else {
        TileKind::Grass
    }
}

/// `m` is the arena: the map `build_map` returns.
pub open spec fn is_arena(m: TileMap) -> bool {
    &&& m.wf()
    &&& m.width == 64
    &&& m.height == 64
    &&& forall|x: int, y: int| 0 <= x < 64 && 0 <= y < 64 ==> #[trigger] m.tile_at(x, y) == arena_kind(x, y)
}

/// Ground units can stand on a tile of kind `k`: not water, deep water or
/// rock.
pub open spec fn walkable(k: TileKind) -> bool {
    !(k == TileKind::Water || k == TileKind::DeepWater || k == TileKind::Rock)
}

/// Cells `a` and `b` share a side.
pub open spec fn adjacent(a: (int, int), b: (int, int)) -> bool {
    ||| a.0 == b.0 && (a.1 - b.1 == 1 || b.1 - a.1 == 1)
    ||| a.1 == b.1 && (a.0 - b.0 == 1 || b.0 - a.0 == 1)
}

/// `p` is a walk over walkable cells of `m`, each step to a neighbouring cell.
pub open spec fn walk_on(m: TileMap, p: Seq<(int, int)>) -> bool {
    &&& p.len() > 0
    &&& forall|i: int| 0 <= i < p.len() ==> m.in_bounds(#[trigger] p[i].0, p[i].1) && walkable(m.tile_at(p[i].0, p[i].1))
    &&& forall|i: int| 0 <= i < p.len() - 1 ==> adjacent(#[trigger] p[i], p[i + 1])
}

/// A way between the two bases: east from (6, 6) to column 12, south down
/// that column over the western bridge, then east along row 54 to (54, 54).
pub open spec fn arena_route() -> Seq<(int, int)> {
    Seq::new(
        97,
        |i: int|
            if i <= 6 {
                (6 + i, 6)
            } else if i <= 54 {
                (12, i)
            } else {
                (i - 42, 54)
            },
    )
}

/// The map does not depend on its id: any two maps that `build_map` may
/// return hold the same tiles.
pub proof fn law_arena_ignores_id(m1: TileMap, m2: TileMap)
    requires
        is_arena(m1),
        is_arena(m2),
    ensures
        m1@ == m2@,
        m1.width == m2.width && m1.height == m2.height,
{
    assert forall|i: int| 0 <= i < m1@.len() implies m1@[i] == m2@[i] by {
        lemma_cell_of_index(i, 64, 64);
        assert(m1.tile_at(i % 64, i / 64) == m2.tile_at(i % 64, i / 64));
    }
    assert(m1@ =~= m2@);
}

/// The two bases of the arena are joined by a walk that ground units can
/// take: the river is crossed on a bridge and no rock is in the way.
pub proof fn law_arena_bases_connected(m: TileMap)
    requires
        is_arena(m),
    ensures
        exists|p: Seq<(int, int)>| walk_on(m, p) && p[0] == (6int, 6int) && #[trigger] p.last() == (54int, 54int),
{
    let p = arena_route();
    assert forall|i: int| 0 <= i < p.len() implies m.in_bounds(#[trigger] p[i].0, p[i].1) && walkable(
        m.tile_at(p[i].0, p[i].1),
    ) by {
        assert(m.tile_at(p[i].0, p[i].1) == arena_kind(p[i].0, p[i].1));
    }
    assert forall|i: int| 0 <= i < p.len() - 1 implies adjacent(#[trigger] p[i], p[i + 1]) by {}
    assert(p[0] == (6int, 6int));
    assert(p.last() == (54int, 54int));
    assert(walk_on(m, p));
}

/// Builds the arena map. Every map id gives the same arena.
pub fn build_map(_map_id: &str) -> (m: TileMap)
    ensures
        m.wf(),
        m.width == 64,
        m.height == 64,
        forall|x: int, y: int| 0 <= x < 64 && 0 <= y < 64 ==> #[trigger] m.tile_at(x, y) == arena_kind(x, y),
        is_arena(m),
{
    let w = 64u32;
    let h = 64u32;
    let mut map = TileMap::new_filled(w, h, TileKind::Grass);
    let ghost m0 = map;
    proof {
        assert forall|x: int, y: int| 0 <= x < 64 && 0 <= y < 64 implies #[trigger] m0.tile_at(x, y)
            == TileKind::Grass by {
            lemma_cell_index_bounds(x, y, 64, 64);
        }
    }
    // Woods behind the base of team 0, and rocks beside it.
    map.fill_rect(14, 24, 0, 6, TileKind::Forest);
    map.fill_rect(0, 6, 14, 24, TileKind::Forest);
    map.fill_rect(0, 2, 9, 13, TileKind::Rock);
    let ghost m1 = map;
    assert forall|x: int, y: int| 0 <= x < 64 && 0 <= y < 64 implies #[trigger] m1.tile_at(x, y) == (
    if in_rect(x, y, 0, 2, 9, 13) {
        TileKind::Rock
    } else if in_rect(x, y, 14, 24, 0, 6) || in_rect(x, y, 0, 6, 14, 24) {
        TileKind::Forest
    } else {
        TileKind::Grass
    }) by {}
    // Woods behind the base of team 1, and rocks beside it.
    map.fill_rect(40, 50, 58, 64, TileKind::Forest);
    map.fill_rect(58, 64, 40, 50, TileKind::Forest);
    map.fill_rect(62, 64, 51, 55, TileKind::Rock);
    let ghost m2 = map;
    assert forall|x: int, y: int| 0 <= x < 64 && 0 <= y < 64 implies #[trigger] m2.tile_at(x, y) == (
    if in_rect(x, y, 62, 64, 51, 55) {
        TileKind::Rock
    } else if in_rect(x, y, 40, 50, 58, 64) || in_rect(x, y, 58, 64, 40, 50) {
        TileKind::Forest
    } else {
        m1.tile_at(x, y)
    }) by {}
    // The rock wall across the middle, with two passes.
    map.fill_rect(28, 36, 20, 27, TileKind::Rock);
    map.fill_rect(28, 36, 31, 36, TileKind::Rock);
    map.fill_rect(28, 36, 40, 44, TileKind::Rock);
    let ghost m3 = map;
    assert forall|x: int, y: int| 0 <= x < 64 && 0 <= y < 64 implies #[trigger] m3.tile_at(x, y) == (
    if in_rect(x, y, 28, 36, 20, 44) && !(27 <= y <= 30) && !(36 <= y <= 39) {
        TileKind::Rock
    } else {
        m2.tile_at(x, y)
    }) by {}
    // The river, left and right of the wall.
    map.fill_rect(0, 28, 32, 33, TileKind::Water);
    map.fill_rect(0, 28, 33, 34, TileKind::DeepWater);
    map.fill_rect(0, 28, 34, 35, TileKind::Water);
    map.fill_rect(36, 64, 32, 33, TileKind::Water);
    map.fill_rect(36, 64, 33, 34, TileKind::DeepWater);
    map.fill_rect(36, 64, 34, 35, TileKind::Water);
    let ghost m4 = map;
    assert forall|x: int, y: int| 0 <= x < 64 && 0 <= y < 64 implies #[trigger] m4.tile_at(x, y) == (
    if in_rect(x, y, 0, 28, 33, 34) || in_rect(x, y, 36, 64, 33, 34) {
        TileKind::DeepWater
    } else if in_rect(x, y, 0, 28, 32, 35) || in_rect(x, y, 36, 64, 32, 35) {
        TileKind::Water
    } else {
        m3.tile_at(x, y)
    }) by {}
    // Bridges.
    map.fill_rect(12, 14, 32, 35, TileKind::Bridge);
    map.fill_rect(50, 52, 32, 35, TileKind::Bridge);
    // Woods between the passes.
    map.fill_rect(18, 26, 22, 27, TileKind::Forest);
    map.fill_rect(38, 46, 37, 42, TileKind::Forest);
    let ghost m5 = map;
    assert forall|x: int, y: int| 0 <= x < 64 && 0 <= y < 64 implies #[trigger] m5.tile_at(x, y) == (
    if in_rect(x, y, 18, 26, 22, 27) || in_rect(x, y, 38, 46, 37, 42) {
        TileKind::Forest
    } else if in_rect(x, y, 12, 14, 32, 35) || in_rect(x, y, 50, 52, 32, 35) {
        TileKind::Bridge
    } else {
        m4.tile_at(x, y)
    }) by {}
    // Decorative dirt.
    map.set(10, 10, TileKind::Dirt);
    map.set(11, 10, TileKind::Dirt);
    map.set(10, 11, TileKind::Dirt);
    map.set(53, 53, TileKind::Dirt);
    map.set(52, 53, TileKind::Dirt);
    map.set(53, 52, TileKind::Dirt);
    proof {
        assert(map@ == m5@.update(650, TileKind::Dirt).update(651, TileKind::Dirt).update(
            714,
            TileKind::Dirt,
        ).update(3445, TileKind::Dirt).update(3444, TileKind::Dirt).update(3381, TileKind::Dirt));
        assert forall|x: int, y: int| 0 <= x < 64 && 0 <= y < 64 implies #[trigger] map.tile_at(x, y)
            == arena_kind(x, y) by {
            lemma_cell_index_bounds(x, y, 64, 64);
            let i = cell_index(x, y, 64);
            assert(m5@.len() == 4096);
            assert(0 <= i < 4096);
            assert(map@[i] == (if i == 650 || i == 651 || i == 714 || i == 3445 || i == 3444 || i
                == 3381 {
                TileKind::Dirt
            } else {
                m5@[i]
            }));
            assert(m5@[i] == m5.tile_at(x, y));
            assert(m4.tile_at(x, y) == m4.tile_at(x, y));
            assert(m3.tile_at(x, y) == m3.tile_at(x, y));
            assert(m2.tile_at(x, y) == m2.tile_at(x, y));
            assert(m1.tile_at(x, y) == m1.tile_at(x, y));
            assert((i == 10 * 64 + 10) == (x == 10 && y == 10)) by (nonlinear_arith)
                requires 0 <= x < 64, 0 <= y < 64, i == y * 64 + x;
            assert((i == 10 * 64 + 11) == (x == 11 && y == 10)) by (nonlinear_arith)
                requires 0 <= x < 64, 0 <= y < 64, i == y * 64 + x;
            assert((i == 11 * 64 + 10) == (x == 10 && y == 11)) by (nonlinear_arith)
                requires 0 <= x < 64, 0 <= y < 64, i == y * 64 + x;
            assert((i == 53 * 64 + 53) == (x == 53 && y == 53)) by (nonlinear_arith)
                requires 0 <= x < 64, 0 <= y < 64, i == y * 64 + x;
            assert((i == 53 * 64 + 52) == (x == 52 && y == 53)) by (nonlinear_arith)
                requires 0 <= x < 64, 0 <= y < 64, i == y * 64 + x;
            assert((i == 52 * 64 + 53) == (x == 53 && y == 52)) by (nonlinear_arith)
                requires 0 <= x < 64, 0 <= y < 64, i == y * 64 + x;
        }
    }
    map
}

/// The map in wire form: one byte per tile (see `spec_to_byte`), row by row.
pub fn tile_bytes(map: &TileMap) -> (r: Vec<u8>)
    requires
        map.wf(),
    ensures
        r@.len() == map@.len(),
        forall|i: int| 0 <= i < r@.len() ==> #[trigger] r@[i] == spec_to_byte(map@[i]),
{
    let mut out: Vec<u8> = Vec::new();
    let mut y: u32 = 0;
    while y < map.height
        invariant
            map.wf(),
            y <= map.height,
            out@.len() == y * map.width,
            forall|j: int| 0 <= j < out@.len() ==> #[trigger] out@[j] == spec_to_byte(map@[j]),
        decreases map.height - y,
    {
        let mut x: u32 = 0;
        while x < map.width
            invariant
                map.wf(),
                y < map.height,
                x <= map.width,
                out@.len() == y * map.width + x,
                forall|j: int| 0 <= j < out@.len() ==> #[trigger] out@[j] == spec_to_byte(map@[j]),
            decreases map.width - x,
        {
            proof {
                lemma_cell_index_bounds(x as int, y as int, map.width as int, map.height as int);
            }
            let kind = match map.get(x, y) {
                Some(k) => k,
                None => TileKind::Grass,
            };
            out.push(kind.to_byte());
            x = x + 1;
        }
        assert((y + 1) * map.width == y * map.width + map.width) by (nonlinear_arith);
        y = y + 1;
    }
    assert(map.height * map.width == map.width * map.height) by (nonlinear_arith);
    out
}

/// Some unit of team `team` is alive (`units` holds (team, hit points)).
pub open spec fn team_alive(units: Seq<(u8, i32)>, team: u8) -> bool {
    exists|i: int| 0 <= i < units.len() && #[trigger] units[i].0 == team && units[i].1 > 0
}

/// The winner among units given as (team, hit points): the one team with
/// living units; team 0 when no unit lives; `None` while two teams live.
pub fn winner_of_units(units: &Vec<(u8, i32)>) -> (r: Option<u8>)
    ensures
        (forall|t: u8| !team_alive(units@, t)) ==> r == Some(0u8),
        forall|t: u8|
            #![trigger team_alive(units@, t)]
            team_alive(units@, t) && (forall|u: u8| team_alive(units@, u) ==> u == t) ==> r == Some(t),
        (exists|t: u8, u: u8| team_alive(units@, t) && team_alive(units@, u) && t != u) ==> r is None,
{
    let mut first: Option<u8> = None;
    let n = units.len();
    for i in 0..n
        invariant
            n == units@.len(),
            match first {
                None => forall|j: int| 0 <= j < i ==> !(#[trigger] units@[j].1 > 0),
                Some(t) => team_alive(units@, t) && forall|j: int|
                    0 <= j < i && #[trigger] units@[j].1 > 0 ==> units@[j].0 == t,
            },
    {
        let (team, hp) = units[i];
        if hp > 0 {
            match first {
                None => {
                    assert(team_alive(units@, team)) by {
                        assert(units@[i as int].0 == team);
                    }
                    first = Some(team);
                },
                Some(t) => {
                    if t != team {
                        assert(team_alive(units@, team)) by {
                            assert(units@[i as int].0 == team);
                        }
                        return None;
                    }
                },
            }
        }
    }
    match first {
        None => {
            assert forall|t: u8| !team_alive(units@, t) by {
                if team_alive(units@, t) {
                    let j = choose|j: int| 0 <= j < units@.len() && #[trigger] units@[j].0 == t && units@[j].1 > 0;
                }
            }
            Some(0)
        },
        Some(t) => {
            assert forall|u: u8| team_alive(units@, u) implies u == t by {
                let j = choose|j: int| 0 <= j < units@.len() && #[trigger] units@[j].0 == u && units@[j].1 > 0;
            }
            Some(t)
        },
    }
}

#[verifier::external_type_specification]
#[verifier::external_body]
pub struct ExWorld(hecs::World);

/// The (team, hit points) pairs of the entities of `world` that have both a
/// `Team` and a `Health`, one pair per entity.
pub uninterp spec fn world_team_health(world: hecs::World) -> Multiset<(u8, i32)>;

/// Runs the hecs query `(&Team, &Health)` over `world` with `query_mut`
/// (an exclusive borrow, so no borrow of a component can conflict) and
/// lists, for each entity it yields, its team and current hit points. The
/// contract claims that the list holds exactly the pairs named by
/// `world_team_health`, in some order, and that the world is left as it
/// was; the order in which hecs yields entities is left unsaid.
#[verifier::external_body]
fn query_team_health(world: &mut hecs::World) -> (r: Vec<(u8, i32)>)
    ensures
        r@.to_multiset() == world_team_health(*old(world)),
        *final(world) == *old(world),
{
    world.query_mut::<(&Team, &Health)>().into_iter().map(|(_, (t, h))| (t.0, h.current)).collect()
}

/// Some entity of team `team` in `units` has hit points left.
pub open spec fn team_alive_in(units: Multiset<(u8, i32)>, team: u8) -> bool {
    exists|hp: i32| hp > 0 && #[trigger] units.contains((team, hp))
}

pub proof fn lemma_team_alive_multiset(units: Seq<(u8, i32)>, team: u8)
    ensures
        team_alive(units, team) == team_alive_in(units.to_multiset(), team),
{
    broadcast use vstd::seq_lib::group_to_multiset_ensures;

    if team_alive(units, team) {
        let i = choose|i: int| 0 <= i < units.len() && #[trigger] units[i].0 == team && units[i].1 > 0;
        assert(units.contains(units[i]));
        assert(units.to_multiset().contains((team, units[i].1)));
    }
    if team_alive_in(units.to_multiset(), team) {
        let hp = choose|hp: i32| hp > 0 && #[trigger] units.to_multiset().contains((team, hp));
        assert(units.contains((team, hp)));
        let i = choose|i: int| 0 <= i < units.len() && units[i] == (team, hp);
        assert(units[i].0 == team && units[i].1 > 0);
    }
}

/// The winner of the game in `world`: the one team that still has a living
/// entity; team 0 when nothing lives; `None` while two teams live.
/// `_num_teams` is not consulted.
pub fn check_winner(world: &mut hecs::World, _num_teams: u8) -> (r: Option<u8>)
    ensures
        *final(world) == *old(world),
        (forall|t: u8| !team_alive_in(world_team_health(*old(world)), t)) ==> r == Some(0u8),
        forall|t: u8|
            #![trigger team_alive_in(world_team_health(*old(world)), t)]
            team_alive_in(world_team_health(*old(world)), t) && (forall|u: u8|
                team_alive_in(world_team_health(*old(world)), u) ==> u == t) ==> r == Some(t),
        (exists|t: u8, u: u8|
            team_alive_in(world_team_health(*old(world)), t) && team_alive_in(world_team_health(*old(world)), u) && t
                != u) ==> r is None,
{
    let ghost ms = world_team_health(*old(world));
    let units = query_team_health(world);
    proof {
        assert forall|t: u8| #[trigger] team_alive(units@, t) == team_alive_in(ms, t) by {
            lemma_team_alive_multiset(units@, t);
        }
        assert forall|t: u8| #[trigger] team_alive_in(ms, t) == team_alive(units@, t) by {
            lemma_team_alive_multiset(units@, t);
        }
    }
    winner_of_units(&units)
}

/// Production time of a unit kind, in whole seconds.
pub open spec fn spec_unit_build_time(kind_id: Seq<char>) -> u32 {
    if kind_id == "peasant"@ || kind_id == "peon"@ {
        15
    } else if kind_id == "footman"@ || kind_id == "grunt"@ {
        20
    } else if kind_id == "archer"@ || kind_id == "troll_axethrower"@ {
        20
    } else if kind_id == "knight"@ || kind_id == "ogre"@ {
        30
    } else if kind_id == "mage"@ || kind_id == "death_knight"@ {
        35
    } else if kind_id == "gryphon_rider"@ || kind_id == "dragon"@ {
        45
    } else {
        20
    }
}

/// Production time of a unit kind, in seconds.
pub fn unit_build_time(kind_id: &str) -> (r: u32)
    ensures
        r == spec_unit_build_time(kind_id@),
{
    if str_eq(kind_id, "peasant") || str_eq(kind_id, "peon") {
        15
    } else if str_eq(kind_id, "footman") || str_eq(kind_id, "grunt") {
        20
    } else if str_eq(kind_id, "archer") || str_eq(kind_id, "troll_axethrower") {
        20
    } else if str_eq(kind_id, "knight") || str_eq(kind_id, "ogre") {
        30
    } else if str_eq(kind_id, "mage") || str_eq(kind_id, "death_knight") {
        35
    } else if str_eq(kind_id, "gryphon_rider") || str_eq(kind_id, "dragon") {
        45
    } else {
        20
    }
}

} // verus!

verus! {

/// A snapshot of the world goes out every this many ticks.
pub const SNAPSHOT_EVERY: u64 = 5;

/// The session looks for a winner every this many ticks.
pub const WINNER_CHECK_EVERY: u64 = 100;

/// What the session does at a tick, besides running the systems.
#[derive(Clone, Copy, Debug, PartialEq, Eq, Structural)]
pub struct TickPlan {
    /// Number of the tick that runs now.
    pub tick: u64,
    /// Whether a snapshot is sent to the players at its end.
    pub send_snapshot: bool,
    /// Whether the session looks for a winner at its end.
    pub check_winner: bool,
}

/// The plan of the tick that follows tick `tick`.
pub fn next_tick(tick: u64) -> (r: TickPlan)
    requires
        tick < u64::MAX,
    ensures
        r.tick == tick + 1,
        r.send_snapshot == ((tick + 1) % (SNAPSHOT_EVERY as int) == 0),
        r.check_winner == ((tick + 1) % (WINNER_CHECK_EVERY as int) == 0),
{
    let t = tick + 1;
    TickPlan { tick: t, send_snapshot: t % SNAPSHOT_EVERY == 0, check_winner: t % WINNER_CHECK_EVERY == 0 }
}

/// The team of the player with id `client_id`: its position among the
/// session's players (taken modulo 256, as a team is a byte), or team 0 when
/// the client plays in no team.
pub fn team_of_client(player_ids: &[u64], client_id: u64) -> (r: u8)
    ensures
        forall|i: int|
            0 <= i < player_ids@.len() && #[trigger] player_ids@[i] == client_id && (forall|j: int|
                0 <= j < i ==> player_ids@[j] != client_id) ==> r as int == i % 256,
        (forall|i: int| 0 <= i < player_ids@.len() ==> #[trigger] player_ids@[i] != client_id) ==> r == 0,
{
    let n = player_ids.len();
    for i in 0..n
        invariant
            n == player_ids@.len(),
            forall|j: int| 0 <= j < i ==> #[trigger] player_ids@[j] != client_id,
    {
        if player_ids[i] == client_id {
            return (i % 256) as u8;
        }
    }
    0
}

/// The players a script event goes to: everyone for a negative target,
/// otherwise the first player whose id is the target, if any.
pub fn event_recipients(target: i64, player_ids: &[u64]) -> (r: Vec<u64>)
    ensures
        target < 0 ==> r@ == player_ids@,
        target >= 0 && player_ids@.contains(target as u64) ==> r@ == seq![target as u64],
        target >= 0 && !player_ids@.contains(target as u64) ==> r@.len() == 0,
{
    let mut out: Vec<u64> = Vec::new();
    if target < 0 {
        let n = player_ids.len();
        for i in 0..n
            invariant
                n == player_ids@.len(),
                out@ == player_ids@.take(i as int),
        {
            out.push(player_ids[i]);
            assert(player_ids@.take(i + 1) =~= player_ids@.take(i as int).push(player_ids@[i as int]));
        }
        assert(player_ids@.take(n as int) =~= player_ids@);
    } else {
        let id = target as u64;
        let n = player_ids.len();
        for i in 0..n
            invariant
                n == player_ids@.len(),
                target >= 0,
                id == target as u64,
                out@.len() == 0,
                forall|j: int| 0 <= j < i ==> #[trigger] player_ids@[j] != id,
        {
            if player_ids[i] == id {
                out.push(id);
                assert(out@ =~= seq![id]);
                assert(player_ids@.contains(id));
                return out;
            }
        }
    }
    out
}

/// Where the `index`-th unit of a move order goes, in tiles from the
/// ordered point: units stand in rows of five, the third unit of the second
/// row on the point itself.
pub fn formation_slot(index: usize) -> (r: (i32, i32))
    requires
        index <= i32::MAX,
    ensures
        r.0 == (index as int) % 5 - 2,
        r.1 == (index as int) / 5 - 1,
{
    let i = index as i32;
    (i % 5 - 2, i / 5 - 1)
}

/// Whether a player of team `team` may give an order to a unit whose team is
/// `unit_team` (`None` for a unit that belongs to no team).
pub fn may_command(unit_team: Option<u8>, team: u8) -> (r: bool)
    ensures
        r == match unit_team {
            Some(t) => t == team,
            None => true,
        },
{
    match unit_team {
        Some(t) => t == team,
        None => true,
    }
}

/// Ticks for which a unit's script stays silent after a move order.
pub const MOVE_OVERRIDE_TICKS: u32 = 100;

/// Ticks for which a unit's script stays silent after an attack order.
pub const ATTACK_OVERRIDE_TICKS: u32 = 200;

/// Ticks for which a unit's script stays silent after a stop order.
pub const STOP_OVERRIDE_TICKS: u32 = 40;

} // verus!

verus! {

/// The fighting statistics a unit of a kind is spawned with. Ranges are in
/// world pixels (0 for melee), the cooldown in milliseconds, the speed in
/// pixels per second; `ai` names the unit's script.
#[derive(Clone, Copy, Debug)]
pub struct UnitTemplate {
    pub hp: i32,
    pub damage: i32,
    pub pierce: i32,
    pub armor: i32,
    pub range: u32,
    pub cooldown_ms: u32,
    pub speed: u32,
    pub ai: &'static str,
    pub can_fly: bool,
}

pub open spec fn template(hp: i32, damage: i32, pierce: i32, armor: i32, range: u32, cooldown_ms: u32, speed: u32) -> (
    i32,
    i32,
    i32,
    i32,
    u32,
    u32,
    u32,
) {
    (hp, damage, pierce, armor, range, cooldown_ms, speed)
}

/// The statistics of a unit kind, as (hp, damage, pierce, armor, range,
/// cooldown, speed); an unknown kind fights as a peasant.
pub open spec fn spec_unit_stats(kind: Seq<char>) -> (i32, i32, i32, i32, u32, u32, u32) {
    if kind == "peasant"@ || kind == "peon"@ {
        template(30, 3, 0, 0, 0, 1500, 128)
    } else if kind == "footman"@ {
        template(60, 6, 3, 2, 0, 1000, 128)
    } else if kind == "archer"@ || kind == "troll_axethrower"@ {
        template(40, 4, 6, 0, 160, 1200, 128)
    } else if kind == "knight"@ {
        template(100, 10, 4, 5, 0, 1000, 192)
    } else if kind == "mage"@ {
        template(35, 0, 12, 0, 192, 2000, 96)
    } else if kind == "gryphon_rider"@ || kind == "dragon"@ {
        template(100, 16, 5, 5, 0, 1000, 384)
    } else if kind == "grunt"@ {
        template(70, 8, 2, 2, 0, 1000, 128)
    } else if kind == "ogre"@ {
        template(100, 10, 2, 5, 0, 1300, 96)
    } else if kind == "death_knight"@ {
        template(60, 0, 10, 2, 192, 2000, 96)
    } else {
        template(30, 3, 0, 0, 0, 1500, 128)
    }
}

/// The script of a unit kind: workers (and unknown kinds), ranged fighters
/// and melee fighters.
pub open spec fn spec_unit_ai(kind: Seq<char>) -> Seq<char> {
    if kind == "peasant"@ || kind == "peon"@ {
        "worker_ai"@
    } else if kind == "footman"@ {
        "melee_ai"@
    } else if kind == "archer"@ || kind == "troll_axethrower"@ {
        "ranged_ai"@
    } else if kind == "knight"@ {
        "melee_ai"@
    } else if kind == "mage"@ {
        "ranged_ai"@
    } else if kind == "gryphon_rider"@ || kind == "dragon"@ {
        "melee_ai"@
    } else if kind == "grunt"@ || kind == "ogre"@ {
        "melee_ai"@
    } else if kind == "death_knight"@ {
        "ranged_ai"@
    } else {
        "worker_ai"@
    }
}

/// The names by which the server knows unit kinds are pairwise different.
proof fn lemma_kind_ids_distinct()
    ensures
        "peasant"@ != "peon"@,
        "peasant"@ != "footman"@,
        "peasant"@ != "archer"@,
        "peasant"@ != "troll_axethrower"@,
        "peasant"@ != "knight"@,
        "peasant"@ != "mage"@,
        "peasant"@ != "gryphon_rider"@,
        "peasant"@ != "dragon"@,
        "peasant"@ != "grunt"@,
        "peasant"@ != "ogre"@,
        "peasant"@ != "death_knight"@,
        "peon"@ != "footman"@,
        "peon"@ != "archer"@,
        "peon"@ != "troll_axethrower"@,
        "peon"@ != "knight"@,
        "peon"@ != "mage"@,
        "peon"@ != "gryphon_rider"@,
        "peon"@ != "dragon"@,
        "peon"@ != "grunt"@,
        "peon"@ != "ogre"@,
        "peon"@ != "death_knight"@,
        "footman"@ != "archer"@,
        "footman"@ != "troll_axethrower"@,
        "footman"@ != "knight"@,
        "footman"@ != "mage"@,
        "footman"@ != "gryphon_rider"@,
        "footman"@ != "dragon"@,
        "footman"@ != "grunt"@,
        "footman"@ != "ogre"@,
        "footman"@ != "death_knight"@,
        "archer"@ != "troll_axethrower"@,
        "archer"@ != "knight"@,
        "archer"@ != "mage"@,
        "archer"@ != "gryphon_rider"@,
        "archer"@ != "dragon"@,
        "archer"@ != "grunt"@,
        "archer"@ != "ogre"@,
        "archer"@ != "death_knight"@,
        "troll_axethrower"@ != "knight"@,
        "troll_axethrower"@ != "mage"@,
        "troll_axethrower"@ != "gryphon_rider"@,
        "troll_axethrower"@ != "dragon"@,
        "troll_axethrower"@ != "grunt"@,
        "troll_axethrower"@ != "ogre"@,
        "troll_axethrower"@ != "death_knight"@,
        "knight"@ != "mage"@,
        "knight"@ != "gryphon_rider"@,
        "knight"@ != "dragon"@,
        "knight"@ != "grunt"@,
        "knight"@ != "ogre"@,
        "knight"@ != "death_knight"@,
        "mage"@ != "gryphon_rider"@,
        "mage"@ != "dragon"@,
        "mage"@ != "grunt"@,
        "mage"@ != "ogre"@,
        "mage"@ != "death_knight"@,
        "gryphon_rider"@ != "dragon"@,
        "gryphon_rider"@ != "grunt"@,
        "gryphon_rider"@ != "ogre"@,
        "gryphon_rider"@ != "death_knight"@,
        "dragon"@ != "grunt"@,
        "dragon"@ != "ogre"@,
        "dragon"@ != "death_knight"@,
        "grunt"@ != "ogre"@,
        "grunt"@ != "death_knight"@,
        "ogre"@ != "death_knight"@,
{
    reveal_strlit("peasant");
    reveal_strlit("peon");
    reveal_strlit("footman");
    reveal_strlit("archer");
    reveal_strlit("troll_axethrower");
    reveal_strlit("knight");
    reveal_strlit("mage");
    reveal_strlit("gryphon_rider");
    reveal_strlit("dragon");
    reveal_strlit("grunt");
    reveal_strlit("ogre");
    reveal_strlit("death_knight");
    assert("peasant"@.len() != "peon"@.len());
    assert("peasant"@[0] != "footman"@[0]);
    assert("peasant"@.len() != "archer"@.len());
    assert("peasant"@.len() != "troll_axethrower"@.len());
    assert("peasant"@.len() != "knight"@.len());
    assert("peasant"@.len() != "mage"@.len());
    assert("peasant"@.len() != "gryphon_rider"@.len());
    assert("peasant"@.len() != "dragon"@.len());
    assert("peasant"@.len() != "grunt"@.len());
    assert("peasant"@.len() != "ogre"@.len());
    assert("peasant"@.len() != "death_knight"@.len());
    assert("peon"@.len() != "footman"@.len());
    assert("peon"@.len() != "archer"@.len());
    assert("peon"@.len() != "troll_axethrower"@.len());
    assert("peon"@.len() != "knight"@.len());
    assert("peon"@[0] != "mage"@[0]);
    assert("peon"@.len() != "gryphon_rider"@.len());
    assert("peon"@.len() != "dragon"@.len());
    assert("peon"@.len() != "grunt"@.len());
    assert("peon"@[0] != "ogre"@[0]);
    assert("peon"@.len() != "death_knight"@.len());
    assert("footman"@.len() != "archer"@.len());
    assert("footman"@.len() != "troll_axethrower"@.len());
    assert("footman"@.len() != "knight"@.len());
    assert("footman"@.len() != "mage"@.len());
    assert("footman"@.len() != "gryphon_rider"@.len());
    assert("footman"@.len() != "dragon"@.len());
    assert("footman"@.len() != "grunt"@.len());
    assert("footman"@.len() != "ogre"@.len());
    assert("footman"@.len() != "death_knight"@.len());
    assert("archer"@.len() != "troll_axethrower"@.len());
    assert("archer"@[0] != "knight"@[0]);
    assert("archer"@.len() != "mage"@.len());
    assert("archer"@.len() != "gryphon_rider"@.len());
    assert("archer"@[0] != "dragon"@[0]);
    assert("archer"@.len() != "grunt"@.len());
    assert("archer"@.len() != "ogre"@.len());
    assert("archer"@.len() != "death_knight"@.len());
    assert("troll_axethrower"@.len() != "knight"@.len());
    assert("troll_axethrower"@.len() != "mage"@.len());
    assert("troll_axethrower"@.len() != "gryphon_rider"@.len());
    assert("troll_axethrower"@.len() != "dragon"@.len());
    assert("troll_axethrower"@.len() != "grunt"@.len());
    assert("troll_axethrower"@.len() != "ogre"@.len());
    assert("troll_axethrower"@.len() != "death_knight"@.len());
    assert("knight"@.len() != "mage"@.len());
    assert("knight"@.len() != "gryphon_rider"@.len());
    assert("knight"@[0] != "dragon"@[0]);
    assert("knight"@.len() != "grunt"@.len());
    assert("knight"@.len() != "ogre"@.len());
    assert("knight"@.len() != "death_knight"@.len());
    assert("mage"@.len() != "gryphon_rider"@.len());
    assert("mage"@.len() != "dragon"@.len());
    assert("mage"@.len() != "grunt"@.len());
    assert("mage"@[0] != "ogre"@[0]);
    assert("mage"@.len() != "death_knight"@.len());
    assert("gryphon_rider"@.len() != "dragon"@.len());
    assert("gryphon_rider"@.len() != "grunt"@.len());
    assert("gryphon_rider"@.len() != "ogre"@.len());
    assert("gryphon_rider"@.len() != "death_knight"@.len());
    assert("dragon"@.len() != "grunt"@.len());
    assert("dragon"@.len() != "ogre"@.len());
    assert("dragon"@.len() != "death_knight"@.len());
    assert("grunt"@.len() != "ogre"@.len());
    assert("grunt"@.len() != "death_knight"@.len());
    assert("ogre"@.len() != "death_knight"@.len());
}

/// The name by which the server and the training lists know a unit kind of
/// the unit table; the siege engines have none.
pub open spec fn unit_kind_id(k: UnitKind) -> Seq<char> {
    match k {
        UnitKind::Peasant => "peasant"@,
        UnitKind::Footman => "footman"@,
        UnitKind::Archer => "archer"@,
        UnitKind::Knight => "knight"@,
        UnitKind::Mage => "mage"@,
        UnitKind::GryphonRider => "gryphon_rider"@,
        UnitKind::Peon => "peon"@,
        UnitKind::Grunt => "grunt"@,
        UnitKind::TrollAxethrower => "troll_axethrower"@,
        UnitKind::OgreKnight => "ogre"@,
        UnitKind::DeathKnight => "death_knight"@,
        UnitKind::DragonRider => "dragon"@,
        _ => Seq::empty(),
    }
}

/// A unit the server spawns has the hit points that the unit table gives
/// its kind, and it flies exactly when the table marks the kind as an air
/// unit. Knights, grunts and ogres are the exception for hit points: the
/// server spawns them tougher than the table says, so they are left out of
/// that clause; the siege engines have no server name.
pub proof fn law_template_matches_table()
    ensures
        forall|j: int|
            0 <= j < unit_table().len() && unit_table()[j].kind != UnitKind::Ballista && unit_table()[j].kind
                != UnitKind::Catapult && unit_table()[j].kind != UnitKind::Knight && unit_table()[j].kind
                != UnitKind::Grunt && unit_table()[j].kind != UnitKind::OgreKnight ==> spec_unit_stats(
                unit_kind_id(#[trigger] unit_table()[j].kind),
            ).0 == unit_table()[j].hp_max,
        forall|j: int|
            0 <= j < unit_table().len() && unit_table()[j].kind != UnitKind::Ballista && unit_table()[j].kind
                != UnitKind::Catapult ==> (unit_kind_id(#[trigger] unit_table()[j].kind) == "gryphon_rider"@
                || unit_kind_id(unit_table()[j].kind) == "dragon"@) == unit_table()[j].air,
{
    lemma_kind_ids_distinct();
    let t = unit_table();
    assert forall|j: int| 0 <= j < t.len() implies {
        &&& (t[j].kind != UnitKind::Ballista && t[j].kind != UnitKind::Catapult && t[j].kind != UnitKind::Knight
            && t[j].kind != UnitKind::Grunt && t[j].kind != UnitKind::OgreKnight ==> spec_unit_stats(
            unit_kind_id(#[trigger] t[j].kind),
        ).0 == t[j].hp_max)
        &&& (t[j].kind != UnitKind::Ballista && t[j].kind != UnitKind::Catapult ==> (unit_kind_id(t[j].kind)
            == "gryphon_rider"@ || unit_kind_id(t[j].kind) == "dragon"@) == t[j].air)
    } by {
        if j == 0 {
                } else if j == 1 {
                } else if j == 2 {
                } else if j == 3 {
                } else if j == 4 {
                } else if j == 5 {
                } else if j == 6 {
                } else if j == 7 {
                } else if j == 8 {
                } else if j == 9 {
                } else if j == 10 {
                } else if j == 11 {
                } else if j == 12 {
                } else if j == 13 {
        }
    }
}

/// What a unit of kind `kind_id` is spawned with; only gryphon riders and
/// dragons fly.
pub fn unit_template(kind_id: &str) -> (r: UnitTemplate)
    ensures
        (r.hp, r.damage, r.pierce, r.armor, r.range, r.cooldown_ms, r.speed) == spec_unit_stats(kind_id@),
        r.ai@ == spec_unit_ai(kind_id@),
        r.can_fly == (kind_id@ == "gryphon_rider"@ || kind_id@ == "dragon"@),
{
    let fly = str_eq(kind_id, "gryphon_rider") || str_eq(kind_id, "dragon");
    if str_eq(kind_id, "peasant") || str_eq(kind_id, "peon") {
        UnitTemplate { hp: 30, damage: 3, pierce: 0, armor: 0, range: 0, cooldown_ms: 1500, speed: 128, ai: "worker_ai", can_fly: fly }
    } else if str_eq(kind_id, "footman") {
        UnitTemplate { hp: 60, damage: 6, pierce: 3, armor: 2, range: 0, cooldown_ms: 1000, speed: 128, ai: "melee_ai", can_fly: fly }
    } else if str_eq(kind_id, "archer") || str_eq(kind_id, "troll_axethrower") {
        UnitTemplate { hp: 40, damage: 4, pierce: 6, armor: 0, range: 160, cooldown_ms: 1200, speed: 128, ai: "ranged_ai", can_fly: fly }
    } else if str_eq(kind_id, "knight") {
        UnitTemplate { hp: 100, damage: 10, pierce: 4, armor: 5, range: 0, cooldown_ms: 1000, speed: 192, ai: "melee_ai", can_fly: fly }
    } else if str_eq(kind_id, "mage") {
        UnitTemplate { hp: 35, damage: 0, pierce: 12, armor: 0, range: 192, cooldown_ms: 2000, speed: 96, ai: "ranged_ai", can_fly: fly }
    } else if str_eq(kind_id, "gryphon_rider") || str_eq(kind_id, "dragon") {
        UnitTemplate { hp: 100, damage: 16, pierce: 5, armor: 5, range: 0, cooldown_ms: 1000, speed: 384, ai: "melee_ai", can_fly: fly }
    } else if str_eq(kind_id, "grunt") {
        UnitTemplate { hp: 70, damage: 8, pierce: 2, armor: 2, range: 0, cooldown_ms: 1000, speed: 128, ai: "melee_ai", can_fly: fly }
    } else if str_eq(kind_id, "ogre") {
        UnitTemplate { hp: 100, damage: 10, pierce: 2, armor: 5, range: 0, cooldown_ms: 1300, speed: 96, ai: "melee_ai", can_fly: fly }
    } else if str_eq(kind_id, "death_knight") {
        UnitTemplate { hp: 60, damage: 0, pierce: 10, armor: 2, range: 192, cooldown_ms: 2000, speed: 96, ai: "ranged_ai", can_fly: fly }
    } else {
        UnitTemplate { hp: 30, damage: 3, pierce: 0, armor: 0, range: 0, cooldown_ms: 1500, speed: 128, ai: "worker_ai", can_fly: fly }
    }
}

/// One entity of a player's starting set: its kind, where it stands (in
/// tiles) and, for a building, its hit points and queue size.
#[derive(Debug)]
pub struct StartSpawn {
    pub kind_id: &'static str,
    pub tile_x: u32,
    pub tile_y: u32,
    /// `Some((hp, queue capacity))` for a building, `None` for a unit.
    pub building: Option<(i32, usize)>,
}

/// Tile of the base of the `index`-th player: the top left and bottom right
/// corners for the first two, then bases along the top edge.
pub open spec fn spec_base_tile(index: int) -> (int, int) {
    if index == 0 {
        (6, 6)
    } else if index == 1 {
        (54, 54)
    } else {
        (index * 28 + 5, 5)
    }
}

pub fn base_tile(index: u32) -> (r: (u32, u32))
    requires
        index * 28 + 5 <= u32::MAX,
    ensures
        r.0 == spec_base_tile(index as int).0,
        r.1 == spec_base_tile(index as int).1,
{
    if index == 0 {
        (6, 6)
    } else if index == 1 {
        (54, 54)
    } else {
        (index * 28 + 5, 5)
    }
}

/// `s` spawns a `kind` at tile `(x, y)`, a building as `building` says.
pub open spec fn spawn_ok(s: StartSpawn, kind: Seq<char>, x: int, y: int, building: Option<(i32, usize)>) -> bool {
    s.kind_id@ == kind && s.tile_x == x && s.tile_y == y && s.building == building
}

/// The starting set of the `index`-th player around its base tile: town
/// hall, barracks and two farms, six workers beside the town hall and four
/// fighters in front. Team 0 plays humans, the others orcs.
pub fn start_spawns(index: u32) -> (r: Vec<StartSpawn>)
    requires
        index * 28 + 10 <= u32::MAX,
    ensures
        r@.len() == 14,
        ({
            let (bx, by) = spec_base_tile(index as int);
            let human = index == 0;
            &&& spawn_ok(r@[0], if human { "town_hall"@ } else { "great_hall"@ }, bx, by, Some((1200i32, 5usize)))
            &&& spawn_ok(r@[1], if human { "barracks"@ } else { "orc_barracks"@ }, bx + 5, by, Some((800i32, 5usize)))
            &&& spawn_ok(r@[2], "farm"@, bx, by + 5, Some((400i32, 0usize)))
            &&& spawn_ok(r@[3], "farm"@, bx + 3, by + 5, Some((400i32, 0usize)))
            &&& forall|k: int|
                0 <= k < 6 ==> spawn_ok(
                    #[trigger] r@[4 + k],
                    if human { "peasant"@ } else { "peon"@ },
                    bx + 2 + k % 3,
                    by + 2 + k / 3,
                    None,
                )
            &&& forall|j: int|
                0 <= j < 4 ==> spawn_ok(
                    #[trigger] r@[10 + j],
                    if human { "footman"@ } else { "grunt"@ },
                    bx + (j - 1) * 2,
                    by + 8,
                    None,
                )
        }),
{
    let (bx, by) = base_tile(index);
    let human = index == 0;
    let mut out: Vec<StartSpawn> = Vec::new();
    out.push(StartSpawn { kind_id: if human { "town_hall" } else { "great_hall" }, tile_x: bx, tile_y: by, building: Some((1200, 5)) });
    out.push(StartSpawn { kind_id: if human { "barracks" } else { "orc_barracks" }, tile_x: bx + 5, tile_y: by, building: Some((800, 5)) });
    out.push(StartSpawn { kind_id: "farm", tile_x: bx, tile_y: by + 5, building: Some((400, 0)) });
    out.push(StartSpawn { kind_id: "farm", tile_x: bx + 3, tile_y: by + 5, building: Some((400, 0)) });
    let worker = if human { "peasant" } else { "peon" };
    let ghost first4 = out@;
    for k in 0..6u32
        invariant
            out@.len() == 4 + k,
            first4.len() == 4,
            bx == spec_base_tile(index as int).0,
            by == spec_base_tile(index as int).1,
            5 <= bx,
            bx + 5 <= u32::MAX,
            by <= 54,
            worker@ == (if human { "peasant"@ } else { "peon"@ }),
            forall|q: int| 0 <= q < 4 ==> #[trigger] out@[q] == first4[q],
            forall|q: int| 0 <= q < k ==> spawn_ok(#[trigger] out@[4 + q], worker@, bx + 2 + q % 3, by + 2 + q / 3, None),
    {
        out.push(StartSpawn { kind_id: worker, tile_x: bx + 2 + k % 3, tile_y: by + 2 + k / 3, building: None });
    }
    let fighter = if human { "footman" } else { "grunt" };
    let ghost first10 = out@;
    for j in 0..4u32
        invariant
            out@.len() == 10 + j,
            first10.len() == 10,
            bx == spec_base_tile(index as int).0,
            by == spec_base_tile(index as int).1,
            5 <= bx,
            bx + 5 <= u32::MAX,
            by <= 54,
            fighter@ == (if human { "footman"@ } else { "grunt"@ }),
            forall|q: int| 0 <= q < 10 ==> #[trigger] out@[q] == first10[q],
            forall|q: int| 0 <= q < j ==> spawn_ok(#[trigger] out@[10 + q], fighter@, bx + (q - 1) * 2, by + 8, None),
    {
        // The fighters stand two tiles apart, the first one two tiles left of the base.
        out.push(StartSpawn { kind_id: fighter, tile_x: bx + 2 * j - 2, tile_y: by + 8, building: None });
    }
    proof {
        assert forall|k: int| 0 <= k < 6 implies spawn_ok(#[trigger] out@[4 + k], worker@, bx + 2 + k % 3, by + 2 + k / 3, None) by {
            assert(out@[4 + k] == first10[4 + k]);
        }
        assert(out@[0] == first4[0] && out@[1] == first4[1] && out@[2] == first4[2] && out@[3] == first4[3]) by {
            assert(out@[0] == first10[0] && out@[1] == first10[1] && out@[2] == first10[2] && out@[3] == first10[3]);
        }
    }
    out
}

} // verus!
