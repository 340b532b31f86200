//! Rules of the single-player game screen: the demo map, entity classes,
//! the end of the game and food.
use vstd::prelude::*;
use vstd::multiset::Multiset;

use crate::components::{Health, Team, UnitKind, UnitKindId};
use crate::session::{in_rect, spec_unit_build_time, team_alive, team_alive_in};
use crate::text::str_eq;
use crate::tilemap::{Tile, TileKind, TileMap};

verus! {

/// How a single-player game ended.
#[derive(Clone, Copy, PartialEq, Eq, Debug, Structural)]
pub enum GameResult {
    Win,
    Lose,
}

/// Terrain of the demo map (64 x 64), feature by feature; a feature listed
/// earlier lies on top of the ones below it.
pub open spec fn demo_kind(x: int, y: int) -> TileKind {
    if (x == 40 && y == 15) || (x == 41 && y == 15) || (x == 40 && y == 16) || (x == 50 && y == 10)
        || (x == 51 && y == 10) || (x == 52 && y == 10) {
        TileKind::Rock
    } else if in_rect(x, y, 10, 30, 5, 12) {
        TileKind::Forest
    } else if in_rect(x, y, 32, 34, 20, 28) {
        TileKind::Bridge
    } else if in_rect(x, y, 0, 64, 22, 26) {
        TileKind::DeepWater
    } else if in_rect(x, y, 0, 64, 20, 28) {
        TileKind::Water
    } else {
        TileKind::Grass
    }
}

/// The player's starting area, seen from the start.
pub open spec fn demo_revealed(x: int, y: int) -> bool {
    in_rect(x, y, 0, 20, 30, 50)
}

/// The demo map: a river with a bridge, woods and rocks; the player's
/// starting area is already explored.
pub fn create_demo_map() -> (m: TileMap)
    ensures
        m.wf(),
        m.width == 64,
        m.height == 64,
        forall|x: int, y: int|
            0 <= x < 64 && 0 <= y < 64 ==> #[trigger] m.tile_at(x, y) == (Tile {
                kind: demo_kind(x, y),
                visible: demo_revealed(x, y),
                explored: demo_revealed(x, y),
            }),
{
    let w = 64u32;
    let h = 64u32;
    let mut map = TileMap::new_filled(w, h, TileKind::Grass);
    let ghost m0 = map;
    proof {
        assert forall|x: int, y: int| 0 <= x < 64 && 0 <= y < 64 implies #[trigger] m0.tile_at(x, y)
            == crate::tilemap::fresh_tile(TileKind::Grass) by {
            crate::grid::lemma_cell_index_bounds(x, y, 64, 64);
        }
    }
    // Water across the map, deep in the middle, with a bridge.
    map.fill_rect(0, w, 20, 28, TileKind::Water);
    map.fill_rect(0, w, 22, 26, TileKind::DeepWater);
    map.fill_rect(32, 34, 20, 28, TileKind::Bridge);
    // Woods.
    map.fill_rect(10, 30, 5, 12, TileKind::Forest);
    // Rocks.
    map.fill_rect(40, 42, 15, 16, TileKind::Rock);
    map.fill_rect(40, 41, 16, 17, TileKind::Rock);
    map.fill_rect(50, 53, 10, 11, TileKind::Rock);
    // The player's starting area is explored.
    map.reveal_rect(0, 20, 30, 50);
    map
}

/// The entity kinds that are buildings.
pub open spec fn spec_is_building_kind(kind: Seq<char>) -> bool {
    kind == "town_hall"@ || kind == "keep"@ || kind == "castle"@ || kind == "great_hall"@
        || kind == "stronghold"@ || kind == "fortress"@ || kind == "farm"@ || kind == "pig_farm"@
        || kind == "barracks"@ || kind == "orc_barracks"@ || kind == "lumbermill"@ || kind
        == "blacksmith"@ || kind == "tower"@ || kind == "church"@ || kind == "stables"@ || kind
        == "gold_mine"@ || kind == "oil_platform"@
}

pub fn is_building_kind(kind: &str) -> (r: bool)
    ensures
        r == spec_is_building_kind(kind@),
{
    str_eq(kind, "town_hall") || str_eq(kind, "keep") || str_eq(kind, "castle") || str_eq(
        kind,
        "great_hall",
    ) || str_eq(kind, "stronghold") || str_eq(kind, "fortress") || str_eq(kind, "farm") || str_eq(
        kind,
        "pig_farm",
    ) || str_eq(kind, "barracks") || str_eq(kind, "orc_barracks") || str_eq(kind, "lumbermill")
        || str_eq(kind, "blacksmith") || str_eq(kind, "tower") || str_eq(kind, "church") || str_eq(
        kind,
        "stables",
    ) || str_eq(kind, "gold_mine") || str_eq(kind, "oil_platform")
}

/// Workers: peasants and peons.
pub fn is_worker_kind(kind: &str) -> (r: bool)
    ensures
        r == (kind@ == "peasant"@ || kind@ == "peon"@),
{
    str_eq(kind, "peasant") || str_eq(kind, "peon")
}

/// Kind id of a palette kind.
pub fn unit_kind_str(k: UnitKind) -> (r: String)
    ensures
        r@ == match k {
            UnitKind::Peon => "peon"@,
            UnitKind::Grunt => "grunt"@,
            UnitKind::Archer => "archer"@,
            UnitKind::Catapult => "catapult"@,
            UnitKind::TownHall => "town_hall"@,
            UnitKind::Barracks => "barracks"@,
        },
{
    match k {
        UnitKind::Peon => "peon",
        UnitKind::Grunt => "grunt",
        UnitKind::Archer => "archer",
        UnitKind::Catapult => "catapult",
        UnitKind::TownHall => "town_hall",
        UnitKind::Barracks => "barracks",
    }.to_string()
}

/// The result of a game whose entities are given as (team, hit points):
/// lost when nothing of team 0 lives, else won when nothing of team 1
/// lives, else still running.
pub fn game_result_of(units: &Vec<(u8, i32)>) -> (r: Option<GameResult>)
    ensures
        r == (if !team_alive(units@, 0) {
            Some(GameResult::Lose)
        } else if !team_alive(units@, 1) {
            Some(GameResult::Win)
        } else {
            None
        }),
{
    let mut player_alive = false;
    let mut enemy_alive = false;
    let n = units.len();
    for i in 0..n
        invariant
            n == units@.len(),
            player_alive == exists|j: int| 0 <= j < i && #[trigger] units@[j].0 == 0 && units@[j].1 > 0,
            enemy_alive == exists|j: int| 0 <= j < i && #[trigger] units@[j].0 == 1 && units@[j].1 > 0,
    {
        let (team, hp) = units[i];
        if hp > 0 {
            if team == 0 {
                player_alive = true;
            }
            if team == 1 {
                enemy_alive = true;
            }
        }
        assert(units@[i as int] == (team, hp));
    }
    if !player_alive {
        return Some(GameResult::Lose);
    }
    if !enemy_alive {
        return Some(GameResult::Win);
    }
    None
}

/// Bases: the kinds that give 5 food.
pub open spec fn spec_is_base(kind: Seq<char>) -> bool {
    kind == "town_hall"@ || kind == "keep"@ || kind == "castle"@ || kind == "great_hall"@
        || kind == "stronghold"@ || kind == "fortress"@
}

/// Food used by the player's (team 0) entities given as (team, kind):
/// one per entity that is not a building.
pub open spec fn food_used(units: Seq<(u8, String)>) -> nat
    decreases units.len(),
{
    if units.len() == 0 {
        0
    } else {
        food_used(units.drop_last()) + if units.last().0 == 0 && !spec_is_building_kind(
            units.last().1@,
        ) {
            1nat
        } else {
            0nat
        }
    }
}

/// Food the player's entities provide: 4 per farm, 5 per base.
pub open spec fn food_provided(units: Seq<(u8, String)>) -> nat
    decreases units.len(),
{
    if units.len() == 0 {
        0
    } else {
        food_provided(units.drop_last()) + if units.last().0 != 0 {
            0nat
        } else if units.last().1@ == "farm"@ || units.last().1@ == "pig_farm"@ {
            4nat
        } else if spec_is_base(units.last().1@) {
            5nat
        } else {
            0nat
        }
    }
}

/// The player's food as (used, available): available is what farms and
/// bases provide, 5 when they provide nothing, and at most 200.
pub fn food_of_units(units: &Vec<(u8, String)>) -> (r: (u32, u32))
    requires
        units@.len() * 5 <= u32::MAX,
    ensures
        r.0 == food_used(units@),
        r.1 == (if food_provided(units@) == 0 {
            5
        } else if food_provided(units@) > 200 {
            200
        } else {
            food_provided(units@)
        }),
{
    let mut used: u32 = 0;
    let mut max: u32 = 0;
    let n = units.len();
    for i in 0..n
        invariant
            n == units@.len(),
            n * 5 <= u32::MAX,
            used == food_used(units@.take(i as int)),
            max == food_provided(units@.take(i as int)),
            used <= i,
            max <= 5 * i,
    {
        let team = units[i].0;
        let kind = units[i].1.as_str();
        assert(units@.take(i + 1).drop_last() =~= units@.take(i as int));
        if team == 0 {
            if str_eq(kind, "farm") || str_eq(kind, "pig_farm") {
                max = max + 4;
            } else if str_eq(kind, "town_hall") || str_eq(kind, "keep") || str_eq(kind, "castle")
                || str_eq(kind, "great_hall") || str_eq(kind, "stronghold") || str_eq(kind, "fortress") {
                max = max + 5;
            } else if is_building_kind(kind) {
            } else {
                used = used + 1;
            }
        }
    }
    assert(units@.take(n as int) =~= units@);
    if max == 0 {
        max = 5;
    }
    (used, if max < 200 { max } else { 200 })
}

/// The (team, hit points) pairs of the entities of `world` that have both a
/// `Team` and a `Health` (the player's components), one pair per entity.
pub uninterp spec fn player_world_team_health(world: hecs::World) -> Multiset<(u8, i32)>;

/// Runs the hecs query `(&Team, &Health)` over `world` with `query_mut`
/// (an exclusive borrow, so no borrow of a component can conflict) and
/// lists each entity's team and current hit points. The contract claims that
/// the list holds exactly the pairs named by `player_world_team_health`, in
/// some order, and that the world is left as it was; the order is left
/// unsaid.
#[verifier::external_body]
fn query_player_team_health(world: &mut hecs::World) -> (r: Vec<(u8, i32)>)
    ensures
        r@.to_multiset() == player_world_team_health(*old(world)),
        *final(world) == *old(world),
{
    world.query_mut::<(&Team, &Health)>().into_iter().map(|(_, (t, h))| (t.0, h.current)).collect()
}

/// The (team, kind) pairs of the entities of `world` that have a `Team`, a
/// `UnitKindId` and a `Health`, one pair per entity.
pub uninterp spec fn player_world_team_kinds(world: hecs::World) -> Multiset<(u8, String)>;

/// Runs the hecs query `(&Team, &UnitKindId, &Health)` over `world` with
/// `query_mut` (an exclusive borrow) and lists each entity's team and kind.
/// The contract claims that the list holds exactly the pairs named by
/// `player_world_team_kinds`, in some order, and that the world is left as
/// it was.
#[verifier::external_body]
fn query_player_team_kinds(world: &mut hecs::World) -> (r: Vec<(u8, String)>)
    ensures
        r@.to_multiset() == player_world_team_kinds(*old(world)),
        *final(world) == *old(world),
{
    world.query_mut::<(&Team, &UnitKindId, &Health)>().into_iter().map(|(_, (t, k, _))| (t.0, k.0.clone())).collect()
}

/// Whether the single-player game in `world` has ended: lost when nothing
/// of team 0 lives, else won when nothing of team 1 lives.
pub fn check_game_result(world: &mut hecs::World) -> (r: Option<GameResult>)
    ensures
        *final(world) == *old(world),
        r == (if !team_alive_in(player_world_team_health(*old(world)), 0) {
            Some(GameResult::Lose)
        } else if !team_alive_in(player_world_team_health(*old(world)), 1) {
            Some(GameResult::Win)
        } else {
            None
        }),
{
    let units = query_player_team_health(world);
    proof {
        crate::session::lemma_team_alive_multiset(units@, 0);
        crate::session::lemma_team_alive_multiset(units@, 1);
    }
    game_result_of(&units)
}

/// The player's food in `world` as (used, available), as `food_of_units`
/// counts it over the world's entities in any order. `None` when the world
/// holds more than `u32::MAX / 5` such entities, where the count could
/// overflow.
pub fn count_food(world: &mut hecs::World) -> (r: Option<(u32, u32)>)
    ensures
        *final(world) == *old(world),
        match r {
            Some(f) => exists|s: Seq<(u8, String)>|
                #[trigger] s.to_multiset() == player_world_team_kinds(*old(world)) && f.0 == food_used(s) && f.1 == (
                if food_provided(s) == 0 {
                    5
                } else if food_provided(s) > 200 {
                    200
                } else {
                    food_provided(s)
                }),
            None => player_world_team_kinds(*old(world)).len() * 5 > u32::MAX,
        },
{
    let units = query_player_team_kinds(world);
    proof {
        vstd::seq_lib::to_multiset_len(units@);
    }
    if units.len() > 858993459 {
        return None;
    }
    let f = food_of_units(&units);
    assert(units@.to_multiset() == player_world_team_kinds(*old(world)));
    Some(f)
}

/// A unit that a building can train, with its price and training time in
/// seconds.
#[derive(Debug)]
pub struct TrainOption {
    pub kind_id: &'static str,
    pub name: &'static str,
    pub gold: u32,
    pub lumber: u32,
    pub time: u32,
}

pub open spec fn option_is(o: TrainOption, kind_id: Seq<char>, name: Seq<char>, gold: u32, lumber: u32, time: u32) -> bool {
    o.kind_id@ == kind_id && o.name@ == name && o.gold == gold && o.lumber == lumber && o.time == time
}

/// The human bases.
pub open spec fn is_human_base(k: Seq<char>) -> bool {
    k == "town_hall"@ || k == "keep"@ || k == "castle"@
}

/// The orc bases.
pub open spec fn is_orc_base(k: Seq<char>) -> bool {
    k == "great_hall"@ || k == "stronghold"@ || k == "fortress"@
}

/// The training list of a building kind, as (kind, name, gold, lumber,
/// seconds) in the order the list shows them.
pub open spec fn train_options(kind_id: Seq<char>) -> Seq<(Seq<char>, Seq<char>, u32, u32, u32)> {
    if is_human_base(kind_id) {
        seq![("peasant"@, "Peasant"@, 400u32, 0u32, 15u32)]
    } else if is_orc_base(kind_id) {
        seq![("peon"@, "Peon"@, 400u32, 0u32, 15u32)]
    } else if kind_id == "barracks"@ {
        seq![
            ("footman"@, "Footman"@, 600u32, 0u32, 20u32),
            ("archer"@, "Archer"@, 500u32, 50u32, 20u32),
            ("knight"@, "Knight"@, 800u32, 100u32, 30u32),
        ]
    } else if kind_id == "orc_barracks"@ {
        seq![
            ("grunt"@, "Grunt"@, 600u32, 0u32, 20u32),
            ("troll_axethrower"@, "Troll"@, 500u32, 50u32, 20u32),
            ("ogre"@, "Ogre"@, 800u32, 100u32, 30u32),
        ]
    } else {
        Seq::empty()
    }
}

/// What a building advertises as the training time of a unit is the time
/// the server takes to train it: for every building kind and every entry of
/// its training list, the entry's seconds are the unit's build time.
pub proof fn law_train_time_is_build_time(kind_id: Seq<char>)
    ensures
        forall|i: int|
            0 <= i < train_options(kind_id).len() ==> spec_unit_build_time(#[trigger] train_options(kind_id)[i].0)
                == train_options(kind_id)[i].4,
{
    reveal_strlit("peasant");
    reveal_strlit("peon");
    reveal_strlit("footman");
    reveal_strlit("grunt");
    reveal_strlit("archer");
    reveal_strlit("troll_axethrower");
    reveal_strlit("knight");
    reveal_strlit("ogre");
    reveal_strlit("mage");
    reveal_strlit("death_knight");
    reveal_strlit("gryphon_rider");
    reveal_strlit("dragon");
    assert(spec_unit_build_time("peasant"@) == 15);
    assert(spec_unit_build_time("peon"@) == 15) by {
        assert("peon"@ != "peasant"@) by { assert("peon"@.len() != "peasant"@.len()); }
    }
    assert(spec_unit_build_time("footman"@) == 20) by {
        assert("footman"@ != "peasant"@) by { assert("footman"@[0] != "peasant"@[0]); }
        assert("footman"@ != "peon"@) by { assert("footman"@.len() != "peon"@.len()); }
    }
    assert(spec_unit_build_time("grunt"@) == 20) by {
        assert("grunt"@ != "peasant"@) by { assert("grunt"@.len() != "peasant"@.len()); }
        assert("grunt"@ != "peon"@) by { assert("grunt"@.len() != "peon"@.len()); }
        assert("grunt"@ != "footman"@) by { assert("grunt"@.len() != "footman"@.len()); }
    }
    assert(spec_unit_build_time("archer"@) == 20) by {
        assert("archer"@ != "peasant"@) by { assert("archer"@.len() != "peasant"@.len()); }
        assert("archer"@ != "peon"@) by { assert("archer"@.len() != "peon"@.len()); }
        assert("archer"@ != "footman"@) by { assert("archer"@.len() != "footman"@.len()); }
        assert("archer"@ != "grunt"@) by { assert("archer"@.len() != "grunt"@.len()); }
    }
    assert(spec_unit_build_time("troll_axethrower"@) == 20) by {
        assert("troll_axethrower"@ != "peasant"@) by { assert("troll_axethrower"@.len() != "peasant"@.len()); }
        assert("troll_axethrower"@ != "peon"@) by { assert("troll_axethrower"@.len() != "peon"@.len()); }
        assert("troll_axethrower"@ != "footman"@) by { assert("troll_axethrower"@.len() != "footman"@.len()); }
        assert("troll_axethrower"@ != "grunt"@) by { assert("troll_axethrower"@.len() != "grunt"@.len()); }
    }
    assert(spec_unit_build_time("knight"@) == 30) by {
        assert("knight"@ != "peasant"@) by { assert("knight"@.len() != "peasant"@.len()); }
        assert("knight"@ != "peon"@) by { assert("knight"@.len() != "peon"@.len()); }
        assert("knight"@ != "footman"@) by { assert("knight"@.len() != "footman"@.len()); }
        assert("knight"@ != "grunt"@) by { assert("knight"@.len() != "grunt"@.len()); }
        assert("knight"@ != "archer"@) by { assert("knight"@[0] != "archer"@[0]); }
        assert("knight"@ != "troll_axethrower"@) by { assert("knight"@.len() != "troll_axethrower"@.len()); }
    }
    assert(spec_unit_build_time("ogre"@) == 30) by {
        assert("ogre"@ != "peasant"@) by { assert("ogre"@.len() != "peasant"@.len()); }
        assert("ogre"@ != "peon"@) by { assert("ogre"@[0] != "peon"@[0]); }
        assert("ogre"@ != "footman"@) by { assert("ogre"@.len() != "footman"@.len()); }
        assert("ogre"@ != "grunt"@) by { assert("ogre"@.len() != "grunt"@.len()); }
        assert("ogre"@ != "archer"@) by { assert("ogre"@.len() != "archer"@.len()); }
        assert("ogre"@ != "troll_axethrower"@) by { assert("ogre"@.len() != "troll_axethrower"@.len()); }
        assert("ogre"@ != "knight"@) by { assert("ogre"@.len() != "knight"@.len()); }
    }
    let t = train_options(kind_id);
    assert forall|i: int| 0 <= i < t.len() implies spec_unit_build_time(#[trigger] t[i].0) == t[i].4 by {
        if is_human_base(kind_id) {
            assert(t[i] == ("peasant"@, "Peasant"@, 400u32, 0u32, 15u32));
        } else if is_orc_base(kind_id) {
            assert(t[i] == ("peon"@, "Peon"@, 400u32, 0u32, 15u32));
        } else if kind_id == "barracks"@ {
            assert(i == 0 || i == 1 || i == 2);
        } else if kind_id == "orc_barracks"@ {
            assert(i == 0 || i == 1 || i == 2);
        }
    }
}

/// What a building of kind `kind_id` trains: workers in the bases, three
/// fighters in each barracks, nothing elsewhere.
pub fn building_train_options(kind_id: &str) -> (r: Vec<TrainOption>)
    ensures
        is_human_base(kind_id@) ==> r@.len() == 1 && option_is(r@[0], "peasant"@, "Peasant"@, 400, 0, 15),
        !is_human_base(kind_id@) && is_orc_base(kind_id@) ==> r@.len() == 1 && option_is(r@[0], "peon"@, "Peon"@, 400, 0, 15),
        !is_human_base(kind_id@) && !is_orc_base(kind_id@) && kind_id@ == "barracks"@ ==> r@.len() == 3
            && option_is(r@[0], "footman"@, "Footman"@, 600, 0, 20) && option_is(r@[1], "archer"@, "Archer"@, 500, 50, 20)
            && option_is(r@[2], "knight"@, "Knight"@, 800, 100, 30),
        !is_human_base(kind_id@) && !is_orc_base(kind_id@) && kind_id@ != "barracks"@ && kind_id@ == "orc_barracks"@
            ==> r@.len() == 3 && option_is(r@[0], "grunt"@, "Grunt"@, 600, 0, 20) && option_is(
            r@[1],
            "troll_axethrower"@,
            "Troll"@,
            500,
            50,
            20,
        ) && option_is(r@[2], "ogre"@, "Ogre"@, 800, 100, 30),
        !is_human_base(kind_id@) && !is_orc_base(kind_id@) && kind_id@ != "barracks"@ && kind_id@ != "orc_barracks"@
            ==> r@.len() == 0,
        r@.len() == train_options(kind_id@).len(),
        forall|i: int|
            0 <= i < r@.len() ==> option_is(
                #[trigger] r@[i],
                train_options(kind_id@)[i].0,
                train_options(kind_id@)[i].1,
                train_options(kind_id@)[i].2,
                train_options(kind_id@)[i].3,
                train_options(kind_id@)[i].4,
            ),
{
    let mut out: Vec<TrainOption> = Vec::new();
    if str_eq(kind_id, "town_hall") || str_eq(kind_id, "keep") || str_eq(kind_id, "castle") {
        out.push(TrainOption { kind_id: "peasant", name: "Peasant", gold: 400, lumber: 0, time: 15 });
    } else if str_eq(kind_id, "great_hall") || str_eq(kind_id, "stronghold") || str_eq(kind_id, "fortress") {
        out.push(TrainOption { kind_id: "peon", name: "Peon", gold: 400, lumber: 0, time: 15 });
    } else if str_eq(kind_id, "barracks") {
        out.push(TrainOption { kind_id: "footman", name: "Footman", gold: 600, lumber: 0, time: 20 });
        out.push(TrainOption { kind_id: "archer", name: "Archer", gold: 500, lumber: 50, time: 20 });
        out.push(TrainOption { kind_id: "knight", name: "Knight", gold: 800, lumber: 100, time: 30 });
    } else if str_eq(kind_id, "orc_barracks") {
        out.push(TrainOption { kind_id: "grunt", name: "Grunt", gold: 600, lumber: 0, time: 20 });
        out.push(TrainOption { kind_id: "troll_axethrower", name: "Troll", gold: 500, lumber: 50, time: 20 });
        out.push(TrainOption { kind_id: "ogre", name: "Ogre", gold: 800, lumber: 100, time: 30 });
    }
    out
}

/// What a frame of the game screen does about pausing.
#[derive(Clone, Copy, PartialEq, Eq, Debug, Structural)]
pub struct PauseStep {
    /// Whether the game is paused afterwards.
    pub paused: bool,
    /// Whether the screen goes back to the main menu.
    pub to_menu: bool,
    /// Whether the world runs this frame.
    pub run_world: bool,
}

/// The pause rules of the game screen: P toggles the pause; Escape pauses a
/// running game and leaves a paused one for the main menu; the world stands
/// still while paused or once the game has a result.
pub fn pause_step(paused: bool, p_pressed: bool, escape_pressed: bool, game_over: bool) -> (r: PauseStep)
    ensures
        ({
            let p1 = if p_pressed { !paused } else { paused };
            &&& r.to_menu == (escape_pressed && p1)
            &&& r.paused == (p1 || escape_pressed)
            &&& r.run_world == (!r.to_menu && !r.paused && !game_over)
        }),
{
    let mut p = paused;
    if p_pressed {
        p = !p;
    }
    if escape_pressed {
        if p {
            return PauseStep { paused: p, to_menu: true, run_world: false };
        } else {
            p = true;
        }
    }
    PauseStep { paused: p, to_menu: false, run_world: !(p || game_over) }
}

} // verus!
