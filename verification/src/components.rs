//! Client-side entity components that hold no positions, and combat arithmetic.
use vstd::prelude::*;

verus! {

/// Team of an entity: 0 is the player, 1 to 7 are AI opponents.
pub struct Team(pub u8);

/// Hit points of an entity.
pub struct Health {
    pub current: i32,
    pub max: i32,
}

impl Health {
    /// Full health.
    pub fn new(max: i32) -> (h: Health)
        ensures
            h.current == max,
            h.max == max,
    {
        Health { current: max, max }
    }

    /// Alive while some hit points remain.
    pub fn is_alive(&self) -> (r: bool)
        ensures
            r == (self.current > 0),
    {
        self.current > 0
    }
}

/// Marks the entities the player has selected.
pub struct Selected;

/// Kind of an entity: a key into the unit definitions of the scripts
/// ("peasant", "town_hall", ...).
pub struct UnitKindId(pub String);

/// The kinds offered by the editor's palette.
#[derive(Clone, Copy, PartialEq, Eq, Debug, Structural)]
pub enum UnitKind {
    Peon,
    Grunt,
    Archer,
    Catapult,
    TownHall,
    Barracks,
}

/// Kind of an entity placed from the editor's palette.
pub struct Unit(pub UnitKind);

/// Sight radius of an entity, in tiles (fog of war).
pub struct Sight(pub u32);

/// Hit points an attack takes: the basic damage minus the target's armor,
/// at least 1, plus the piercing damage, which armor does not stop.
pub open spec fn spec_calc_damage(damage: int, pierce: int, target_armor: int) -> int {
    let basic = damage - target_armor;
    (if basic > 1 { basic } else { 1 }) + pierce
}

/// Hit points an attack with the given damage and piercing damage takes
/// from a target with armor `target_armor`.
pub fn calc_damage(damage: i32, pierce: i32, target_armor: i32) -> (r: i32)
    requires
        i32::MIN <= damage - target_armor <= i32::MAX,
        i32::MIN <= (if damage - target_armor > 1 { damage - target_armor } else { 1 }) + pierce <= i32::MAX,
    ensures
        r == spec_calc_damage(damage as int, pierce as int, target_armor as int),
{
    let diff = damage - target_armor;
    let basic = if diff > 1 { diff } else { 1 };
    basic + pierce
}

} // verus!
