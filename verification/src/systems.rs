//! Events of the client's game systems, and the arithmetic of a hit.
use vstd::prelude::*;

use crate::components::spec_calc_damage;

verus! {

/// One attack that landed.
#[derive(Debug)]
pub struct AttackEvent {
    pub attacker_id: u64,
    pub target_id: u64,
    pub damage: i32,
}

/// An AI controller whose timer ran out.
#[derive(Debug)]
pub struct AiTickEvent {
    pub entity_id: u64,
    pub script_id: String,
}

/// Resources a worker brought back to a depot.
#[derive(Debug)]
pub struct HarvestResult {
    pub gold: u32,
    pub lumber: u32,
    pub team: u8,
}

/// Hit points one attack takes: `spec_calc_damage`, and never less than 1.
pub open spec fn spec_attack_hit(damage: int, pierce: int, target_armor: int) -> int {
    let d = spec_calc_damage(damage, pierce, target_armor);
    if d > 1 { d } else { 1 }
}

/// Hit points one attack takes from a target with armor `target_armor`
/// (missing armor counts as 0).
pub fn attack_hit(damage: i32, pierce: i32, target_armor: i32) -> (r: i32)
    requires
        i32::MIN <= damage - target_armor <= i32::MAX,
        i32::MIN <= (if damage - target_armor > 1 { damage - target_armor } else { 1 }) + pierce <= i32::MAX,
    ensures
        r == spec_attack_hit(damage as int, pierce as int, target_armor as int),
        r >= 1,
{
    let d = crate::components::calc_damage(damage, pierce, target_armor);
    if d > 1 { d } else { 1 }
}

/// Hit points left after a hit of `hit` points: never below 0.
pub fn apply_hit(current: i32, hit: i32) -> (r: i32)
    requires
        hit >= 0,
        current - hit >= i32::MIN,
    ensures
        r == (if current - hit > 0 { current - hit } else { 0 }),
{
    if current - hit > 0 { current - hit } else { 0 }
}

/// A hit never raises hit points and never leaves them below 0; a living
/// target hit for at least its hit points dies.
pub proof fn law_hit_bounds(current: int, hit: int)
    requires
        hit >= 1,
        current >= 0,
    ensures
        0 <= (if current - hit > 0 { current - hit } else { 0 }) < current || current == 0,
        current <= hit ==> (if current - hit > 0 { current - hit } else { 0 }) == 0,
{
}

} // verus!
