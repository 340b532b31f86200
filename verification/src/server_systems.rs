//! Events of the server's game systems.
use vstd::prelude::*;

verus! {

/// One attack that landed.
#[derive(Debug)]
pub struct AttackEvent {
    pub attacker_id: u64,
    pub target_id: u64,
    pub damage: i32,
}

/// An AI controller whose timer ran out.
#[derive(Debug)]
pub struct AiTickEvent {
    pub entity_id: u64,
    pub script_id: String,
}

} // verus!
