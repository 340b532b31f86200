//! Static definitions: factions, resources, unit and building kinds.
use vstd::prelude::*;

verus! {

#[derive(Clone, Copy, Debug, PartialEq, Eq, Structural)]
pub enum Faction {
    Human,
    Orc,
    Neutral,
}

/// A stock or a price in resources.
#[derive(Clone, Copy, Debug, Default, PartialEq, Eq, Structural)]
pub struct Resources {
    pub gold: u32,
    pub lumber: u32,
    pub oil: u32,
}

impl Resources {
    /// Gold and lumber, no oil.
    pub fn new(gold: u32, lumber: u32) -> (r: Resources)
        ensures
            r == (Resources { gold, lumber, oil: 0 }),
    {
        Resources { gold, lumber, oil: 0 }
    }

    pub fn with_oil(gold: u32, lumber: u32, oil: u32) -> (r: Resources)
        ensures
            r == (Resources { gold, lumber, oil }),
    {
        Resources { gold, lumber, oil }
    }
}

#[derive(Clone, Copy, Debug, PartialEq, Eq, Hash, Structural)]
pub enum UnitKind {
    // Human
    Peasant,
    Footman,
    Archer,
    Ballista,
    Knight,
    Paladin,
    Mage,
    /// Dwarven Demolition Squad.
    Dwarven,
    GryphonRider,
    // Human navy
    /// Elven Destroyer.
    Elven,
    Battleship,
    GnomishSub,
    Transport,
    // Orc
    Peon,
    Grunt,
    TrollAxethrower,
    Catapult,
    OgreKnight,
    OgreMage,
    DeathKnight,
    /// Goblin Sappers.
    Goblin,
    DragonRider,
    // Orc navy
    TrollDestroyer,
    OgreJugger,
    GiantTurtle,
    OrcTransport,
    // Neutral
    Critter,
    Skeleton,
    Daemon,
}

/// Statistics of a unit kind: the template that units of the kind are
/// made from. Speeds are in world pixels per second, ranges and sight in
/// tiles, the attack cooldown in milliseconds and the training time in
/// seconds.
#[derive(Debug)]
pub struct UnitDef {
    pub kind: UnitKind,
    pub name: &'static str,
    pub faction: Faction,
    pub hp_max: i32,
    pub speed: u32,
    pub sight: u32,
    pub attack_damage: i32,
    /// Damage that armor does not stop.
    pub pierce_damage: i32,
    /// 0 for melee.
    pub attack_range: u32,
    pub attack_cooldown_ms: u32,
    pub armor: i32,
    pub cost: Resources,
    pub build_time: u32,
    /// The buildings that train the unit.
    pub produced_in: Vec<BuildingKind>,
    /// Whether an upgrade must be researched first.
    pub requires_upgrade: bool,
    /// Size in world pixels.
    pub sprite_size: u32,
    /// Column and row in the sprite sheet.
    pub sprite: (u32, u32),
    pub naval: bool,
    pub air: bool,
    pub can_harvest: bool,
    pub can_build: bool,
}

impl Clone for UnitDef {
    fn clone(&self) -> (r: Self)
        ensures
            r@ == self@,
    {
        let produced_in = self.produced_in.clone();
        assert(produced_in@ =~= self.produced_in@);
        UnitDef {
            kind: self.kind,
            name: self.name,
            faction: self.faction,
            hp_max: self.hp_max,
            speed: self.speed,
            sight: self.sight,
            attack_damage: self.attack_damage,
            pierce_damage: self.pierce_damage,
            attack_range: self.attack_range,
            attack_cooldown_ms: self.attack_cooldown_ms,
            armor: self.armor,
            cost: self.cost,
            build_time: self.build_time,
            produced_in,
            requires_upgrade: self.requires_upgrade,
            sprite_size: self.sprite_size,
            sprite: self.sprite,
            naval: self.naval,
            air: self.air,
            can_harvest: self.can_harvest,
            can_build: self.can_build,
        }
    }
}

/// Mathematical model of a `UnitDef`.
#[verifier::ext_equal]
pub struct UnitDefModel {
    pub kind: UnitKind,
    pub name: Seq<char>,
    pub faction: Faction,
    pub hp_max: i32,
    pub speed: u32,
    pub sight: u32,
    pub attack_damage: i32,
    pub pierce_damage: i32,
    pub attack_range: u32,
    pub attack_cooldown_ms: u32,
    pub armor: i32,
    pub cost: Resources,
    pub build_time: u32,
    pub produced_in: Seq<BuildingKind>,
    pub requires_upgrade: bool,
    pub sprite_size: u32,
    pub sprite: (u32, u32),
    pub naval: bool,
    pub air: bool,
    pub can_harvest: bool,
    pub can_build: bool,
}

impl View for UnitDef {
    type V = UnitDefModel;

    open spec fn view(&self) -> UnitDefModel {
        UnitDefModel {
            kind: self.kind,
            name: self.name@,
            faction: self.faction,
            hp_max: self.hp_max,
            speed: self.speed,
            sight: self.sight,
            attack_damage: self.attack_damage,
            pierce_damage: self.pierce_damage,
            attack_range: self.attack_range,
            attack_cooldown_ms: self.attack_cooldown_ms,
            armor: self.armor,
            cost: self.cost,
            build_time: self.build_time,
            produced_in: self.produced_in@,
            requires_upgrade: self.requires_upgrade,
            sprite_size: self.sprite_size,
            sprite: self.sprite,
            naval: self.naval,
            air: self.air,
            can_harvest: self.can_harvest,
            can_build: self.can_build,
        }
    }
}

/// The unit definitions of the game, in table order.
pub open spec fn unit_table() -> Seq<UnitDefModel> {
    seq![
        UnitDefModel {
            kind: UnitKind::Peasant,
            name: "Peasant"@,
            faction: Faction::Human,
            hp_max: 30,
            speed: 128,
            sight: 4,
            attack_damage: 3,
            pierce_damage: 0,
            attack_range: 0,
            attack_cooldown_ms: 1500,
            armor: 0,
            cost: Resources { gold: 400, lumber: 0, oil: 0 },
            build_time: 45,
            produced_in: seq![BuildingKind::TownHall, BuildingKind::Keep, BuildingKind::Castle],
            requires_upgrade: false,
            sprite_size: 32,
            sprite: (1, 0),
            naval: false,
            air: false,
            can_harvest: true,
            can_build: true,
        },
        UnitDefModel {
            kind: UnitKind::Footman,
            name: "Footman"@,
            faction: Faction::Human,
            hp_max: 60,
            speed: 128,
            sight: 4,
            attack_damage: 6,
            pierce_damage: 3,
            attack_range: 0,
            attack_cooldown_ms: 1000,
            armor: 2,
            cost: Resources { gold: 600, lumber: 0, oil: 0 },
            build_time: 60,
            produced_in: seq![BuildingKind::Barracks],
            requires_upgrade: false,
            sprite_size: 32,
            sprite: (2, 0),
            naval: false,
            air: false,
            can_harvest: false,
            can_build: false,
        },
        UnitDefModel {
            kind: UnitKind::Archer,
            name: "Elven Archer"@,
            faction: Faction::Human,
            hp_max: 40,
            speed: 128,
            sight: 5,
            attack_damage: 3,
            pierce_damage: 6,
            attack_range: 4,
            attack_cooldown_ms: 1000,
            armor: 0,
            cost: Resources { gold: 500, lumber: 50, oil: 0 },
            build_time: 70,
            produced_in: seq![BuildingKind::Barracks],
            requires_upgrade: false,
            sprite_size: 32,
            sprite: (3, 0),
            naval: false,
            air: false,
            can_harvest: false,
            can_build: false,
        },
        UnitDefModel {
            kind: UnitKind::Ballista,
            name: "Ballista"@,
            faction: Faction::Human,
            hp_max: 110,
            speed: 64,
            sight: 9,
            attack_damage: 80,
            pierce_damage: 0,
            attack_range: 8,
            attack_cooldown_ms: 3500,
            armor: 0,
            cost: Resources { gold: 900, lumber: 300, oil: 0 },
            build_time: 250,
            produced_in: seq![BuildingKind::Blacksmith, BuildingKind::Barracks],
            requires_upgrade: false,
            sprite_size: 48,
            sprite: (4, 0),
            naval: false,
            air: false,
            can_harvest: false,
            can_build: false,
        },
        UnitDefModel {
            kind: UnitKind::Knight,
            name: "Knight"@,
            faction: Faction::Human,
            hp_max: 90,
            speed: 192,
            sight: 4,
            attack_damage: 8,
            pierce_damage: 4,
            attack_range: 0,
            attack_cooldown_ms: 1000,
            armor: 4,
            cost: Resources { gold: 800, lumber: 100, oil: 0 },
            build_time: 90,
            produced_in: seq![BuildingKind::Stables],
            requires_upgrade: false,
            sprite_size: 32,
            sprite: (5, 0),
            naval: false,
            air: false,
            can_harvest: false,
            can_build: false,
        },
        UnitDefModel {
            kind: UnitKind::Mage,
            name: "Mage"@,
            faction: Faction::Human,
            hp_max: 35,
            speed: 128,
            sight: 9,
            attack_damage: 0,
            pierce_damage: 9,
            attack_range: 5,
            attack_cooldown_ms: 1500,
            armor: 0,
            cost: Resources { gold: 1200, lumber: 0, oil: 0 },
            build_time: 120,
            produced_in: seq![BuildingKind::MageTower],
            requires_upgrade: false,
            sprite_size: 32,
            sprite: (6, 0),
            naval: false,
            air: false,
            can_harvest: false,
            can_build: false,
        },
        UnitDefModel {
            kind: UnitKind::GryphonRider,
            name: "Gryphon Rider"@,
            faction: Faction::Human,
            hp_max: 100,
            speed: 384,
            sight: 6,
            attack_damage: 16,
            pierce_damage: 0,
            attack_range: 0,
            attack_cooldown_ms: 1500,
            armor: 5,
            cost: Resources { gold: 2500, lumber: 0, oil: 0 },
            build_time: 250,
            produced_in: seq![BuildingKind::GryphonAviary],
            requires_upgrade: false,
            sprite_size: 40,
            sprite: (7, 0),
            naval: false,
            air: true,
            can_harvest: false,
            can_build: false,
        },
        UnitDefModel {
            kind: UnitKind::Peon,
            name: "Peon"@,
            faction: Faction::Orc,
            hp_max: 30,
            speed: 128,
            sight: 4,
            attack_damage: 3,
            pierce_damage: 0,
            attack_range: 0,
            attack_cooldown_ms: 1500,
            armor: 0,
            cost: Resources { gold: 400, lumber: 0, oil: 0 },
            build_time: 45,
            produced_in: seq![BuildingKind::GreatHall, BuildingKind::Stronghold, BuildingKind::Fortress],
            requires_upgrade: false,
            sprite_size: 32,
            sprite: (1, 1),
            naval: false,
            air: false,
            can_harvest: true,
            can_build: true,
        },
        UnitDefModel {
            kind: UnitKind::Grunt,
            name: "Grunt"@,
            faction: Faction::Orc,
            hp_max: 60,
            speed: 128,
            sight: 4,
            attack_damage: 8,
            pierce_damage: 2,
            attack_range: 0,
            attack_cooldown_ms: 1000,
            armor: 2,
            cost: Resources { gold: 600, lumber: 0, oil: 0 },
            build_time: 60,
            produced_in: seq![BuildingKind::OrcBarracks],
            requires_upgrade: false,
            sprite_size: 32,
            sprite: (2, 1),
            naval: false,
            air: false,
            can_harvest: false,
            can_build: false,
        },
        UnitDefModel {
            kind: UnitKind::TrollAxethrower,
            name: "Troll Axethrower"@,
            faction: Faction::Orc,
            hp_max: 40,
            speed: 128,
            sight: 5,
            attack_damage: 3,
            pierce_damage: 6,
            attack_range: 4,
            attack_cooldown_ms: 1000,
            armor: 0,
            cost: Resources { gold: 500, lumber: 50, oil: 0 },
            build_time: 70,
            produced_in: seq![BuildingKind::OrcBarracks],
            requires_upgrade: false,
            sprite_size: 32,
            sprite: (3, 1),
            naval: false,
            air: false,
            can_harvest: false,
            can_build: false,
        },
        UnitDefModel {
            kind: UnitKind::Catapult,
            name: "Catapult"@,
            faction: Faction::Orc,
            hp_max: 110,
            speed: 64,
            sight: 9,
            attack_damage: 80,
            pierce_damage: 0,
            attack_range: 8,
            attack_cooldown_ms: 3500,
            armor: 0,
            cost: Resources { gold: 900, lumber: 300, oil: 0 },
            build_time: 250,
            produced_in: seq![BuildingKind::OrcBlacksmith, BuildingKind::OrcBarracks],
            requires_upgrade: false,
            sprite_size: 48,
            sprite: (4, 1),
            naval: false,
            air: false,
            can_harvest: false,
            can_build: false,
        },
        UnitDefModel {
            kind: UnitKind::OgreKnight,
            name: "Ogre"@,
            faction: Faction::Orc,
            hp_max: 90,
            speed: 128,
            sight: 4,
            attack_damage: 10,
            pierce_damage: 2,
            attack_range: 0,
            attack_cooldown_ms: 1300,
            armor: 4,
            cost: Resources { gold: 800, lumber: 100, oil: 0 },
            build_time: 90,
            produced_in: seq![BuildingKind::OgreMound],
            requires_upgrade: false,
            sprite_size: 40,
            sprite: (5, 1),
            naval: false,
            air: false,
            can_harvest: false,
            can_build: false,
        },
        UnitDefModel {
            kind: UnitKind::DeathKnight,
            name: "Death Knight"@,
            faction: Faction::Orc,
            hp_max: 60,
            speed: 192,
            sight: 9,
            attack_damage: 0,
            pierce_damage: 9,
            attack_range: 5,
            attack_cooldown_ms: 1500,
            armor: 0,
            cost: Resources { gold: 1200, lumber: 0, oil: 0 },
            build_time: 120,
            produced_in: seq![BuildingKind::AltarOfStorms],
            requires_upgrade: false,
            sprite_size: 32,
            sprite: (6, 1),
            naval: false,
            air: false,
            can_harvest: false,
            can_build: false,
        },
        UnitDefModel {
            kind: UnitKind::DragonRider,
            name: "Dragon"@,
            faction: Faction::Orc,
            hp_max: 100,
            speed: 384,
            sight: 6,
            attack_damage: 16,
            pierce_damage: 0,
            attack_range: 0,
            attack_cooldown_ms: 1500,
            armor: 5,
            cost: Resources { gold: 2500, lumber: 0, oil: 0 },
            build_time: 250,
            produced_in: seq![BuildingKind::DragonRoost],
            requires_upgrade: false,
            sprite_size: 40,
            sprite: (7, 1),
            naval: false,
            air: true,
            can_harvest: false,
            can_build: false,
        },
    ]
}

/// Entry `i` of the unit table.
fn unit_def_at(i: usize) -> (d: UnitDef)
    requires
        i < unit_table().len(),
    ensures
        d@ == unit_table()[i as int],
{
    match i {
        0 => {
            let d = UnitDef {
                kind: UnitKind::Peasant,
                name: "Peasant",
                faction: Faction::Human,
                hp_max: 30,
                speed: 128,
                sight: 4,
                attack_damage: 3,
                pierce_damage: 0,
                attack_range: 0,
                attack_cooldown_ms: 1500,
                armor: 0,
                cost: Resources { gold: 400, lumber: 0, oil: 0 },
                build_time: 45,
                produced_in: vec![BuildingKind::TownHall, BuildingKind::Keep, BuildingKind::Castle],
                requires_upgrade: false,
                sprite_size: 32,
                sprite: (1, 0),
                naval: false,
                air: false,
                can_harvest: true,
                can_build: true,
            };
            assert(d@ =~= unit_table()[0]);
            d
        },
        1 => {
            let d = UnitDef {
                kind: UnitKind::Footman,
                name: "Footman",
                faction: Faction::Human,
                hp_max: 60,
                speed: 128,
                sight: 4,
                attack_damage: 6,
                pierce_damage: 3,
                attack_range: 0,
                attack_cooldown_ms: 1000,
                armor: 2,
                cost: Resources { gold: 600, lumber: 0, oil: 0 },
                build_time: 60,
                produced_in: vec![BuildingKind::Barracks],
                requires_upgrade: false,
                sprite_size: 32,
                sprite: (2, 0),
                naval: false,
                air: false,
                can_harvest: false,
                can_build: false,
            };
            assert(d@ =~= unit_table()[1]);
            d
        },
        2 => {
            let d = UnitDef {
                kind: UnitKind::Archer,
                name: "Elven Archer",
                faction: Faction::Human,
                hp_max: 40,
                speed: 128,
                sight: 5,
                attack_damage: 3,
                pierce_damage: 6,
                attack_range: 4,
                attack_cooldown_ms: 1000,
                armor: 0,
                cost: Resources { gold: 500, lumber: 50, oil: 0 },
                build_time: 70,
                produced_in: vec![BuildingKind::Barracks],
                requires_upgrade: false,
                sprite_size: 32,
                sprite: (3, 0),
                naval: false,
                air: false,
                can_harvest: false,
                can_build: false,
            };
            assert(d@ =~= unit_table()[2]);
            d
        },
        3 => {
            let d = UnitDef {
                kind: UnitKind::Ballista,
                name: "Ballista",
                faction: Faction::Human,
                hp_max: 110,
                speed: 64,
                sight: 9,
                attack_damage: 80,
                pierce_damage: 0,
                attack_range: 8,
                attack_cooldown_ms: 3500,
                armor: 0,
                cost: Resources { gold: 900, lumber: 300, oil: 0 },
                build_time: 250,
                produced_in: vec![BuildingKind::Blacksmith, BuildingKind::Barracks],
                requires_upgrade: false,
                sprite_size: 48,
                sprite: (4, 0),
                naval: false,
                air: false,
                can_harvest: false,
                can_build: false,
            };
            assert(d@ =~= unit_table()[3]);
            d
        },
        4 => {
            let d = UnitDef {
                kind: UnitKind::Knight,
                name: "Knight",
                faction: Faction::Human,
                hp_max: 90,
                speed: 192,
                sight: 4,
                attack_damage: 8,
                pierce_damage: 4,
                attack_range: 0,
                attack_cooldown_ms: 1000,
                armor: 4,
                cost: Resources { gold: 800, lumber: 100, oil: 0 },
                build_time: 90,
                produced_in: vec![BuildingKind::Stables],
                requires_upgrade: false,
                sprite_size: 32,
                sprite: (5, 0),
                naval: false,
                air: false,
                can_harvest: false,
                can_build: false,
            };
            assert(d@ =~= unit_table()[4]);
            d
        },
        5 => {
            let d = UnitDef {
                kind: UnitKind::Mage,
                name: "Mage",
                faction: Faction::Human,
                hp_max: 35,
                speed: 128,
                sight: 9,
                attack_damage: 0,
                pierce_damage: 9,
                attack_range: 5,
                attack_cooldown_ms: 1500,
                armor: 0,
                cost: Resources { gold: 1200, lumber: 0, oil: 0 },
                build_time: 120,
                produced_in: vec![BuildingKind::MageTower],
                requires_upgrade: false,
                sprite_size: 32,
                sprite: (6, 0),
                naval: false,
                air: false,
                can_harvest: false,
                can_build: false,
            };
            assert(d@ =~= unit_table()[5]);
            d
        },
        6 => {
            let d = UnitDef {
                kind: UnitKind::GryphonRider,
                name: "Gryphon Rider",
                faction: Faction::Human,
                hp_max: 100,
                speed: 384,
                sight: 6,
                attack_damage: 16,
                pierce_damage: 0,
                attack_range: 0,
                attack_cooldown_ms: 1500,
                armor: 5,
                cost: Resources { gold: 2500, lumber: 0, oil: 0 },
                build_time: 250,
                produced_in: vec![BuildingKind::GryphonAviary],
                requires_upgrade: false,
                sprite_size: 40,
                sprite: (7, 0),
                naval: false,
                air: true,
                can_harvest: false,
                can_build: false,
            };
            assert(d@ =~= unit_table()[6]);
            d
        },
        7 => {
            let d = UnitDef {
                kind: UnitKind::Peon,
                name: "Peon",
                faction: Faction::Orc,
                hp_max: 30,
                speed: 128,
                sight: 4,
                attack_damage: 3,
                pierce_damage: 0,
                attack_range: 0,
                attack_cooldown_ms: 1500,
                armor: 0,
                cost: Resources { gold: 400, lumber: 0, oil: 0 },
                build_time: 45,
                produced_in: vec![BuildingKind::GreatHall, BuildingKind::Stronghold, BuildingKind::Fortress],
                requires_upgrade: false,
                sprite_size: 32,
                sprite: (1, 1),
                naval: false,
                air: false,
                can_harvest: true,
                can_build: true,
            };
            assert(d@ =~= unit_table()[7]);
            d
        },
        8 => {
            let d = UnitDef {
                kind: UnitKind::Grunt,
                name: "Grunt",
                faction: Faction::Orc,
                hp_max: 60,
                speed: 128,
                sight: 4,
                attack_damage: 8,
                pierce_damage: 2,
                attack_range: 0,
                attack_cooldown_ms: 1000,
                armor: 2,
                cost: Resources { gold: 600, lumber: 0, oil: 0 },
                build_time: 60,
                produced_in: vec![BuildingKind::OrcBarracks],
                requires_upgrade: false,
                sprite_size: 32,
                sprite: (2, 1),
                naval: false,
                air: false,
                can_harvest: false,
                can_build: false,
            };
            assert(d@ =~= unit_table()[8]);
            d
        },
        9 => {
            let d = UnitDef {
                kind: UnitKind::TrollAxethrower,
                name: "Troll Axethrower",
                faction: Faction::Orc,
                hp_max: 40,
                speed: 128,
                sight: 5,
                attack_damage: 3,
                pierce_damage: 6,
                attack_range: 4,
                attack_cooldown_ms: 1000,
                armor: 0,
                cost: Resources { gold: 500, lumber: 50, oil: 0 },
                build_time: 70,
                produced_in: vec![BuildingKind::OrcBarracks],
                requires_upgrade: false,
                sprite_size: 32,
                sprite: (3, 1),
                naval: false,
                air: false,
                can_harvest: false,
                can_build: false,
            };
            assert(d@ =~= unit_table()[9]);
            d
        },
        10 => {
            let d = UnitDef {
                kind: UnitKind::Catapult,
                name: "Catapult",
                faction: Faction::Orc,
                hp_max: 110,
                speed: 64,
                sight: 9,
                attack_damage: 80,
                pierce_damage: 0,
                attack_range: 8,
                attack_cooldown_ms: 3500,
                armor: 0,
                cost: Resources { gold: 900, lumber: 300, oil: 0 },
                build_time: 250,
                produced_in: vec![BuildingKind::OrcBlacksmith, BuildingKind::OrcBarracks],
                requires_upgrade: false,
                sprite_size: 48,
                sprite: (4, 1),
                naval: false,
                air: false,
                can_harvest: false,
                can_build: false,
            };
            assert(d@ =~= unit_table()[10]);
            d
        },
        11 => {
            let d = UnitDef {
                kind: UnitKind::OgreKnight,
                name: "Ogre",
                faction: Faction::Orc,
                hp_max: 90,
                speed: 128,
                sight: 4,
                attack_damage: 10,
                pierce_damage: 2,
                attack_range: 0,
                attack_cooldown_ms: 1300,
                armor: 4,
                cost: Resources { gold: 800, lumber: 100, oil: 0 },
                build_time: 90,
                produced_in: vec![BuildingKind::OgreMound],
                requires_upgrade: false,
                sprite_size: 40,
                sprite: (5, 1),
                naval: false,
                air: false,
                can_harvest: false,
                can_build: false,
            };
            assert(d@ =~= unit_table()[11]);
            d
        },
        12 => {
            let d = UnitDef {
                kind: UnitKind::DeathKnight,
                name: "Death Knight",
                faction: Faction::Orc,
                hp_max: 60,
                speed: 192,
                sight: 9,
                attack_damage: 0,
                pierce_damage: 9,
                attack_range: 5,
                attack_cooldown_ms: 1500,
                armor: 0,
                cost: Resources { gold: 1200, lumber: 0, oil: 0 },
                build_time: 120,
                produced_in: vec![BuildingKind::AltarOfStorms],
                requires_upgrade: false,
                sprite_size: 32,
                sprite: (6, 1),
                naval: false,
                air: false,
                can_harvest: false,
                can_build: false,
            };
            assert(d@ =~= unit_table()[12]);
            d
        },
        _ => {
            let d = UnitDef {
                kind: UnitKind::DragonRider,
                name: "Dragon",
                faction: Faction::Orc,
                hp_max: 100,
                speed: 384,
                sight: 6,
                attack_damage: 16,
                pierce_damage: 0,
                attack_range: 0,
                attack_cooldown_ms: 1500,
                armor: 5,
                cost: Resources { gold: 2500, lumber: 0, oil: 0 },
                build_time: 250,
                produced_in: vec![BuildingKind::DragonRoost],
                requires_upgrade: false,
                sprite_size: 40,
                sprite: (7, 1),
                naval: false,
                air: true,
                can_harvest: false,
                can_build: false,
            };
            assert(d@ =~= unit_table()[13]);
            d
        },
    }
}

/// All unit definitions, in table order.
pub fn all_unit_defs() -> (r: Vec<UnitDef>)
    ensures
        r@.len() == unit_table().len(),
        forall|i: int| 0 <= i < r@.len() ==> #[trigger] r@[i]@ == unit_table()[i],
{
    let n: usize = 14;
    assert(unit_table().len() == n);
    let mut v: Vec<UnitDef> = Vec::new();
    for i in 0..n
        invariant
            n == unit_table().len(),
            v@.len() == i,
            forall|k: int| 0 <= k < i ==> #[trigger] v@[k]@ == unit_table()[k],
    {
        v.push(unit_def_at(i));
    }
    v
}

#[derive(Clone, Copy, Debug, PartialEq, Eq, Hash, Structural)]
pub enum BuildingKind {
    // Human
    TownHall,
    Keep,
    Castle,
    Farm,
    Barracks,
    LumberMill,
    Blacksmith,
    Tower,
    Church,
    Stables,
    MageTower,
    GryphonAviary,
    Shipyard,
    /// Gnomish Inventor.
    FoundryH,
    OilRefinery,
    // Orc
    GreatHall,
    Stronghold,
    Fortress,
    PigFarm,
    OrcBarracks,
    TrollLumberMill,
    OrcBlacksmith,
    WatchTower,
    AltarOfStorms,
    OgreMound,
    WarlockTower,
    DragonRoost,
    OrcShipyard,
    FoundryO,
    OilRefineryO,
    // Neutral
    GoldMine,
    OilPlatform,
    Runestone,
}

/// Definition of a building kind. The build time is in seconds.
#[derive(Debug)]
pub struct BuildingDef {
    pub kind: BuildingKind,
    pub name: &'static str,
    pub faction: Faction,
    pub hp_max: i32,
    pub armor: i32,
    /// Side of its square footprint, in tiles.
    pub size_tiles: u32,
    pub cost: Resources,
    pub build_time: u32,
    /// The units it trains.
    pub produces: Vec<UnitKind>,
    /// The buildings that must stand before it can be built.
    pub required_buildings: Vec<BuildingKind>,
    /// Food it provides.
    pub food_provided: u32,
    /// Column and row in the sprite sheet.
    pub sprite: (u32, u32),
    /// What it can be upgraded to.
    pub upgrades_to: Option<BuildingKind>,
}

impl Clone for BuildingDef {
    fn clone(&self) -> (r: Self)
        ensures
            r@ == self@,
    {
        let produces = self.produces.clone();
        let required_buildings = self.required_buildings.clone();
        assert(produces@ =~= self.produces@);
        assert(required_buildings@ =~= self.required_buildings@);
        BuildingDef {
            kind: self.kind,
            name: self.name,
            faction: self.faction,
            hp_max: self.hp_max,
            armor: self.armor,
            size_tiles: self.size_tiles,
            cost: self.cost,
            build_time: self.build_time,
            produces,
            required_buildings,
            food_provided: self.food_provided,
            sprite: self.sprite,
            upgrades_to: self.upgrades_to,
        }
    }
}

/// Mathematical model of a `BuildingDef`.
#[verifier::ext_equal]
pub struct BuildingDefModel {
    pub kind: BuildingKind,
    pub name: Seq<char>,
    pub faction: Faction,
    pub hp_max: i32,
    pub armor: i32,
    pub size_tiles: u32,
    pub cost: Resources,
    pub build_time: u32,
    pub produces: Seq<UnitKind>,
    pub required_buildings: Seq<BuildingKind>,
    pub food_provided: u32,
    pub sprite: (u32, u32),
    pub upgrades_to: Option<BuildingKind>,
}

impl View for BuildingDef {
    type V = BuildingDefModel;

    open spec fn view(&self) -> BuildingDefModel {
        BuildingDefModel {
            kind: self.kind,
            name: self.name@,
            faction: self.faction,
            hp_max: self.hp_max,
            armor: self.armor,
            size_tiles: self.size_tiles,
            cost: self.cost,
            build_time: self.build_time,
            produces: self.produces@,
            required_buildings: self.required_buildings@,
            food_provided: self.food_provided,
            sprite: self.sprite,
            upgrades_to: self.upgrades_to,
        }
    }
}

/// The building definitions of the game, in table order.
pub open spec fn building_table() -> Seq<BuildingDefModel> {
    seq![
        BuildingDefModel {
            kind: BuildingKind::TownHall,
            name: "Town Hall"@,
            faction: Faction::Human,
            hp_max: 1200,
            armor: 0,
            size_tiles: 4,
            cost: Resources { gold: 1200, lumber: 800, oil: 0 },
            build_time: 255,
            produces: seq![UnitKind::Peasant],
            required_buildings: Seq::<BuildingKind>::empty(),
            food_provided: 0,
            sprite: (0, 2),
            upgrades_to: Some(BuildingKind::Keep),
        },
        BuildingDefModel {
            kind: BuildingKind::Keep,
            name: "Keep"@,
            faction: Faction::Human,
            hp_max: 1400,
            armor: 0,
            size_tiles: 4,
            cost: Resources { gold: 2000, lumber: 1000, oil: 0 },
            build_time: 200,
            produces: seq![UnitKind::Peasant],
            required_buildings: seq![BuildingKind::Barracks, BuildingKind::LumberMill],
            food_provided: 0,
            sprite: (1, 2),
            upgrades_to: Some(BuildingKind::Castle),
        },
        BuildingDefModel {
            kind: BuildingKind::Castle,
            name: "Castle"@,
            faction: Faction::Human,
            hp_max: 1600,
            armor: 0,
            size_tiles: 4,
            cost: Resources { gold: 2500, lumber: 1200, oil: 0 },
            build_time: 200,
            produces: seq![UnitKind::Peasant],
            required_buildings: seq![BuildingKind::Church, BuildingKind::Stables, BuildingKind::MageTower],
            food_provided: 0,
            sprite: (2, 2),
            upgrades_to: None,
        },
        BuildingDefModel {
            kind: BuildingKind::Farm,
            name: "Farm"@,
            faction: Faction::Human,
            hp_max: 400,
            armor: 0,
            size_tiles: 2,
            cost: Resources { gold: 500, lumber: 250, oil: 0 },
            build_time: 100,
            produces: Seq::<UnitKind>::empty(),
            required_buildings: Seq::<BuildingKind>::empty(),
            food_provided: 4,
            sprite: (3, 2),
            upgrades_to: None,
        },
        BuildingDefModel {
            kind: BuildingKind::Barracks,
            name: "Barracks"@,
            faction: Faction::Human,
            hp_max: 800,
            armor: 0,
            size_tiles: 3,
            cost: Resources { gold: 700, lumber: 450, oil: 0 },
            build_time: 200,
            produces: seq![UnitKind::Footman, UnitKind::Archer, UnitKind::Ballista],
            required_buildings: seq![BuildingKind::Farm],
            food_provided: 0,
            sprite: (4, 2),
            upgrades_to: None,
        },
        BuildingDefModel {
            kind: BuildingKind::LumberMill,
            name: "Lumber Mill"@,
            faction: Faction::Human,
            hp_max: 600,
            armor: 0,
            size_tiles: 3,
            cost: Resources { gold: 600, lumber: 450, oil: 0 },
            build_time: 150,
            produces: Seq::<UnitKind>::empty(),
            required_buildings: seq![BuildingKind::Barracks],
            food_provided: 0,
            sprite: (5, 2),
            upgrades_to: None,
        },
        BuildingDefModel {
            kind: BuildingKind::Blacksmith,
            name: "Blacksmith"@,
            faction: Faction::Human,
            hp_max: 775,
            armor: 0,
            size_tiles: 3,
            cost: Resources { gold: 800, lumber: 450, oil: 0 },
            build_time: 200,
            produces: seq![UnitKind::Ballista],
            required_buildings: seq![BuildingKind::LumberMill],
            food_provided: 0,
            sprite: (6, 2),
            upgrades_to: None,
        },
        BuildingDefModel {
            kind: BuildingKind::Tower,
            name: "Guard Tower"@,
            faction: Faction::Human,
            hp_max: 130,
            armor: 2,
            size_tiles: 1,
            cost: Resources { gold: 550, lumber: 200, oil: 0 },
            build_time: 140,
            produces: Seq::<UnitKind>::empty(),
            required_buildings: seq![BuildingKind::Barracks],
            food_provided: 0,
            sprite: (7, 2),
            upgrades_to: None,
        },
        BuildingDefModel {
            kind: BuildingKind::Stables,
            name: "Stables"@,
            faction: Faction::Human,
            hp_max: 600,
            armor: 0,
            size_tiles: 3,
            cost: Resources { gold: 1000, lumber: 300, oil: 0 },
            build_time: 150,
            produces: seq![UnitKind::Knight],
            required_buildings: seq![BuildingKind::Keep],
            food_provided: 0,
            sprite: (0, 3),
            upgrades_to: None,
        },
        BuildingDefModel {
            kind: BuildingKind::Church,
            name: "Church"@,
            faction: Faction::Human,
            hp_max: 700,
            armor: 0,
            size_tiles: 3,
            cost: Resources { gold: 900, lumber: 500, oil: 0 },
            build_time: 175,
            produces: Seq::<UnitKind>::empty(),
            required_buildings: seq![BuildingKind::Keep],
            food_provided: 0,
            sprite: (1, 3),
            upgrades_to: None,
        },
        BuildingDefModel {
            kind: BuildingKind::MageTower,
            name: "Mage Tower"@,
            faction: Faction::Human,
            hp_max: 500,
            armor: 0,
            size_tiles: 2,
            cost: Resources { gold: 1000, lumber: 200, oil: 0 },
            build_time: 125,
            produces: seq![UnitKind::Mage],
            required_buildings: seq![BuildingKind::Keep],
            food_provided: 0,
            sprite: (2, 3),
            upgrades_to: None,
        },
        BuildingDefModel {
            kind: BuildingKind::GryphonAviary,
            name: "Gryphon Aviary"@,
            faction: Faction::Human,
            hp_max: 500,
            armor: 0,
            size_tiles: 2,
            cost: Resources { gold: 1000, lumber: 400, oil: 0 },
            build_time: 150,
            produces: seq![UnitKind::GryphonRider],
            required_buildings: seq![BuildingKind::Castle],
            food_provided: 0,
            sprite: (3, 3),
            upgrades_to: None,
        },
        BuildingDefModel {
            kind: BuildingKind::GreatHall,
            name: "Great Hall"@,
            faction: Faction::Orc,
            hp_max: 1200,
            armor: 0,
            size_tiles: 4,
            cost: Resources { gold: 1200, lumber: 800, oil: 0 },
            build_time: 255,
            produces: seq![UnitKind::Peon],
            required_buildings: Seq::<BuildingKind>::empty(),
            food_provided: 0,
            sprite: (4, 3),
            upgrades_to: Some(BuildingKind::Stronghold),
        },
        BuildingDefModel {
            kind: BuildingKind::Stronghold,
            name: "Stronghold"@,
            faction: Faction::Orc,
            hp_max: 1400,
            armor: 0,
            size_tiles: 4,
            cost: Resources { gold: 2000, lumber: 1000, oil: 0 },
            build_time: 200,
            produces: seq![UnitKind::Peon],
            required_buildings: seq![BuildingKind::OrcBarracks, BuildingKind::TrollLumberMill],
            food_provided: 0,
            sprite: (5, 3),
            upgrades_to: Some(BuildingKind::Fortress),
        },
        BuildingDefModel {
            kind: BuildingKind::Fortress,
            name: "Fortress"@,
            faction: Faction::Orc,
            hp_max: 1600,
            armor: 0,
            size_tiles: 4,
            cost: Resources { gold: 2500, lumber: 1200, oil: 0 },
            build_time: 200,
            produces: seq![UnitKind::Peon],
            required_buildings: seq![BuildingKind::AltarOfStorms, BuildingKind::OgreMound, BuildingKind::WarlockTower],
            food_provided: 0,
            sprite: (6, 3),
            upgrades_to: None,
        },
        BuildingDefModel {
            kind: BuildingKind::PigFarm,
            name: "Pig Farm"@,
            faction: Faction::Orc,
            hp_max: 400,
            armor: 0,
            size_tiles: 2,
            cost: Resources { gold: 500, lumber: 250, oil: 0 },
            build_time: 100,
            produces: Seq::<UnitKind>::empty(),
            required_buildings: Seq::<BuildingKind>::empty(),
            food_provided: 4,
            sprite: (7, 3),
            upgrades_to: None,
        },
        BuildingDefModel {
            kind: BuildingKind::OrcBarracks,
            name: "Orc Barracks"@,
            faction: Faction::Orc,
            hp_max: 800,
            armor: 0,
            size_tiles: 3,
            cost: Resources { gold: 700, lumber: 450, oil: 0 },
            build_time: 200,
            produces: seq![UnitKind::Grunt, UnitKind::TrollAxethrower, UnitKind::Catapult],
            required_buildings: seq![BuildingKind::PigFarm],
            food_provided: 0,
            sprite: (0, 4),
            upgrades_to: None,
        },
        BuildingDefModel {
            kind: BuildingKind::TrollLumberMill,
            name: "Troll Lumber Mill"@,
            faction: Faction::Orc,
            hp_max: 600,
            armor: 0,
            size_tiles: 3,
            cost: Resources { gold: 600, lumber: 450, oil: 0 },
            build_time: 150,
            produces: Seq::<UnitKind>::empty(),
            required_buildings: seq![BuildingKind::OrcBarracks],
            food_provided: 0,
            sprite: (1, 4),
            upgrades_to: None,
        },
        BuildingDefModel {
            kind: BuildingKind::OrcBlacksmith,
            name: "Orc Blacksmith"@,
            faction: Faction::Orc,
            hp_max: 775,
            armor: 0,
            size_tiles: 3,
            cost: Resources { gold: 800, lumber: 450, oil: 0 },
            build_time: 200,
            produces: seq![UnitKind::Catapult],
            required_buildings: seq![BuildingKind::TrollLumberMill],
            food_provided: 0,
            sprite: (2, 4),
            upgrades_to: None,
        },
        BuildingDefModel {
            kind: BuildingKind::WatchTower,
            name: "Watch Tower"@,
            faction: Faction::Orc,
            hp_max: 130,
            armor: 2,
            size_tiles: 1,
            cost: Resources { gold: 550, lumber: 200, oil: 0 },
            build_time: 140,
            produces: Seq::<UnitKind>::empty(),
            required_buildings: seq![BuildingKind::OrcBarracks],
            food_provided: 0,
            sprite: (3, 4),
            upgrades_to: None,
        },
        BuildingDefModel {
            kind: BuildingKind::OgreMound,
            name: "Ogre Mound"@,
            faction: Faction::Orc,
            hp_max: 600,
            armor: 0,
            size_tiles: 3,
            cost: Resources { gold: 1000, lumber: 300, oil: 0 },
            build_time: 150,
            produces: seq![UnitKind::OgreKnight],
            required_buildings: seq![BuildingKind::Stronghold],
            food_provided: 0,
            sprite: (4, 4),
            upgrades_to: None,
        },
        BuildingDefModel {
            kind: BuildingKind::AltarOfStorms,
            name: "Altar of Storms"@,
            faction: Faction::Orc,
            hp_max: 700,
            armor: 0,
            size_tiles: 3,
            cost: Resources { gold: 900, lumber: 500, oil: 0 },
            build_time: 175,
            produces: seq![UnitKind::DeathKnight],
            required_buildings: seq![BuildingKind::Stronghold],
            food_provided: 0,
            sprite: (5, 4),
            upgrades_to: None,
        },
        BuildingDefModel {
            kind: BuildingKind::WarlockTower,
            name: "Temple of the Damned"@,
            faction: Faction::Orc,
            hp_max: 500,
            armor: 0,
            size_tiles: 2,
            cost: Resources { gold: 1000, lumber: 200, oil: 0 },
            build_time: 125,
            produces: Seq::<UnitKind>::empty(),
            required_buildings: seq![BuildingKind::Stronghold],
            food_provided: 0,
            sprite: (6, 4),
            upgrades_to: None,
        },
        BuildingDefModel {
            kind: BuildingKind::DragonRoost,
            name: "Dragon Roost"@,
            faction: Faction::Orc,
            hp_max: 500,
            armor: 0,
            size_tiles: 2,
            cost: Resources { gold: 1000, lumber: 400, oil: 0 },
            build_time: 150,
            produces: seq![UnitKind::DragonRider],
            required_buildings: seq![BuildingKind::Fortress],
            food_provided: 0,
            sprite: (7, 4),
            upgrades_to: None,
        },
        BuildingDefModel {
            kind: BuildingKind::GoldMine,
            name: "Gold Mine"@,
            faction: Faction::Neutral,
            hp_max: 25500,
            armor: 0,
            size_tiles: 3,
            cost: Resources { gold: 0, lumber: 0, oil: 0 },
            build_time: 0,
            produces: Seq::<UnitKind>::empty(),
            required_buildings: Seq::<BuildingKind>::empty(),
            food_provided: 0,
            sprite: (0, 5),
            upgrades_to: None,
        },
    ]
}

/// Entry `i` of the building table.
fn building_def_at(i: usize) -> (d: BuildingDef)
    requires
        i < building_table().len(),
    ensures
        d@ == building_table()[i as int],
{
    match i {
        0 => {
            let d = BuildingDef {
                kind: BuildingKind::TownHall,
                name: "Town Hall",
                faction: Faction::Human,
                hp_max: 1200,
                armor: 0,
                size_tiles: 4,
                cost: Resources { gold: 1200, lumber: 800, oil: 0 },
                build_time: 255,
                produces: vec![UnitKind::Peasant],
                required_buildings: vec![],
                food_provided: 0,
                sprite: (0, 2),
                upgrades_to: Some(BuildingKind::Keep),
            };
            assert(d@ =~= building_table()[0]);
            d
        },
        1 => {
            let d = BuildingDef {
                kind: BuildingKind::Keep,
                name: "Keep",
                faction: Faction::Human,
                hp_max: 1400,
                armor: 0,
                size_tiles: 4,
                cost: Resources { gold: 2000, lumber: 1000, oil: 0 },
                build_time: 200,
                produces: vec![UnitKind::Peasant],
                required_buildings: vec![BuildingKind::Barracks, BuildingKind::LumberMill],
                food_provided: 0,
                sprite: (1, 2),
                upgrades_to: Some(BuildingKind::Castle),
            };
            assert(d@ =~= building_table()[1]);
            d
        },
        2 => {
            let d = BuildingDef {
                kind: BuildingKind::Castle,
                name: "Castle",
                faction: Faction::Human,
                hp_max: 1600,
                armor: 0,
                size_tiles: 4,
                cost: Resources { gold: 2500, lumber: 1200, oil: 0 },
                build_time: 200,
                produces: vec![UnitKind::Peasant],
                required_buildings: vec![BuildingKind::Church, BuildingKind::Stables, BuildingKind::MageTower],
                food_provided: 0,
                sprite: (2, 2),
                upgrades_to: None,
            };
            assert(d@ =~= building_table()[2]);
            d
        },
        3 => {
            let d = BuildingDef {
                kind: BuildingKind::Farm,
                name: "Farm",
                faction: Faction::Human,
                hp_max: 400,
                armor: 0,
                size_tiles: 2,
                cost: Resources { gold: 500, lumber: 250, oil: 0 },
                build_time: 100,
                produces: vec![],
                required_buildings: vec![],
                food_provided: 4,
                sprite: (3, 2),
                upgrades_to: None,
            };
            assert(d@ =~= building_table()[3]);
            d
        },
        4 => {
            let d = BuildingDef {
                kind: BuildingKind::Barracks,
                name: "Barracks",
                faction: Faction::Human,
                hp_max: 800,
                armor: 0,
                size_tiles: 3,
                cost: Resources { gold: 700, lumber: 450, oil: 0 },
                build_time: 200,
                produces: vec![UnitKind::Footman, UnitKind::Archer, UnitKind::Ballista],
                required_buildings: vec![BuildingKind::Farm],
                food_provided: 0,
                sprite: (4, 2),
                upgrades_to: None,
            };
            assert(d@ =~= building_table()[4]);
            d
        },
        5 => {
            let d = BuildingDef {
                kind: BuildingKind::LumberMill,
                name: "Lumber Mill",
                faction: Faction::Human,
                hp_max: 600,
                armor: 0,
                size_tiles: 3,
                cost: Resources { gold: 600, lumber: 450, oil: 0 },
                build_time: 150,
                produces: vec![],
                required_buildings: vec![BuildingKind::Barracks],
                food_provided: 0,
                sprite: (5, 2),
                upgrades_to: None,
            };
            assert(d@ =~= building_table()[5]);
            d
        },
        6 => {
            let d = BuildingDef {
                kind: BuildingKind::Blacksmith,
                name: "Blacksmith",
                faction: Faction::Human,
                hp_max: 775,
                armor: 0,
                size_tiles: 3,
                cost: Resources { gold: 800, lumber: 450, oil: 0 },
                build_time: 200,
                produces: vec![UnitKind::Ballista],
                required_buildings: vec![BuildingKind::LumberMill],
                food_provided: 0,
                sprite: (6, 2),
                upgrades_to: None,
            };
            assert(d@ =~= building_table()[6]);
            d
        },
        7 => {
            let d = BuildingDef {
                kind: BuildingKind::Tower,
                name: "Guard Tower",
                faction: Faction::Human,
                hp_max: 130,
                armor: 2,
                size_tiles: 1,
                cost: Resources { gold: 550, lumber: 200, oil: 0 },
                build_time: 140,
                produces: vec![],
                required_buildings: vec![BuildingKind::Barracks],
                food_provided: 0,
                sprite: (7, 2),
                upgrades_to: None,
            };
            assert(d@ =~= building_table()[7]);
            d
        },
        8 => {
            let d = BuildingDef {
                kind: BuildingKind::Stables,
                name: "Stables",
                faction: Faction::Human,
                hp_max: 600,
                armor: 0,
                size_tiles: 3,
                cost: Resources { gold: 1000, lumber: 300, oil: 0 },
                build_time: 150,
                produces: vec![UnitKind::Knight],
                required_buildings: vec![BuildingKind::Keep],
                food_provided: 0,
                sprite: (0, 3),
                upgrades_to: None,
            };
            assert(d@ =~= building_table()[8]);
            d
        },
        9 => {
            let d = BuildingDef {
                kind: BuildingKind::Church,
                name: "Church",
                faction: Faction::Human,
                hp_max: 700,
                armor: 0,
                size_tiles: 3,
                cost: Resources { gold: 900, lumber: 500, oil: 0 },
                build_time: 175,
                produces: vec![],
                required_buildings: vec![BuildingKind::Keep],
                food_provided: 0,
                sprite: (1, 3),
                upgrades_to: None,
            };
            assert(d@ =~= building_table()[9]);
            d
        },
        10 => {
            let d = BuildingDef {
                kind: BuildingKind::MageTower,
                name: "Mage Tower",
                faction: Faction::Human,
                hp_max: 500,
                armor: 0,
                size_tiles: 2,
                cost: Resources { gold: 1000, lumber: 200, oil: 0 },
                build_time: 125,
                produces: vec![UnitKind::Mage],
                required_buildings: vec![BuildingKind::Keep],
                food_provided: 0,
                sprite: (2, 3),
                upgrades_to: None,
            };
            assert(d@ =~= building_table()[10]);
            d
        },
        11 => {
            let d = BuildingDef {
                kind: BuildingKind::GryphonAviary,
                name: "Gryphon Aviary",
                faction: Faction::Human,
                hp_max: 500,
                armor: 0,
                size_tiles: 2,
                cost: Resources { gold: 1000, lumber: 400, oil: 0 },
                build_time: 150,
                produces: vec![UnitKind::GryphonRider],
                required_buildings: vec![BuildingKind::Castle],
                food_provided: 0,
                sprite: (3, 3),
                upgrades_to: None,
            };
            assert(d@ =~= building_table()[11]);
            d
        },
        12 => {
            let d = BuildingDef {
                kind: BuildingKind::GreatHall,
                name: "Great Hall",
                faction: Faction::Orc,
                hp_max: 1200,
                armor: 0,
                size_tiles: 4,
                cost: Resources { gold: 1200, lumber: 800, oil: 0 },
                build_time: 255,
                produces: vec![UnitKind::Peon],
                required_buildings: vec![],
                food_provided: 0,
                sprite: (4, 3),
                upgrades_to: Some(BuildingKind::Stronghold),
            };
            assert(d@ =~= building_table()[12]);
            d
        },
        13 => {
            let d = BuildingDef {
                kind: BuildingKind::Stronghold,
                name: "Stronghold",
                faction: Faction::Orc,
                hp_max: 1400,
                armor: 0,
                size_tiles: 4,
                cost: Resources { gold: 2000, lumber: 1000, oil: 0 },
                build_time: 200,
                produces: vec![UnitKind::Peon],
                required_buildings: vec![BuildingKind::OrcBarracks, BuildingKind::TrollLumberMill],
                food_provided: 0,
                sprite: (5, 3),
                upgrades_to: Some(BuildingKind::Fortress),
            };
            assert(d@ =~= building_table()[13]);
            d
        },
        14 => {
            let d = BuildingDef {
                kind: BuildingKind::Fortress,
                name: "Fortress",
                faction: Faction::Orc,
                hp_max: 1600,
                armor: 0,
                size_tiles: 4,
                cost: Resources { gold: 2500, lumber: 1200, oil: 0 },
                build_time: 200,
                produces: vec![UnitKind::Peon],
                required_buildings: vec![BuildingKind::AltarOfStorms, BuildingKind::OgreMound, BuildingKind::WarlockTower],
                food_provided: 0,
                sprite: (6, 3),
                upgrades_to: None,
            };
            assert(d@ =~= building_table()[14]);
            d
        },
        15 => {
            let d = BuildingDef {
                kind: BuildingKind::PigFarm,
                name: "Pig Farm",
                faction: Faction::Orc,
                hp_max: 400,
                armor: 0,
                size_tiles: 2,
                cost: Resources { gold: 500, lumber: 250, oil: 0 },
                build_time: 100,
                produces: vec![],
                required_buildings: vec![],
                food_provided: 4,
                sprite: (7, 3),
                upgrades_to: None,
            };
            assert(d@ =~= building_table()[15]);
            d
        },
        16 => {
            let d = BuildingDef {
                kind: BuildingKind::OrcBarracks,
                name: "Orc Barracks",
                faction: Faction::Orc,
                hp_max: 800,
                armor: 0,
                size_tiles: 3,
                cost: Resources { gold: 700, lumber: 450, oil: 0 },
                build_time: 200,
                produces: vec![UnitKind::Grunt, UnitKind::TrollAxethrower, UnitKind::Catapult],
                required_buildings: vec![BuildingKind::PigFarm],
                food_provided: 0,
                sprite: (0, 4),
                upgrades_to: None,
            };
            assert(d@ =~= building_table()[16]);
            d
        },
        17 => {
            let d = BuildingDef {
                kind: BuildingKind::TrollLumberMill,
                name: "Troll Lumber Mill",
                faction: Faction::Orc,
                hp_max: 600,
                armor: 0,
                size_tiles: 3,
                cost: Resources { gold: 600, lumber: 450, oil: 0 },
                build_time: 150,
                produces: vec![],
                required_buildings: vec![BuildingKind::OrcBarracks],
                food_provided: 0,
                sprite: (1, 4),
                upgrades_to: None,
            };
            assert(d@ =~= building_table()[17]);
            d
        },
        18 => {
            let d = BuildingDef {
                kind: BuildingKind::OrcBlacksmith,
                name: "Orc Blacksmith",
                faction: Faction::Orc,
                hp_max: 775,
                armor: 0,
                size_tiles: 3,
                cost: Resources { gold: 800, lumber: 450, oil: 0 },
                build_time: 200,
                produces: vec![UnitKind::Catapult],
                required_buildings: vec![BuildingKind::TrollLumberMill],
                food_provided: 0,
                sprite: (2, 4),
                upgrades_to: None,
            };
            assert(d@ =~= building_table()[18]);
            d
        },
        19 => {
            let d = BuildingDef {
                kind: BuildingKind::WatchTower,
                name: "Watch Tower",
                faction: Faction::Orc,
                hp_max: 130,
                armor: 2,
                size_tiles: 1,
                cost: Resources { gold: 550, lumber: 200, oil: 0 },
                build_time: 140,
                produces: vec![],
                required_buildings: vec![BuildingKind::OrcBarracks],
                food_provided: 0,
                sprite: (3, 4),
                upgrades_to: None,
            };
            assert(d@ =~= building_table()[19]);
            d
        },
        20 => {
            let d = BuildingDef {
                kind: BuildingKind::OgreMound,
                name: "Ogre Mound",
                faction: Faction::Orc,
                hp_max: 600,
                armor: 0,
                size_tiles: 3,
                cost: Resources { gold: 1000, lumber: 300, oil: 0 },
                build_time: 150,
                produces: vec![UnitKind::OgreKnight],
                required_buildings: vec![BuildingKind::Stronghold],
                food_provided: 0,
                sprite: (4, 4),
                upgrades_to: None,
            };
            assert(d@ =~= building_table()[20]);
            d
        },
        21 => {
            let d = BuildingDef {
                kind: BuildingKind::AltarOfStorms,
                name: "Altar of Storms",
                faction: Faction::Orc,
                hp_max: 700,
                armor: 0,
                size_tiles: 3,
                cost: Resources { gold: 900, lumber: 500, oil: 0 },
                build_time: 175,
                produces: vec![UnitKind::DeathKnight],
                required_buildings: vec![BuildingKind::Stronghold],
                food_provided: 0,
                sprite: (5, 4),
                upgrades_to: None,
            };
            assert(d@ =~= building_table()[21]);
            d
        },
        22 => {
            let d = BuildingDef {
                kind: BuildingKind::WarlockTower,
                name: "Temple of the Damned",
                faction: Faction::Orc,
                hp_max: 500,
                armor: 0,
                size_tiles: 2,
                cost: Resources { gold: 1000, lumber: 200, oil: 0 },
                build_time: 125,
                produces: vec![],
                required_buildings: vec![BuildingKind::Stronghold],
                food_provided: 0,
                sprite: (6, 4),
                upgrades_to: None,
            };
            assert(d@ =~= building_table()[22]);
            d
        },
        23 => {
            let d = BuildingDef {
                kind: BuildingKind::DragonRoost,
                name: "Dragon Roost",
                faction: Faction::Orc,
                hp_max: 500,
                armor: 0,
                size_tiles: 2,
                cost: Resources { gold: 1000, lumber: 400, oil: 0 },
                build_time: 150,
                produces: vec![UnitKind::DragonRider],
                required_buildings: vec![BuildingKind::Fortress],
                food_provided: 0,
                sprite: (7, 4),
                upgrades_to: None,
            };
            assert(d@ =~= building_table()[23]);
            d
        },
        _ => {
            let d = BuildingDef {
                kind: BuildingKind::GoldMine,
                name: "Gold Mine",
                faction: Faction::Neutral,
                hp_max: 25500,
                armor: 0,
                size_tiles: 3,
                cost: Resources { gold: 0, lumber: 0, oil: 0 },
                build_time: 0,
                produces: vec![],
                required_buildings: vec![],
                food_provided: 0,
                sprite: (0, 5),
                upgrades_to: None,
            };
            assert(d@ =~= building_table()[24]);
            d
        },
    }
}

/// All building definitions, in table order.
pub fn all_building_defs() -> (r: Vec<BuildingDef>)
    ensures
        r@.len() == building_table().len(),
        forall|i: int| 0 <= i < r@.len() ==> #[trigger] r@[i]@ == building_table()[i],
{
    let n: usize = 25;
    assert(building_table().len() == n);
    let mut v: Vec<BuildingDef> = Vec::new();
    for i in 0..n
        invariant
            n == building_table().len(),
            v@.len() == i,
            forall|k: int| 0 <= k < i ==> #[trigger] v@[k]@ == building_table()[k],
    {
        v.push(building_def_at(i));
    }
    v
}

/// The definition of unit kind `kind`: the first entry of the unit table
/// with that kind, `None` for a kind the table does not list.
pub fn unit_def(kind: UnitKind) -> (r: Option<UnitDef>)
    ensures
        match r {
            Some(d) => exists|i: int|
                0 <= i < unit_table().len() && #[trigger] unit_table()[i].kind == kind && d@ == unit_table()[i]
                    && forall|j: int| 0 <= j < i ==> unit_table()[j].kind != kind,
            None => forall|i: int| 0 <= i < unit_table().len() ==> #[trigger] unit_table()[i].kind != kind,
        },
{
    let mut all = all_unit_defs();
    let n = all.len();
    for i in 0..n
        invariant
            n == all@.len(),
            n == unit_table().len(),
            forall|k: int| 0 <= k < n ==> #[trigger] all@[k]@ == unit_table()[k],
            forall|j: int| 0 <= j < i ==> #[trigger] unit_table()[j].kind != kind,
    {
        assert(all@[i as int]@ == unit_table()[i as int]);
        if all[i].kind == kind {
            let d = all.remove(i);
            return Some(d);
        }
    }
    None
}

/// The definition of building kind `kind`: the first entry of the building
/// table with that kind, `None` for a kind the table does not list.
pub fn building_def(kind: BuildingKind) -> (r: Option<BuildingDef>)
    ensures
        match r {
            Some(d) => exists|i: int|
                0 <= i < building_table().len() && #[trigger] building_table()[i].kind == kind && d@
                    == building_table()[i] && forall|j: int| 0 <= j < i ==> building_table()[j].kind != kind,
            None => forall|i: int| 0 <= i < building_table().len() ==> #[trigger] building_table()[i].kind != kind,
        },
{
    let mut all = all_building_defs();
    let n = all.len();
    for i in 0..n
        invariant
            n == all@.len(),
            n == building_table().len(),
            forall|k: int| 0 <= k < n ==> #[trigger] all@[k]@ == building_table()[k],
            forall|j: int| 0 <= j < i ==> #[trigger] building_table()[j].kind != kind,
    {
        assert(all@[i as int]@ == building_table()[i as int]);
        if all[i].kind == kind {
            let d = all.remove(i);
            return Some(d);
        }
    }
    None
}

/// No unit kind has two entries in the unit table, so a kind names its
/// definition.
pub proof fn law_unit_kinds_distinct()
    ensures
        forall|i: int, j: int|
            0 <= i < j < unit_table().len() ==> #[trigger] unit_table()[i].kind != #[trigger] unit_table()[j].kind,
{
    let t = unit_table();
    let kinds = t.map_values(|d: UnitDefModel| d.kind);
    assert(kinds =~= seq![
        UnitKind::Peasant,
        UnitKind::Footman,
        UnitKind::Archer,
        UnitKind::Ballista,
        UnitKind::Knight,
        UnitKind::Mage,
        UnitKind::GryphonRider,
        UnitKind::Peon,
        UnitKind::Grunt,
        UnitKind::TrollAxethrower,
        UnitKind::Catapult,
        UnitKind::OgreKnight,
        UnitKind::DeathKnight,
        UnitKind::DragonRider
    ]);
    assert forall|i: int, j: int| 0 <= i < j < t.len() implies #[trigger] t[i].kind != #[trigger] t[j].kind by {
        assert(kinds[i] == t[i].kind && kinds[j] == t[j].kind);
    }
}

/// No building kind has two entries in the building table.
pub proof fn law_building_kinds_distinct()
    ensures
        forall|i: int, j: int|
            0 <= i < j < building_table().len() ==> #[trigger] building_table()[i].kind
                != #[trigger] building_table()[j].kind,
{
    let t = building_table();
    let kinds = t.map_values(|d: BuildingDefModel| d.kind);
    assert(kinds =~= seq![
        BuildingKind::TownHall,
        BuildingKind::Keep,
        BuildingKind::Castle,
        BuildingKind::Farm,
        BuildingKind::Barracks,
        BuildingKind::LumberMill,
        BuildingKind::Blacksmith,
        BuildingKind::Tower,
        BuildingKind::Stables,
        BuildingKind::Church,
        BuildingKind::MageTower,
        BuildingKind::GryphonAviary,
        BuildingKind::GreatHall,
        BuildingKind::Stronghold,
        BuildingKind::Fortress,
        BuildingKind::PigFarm,
        BuildingKind::OrcBarracks,
        BuildingKind::TrollLumberMill,
        BuildingKind::OrcBlacksmith,
        BuildingKind::WatchTower,
        BuildingKind::OgreMound,
        BuildingKind::AltarOfStorms,
        BuildingKind::WarlockTower,
        BuildingKind::DragonRoost,
        BuildingKind::GoldMine
    ]);
    assert forall|i: int, j: int| 0 <= i < j < t.len() implies #[trigger] t[i].kind != #[trigger] t[j].kind by {
        assert(kinds[i] == t[i].kind && kinds[j] == t[j].kind);
    }
}

/// Building `b` trains units of kind `u`: the production relation that the
/// unit table (`produced_in`) and the building table (`produces`) both list.
pub open spec fn trains(b: BuildingKind, u: UnitKind) -> bool {
    match u {
        UnitKind::Peasant => b == BuildingKind::TownHall || b == BuildingKind::Keep || b == BuildingKind::Castle,
        UnitKind::Footman => b == BuildingKind::Barracks,
        UnitKind::Archer => b == BuildingKind::Barracks,
        UnitKind::Ballista => b == BuildingKind::Blacksmith || b == BuildingKind::Barracks,
        UnitKind::Knight => b == BuildingKind::Stables,
        UnitKind::Mage => b == BuildingKind::MageTower,
        UnitKind::GryphonRider => b == BuildingKind::GryphonAviary,
        UnitKind::Peon => b == BuildingKind::GreatHall || b == BuildingKind::Stronghold || b == BuildingKind::Fortress,
        UnitKind::Grunt => b == BuildingKind::OrcBarracks,
        UnitKind::TrollAxethrower => b == BuildingKind::OrcBarracks,
        UnitKind::Catapult => b == BuildingKind::OrcBlacksmith || b == BuildingKind::OrcBarracks,
        UnitKind::OgreKnight => b == BuildingKind::OgreMound,
        UnitKind::DeathKnight => b == BuildingKind::AltarOfStorms,
        UnitKind::DragonRider => b == BuildingKind::DragonRoost,
        _ => false,
    }
}

/// What entry `i` of the building table produces is what its kind trains.
proof fn lemma_produces_trains(i: int, k: UnitKind)
    requires
        0 <= i < building_table().len(),
    ensures
        building_table()[i].produces.contains(k) == trains(building_table()[i].kind, k),
{
    let t = building_table();
    if i == 0 {
        assert(t[0].kind == BuildingKind::TownHall);
        assert(t[0].produces =~= seq![UnitKind::Peasant]);
        assert(t[0].produces[0] == UnitKind::Peasant);
    } else if i == 1 {
        assert(t[1].kind == BuildingKind::Keep);
        assert(t[1].produces =~= seq![UnitKind::Peasant]);
        assert(t[1].produces[0] == UnitKind::Peasant);
    } else if i == 2 {
        assert(t[2].kind == BuildingKind::Castle);
        assert(t[2].produces =~= seq![UnitKind::Peasant]);
        assert(t[2].produces[0] == UnitKind::Peasant);
    } else if i == 3 {
        assert(t[3].kind == BuildingKind::Farm);
        assert(t[3].produces =~= Seq::<UnitKind>::empty());
    } else if i == 4 {
        assert(t[4].kind == BuildingKind::Barracks);
        assert(t[4].produces =~= seq![UnitKind::Footman, UnitKind::Archer, UnitKind::Ballista]);
        assert(t[4].produces[0] == UnitKind::Footman);
        assert(t[4].produces[1] == UnitKind::Archer);
        assert(t[4].produces[2] == UnitKind::Ballista);
    } else if i == 5 {
        assert(t[5].kind == BuildingKind::LumberMill);
        assert(t[5].produces =~= Seq::<UnitKind>::empty());
    } else if i == 6 {
        assert(t[6].kind == BuildingKind::Blacksmith);
        assert(t[6].produces =~= seq![UnitKind::Ballista]);
        assert(t[6].produces[0] == UnitKind::Ballista);
    } else if i == 7 {
        assert(t[7].kind == BuildingKind::Tower);
        assert(t[7].produces =~= Seq::<UnitKind>::empty());
    } else if i == 8 {
        assert(t[8].kind == BuildingKind::Stables);
        assert(t[8].produces =~= seq![UnitKind::Knight]);
        assert(t[8].produces[0] == UnitKind::Knight);
    } else if i == 9 {
        assert(t[9].kind == BuildingKind::Church);
        assert(t[9].produces =~= Seq::<UnitKind>::empty());
    } else if i == 10 {
        assert(t[10].kind == BuildingKind::MageTower);
        assert(t[10].produces =~= seq![UnitKind::Mage]);
        assert(t[10].produces[0] == UnitKind::Mage);
    } else if i == 11 {
        assert(t[11].kind == BuildingKind::GryphonAviary);
        assert(t[11].produces =~= seq![UnitKind::GryphonRider]);
        assert(t[11].produces[0] == UnitKind::GryphonRider);
    } else if i == 12 {
        assert(t[12].kind == BuildingKind::GreatHall);
        assert(t[12].produces =~= seq![UnitKind::Peon]);
        assert(t[12].produces[0] == UnitKind::Peon);
    } else if i == 13 {
        assert(t[13].kind == BuildingKind::Stronghold);
        assert(t[13].produces =~= seq![UnitKind::Peon]);
        assert(t[13].produces[0] == UnitKind::Peon);
    } else if i == 14 {
        assert(t[14].kind == BuildingKind::Fortress);
        assert(t[14].produces =~= seq![UnitKind::Peon]);
        assert(t[14].produces[0] == UnitKind::Peon);
    } else if i == 15 {
        assert(t[15].kind == BuildingKind::PigFarm);
        assert(t[15].produces =~= Seq::<UnitKind>::empty());
    } else if i == 16 {
        assert(t[16].kind == BuildingKind::OrcBarracks);
        assert(t[16].produces =~= seq![UnitKind::Grunt, UnitKind::TrollAxethrower, UnitKind::Catapult]);
        assert(t[16].produces[0] == UnitKind::Grunt);
        assert(t[16].produces[1] == UnitKind::TrollAxethrower);
        assert(t[16].produces[2] == UnitKind::Catapult);
    } else if i == 17 {
        assert(t[17].kind == BuildingKind::TrollLumberMill);
        assert(t[17].produces =~= Seq::<UnitKind>::empty());
    } else if i == 18 {
        assert(t[18].kind == BuildingKind::OrcBlacksmith);
        assert(t[18].produces =~= seq![UnitKind::Catapult]);
        assert(t[18].produces[0] == UnitKind::Catapult);
    } else if i == 19 {
        assert(t[19].kind == BuildingKind::WatchTower);
        assert(t[19].produces =~= Seq::<UnitKind>::empty());
    } else if i == 20 {
        assert(t[20].kind == BuildingKind::OgreMound);
        assert(t[20].produces =~= seq![UnitKind::OgreKnight]);
        assert(t[20].produces[0] == UnitKind::OgreKnight);
    } else if i == 21 {
        assert(t[21].kind == BuildingKind::AltarOfStorms);
        assert(t[21].produces =~= seq![UnitKind::DeathKnight]);
        assert(t[21].produces[0] == UnitKind::DeathKnight);
    } else if i == 22 {
        assert(t[22].kind == BuildingKind::WarlockTower);
        assert(t[22].produces =~= Seq::<UnitKind>::empty());
    } else if i == 23 {
        assert(t[23].kind == BuildingKind::DragonRoost);
        assert(t[23].produces =~= seq![UnitKind::DragonRider]);
        assert(t[23].produces[0] == UnitKind::DragonRider);
    } else {
        assert(t[24].kind == BuildingKind::GoldMine);
        assert(t[24].produces =~= Seq::<UnitKind>::empty());
    }
}

/// Where entry `j` of the unit table is produced is where its kind is trained.
proof fn lemma_produced_in_trains(j: int, b: BuildingKind)
    requires
        0 <= j < unit_table().len(),
    ensures
        unit_table()[j].produced_in.contains(b) == trains(b, unit_table()[j].kind),
{
    let t = unit_table();
    if j == 0 {
        assert(t[0].kind == UnitKind::Peasant);
        assert(t[0].produced_in =~= seq![BuildingKind::TownHall, BuildingKind::Keep, BuildingKind::Castle]);
        assert(t[0].produced_in[0] == BuildingKind::TownHall);
        assert(t[0].produced_in[1] == BuildingKind::Keep);
        assert(t[0].produced_in[2] == BuildingKind::Castle);
    } else if j == 1 {
        assert(t[1].kind == UnitKind::Footman);
        assert(t[1].produced_in =~= seq![BuildingKind::Barracks]);
        assert(t[1].produced_in[0] == BuildingKind::Barracks);
    } else if j == 2 {
        assert(t[2].kind == UnitKind::Archer);
        assert(t[2].produced_in =~= seq![BuildingKind::Barracks]);
        assert(t[2].produced_in[0] == BuildingKind::Barracks);
    } else if j == 3 {
        assert(t[3].kind == UnitKind::Ballista);
        assert(t[3].produced_in =~= seq![BuildingKind::Blacksmith, BuildingKind::Barracks]);
        assert(t[3].produced_in[0] == BuildingKind::Blacksmith);
        assert(t[3].produced_in[1] == BuildingKind::Barracks);
    } else if j == 4 {
        assert(t[4].kind == UnitKind::Knight);
        assert(t[4].produced_in =~= seq![BuildingKind::Stables]);
        assert(t[4].produced_in[0] == BuildingKind::Stables);
    } else if j == 5 {
        assert(t[5].kind == UnitKind::Mage);
        assert(t[5].produced_in =~= seq![BuildingKind::MageTower]);
        assert(t[5].produced_in[0] == BuildingKind::MageTower);
    } else if j == 6 {
        assert(t[6].kind == UnitKind::GryphonRider);
        assert(t[6].produced_in =~= seq![BuildingKind::GryphonAviary]);
        assert(t[6].produced_in[0] == BuildingKind::GryphonAviary);
    } else if j == 7 {
        assert(t[7].kind == UnitKind::Peon);
        assert(t[7].produced_in =~= seq![BuildingKind::GreatHall, BuildingKind::Stronghold, BuildingKind::Fortress]);
        assert(t[7].produced_in[0] == BuildingKind::GreatHall);
        assert(t[7].produced_in[1] == BuildingKind::Stronghold);
        assert(t[7].produced_in[2] == BuildingKind::Fortress);
    } else if j == 8 {
        assert(t[8].kind == UnitKind::Grunt);
        assert(t[8].produced_in =~= seq![BuildingKind::OrcBarracks]);
        assert(t[8].produced_in[0] == BuildingKind::OrcBarracks);
    } else if j == 9 {
        assert(t[9].kind == UnitKind::TrollAxethrower);
        assert(t[9].produced_in =~= seq![BuildingKind::OrcBarracks]);
        assert(t[9].produced_in[0] == BuildingKind::OrcBarracks);
    } else if j == 10 {
        assert(t[10].kind == UnitKind::Catapult);
        assert(t[10].produced_in =~= seq![BuildingKind::OrcBlacksmith, BuildingKind::OrcBarracks]);
        assert(t[10].produced_in[0] == BuildingKind::OrcBlacksmith);
        assert(t[10].produced_in[1] == BuildingKind::OrcBarracks);
    } else if j == 11 {
        assert(t[11].kind == UnitKind::OgreKnight);
        assert(t[11].produced_in =~= seq![BuildingKind::OgreMound]);
        assert(t[11].produced_in[0] == BuildingKind::OgreMound);
    } else if j == 12 {
        assert(t[12].kind == UnitKind::DeathKnight);
        assert(t[12].produced_in =~= seq![BuildingKind::AltarOfStorms]);
        assert(t[12].produced_in[0] == BuildingKind::AltarOfStorms);
    } else {
        assert(t[13].kind == UnitKind::DragonRider);
        assert(t[13].produced_in =~= seq![BuildingKind::DragonRoost]);
        assert(t[13].produced_in[0] == BuildingKind::DragonRoost);
    }
}

/// Every kind that some building trains has an entry in the unit table,
/// and every building that trains something has one in the building table.
proof fn lemma_trained_have_entries(b: BuildingKind, k: UnitKind)
    requires
        trains(b, k),
    ensures
        exists|j: int| 0 <= j < unit_table().len() && #[trigger] unit_table()[j].kind == k,
        exists|i: int| 0 <= i < building_table().len() && #[trigger] building_table()[i].kind == b,
{
    if k == UnitKind::Peasant {
        assert(unit_table()[0].kind == UnitKind::Peasant);
    } else if k == UnitKind::Footman {
        assert(unit_table()[1].kind == UnitKind::Footman);
    } else if k == UnitKind::Archer {
        assert(unit_table()[2].kind == UnitKind::Archer);
    } else if k == UnitKind::Ballista {
        assert(unit_table()[3].kind == UnitKind::Ballista);
    } else if k == UnitKind::Knight {
        assert(unit_table()[4].kind == UnitKind::Knight);
    } else if k == UnitKind::Mage {
        assert(unit_table()[5].kind == UnitKind::Mage);
    } else if k == UnitKind::GryphonRider {
        assert(unit_table()[6].kind == UnitKind::GryphonRider);
    } else if k == UnitKind::Peon {
        assert(unit_table()[7].kind == UnitKind::Peon);
    } else if k == UnitKind::Grunt {
        assert(unit_table()[8].kind == UnitKind::Grunt);
    } else if k == UnitKind::TrollAxethrower {
        assert(unit_table()[9].kind == UnitKind::TrollAxethrower);
    } else if k == UnitKind::Catapult {
        assert(unit_table()[10].kind == UnitKind::Catapult);
    } else if k == UnitKind::OgreKnight {
        assert(unit_table()[11].kind == UnitKind::OgreKnight);
    } else if k == UnitKind::DeathKnight {
        assert(unit_table()[12].kind == UnitKind::DeathKnight);
    } else if k == UnitKind::DragonRider {
        assert(unit_table()[13].kind == UnitKind::DragonRider);
    }
    if b == BuildingKind::TownHall {
        assert(building_table()[0].kind == BuildingKind::TownHall);
    } else if b == BuildingKind::Keep {
        assert(building_table()[1].kind == BuildingKind::Keep);
    } else if b == BuildingKind::Castle {
        assert(building_table()[2].kind == BuildingKind::Castle);
    } else if b == BuildingKind::Barracks {
        assert(building_table()[4].kind == BuildingKind::Barracks);
    } else if b == BuildingKind::Blacksmith {
        assert(building_table()[6].kind == BuildingKind::Blacksmith);
    } else if b == BuildingKind::Stables {
        assert(building_table()[8].kind == BuildingKind::Stables);
    } else if b == BuildingKind::MageTower {
        assert(building_table()[10].kind == BuildingKind::MageTower);
    } else if b == BuildingKind::GryphonAviary {
        assert(building_table()[11].kind == BuildingKind::GryphonAviary);
    } else if b == BuildingKind::GreatHall {
        assert(building_table()[12].kind == BuildingKind::GreatHall);
    } else if b == BuildingKind::Stronghold {
        assert(building_table()[13].kind == BuildingKind::Stronghold);
    } else if b == BuildingKind::Fortress {
        assert(building_table()[14].kind == BuildingKind::Fortress);
    } else if b == BuildingKind::OrcBarracks {
        assert(building_table()[16].kind == BuildingKind::OrcBarracks);
    } else if b == BuildingKind::OrcBlacksmith {
        assert(building_table()[18].kind == BuildingKind::OrcBlacksmith);
    } else if b == BuildingKind::OgreMound {
        assert(building_table()[20].kind == BuildingKind::OgreMound);
    } else if b == BuildingKind::AltarOfStorms {
        assert(building_table()[21].kind == BuildingKind::AltarOfStorms);
    } else if b == BuildingKind::DragonRoost {
        assert(building_table()[23].kind == BuildingKind::DragonRoost);
    }
}

/// Every unit template is playable: it has hit points, it moves, some
/// building trains it, and every building named as training it is listed in
/// the building table with the unit's own faction.
pub proof fn law_unit_table_sound()
    ensures
        forall|j: int|
            0 <= j < unit_table().len() ==> #[trigger] unit_table()[j].hp_max > 0 && unit_table()[j].speed > 0
                && unit_table()[j].produced_in.len() > 0,
        forall|j: int, b: BuildingKind|
            0 <= j < unit_table().len() && #[trigger] unit_table()[j].produced_in.contains(b) ==> exists|i: int|
                0 <= i < building_table().len() && #[trigger] building_table()[i].kind == b
                    && building_table()[i].faction == unit_table()[j].faction,
{
    let t = unit_table();
    let bt = building_table();
    assert forall|j: int| 0 <= j < t.len() implies #[trigger] t[j].hp_max > 0 && t[j].speed > 0
        && t[j].produced_in.len() > 0 by {
        lemma_unit_row(j);
    }
    assert forall|j: int, b: BuildingKind| 0 <= j < t.len() && #[trigger] t[j].produced_in.contains(b) implies exists|i: int|
        0 <= i < bt.len() && #[trigger] bt[i].kind == b && bt[i].faction == t[j].faction by {
        lemma_unit_row(j);
        lemma_produced_in_trains(j, b);
    }
}

/// The facts of one row of the unit table that its law needs.
proof fn lemma_unit_row(j: int)
    requires
        0 <= j < unit_table().len(),
    ensures
        unit_table()[j].hp_max > 0 && unit_table()[j].speed > 0 && unit_table()[j].produced_in.len() > 0,
        forall|b: BuildingKind|
            trains(b, unit_table()[j].kind) ==> exists|i: int|
                0 <= i < building_table().len() && #[trigger] building_table()[i].kind == b
                    && building_table()[i].faction == unit_table()[j].faction,
{
    let t = unit_table();
    let bt = building_table();
    if j == 0 {
        assert(t[0].faction == Faction::Human && t[0].produced_in.len() > 0);
        assert(bt[0].kind == BuildingKind::TownHall && bt[0].faction == Faction::Human);
        assert(bt[1].kind == BuildingKind::Keep && bt[1].faction == Faction::Human);
        assert(bt[2].kind == BuildingKind::Castle && bt[2].faction == Faction::Human);
    } else if j == 1 {
        assert(t[1].faction == Faction::Human && t[1].produced_in.len() > 0);
        assert(bt[4].kind == BuildingKind::Barracks && bt[4].faction == Faction::Human);
    } else if j == 2 {
        assert(t[2].faction == Faction::Human && t[2].produced_in.len() > 0);
        assert(bt[4].kind == BuildingKind::Barracks && bt[4].faction == Faction::Human);
    } else if j == 3 {
        assert(t[3].faction == Faction::Human && t[3].produced_in.len() > 0);
        assert(bt[6].kind == BuildingKind::Blacksmith && bt[6].faction == Faction::Human);
        assert(bt[4].kind == BuildingKind::Barracks && bt[4].faction == Faction::Human);
    } else if j == 4 {
        assert(t[4].faction == Faction::Human && t[4].produced_in.len() > 0);
        assert(bt[8].kind == BuildingKind::Stables && bt[8].faction == Faction::Human);
    } else if j == 5 {
        assert(t[5].faction == Faction::Human && t[5].produced_in.len() > 0);
        assert(bt[10].kind == BuildingKind::MageTower && bt[10].faction == Faction::Human);
    } else if j == 6 {
        assert(t[6].faction == Faction::Human && t[6].produced_in.len() > 0);
        assert(bt[11].kind == BuildingKind::GryphonAviary && bt[11].faction == Faction::Human);
    } else if j == 7 {
        assert(t[7].faction == Faction::Orc && t[7].produced_in.len() > 0);
        assert(bt[12].kind == BuildingKind::GreatHall && bt[12].faction == Faction::Orc);
        assert(bt[13].kind == BuildingKind::Stronghold && bt[13].faction == Faction::Orc);
        assert(bt[14].kind == BuildingKind::Fortress && bt[14].faction == Faction::Orc);
    } else if j == 8 {
        assert(t[8].faction == Faction::Orc && t[8].produced_in.len() > 0);
        assert(bt[16].kind == BuildingKind::OrcBarracks && bt[16].faction == Faction::Orc);
    } else if j == 9 {
        assert(t[9].faction == Faction::Orc && t[9].produced_in.len() > 0);
        assert(bt[16].kind == BuildingKind::OrcBarracks && bt[16].faction == Faction::Orc);
    } else if j == 10 {
        assert(t[10].faction == Faction::Orc && t[10].produced_in.len() > 0);
        assert(bt[18].kind == BuildingKind::OrcBlacksmith && bt[18].faction == Faction::Orc);
        assert(bt[16].kind == BuildingKind::OrcBarracks && bt[16].faction == Faction::Orc);
    } else if j == 11 {
        assert(t[11].faction == Faction::Orc && t[11].produced_in.len() > 0);
        assert(bt[20].kind == BuildingKind::OgreMound && bt[20].faction == Faction::Orc);
    } else if j == 12 {
        assert(t[12].faction == Faction::Orc && t[12].produced_in.len() > 0);
        assert(bt[21].kind == BuildingKind::AltarOfStorms && bt[21].faction == Faction::Orc);
    } else if j == 13 {
        assert(t[13].faction == Faction::Orc && t[13].produced_in.len() > 0);
        assert(bt[23].kind == BuildingKind::DragonRoost && bt[23].faction == Faction::Orc);
    }
}

/// The two tables list one production relation: a building produces a unit
/// kind exactly when that kind's entry names the building among the places
/// where it is produced, and every place named there is a building that
/// produces it.
pub proof fn law_production_relation()
    ensures
        forall|i: int, k: UnitKind|
            0 <= i < building_table().len() ==> (#[trigger] building_table()[i].produces.contains(k) <==> exists|j: int|
                0 <= j < unit_table().len() && #[trigger] unit_table()[j].kind == k && unit_table()[j].produced_in.contains(
                    building_table()[i].kind,
                )),
        forall|j: int, b: BuildingKind|
            0 <= j < unit_table().len() ==> (#[trigger] unit_table()[j].produced_in.contains(b) <==> exists|i: int|
                0 <= i < building_table().len() && #[trigger] building_table()[i].kind == b && building_table()[i].produces.contains(
                    unit_table()[j].kind,
                )),
{
    assert forall|i: int, k: UnitKind| 0 <= i < building_table().len() implies (#[trigger] building_table()[i].produces.contains(k) <==> exists|j: int|
        0 <= j < unit_table().len() && #[trigger] unit_table()[j].kind == k && unit_table()[j].produced_in.contains(
            building_table()[i].kind,
        )) by {
        let b = building_table()[i].kind;
        lemma_produces_trains(i, k);
        if trains(b, k) {
            lemma_trained_have_entries(b, k);
            let j = choose|j: int| 0 <= j < unit_table().len() && #[trigger] unit_table()[j].kind == k;
            lemma_produced_in_trains(j, b);
        }
        if exists|j: int| 0 <= j < unit_table().len() && #[trigger] unit_table()[j].kind == k && unit_table()[j].produced_in.contains(b) {
            let j = choose|j: int| 0 <= j < unit_table().len() && #[trigger] unit_table()[j].kind == k && unit_table()[j].produced_in.contains(b);
            lemma_produced_in_trains(j, b);
        }
    }
    assert forall|j: int, b: BuildingKind| 0 <= j < unit_table().len() implies (#[trigger] unit_table()[j].produced_in.contains(b) <==> exists|i: int|
        0 <= i < building_table().len() && #[trigger] building_table()[i].kind == b && building_table()[i].produces.contains(
            unit_table()[j].kind,
        )) by {
        let k = unit_table()[j].kind;
        lemma_produced_in_trains(j, b);
        if trains(b, k) {
            lemma_trained_have_entries(b, k);
            let i = choose|i: int| 0 <= i < building_table().len() && #[trigger] building_table()[i].kind == b;
            lemma_produces_trains(i, k);
        }
        if exists|i: int| 0 <= i < building_table().len() && #[trigger] building_table()[i].kind == b && building_table()[i].produces.contains(k) {
            let i = choose|i: int| 0 <= i < building_table().len() && #[trigger] building_table()[i].kind == b && building_table()[i].produces.contains(k);
            lemma_produces_trains(i, k);
        }
    }
}


} // verus!
