use vstd::prelude::*;

use crate::entity::IdVendor;
use crate::text::same_text;

pub mod bat;
pub mod boss_fish;
pub mod death_animation;
pub mod exit_door;
pub mod fire_sprite;
pub mod fireball;
pub mod firebrand;
pub mod hoodie;
pub mod power_up;
pub mod spawn_point;
pub mod ui_digit;
pub mod ui_health_dot;
pub mod util;

verus! {

/// The kinds of entity that the game simulates.
#[derive(Debug, Clone, Copy, PartialEq, Eq, Structural)]
pub enum EntityClass {
    Bat,
    BossFightTrigger,
    BossFish,
    CheckPoint,
    DeathAnimation,
    ExitDoor,
    Firebrand,
    FirebrandDeath,
    Fireball,
    FireSprite,
    FallingBridge,
    FlyingFish,
    Hoodie,
    PowerUp,
    RisingFloor,
    SpawnPoint,
    // Ui classes
    UiDigit,
    UiFlightBar,
    UiHealthDot,
}

impl EntityClass {
    pub open spec fn spec_is_enemy(self) -> bool {
        self is Bat || self is FlyingFish || self is FireSprite || self is Hoodie
    }

    pub open spec fn spec_is_ui(self) -> bool {
        self is UiDigit || self is UiFlightBar || self is UiHealthDot
    }

    pub open spec fn spec_survives_level_restart(self) -> bool {
        self is BossFightTrigger || self is CheckPoint || self is ExitDoor || self is FallingBridge
            || self is RisingFloor || self is SpawnPoint || self is PowerUp
    }

    pub fn is_enemy(&self) -> (r: bool)
        ensures
            r == self.spec_is_enemy(),
    {
        matches!(self, EntityClass::Bat | EntityClass::FlyingFish | EntityClass::FireSprite | EntityClass::Hoodie)
    }

    pub fn is_projectile(&self) -> (r: bool)
        ensures
            r == (*self is Fireball),
    {
        matches!(self, EntityClass::Fireball)
    }

    pub fn is_boss(&self) -> (r: bool)
        ensures
            r == (*self is BossFish),
    {
        matches!(self, EntityClass::BossFish)
    }

    pub fn is_player(&self) -> (r: bool)
        ensures
            r == (*self is Firebrand),
    {
        matches!(self, EntityClass::Firebrand)
    }

    pub fn is_ui(&self) -> (r: bool)
        ensures
            r == self.spec_is_ui(),
    {
        matches!(self, EntityClass::UiDigit | EntityClass::UiFlightBar | EntityClass::UiHealthDot)
    }

    /// Whether an entity of this class is kept, rather than respawned from the map, when the
    /// level restarts.
    pub fn survives_level_restart(&self) -> (r: bool)
        ensures
            r == self.spec_survives_level_restart(),
    {
        matches!(
            self,
            EntityClass::BossFightTrigger | EntityClass::CheckPoint | EntityClass::ExitDoor
                | EntityClass::FallingBridge | EntityClass::RisingFloor | EntityClass::SpawnPoint
                | EntityClass::PowerUp
        )
    }
}

/// No class is more than one of enemy, projectile, boss, player and ui; and neither enemies nor
/// the player survive a level restart.
pub proof fn lemma_entity_roles_disjoint(c: EntityClass)
    ensures
        c.spec_is_enemy() ==> !(c is Fireball) && !(c is BossFish) && !(c is Firebrand) && !c.spec_is_ui(),
        c is Fireball ==> !(c is BossFish) && !(c is Firebrand) && !c.spec_is_ui(),
        c is BossFish ==> !(c is Firebrand) && !c.spec_is_ui(),
        c is Firebrand ==> !c.spec_is_ui(),
        c.spec_survives_level_restart() ==> !c.spec_is_enemy() && !(c is Firebrand),
{
}

/// The class that a map tile's `entity_class` property names, for the classes that can be made
/// from the map.
pub open spec fn spec_class_named(name: Seq<char>) -> Option<EntityClass> {
    if name == "BossFightTrigger"@ {
        Some(EntityClass::BossFightTrigger)
    } else if name == "BossFish"@ {
        Some(EntityClass::BossFish)
    } else if name == "Bat"@ {
        Some(EntityClass::Bat)
    } else if name == "CheckPoint"@ {
        Some(EntityClass::CheckPoint)
    } else if name == "FallingBridge"@ {
        Some(EntityClass::FallingBridge)
    } else if name == "FireSprite"@ {
        Some(EntityClass::FireSprite)
    } else if name == "FlyingFish"@ {
        Some(EntityClass::FlyingFish)
    } else if name == "Hoodie"@ {
        Some(EntityClass::Hoodie)
    } else if name == "PowerUp"@ {
        Some(EntityClass::PowerUp)
    } else if name == "SpawnPoint"@ {
        Some(EntityClass::SpawnPoint)
    } else if name == "UiDigit"@ {
        Some(EntityClass::UiDigit)
    } else if name == "UiFlightBar"@ {
        Some(EntityClass::UiFlightBar)
    } else if name == "UiHealthDot"@ {
        Some(EntityClass::UiHealthDot)
    } else {
        None
    }
}

/// The class of entity to make for the class name `classname`, or `None` if no entity of that
/// name can be made.
pub fn instantiate_entity_by_class_name(classname: &str) -> (r: Option<EntityClass>)
    ensures
        r == spec_class_named(classname@),
{
    if same_text(classname, "BossFightTrigger") {
        Some(EntityClass::BossFightTrigger)
    } else if same_text(classname, "BossFish") {
        Some(EntityClass::BossFish)
    } else if same_text(classname, "Bat") {
        Some(EntityClass::Bat)
    } else if same_text(classname, "CheckPoint") {
        Some(EntityClass::CheckPoint)
    } else if same_text(classname, "FallingBridge") {
        Some(EntityClass::FallingBridge)
    } else if same_text(classname, "FireSprite") {
        Some(EntityClass::FireSprite)
    } else if same_text(classname, "FlyingFish") {
        Some(EntityClass::FlyingFish)
    } else if same_text(classname, "Hoodie") {
        Some(EntityClass::Hoodie)
    } else if same_text(classname, "PowerUp") {
        Some(EntityClass::PowerUp)
    } else if same_text(classname, "SpawnPoint") {
        Some(EntityClass::SpawnPoint)
    } else if same_text(classname, "UiDigit") {
        Some(EntityClass::UiDigit)
    } else if same_text(classname, "UiFlightBar") {
        Some(EntityClass::UiFlightBar)
    } else if same_text(classname, "UiHealthDot") {
        Some(EntityClass::UiHealthDot)
    } else {
        None
    }
}

/// Why an entity could not be made from a map sprite.
#[derive(Debug, Clone, Copy, PartialEq, Eq, Structural)]
pub enum InstantiateError {
    /// No entity class has the given name.
    UnknownEntityClass,
}

/// Decides which entity to make from a map sprite whose tile names the class `classname`, and the
/// id it gets: the next id of `entity_id_vendor` when one is given, else the id the sprite carries.
pub fn instantiate_map_sprite(
    classname: &str,
    sprite_entity_id: Option<u32>,
    entity_id_vendor: Option<&mut IdVendor>,
) -> (r: Result<(EntityClass, u32), InstantiateError>)
    requires
        spec_class_named(classname@) is Some ==> match entity_id_vendor {
            Some(v) => (*v)@ < u32::MAX,
            None => sprite_entity_id is Some,
        },
    ensures
        match spec_class_named(classname@) {
            None => r == Err::<(EntityClass, u32), InstantiateError>(InstantiateError::UnknownEntityClass)
                && (entity_id_vendor matches Some(v) ==> (*final(v))@ == (*v)@),
            Some(c) => match entity_id_vendor {
                Some(v) => r == Ok::<(EntityClass, u32), InstantiateError>((c, (*v)@)) && (*final(v))@ == (*v)@ + 1,
                None => r == Ok::<(EntityClass, u32), InstantiateError>((c, sprite_entity_id->0)),
            },
        },
{
    match instantiate_entity_by_class_name(classname) {
        Some(c) => match entity_id_vendor {
            Some(v) => Ok((c, v.next_id())),
            None => match sprite_entity_id {
                Some(id) => Ok((c, id)),
                None => Err(InstantiateError::UnknownEntityClass),
            },
        },
        None => Err(InstantiateError::UnknownEntityClass),
    }
}

/// A class's name: the identifier it is known by, which map tiles write in `entity_class`.
pub open spec fn class_name(c: EntityClass) -> Seq<char> {
    match c {
        EntityClass::Bat => "Bat"@,
        EntityClass::BossFightTrigger => "BossFightTrigger"@,
        EntityClass::BossFish => "BossFish"@,
        EntityClass::CheckPoint => "CheckPoint"@,
        EntityClass::DeathAnimation => "DeathAnimation"@,
        EntityClass::ExitDoor => "ExitDoor"@,
        EntityClass::Firebrand => "Firebrand"@,
        EntityClass::FirebrandDeath => "FirebrandDeath"@,
        EntityClass::Fireball => "Fireball"@,
        EntityClass::FireSprite => "FireSprite"@,
        EntityClass::FallingBridge => "FallingBridge"@,
        EntityClass::FlyingFish => "FlyingFish"@,
        EntityClass::Hoodie => "Hoodie"@,
        EntityClass::PowerUp => "PowerUp"@,
        EntityClass::RisingFloor => "RisingFloor"@,
        EntityClass::SpawnPoint => "SpawnPoint"@,
        EntityClass::UiDigit => "UiDigit"@,
        EntityClass::UiFlightBar => "UiFlightBar"@,
        EntityClass::UiHealthDot => "UiHealthDot"@,
    }
}

/// The classes that a map can ask for by name: the rest (Firebrand, fireballs, death
/// animations, the exit door and the rising floor) are made by the game itself.
pub open spec fn made_from_map(c: EntityClass) -> bool {
    c is BossFightTrigger || c is BossFish || c is Bat || c is CheckPoint || c is FallingBridge || c is FireSprite || c is FlyingFish || c is Hoodie || c is PowerUp || c is SpawnPoint || c is UiDigit || c is UiFlightBar || c is UiHealthDot
}

proof fn lemma_map_class_names_differ()
    ensures
        "BossFightTrigger"@ != "BossFish"@,
        "BossFightTrigger"@ != "Bat"@,
        "BossFightTrigger"@ != "CheckPoint"@,
        "BossFightTrigger"@ != "FallingBridge"@,
        "BossFightTrigger"@ != "FireSprite"@,
        "BossFightTrigger"@ != "FlyingFish"@,
        "BossFightTrigger"@ != "Hoodie"@,
        "BossFightTrigger"@ != "PowerUp"@,
        "BossFightTrigger"@ != "SpawnPoint"@,
        "BossFightTrigger"@ != "UiDigit"@,
        "BossFightTrigger"@ != "UiFlightBar"@,
        "BossFightTrigger"@ != "UiHealthDot"@,
        "BossFish"@ != "Bat"@,
        "BossFish"@ != "CheckPoint"@,
        "BossFish"@ != "FallingBridge"@,
        "BossFish"@ != "FireSprite"@,
        "BossFish"@ != "FlyingFish"@,
        "BossFish"@ != "Hoodie"@,
        "BossFish"@ != "PowerUp"@,
        "BossFish"@ != "SpawnPoint"@,
        "BossFish"@ != "UiDigit"@,
        "BossFish"@ != "UiFlightBar"@,
        "BossFish"@ != "UiHealthDot"@,
        "Bat"@ != "CheckPoint"@,
        "Bat"@ != "FallingBridge"@,
        "Bat"@ != "FireSprite"@,
        "Bat"@ != "FlyingFish"@,
        "Bat"@ != "Hoodie"@,
        "Bat"@ != "PowerUp"@,
        "Bat"@ != "SpawnPoint"@,
        "Bat"@ != "UiDigit"@,
        "Bat"@ != "UiFlightBar"@,
        "Bat"@ != "UiHealthDot"@,
        "CheckPoint"@ != "FallingBridge"@,
        "CheckPoint"@ != "FireSprite"@,
        "CheckPoint"@ != "FlyingFish"@,
        "CheckPoint"@ != "Hoodie"@,
        "CheckPoint"@ != "PowerUp"@,
        "CheckPoint"@ != "SpawnPoint"@,
        "CheckPoint"@ != "UiDigit"@,
        "CheckPoint"@ != "UiFlightBar"@,
        "CheckPoint"@ != "UiHealthDot"@,
        "FallingBridge"@ != "FireSprite"@,
        "FallingBridge"@ != "FlyingFish"@,
        "FallingBridge"@ != "Hoodie"@,
        "FallingBridge"@ != "PowerUp"@,
        "FallingBridge"@ != "SpawnPoint"@,
        "FallingBridge"@ != "UiDigit"@,
        "FallingBridge"@ != "UiFlightBar"@,
        "FallingBridge"@ != "UiHealthDot"@,
        "FireSprite"@ != "FlyingFish"@,
        "FireSprite"@ != "Hoodie"@,
        "FireSprite"@ != "PowerUp"@,
        "FireSprite"@ != "SpawnPoint"@,
        "FireSprite"@ != "UiDigit"@,
        "FireSprite"@ != "UiFlightBar"@,
        "FireSprite"@ != "UiHealthDot"@,
        "FlyingFish"@ != "Hoodie"@,
        "FlyingFish"@ != "PowerUp"@,
        "FlyingFish"@ != "SpawnPoint"@,
        "FlyingFish"@ != "UiDigit"@,
        "FlyingFish"@ != "UiFlightBar"@,
        "FlyingFish"@ != "UiHealthDot"@,
        "Hoodie"@ != "PowerUp"@,
        "Hoodie"@ != "SpawnPoint"@,
        "Hoodie"@ != "UiDigit"@,
        "Hoodie"@ != "UiFlightBar"@,
        "Hoodie"@ != "UiHealthDot"@,
        "PowerUp"@ != "SpawnPoint"@,
        "PowerUp"@ != "UiDigit"@,
        "PowerUp"@ != "UiFlightBar"@,
        "PowerUp"@ != "UiHealthDot"@,
        "SpawnPoint"@ != "UiDigit"@,
        "SpawnPoint"@ != "UiFlightBar"@,
        "SpawnPoint"@ != "UiHealthDot"@,
        "UiDigit"@ != "UiFlightBar"@,
        "UiDigit"@ != "UiHealthDot"@,
        "UiFlightBar"@ != "UiHealthDot"@,
{
    reveal_strlit("BossFightTrigger");
    reveal_strlit("BossFish");
    reveal_strlit("Bat");
    reveal_strlit("CheckPoint");
    reveal_strlit("FallingBridge");
    reveal_strlit("FireSprite");
    reveal_strlit("FlyingFish");
    reveal_strlit("Hoodie");
    reveal_strlit("PowerUp");
    reveal_strlit("SpawnPoint");
    reveal_strlit("UiDigit");
    reveal_strlit("UiFlightBar");
    reveal_strlit("UiHealthDot");
    assert("BossFightTrigger"@.len() != "BossFish"@.len());
    assert("BossFightTrigger"@.len() != "Bat"@.len());
    assert("BossFightTrigger"@.len() != "CheckPoint"@.len());
    assert("BossFightTrigger"@.len() != "FallingBridge"@.len());
    assert("BossFightTrigger"@.len() != "FireSprite"@.len());
    assert("BossFightTrigger"@.len() != "FlyingFish"@.len());
    assert("BossFightTrigger"@.len() != "Hoodie"@.len());
    assert("BossFightTrigger"@.len() != "PowerUp"@.len());
    assert("BossFightTrigger"@.len() != "SpawnPoint"@.len());
    assert("BossFightTrigger"@.len() != "UiDigit"@.len());
    assert("BossFightTrigger"@.len() != "UiFlightBar"@.len());
    assert("BossFightTrigger"@.len() != "UiHealthDot"@.len());
    assert("BossFish"@.len() != "Bat"@.len());
    assert("BossFish"@.len() != "CheckPoint"@.len());
    assert("BossFish"@.len() != "FallingBridge"@.len());
    assert("BossFish"@.len() != "FireSprite"@.len());
    assert("BossFish"@.len() != "FlyingFish"@.len());
    assert("BossFish"@.len() != "Hoodie"@.len());
    assert("BossFish"@.len() != "PowerUp"@.len());
    assert("BossFish"@.len() != "SpawnPoint"@.len());
    assert("BossFish"@.len() != "UiDigit"@.len());
    assert("BossFish"@.len() != "UiFlightBar"@.len());
    assert("BossFish"@.len() != "UiHealthDot"@.len());
    assert("Bat"@.len() != "CheckPoint"@.len());
    assert("Bat"@.len() != "FallingBridge"@.len());
    assert("Bat"@.len() != "FireSprite"@.len());
    assert("Bat"@.len() != "FlyingFish"@.len());
    assert("Bat"@.len() != "Hoodie"@.len());
    assert("Bat"@.len() != "PowerUp"@.len());
    assert("Bat"@.len() != "SpawnPoint"@.len());
    assert("Bat"@.len() != "UiDigit"@.len());
    assert("Bat"@.len() != "UiFlightBar"@.len());
    assert("Bat"@.len() != "UiHealthDot"@.len());
    assert("CheckPoint"@.len() != "FallingBridge"@.len());
    assert("CheckPoint"@[0] != "FireSprite"@[0]);
    assert("CheckPoint"@[0] != "FlyingFish"@[0]);
    assert("CheckPoint"@.len() != "Hoodie"@.len());
    assert("CheckPoint"@.len() != "PowerUp"@.len());
    assert("CheckPoint"@[0] != "SpawnPoint"@[0]);
    assert("CheckPoint"@.len() != "UiDigit"@.len());
    assert("CheckPoint"@.len() != "UiFlightBar"@.len());
    assert("CheckPoint"@.len() != "UiHealthDot"@.len());
    assert("FallingBridge"@.len() != "FireSprite"@.len());
    assert("FallingBridge"@.len() != "FlyingFish"@.len());
    assert("FallingBridge"@.len() != "Hoodie"@.len());
    assert("FallingBridge"@.len() != "PowerUp"@.len());
    assert("FallingBridge"@.len() != "SpawnPoint"@.len());
    assert("FallingBridge"@.len() != "UiDigit"@.len());
    assert("FallingBridge"@.len() != "UiFlightBar"@.len());
    assert("FallingBridge"@.len() != "UiHealthDot"@.len());
    assert("FireSprite"@[1] != "FlyingFish"@[1]);
    assert("FireSprite"@.len() != "Hoodie"@.len());
    assert("FireSprite"@.len() != "PowerUp"@.len());
    assert("FireSprite"@[0] != "SpawnPoint"@[0]);
    assert("FireSprite"@.len() != "UiDigit"@.len());
    assert("FireSprite"@.len() != "UiFlightBar"@.len());
    assert("FireSprite"@.len() != "UiHealthDot"@.len());
    assert("FlyingFish"@.len() != "Hoodie"@.len());
    assert("FlyingFish"@.len() != "PowerUp"@.len());
    assert("FlyingFish"@[0] != "SpawnPoint"@[0]);
    assert("FlyingFish"@.len() != "UiDigit"@.len());
    assert("FlyingFish"@.len() != "UiFlightBar"@.len());
    assert("FlyingFish"@.len() != "UiHealthDot"@.len());
    assert("Hoodie"@.len() != "PowerUp"@.len());
    assert("Hoodie"@.len() != "SpawnPoint"@.len());
    assert("Hoodie"@.len() != "UiDigit"@.len());
    assert("Hoodie"@.len() != "UiFlightBar"@.len());
    assert("Hoodie"@.len() != "UiHealthDot"@.len());
    assert("PowerUp"@.len() != "SpawnPoint"@.len());
    assert("PowerUp"@[0] != "UiDigit"@[0]);
    assert("PowerUp"@.len() != "UiFlightBar"@.len());
    assert("PowerUp"@.len() != "UiHealthDot"@.len());
    assert("SpawnPoint"@.len() != "UiDigit"@.len());
    assert("SpawnPoint"@.len() != "UiFlightBar"@.len());
    assert("SpawnPoint"@.len() != "UiHealthDot"@.len());
    assert("UiDigit"@.len() != "UiFlightBar"@.len());
    assert("UiDigit"@.len() != "UiHealthDot"@.len());
    assert("UiFlightBar"@[2] != "UiHealthDot"@[2]);
}

/// The class a map names is found by its own name, and only by it: every class that can be made
/// from the map is what its name makes, and whatever a name makes is the class of that name.
pub proof fn lemma_class_names_round_trip(c: EntityClass, name: Seq<char>)
    ensures
        made_from_map(c) ==> spec_class_named(class_name(c)) == Some(c),
        spec_class_named(name) matches Some(d) ==> name == class_name(d) && made_from_map(d),
{
    lemma_map_class_names_differ();
}

} // verus!
