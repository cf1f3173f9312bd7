//! The spell classification data model: small enums the game engine's
//! integer codes are classified into, and the record built from them. This
//! layer consumes decoded strings and never feeds back into decoding.
use vstd::prelude::*;

verus! {

/// The actor-value facets the spell classification reads: the resistance
/// family, which picks the damage type of a spell. Every other engine code
/// is classified as `Unknown`; nothing here distinguishes them.
#[derive(Clone, Copy, Debug, Default, Eq, Hash, PartialEq, Structural)]
pub enum ActorValue {
    ResistFire,
    ResistFrost,
    ResistShock,
    ResistMagic,
    ResistDisease,
    PoisonResist,
    #[default]
    Unknown,
}

/// The actor value an engine code names, under the engine's numbering of
/// the resistance family.
pub open spec fn actor_value_from_code(value: i32) -> ActorValue {
    if value == 40 {
        ActorValue::PoisonResist
    } else if value == 41 {
        ActorValue::ResistFire
    } else if value == 42 {
        ActorValue::ResistShock
    } else if value == 43 {
        ActorValue::ResistFrost
    } else if value == 44 {
        ActorValue::ResistMagic
    } else if value == 45 {
        ActorValue::ResistDisease
    } else {
        ActorValue::Unknown
    }
}

impl From<i32> for ActorValue {
    fn from(value: i32) -> (r: Self) {
        match value {
            40 => ActorValue::PoisonResist,
            41 => ActorValue::ResistFire,
            42 => ActorValue::ResistShock,
            43 => ActorValue::ResistFrost,
            44 => ActorValue::ResistMagic,
            45 => ActorValue::ResistDisease,
            _ => ActorValue::Unknown,
        }
    }
}

impl vstd::std_specs::convert::FromSpecImpl<i32> for ActorValue {
    open spec fn obeys_from_spec() -> bool {
        true
    }

    open spec fn from_spec(value: i32) -> Self {
        actor_value_from_code(value)
    }
}

/// The spell archetype as the engine hands it over: an opaque classification
/// code consumed by collaborators; nothing in this crate reads it back.
#[derive(Clone, Copy, Debug, Default, Eq, Hash, PartialEq, Structural)]
pub struct SpellArchetype {
    pub code: i32,
}

impl From<i32> for SpellArchetype {
    fn from(value: i32) -> (r: Self) {
        SpellArchetype { code: value }
    }
}

impl vstd::std_specs::convert::FromSpecImpl<i32> for SpellArchetype {
    open spec fn obeys_from_spec() -> bool {
        true
    }

    open spec fn from_spec(value: i32) -> Self {
        SpellArchetype { code: value }
    }
}

/// The damage type a spell deals, as far as the data model distinguishes it.
#[derive(Clone, Copy, Debug, Default, Eq, Hash, PartialEq, Structural)]
pub enum MagicDamageType {
    #[default]
    NoDamage,
    Bleed,
    Disease,
    Earth,
    Fire,
    Frost,
    Lunar,
    Magic,
    Poison,
    Shock,
    Sun,
    Water,
    Wind,
}

/// The school of magic a spell belongs to.
#[derive(Clone, Copy, Debug, Default, Eq, Hash, PartialEq, Structural)]
pub enum School {
    Alteration,
    Conjuration,
    Destruction,
    Illusion,
    Restoration,
    #[default]
    NoSchool,
}

/// The school an engine skill code names; codes outside the five magic
/// skills classify as no school.
pub open spec fn school_from_code(value: i32) -> School {
    if value == 18 {
        School::Alteration
    } else if value == 19 {
        School::Conjuration
    } else if value == 20 {
        School::Destruction
    } else if value == 21 {
        School::Illusion
    } else if value == 22 {
        School::Restoration
    } else {
        School::NoSchool
    }
}

impl From<i32> for School {
    fn from(value: i32) -> (r: Self) {
        match value {
            18 => School::Alteration,
            19 => School::Conjuration,
            20 => School::Destruction,
            21 => School::Illusion,
            22 => School::Restoration,
            _ => School::NoSchool,
        }
    }
}

impl vstd::std_specs::convert::FromSpecImpl<i32> for School {
    open spec fn obeys_from_spec() -> bool {
        true
    }

    open spec fn from_spec(value: i32) -> Self {
        school_from_code(value)
    }
}

/// The difficulty tier of a spell.
#[derive(Clone, Copy, Debug, Default, Eq, Hash, PartialEq, Structural)]
pub enum MagicSpellLevel {
    #[default]
    Novice,
    Apprentice,
    Adept,
    Master,
    Expert,
}

/// The tier a skill level falls into: novice below 25, then apprentice,
/// adept from 50, expert from 75, and master from 100 up.
pub open spec fn spell_level_from_skill(skill_level: u32) -> MagicSpellLevel {
    if skill_level >= 100 {
        MagicSpellLevel::Master
    } else if skill_level >= 75 {
        MagicSpellLevel::Expert
    } else if skill_level >= 50 {
        MagicSpellLevel::Adept
    } else if skill_level >= 25 {
        MagicSpellLevel::Apprentice
    } else {
        MagicSpellLevel::Novice
    }
}

impl From<u32> for MagicSpellLevel {
    fn from(skill_level: u32) -> (r: Self) {
        if skill_level >= 100 {
            MagicSpellLevel::Master
        } else if skill_level >= 75 {
            MagicSpellLevel::Expert
        } else if skill_level >= 50 {
            MagicSpellLevel::Adept
        } else if skill_level >= 25 {
            MagicSpellLevel::Apprentice
        } else {
            MagicSpellLevel::Novice
        }
    }
}

impl vstd::std_specs::convert::FromSpecImpl<u32> for MagicSpellLevel {
    open spec fn obeys_from_spec() -> bool {
        true
    }

    open spec fn from_spec(skill_level: u32) -> Self {
        spell_level_from_skill(skill_level)
    }
}

/// The damage type a spell's resistance actor value classifies it under.
/// Sun damage has no known resistance value, so nothing classifies there;
/// every actor value outside the resistance family gives no damage type.
pub open spec fn damage_for_resist(resist: ActorValue) -> MagicDamageType {
    match resist {
        ActorValue::ResistFire => MagicDamageType::Fire,
        ActorValue::ResistFrost => MagicDamageType::Frost,
        ActorValue::ResistShock => MagicDamageType::Shock,
        ActorValue::ResistMagic => MagicDamageType::Magic,
        ActorValue::ResistDisease => MagicDamageType::Disease,
        ActorValue::PoisonResist => MagicDamageType::Poison,
        ActorValue::Unknown => MagicDamageType::NoDamage,
    }
}

/// What a spell is, classified from the raw integer codes the engine hands
/// over for it.
#[derive(Clone, Debug, Default, Eq, Hash, PartialEq)]
pub struct SpellData {
    pub effect: ActorValue,
    pub secondary: ActorValue,
    pub twohanded: bool,
    pub school: School,
    pub level: MagicSpellLevel,
    pub archetype: SpellArchetype,
    pub damage: MagicDamageType,
    pub associated: String,
}

impl SpellData {
    /// Classify a spell from the engine's raw codes: each code goes through
    /// its enum's mapping, and the damage type is derived from the
    /// resistance the spell is resisted by.
    pub fn new(
        effect: i32,
        effect2: i32,
        resist: i32,
        twohanded: bool,
        school: i32,
        level: u32,
        archetype: i32,
        associated: String,
    ) -> (r: Self)
        ensures
            r.effect == actor_value_from_code(effect),
            r.secondary == actor_value_from_code(effect2),
            r.twohanded == twohanded,
            r.school == school_from_code(school),
            r.level == spell_level_from_skill(level),
            r.archetype == (SpellArchetype { code: archetype }),
            r.damage == damage_for_resist(actor_value_from_code(resist)),
            r.associated@ == associated@,
    {
        let school = School::from(school);
        let effect = ActorValue::from(effect);
        let secondary = ActorValue::from(effect2);
        let resist = ActorValue::from(resist);
        let archetype = SpellArchetype::from(archetype);

        let damage = match resist {
            ActorValue::ResistFire => MagicDamageType::Fire,
            ActorValue::ResistFrost => MagicDamageType::Frost,
            ActorValue::ResistShock => MagicDamageType::Shock,
            ActorValue::ResistMagic => MagicDamageType::Magic,
            ActorValue::ResistDisease => MagicDamageType::Disease,
            ActorValue::PoisonResist => MagicDamageType::Poison,
            _ => MagicDamageType::NoDamage,
        };

        Self {
            effect,
            secondary,
            twohanded,
            school,
            archetype,
            level: MagicSpellLevel::from(level),
            damage,
            associated,
        }
    }
}

} // verus!
