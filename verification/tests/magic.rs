use soulsy::magic::ActorValue;
use soulsy::magic::MagicDamageType;
use soulsy::magic::MagicSpellLevel;
use soulsy::magic::School;
use soulsy::magic::SpellArchetype;
use soulsy::magic::SpellData;

#[test]
fn school_codes_map_to_schools() {
    assert_eq!(School::from(18), School::Alteration);
    assert_eq!(School::from(19), School::Conjuration);
    assert_eq!(School::from(20), School::Destruction);
    assert_eq!(School::from(21), School::Illusion);
    assert_eq!(School::from(22), School::Restoration);
    assert_eq!(School::from(0), School::NoSchool);
    assert_eq!(School::from(23), School::NoSchool);
    assert_eq!(School::from(-1), School::NoSchool);
}

#[test]
fn skill_levels_map_to_tiers() {
    assert_eq!(MagicSpellLevel::from(0u32), MagicSpellLevel::Novice);
    assert_eq!(MagicSpellLevel::from(24u32), MagicSpellLevel::Novice);
    assert_eq!(MagicSpellLevel::from(25u32), MagicSpellLevel::Apprentice);
    assert_eq!(MagicSpellLevel::from(49u32), MagicSpellLevel::Apprentice);
    assert_eq!(MagicSpellLevel::from(50u32), MagicSpellLevel::Adept);
    assert_eq!(MagicSpellLevel::from(74u32), MagicSpellLevel::Adept);
    assert_eq!(MagicSpellLevel::from(75u32), MagicSpellLevel::Expert);
    assert_eq!(MagicSpellLevel::from(99u32), MagicSpellLevel::Expert);
    assert_eq!(MagicSpellLevel::from(100u32), MagicSpellLevel::Master);
    assert_eq!(MagicSpellLevel::from(4000u32), MagicSpellLevel::Master);
}

#[test]
fn resist_codes_map_to_actor_values() {
    assert_eq!(ActorValue::from(40), ActorValue::PoisonResist);
    assert_eq!(ActorValue::from(41), ActorValue::ResistFire);
    assert_eq!(ActorValue::from(42), ActorValue::ResistShock);
    assert_eq!(ActorValue::from(43), ActorValue::ResistFrost);
    assert_eq!(ActorValue::from(44), ActorValue::ResistMagic);
    assert_eq!(ActorValue::from(45), ActorValue::ResistDisease);
    assert_eq!(ActorValue::from(39), ActorValue::Unknown);
    assert_eq!(ActorValue::from(46), ActorValue::Unknown);
}

#[test]
fn spell_data_classifies_all_codes() {
    let spell = SpellData::new(41, 45, 43, true, 20, 75, 7, "FrostCloak".to_string());
    assert_eq!(spell.effect, ActorValue::ResistFire);
    assert_eq!(spell.secondary, ActorValue::ResistDisease);
    assert!(spell.twohanded);
    assert_eq!(spell.school, School::Destruction);
    assert_eq!(spell.level, MagicSpellLevel::Expert);
    assert_eq!(spell.archetype, SpellArchetype { code: 7 });
    assert_eq!(spell.damage, MagicDamageType::Frost);
    assert_eq!(spell.associated, "FrostCloak");
}

#[test]
fn spell_damage_follows_resistance() {
    let damage_of = |resist: i32| {
        SpellData::new(0, 0, resist, false, 0, 0, 0, String::new()).damage
    };
    assert_eq!(damage_of(40), MagicDamageType::Poison);
    assert_eq!(damage_of(41), MagicDamageType::Fire);
    assert_eq!(damage_of(42), MagicDamageType::Shock);
    assert_eq!(damage_of(43), MagicDamageType::Frost);
    assert_eq!(damage_of(44), MagicDamageType::Magic);
    assert_eq!(damage_of(45), MagicDamageType::Disease);
    assert_eq!(damage_of(0), MagicDamageType::NoDamage);
    assert_eq!(damage_of(24), MagicDamageType::NoDamage);
}

#[test]
fn spell_data_defaults_are_empty() {
    let spell = SpellData::default();
    assert_eq!(spell.effect, ActorValue::Unknown);
    assert_eq!(spell.damage, MagicDamageType::NoDamage);
    assert_eq!(spell.school, School::NoSchool);
    assert_eq!(spell.level, MagicSpellLevel::Novice);
    assert!(!spell.twohanded);
    assert_eq!(spell.associated, "");
}
