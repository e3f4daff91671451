//! Creature data: abilities, proficiency, classes, enemies, items, the bestiary.

use pathfinder_mechanics::entity::ability::{AbilityScores, AbilityType};
use pathfinder_mechanics::entity::bestiary::{
    giant_rat, goblin_warrior, kobold_scout, orc_warrior, skeleton_guard, zombie_shambler,
    EnemyStatBlock,
};
use pathfinder_mechanics::entity::class::{compute_max_hp, CharacterClass, ClassProgression};
use pathfinder_mechanics::entity::enemy::{CreatureSize, CreatureType, DamageResistance, DamageWeakness, Sense};
use pathfinder_mechanics::entity::item::{armor_modifier, weapon_modifier_bonus, Bulk, DamageType};
use pathfinder_mechanics::entity::proficiency::Proficiency;
use pathfinder_mechanics::mechanics::modifier::ModifierType;

#[test]
fn ability_modifiers() {
    let scores = AbilityScores {
        strength: 18,
        dexterity: 14,
        constitution: 12,
        intelligence: 10,
        wisdom: 8,
        charisma: 7,
    };
    assert_eq!(scores.modifier(AbilityType::Strength), 4);
    assert_eq!(scores.modifier(AbilityType::Dexterity), 2);
    assert_eq!(scores.modifier(AbilityType::Constitution), 1);
    assert_eq!(scores.modifier(AbilityType::Intelligence), 0);
    assert_eq!(scores.modifier(AbilityType::Wisdom), -1);
    assert_eq!(scores.modifier(AbilityType::Charisma), -2);
}

#[test]
fn proficiency_bonuses() {
    let level = 5;
    assert_eq!(Proficiency::Untrained.bonus(level), 0);
    assert_eq!(Proficiency::Trained.bonus(level), 7);
    assert_eq!(Proficiency::Expert.bonus(level), 9);
    assert_eq!(Proficiency::Master.bonus(level), 11);
    assert_eq!(Proficiency::Legendary.bonus(level), 13);
}

#[test]
fn fighter_progression() {
    let prog = ClassProgression::for_class(CharacterClass::Fighter);
    assert_eq!(prog.hit_points_per_level, 10);
    assert_eq!(prog.perception_proficiency, Proficiency::Expert);
    assert_eq!(prog.fortitude_proficiency, Proficiency::Expert);
    assert_eq!(prog.reflex_proficiency, Proficiency::Expert);
    assert_eq!(prog.will_proficiency, Proficiency::Expert);
    assert_eq!(prog.attack_proficiency, Proficiency::Expert);
    assert_eq!(prog.defense_proficiency, Proficiency::Expert);
}

#[test]
fn wizard_progression() {
    let prog = ClassProgression::for_class(CharacterClass::Wizard);
    assert_eq!(prog.hit_points_per_level, 6);
    assert_eq!(prog.key_ability, AbilityType::Intelligence);
    assert_eq!(prog.perception_proficiency, Proficiency::Trained);
    assert_eq!(prog.fortitude_proficiency, Proficiency::Trained);
    assert_eq!(prog.reflex_proficiency, Proficiency::Trained);
    assert_eq!(prog.will_proficiency, Proficiency::Expert);
    assert_eq!(prog.attack_proficiency, Proficiency::Trained);
    assert_eq!(prog.defense_proficiency, Proficiency::Trained);
}

#[test]
fn hp_computation_positive_con() {
    let prog = ClassProgression::for_class(CharacterClass::Fighter);
    // Level 5 Fighter with +3 CON: (10 * 5) + (3 * 5) = 65
    assert_eq!(compute_max_hp(&prog, 5, 3), 65);
}

#[test]
fn hp_computation_zero_con() {
    let prog = ClassProgression::for_class(CharacterClass::Wizard);
    // Level 3 Wizard with +0 CON: (6 * 3) + (0 * 3) = 18
    assert_eq!(compute_max_hp(&prog, 3, 0), 18);
}

#[test]
fn hp_computation_negative_con() {
    let prog = ClassProgression::for_class(CharacterClass::Wizard);
    // Level 4 Wizard with -1 CON: (6 * 4) + (-1 * 4) = 20
    assert_eq!(compute_max_hp(&prog, 4, -1), 20);
}

#[test]
fn hp_computation_level_one() {
    let prog = ClassProgression::for_class(CharacterClass::Barbarian);
    // Level 1 Barbarian with +4 CON: (12 * 1) + (4 * 1) = 16
    assert_eq!(compute_max_hp(&prog, 1, 4), 16);
}

#[test]
fn all_classes_have_valid_progressions() {
    let all_classes = [
        CharacterClass::Alchemist,
        CharacterClass::Barbarian,
        CharacterClass::Bard,
        CharacterClass::Champion,
        CharacterClass::Cleric,
        CharacterClass::Druid,
        CharacterClass::Fighter,
        CharacterClass::Monk,
        CharacterClass::Ranger,
        CharacterClass::Rogue,
        CharacterClass::Sorcerer,
        CharacterClass::Wizard,
    ];

    for class in &all_classes {
        let prog = ClassProgression::for_class(*class);
        // Every class should have at least 6 HP per level.
        assert!(
            prog.hit_points_per_level >= 6,
            "{:?} has less than 6 HP per level",
            class
        );
        // Will save should be at least Trained for all classes.
        assert!(
            prog.will_proficiency >= Proficiency::Trained,
            "{:?} has Untrained will save",
            class
        );
        // HP computation should not panic.
        let hp = compute_max_hp(&prog, 10, 2);
        assert!(hp > 0, "{:?} produced non-positive HP at level 10", class);
    }
}

#[test]
fn creature_size_space() {
    assert_eq!(CreatureSize::Tiny.space_in_feet(), 5);
    assert_eq!(CreatureSize::Small.space_in_feet(), 5);
    assert_eq!(CreatureSize::Medium.space_in_feet(), 5);
    assert_eq!(CreatureSize::Large.space_in_feet(), 10);
    assert_eq!(CreatureSize::Huge.space_in_feet(), 15);
    assert_eq!(CreatureSize::Gargantuan.space_in_feet(), 20);
}

#[test]
fn creature_size_reach() {
    assert_eq!(CreatureSize::Tiny.reach_in_feet(), 0);
    assert_eq!(CreatureSize::Small.reach_in_feet(), 5);
    assert_eq!(CreatureSize::Medium.reach_in_feet(), 5);
    assert_eq!(CreatureSize::Large.reach_in_feet(), 10);
    assert_eq!(CreatureSize::Huge.reach_in_feet(), 15);
    assert_eq!(CreatureSize::Gargantuan.reach_in_feet(), 20);
}

#[test]
fn damage_resistance_construction() {
    let resist = DamageResistance::new("fire", 5);
    assert_eq!(resist.damage_type, "fire");
    assert_eq!(resist.value, 5);
}

#[test]
fn damage_weakness_construction() {
    let weak = DamageWeakness::new("cold iron", 2);
    assert_eq!(weak.damage_type, "cold iron");
    assert_eq!(weak.value, 2);
}

#[test]
fn physical_damage_types() {
    assert!(DamageType::Slashing.is_physical());
    assert!(DamageType::Piercing.is_physical());
    assert!(DamageType::Bludgeoning.is_physical());
    assert!(!DamageType::Slashing.is_energy());
}

#[test]
fn energy_damage_types() {
    assert!(DamageType::Fire.is_energy());
    assert!(DamageType::Cold.is_energy());
    assert!(DamageType::Electric.is_energy());
    assert!(DamageType::Acid.is_energy());
    assert!(DamageType::Poison.is_energy());
    assert!(DamageType::Mental.is_energy());
    assert!(DamageType::Sonic.is_energy());
    assert!(!DamageType::Fire.is_physical());
}

#[test]
fn bulk_arithmetic() {
    // Two light items
    let two_light = Bulk::light() + Bulk::light();
    assert_eq!(two_light, Bulk(2));

    // Ten light items = 1 Bulk
    let mut total = Bulk::negligible();
    for _ in 0..10 {
        total = total + Bulk::light();
    }
    assert_eq!(total, Bulk::whole(1));
    assert_eq!(total.whole_value(), 1);
    assert_eq!(total.light_remainder(), 0);

    // 1 Bulk + 3 Light
    let combined = Bulk::whole(1) + Bulk(3);
    assert_eq!(combined.whole_value(), 1);
    assert_eq!(combined.light_remainder(), 3);

    // Two whole-number bulks
    let heavy = Bulk::whole(2) + Bulk::whole(3);
    assert_eq!(heavy, Bulk::whole(5));
}

#[test]
fn weapon_potency_modifier() {
    let m1 = weapon_modifier_bonus(1);
    assert_eq!(m1.value, 1);
    assert_eq!(m1.modifier_type, ModifierType::Item);

    let m2 = weapon_modifier_bonus(2);
    assert_eq!(m2.value, 2);
    assert_eq!(m2.modifier_type, ModifierType::Item);

    let m3 = weapon_modifier_bonus(3);
    assert_eq!(m3.value, 3);
    assert_eq!(m3.modifier_type, ModifierType::Item);
    assert_eq!(m3.source, "+3 weapon potency");
}

#[test]
fn armor_ac_modifier() {
    let chain_mail = armor_modifier(6);
    assert_eq!(chain_mail.value, 6);
    assert_eq!(chain_mail.modifier_type, ModifierType::Item);
    assert_eq!(chain_mail.source, "armor");

    let leather = armor_modifier(1);
    assert_eq!(leather.value, 1);
    assert_eq!(leather.modifier_type, ModifierType::Item);
}

#[test]
fn goblin_warrior_has_correct_stats() {
    let goblin = goblin_warrior();
    assert_eq!(goblin.name, "Goblin Warrior");
    assert_eq!(goblin.level, -1);
    assert_eq!(goblin.hp, 6);
    assert_eq!(goblin.ac, 16);
    assert_eq!(goblin.speed, 25);
    assert_eq!(goblin.enemy_data.creature_type, CreatureType::Humanoid);
    assert_eq!(goblin.enemy_data.size, CreatureSize::Small);
    assert!(!goblin.enemy_abilities.strikes.is_empty());
}

#[test]
fn skeleton_is_undead() {
    let skeleton = skeleton_guard();
    assert_eq!(skeleton.enemy_data.creature_type, CreatureType::Undead);
    assert!(skeleton.enemy_data.immunities.contains(&"death effects".to_string()));
    assert!(skeleton.enemy_data.immunities.contains(&"poison".to_string()));
}

#[test]
fn orc_warrior_is_level_1() {
    let orc = orc_warrior();
    assert_eq!(orc.level, 1);
    assert_eq!(orc.hp, 23);
    assert_eq!(orc.ac, 18);
    assert_eq!(orc.enemy_data.creature_type, CreatureType::Humanoid);
    assert_eq!(orc.enemy_data.size, CreatureSize::Medium);
}

#[test]
fn zombie_is_slow_and_mindless() {
    let zombie = zombie_shambler();
    assert_eq!(zombie.speed, 20); // Slow
    assert_eq!(zombie.enemy_data.creature_type, CreatureType::Undead);
    let ability_names: Vec<&str> = zombie
        .enemy_abilities
        .special_abilities
        .iter()
        .map(|a| a.name.as_str())
        .collect();
    assert!(ability_names.contains(&"Slow"));
    assert!(ability_names.contains(&"Mindless"));
}

#[test]
fn giant_rat_is_animal() {
    let rat = giant_rat();
    assert_eq!(rat.enemy_data.creature_type, CreatureType::Animal);
    assert!(rat.enemy_data.senses.contains(&Sense::Scent(30)));
}

#[test]
fn all_bestiary_entries_have_valid_data() {
    let entries: Vec<EnemyStatBlock> = vec![
        goblin_warrior(),
        skeleton_guard(),
        kobold_scout(),
        orc_warrior(),
        zombie_shambler(),
        giant_rat(),
    ];

    for entry in &entries {
        assert!(entry.hp > 0, "{} should have positive HP", entry.name);
        assert!(entry.ac > 0, "{} should have positive AC", entry.name);
        assert!(!entry.name.is_empty(), "Name should not be empty");
        assert!(
            !entry.enemy_abilities.strikes.is_empty(),
            "{} should have at least one strike",
            entry.name
        );
    }
}

#[test]
fn kobold_scout_stats() {
    let kobold = kobold_scout();
    assert_eq!(kobold.name, "Kobold Scout");
    assert_eq!(kobold.level, -1);
    assert_eq!(kobold.hp, 8);
    assert_eq!(kobold.ac, 16);
    assert_eq!(kobold.enemy_data.creature_type, CreatureType::Humanoid);
    assert_eq!(kobold.enemy_data.size, CreatureSize::Small);
}
