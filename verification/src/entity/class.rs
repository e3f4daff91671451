//! Character classes and their progression data.

use vstd::prelude::*;

use super::ability::AbilityType;
use super::proficiency::{rank_index, Proficiency};

verus! {

/// The 12 core PF2e character classes.
#[derive(Debug, Clone, Copy, PartialEq, Eq, Hash, Structural)]
pub enum CharacterClass {
    Alchemist,
    Barbarian,
    Bard,
    Champion,
    Cleric,
    Druid,
    Fighter,
    Monk,
    Ranger,
    Rogue,
    Sorcerer,
    Wizard,
}

/// Identifies an entity's class and level within that class.
#[derive(Debug, Clone, Copy, PartialEq, Eq, Structural)]
pub struct ClassData {
    pub class: CharacterClass,
    pub level: u32,
    pub key_ability: AbilityType,
}

/// Pure reference data describing what a class provides.
#[derive(Debug, Clone, Copy, PartialEq, Eq, Structural)]
pub struct ClassProgression {
    pub hit_points_per_level: u32,
    pub key_ability: AbilityType,
    pub perception_proficiency: Proficiency,
    pub fortitude_proficiency: Proficiency,
    pub reflex_proficiency: Proficiency,
    pub will_proficiency: Proficiency,
    pub attack_proficiency: Proficiency,
    pub defense_proficiency: Proficiency,
}

/// The PF2e progression of each class. Fighter, Ranger and Monk choose
/// Strength or Dexterity as key ability; the table lists Strength.
pub open spec fn progression_of(class: CharacterClass) -> ClassProgression {
    match class {
        CharacterClass::Fighter => ClassProgression {
            hit_points_per_level: 10,
            key_ability: AbilityType::Strength,
            perception_proficiency: Proficiency::Expert,
            fortitude_proficiency: Proficiency::Expert,
            reflex_proficiency: Proficiency::Expert,
            will_proficiency: Proficiency::Expert,
            attack_proficiency: Proficiency::Expert,
            defense_proficiency: Proficiency::Expert,
        },
        CharacterClass::Rogue => ClassProgression {
            hit_points_per_level: 8,
            key_ability: AbilityType::Dexterity,
            perception_proficiency: Proficiency::Expert,
            fortitude_proficiency: Proficiency::Trained,
            reflex_proficiency: Proficiency::Expert,
            will_proficiency: Proficiency::Expert,
            attack_proficiency: Proficiency::Trained,
            defense_proficiency: Proficiency::Trained,
        },
        CharacterClass::Wizard => ClassProgression {
            hit_points_per_level: 6,
            key_ability: AbilityType::Intelligence,
            perception_proficiency: Proficiency::Trained,
            fortitude_proficiency: Proficiency::Trained,
            reflex_proficiency: Proficiency::Trained,
            will_proficiency: Proficiency::Expert,
            attack_proficiency: Proficiency::Trained,
            defense_proficiency: Proficiency::Trained,
        },
        CharacterClass::Cleric => ClassProgression {
            hit_points_per_level: 8,
            key_ability: AbilityType::Wisdom,
            perception_proficiency: Proficiency::Trained,
            fortitude_proficiency: Proficiency::Trained,
            reflex_proficiency: Proficiency::Trained,
            will_proficiency: Proficiency::Expert,
            attack_proficiency: Proficiency::Trained,
            defense_proficiency: Proficiency::Trained,
        },
        CharacterClass::Ranger => ClassProgression {
            hit_points_per_level: 10,
            key_ability: AbilityType::Strength,
            perception_proficiency: Proficiency::Expert,
            fortitude_proficiency: Proficiency::Expert,
            reflex_proficiency: Proficiency::Expert,
            will_proficiency: Proficiency::Trained,
            attack_proficiency: Proficiency::Expert,
            defense_proficiency: Proficiency::Trained,
        },
        CharacterClass::Barbarian => ClassProgression {
            hit_points_per_level: 12,
            key_ability: AbilityType::Strength,
            perception_proficiency: Proficiency::Expert,
            fortitude_proficiency: Proficiency::Expert,
            reflex_proficiency: Proficiency::Trained,
            will_proficiency: Proficiency::Expert,
            attack_proficiency: Proficiency::Trained,
            defense_proficiency: Proficiency::Trained,
        },
        CharacterClass::Bard => ClassProgression {
            hit_points_per_level: 8,
            key_ability: AbilityType::Charisma,
            perception_proficiency: Proficiency::Expert,
            fortitude_proficiency: Proficiency::Trained,
            reflex_proficiency: Proficiency::Expert,
            will_proficiency: Proficiency::Expert,
            attack_proficiency: Proficiency::Trained,
            defense_proficiency: Proficiency::Trained,
        },
        CharacterClass::Champion => ClassProgression {
            hit_points_per_level: 10,
            key_ability: AbilityType::Strength,
            perception_proficiency: Proficiency::Trained,
            fortitude_proficiency: Proficiency::Expert,
            reflex_proficiency: Proficiency::Trained,
            will_proficiency: Proficiency::Expert,
            attack_proficiency: Proficiency::Expert,
            defense_proficiency: Proficiency::Expert,
        },
        CharacterClass::Druid => ClassProgression {
            hit_points_per_level: 8,
            key_ability: AbilityType::Wisdom,
            perception_proficiency: Proficiency::Trained,
            fortitude_proficiency: Proficiency::Expert,
            reflex_proficiency: Proficiency::Trained,
            will_proficiency: Proficiency::Expert,
            attack_proficiency: Proficiency::Trained,
            defense_proficiency: Proficiency::Trained,
        },
        CharacterClass::Monk => ClassProgression {
            hit_points_per_level: 10,
            key_ability: AbilityType::Strength,
            perception_proficiency: Proficiency::Trained,
            fortitude_proficiency: Proficiency::Expert,
            reflex_proficiency: Proficiency::Expert,
            will_proficiency: Proficiency::Expert,
            attack_proficiency: Proficiency::Expert,
            defense_proficiency: Proficiency::Trained,
        },
        CharacterClass::Sorcerer => ClassProgression {
            hit_points_per_level: 6,
            key_ability: AbilityType::Charisma,
            perception_proficiency: Proficiency::Trained,
            fortitude_proficiency: Proficiency::Trained,
            reflex_proficiency: Proficiency::Trained,
            will_proficiency: Proficiency::Expert,
            attack_proficiency: Proficiency::Trained,
            defense_proficiency: Proficiency::Trained,
        },
        CharacterClass::Alchemist => ClassProgression {
            hit_points_per_level: 8,
            key_ability: AbilityType::Intelligence,
            perception_proficiency: Proficiency::Trained,
            fortitude_proficiency: Proficiency::Expert,
            reflex_proficiency: Proficiency::Trained,
            will_proficiency: Proficiency::Expert,
            attack_proficiency: Proficiency::Trained,
            defense_proficiency: Proficiency::Trained,
        },
    }
}

impl ClassProgression {
    /// Returns the PF2e progression data for each class.
    ///
    /// For classes with a Str/Dex key ability choice (Fighter, Ranger, Monk),
    /// this defaults to Strength. The actual choice is character-specific and
    /// should be set on the ClassData when building the entity.
    pub fn for_class(class: CharacterClass) -> (r: ClassProgression)
        ensures
            r == progression_of(class),
    {
        match class {
            CharacterClass::Fighter => ClassProgression {
                hit_points_per_level: 10,
                key_ability: AbilityType::Strength,
                perception_proficiency: Proficiency::Expert,
                fortitude_proficiency: Proficiency::Expert,
                reflex_proficiency: Proficiency::Expert,
                will_proficiency: Proficiency::Expert,
                attack_proficiency: Proficiency::Expert,
                defense_proficiency: Proficiency::Expert,
            },
            CharacterClass::Rogue => ClassProgression {
                hit_points_per_level: 8,
                key_ability: AbilityType::Dexterity,
                perception_proficiency: Proficiency::Expert,
                fortitude_proficiency: Proficiency::Trained,
                reflex_proficiency: Proficiency::Expert,
                will_proficiency: Proficiency::Expert,
                attack_proficiency: Proficiency::Trained,
                defense_proficiency: Proficiency::Trained,
            },
            CharacterClass::Wizard => ClassProgression {
                hit_points_per_level: 6,
                key_ability: AbilityType::Intelligence,
                perception_proficiency: Proficiency::Trained,
                fortitude_proficiency: Proficiency::Trained,
                reflex_proficiency: Proficiency::Trained,
                will_proficiency: Proficiency::Expert,
                attack_proficiency: Proficiency::Trained,
                defense_proficiency: Proficiency::Trained,
            },
            CharacterClass::Cleric => ClassProgression {
                hit_points_per_level: 8,
                key_ability: AbilityType::Wisdom,
                perception_proficiency: Proficiency::Trained,
                fortitude_proficiency: Proficiency::Trained,
                reflex_proficiency: Proficiency::Trained,
                will_proficiency: Proficiency::Expert,
                attack_proficiency: Proficiency::Trained,
                defense_proficiency: Proficiency::Trained,
            },
            CharacterClass::Ranger => ClassProgression {
                hit_points_per_level: 10,
                key_ability: AbilityType::Strength,
                perception_proficiency: Proficiency::Expert,
                fortitude_proficiency: Proficiency::Expert,
                reflex_proficiency: Proficiency::Expert,
                will_proficiency: Proficiency::Trained,
                attack_proficiency: Proficiency::Expert,
                defense_proficiency: Proficiency::Trained,
            },
            CharacterClass::Barbarian => ClassProgression {
                hit_points_per_level: 12,
                key_ability: AbilityType::Strength,
                perception_proficiency: Proficiency::Expert,
                fortitude_proficiency: Proficiency::Expert,
                reflex_proficiency: Proficiency::Trained,
                will_proficiency: Proficiency::Expert,
                attack_proficiency: Proficiency::Trained,
                defense_proficiency: Proficiency::Trained,
            },
            CharacterClass::Bard => ClassProgression {
                hit_points_per_level: 8,
                key_ability: AbilityType::Charisma,
                perception_proficiency: Proficiency::Expert,
                fortitude_proficiency: Proficiency::Trained,
                reflex_proficiency: Proficiency::Expert,
                will_proficiency: Proficiency::Expert,
                attack_proficiency: Proficiency::Trained,
                defense_proficiency: Proficiency::Trained,
            },
            CharacterClass::Champion => ClassProgression {
                hit_points_per_level: 10,
                key_ability: AbilityType::Strength,
                perception_proficiency: Proficiency::Trained,
                fortitude_proficiency: Proficiency::Expert,
                reflex_proficiency: Proficiency::Trained,
                will_proficiency: Proficiency::Expert,
                attack_proficiency: Proficiency::Expert,
                defense_proficiency: Proficiency::Expert,
            },
            CharacterClass::Druid => ClassProgression {
                hit_points_per_level: 8,
                key_ability: AbilityType::Wisdom,
                perception_proficiency: Proficiency::Trained,
                fortitude_proficiency: Proficiency::Expert,
                reflex_proficiency: Proficiency::Trained,
                will_proficiency: Proficiency::Expert,
                attack_proficiency: Proficiency::Trained,
                defense_proficiency: Proficiency::Trained,
            },
            CharacterClass::Monk => ClassProgression {
                hit_points_per_level: 10,
                key_ability: AbilityType::Strength,
                perception_proficiency: Proficiency::Trained,
                fortitude_proficiency: Proficiency::Expert,
                reflex_proficiency: Proficiency::Expert,
                will_proficiency: Proficiency::Expert,
                attack_proficiency: Proficiency::Expert,
                defense_proficiency: Proficiency::Trained,
            },
            CharacterClass::Sorcerer => ClassProgression {
                hit_points_per_level: 6,
                key_ability: AbilityType::Charisma,
                perception_proficiency: Proficiency::Trained,
                fortitude_proficiency: Proficiency::Trained,
                reflex_proficiency: Proficiency::Trained,
                will_proficiency: Proficiency::Expert,
                attack_proficiency: Proficiency::Trained,
                defense_proficiency: Proficiency::Trained,
            },
            CharacterClass::Alchemist => ClassProgression {
                hit_points_per_level: 8,
                key_ability: AbilityType::Intelligence,
                perception_proficiency: Proficiency::Trained,
                fortitude_proficiency: Proficiency::Expert,
                reflex_proficiency: Proficiency::Trained,
                will_proficiency: Proficiency::Expert,
                attack_proficiency: Proficiency::Trained,
                defense_proficiency: Proficiency::Trained,
            },
        }
    }
}

/// Class hit points: hit points per level times level, plus the
/// Constitution modifier times level; both factors read as `i32`.
pub open spec fn class_hp(hp_per_level: u32, level: u32, con_modifier: i32) -> int {
    (hp_per_level as i32) * (level as i32) + con_modifier * (level as i32)
}

/// `compute_max_hp` can multiply and add without overflow.
pub open spec fn class_hp_fits(hp_per_level: u32, level: u32, con_modifier: i32) -> bool {
    &&& i32::MIN <= (hp_per_level as i32) * (level as i32) <= i32::MAX
    &&& i32::MIN <= con_modifier * (level as i32) <= i32::MAX
    &&& i32::MIN <= class_hp(hp_per_level, level, con_modifier) <= i32::MAX
}

/// Compute max HP contribution from class levels:
/// class_hp_per_level * level + con_modifier * level.
/// Ancestry HP is added separately — this only covers the class contribution.
pub fn compute_max_hp(class: &ClassProgression, level: u32, con_modifier: i32) -> (r: i32)
    requires
        class_hp_fits(class.hit_points_per_level, level, con_modifier),
    ensures
        r == class_hp(class.hit_points_per_level, level, con_modifier),
{
    #[verifier::truncate]
    let level_i32 = level as i32;
    #[verifier::truncate]
    let per_level = class.hit_points_per_level as i32;
    per_level * level_i32 + con_modifier * level_i32
}

/// Every class gains at least 6 hit points per level and is at least
/// trained in Will saves and Perception.
pub proof fn lemma_progressions_sound(class: CharacterClass)
    ensures
        progression_of(class).hit_points_per_level >= 6,
        rank_index(progression_of(class).will_proficiency) >= rank_index(Proficiency::Trained),
        rank_index(progression_of(class).perception_proficiency) >= rank_index(Proficiency::Trained),
{
}

/// A character of level 1 or more with a Constitution modifier above -6
/// has positive class hit points.
pub proof fn lemma_class_hp_positive(class: CharacterClass, level: u32, con_modifier: i32)
    requires
        1 <= level <= i32::MAX,
        con_modifier > -6,
    ensures
        class_hp(progression_of(class).hit_points_per_level, level, con_modifier) > 0,
{
    let hp = progression_of(class).hit_points_per_level as int;
    let l = level as int;
    let c = con_modifier as int;
    assert((hp as i32) as int == hp);
    assert((level as i32) as int == l);
    assert(hp * l + c * l > 0) by (nonlinear_arith)
        requires
            hp >= 6,
            l >= 1,
            c > -6,
    ;
}

} // verus!
