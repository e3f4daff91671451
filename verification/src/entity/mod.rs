//! # Entity Layer (Layer 4)
//!
//! Entities are the things that exist within the mechanics field. They are
//! purely data: they don't define how checks work, how modifiers stack, or
//! how conditions propagate. They just have numbers that feed the rules.

pub mod ability;
pub mod proficiency;
pub mod creature;
pub mod enemy;
pub mod item;
pub mod class;
pub mod bestiary;

pub use ability::{AbilityScores, AbilityType};
pub use bestiary::EnemyStatBlock;
pub use class::{compute_max_hp, CharacterClass, ClassData, ClassProgression};
pub use creature::CreatureBundle;
pub use enemy::{
    AttackData, CreatureSize, CreatureType, DamageResistance, DamageWeakness, EnemyAbilities,
    EnemyData, Sense, SpecialAbility,
};
pub use item::{
    armor_modifier, weapon_modifier_bonus, ArmorCategory, ArmorData, Bulk, ConsumableData,
    ConsumableType, DamageType, Inventory, Item, ItemRarity, ItemType, ShieldData, WeaponData,
};
pub use proficiency::{Proficiency, SavingThrows, SkillProficiencies};
