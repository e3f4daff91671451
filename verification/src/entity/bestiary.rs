//! # Bestiary — Factory functions for iconic PF2e enemies
//!
//! Each function is a pure factory: it returns an `EnemyStatBlock` containing
//! all the data needed to place a fully-formed enemy in an encounter.

use vstd::prelude::*;

use crate::action::ActionCost;
use crate::mechanics::dice::Die;
use crate::mechanics::traits::{GameTrait, TraitCategory};

use super::ability::AbilityScores;
use super::enemy::{
    AttackData, CreatureSize, CreatureType, DamageResistance, DamageWeakness, EnemyAbilities,
    EnemyData, Sense, SpecialAbility,
};

verus! {

/// A complete enemy stat block: everything needed to place the creature
/// in an encounter.
#[derive(Debug, Clone)]
pub struct EnemyStatBlock {
    pub name: String,
    pub level: i32,
    pub hp: i32,
    pub ac: i32,
    pub speed: u32,
    pub ability_scores: AbilityScores,
    pub enemy_data: EnemyData,
    pub enemy_abilities: EnemyAbilities,
}

/// The strings read, in order, as `expected`.
pub open spec fn strings_are(v: Seq<String>, expected: Seq<Seq<char>>) -> bool {
    v.len() == expected.len() && forall|i: int| 0 <= i < v.len() ==> #[trigger] v[i]@ == expected[i]
}

/// The traits have these names and categories, in order.
pub open spec fn traits_are(ts: Seq<GameTrait>, names: Seq<Seq<char>>, cats: Seq<TraitCategory>) -> bool {
    &&& ts.len() == names.len()
    &&& ts.len() == cats.len()
    &&& forall|i: int| 0 <= i < ts.len() ==> #[trigger] ts[i].name@ == names[i] && ts[i].category == cats[i]
}

/// The resistances have these damage types and values, in order.
pub open spec fn resistances_are(v: Seq<DamageResistance>, types: Seq<Seq<char>>, values: Seq<u32>) -> bool {
    &&& v.len() == types.len()
    &&& v.len() == values.len()
    &&& forall|i: int| 0 <= i < v.len() ==> #[trigger] v[i].damage_type@ == types[i] && v[i].value == values[i]
}

/// The weaknesses have these damage types and values, in order.
pub open spec fn weaknesses_are(v: Seq<DamageWeakness>, types: Seq<Seq<char>>, values: Seq<u32>) -> bool {
    &&& v.len() == types.len()
    &&& v.len() == values.len()
    &&& forall|i: int| 0 <= i < v.len() ==> #[trigger] v[i].damage_type@ == types[i] && v[i].value == values[i]
}

/// A strike with these name, attack bonus, damage dice, damage bonus,
/// damage type and reach.
pub open spec fn strike_is(
    a: AttackData,
    name: Seq<char>,
    attack_bonus: int,
    die: Die,
    count: int,
    damage_bonus: int,
    damage_type: Seq<char>,
    reach: int,
) -> bool {
    &&& a.name@ == name
    &&& a.attack_bonus == attack_bonus
    &&& a.damage_dice == die
    &&& a.damage_dice_count == count
    &&& a.damage_bonus == damage_bonus
    &&& a.damage_type@ == damage_type
    &&& a.reach_in_feet == reach
}

/// A special ability with this name, cost and description.
pub open spec fn ability_is(a: SpecialAbility, name: Seq<char>, cost: ActionCost, description: Seq<char>) -> bool {
    &&& a.name@ == name
    &&& a.action_cost == cost
    &&& a.description@ == description
}

/// A strike built from its parts.
pub(crate) fn melee_strike(
    name: &str,
    attack_bonus: i32,
    dice: Die,
    dice_count: u32,
    damage_bonus: i32,
    damage_type: &str,
    traits: Vec<GameTrait>,
    reach: u32,
) -> (r: AttackData)
    ensures
        strike_is(r, name@, attack_bonus as int, dice, dice_count as int, damage_bonus as int, damage_type@, reach as int),
        r.traits@ == traits@,
{
    AttackData {
        name: String::from_str(name),
        attack_bonus,
        damage_dice: dice,
        damage_dice_count: dice_count,
        damage_bonus,
        damage_type: String::from_str(damage_type),
        traits,
        reach_in_feet: reach,
    }
}

/// **Goblin Warrior** — Level -1 Creature
///
/// Small, scrappy humanoid. Weak individually but dangerous in numbers.
/// AC 16, HP 6, Speed 25 ft.
pub fn goblin_warrior() -> (r: EnemyStatBlock)
    ensures
        r.name@ == "Goblin Warrior"@,
        r.level == -1,
        r.hp == 6,
        r.ac == 16,
        r.speed == 25,
        r.ability_scores == (AbilityScores { strength: 12, dexterity: 16, constitution: 10, intelligence: 10, wisdom: 10, charisma: 10 }),
        r.enemy_data.creature_type == CreatureType::Humanoid,
        r.enemy_data.size == CreatureSize::Small,
        r.enemy_data.alignment@ == "CE"@,
        r.enemy_data.senses@ =~= seq![Sense::Darkvision],
        strings_are(r.enemy_data.languages@, seq!["Common"@, "Goblin"@]),
        strings_are(r.enemy_data.immunities@, seq![]),
        resistances_are(r.enemy_data.resistances@, seq![], seq![]),
        weaknesses_are(r.enemy_data.weaknesses@, seq![], seq![]),
        r.enemy_abilities.strikes@.len() == 2,
        strike_is(r.enemy_abilities.strikes@[0], "Dogslicer"@, 8, Die::D6, 1, 1, "slashing"@, 5),
        traits_are(r.enemy_abilities.strikes@[0].traits@, seq!["Agile"@, "Backstabber"@, "Finesse"@], seq![TraitCategory::Attack, TraitCategory::Custom, TraitCategory::Custom]),
        strike_is(r.enemy_abilities.strikes@[1], "Shortbow"@, 7, Die::D6, 1, 0, "piercing"@, 0),
        traits_are(r.enemy_abilities.strikes@[1].traits@, seq!["Deadly d10"@], seq![TraitCategory::Custom]),
        r.enemy_abilities.special_abilities@.len() == 1,
        ability_is(r.enemy_abilities.special_abilities@[0], "Goblin Scuttle"@, ActionCost::Reaction, "When a goblin ally adjacent to the warrior uses a move action, the warrior can Step."@),
        traits_are(r.enemy_abilities.special_abilities@[0].traits@, seq![], seq![]),
{
    let strikes = vec![
                melee_strike("Dogslicer", 8, Die::D6, 1, 1, "slashing", vec![GameTrait::new("Agile", TraitCategory::Attack), GameTrait::new("Backstabber", TraitCategory::Custom), GameTrait::new("Finesse", TraitCategory::Custom)], 5),
                melee_strike("Shortbow", 7, Die::D6, 1, 0, "piercing", vec![GameTrait::new("Deadly d10", TraitCategory::Custom)], 0),
    ];
    let special_abilities = vec![
                SpecialAbility {
                    name: String::from_str("Goblin Scuttle"),
                    action_cost: ActionCost::Reaction,
                    description: String::from_str("When a goblin ally adjacent to the warrior uses a move action, the warrior can Step."),
                    traits: vec![],
                }
    ];
    let r = EnemyStatBlock {
        name: String::from_str("Goblin Warrior"),
        level: -1,
        hp: 6,
        ac: 16,
        speed: 25,
        ability_scores: AbilityScores {
            strength: 12,
            dexterity: 16,
            constitution: 10,
            intelligence: 10,
            wisdom: 10,
            charisma: 10,
        },
        enemy_data: EnemyData {
            creature_type: CreatureType::Humanoid,
            size: CreatureSize::Small,
            alignment: String::from_str("CE"),
            senses: vec![Sense::Darkvision],
            languages: vec![String::from_str("Common"), String::from_str("Goblin")],
            immunities: vec![],
            resistances: vec![],
            weaknesses: vec![],
        },
        enemy_abilities: EnemyAbilities { strikes, special_abilities },
    };
    proof {
        assert(r.enemy_data.senses@ =~= seq![Sense::Darkvision]);
    }
    r
}

/// **Skeleton Guard** — Level -1 Creature
///
/// Undead. Immune to death effects, disease, paralyzed, poison, unconscious.
/// AC 16, HP 4, Speed 25 ft.
pub fn skeleton_guard() -> (r: EnemyStatBlock)
    ensures
        r.name@ == "Skeleton Guard"@,
        r.level == -1,
        r.hp == 4,
        r.ac == 16,
        r.speed == 25,
        r.ability_scores == (AbilityScores { strength: 12, dexterity: 14, constitution: 10, intelligence: 10, wisdom: 10, charisma: 10 }),
        r.enemy_data.creature_type == CreatureType::Undead,
        r.enemy_data.size == CreatureSize::Medium,
        r.enemy_data.alignment@ == "NE"@,
        r.enemy_data.senses@ =~= seq![Sense::Darkvision],
        strings_are(r.enemy_data.languages@, seq![]),
        strings_are(r.enemy_data.immunities@, seq!["death effects"@, "disease"@, "paralyzed"@, "poison"@, "unconscious"@]),
        resistances_are(r.enemy_data.resistances@, seq!["cold"@, "electricity"@, "fire"@, "piercing"@, "slashing"@], seq![5u32, 5u32, 5u32, 5u32, 5u32]),
        weaknesses_are(r.enemy_data.weaknesses@, seq!["bludgeoning"@], seq![5u32]),
        r.enemy_abilities.strikes@.len() == 2,
        strike_is(r.enemy_abilities.strikes@[0], "Scimitar"@, 7, Die::D6, 1, 1, "slashing"@, 5),
        traits_are(r.enemy_abilities.strikes@[0].traits@, seq!["Forceful"@, "Sweep"@], seq![TraitCategory::Custom, TraitCategory::Custom]),
        strike_is(r.enemy_abilities.strikes@[1], "Claw"@, 7, Die::D4, 1, 1, "slashing"@, 5),
        traits_are(r.enemy_abilities.strikes@[1].traits@, seq!["Agile"@], seq![TraitCategory::Attack]),
        r.enemy_abilities.special_abilities@.len() == 0,
{
    let strikes = vec![
                melee_strike("Scimitar", 7, Die::D6, 1, 1, "slashing", vec![GameTrait::new("Forceful", TraitCategory::Custom), GameTrait::new("Sweep", TraitCategory::Custom)], 5),
                melee_strike("Claw", 7, Die::D4, 1, 1, "slashing", vec![GameTrait::new("Agile", TraitCategory::Attack)], 5),
    ];
    let special_abilities = vec![

    ];
    let r = EnemyStatBlock {
        name: String::from_str("Skeleton Guard"),
        level: -1,
        hp: 4,
        ac: 16,
        speed: 25,
        ability_scores: AbilityScores {
            strength: 12,
            dexterity: 14,
            constitution: 10,
            intelligence: 10,
            wisdom: 10,
            charisma: 10,
        },
        enemy_data: EnemyData {
            creature_type: CreatureType::Undead,
            size: CreatureSize::Medium,
            alignment: String::from_str("NE"),
            senses: vec![Sense::Darkvision],
            languages: vec![],
            immunities: vec![String::from_str("death effects"), String::from_str("disease"), String::from_str("paralyzed"), String::from_str("poison"), String::from_str("unconscious")],
            resistances: vec![DamageResistance::new("cold", 5), DamageResistance::new("electricity", 5), DamageResistance::new("fire", 5), DamageResistance::new("piercing", 5), DamageResistance::new("slashing", 5)],
            weaknesses: vec![DamageWeakness::new("bludgeoning", 5)],
        },
        enemy_abilities: EnemyAbilities { strikes, special_abilities },
    };
    proof {
        assert(r.enemy_data.senses@ =~= seq![Sense::Darkvision]);
    }
    r
}

/// **Kobold Scout** — Level -1 Creature
///
/// Small reptilian humanoid. Sneaky and trap-savvy.
/// AC 16, HP 8, Speed 25 ft.
pub fn kobold_scout() -> (r: EnemyStatBlock)
    ensures
        r.name@ == "Kobold Scout"@,
        r.level == -1,
        r.hp == 8,
        r.ac == 16,
        r.speed == 25,
        r.ability_scores == (AbilityScores { strength: 8, dexterity: 16, constitution: 10, intelligence: 12, wisdom: 12, charisma: 10 }),
        r.enemy_data.creature_type == CreatureType::Humanoid,
        r.enemy_data.size == CreatureSize::Small,
        r.enemy_data.alignment@ == "LE"@,
        r.enemy_data.senses@ =~= seq![Sense::Darkvision],
        strings_are(r.enemy_data.languages@, seq!["Common"@, "Draconic"@]),
        strings_are(r.enemy_data.immunities@, seq![]),
        resistances_are(r.enemy_data.resistances@, seq![], seq![]),
        weaknesses_are(r.enemy_data.weaknesses@, seq![], seq![]),
        r.enemy_abilities.strikes@.len() == 2,
        strike_is(r.enemy_abilities.strikes@[0], "Shortsword"@, 8, Die::D6, 1, 0, "piercing"@, 5),
        traits_are(r.enemy_abilities.strikes@[0].traits@, seq!["Agile"@, "Finesse"@, "Versatile S"@], seq![TraitCategory::Attack, TraitCategory::Custom, TraitCategory::Custom]),
        strike_is(r.enemy_abilities.strikes@[1], "Crossbow"@, 8, Die::D8, 1, 0, "piercing"@, 0),
        traits_are(r.enemy_abilities.strikes@[1].traits@, seq![], seq![]),
        r.enemy_abilities.special_abilities@.len() == 1,
        ability_is(r.enemy_abilities.special_abilities@[0], "Sneak Attack"@, ActionCost::Free, "The kobold scout deals an extra 1d6 precision damage to flat-footed creatures."@),
        traits_are(r.enemy_abilities.special_abilities@[0].traits@, seq![], seq![]),
{
    let strikes = vec![
                melee_strike("Shortsword", 8, Die::D6, 1, 0, "piercing", vec![GameTrait::new("Agile", TraitCategory::Attack), GameTrait::new("Finesse", TraitCategory::Custom), GameTrait::new("Versatile S", TraitCategory::Custom)], 5),
                melee_strike("Crossbow", 8, Die::D8, 1, 0, "piercing", vec![], 0),
    ];
    let special_abilities = vec![
                SpecialAbility {
                    name: String::from_str("Sneak Attack"),
                    action_cost: ActionCost::Free,
                    description: String::from_str("The kobold scout deals an extra 1d6 precision damage to flat-footed creatures."),
                    traits: vec![],
                }
    ];
    let r = EnemyStatBlock {
        name: String::from_str("Kobold Scout"),
        level: -1,
        hp: 8,
        ac: 16,
        speed: 25,
        ability_scores: AbilityScores {
            strength: 8,
            dexterity: 16,
            constitution: 10,
            intelligence: 12,
            wisdom: 12,
            charisma: 10,
        },
        enemy_data: EnemyData {
            creature_type: CreatureType::Humanoid,
            size: CreatureSize::Small,
            alignment: String::from_str("LE"),
            senses: vec![Sense::Darkvision],
            languages: vec![String::from_str("Common"), String::from_str("Draconic")],
            immunities: vec![],
            resistances: vec![],
            weaknesses: vec![],
        },
        enemy_abilities: EnemyAbilities { strikes, special_abilities },
    };
    proof {
        assert(r.enemy_data.senses@ =~= seq![Sense::Darkvision]);
    }
    r
}

/// **Orc Warrior** — Level 1 Creature
///
/// Medium humanoid. Tough and aggressive.
/// AC 18, HP 23, Speed 25 ft.
pub fn orc_warrior() -> (r: EnemyStatBlock)
    ensures
        r.name@ == "Orc Warrior"@,
        r.level == 1,
        r.hp == 23,
        r.ac == 18,
        r.speed == 25,
        r.ability_scores == (AbilityScores { strength: 18, dexterity: 12, constitution: 16, intelligence: 10, wisdom: 12, charisma: 10 }),
        r.enemy_data.creature_type == CreatureType::Humanoid,
        r.enemy_data.size == CreatureSize::Medium,
        r.enemy_data.alignment@ == "CE"@,
        r.enemy_data.senses@ =~= seq![Sense::Darkvision],
        strings_are(r.enemy_data.languages@, seq!["Common"@, "Orcish"@]),
        strings_are(r.enemy_data.immunities@, seq![]),
        resistances_are(r.enemy_data.resistances@, seq![], seq![]),
        weaknesses_are(r.enemy_data.weaknesses@, seq![], seq![]),
        r.enemy_abilities.strikes@.len() == 2,
        strike_is(r.enemy_abilities.strikes@[0], "Greataxe"@, 9, Die::D12, 1, 4, "slashing"@, 5),
        traits_are(r.enemy_abilities.strikes@[0].traits@, seq!["Sweep"@], seq![TraitCategory::Custom]),
        strike_is(r.enemy_abilities.strikes@[1], "Javelin"@, 5, Die::D6, 1, 4, "piercing"@, 0),
        traits_are(r.enemy_abilities.strikes@[1].traits@, seq!["Thrown 30 ft."@], seq![TraitCategory::Custom]),
        r.enemy_abilities.special_abilities@.len() == 1,
        ability_is(r.enemy_abilities.special_abilities@[0], "Ferocity"@, ActionCost::Reaction, "When the orc is reduced to 0 HP, it can use its reaction to remain at 1 HP instead. It gains the wounded 1 condition (or increases its wounded value by 1)."@),
        traits_are(r.enemy_abilities.special_abilities@[0].traits@, seq![], seq![]),
{
    let strikes = vec![
                melee_strike("Greataxe", 9, Die::D12, 1, 4, "slashing", vec![GameTrait::new("Sweep", TraitCategory::Custom)], 5),
                melee_strike("Javelin", 5, Die::D6, 1, 4, "piercing", vec![GameTrait::new("Thrown 30 ft.", TraitCategory::Custom)], 0),
    ];
    let special_abilities = vec![
                SpecialAbility {
                    name: String::from_str("Ferocity"),
                    action_cost: ActionCost::Reaction,
                    description: String::from_str("When the orc is reduced to 0 HP, it can use its reaction to remain at 1 HP instead. It gains the wounded 1 condition (or increases its wounded value by 1)."),
                    traits: vec![],
                }
    ];
    let r = EnemyStatBlock {
        name: String::from_str("Orc Warrior"),
        level: 1,
        hp: 23,
        ac: 18,
        speed: 25,
        ability_scores: AbilityScores {
            strength: 18,
            dexterity: 12,
            constitution: 16,
            intelligence: 10,
            wisdom: 12,
            charisma: 10,
        },
        enemy_data: EnemyData {
            creature_type: CreatureType::Humanoid,
            size: CreatureSize::Medium,
            alignment: String::from_str("CE"),
            senses: vec![Sense::Darkvision],
            languages: vec![String::from_str("Common"), String::from_str("Orcish")],
            immunities: vec![],
            resistances: vec![],
            weaknesses: vec![],
        },
        enemy_abilities: EnemyAbilities { strikes, special_abilities },
    };
    proof {
        assert(r.enemy_data.senses@ =~= seq![Sense::Darkvision]);
    }
    r
}

/// **Zombie Shambler** — Level -1 Creature
///
/// Undead. Slow and mindless, but surprisingly durable.
/// AC 12, HP 20, Speed 20 ft (Slow).
pub fn zombie_shambler() -> (r: EnemyStatBlock)
    ensures
        r.name@ == "Zombie Shambler"@,
        r.level == -1,
        r.hp == 20,
        r.ac == 12,
        r.speed == 20,
        r.ability_scores == (AbilityScores { strength: 14, dexterity: 8, constitution: 16, intelligence: 1, wisdom: 8, charisma: 6 }),
        r.enemy_data.creature_type == CreatureType::Undead,
        r.enemy_data.size == CreatureSize::Medium,
        r.enemy_data.alignment@ == "NE"@,
        r.enemy_data.senses@ =~= seq![Sense::Darkvision],
        strings_are(r.enemy_data.languages@, seq![]),
        strings_are(r.enemy_data.immunities@, seq!["death effects"@, "disease"@, "mental"@, "paralyzed"@, "poison"@, "unconscious"@]),
        resistances_are(r.enemy_data.resistances@, seq![], seq![]),
        weaknesses_are(r.enemy_data.weaknesses@, seq!["positive"@, "slashing"@], seq![5u32, 2u32]),
        r.enemy_abilities.strikes@.len() == 1,
        strike_is(r.enemy_abilities.strikes@[0], "Fist"@, 7, Die::D6, 1, 2, "bludgeoning"@, 5),
        traits_are(r.enemy_abilities.strikes@[0].traits@, seq![], seq![]),
        r.enemy_abilities.special_abilities@.len() == 2,
        ability_is(r.enemy_abilities.special_abilities@[0], "Slow"@, ActionCost::Free, "A zombie shambler is permanently slowed 1 and can't use reactions."@),
        traits_are(r.enemy_abilities.special_abilities@[0].traits@, seq![], seq![]),
        ability_is(r.enemy_abilities.special_abilities@[1], "Mindless"@, ActionCost::Free, "Immune to all mental effects. Can't take any action that requires thought."@),
        traits_are(r.enemy_abilities.special_abilities@[1].traits@, seq![], seq![]),
{
    let strikes = vec![
                melee_strike("Fist", 7, Die::D6, 1, 2, "bludgeoning", vec![], 5),
    ];
    let special_abilities = vec![
                SpecialAbility {
                    name: String::from_str("Slow"),
                    action_cost: ActionCost::Free,
                    description: String::from_str("A zombie shambler is permanently slowed 1 and can't use reactions."),
                    traits: vec![],
                },
                SpecialAbility {
                    name: String::from_str("Mindless"),
                    action_cost: ActionCost::Free,
                    description: String::from_str("Immune to all mental effects. Can't take any action that requires thought."),
                    traits: vec![],
                }
    ];
    let r = EnemyStatBlock {
        name: String::from_str("Zombie Shambler"),
        level: -1,
        hp: 20,
        ac: 12,
        speed: 20,
        ability_scores: AbilityScores {
            strength: 14,
            dexterity: 8,
            constitution: 16,
            intelligence: 1,
            wisdom: 8,
            charisma: 6,
        },
        enemy_data: EnemyData {
            creature_type: CreatureType::Undead,
            size: CreatureSize::Medium,
            alignment: String::from_str("NE"),
            senses: vec![Sense::Darkvision],
            languages: vec![],
            immunities: vec![String::from_str("death effects"), String::from_str("disease"), String::from_str("mental"), String::from_str("paralyzed"), String::from_str("poison"), String::from_str("unconscious")],
            resistances: vec![],
            weaknesses: vec![DamageWeakness::new("positive", 5), DamageWeakness::new("slashing", 2)],
        },
        enemy_abilities: EnemyAbilities { strikes, special_abilities },
    };
    proof {
        assert(r.enemy_data.senses@ =~= seq![Sense::Darkvision]);
    }
    r
}

/// **Giant Rat** — Level -1 Creature
///
/// Animal. A common low-level threat found in sewers and cellars.
/// AC 15, HP 8, Speed 30 ft.
pub fn giant_rat() -> (r: EnemyStatBlock)
    ensures
        r.name@ == "Giant Rat"@,
        r.level == -1,
        r.hp == 8,
        r.ac == 15,
        r.speed == 30,
        r.ability_scores == (AbilityScores { strength: 10, dexterity: 16, constitution: 12, intelligence: 2, wisdom: 12, charisma: 6 }),
        r.enemy_data.creature_type == CreatureType::Animal,
        r.enemy_data.size == CreatureSize::Small,
        r.enemy_data.alignment@ == "N"@,
        r.enemy_data.senses@ =~= seq![Sense::LowLightVision, Sense::Scent(30)],
        strings_are(r.enemy_data.languages@, seq![]),
        strings_are(r.enemy_data.immunities@, seq![]),
        resistances_are(r.enemy_data.resistances@, seq![], seq![]),
        weaknesses_are(r.enemy_data.weaknesses@, seq![], seq![]),
        r.enemy_abilities.strikes@.len() == 1,
        strike_is(r.enemy_abilities.strikes@[0], "Jaws"@, 8, Die::D6, 1, 1, "piercing"@, 5),
        traits_are(r.enemy_abilities.strikes@[0].traits@, seq!["Agile"@, "Finesse"@], seq![TraitCategory::Attack, TraitCategory::Custom]),
        r.enemy_abilities.special_abilities@.len() == 1,
        ability_is(r.enemy_abilities.special_abilities@[0], "Filth Fever"@, ActionCost::Free, "The giant rat's jaws deliver filth fever on a critical hit (DC 14 Fortitude save)."@),
        traits_are(r.enemy_abilities.special_abilities@[0].traits@, seq!["Disease"@], seq![TraitCategory::Custom]),
{
    let strikes = vec![
                melee_strike("Jaws", 8, Die::D6, 1, 1, "piercing", vec![GameTrait::new("Agile", TraitCategory::Attack), GameTrait::new("Finesse", TraitCategory::Custom)], 5),
    ];
    let special_abilities = vec![
                SpecialAbility {
                    name: String::from_str("Filth Fever"),
                    action_cost: ActionCost::Free,
                    description: String::from_str("The giant rat's jaws deliver filth fever on a critical hit (DC 14 Fortitude save)."),
                    traits: vec![GameTrait::new("Disease", TraitCategory::Custom)],
                }
    ];
    let r = EnemyStatBlock {
        name: String::from_str("Giant Rat"),
        level: -1,
        hp: 8,
        ac: 15,
        speed: 30,
        ability_scores: AbilityScores {
            strength: 10,
            dexterity: 16,
            constitution: 12,
            intelligence: 2,
            wisdom: 12,
            charisma: 6,
        },
        enemy_data: EnemyData {
            creature_type: CreatureType::Animal,
            size: CreatureSize::Small,
            alignment: String::from_str("N"),
            senses: vec![Sense::LowLightVision, Sense::Scent(30)],
            languages: vec![],
            immunities: vec![],
            resistances: vec![],
            weaknesses: vec![],
        },
        enemy_abilities: EnemyAbilities { strikes, special_abilities },
    };
    proof {
        assert(r.enemy_data.senses@ =~= seq![Sense::LowLightVision, Sense::Scent(30)]);
    }
    r
}

} // verus!
