//! Enemy / NPC stat block data.

use vstd::prelude::*;

use crate::action::ActionCost;
use crate::mechanics::dice::Die;
use crate::mechanics::traits::GameTrait;

verus! {

/// PF2e creature types — the broad biological/magical classification.
#[derive(Debug, Clone, Copy, PartialEq, Eq, Hash, Structural)]
pub enum CreatureType {
    Aberration,
    Animal,
    Beast,
    Celestial,
    Construct,
    Dragon,
    Elemental,
    Fey,
    Fiend,
    Giant,
    Humanoid,
    Monitor,
    Ooze,
    Plant,
    Undead,
}

/// PF2e creature sizes, from Tiny to Gargantuan.
#[derive(Debug, Clone, Copy, PartialEq, Eq, Hash, PartialOrd, Ord, Structural)]
pub enum CreatureSize {
    Tiny,
    Small,
    Medium,
    Large,
    Huge,
    Gargantuan,
}

/// Space a creature of a size occupies on the grid, in feet.
pub open spec fn space_of(s: CreatureSize) -> u32 {
    match s {
        CreatureSize::Tiny | CreatureSize::Small | CreatureSize::Medium => 5,
        CreatureSize::Large => 10,
        CreatureSize::Huge => 15,
        CreatureSize::Gargantuan => 20,
    }
}

/// Default melee reach of a creature of a size, in feet.
pub open spec fn reach_of(s: CreatureSize) -> u32 {
    match s {
        CreatureSize::Tiny => 0,
        CreatureSize::Small | CreatureSize::Medium => 5,
        CreatureSize::Large => 10,
        CreatureSize::Huge => 15,
        CreatureSize::Gargantuan => 20,
    }
}

impl CreatureSize {
    /// The number of feet of space this creature occupies on the grid.
    /// Tiny creatures technically occupy 2.5 ft, but on a standard grid
    /// they share a 5-ft square, so we round up to 5 for grid purposes.
    pub fn space_in_feet(&self) -> (r: u32)
        ensures
            r == space_of(*self),
    {
        match self {
            CreatureSize::Tiny => 5,
            CreatureSize::Small | CreatureSize::Medium => 5,
            CreatureSize::Large => 10,
            CreatureSize::Huge => 15,
            CreatureSize::Gargantuan => 20,
        }
    }

    /// The default melee reach for a creature of this size (in feet).
    /// Tiny creatures have 0 reach (they must enter a foe's square).
    pub fn reach_in_feet(&self) -> (r: u32)
        ensures
            r == reach_of(*self),
    {
        match self {
            CreatureSize::Tiny => 0,
            CreatureSize::Small | CreatureSize::Medium => 5,
            CreatureSize::Large => 10,
            CreatureSize::Huge => 15,
            CreatureSize::Gargantuan => 20,
        }
    }
}

/// Small and Medium creatures occupy one square; from Small
/// up, reach equals space.
pub proof fn lemma_space_and_reach(a: CreatureSize)
    ensures
        a != CreatureSize::Tiny ==> reach_of(a) == space_of(a),
        (a == CreatureSize::Tiny || a == CreatureSize::Small || a == CreatureSize::Medium) ==> space_of(a) == 5,
{
}

/// Creature senses. Parameterized variants carry range in feet.
#[derive(Debug, Clone, Copy, PartialEq, Eq, Hash, Structural)]
pub enum Sense {
    Darkvision,
    LowLightVision,
    /// Scent with a range in feet (e.g., 30).
    Scent(u32),
    /// Tremorsense with a range in feet.
    Tremorsense(u32),
    /// Blindsight with a range in feet.
    Blindsight(u32),
}

/// A resistance to a specific damage type for a fixed value.
#[derive(Debug, Clone, PartialEq, Eq)]
pub struct DamageResistance {
    pub damage_type: String,
    pub value: u32,
}

impl DamageResistance {
    pub fn new(damage_type: &str, value: u32) -> (r: Self)
        ensures
            r.damage_type@ == damage_type@,
            r.value == value,
    {
        Self { damage_type: String::from_str(damage_type), value }
    }
}

/// A weakness to a specific damage type for a fixed value.
#[derive(Debug, Clone, PartialEq, Eq)]
pub struct DamageWeakness {
    pub damage_type: String,
    pub value: u32,
}

impl DamageWeakness {
    pub fn new(damage_type: &str, value: u32) -> (r: Self)
        ensures
            r.damage_type@ == damage_type@,
            r.value == value,
    {
        Self { damage_type: String::from_str(damage_type), value }
    }
}

/// The stat-block data unique to enemies/NPCs.
#[derive(Debug, Clone)]
pub struct EnemyData {
    pub creature_type: CreatureType,
    pub size: CreatureSize,
    /// Alignment as a free-form string (e.g., "CE", "LG", "N").
    pub alignment: String,
    pub senses: Vec<Sense>,
    pub languages: Vec<String>,
    pub immunities: Vec<String>,
    pub resistances: Vec<DamageResistance>,
    pub weaknesses: Vec<DamageWeakness>,
}

/// A single melee or ranged Strike available to a creature.
#[derive(Debug)]
pub struct AttackData {
    pub name: String,
    pub attack_bonus: i32,
    pub damage_dice: Die,
    pub damage_dice_count: u32,
    pub damage_bonus: i32,
    pub damage_type: String,
    pub traits: Vec<GameTrait>,
    pub reach_in_feet: u32,
}

impl Clone for AttackData {
    fn clone(&self) -> (r: Self)
        ensures
            r.name == self.name,
            r.attack_bonus == self.attack_bonus,
            r.damage_dice == self.damage_dice,
            r.damage_dice_count == self.damage_dice_count,
            r.damage_bonus == self.damage_bonus,
            r.damage_type == self.damage_type,
            r.traits@ == self.traits@,
            r.reach_in_feet == self.reach_in_feet,
    {
        let traits = self.traits.clone();
        proof {
            assert(traits@ =~= self.traits@);
        }
        AttackData {
            name: self.name.clone(),
            attack_bonus: self.attack_bonus,
            damage_dice: self.damage_dice,
            damage_dice_count: self.damage_dice_count,
            damage_bonus: self.damage_bonus,
            damage_type: self.damage_type.clone(),
            traits,
            reach_in_feet: self.reach_in_feet,
        }
    }
}

/// A named special ability with an action cost and description.
#[derive(Debug, Clone)]
pub struct SpecialAbility {
    pub name: String,
    pub action_cost: ActionCost,
    pub description: String,
    pub traits: Vec<GameTrait>,
}

/// The offensive capabilities of an enemy — strikes and special abilities.
#[derive(Debug, Clone)]
pub struct EnemyAbilities {
    pub strikes: Vec<AttackData>,
    pub special_abilities: Vec<SpecialAbility>,
}

} // verus!
