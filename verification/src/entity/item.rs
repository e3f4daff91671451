//! Items: types, bulk, damage types, weapon/armor/shield/consumable data,
//! and the modifiers item properties produce.

use vstd::prelude::*;
use std::ops::Add;
use vstd::std_specs::ops::AddSpecImpl;

use crate::mechanics::dice::Die;
use crate::mechanics::modifier::{Modifier, ModifierType};
use crate::mechanics::traits::GameTrait;
use crate::text::{i64_to_decimal, int_decimal};

verus! {

/// The broad category an item falls into.
#[derive(Debug, Clone, Copy, PartialEq, Eq, Hash, Structural)]
pub enum ItemType {
    Weapon,
    Armor,
    Shield,
    Consumable,
    WornItem,
    HeldItem,
}

/// PF2e rarity levels.
#[derive(Debug, Clone, Copy, PartialEq, Eq, Hash, Structural)]
pub enum ItemRarity {
    Common,
    Uncommon,
    Rare,
    Unique,
}

/// PF2e bulk in tenths, so that light (L) items (= 1 tenth) can be added
/// without floating point. 1 Bulk = 10 units. L = 1 unit. Negligible = 0.
#[derive(Debug, Clone, Copy, PartialEq, Eq, PartialOrd, Ord, Hash, Structural)]
pub struct Bulk(pub u32);

impl Bulk {
    /// Negligible bulk.
    pub fn negligible() -> (r: Self)
        ensures
            r == Bulk(0),
    {
        Self(0)
    }

    /// Light bulk (L).
    pub fn light() -> (r: Self)
        ensures
            r == Bulk(1),
    {
        Self(1)
    }

    /// Whole-number bulk (e.g., 1 Bulk = 10 internal units).
    pub fn whole(n: u32) -> (r: Self)
        requires
            n * 10 <= u32::MAX,
        ensures
            r == Bulk((n * 10) as u32),
    {
        Self(n * 10)
    }

    /// Return the whole-bulk portion (integer division by 10).
    pub fn whole_value(&self) -> (r: u32)
        ensures
            r == self.0 / 10,
    {
        self.0 / 10
    }

    /// Return the remaining light items after full bulks are accounted for.
    pub fn light_remainder(&self) -> (r: u32)
        ensures
            r == self.0 % 10,
    {
        self.0 % 10
    }
}

impl Default for Bulk {
    fn default() -> (r: Self)
        ensures
            r == Bulk(0),
    {
        Bulk(0)
    }
}

impl Add for Bulk {
    type Output = Self;

    fn add(self, rhs: Self) -> (r: Self::Output) {
        Bulk(self.0 + rhs.0)
    }
}

impl AddSpecImpl for Bulk {
    open spec fn obeys_add_spec() -> bool {
        true
    }

    open spec fn add_req(self, rhs: Bulk) -> bool {
        self.0 + rhs.0 <= u32::MAX
    }

    open spec fn add_spec(self, rhs: Bulk) -> Bulk {
        Bulk((self.0 + rhs.0) as u32)
    }
}

/// Whole bulk and light remainder make up the total: ten light units make
/// one bulk, and the remainder is always below ten.
pub proof fn lemma_bulk_parts(b: Bulk)
    ensures
        b.0 == (b.0 / 10) * 10 + b.0 % 10,
        b.0 % 10 < 10,
{
}

/// PF2e damage types, split into physical and energy categories.
#[derive(Debug, Clone, Copy, PartialEq, Eq, Hash, Structural)]
pub enum DamageType {
    // Physical
    Slashing,
    Piercing,
    Bludgeoning,
    // Energy
    Fire,
    Cold,
    Electric,
    Acid,
    Poison,
    Mental,
    Sonic,
}

/// Slashing, piercing and bludgeoning damage are physical.
pub open spec fn physical(d: DamageType) -> bool {
    d == DamageType::Slashing || d == DamageType::Piercing || d == DamageType::Bludgeoning
}

impl DamageType {
    /// Whether this damage type is physical (slashing, piercing, bludgeoning).
    pub fn is_physical(&self) -> (r: bool)
        ensures
            r == physical(*self),
    {
        matches!(self, DamageType::Slashing | DamageType::Piercing | DamageType::Bludgeoning)
    }

    /// Whether this damage type is energy.
    pub fn is_energy(&self) -> (r: bool)
        ensures
            r == !physical(*self),
    {
        !self.is_physical()
    }
}

/// PF2e armor categories.
#[derive(Debug, Clone, Copy, PartialEq, Eq, Hash, Structural)]
pub enum ArmorCategory {
    Unarmored,
    Light,
    Medium,
    Heavy,
}

/// Sub-categories of consumable items.
#[derive(Debug, Clone, Copy, PartialEq, Eq, Hash, Structural)]
pub enum ConsumableType {
    Potion,
    Scroll,
    Elixir,
    Talisman,
    Oil,
}

/// The base data every item has.
#[derive(Debug, Clone)]
pub struct Item {
    pub name: String,
    pub item_type: ItemType,
    pub level: i32,
    pub rarity: ItemRarity,
    pub bulk: Bulk,
    pub traits: Vec<GameTrait>,
}

/// Weapon-specific data attached alongside `Item`.
#[derive(Debug, Clone)]
pub struct WeaponData {
    pub damage_die: Die,
    pub damage_die_count: u32,
    pub damage_type: DamageType,
    pub weapon_group: String,
    pub range: Option<u32>,
    pub hands_required: u32,
}

/// Armor-specific data attached alongside `Item`.
#[derive(Debug, Clone, Copy, PartialEq, Eq, Structural)]
pub struct ArmorData {
    pub ac_bonus: i32,
    pub dex_cap: Option<i32>,
    pub check_penalty: i32,
    pub speed_penalty: i32,
    pub strength_threshold: i32,
    pub armor_category: ArmorCategory,
}

/// Shield-specific data attached alongside `Item`.
#[derive(Debug, Clone, Copy, PartialEq, Eq, Structural)]
pub struct ShieldData {
    pub ac_bonus: i32,
    pub hardness: i32,
    pub hp: i32,
    pub bt: i32,
}

/// Consumable-specific data attached alongside `Item`.
#[derive(Debug, Clone, Copy, PartialEq, Eq, Structural)]
pub struct ConsumableData {
    pub consumable_type: ConsumableType,
    pub uses_remaining: u32,
}

/// A container for items held by a creature, by entity id.
#[derive(Debug, Clone)]
pub struct Inventory {
    pub items: Vec<u64>,
    pub bulk_limit: Bulk,
}

impl Default for Inventory {
    fn default() -> (r: Self)
        ensures
            r.items@.len() == 0,
            r.bulk_limit == Bulk(0),
    {
        Inventory { items: Vec::new(), bulk_limit: Bulk(0) }
    }
}

/// Create an item-type bonus modifier for a weapon's potency rune.
/// +1/+2/+3 potency runes give an item bonus to attack rolls.
pub fn weapon_modifier_bonus(potency_rune: u32) -> (r: Modifier)
    ensures
        r.value == potency_rune as i32,
        r.modifier_type == ModifierType::Item,
        r.source@ == "+"@ + int_decimal(potency_rune as int) + " weapon potency"@,
{
    let source = String::from_str("+").concat(i64_to_decimal(potency_rune as i64).as_str()).concat(
        " weapon potency",
    );
    Modifier::new(potency_rune as i32, ModifierType::Item, source.as_str())
}

/// Create an item-type bonus modifier for armor's AC bonus.
pub fn armor_modifier(ac_bonus: i32) -> (r: Modifier)
    ensures
        r.value == ac_bonus,
        r.modifier_type == ModifierType::Item,
        r.source@ == "armor"@,
{
    Modifier::new(ac_bonus, ModifierType::Item, "armor")
}

} // verus!
