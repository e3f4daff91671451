//! Creature data: level, hit points, armor class, speed, name.

use vstd::prelude::*;

use super::ability::AbilityScores;
use super::proficiency::{SavingThrows, SkillProficiencies};
use crate::action::ActionPool;
use crate::condition::Conditions;
use crate::spatial::position::Position;
use crate::spatial::GridPosition;

verus! {

/// Marker identifying an entity as a creature.
#[derive(Debug, Clone, Copy, PartialEq, Eq, Structural)]
pub struct Creature;

/// A creature's level.
#[derive(Debug, Clone, Copy, PartialEq, Eq, Structural)]
pub struct Level(pub i32);

/// Hit points (current, max and temporary).
#[derive(Debug, Clone, Copy, PartialEq, Eq, Structural)]
pub struct HitPoints {
    pub current: i32,
    pub max: i32,
    pub temporary: i32,
}

impl HitPoints {
    pub fn new(max: i32) -> (r: Self)
        ensures
            r == (HitPoints { current: max, max, temporary: 0 }),
    {
        Self { current: max, max, temporary: 0 }
    }

    pub fn is_alive(&self) -> (r: bool)
        ensures
            r == (self.current > 0),
    {
        self.current > 0
    }

    pub fn effective(&self) -> (r: i32)
        requires
            i32::MIN <= self.current + self.temporary <= i32::MAX,
        ensures
            r == self.current + self.temporary,
    {
        self.current + self.temporary
    }
}

/// Armor class (base value, before situational modifiers).
#[derive(Debug, Clone, Copy, PartialEq, Eq, Structural)]
pub struct ArmorClass(pub i32);

/// Movement speed in feet.
#[derive(Debug, Clone, Copy, PartialEq, Eq, Structural)]
pub struct Speed(pub u32);

/// A creature's name for display/identification.
#[derive(Debug, Clone)]
pub struct CreatureName(pub String);

/// All the data that makes up a creature.
#[derive(Debug, Clone)]
pub struct CreatureBundle {
    pub creature: Creature,
    pub name: CreatureName,
    pub level: Level,
    pub hp: HitPoints,
    pub ac: ArmorClass,
    pub speed: Speed,
    pub abilities: AbilityScores,
    pub saves: SavingThrows,
    pub skills: SkillProficiencies,
    pub conditions: Conditions,
    pub position: GridPosition,
    pub actions: ActionPool,
}

impl CreatureBundle {
    /// A minimal creature with sensible defaults: speed 25, all abilities 10,
    /// untrained, no conditions, at the origin, with a fresh action pool.
    pub fn new(name: &str, level: i32, hp: i32, ac: i32) -> (r: Self)
        ensures
            r.name.0@ == name@,
            r.level == Level(level),
            r.hp == (HitPoints { current: hp, max: hp, temporary: 0 }),
            r.ac == ArmorClass(ac),
            r.speed == Speed(25),
            r.abilities == (AbilityScores {
                strength: 10,
                dexterity: 10,
                constitution: 10,
                intelligence: 10,
                wisdom: 10,
                charisma: 10,
            }),
            r.saves.fortitude == super::proficiency::Proficiency::Untrained,
            r.saves.reflex == super::proficiency::Proficiency::Untrained,
            r.saves.will == super::proficiency::Proficiency::Untrained,
            r.skills.skills@.len() == 0,
            r.conditions.active@.len() == 0,
            r.position == GridPosition(Position { x: 0, y: 0, z: 0 }),
            r.actions == (ActionPool::spec_new_turn()),
    {
        Self {
            creature: Creature,
            name: CreatureName(String::from_str(name)),
            level: Level(level),
            hp: HitPoints::new(hp),
            ac: ArmorClass(ac),
            speed: Speed(25),
            abilities: AbilityScores::default(),
            saves: SavingThrows::default(),
            skills: SkillProficiencies::default(),
            conditions: Conditions::default(),
            position: GridPosition(Position::new(0, 0)),
            actions: ActionPool::new_turn(),
        }
    }
}

} // verus!
