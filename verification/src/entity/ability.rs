//! Ability scores and modifiers.

use vstd::prelude::*;

verus! {

/// The six ability scores.
#[derive(Debug, Clone, Copy, PartialEq, Eq, Hash, Structural)]
pub enum AbilityType {
    Strength,
    Dexterity,
    Constitution,
    Intelligence,
    Wisdom,
    Charisma,
}

/// An entity's ability scores.
#[derive(Debug, Clone, Copy, PartialEq, Eq, Structural)]
pub struct AbilityScores {
    pub strength: i32,
    pub dexterity: i32,
    pub constitution: i32,
    pub intelligence: i32,
    pub wisdom: i32,
    pub charisma: i32,
}

/// The score of one ability.
pub open spec fn score_of(s: AbilityScores, a: AbilityType) -> i32 {
    match a {
        AbilityType::Strength => s.strength,
        AbilityType::Dexterity => s.dexterity,
        AbilityType::Constitution => s.constitution,
        AbilityType::Intelligence => s.intelligence,
        AbilityType::Wisdom => s.wisdom,
        AbilityType::Charisma => s.charisma,
    }
}

/// PF2e ability modifier: floor((score - 10) / 2).
pub open spec fn ability_modifier(score: int) -> int {
    (score - 10) / 2
}

impl AbilityScores {
    /// PF2e ability modifier = floor((score - 10) / 2).
    pub fn modifier(&self, ability: AbilityType) -> (r: i32)
        requires
            score_of(*self, ability) >= i32::MIN + 11,
        ensures
            r == ability_modifier(score_of(*self, ability) as int),
    {
        let diff = self.score(ability) - 10;
        if diff >= 0 {
            diff / 2
        } else {
            (diff - 1) / 2
        }
    }

    pub fn score(&self, ability: AbilityType) -> (r: i32)
        ensures
            r == score_of(*self, ability),
    {
        match ability {
            AbilityType::Strength => self.strength,
            AbilityType::Dexterity => self.dexterity,
            AbilityType::Constitution => self.constitution,
            AbilityType::Intelligence => self.intelligence,
            AbilityType::Wisdom => self.wisdom,
            AbilityType::Charisma => self.charisma,
        }
    }
}

impl Default for AbilityScores {
    fn default() -> (r: Self)
        ensures
            r == (AbilityScores {
                strength: 10,
                dexterity: 10,
                constitution: 10,
                intelligence: 10,
                wisdom: 10,
                charisma: 10,
            }),
    {
        Self {
            strength: 10,
            dexterity: 10,
            constitution: 10,
            intelligence: 10,
            wisdom: 10,
            charisma: 10,
        }
    }
}

/// Each two points of score above 10 add one to the modifier, and each two
/// below take one away; the modifier never decreases as the score grows.
pub proof fn lemma_modifier_steps(score: int, other: int)
    ensures
        ability_modifier(score + 2) == ability_modifier(score) + 1,
        ability_modifier(10) == 0,
        score <= other ==> ability_modifier(score) <= ability_modifier(other),
{
}

} // verus!
