//! Condition types, severities and the effects conditions produce.

use vstd::prelude::*;

use crate::mechanics::modifier::Modifier;

verus! {

/// All PF2e conditions.
#[derive(Debug, Clone, Copy, PartialEq, Eq, Hash, Structural)]
pub enum ConditionType {
    Blinded,
    Clumsy,
    Concealed,
    Confused,
    Dazzled,
    Deafened,
    Doomed,
    Drained,
    Dying,
    Encumbered,
    Enfeebled,
    Fascinated,
    Fatigued,
    FlatFooted,
    Fleeing,
    Frightened,
    Grabbed,
    Hidden,
    Immobilized,
    Invisible,
    Paralyzed,
    Petrified,
    Prone,
    Quickened,
    Restrained,
    Sickened,
    Slowed,
    Stunned,
    Stupefied,
    Unconscious,
    Wounded,
}

/// Severity of a condition: binary or valued.
#[derive(Debug, Clone, Copy, PartialEq, Eq, Structural)]
pub enum ConditionSeverity {
    Active,
    Value(u32),
}

/// The numeric value of a severity; a binary condition counts as 1.
pub open spec fn severity_value(s: ConditionSeverity) -> u32 {
    match s {
        ConditionSeverity::Active => 1,
        ConditionSeverity::Value(v) => v,
    }
}

impl ConditionSeverity {
    pub fn value(&self) -> (r: u32)
        ensures
            r == severity_value(*self),
    {
        match self {
            Self::Active => 1,
            Self::Value(v) => *v,
        }
    }
}

/// What a condition's modifier applies to.
#[derive(Debug, Clone, PartialEq, Eq)]
pub enum ConditionModifierTarget {
    All,
    ArmorClass,
    AttackRolls,
    SavingThrows,
    SkillChecks,
    Perception,
    StrengthBased,
    DexterityBased,
    SpellBased,
    Specific(String),
}

/// Effects produced by conditions.
#[derive(Debug, Clone)]
pub enum ConditionEffect {
    ApplyModifier(ConditionModifierTarget, Modifier),
    ReduceActions(u32),
    GrantActions(u32),
    /// Like ReduceActions but the condition value decreases by the number of actions lost.
    ConsumeActions(u32),
    Incapacitated,
    ForcedMovement,
    PreventMovement,
    FlatFooted,
    SensoryBlock(SensoryChannel),
    ReduceMaxHp,
    ApplyCondition(ConditionType),
    /// Targeting the creature needs a flat check of this DC.
    RequireFlatCheck(u32),
    RandomTargeting,
    PreventReactions,
    /// Lowers the dying value at which the creature dies.
    ReduceMaxDying(u32),
    RecoveryCheckRequired,
    /// Lowers the creature's Speed by this many feet.
    ReduceSpeed(u32),
    /// No concentrate actions unrelated to the source.
    RestrictConcentrate,
    DamageResistance,
    /// Added to the dying value when the creature gains the dying condition.
    IncreaseDyingValue(u32),
}

#[derive(Debug, Clone, Copy, PartialEq, Eq, Structural)]
pub enum SensoryChannel {
    Vision,
    Hearing,
    Scent,
    Tremorsense,
}

} // verus!
