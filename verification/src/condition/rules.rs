//! Pure rules for how conditions produce mechanical effects.
//! Given a condition + severity → effects. No entity knowledge needed.

use vstd::prelude::*;

use crate::mechanics::modifier::{Modifier, ModifierType};

use super::types::{
    severity_value, ConditionEffect, ConditionModifierTarget, ConditionSeverity, ConditionType,
    SensoryChannel,
};

verus! {

/// Pure rules for how conditions produce mechanical effects.
pub struct ConditionRules;

/// `e` applies a modifier of `value` and type `t` to `target`, named `src`.
pub open spec fn modifier_effect(
    e: ConditionEffect,
    target: ConditionModifierTarget,
    value: int,
    t: ModifierType,
    src: Seq<char>,
) -> bool {
    match e {
        ConditionEffect::ApplyModifier(tg, m) => tg == target && m.value == value && m.modifier_type
            == t && m.source@ == src,
        _ => false,
    }
}

/// The penalty of a valued condition: the severity, negated. The severity
/// is read as an `i32`, wrapping as a cast does.
pub open spec fn severity_penalty(s: ConditionSeverity) -> int {
    -((severity_value(s) as i32) as int)
}

/// Conditions whose effects carry their severity, negated, as a penalty.
pub open spec fn negates_severity(c: ConditionType) -> bool {
    match c {
        ConditionType::Frightened | ConditionType::Sickened | ConditionType::Clumsy
        | ConditionType::Enfeebled | ConditionType::Stupefied | ConditionType::Drained => true,
        _ => false,
    }
}

/// The effects the rules give condition `c` at severity `s`.
pub open spec fn effects_of(c: ConditionType, s: ConditionSeverity, r: Seq<ConditionEffect>) -> bool {
    let p = severity_penalty(s);
    let v = severity_value(s);
    match c {
        ConditionType::Frightened => r.len() == 1 && modifier_effect(
            r[0],
            ConditionModifierTarget::All,
            p,
            ModifierType::Status,
            "frightened"@,
        ),
        ConditionType::Sickened => r.len() == 1 && modifier_effect(
            r[0],
            ConditionModifierTarget::All,
            p,
            ModifierType::Status,
            "sickened"@,
        ),
        ConditionType::Clumsy => r.len() == 2 && modifier_effect(
            r[0],
            ConditionModifierTarget::DexterityBased,
            p,
            ModifierType::Status,
            "clumsy"@,
        ) && modifier_effect(
            r[1],
            ConditionModifierTarget::ArmorClass,
            p,
            ModifierType::Status,
            "clumsy"@,
        ),
        ConditionType::Enfeebled => r.len() == 1 && modifier_effect(
            r[0],
            ConditionModifierTarget::StrengthBased,
            p,
            ModifierType::Status,
            "enfeebled"@,
        ),
        ConditionType::Stupefied => r.len() == 1 && modifier_effect(
            r[0],
            ConditionModifierTarget::SpellBased,
            p,
            ModifierType::Status,
            "stupefied"@,
        ),
        ConditionType::Drained => {
            &&& r.len() == 2
            &&& r[0] matches ConditionEffect::ApplyModifier(ConditionModifierTarget::Specific(name), m)
            &&& name@ == "constitution-based"@
            &&& m.value == p
            &&& m.modifier_type == ModifierType::Status
            &&& m.source@ == "drained"@
            &&& r[1] == ConditionEffect::ReduceMaxHp
        },
        ConditionType::FlatFooted => r.len() == 2 && r[0] == ConditionEffect::FlatFooted
            && modifier_effect(
            r[1],
            ConditionModifierTarget::ArmorClass,
            -2,
            ModifierType::Circumstance,
            "flat-footed"@,
        ),
        ConditionType::Blinded => r.len() == 3 && r[0] == ConditionEffect::SensoryBlock(
            SensoryChannel::Vision,
        ) && r[1] == ConditionEffect::FlatFooted && modifier_effect(
            r[2],
            ConditionModifierTarget::ArmorClass,
            -2,
            ModifierType::Circumstance,
            "flat-footed (blinded)"@,
        ),
        ConditionType::Deafened => r.len() == 1 && r[0] == ConditionEffect::SensoryBlock(
            SensoryChannel::Hearing,
        ),
        ConditionType::Prone => r.len() == 3 && modifier_effect(
            r[0],
            ConditionModifierTarget::AttackRolls,
            -2,
            ModifierType::Circumstance,
            "prone"@,
        ) && r[1] == ConditionEffect::FlatFooted && modifier_effect(
            r[2],
            ConditionModifierTarget::ArmorClass,
            -2,
            ModifierType::Circumstance,
            "flat-footed (prone)"@,
        ),
        ConditionType::Slowed => r =~= seq![ConditionEffect::ReduceActions(v)],
        ConditionType::Quickened => r =~= seq![ConditionEffect::GrantActions(1)],
        ConditionType::Stunned => r =~= seq![ConditionEffect::ConsumeActions(v)],
        ConditionType::Paralyzed => r.len() == 3 && r[0] == ConditionEffect::Incapacitated && r[1]
            == ConditionEffect::FlatFooted && modifier_effect(
            r[2],
            ConditionModifierTarget::ArmorClass,
            -2,
            ModifierType::Circumstance,
            "flat-footed (paralyzed)"@,
        ),
        ConditionType::Unconscious => r.len() == 5 && r[0] == ConditionEffect::Incapacitated && r[1]
            == ConditionEffect::ApplyCondition(ConditionType::Blinded) && r[2]
            == ConditionEffect::ApplyCondition(ConditionType::Prone) && r[3]
            == ConditionEffect::FlatFooted && modifier_effect(
            r[4],
            ConditionModifierTarget::ArmorClass,
            -4,
            ModifierType::Status,
            "unconscious"@,
        ),
        ConditionType::Immobilized => r =~= seq![ConditionEffect::PreventMovement],
        ConditionType::Grabbed => r.len() == 3 && r[0] == ConditionEffect::PreventMovement && r[1]
            == ConditionEffect::FlatFooted && modifier_effect(
            r[2],
            ConditionModifierTarget::ArmorClass,
            -2,
            ModifierType::Circumstance,
            "flat-footed (grabbed)"@,
        ),
        ConditionType::Restrained => r.len() == 3 && r[0] == ConditionEffect::PreventMovement && r[1]
            == ConditionEffect::FlatFooted && modifier_effect(
            r[2],
            ConditionModifierTarget::ArmorClass,
            -2,
            ModifierType::Circumstance,
            "flat-footed (restrained)"@,
        ),
        ConditionType::Fleeing => r =~= seq![ConditionEffect::ForcedMovement],
        ConditionType::Concealed => r =~= seq![ConditionEffect::RequireFlatCheck(5)],
        ConditionType::Confused => r.len() == 4 && r[0] == ConditionEffect::RandomTargeting && r[1]
            == ConditionEffect::PreventReactions && r[2] == ConditionEffect::FlatFooted
            && modifier_effect(
            r[3],
            ConditionModifierTarget::ArmorClass,
            -2,
            ModifierType::Circumstance,
            "flat-footed (confused)"@,
        ),
        ConditionType::Dazzled => r =~= seq![ConditionEffect::RequireFlatCheck(5)],
        ConditionType::Doomed => r =~= seq![ConditionEffect::ReduceMaxDying(v)],
        ConditionType::Dying => r =~= seq![
            ConditionEffect::RecoveryCheckRequired,
            ConditionEffect::Incapacitated,
            ConditionEffect::ApplyCondition(ConditionType::Unconscious),
        ],
        ConditionType::Encumbered => r =~= seq![
            ConditionEffect::ReduceSpeed(10),
            ConditionEffect::ApplyCondition(ConditionType::Clumsy),
        ],
        ConditionType::Fascinated => r.len() == 3 && modifier_effect(
            r[0],
            ConditionModifierTarget::Perception,
            -2,
            ModifierType::Status,
            "fascinated"@,
        ) && modifier_effect(
            r[1],
            ConditionModifierTarget::SkillChecks,
            -2,
            ModifierType::Status,
            "fascinated"@,
        ) && r[2] == ConditionEffect::RestrictConcentrate,
        ConditionType::Fatigued => r.len() == 2 && modifier_effect(
            r[0],
            ConditionModifierTarget::ArmorClass,
            -1,
            ModifierType::Status,
            "fatigued"@,
        ) && modifier_effect(
            r[1],
            ConditionModifierTarget::SavingThrows,
            -1,
            ModifierType::Status,
            "fatigued"@,
        ),
        ConditionType::Hidden => r.len() == 2 && r[0] == ConditionEffect::RequireFlatCheck(11)
            && modifier_effect(
            r[1],
            ConditionModifierTarget::ArmorClass,
            2,
            ModifierType::Circumstance,
            "hidden"@,
        ),
        ConditionType::Invisible => r.len() == 2 && r[0] == ConditionEffect::RequireFlatCheck(11)
            && modifier_effect(
            r[1],
            ConditionModifierTarget::ArmorClass,
            2,
            ModifierType::Circumstance,
            "invisible"@,
        ),
        ConditionType::Petrified => r.len() == 4 && r[0] == ConditionEffect::Incapacitated && r[1]
            == ConditionEffect::FlatFooted && modifier_effect(
            r[2],
            ConditionModifierTarget::ArmorClass,
            -2,
            ModifierType::Circumstance,
            "flat-footed (petrified)"@,
        ) && r[3] == ConditionEffect::DamageResistance,
        ConditionType::Wounded => r =~= seq![ConditionEffect::IncreaseDyingValue(v)],
    }
}

/// A modifier effect.
fn apply(target: ConditionModifierTarget, value: i32, t: ModifierType, source: &str) -> (r:
    ConditionEffect)
    ensures
        modifier_effect(r, target, value as int, t, source@),
{
    ConditionEffect::ApplyModifier(target, Modifier::new(value, t, source))
}

/// Exec form of `negates_severity`.
fn negates_severity_exec(c: ConditionType) -> (r: bool)
    ensures
        r == negates_severity(c),
{
    match c {
        ConditionType::Frightened | ConditionType::Sickened | ConditionType::Clumsy
        | ConditionType::Enfeebled | ConditionType::Stupefied | ConditionType::Drained => true,
        _ => false,
    }
}

impl ConditionRules {
    pub fn effects(condition: ConditionType, severity: ConditionSeverity) -> (r: Vec<
        ConditionEffect,
    >)
        requires
            negates_severity(condition) ==> (severity_value(severity) as i32) != i32::MIN,
        ensures
            effects_of(condition, severity, r@),
    {
        let val = severity.value() as i32;
        let neg: i32 = if negates_severity_exec(condition) { -val } else { 0 };
        match condition {
            ConditionType::Frightened => vec![
                apply(ConditionModifierTarget::All, neg, ModifierType::Status, "frightened"),
            ],
            ConditionType::Sickened => vec![
                apply(ConditionModifierTarget::All, neg, ModifierType::Status, "sickened"),
            ],
            ConditionType::Clumsy => vec![
                apply(ConditionModifierTarget::DexterityBased, neg, ModifierType::Status, "clumsy"),
                apply(ConditionModifierTarget::ArmorClass, neg, ModifierType::Status, "clumsy"),
            ],
            ConditionType::Enfeebled => vec![
                apply(
                    ConditionModifierTarget::StrengthBased,
                    neg,
                    ModifierType::Status,
                    "enfeebled",
                ),
            ],
            ConditionType::Stupefied => vec![
                apply(ConditionModifierTarget::SpellBased, neg, ModifierType::Status, "stupefied"),
            ],
            ConditionType::Drained => vec![
                apply(
                    ConditionModifierTarget::Specific(String::from_str("constitution-based")),
                    neg,
                    ModifierType::Status,
                    "drained",
                ),
                ConditionEffect::ReduceMaxHp,
            ],
            ConditionType::FlatFooted => vec![
                ConditionEffect::FlatFooted,
                apply(
                    ConditionModifierTarget::ArmorClass,
                    -2,
                    ModifierType::Circumstance,
                    "flat-footed",
                ),
            ],
            ConditionType::Blinded => vec![
                ConditionEffect::SensoryBlock(SensoryChannel::Vision),
                ConditionEffect::FlatFooted,
                apply(
                    ConditionModifierTarget::ArmorClass,
                    -2,
                    ModifierType::Circumstance,
                    "flat-footed (blinded)",
                ),
            ],
            ConditionType::Deafened => { vec![ConditionEffect::SensoryBlock(SensoryChannel::Hearing)] },
            ConditionType::Prone => vec![
                apply(ConditionModifierTarget::AttackRolls, -2, ModifierType::Circumstance, "prone"),
                ConditionEffect::FlatFooted,
                apply(
                    ConditionModifierTarget::ArmorClass,
                    -2,
                    ModifierType::Circumstance,
                    "flat-footed (prone)",
                ),
            ],
            ConditionType::Slowed => vec![ConditionEffect::ReduceActions(severity.value())],
            ConditionType::Quickened => vec![ConditionEffect::GrantActions(1)],
            ConditionType::Stunned => vec![ConditionEffect::ConsumeActions(severity.value())],
            ConditionType::Paralyzed => vec![
                ConditionEffect::Incapacitated,
                ConditionEffect::FlatFooted,
                apply(
                    ConditionModifierTarget::ArmorClass,
                    -2,
                    ModifierType::Circumstance,
                    "flat-footed (paralyzed)",
                ),
            ],
            ConditionType::Unconscious => vec![
                ConditionEffect::Incapacitated,
                ConditionEffect::ApplyCondition(ConditionType::Blinded),
                ConditionEffect::ApplyCondition(ConditionType::Prone),
                ConditionEffect::FlatFooted,
                apply(ConditionModifierTarget::ArmorClass, -4, ModifierType::Status, "unconscious"),
            ],
            ConditionType::Immobilized => vec![ConditionEffect::PreventMovement],
            ConditionType::Grabbed => vec![
                ConditionEffect::PreventMovement,
                ConditionEffect::FlatFooted,
                apply(
                    ConditionModifierTarget::ArmorClass,
                    -2,
                    ModifierType::Circumstance,
                    "flat-footed (grabbed)",
                ),
            ],
            ConditionType::Restrained => vec![
                ConditionEffect::PreventMovement,
                ConditionEffect::FlatFooted,
                apply(
                    ConditionModifierTarget::ArmorClass,
                    -2,
                    ModifierType::Circumstance,
                    "flat-footed (restrained)",
                ),
            ],
            ConditionType::Fleeing => vec![ConditionEffect::ForcedMovement],
            // Concealed: DC 5 flat check for attacker to target this creature
            ConditionType::Concealed => vec![ConditionEffect::RequireFlatCheck(5)],
            // Confused: random targeting, can't use reactions, must Strike
            ConditionType::Confused => vec![
                ConditionEffect::RandomTargeting,
                ConditionEffect::PreventReactions,
                ConditionEffect::FlatFooted,
                apply(
                    ConditionModifierTarget::ArmorClass,
                    -2,
                    ModifierType::Circumstance,
                    "flat-footed (confused)",
                ),
            ],
            // Dazzled: all creatures are concealed to you (DC 5 flat check)
            ConditionType::Dazzled => vec![ConditionEffect::RequireFlatCheck(5)],
            // Doomed: reduces your maximum dying value
            ConditionType::Doomed => vec![ConditionEffect::ReduceMaxDying(severity.value())],
            // Dying: must attempt recovery checks, incapacitated, unconscious
            ConditionType::Dying => vec![
                ConditionEffect::RecoveryCheckRequired,
                ConditionEffect::Incapacitated,
                ConditionEffect::ApplyCondition(ConditionType::Unconscious),
            ],
            // Encumbered: clumsy 1, -10 ft speed penalty
            ConditionType::Encumbered => vec![
                ConditionEffect::ReduceSpeed(10),
                ConditionEffect::ApplyCondition(ConditionType::Clumsy),
            ],
            // Fascinated: -2 status penalty to Perception and skill checks,
            // can't use concentrate actions on other subjects
            ConditionType::Fascinated => vec![
                apply(ConditionModifierTarget::Perception, -2, ModifierType::Status, "fascinated"),
                apply(ConditionModifierTarget::SkillChecks, -2, ModifierType::Status, "fascinated"),
                ConditionEffect::RestrictConcentrate,
            ],
            // Fatigued: -1 status penalty to AC and saving throws
            ConditionType::Fatigued => vec![
                apply(ConditionModifierTarget::ArmorClass, -1, ModifierType::Status, "fatigued"),
                apply(ConditionModifierTarget::SavingThrows, -1, ModifierType::Status, "fatigued"),
            ],
            // Hidden: DC 11 flat check to target, +2 circumstance to AC
            ConditionType::Hidden => vec![
                ConditionEffect::RequireFlatCheck(11),
                apply(ConditionModifierTarget::ArmorClass, 2, ModifierType::Circumstance, "hidden"),
            ],
            // Invisible: DC 11 flat check to target, +2 circumstance to AC
            ConditionType::Invisible => vec![
                ConditionEffect::RequireFlatCheck(11),
                apply(
                    ConditionModifierTarget::ArmorClass,
                    2,
                    ModifierType::Circumstance,
                    "invisible",
                ),
            ],
            // Petrified: paralyzed effects + resistance to all damage
            ConditionType::Petrified => vec![
                ConditionEffect::Incapacitated,
                ConditionEffect::FlatFooted,
                apply(
                    ConditionModifierTarget::ArmorClass,
                    -2,
                    ModifierType::Circumstance,
                    "flat-footed (petrified)",
                ),
                ConditionEffect::DamageResistance,
            ],
            // Wounded: increases dying value when gaining the dying condition
            ConditionType::Wounded => { vec![ConditionEffect::IncreaseDyingValue(severity.value())] },
        }
    }

    /// Whether this condition decreases by 1 at end of turn.
    pub fn decreases_at_end_of_turn(condition: ConditionType) -> (r: bool)
        ensures
            r == (condition == ConditionType::Frightened),
    {
        matches!(condition, ConditionType::Frightened)
    }
}

/// Every condition has at least one effect, at every severity.
pub proof fn lemma_effects_nonempty(c: ConditionType, s: ConditionSeverity, r: Seq<ConditionEffect>)
    requires
        effects_of(c, s, r),
    ensures
        r.len() >= 1,
{
}

/// Frightened N gives exactly one status penalty of -N to everything.
pub proof fn lemma_frightened_penalty(n: u32, r: Seq<ConditionEffect>)
    requires
        n <= i32::MAX,
        effects_of(ConditionType::Frightened, ConditionSeverity::Value(n), r),
    ensures
        r.len() == 1,
        modifier_effect(
            r[0],
            ConditionModifierTarget::All,
            -(n as int),
            ModifierType::Status,
            "frightened"@,
        ),
{
}

/// `r` holds a modifier of `value` and type `t` on `target`.
pub open spec fn has_modifier(
    r: Seq<ConditionEffect>,
    target: ConditionModifierTarget,
    value: int,
    t: ModifierType,
) -> bool {
    exists|i: int|
        0 <= i < r.len() && (#[trigger] r[i] matches ConditionEffect::ApplyModifier(tg, m) && tg == target
            && m.value == value && m.modifier_type == t)
}

/// A prone creature takes a -2 circumstance penalty to attack rolls and is
/// flat-footed, with its -2 circumstance penalty to AC.
pub proof fn lemma_prone_effects(s: ConditionSeverity, r: Seq<ConditionEffect>)
    requires
        effects_of(ConditionType::Prone, s, r),
    ensures
        has_modifier(r, ConditionModifierTarget::AttackRolls, -2, ModifierType::Circumstance),
        has_modifier(r, ConditionModifierTarget::ArmorClass, -2, ModifierType::Circumstance),
        r.contains(ConditionEffect::FlatFooted),
{
    assert(r[1] == ConditionEffect::FlatFooted);
    assert(r[0] matches ConditionEffect::ApplyModifier(tg, m) && tg == ConditionModifierTarget::AttackRolls
        && m.value == -2 && m.modifier_type == ModifierType::Circumstance);
    assert(r[2] matches ConditionEffect::ApplyModifier(tg, m) && tg == ConditionModifierTarget::ArmorClass
        && m.value == -2 && m.modifier_type == ModifierType::Circumstance);
}

/// The conditions that leave a creature flat-footed say so and carry the
/// flat-footed -2 circumstance penalty to AC; unconsciousness is
/// flat-footed with a -4 status penalty to AC.
pub proof fn lemma_flat_footed_conditions(c: ConditionType, s: ConditionSeverity, r: Seq<ConditionEffect>)
    requires
        effects_of(c, s, r),
    ensures
        c == ConditionType::FlatFooted || c == ConditionType::Blinded || c == ConditionType::Prone || c
            == ConditionType::Paralyzed || c == ConditionType::Grabbed || c == ConditionType::Restrained
            || c == ConditionType::Confused || c == ConditionType::Petrified ==> r.contains(
            ConditionEffect::FlatFooted,
        ) && has_modifier(r, ConditionModifierTarget::ArmorClass, -2, ModifierType::Circumstance),
        c == ConditionType::Unconscious ==> r.contains(ConditionEffect::FlatFooted) && has_modifier(
            r,
            ConditionModifierTarget::ArmorClass,
            -4,
            ModifierType::Status,
        ),
{
    let ac = ConditionModifierTarget::ArmorClass;
    match c {
        ConditionType::FlatFooted => {
            assert(r[0] == ConditionEffect::FlatFooted);
            assert(r[1] matches ConditionEffect::ApplyModifier(tg, m) && tg == ac && m.value == -2
                && m.modifier_type == ModifierType::Circumstance);
        },
        ConditionType::Blinded | ConditionType::Prone => {
            assert(r[1] == ConditionEffect::FlatFooted);
            assert(r[2] matches ConditionEffect::ApplyModifier(tg, m) && tg == ac && m.value == -2
                && m.modifier_type == ModifierType::Circumstance);
        },
        ConditionType::Paralyzed | ConditionType::Grabbed | ConditionType::Restrained => {
            assert(r[1] == ConditionEffect::FlatFooted);
            assert(r[2] matches ConditionEffect::ApplyModifier(tg, m) && tg == ac && m.value == -2
                && m.modifier_type == ModifierType::Circumstance);
        },
        ConditionType::Confused => {
            assert(r[2] == ConditionEffect::FlatFooted);
            assert(r[3] matches ConditionEffect::ApplyModifier(tg, m) && tg == ac && m.value == -2
                && m.modifier_type == ModifierType::Circumstance);
        },
        ConditionType::Petrified => {
            assert(r[1] == ConditionEffect::FlatFooted);
            assert(r[2] matches ConditionEffect::ApplyModifier(tg, m) && tg == ac && m.value == -2
                && m.modifier_type == ModifierType::Circumstance);
        },
        ConditionType::Unconscious => {
            assert(r[3] == ConditionEffect::FlatFooted);
            assert(r[4] matches ConditionEffect::ApplyModifier(tg, m) && tg == ac && m.value == -4
                && m.modifier_type == ModifierType::Status);
        },
        _ => {},
    }
}

/// Valued conditions give a status penalty equal to their value: frightened
/// and sickened to everything, clumsy to Dexterity-based rolls and AC,
/// enfeebled to Strength-based rolls, stupefied to spell rolls, drained to
/// Constitution-based rolls (with lost maximum HP).
pub proof fn lemma_valued_penalties(c: ConditionType, n: u32, r: Seq<ConditionEffect>)
    requires
        n <= i32::MAX,
        effects_of(c, ConditionSeverity::Value(n), r),
    ensures
        c == ConditionType::Frightened || c == ConditionType::Sickened ==> has_modifier(
            r,
            ConditionModifierTarget::All,
            -(n as int),
            ModifierType::Status,
        ),
        c == ConditionType::Clumsy ==> has_modifier(
            r,
            ConditionModifierTarget::DexterityBased,
            -(n as int),
            ModifierType::Status,
        ) && has_modifier(r, ConditionModifierTarget::ArmorClass, -(n as int), ModifierType::Status),
        c == ConditionType::Enfeebled ==> has_modifier(
            r,
            ConditionModifierTarget::StrengthBased,
            -(n as int),
            ModifierType::Status,
        ),
        c == ConditionType::Stupefied ==> has_modifier(
            r,
            ConditionModifierTarget::SpellBased,
            -(n as int),
            ModifierType::Status,
        ),
        c == ConditionType::Drained ==> (r[0] matches ConditionEffect::ApplyModifier(_, m) && m.value
            == -(n as int) && m.modifier_type == ModifierType::Status) && r.contains(
            ConditionEffect::ReduceMaxHp,
        ),
{
    assert(((n as i32) as int) == n as int);
    match c {
        ConditionType::Clumsy => {
            assert(r[0] matches ConditionEffect::ApplyModifier(tg, m) && tg
                == ConditionModifierTarget::DexterityBased && m.value == -(n as int) && m.modifier_type
                == ModifierType::Status);
            assert(r[1] matches ConditionEffect::ApplyModifier(tg, m) && tg
                == ConditionModifierTarget::ArmorClass && m.value == -(n as int) && m.modifier_type
                == ModifierType::Status);
        },
        ConditionType::Drained => {
            assert(r[1] == ConditionEffect::ReduceMaxHp);
        },
        _ => {
            if c == ConditionType::Frightened || c == ConditionType::Sickened || c == ConditionType::Enfeebled
                || c == ConditionType::Stupefied {
                assert(r[0] matches ConditionEffect::ApplyModifier(_, m) && m.value == -(n as int)
                    && m.modifier_type == ModifierType::Status);
            }
        },
    }
}

/// Slowed N takes N actions away, stunned N consumes N actions, quickened
/// grants one; blinded blocks vision and deafened hearing.
pub proof fn lemma_action_and_sense_effects(c: ConditionType, s: ConditionSeverity, r: Seq<ConditionEffect>)
    requires
        effects_of(c, s, r),
    ensures
        c == ConditionType::Slowed ==> r.contains(ConditionEffect::ReduceActions(severity_value(s))),
        c == ConditionType::Stunned ==> r.contains(ConditionEffect::ConsumeActions(severity_value(s))),
        c == ConditionType::Quickened ==> r.contains(ConditionEffect::GrantActions(1)),
        c == ConditionType::Blinded ==> r.contains(ConditionEffect::SensoryBlock(SensoryChannel::Vision)),
        c == ConditionType::Deafened ==> r.contains(ConditionEffect::SensoryBlock(SensoryChannel::Hearing)),
{
    if c == ConditionType::Slowed || c == ConditionType::Stunned || c == ConditionType::Quickened || c
        == ConditionType::Blinded || c == ConditionType::Deafened {
        assert(r.len() >= 1);
        assert(r[0] == r[0]);
    }
}

} // verus!
