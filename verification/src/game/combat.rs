//! Combat resolution: Strikes, damage rolls and damage application.
//!
//! A Strike rolls 1d20 against the target's AC with the attack bonus, the
//! multiple attack penalty and any extra modifiers; a hit rolls the damage
//! dice, a critical hit rolls twice as many (the flat bonus is not doubled).

use vstd::prelude::*;
use rand::rngs::StdRng;

use crate::entity::creature::HitPoints;
use crate::entity::enemy::AttackData;
use crate::mechanics::check::{
    base_degree, degree_rank, final_degree, resolve_check, CheckContext, CheckResult, DegreeOfSuccess,
};
use crate::mechanics::dice::{
    die_faces, lemma_faces_running_sums_fit, lemma_faces_sum_bounds, running_sums_fit, seq_sum,
    DicePool, DiceRoll, Die,
};
use crate::mechanics::modifier::{
    applied_of, lemma_running_totals_prepend, lemma_untyped_always_stacks, prefix_sums_fit,
    stacked_total, sum_values, Modifier, ModifierStack, ModifierType,
};
use crate::spatial::position::{max_int, min_int};
use crate::text::{i64_to_decimal, int_decimal};

verus! {

/// Result of a Strike: everything the game loop needs to report it and
/// update the state.
#[derive(Debug, Clone)]
pub struct StrikeResult {
    /// The degree of success of the attack check.
    pub degree: DegreeOfSuccess,
    /// The natural d20 roll (1-20), before any modifiers.
    pub natural_roll: i32,
    /// The total check result (natural roll + all modifiers).
    pub check_total: i32,
    /// The damage dealt; zero on a miss or critical miss.
    pub damage_dealt: i32,
    /// A human-readable description of the outcome.
    pub description: String,
}

/// A success or critical success: the Strike hits.
pub open spec fn is_hit(d: DegreeOfSuccess) -> bool {
    d == DegreeOfSuccess::CriticalSuccess || d == DegreeOfSuccess::Success
}

/// The number of damage dice: doubled on a critical hit.
pub open spec fn damage_dice(attack: AttackData, critical: bool) -> int {
    if critical {
        2 * attack.damage_dice_count
    } else {
        attack.damage_dice_count as int
    }
}

/// The damage of `attack` can be rolled and summed without overflow.
pub open spec fn damage_fits(attack: AttackData, critical: bool) -> bool {
    &&& damage_dice(attack, critical) <= u32::MAX
    &&& damage_dice(attack, critical) * die_faces(attack.damage_dice) <= i32::MAX
    &&& damage_dice(attack, critical) * die_faces(attack.damage_dice) + attack.damage_bonus
        <= i32::MAX
}

/// `d` is a damage amount that `attack` can deal: the dice total plus the
/// flat bonus, at least 1.
pub open spec fn damage_in_range(attack: AttackData, critical: bool, d: int) -> bool {
    let n = damage_dice(attack, critical);
    max_int(1, n + attack.damage_bonus) <= d <= max_int(
        1,
        n * die_faces(attack.damage_dice) + attack.damage_bonus,
    )
}

/// The attack check of a Strike can be summed without overflow.
pub open spec fn strike_fits(
    attack_bonus: int,
    map_penalty: int,
    extra: Seq<Modifier>,
    target_ac: int,
) -> bool {
    &&& forall|k: int|
        0 <= k <= applied_of(extra).len() ==> i32::MIN <= attack_bonus + map_penalty
            + #[trigger] sum_values(applied_of(extra).take(k)) <= i32::MAX
    &&& attack_bonus + map_penalty + stacked_total(extra) + 20 <= i32::MAX
    &&& i32::MIN + 10 <= target_ac <= i32::MAX - 10
}

/// The description of a Strike.
pub open spec fn strike_description(
    attack_name: Seq<char>,
    natural_roll: int,
    check_total: int,
    target_ac: int,
    degree: DegreeOfSuccess,
    damage_dealt: int,
    damage_type: Seq<char>,
) -> Seq<char> {
    let head = attack_name + " (d20="@ + int_decimal(natural_roll) + ", total="@ + int_decimal(
        check_total,
    ) + " vs AC "@ + int_decimal(target_ac) + "): "@;
    match degree {
        DegreeOfSuccess::CriticalSuccess => head + "Critical Hit! "@ + int_decimal(damage_dealt)
            + " "@ + damage_type + " damage"@,
        DegreeOfSuccess::Success => head + "Hit for "@ + int_decimal(damage_dealt) + " "@
            + damage_type + " damage"@,
        DegreeOfSuccess::Failure => head + "Miss"@,
        DegreeOfSuccess::CriticalFailure => head + "Critical Miss"@,
    }
}

/// Hit points after `damage`: temporary hit points absorb it first, the
/// rest comes off current hit points. Zero or negative damage changes nothing.
pub open spec fn absorbed(hp: HitPoints, damage: int) -> int {
    if hp.temporary > 0 {
        min_int(damage, hp.temporary as int)
    } else {
        0
    }
}

pub open spec fn damaged(hp: HitPoints, damage: int) -> HitPoints {
    if damage <= 0 {
        hp
    } else {
        HitPoints {
            temporary: (hp.temporary - absorbed(hp, damage)) as i32,
            current: (hp.current - (damage - absorbed(hp, damage))) as i32,
            ..hp
        }
    }
}

/// The attack check of a Strike for a given natural roll: the attack bonus,
/// then the multiple attack penalty (when not zero), then the extra
/// modifiers, against the target's AC.
pub fn strike_check(
    attack_bonus: i32,
    target_ac: i32,
    map_penalty: i32,
    extra_modifiers: &[Modifier],
    natural_roll: i32,
) -> (r: CheckResult)
    requires
        1 <= natural_roll <= 20,
        strike_fits(attack_bonus as int, map_penalty as int, extra_modifiers@, target_ac as int),
    ensures
        r.natural_roll == natural_roll,
        r.dc == target_ac,
        r.total == natural_roll + attack_bonus + map_penalty + stacked_total(extra_modifiers@),
        r.base_degree == base_degree(r.total as int, target_ac as int),
        r.final_degree == final_degree(r.total as int, target_ac as int, natural_roll as int, 0),
{
    let bonus = Modifier::new(attack_bonus, ModifierType::Untyped, "attack bonus");
    let mut modifiers = ModifierStack::new().with(bonus);
    let ghost mut head: Seq<Modifier> = seq![bonus];
    let ghost mut penalty: Option<Modifier> = None;
    if map_penalty != 0 {
        let m = Modifier::new(map_penalty, ModifierType::Untyped, "multiple attack penalty");
        modifiers = modifiers.with(m);
        proof {
            head = head.push(m);
            penalty = Some(m);
        }
    }
    let n = extra_modifiers.len();
    for i in 0..n
        invariant
            n == extra_modifiers@.len(),
            modifiers@ == head + extra_modifiers@.take(i as int),
    {
        let m = extra_modifiers[i].clone();
        modifiers = modifiers.with(m);
        proof {
            assert(head + extra_modifiers@.take(i + 1) =~= (head + extra_modifiers@.take(
                i as int,
            )).push(extra_modifiers@[i as int]));
        }
    }
    let ghost e = extra_modifiers@;
    let ghost a = applied_of(e);
    proof {
        assert(e.take(n as int) =~= e);
        lemma_untyped_always_stacks(bonus, e);
        match penalty {
            Some(m) => {
                assert(modifiers@ =~= seq![bonus] + (seq![m] + e));
                lemma_untyped_always_stacks(m, e);
                lemma_untyped_always_stacks(bonus, seq![m] + e);
                lemma_running_totals_prepend(m, a, attack_bonus as int);
                lemma_running_totals_prepend(bonus, seq![m] + a, 0);
                assert(applied_of(modifiers@) =~= seq![bonus] + (seq![m] + a));
            },
            None => {
                assert(modifiers@ =~= seq![bonus] + e);
                assert forall|k: int| 0 <= k <= a.len() implies i32::MIN <= 0 + bonus.value
                    + #[trigger] sum_values(a.take(k)) <= i32::MAX by {
                    assert(attack_bonus + map_penalty + sum_values(a.take(k)) <= i32::MAX);
                }
                lemma_running_totals_prepend(bonus, a, 0);
            },
        }
        assert(prefix_sums_fit(applied_of(modifiers@)));
        assert(stacked_total(modifiers@) == attack_bonus + map_penalty + stacked_total(e));
        assert(a.take(a.len() as int) =~= a);
        assert(i32::MIN <= attack_bonus + map_penalty + sum_values(a.take(a.len() as int)));
    }
    let ctx = CheckContext { natural_roll, modifiers, dc: target_ac, degree_shifts: 0 };
    resolve_check(&ctx)
}

/// Damage from a roll of the damage dice: the dice total plus the flat
/// bonus, at least 1.
pub fn damage_from_roll(roll: &DiceRoll, damage_bonus: i32) -> (r: i32)
    requires
        running_sums_fit(roll.results@),
        i32::MIN <= seq_sum(roll.results@) + damage_bonus <= i32::MAX,
    ensures
        r == max_int(1, seq_sum(roll.results@) + damage_bonus),
{
    let total = roll.total() + damage_bonus;
    if total >= 1 {
        total
    } else {
        1
    }
}

/// Roll damage for a Strike: the attack's damage dice (twice as many on a
/// critical hit) plus the flat damage bonus, at least 1.
pub fn roll_damage(attack: &AttackData, critical: bool, rng: &mut StdRng) -> (r: i32)
    requires
        damage_fits(*attack, critical),
    ensures
        r >= 1,
        damage_in_range(*attack, critical, r as int),
{
    let dice_count = if critical {
        attack.damage_dice_count * 2
    } else {
        attack.damage_dice_count
    };
    let pool = DicePool::new(dice_count, attack.damage_dice);
    let roll = pool.roll(rng);
    proof {
        lemma_faces_running_sums_fit(roll.results@, roll.die);
        lemma_faces_sum_bounds(roll.results@, roll.die);
    }
    damage_from_roll(&roll, attack.damage_bonus)
}

/// Apply damage to hit points: temporary hit points absorb it first, the
/// rest reduces current hit points. Returns whether current hit points are
/// at 0 or below.
pub fn apply_damage(hp: &mut HitPoints, damage: i32) -> (r: bool)
    requires
        damage > 0 ==> old(hp).current - (damage - absorbed(*old(hp), damage as int)) >= i32::MIN,
    ensures
        *final(hp) == damaged(*old(hp), damage as int),
        r == (final(hp).current <= 0),
{
    if damage <= 0 {
        return !hp.is_alive();
    }
    let mut remaining = damage;
    if hp.temporary > 0 {
        let taken = if remaining < hp.temporary {
            remaining
        } else {
            hp.temporary
        };
        hp.temporary = hp.temporary - taken;
        remaining = remaining - taken;
    }
    hp.current = hp.current - remaining;
    !hp.is_alive()
}

/// The description of a Strike's outcome.
pub fn build_strike_description(
    attack_name: &str,
    natural_roll: i32,
    check_total: i32,
    target_ac: i32,
    degree: DegreeOfSuccess,
    damage_dealt: i32,
    damage_type: &str,
) -> (r: String)
    ensures
        r@ == strike_description(
            attack_name@,
            natural_roll as int,
            check_total as int,
            target_ac as int,
            degree,
            damage_dealt as int,
            damage_type@,
        ),
{
    let head = String::from_str(attack_name).concat(" (d20=").concat(
        i64_to_decimal(natural_roll as i64).as_str(),
    ).concat(", total=").concat(i64_to_decimal(check_total as i64).as_str()).concat(
        " vs AC ",
    ).concat(i64_to_decimal(target_ac as i64).as_str()).concat("): ");
    match degree {
        DegreeOfSuccess::CriticalSuccess => head.concat("Critical Hit! ").concat(
            i64_to_decimal(damage_dealt as i64).as_str(),
        ).concat(" ").concat(damage_type).concat(" damage"),
        DegreeOfSuccess::Success => head.concat("Hit for ").concat(
            i64_to_decimal(damage_dealt as i64).as_str(),
        ).concat(" ").concat(damage_type).concat(" damage"),
        DegreeOfSuccess::Failure => head.concat("Miss"),
        DegreeOfSuccess::CriticalFailure => head.concat("Critical Miss"),
    }
}

/// The Strike result for a resolved attack check and the damage rolled for
/// it: a miss deals no damage whatever was rolled.
pub fn strike_result(attack: &AttackData, check: &CheckResult, damage: i32) -> (r: StrikeResult)
    ensures
        r.degree == check.final_degree,
        r.natural_roll == check.natural_roll,
        r.check_total == check.total,
        r.damage_dealt == (if is_hit(check.final_degree) {
            damage
        } else {
            0
        }),
        r.description@ == strike_description(
            attack.name@,
            check.natural_roll as int,
            check.total as int,
            check.dc as int,
            check.final_degree,
            r.damage_dealt as int,
            attack.damage_type@,
        ),
{
    let damage_dealt = match check.final_degree {
        DegreeOfSuccess::CriticalSuccess => damage,
        DegreeOfSuccess::Success => damage,
        DegreeOfSuccess::Failure => 0,
        DegreeOfSuccess::CriticalFailure => 0,
    };
    let description = build_strike_description(
        attack.name.as_str(),
        check.natural_roll,
        check.total,
        check.dc,
        check.final_degree,
        damage_dealt,
        attack.damage_type.as_str(),
    );
    StrikeResult {
        degree: check.final_degree,
        natural_roll: check.natural_roll,
        check_total: check.total,
        damage_dealt,
        description,
    }
}

/// Resolve a Strike: roll the d20, resolve the attack check against the
/// target's AC, and roll damage on a hit (double dice on a critical hit).
pub fn resolve_strike(
    attack_bonus: i32,
    target_ac: i32,
    map_penalty: i32,
    extra_modifiers: &[Modifier],
    attack: &AttackData,
    rng: &mut StdRng,
) -> (r: StrikeResult)
    requires
        strike_fits(attack_bonus as int, map_penalty as int, extra_modifiers@, target_ac as int),
        damage_fits(*attack, true),
    ensures
        1 <= r.natural_roll <= 20,
        r.check_total == r.natural_roll + attack_bonus + map_penalty + stacked_total(
            extra_modifiers@,
        ),
        r.degree == final_degree(r.check_total as int, target_ac as int, r.natural_roll as int, 0),
        !is_hit(r.degree) ==> r.damage_dealt == 0,
        is_hit(r.degree) ==> damage_in_range(
            *attack,
            r.degree == DegreeOfSuccess::CriticalSuccess,
            r.damage_dealt as int,
        ),
        r.description@ == strike_description(
            attack.name@,
            r.natural_roll as int,
            r.check_total as int,
            target_ac as int,
            r.degree,
            r.damage_dealt as int,
            attack.damage_type@,
        ),
{
    let natural_roll = Die::D20.roll(rng);
    let check = strike_check(attack_bonus, target_ac, map_penalty, extra_modifiers, natural_roll);
    proof {
        let c = attack.damage_dice_count as int;
        let f = die_faces(attack.damage_dice);
        assert(c * f <= 2 * c * f) by (nonlinear_arith)
            requires
                c >= 0,
                f >= 0,
        ;
    }
    let damage = match check.final_degree {
        DegreeOfSuccess::CriticalSuccess => roll_damage(attack, true, rng),
        DegreeOfSuccess::Success => roll_damage(attack, false, rng),
        DegreeOfSuccess::Failure => 0,
        DegreeOfSuccess::CriticalFailure => 0,
    };
    strike_result(attack, &check, damage)
}

/// Temporary hit points absorb damage first: the two pools together lose
/// exactly the damage, current hit points drop only once the temporary ones
/// are gone, and neither pool is touched by zero or negative damage.
pub proof fn lemma_temporary_absorbs_first(hp: HitPoints, damage: int)
    requires
        hp.temporary >= 0,
        i32::MIN <= hp.current - (damage - absorbed(hp, damage)),
        damage <= i32::MAX,
    ensures
        damage > 0 ==> damaged(hp, damage).current + damaged(hp, damage).temporary == hp.current
            + hp.temporary - damage,
        damaged(hp, damage).temporary >= 0,
        damaged(hp, damage).temporary > 0 ==> damaged(hp, damage).current == hp.current,
        damaged(hp, damage).current < hp.current ==> damaged(hp, damage).temporary == 0,
        damage <= 0 ==> damaged(hp, damage) == hp,
{
}


/// A Strike hits on a success or a critical success, the two upper degrees;
/// a critical hit rolls twice the attack's damage dice, any other hit the
/// attack's own count.
pub proof fn lemma_hits_and_critical_dice(d: DegreeOfSuccess, attack: AttackData)
    ensures
        is_hit(d) <==> degree_rank(d) >= 2,
        damage_dice(attack, false) == attack.damage_dice_count,
        damage_dice(attack, true) == 2 * attack.damage_dice_count,
{
}

} // verus!
