//! Checks, modifier stacking and dice.

use rand::SeedableRng;
use pathfinder_mechanics::mechanics::check::{resolve_check, CheckContext, CheckResult, DegreeOfSuccess};
use pathfinder_mechanics::mechanics::dice::{DicePool, DiceRoll, Die};
use pathfinder_mechanics::mechanics::modifier::{Modifier, ModifierStack, ModifierType};

fn simple_check(natural_roll: i32, modifier: i32, dc: i32) -> CheckResult {
    let modifiers =
        ModifierStack::new().with(Modifier::new(modifier, ModifierType::Untyped, "total"));
    resolve_check(&CheckContext {
        natural_roll,
        modifiers,
        dc,
        degree_shifts: 0,
    })
}

#[test]
fn basic_success() {
    let result = simple_check(14, 5, 18);
    assert_eq!(result.total, 19);
    assert_eq!(result.final_degree, DegreeOfSuccess::Success);
}

#[test]
fn basic_failure() {
    // 10 + 3 = 13 vs DC 20 → Failure (not critical: 13 > 10)
    let result = simple_check(10, 3, 20);
    assert_eq!(result.total, 13);
    assert_eq!(result.final_degree, DegreeOfSuccess::Failure);
}

#[test]
fn critical_success_by_ten() {
    let result = simple_check(15, 10, 15);
    assert_eq!(result.total, 25);
    assert_eq!(result.final_degree, DegreeOfSuccess::CriticalSuccess);
}

#[test]
fn critical_failure_by_ten() {
    let result = simple_check(2, 0, 20);
    assert_eq!(result.total, 2);
    assert_eq!(result.final_degree, DegreeOfSuccess::CriticalFailure);
}

#[test]
fn natural_20_improves_degree() {
    let result = simple_check(20, 5, 25);
    assert_eq!(result.base_degree, DegreeOfSuccess::Success);
    assert_eq!(result.final_degree, DegreeOfSuccess::CriticalSuccess);
}

#[test]
fn natural_1_worsens_degree() {
    let result = simple_check(1, 10, 10);
    assert_eq!(result.base_degree, DegreeOfSuccess::Success);
    assert_eq!(result.final_degree, DegreeOfSuccess::Failure);
}

#[test]
fn degree_shifts_apply() {
    let modifiers =
        ModifierStack::new().with(Modifier::new(5, ModifierType::Untyped, "total"));
    let result = resolve_check(&CheckContext {
        natural_roll: 10,
        modifiers,
        dc: 15,
        degree_shifts: 1,
    });
    assert_eq!(result.final_degree, DegreeOfSuccess::CriticalSuccess);
}

#[test]
fn untyped_modifiers_stack() {
    let stack = ModifierStack::new()
        .with(Modifier::new(2, ModifierType::Untyped, "aid"))
        .with(Modifier::new(1, ModifierType::Untyped, "heroism"));
    let resolved = stack.resolve();
    assert_eq!(resolved.total, 3);
    assert_eq!(resolved.applied.len(), 2);
}

#[test]
fn typed_bonuses_take_highest() {
    let stack = ModifierStack::new()
        .with(Modifier::new(2, ModifierType::Status, "bless"))
        .with(Modifier::new(3, ModifierType::Status, "heroism"));
    let resolved = stack.resolve();
    assert_eq!(resolved.total, 3);
    assert_eq!(resolved.applied.len(), 1);
    assert_eq!(resolved.suppressed.len(), 1);
    assert_eq!(resolved.applied[0].source, "heroism");
}

#[test]
fn typed_penalties_take_worst() {
    let stack = ModifierStack::new()
        .with(Modifier::new(-1, ModifierType::Status, "frightened"))
        .with(Modifier::new(-3, ModifierType::Status, "sickened"));
    let resolved = stack.resolve();
    assert_eq!(resolved.total, -3);
    assert_eq!(resolved.applied.len(), 1);
    assert_eq!(resolved.applied[0].source, "sickened");
}

#[test]
fn mixed_types_stack_independently() {
    let stack = ModifierStack::new()
        .with(Modifier::new(2, ModifierType::Status, "bless"))
        .with(Modifier::new(1, ModifierType::Circumstance, "flanking"))
        .with(Modifier::new(1, ModifierType::Item, "handwraps"))
        .with(Modifier::new(-2, ModifierType::Status, "frightened"));
    let resolved = stack.resolve();
    // +2 status, -2 status, +1 circ, +1 item = 2
    assert_eq!(resolved.total, 2);
}

#[test]
fn die_max_values() {
    assert_eq!(Die::D4.max_value(), 4);
    assert_eq!(Die::D20.max_value(), 20);
}

#[test]
fn dice_pool_roll_count() {
    let mut rng = rand::rngs::StdRng::from_entropy();
    let pool = DicePool::new(3, Die::D6);
    let roll = pool.roll(&mut rng);
    assert_eq!(roll.results.len(), 3);
    for &r in &roll.results {
        assert!((1..=6).contains(&r));
    }
}

#[test]
fn dice_roll_total() {
    let roll = DiceRoll {
        die: Die::D6,
        results: vec![3, 4, 2],
    };
    assert_eq!(roll.total(), 9);
}
