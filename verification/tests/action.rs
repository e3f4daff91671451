//! The three-action economy, the multiple attack penalty and trait restrictions.

use pathfinder_mechanics::action::{ActionCost, ActionPool, MultipleAttackPenalty};
use pathfinder_mechanics::mechanics::traits::GameTrait;

#[test]
fn three_action_economy() {
    let mut pool = ActionPool::new_turn();
    assert_eq!(pool.remaining(), 3);

    pool.spend(ActionCost::Actions(1), &[]);
    assert_eq!(pool.remaining(), 2);

    pool.spend(ActionCost::Actions(2), &[]);
    assert_eq!(pool.remaining(), 0);
}

#[test]
fn mod_slowed_reduces_actions() {
    let mut pool = ActionPool::new_turn();
    pool.actions_lost = 1;
    assert_eq!(pool.total_available(), 2);
}

#[test]
fn map_progression() {
    let mut map = MultipleAttackPenalty::new();
    assert_eq!(map.current_penalty(false), 0);

    map.record_attack();
    assert_eq!(map.current_penalty(false), -5);

    map.record_attack();
    assert_eq!(map.current_penalty(false), -10);
}

#[test]
fn agile_map() {
    let mut map = MultipleAttackPenalty::new();
    assert_eq!(map.current_penalty(true), 0);
    map.record_attack();
    assert_eq!(map.current_penalty(true), -4);
    map.record_attack();
    assert_eq!(map.current_penalty(true), -8);
}

#[test]
fn reaction_tracking() {
    let mut pool = ActionPool::new_turn();
    assert!(pool
        .can_perform(ActionCost::Reaction, &[])
        .is_available());

    pool.spend(ActionCost::Reaction, &[]);
    assert!(!pool
        .can_perform(ActionCost::Reaction, &[])
        .is_available());

    pool.new_round();
    assert!(pool
        .can_perform(ActionCost::Reaction, &[])
        .is_available());
}

#[test]
fn flourish_restriction() {
    let mut pool = ActionPool::new_turn();
    let flourish = vec![GameTrait::flourish()];

    assert!(pool
        .can_perform(ActionCost::Actions(1), &flourish)
        .is_available());
    pool.spend(ActionCost::Actions(1), &flourish);
    assert!(!pool
        .can_perform(ActionCost::Actions(1), &flourish)
        .is_available());
}

#[test]
fn press_requires_prior_attack() {
    let mut pool = ActionPool::new_turn();
    let press = vec![GameTrait::press()];
    let attack = vec![GameTrait::attack()];

    // Press should be blocked before any attack
    assert!(!pool
        .can_perform(ActionCost::Actions(1), &press)
        .is_available());

    // After an attack, press should be available
    pool.spend(ActionCost::Actions(1), &attack);
    assert!(pool
        .can_perform(ActionCost::Actions(1), &press)
        .is_available());
}

#[test]
fn open_allows_multiple_before_non_open() {
    let mut pool = ActionPool::new_turn();
    let open = vec![GameTrait::open()];

    // First open action should succeed
    assert!(pool
        .can_perform(ActionCost::Actions(1), &open)
        .is_available());
    pool.spend(ActionCost::Actions(1), &open);

    // Second open action should also succeed (no non-open action taken yet)
    assert!(pool
        .can_perform(ActionCost::Actions(1), &open)
        .is_available());
    pool.spend(ActionCost::Actions(1), &open);

    // Now spend a non-open action
    pool.spend(ActionCost::Actions(1), &[]);

    // Open action should now be blocked
    // (no remaining actions anyway, but test the flag)
    let mut pool2 = ActionPool::new_turn();
    let open = vec![GameTrait::open()];
    pool2.spend(ActionCost::Actions(1), &open);
    pool2.spend(ActionCost::Actions(1), &[]); // non-open
    assert!(!pool2
        .can_perform(ActionCost::Actions(1), &open)
        .is_available());
}

#[test]
fn reset_for_new_turn() {
    let mut pool = ActionPool::new_turn();
    let attack = vec![GameTrait::attack()];
    let flourish = vec![GameTrait::flourish()];

    // Simulate some activity
    pool.spend(ActionCost::Actions(1), &attack);
    pool.spend(ActionCost::Actions(1), &flourish);
    pool.actions_lost = 1;
    pool.actions_gained = 1;

    assert_eq!(pool.actions_spent, 2);
    assert!(pool.flourish_used);
    assert!(pool.non_open_action_taken);
    assert_eq!(pool.map.attacks_made, 1);

    // Reset for new turn
    pool.reset_for_new_turn();

    assert_eq!(pool.actions_spent, 0);
    assert_eq!(pool.actions_lost, 0);
    assert_eq!(pool.actions_gained, 0);
    assert_eq!(pool.map.attacks_made, 0);
    assert!(!pool.flourish_used);
    assert!(!pool.non_open_action_taken);

    // base_actions and reaction_used should be preserved
    assert_eq!(pool.base_actions, 3);
}
