//! Factions, initiative, the enemy AI and combat resolution.

use bevy::ecs::world::World;
use rand::SeedableRng;
use pathfinder_mechanics::entity::creature::HitPoints;
use pathfinder_mechanics::entity::enemy::AttackData;
use pathfinder_mechanics::game::ai::{choose_enemy_action, find_move_toward, AiAction};
use pathfinder_mechanics::game::combat::{apply_damage, resolve_strike, roll_damage};
use pathfinder_mechanics::game::faction::Faction;
use pathfinder_mechanics::game::initiative::{EncounterState, InitiativeOrder};
use pathfinder_mechanics::mechanics::check::DegreeOfSuccess;
use pathfinder_mechanics::mechanics::dice::Die;
use pathfinder_mechanics::spatial::grid2d::Grid2D;
use pathfinder_mechanics::spatial::position::{Direction, Position};
use pathfinder_mechanics::spatial::terrain::Terrain;
use pathfinder_mechanics::spatial::topology::Topology;

#[test]
fn player_hostile_to_enemy() {
    assert!(Faction::Player.is_hostile_to(&Faction::Enemy));
    assert!(Faction::Enemy.is_hostile_to(&Faction::Player));
}

#[test]
fn same_faction_friendly() {
    assert!(Faction::Player.is_friendly_to(&Faction::Player));
    assert!(Faction::Enemy.is_friendly_to(&Faction::Enemy));
}

#[test]
fn same_faction_not_hostile() {
    assert!(!Faction::Player.is_hostile_to(&Faction::Player));
    assert!(!Faction::Enemy.is_hostile_to(&Faction::Enemy));
}


#[test]
fn initiative_sorts_descending() {
    let mut world = World::new();
    let e1 = world.spawn_empty().id().to_bits();
    let e2 = world.spawn_empty().id().to_bits();
    let e3 = world.spawn_empty().id().to_bits();

    let mut order = InitiativeOrder::new();
    order.add(e1, 10);
    order.add(e2, 20);
    order.add(e3, 15);

    assert_eq!(order.at(0), Some(e2)); // 20 goes first
    assert_eq!(order.at(1), Some(e3)); // 15 second
    assert_eq!(order.at(2), Some(e1)); // 10 third
}

#[test]
fn encounter_turn_advancement() {
    let mut state = EncounterState::default();
    state.start();
    assert_eq!(state.round, 1);
    assert_eq!(state.current_turn_index, 0);

    let new_round = state.advance_turn(3);
    assert!(!new_round);
    assert_eq!(state.current_turn_index, 1);

    let new_round = state.advance_turn(3);
    assert!(!new_round);
    assert_eq!(state.current_turn_index, 2);

    let new_round = state.advance_turn(3);
    assert!(new_round); // wrapped around → new round
    assert_eq!(state.round, 2);
    assert_eq!(state.current_turn_index, 0);
}

fn make_grid(w: u32, h: u32) -> Grid2D {
    Grid2D::new(w, h)
}

#[test]
fn attack_when_adjacent() {
    let grid = make_grid(10, 10);
    let my_pos = Position::new(3, 3);
    let player_pos = Position::new(3, 4); // directly south, adjacent
    let occupied: Vec<Position> = Vec::new();

    let action = choose_enemy_action(my_pos, 25, 3, player_pos, &grid, &occupied);

    match action {
        AiAction::Strike { attack_index } => assert_eq!(attack_index, 0),
        other => panic!("Expected Strike, got {:?}", other),
    }
}

#[test]
fn move_toward_player_when_not_adjacent() {
    let grid = make_grid(10, 10);
    let my_pos = Position::new(1, 1);
    let player_pos = Position::new(5, 5);
    let occupied: Vec<Position> = Vec::new();

    let action = choose_enemy_action(my_pos, 25, 3, player_pos, &grid, &occupied);

    match action {
        AiAction::MoveTo(pos) => {
            // The chosen position should be closer to the player than our current position
            assert!(
                pos.chebyshev(&player_pos) < my_pos.chebyshev(&player_pos),
                "Expected to move closer; moved to {:?} (dist {}), was at {:?} (dist {})",
                pos,
                pos.chebyshev(&player_pos),
                my_pos,
                my_pos.chebyshev(&player_pos),
            );
        }
        other => panic!("Expected MoveTo, got {:?}", other),
    }
}

#[test]
fn end_turn_when_no_actions() {
    let grid = make_grid(10, 10);
    let my_pos = Position::new(3, 3);
    let player_pos = Position::new(3, 4);
    let occupied: Vec<Position> = Vec::new();

    let action = choose_enemy_action(my_pos, 25, 0, player_pos, &grid, &occupied);

    match action {
        AiAction::EndTurn => {} // expected
        other => panic!("Expected EndTurn, got {:?}", other),
    }
}

#[test]
fn end_turn_when_surrounded() {
    let grid = make_grid(10, 10);
    let my_pos = Position::new(5, 5);
    let player_pos = Position::new(8, 8); // far away

    // Fill all 8 neighbors with occupied positions
    let mut occupied: Vec<Position> = Vec::new();
    for dir in Direction::all() {
        let (dx, dy) = dir.offset();
        occupied.push(my_pos.offset(dx, dy));
    }

    let action = choose_enemy_action(my_pos, 25, 3, player_pos, &grid, &occupied);

    match action {
        AiAction::EndTurn => {} // expected, can't move and not adjacent
        other => panic!("Expected EndTurn, got {:?}", other),
    }
}

#[test]
fn avoids_impassable_terrain() {
    let mut grid = make_grid(10, 10);
    let my_pos = Position::new(3, 3);
    let player_pos = Position::new(5, 3); // east of us

    // Make the direct path impassable
    grid.set_terrain(Position::new(4, 3), Terrain::Impassable);
    grid.set_terrain(Position::new(4, 2), Terrain::Impassable);
    grid.set_terrain(Position::new(4, 4), Terrain::Impassable);

    let occupied: Vec<Position> = Vec::new();

    let action = choose_enemy_action(my_pos, 25, 3, player_pos, &grid, &occupied);

    match action {
        AiAction::MoveTo(pos) => {
            // Should not move to impassable terrain
            assert_ne!(grid.terrain_at(pos), Terrain::Impassable);
        }
        AiAction::EndTurn => {
            // Acceptable if all closer cells are blocked
        }
        other => panic!("Expected MoveTo or EndTurn, got {:?}", other),
    }
}

#[test]
fn find_move_toward_picks_closest() {
    let grid = make_grid(10, 10);
    let from = Position::new(2, 2);
    let target = Position::new(5, 5);
    let occupied: Vec<Position> = Vec::new();

    let result = find_move_toward(from, target, &grid, &occupied);
    assert!(result.is_some());

    let chosen = result.unwrap();
    // Diagonal move toward (5,5) from (2,2) should be (3,3)
    assert_eq!(chosen, Position::new(3, 3));
}

#[test]
fn find_move_toward_avoids_occupied() {
    let grid = make_grid(10, 10);
    // From (2,2) targeting (5,2): cardinal east. Multiple neighbors get closer.
    // Closer neighbors: (3,2) dist=2, (3,1) dist=2, (3,3) dist=2.
    // Block (3,2) and verify the AI picks one of the other two.
    let from = Position::new(2, 2);
    let target = Position::new(5, 2);
    let mut occupied: Vec<Position> = Vec::new();
    occupied.push(Position::new(3, 2)); // block the direct east path

    let result = find_move_toward(from, target, &grid, &occupied);
    assert!(result.is_some());

    let chosen = result.unwrap();
    assert_ne!(chosen, Position::new(3, 2));
    // Should still be closer to target than our starting position
    assert!(chosen.chebyshev(&target) < from.chebyshev(&target));
}

#[test]
fn find_move_toward_returns_none_when_stuck() {
    let grid = make_grid(10, 10);
    let from = Position::new(5, 5);
    let target = Position::new(8, 8);

    // Occupy all neighbors
    let mut occupied: Vec<Position> = Vec::new();
    for dir in Direction::all() {
        let (dx, dy) = dir.offset();
        occupied.push(from.offset(dx, dy));
    }

    let result = find_move_toward(from, target, &grid, &occupied);
    assert!(result.is_none());
}

/// Helper: create a basic melee attack for testing.
fn test_attack() -> AttackData {
    AttackData {
        name: "Longsword".to_string(),
        attack_bonus: 9,
        damage_dice: Die::D8,
        damage_dice_count: 1,
        damage_bonus: 4,
        damage_type: "slashing".to_string(),
        traits: vec![],
        reach_in_feet: 5,
    }
}

/// Helper: create a deterministic RNG from a seed.
fn seeded_rng(seed: u64) -> rand::rngs::StdRng {
    rand::rngs::StdRng::seed_from_u64(seed)
}

#[test]
fn roll_damage_normal_hit() {
    let attack = test_attack();
    let mut rng = seeded_rng(42);

    let damage = roll_damage(&attack, false, &mut rng);

    // 1d8 + 4: result must be in [5, 12] (die range 1-8 + 4)
    assert!(damage >= 5 && damage <= 12, "damage was {}", damage);
}

#[test]
fn roll_damage_critical_doubles_dice() {
    let attack = test_attack();
    // Run many trials to verify critical damage range is wider
    let mut min_crit = i32::MAX;
    let mut max_crit = i32::MIN;

    for seed in 0..100 {
        let mut rng = seeded_rng(seed);
        let damage = roll_damage(&attack, true, &mut rng);
        min_crit = min_crit.min(damage);
        max_crit = max_crit.max(damage);
    }

    // Critical: 2d8 + 4, range [6, 20]
    assert!(min_crit >= 6, "min crit damage was {}", min_crit);
    assert!(max_crit <= 20, "max crit damage was {}", max_crit);
    // The max should be higher than normal max (12) in 100 trials
    assert!(max_crit > 12, "critical max {} should exceed normal max 12", max_crit);
}

#[test]
fn apply_damage_reduces_hp() {
    let mut hp = HitPoints::new(20);
    let died = apply_damage(&mut hp, 8);

    assert!(!died);
    assert_eq!(hp.current, 12);
    assert!(hp.is_alive());
}

#[test]
fn apply_damage_kills_at_zero() {
    let mut hp = HitPoints::new(10);
    let died = apply_damage(&mut hp, 10);

    assert!(died);
    assert_eq!(hp.current, 0);
    assert!(!hp.is_alive());
}

#[test]
fn apply_damage_overkill() {
    let mut hp = HitPoints::new(10);
    let died = apply_damage(&mut hp, 25);

    assert!(died);
    assert_eq!(hp.current, -15);
}

#[test]
fn apply_damage_absorbs_temporary_hp_first() {
    let mut hp = HitPoints::new(20);
    hp.temporary = 5;

    let died = apply_damage(&mut hp, 8);

    assert!(!died);
    assert_eq!(hp.temporary, 0);
    assert_eq!(hp.current, 17); // 8 - 5 temp = 3 to current; 20 - 3 = 17
}

#[test]
fn apply_damage_zero_is_noop() {
    let mut hp = HitPoints::new(20);
    let died = apply_damage(&mut hp, 0);

    assert!(!died);
    assert_eq!(hp.current, 20);
}

#[test]
fn resolve_strike_miss_deals_no_damage() {
    // Use a very high AC to guarantee a miss
    let attack = test_attack();
    let mut rng = seeded_rng(1);

    let result = resolve_strike(
        attack.attack_bonus,
        50, // impossibly high AC
        0,
        &[],
        &attack,
        &mut rng,
    );

    assert_eq!(result.damage_dealt, 0);
    assert!(
        result.degree == DegreeOfSuccess::Failure
            || result.degree == DegreeOfSuccess::CriticalFailure
    );
    assert!(result.description.contains("Miss"));
}

#[test]
fn resolve_strike_hit_deals_damage() {
    // Use a very low AC to guarantee a hit
    let attack = test_attack();
    let mut rng = seeded_rng(42);

    let result = resolve_strike(
        attack.attack_bonus,
        1, // impossibly low AC
        0,
        &[],
        &attack,
        &mut rng,
    );

    assert!(result.damage_dealt > 0);
    assert!(
        result.degree == DegreeOfSuccess::Success
            || result.degree == DegreeOfSuccess::CriticalSuccess
    );
}

#[test]
fn resolve_strike_map_penalty_applied() {
    let attack = test_attack();
    // Run with MAP=-5 and MAP=0 using the same seed; MAP=-5 should have a lower total
    let mut rng1 = seeded_rng(99);
    let mut rng2 = seeded_rng(99);

    let result_no_map = resolve_strike(
        attack.attack_bonus,
        15,
        0,
        &[],
        &attack,
        &mut rng1,
    );

    let result_with_map = resolve_strike(
        attack.attack_bonus,
        15,
        -5,
        &[],
        &attack,
        &mut rng2,
    );

    // Same natural roll, so total should differ by exactly 5
    assert_eq!(result_no_map.natural_roll, result_with_map.natural_roll);
    assert_eq!(
        result_no_map.check_total - result_with_map.check_total,
        5
    );
}

#[test]
fn resolve_strike_description_contains_attack_name() {
    let attack = test_attack();
    let mut rng = seeded_rng(7);

    let result = resolve_strike(
        attack.attack_bonus,
        15,
        0,
        &[],
        &attack,
        &mut rng,
    );

    assert!(
        result.description.contains("Longsword"),
        "description should contain attack name: {}",
        result.description
    );
}

#[test]
fn roll_damage_minimum_one() {
    // Create an attack with negative bonus to test minimum damage
    let attack = AttackData {
        name: "Weak Punch".to_string(),
        attack_bonus: 0,
        damage_dice: Die::D4,
        damage_dice_count: 1,
        damage_bonus: -10,
        damage_type: "bludgeoning".to_string(),
        traits: vec![],
        reach_in_feet: 5,
    };

    let mut rng = seeded_rng(0);
    let damage = roll_damage(&attack, false, &mut rng);

    assert_eq!(damage, 1, "minimum damage should be 1");
}
