//! Scenarios and laws of the library on concrete values.

use rand::SeedableRng;
use pathfinder_mechanics::action::ActionPool;
use pathfinder_mechanics::entity::creature::HitPoints;
use pathfinder_mechanics::entity::enemy::AttackData;
use pathfinder_mechanics::game::ai::{choose_enemy_action, find_move_toward, AiAction};
use pathfinder_mechanics::game::combat::{
    apply_damage, build_strike_description, damage_from_roll, strike_check, strike_result,
};
use pathfinder_mechanics::game::faction::Faction;
use pathfinder_mechanics::game::initiative::{EncounterPhase, EncounterState, InitiativeEntry, InitiativeOrder};
use pathfinder_mechanics::game::runner::{
    end_player_turn, enemy_act, enemy_strike, enemy_turns, next_game_step, EnemyStep, GameStep, find_adjacent_enemies, get_occupied_positions,
    handle_player_attack, handle_player_move, pass_player_turn, start_new_round,
};
use pathfinder_mechanics::game::sandbox::create_sandbox;
use pathfinder_mechanics::mechanics::check::DegreeOfSuccess;
use pathfinder_mechanics::mechanics::dice::{DiceRoll, Die};
use pathfinder_mechanics::mechanics::modifier::{Modifier, ModifierStack, ModifierType};
use pathfinder_mechanics::spatial::grid2d::Grid2D;
use pathfinder_mechanics::spatial::position::{Direction, Position};
use pathfinder_mechanics::spatial::terrain::Terrain;
use pathfinder_mechanics::spatial::topology::Topology;
use pathfinder_mechanics::ui::display::{
    cell_char, enemy_status, log_window_start, turn_label, viewport, CreatureDisplay,
};
use pathfinder_mechanics::ui::input::{
    only_target, parse_direction, parse_menu_choice, parse_target, DirectionInput, MenuChoice,
    TargetInput,
};

fn rng(seed: u64) -> rand::rngs::StdRng {
    rand::rngs::StdRng::seed_from_u64(seed)
}

fn longsword() -> AttackData {
    AttackData {
        name: "Longsword".to_string(),
        attack_bonus: 9,
        damage_dice: Die::D8,
        damage_dice_count: 1,
        damage_bonus: 4,
        damage_type: "slashing".to_string(),
        traits: vec![],
        reach_in_feet: 5,
    }
}

/// The numbers after "d20=" and "total=" in a Strike description.
fn roll_and_total(description: &str) -> (i32, i32) {
    let d20 = description.split("d20=").nth(1).unwrap().split(',').next().unwrap();
    let total = description.split("total=").nth(1).unwrap().split(' ').next().unwrap();
    (d20.parse().unwrap(), total.parse().unwrap())
}

// --- initiative -----------------------------------------------------------

#[test]
fn initiative_ties_keep_insertion_order() {
    let mut order = InitiativeOrder::new();
    order.add(1, 15);
    order.add(2, 20);
    order.add(3, 15);
    order.add(4, 15);
    assert_eq!(order.count(), 4);
    let ids: Vec<u64> = order.order().iter().map(|e| e.entity).collect();
    assert_eq!(ids, vec![2, 1, 3, 4]);
    assert_eq!(order.at(4), None);
}

#[test]
fn initiative_remove_keeps_order() {
    let mut order = InitiativeOrder::default();
    order.add(7, 5);
    order.add(8, 25);
    order.add(9, 12);
    order.remove(9);
    assert_eq!(
        order.order().to_vec(),
        vec![InitiativeEntry { entity: 8, initiative: 25 }, InitiativeEntry { entity: 7, initiative: 5 }]
    );
    order.remove(42);
    assert_eq!(order.count(), 2);
}

#[test]
fn full_cycle_starts_one_new_round() {
    let mut state = EncounterState::default();
    assert_eq!(state.phase, EncounterPhase::NotStarted);
    state.start();
    let mut wraps = 0;
    for _ in 0..4 {
        if state.advance_turn(4) {
            wraps += 1;
        }
    }
    assert_eq!(wraps, 1);
    assert_eq!(state.round, 2);
    assert_eq!(state.current_turn_index, 0);
    state.end();
    assert_eq!(state.phase, EncounterPhase::Ended);
    assert_eq!(state.round, 2);
}

#[test]
fn factions_hostile_or_friendly() {
    for a in [Faction::Player, Faction::Enemy] {
        for b in [Faction::Player, Faction::Enemy] {
            assert_ne!(a.is_hostile_to(&b), a.is_friendly_to(&b));
            assert_eq!(a.is_hostile_to(&b), b.is_hostile_to(&a));
        }
    }
}

// --- modifiers and strikes ----------------------------------------------------

#[test]
fn untyped_modifier_adds_in_full() {
    let typed = ModifierStack::new()
        .with(Modifier::new(2, ModifierType::Status, "bless"))
        .with(Modifier::new(3, ModifierType::Status, "heroism"))
        .with(Modifier::new(-1, ModifierType::Circumstance, "wind"));
    let with_untyped = ModifierStack::new()
        .with(Modifier::new(4, ModifierType::Untyped, "aid"))
        .with(Modifier::new(2, ModifierType::Status, "bless"))
        .with(Modifier::new(3, ModifierType::Status, "heroism"))
        .with(Modifier::new(-1, ModifierType::Circumstance, "wind"));
    assert_eq!(typed.resolve().total, 2);
    assert_eq!(with_untyped.resolve().total, 6);
    assert_eq!(with_untyped.resolve().applied[0].source, "aid");
}

#[test]
fn strike_check_sums_bonus_penalty_and_extras() {
    let extras = vec![Modifier::new(-2, ModifierType::Status, "frightened")];
    let r = strike_check(9, 15, -5, &extras, 10);
    assert_eq!(r.total, 12);
    assert_eq!(r.final_degree, DegreeOfSuccess::Failure);
    let r = strike_check(9, 15, 0, &[], 20);
    assert_eq!(r.total, 29);
    assert_eq!(r.final_degree, DegreeOfSuccess::CriticalSuccess);
    let r = strike_check(9, 30, 0, &[], 20);
    assert_eq!(r.base_degree, DegreeOfSuccess::Failure);
    assert_eq!(r.final_degree, DegreeOfSuccess::Success);
}

#[test]
fn damage_from_roll_adds_bonus_with_minimum_one() {
    let roll = DiceRoll { die: Die::D8, results: vec![3, 5] };
    assert_eq!(damage_from_roll(&roll, 2), 10);
    assert_eq!(damage_from_roll(&roll, -10), 1);
    assert_eq!(damage_from_roll(&roll, -7), 1);
}

#[test]
fn strike_descriptions_for_each_degree() {
    assert_eq!(
        build_strike_description("Claw", 20, 31, 18, DegreeOfSuccess::CriticalSuccess, 12, "slashing"),
        "Claw (d20=20, total=31 vs AC 18): Critical Hit! 12 slashing damage"
    );
    assert_eq!(
        build_strike_description("Claw", 12, 19, 18, DegreeOfSuccess::Success, 7, "slashing"),
        "Claw (d20=12, total=19 vs AC 18): Hit for 7 slashing damage"
    );
    assert_eq!(
        build_strike_description("Jaws", 3, -2, 15, DegreeOfSuccess::Failure, 0, "piercing"),
        "Jaws (d20=3, total=-2 vs AC 15): Miss"
    );
    assert_eq!(
        build_strike_description("Jaws", 1, 4, 15, DegreeOfSuccess::CriticalFailure, 0, "piercing"),
        "Jaws (d20=1, total=4 vs AC 15): Critical Miss"
    );
}

#[test]
fn a_miss_deals_no_damage_whatever_was_rolled() {
    let check = strike_check(9, 30, 0, &[], 5);
    assert_eq!(check.final_degree, DegreeOfSuccess::CriticalFailure);
    let r = strike_result(&longsword(), &check, 11);
    assert_eq!(r.damage_dealt, 0);
    assert_eq!(r.description, "Longsword (d20=5, total=14 vs AC 30): Critical Miss");
    let check = strike_check(9, 10, 0, &[], 5);
    let r = strike_result(&longsword(), &check, 11);
    assert_eq!(r.damage_dealt, 11);
    assert_eq!(r.degree, DegreeOfSuccess::Success);
}

#[test]
fn temporary_hit_points_absorb_first() {
    let mut hp = HitPoints::new(20);
    hp.temporary = 5;
    assert!(!apply_damage(&mut hp, 3));
    assert_eq!((hp.current, hp.temporary), (20, 2));
    assert!(!apply_damage(&mut hp, 4));
    assert_eq!((hp.current, hp.temporary), (18, 0));
    assert!(!apply_damage(&mut hp, -3));
    assert_eq!((hp.current, hp.temporary), (18, 0));
}

// --- the enemy AI -------------------------------------------------------------

#[test]
fn ai_step_is_first_closest_in_direction_order() {
    let grid = Grid2D::new(10, 10);
    let from = Position::new(2, 2);
    let target = Position::new(5, 2);
    assert_eq!(find_move_toward(from, target, &grid, &[]), Some(Position::new(3, 2)));
    let blocked = vec![Position::new(3, 2)];
    assert_eq!(find_move_toward(from, target, &grid, &blocked), Some(Position::new(3, 1)));
}

#[test]
fn ai_strikes_diagonal_neighbor_and_ends_turn_at_edge() {
    let grid = Grid2D::new(10, 10);
    let a = choose_enemy_action(Position::new(4, 4), 25, 1, Position::new(5, 5), &grid, &[]);
    assert_eq!(a, AiAction::Strike { attack_index: 0 });
    let mut walled = Grid2D::new(10, 10);
    walled.set_terrain(Position::new(1, 0), Terrain::Impassable);
    walled.set_terrain(Position::new(1, 1), Terrain::Impassable);
    walled.set_terrain(Position::new(0, 1), Terrain::Impassable);
    let a = choose_enemy_action(Position::new(0, 0), 25, 3, Position::new(5, 5), &walled, &[]);
    assert_eq!(a, AiAction::EndTurn);
}

// --- the sandbox and its turn loop ------------------------------------------------

#[test]
fn sandbox_layout() {
    let e = create_sandbox();
    assert_eq!((e.grid.width, e.grid.height), (20, 15));
    assert_eq!(e.grid.terrain_at(Position::new(4, 3)), Terrain::Impassable);
    assert_eq!(e.grid.terrain_at(Position::new(15, 4)), Terrain::Impassable);
    assert_eq!(e.grid.terrain_at(Position::new(9, 4)), Terrain::Hazardous);
    assert_eq!(e.grid.terrain_at(Position::new(11, 7)), Terrain::Difficult);
    assert_eq!(e.grid.terrain_at(Position::new(3, 12)), Terrain::Difficult);
    assert_eq!(e.grid.terrain_at(Position::new(12, 10)), Terrain::Impassable);
    assert_eq!(e.grid.terrain_at(Position::new(0, 0)), Terrain::Normal);
    assert_eq!(e.player.name, "Hero");
    assert_eq!(e.player.position, Position::new(10, 12));
    assert_eq!(e.player.attacks.len(), 2);
    assert_eq!(e.enemies.len(), 4);
    let names: Vec<&str> = e.enemies.iter().map(|c| c.name.as_str()).collect();
    assert_eq!(names, vec!["Goblin Warrior", "Skeleton Guard", "Giant Rat", "Goblin Archer"]);
    assert_eq!(e.enemies[2].speed, 30);
    assert_eq!(e.enemies[3].display_char, 'g');
    assert_eq!(e.combat_log[2], "You face: Goblin Warrior, Skeleton Guard, Giant Rat, Goblin Archer");
    assert_eq!(e.combat_log[3], "--- Round 1 begins! ---");
    assert!(!e.player_won());
    assert!(!e.player_lost());
}

#[test]
fn occupied_and_adjacent_enemies() {
    let mut e = create_sandbox();
    e.enemies[1].hp.current = 0;
    let occupied = get_occupied_positions(&e);
    assert_eq!(
        occupied,
        vec![Position::new(10, 12), Position::new(8, 2), Position::new(5, 8), Position::new(16, 8)]
    );
    e.enemies[0].position = Position::new(9, 11);
    e.enemies[2].position = Position::new(11, 12);
    let adjacent = find_adjacent_enemies(e.player.position, &e.enemies, &e.grid);
    assert_eq!(adjacent, vec![(0, "Goblin Warrior".to_string()), (2, "Giant Rat".to_string())]);
}

#[test]
fn player_moves_and_is_refused() {
    let mut e = create_sandbox();
    handle_player_move(&mut e, Direction::North);
    assert_eq!(e.player.position, Position::new(10, 11));
    assert_eq!(e.player.actions.remaining(), 2);
    assert_eq!(e.combat_log.last().unwrap(), "You move from (10,12) to (10,11).");

    e.player.position = Position::new(5, 11);
    handle_player_move(&mut e, Direction::West);
    assert_eq!(e.combat_log.last().unwrap(), "You move from (5,11) to (4,11) (difficult terrain).");

    e.player.position = Position::new(7, 11);
    handle_player_move(&mut e, Direction::North);
    assert_eq!(e.player.position, Position::new(7, 11));
    assert_eq!(e.combat_log.last().unwrap(), "You can't move there — the way is blocked!");

    e.player.position = Position::new(0, 14);
    handle_player_move(&mut e, Direction::South);
    assert_eq!(e.combat_log.last().unwrap(), "You can't move there — it's out of bounds!");

    e.player.position = Position::new(5, 9);
    handle_player_move(&mut e, Direction::North);
    assert_eq!(e.player.position, Position::new(5, 9));
    assert_eq!(e.combat_log.last().unwrap(), "You can't move there — the space is occupied!");

    e.player.position = Position::new(8, 4);
    handle_player_move(&mut e, Direction::East);
    assert_eq!(e.combat_log.last().unwrap(), "You move from (8,4) to (9,4) (hazardous!).");
}

#[test]
fn player_attack_refusals() {
    let mut e = create_sandbox();
    let mut r = rng(3);
    handle_player_attack(&mut e, 9, &mut r);
    assert_eq!(e.combat_log.last().unwrap(), "Invalid target!");
    handle_player_attack(&mut e, 0, &mut r);
    assert_eq!(e.combat_log.last().unwrap(), "That enemy is not adjacent to you!");
    e.enemies[0].hp.current = 0;
    handle_player_attack(&mut e, 0, &mut r);
    assert_eq!(e.combat_log.last().unwrap(), "That enemy is already dead!");
    assert_eq!(e.player.actions.remaining(), 3);
}

#[test]
fn player_attack_reports_and_spends_an_action() {
    let mut e = create_sandbox();
    e.enemies[0].position = Position::new(11, 11);
    let before = e.combat_log.len();
    let mut r = rng(11);
    handle_player_attack(&mut e, 0, &mut r);
    assert_eq!(e.player.actions.remaining(), 2);
    assert_eq!(e.player.actions.map.attacks_made, 1);
    let line = &e.combat_log[before];
    assert!(line.starts_with("You attack Goblin Warrior with Longsword — Longsword (d20="), "{}", line);
    let (d20, total) = roll_and_total(line);
    assert_eq!(total, d20 + 9);
    assert!(e.enemies[0].hp.current <= 6);
}

#[test]
fn agile_strike_uses_the_lighter_penalty() {
    let mut e = create_sandbox();
    e.enemies[0].actions.actions_spent = 1;
    e.enemies[0].actions.map.attacks_made = 1;
    let before = e.combat_log.len();
    let mut r = rng(5);
    enemy_strike(&mut e, 0, 0, &mut r);
    let line = &e.combat_log[before];
    assert!(line.starts_with("Goblin Warrior attacks you with Dogslicer — Dogslicer (d20="), "{}", line);
    let (d20, total) = roll_and_total(line);
    // Dogslicer is agile: +8 with a -4 second-attack penalty.
    assert_eq!(total, d20 + 8 - 4);
    assert_eq!(e.enemies[0].actions.map.attacks_made, 2);
}

#[test]
fn turn_bookkeeping() {
    let mut e = create_sandbox();
    end_player_turn(&mut e);
    assert!(!e.is_player_turn);
    assert_eq!(e.combat_log.last().unwrap(), "You end your turn.");
    e.player.actions.actions_spent = 3;
    e.player.actions.reaction_used = true;
    start_new_round(&mut e);
    assert_eq!(e.round, 2);
    assert!(e.is_player_turn);
    assert_eq!(e.player.actions.remaining(), 3);
    assert!(!e.player.actions.reaction_used);
    assert_eq!(e.combat_log.last().unwrap(), "--- Round 2 begins! ---");
    pass_player_turn(&mut e);
    assert!(!e.is_player_turn);
}

#[test]
fn enemies_close_in_and_never_move_the_player() {
    let mut e = create_sandbox();
    let mut r = rng(21);
    let before: Vec<u32> = e.enemies.iter().map(|c| c.position.chebyshev(&e.player.position)).collect();
    let log_before = e.combat_log.clone();
    enemy_turns(&mut e, &mut r);
    assert_eq!(e.player.position, Position::new(10, 12));
    assert_eq!(e.round, 1);
    assert!(e.combat_log.len() > log_before.len());
    assert_eq!(&e.combat_log[..log_before.len()], &log_before[..]);
    assert_eq!(e.combat_log[log_before.len()], "Goblin Warrior's turn.");
    for (i, c) in e.enemies.iter().enumerate() {
        assert!(c.position.chebyshev(&e.player.position) < before[i]);
        assert!(e.grid.in_bounds(c.position));
        assert_ne!(e.grid.terrain_at(c.position), Terrain::Impassable);
    }
    assert!(e.player.hp.current <= 25);
}

#[test]
fn enemy_act_takes_the_ai_step() {
    let mut e = create_sandbox();
    let mut r = rng(2);
    assert_eq!(enemy_act(&mut e, 0, &mut r), EnemyStep::Acted);
    assert_eq!(e.enemies[0].position, Position::new(8, 3));
    assert_eq!(e.enemies[0].actions.remaining(), 2);
    assert_eq!(e.combat_log.last().unwrap(), "Goblin Warrior moves to (8,3).");
    e.enemies[2].position = Position::new(9, 11);
    let log_len = e.combat_log.len();
    let step = enemy_act(&mut e, 2, &mut r);
    assert_ne!(step, EnemyStep::Stopped);
    assert!(e.combat_log[log_len].starts_with("Giant Rat attacks you with Jaws — Jaws (d20="));
    assert_eq!(e.enemies[2].actions.map.attacks_made, 1);
}

#[test]
fn dead_enemies_do_not_act() {
    let mut e = create_sandbox();
    for c in e.enemies.iter_mut() {
        c.hp.current = 0;
    }
    let log_len = e.combat_log.len();
    let mut r = rng(1);
    enemy_turns(&mut e, &mut r);
    assert_eq!(e.combat_log.len(), log_len);
    assert!(e.player_won());
    assert_eq!(e.enemies[0].position, Position::new(8, 2));
}

// --- the terminal -------------------------------------------------------------

#[test]
fn menu_and_direction_answers() {
    assert_eq!(parse_menu_choice("M"), Some(MenuChoice::Move));
    assert_eq!(parse_menu_choice("attack"), Some(MenuChoice::Attack));
    assert_eq!(parse_menu_choice("e"), Some(MenuChoice::EndTurn));
    assert_eq!(parse_menu_choice("Quit"), Some(MenuChoice::Quit));
    assert_eq!(parse_menu_choice("x"), Some(MenuChoice::Invalid));
    assert_eq!(parse_menu_choice(""), None);
    assert_eq!(parse_direction("NE"), Some(DirectionInput::Chosen(Direction::NorthEast)));
    assert_eq!(parse_direction("southWest"), Some(DirectionInput::Chosen(Direction::SouthWest)));
    assert_eq!(parse_direction("w"), Some(DirectionInput::Chosen(Direction::West)));
    assert_eq!(parse_direction("Cancel"), Some(DirectionInput::Cancelled));
    assert_eq!(parse_direction("up"), Some(DirectionInput::Invalid));
    assert_eq!(parse_direction(""), None);
}

#[test]
fn target_answers() {
    let list = vec![(2usize, "Giant Rat".to_string()), (0usize, "Goblin Warrior".to_string())];
    assert_eq!(parse_target("2", &list), Some(TargetInput::Chosen(0)));
    assert_eq!(parse_target("+1", &list), Some(TargetInput::Chosen(2)));
    assert_eq!(parse_target("3", &list), Some(TargetInput::OutOfRange));
    assert_eq!(parse_target("0", &list), Some(TargetInput::Cancelled));
    assert_eq!(parse_target("BACK", &list), Some(TargetInput::Cancelled));
    assert_eq!(parse_target("two", &list), Some(TargetInput::Invalid));
    assert_eq!(parse_target("-1", &list), Some(TargetInput::Invalid));
    assert_eq!(parse_target("", &list), None);
    assert_eq!(only_target(&list), None);
    assert_eq!(only_target(&list[..1]), Some(2));
}

#[test]
fn screen_pieces() {
    let mut grid = Grid2D::new(50, 10);
    grid.set_terrain(Position::new(1, 1), Terrain::Hazardous);
    let creatures = vec![
        CreatureDisplay { position: Position::new(2, 2), display_char: 'x', name: "Dead".into(), is_alive: false },
        CreatureDisplay { position: Position::new(2, 2), display_char: 'G', name: "Goblin".into(), is_alive: true },
    ];
    assert_eq!(cell_char(&grid, &creatures, Position::new(2, 2)), 'G');
    assert_eq!(cell_char(&grid, &creatures, Position::new(1, 1)), '!');
    assert_eq!(cell_char(&grid, &creatures, Position::new(0, 0)), '.');
    assert_eq!(viewport(&grid), (40, 10));
    assert_eq!(enemy_status(3, 6, true), "HP: 3/6");
    assert_eq!(enemy_status(-2, 6, false), "DEAD");
    assert_eq!(turn_label(true), "Your Turn");
    assert_eq!(turn_label(false), "Enemy Turn");
    assert_eq!(log_window_start(12, 8), 4);
    assert_eq!(log_window_start(5, 8), 0);
    let _ = ActionPool::new_turn();
}

#[test]
fn each_living_enemy_takes_its_turn_in_order() {
    let mut e = create_sandbox();
    e.enemies[1].hp.current = 0;
    let living: Vec<String> = e
        .enemies
        .iter()
        .filter(|c| c.hp.current > 0)
        .map(|c| format!("{}'s turn.", c.name))
        .collect();
    let log_len = e.combat_log.len();
    let mut r = rng(5);
    enemy_turns(&mut e, &mut r);
    let turns: Vec<String> = e.combat_log[log_len..]
        .iter()
        .filter(|l| l.ends_with("'s turn."))
        .cloned()
        .collect();
    assert_eq!(turns, living);
    assert!(e.player.hp.current > 0);
    for c in e.enemies.iter().filter(|c| c.hp.current > 0) {
        assert!(c.actions.actions_spent <= 3);
    }
}

#[test]
fn path_starting_on_impassable_has_no_cost() {
    let mut grid = Grid2D::new(10, 10);
    grid.set_terrain(Position::new(0, 0), Terrain::Impassable);
    let path = vec![Position::new(0, 0), Position::new(1, 0)];
    assert_eq!(grid.path_cost_in_feet(&path), None);
    assert_eq!(grid.path_cost_in_feet(&[Position::new(0, 0)]), None);
    assert_eq!(grid.path_cost_in_feet(&[Position::new(1, 0)]), Some(0));
    assert_eq!(grid.path_cost_in_feet(&[]), Some(0));
}

fn stack(mods: &[(i32, ModifierType, &str)]) -> ModifierStack {
    let mut s = ModifierStack::new();
    for (v, t, src) in mods {
        s.add(Modifier::new(*v, *t, src));
    }
    s
}

#[test]
fn total_is_untyped_sum_plus_extremes_of_each_type() {
    let mods = [
        (3, ModifierType::Status, "heroism"),
        (1, ModifierType::Untyped, "a"),
        (-1, ModifierType::Status, "sickened"),
        (2, ModifierType::Untyped, "b"),
        (1, ModifierType::Status, "bless"),
        (-3, ModifierType::Status, "frightened"),
        (2, ModifierType::Item, "rune"),
        (-2, ModifierType::Circumstance, "flanked"),
    ];
    // untyped 1 + 2, Status +3 and -3, Item +2, Circumstance -2
    assert_eq!(stack(&mods).resolve().total, 3);
    let mut reversed = mods;
    reversed.reverse();
    assert_eq!(stack(&reversed).resolve().total, 3);
}

#[test]
fn resolving_keeps_every_modifier_that_takes_part_once() {
    let mods = [
        (2, ModifierType::Status, "s1"),
        (0, ModifierType::Item, "zero"),
        (3, ModifierType::Status, "s2"),
        (0, ModifierType::Untyped, "u0"),
        (-1, ModifierType::Circumstance, "c1"),
        (-2, ModifierType::Circumstance, "c2"),
    ];
    let r = stack(&mods).resolve();
    let mut seen: Vec<String> = r.applied.iter().chain(r.suppressed.iter()).map(|m| m.source.clone()).collect();
    seen.sort();
    assert_eq!(seen, vec!["c1", "c2", "s1", "s2", "u0"]);
    assert!(r.suppressed.iter().all(|m| m.modifier_type != ModifierType::Untyped));
    assert_eq!(r.total, 3 + 0 - 2);
}

#[test]
fn adding_an_untyped_modifier_adds_its_value() {
    let mut s = stack(&[(2, ModifierType::Status, "s1"), (1, ModifierType::Status, "s2")]);
    let before = s.resolve();
    s.add(Modifier::new(-4, ModifierType::Untyped, "u"));
    let after = s.resolve();
    assert_eq!(after.total, before.total - 4);
    assert_eq!(after.applied.len(), before.applied.len() + 1);
    assert_eq!(after.suppressed, before.suppressed);
    s.add(Modifier::new(0, ModifierType::Item, "nothing"));
    let last = s.resolve();
    assert_eq!(last.applied.len() + last.suppressed.len(), after.applied.len() + after.suppressed.len());
}

#[test]
fn one_bonus_and_one_penalty_apply_per_type() {
    let mods = [
        (1, ModifierType::Status, "s+1"),
        (3, ModifierType::Status, "s+3"),
        (-1, ModifierType::Status, "s-1"),
        (-3, ModifierType::Status, "s-3"),
        (2, ModifierType::Status, "s+2"),
        (1, ModifierType::Item, "i+1"),
    ];
    let r = stack(&mods).resolve();
    let status: Vec<&Modifier> = r.applied.iter().filter(|m| m.modifier_type == ModifierType::Status).collect();
    assert_eq!(status.len(), 2);
    assert_eq!(status.iter().filter(|m| m.value > 0).map(|m| m.value).collect::<Vec<_>>(), vec![3]);
    assert_eq!(status.iter().filter(|m| m.value < 0).map(|m| m.value).collect::<Vec<_>>(), vec![-3]);
    assert!(r.suppressed.iter().all(|m| m.value.abs() <= 3));
    assert_eq!(r.suppressed.len(), 3);
    assert_eq!(r.total, r.applied.iter().map(|m| m.value).sum::<i32>());
    assert_eq!(r.total, 1);
}

#[test]
fn the_loop_steps_follow_the_state() {
    let mut e = create_sandbox();
    assert_eq!(next_game_step(&e), GameStep::PlayerChooses);
    e.player.actions.actions_spent = 3;
    assert_eq!(next_game_step(&e), GameStep::PlayerOutOfActions);
    pass_player_turn(&mut e);
    assert_eq!(next_game_step(&e), GameStep::EnemyPhase);
    e.player.hp.current = 0;
    assert_eq!(next_game_step(&e), GameStep::Defeat);
    for c in e.enemies.iter_mut() {
        c.hp.current = 0;
    }
    assert_eq!(next_game_step(&e), GameStep::Victory);
}
