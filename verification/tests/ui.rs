//! The terminal display and input helpers.

use pathfinder_mechanics::spatial::position::{Direction, Position};
use pathfinder_mechanics::spatial::terrain::Terrain;
use pathfinder_mechanics::ui::display::{creature_at, digit_count, terrain_char, CreatureDisplay};
use pathfinder_mechanics::ui::input::PlayerAction;

#[test]
fn terrain_char_mapping() {
    assert_eq!(terrain_char(Terrain::Normal), '.');
    assert_eq!(terrain_char(Terrain::Difficult), '~');
    assert_eq!(terrain_char(Terrain::GreaterDifficult), '~');
    assert_eq!(terrain_char(Terrain::Impassable), '#');
    assert_eq!(terrain_char(Terrain::Hazardous), '!');
}

#[test]
fn digit_count_values() {
    assert_eq!(digit_count(0), 1);
    assert_eq!(digit_count(1), 1);
    assert_eq!(digit_count(9), 1);
    assert_eq!(digit_count(10), 2);
    assert_eq!(digit_count(99), 2);
    assert_eq!(digit_count(100), 3);
}

#[test]
fn creature_at_finds_alive() {
    let creatures = vec![
        CreatureDisplay {
            position: Position::new(3, 4),
            display_char: '@',
            name: "Player".into(),
            is_alive: true,
        },
        CreatureDisplay {
            position: Position::new(5, 5),
            display_char: 'G',
            name: "Goblin".into(),
            is_alive: false,
        },
    ];
    assert_eq!(creature_at(&creatures, Position::new(3, 4)), Some('@'));
    // Dead creature should not be returned.
    assert_eq!(creature_at(&creatures, Position::new(5, 5)), None);
    // Empty cell.
    assert_eq!(creature_at(&creatures, Position::new(0, 0)), None);
}

#[test]
fn player_action_debug_display() {
    // Verify the Debug derive works for all variants.
    let actions: Vec<PlayerAction> = vec![
        PlayerAction::Move(Direction::North),
        PlayerAction::Attack(0),
        PlayerAction::EndTurn,
        PlayerAction::Quit,
    ];
    for action in &actions {
        let debug_str = format!("{:?}", action);
        assert!(!debug_str.is_empty());
    }
}

#[test]
fn player_action_clone() {
    let original = PlayerAction::Move(Direction::SouthWest);
    let cloned = original.clone();
    // Both should produce the same debug output.
    assert_eq!(format!("{:?}", original), format!("{:?}", cloned));
}
