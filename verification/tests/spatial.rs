//! Positions, the grid and movement rules.

use pathfinder_mechanics::action::ActionCost;
use pathfinder_mechanics::condition::types::ConditionEffect;
use pathfinder_mechanics::spatial::grid2d::Grid2D;
use pathfinder_mechanics::spatial::movement::{MovementRequest, MovementRules, MovementType, MovementValidation};
use pathfinder_mechanics::spatial::position::Position;
use pathfinder_mechanics::spatial::terrain::Terrain;
use pathfinder_mechanics::spatial::topology::Topology;

#[test]
fn chebyshev_distance() {
    let a = Position::new(0, 0);
    let b = Position::new(3, 4);
    assert_eq!(a.chebyshev(&b), 4);
}

#[test]
fn diagonal_and_cardinal_steps() {
    let a = Position::new(0, 0);
    let b = Position::new(3, 5);
    assert_eq!(a.diagonal_steps(&b), 3);
    assert_eq!(a.cardinal_steps(&b), 2);
}

#[test]
fn grid_bounds() {
    let grid = Grid2D::new(10, 10);
    assert!(grid.in_bounds(Position::new(0, 0)));
    assert!(grid.in_bounds(Position::new(9, 9)));
    assert!(!grid.in_bounds(Position::new(10, 0)));
    assert!(!grid.in_bounds(Position::new(-1, 0)));
}

#[test]
fn default_terrain_is_normal() {
    let grid = Grid2D::new(10, 10);
    assert_eq!(grid.terrain_at(Position::new(5, 5)), Terrain::Normal);
}

#[test]
fn set_and_get_terrain() {
    let mut grid = Grid2D::new(10, 10);
    grid.set_terrain(Position::new(3, 3), Terrain::Difficult);
    assert_eq!(grid.terrain_at(Position::new(3, 3)), Terrain::Difficult);
}

#[test]
fn cardinal_distance() {
    let grid = Grid2D::new(20, 20);
    let a = Position::new(0, 0);
    let b = Position::new(4, 0);
    assert_eq!(grid.distance_in_feet(a, b), 20); // 4 squares * 5 feet
}

#[test]
fn diagonal_distance_alternating() {
    let grid = Grid2D::new(20, 20);
    let a = Position::new(0, 0);
    let b = Position::new(4, 4);
    // 4 diagonal steps: 5 + 10 + 5 + 10 = 30
    // Formula: (4 + 4/2) * 5 = (4 + 2) * 5 = 30
    assert_eq!(grid.distance_in_feet(a, b), 30);
}

#[test]
fn neighbors_corner() {
    let grid = Grid2D::new(10, 10);
    let neighbors = grid.neighbors(Position::new(0, 0));
    assert_eq!(neighbors.len(), 3); // East, South, SouthEast
}

#[test]
fn neighbors_center() {
    let grid = Grid2D::new(10, 10);
    let neighbors = grid.neighbors(Position::new(5, 5));
    assert_eq!(neighbors.len(), 8);
}

#[test]
fn path_cost_mixed_terrain() {
    let mut grid = Grid2D::new(10, 10);
    // Path: (0,0) -> (1,0) -> (2,0) -> (3,0)
    // (1,0) normal, (2,0) difficult, (3,0) normal
    grid.set_terrain(Position::new(2, 0), Terrain::Difficult);
    let path = vec![
        Position::new(0, 0),
        Position::new(1, 0),
        Position::new(2, 0),
        Position::new(3, 0),
    ];
    // Step 1: normal terrain, cardinal = 5 * 1 = 5
    // Step 2: difficult terrain, cardinal = 5 * 2 = 10
    // Step 3: normal terrain, cardinal = 5 * 1 = 5
    assert_eq!(grid.path_cost_in_feet(&path), Some(20));
}

#[test]
fn path_cost_blocked_by_impassable() {
    let mut grid = Grid2D::new(10, 10);
    grid.set_terrain(Position::new(2, 0), Terrain::Impassable);
    let path = vec![
        Position::new(0, 0),
        Position::new(1, 0),
        Position::new(2, 0),
        Position::new(3, 0),
    ];
    assert_eq!(grid.path_cost_in_feet(&path), None);
}

#[test]
fn path_cost_diagonal_alternation() {
    let grid = Grid2D::new(10, 10);
    // 4 diagonal steps: costs should alternate 5, 10, 5, 10
    let path = vec![
        Position::new(0, 0),
        Position::new(1, 1),
        Position::new(2, 2),
        Position::new(3, 3),
        Position::new(4, 4),
    ];
    // Step 1: diagonal #1 (odd) = 5
    // Step 2: diagonal #2 (even) = 10
    // Step 3: diagonal #3 (odd) = 5
    // Step 4: diagonal #4 (even) = 10
    // Total = 30
    assert_eq!(grid.path_cost_in_feet(&path), Some(30));
}

/// Helper: build a minimal entity id for test requests.
fn test_entity() -> u64 {
    // Any entity will do; requests carry its bits.
    bevy::ecs::entity::Entity::from_bits(42).to_bits()
}

// ------------------------------------------------------------------
// Stride with full speed
// ------------------------------------------------------------------

#[test]
fn stride_full_speed_valid() {
    let request = MovementRequest {
        entity: test_entity(),
        movement_type: MovementType::Stride,
        path: vec![
            Position::new(0, 0),
            Position::new(1, 0),
            Position::new(2, 0),
            Position::new(3, 0),
            Position::new(4, 0),
            Position::new(5, 0),
        ],
        speed_in_feet: 25,
    };
    // 5 steps * 5 ft each = 25 ft terrain cost
    let terrain_cost = 25;
    let result = MovementRules::validate_movement(&request, terrain_cost, &[]);
    assert_eq!(
        result,
        MovementValidation::Valid {
            cost_in_feet: 25,
            provokes: true,
        }
    );
}

#[test]
fn stride_exceeding_speed_blocked() {
    let request = MovementRequest {
        entity: test_entity(),
        movement_type: MovementType::Stride,
        path: vec![
            Position::new(0, 0),
            Position::new(1, 0),
            Position::new(2, 0),
            Position::new(3, 0),
            Position::new(4, 0),
            Position::new(5, 0),
            Position::new(6, 0),
        ],
        speed_in_feet: 25,
    };
    // 6 steps * 5 ft = 30 ft, but speed is only 25
    let terrain_cost = 30;
    let result = MovementRules::validate_movement(&request, terrain_cost, &[]);
    assert!(matches!(result, MovementValidation::Blocked { .. }));
}

// ------------------------------------------------------------------
// Step limited to 5 feet
// ------------------------------------------------------------------

#[test]
fn step_exactly_five_feet_valid() {
    let request = MovementRequest {
        entity: test_entity(),
        movement_type: MovementType::Step,
        path: vec![Position::new(0, 0), Position::new(1, 0)],
        speed_in_feet: 25,
    };
    let terrain_cost = 5;
    let result = MovementRules::validate_movement(&request, terrain_cost, &[]);
    assert_eq!(
        result,
        MovementValidation::Valid {
            cost_in_feet: 5,
            provokes: false,
        }
    );
}

#[test]
fn step_more_than_five_feet_blocked() {
    let request = MovementRequest {
        entity: test_entity(),
        movement_type: MovementType::Step,
        path: vec![
            Position::new(0, 0),
            Position::new(1, 0),
            Position::new(2, 0),
        ],
        speed_in_feet: 25,
    };
    // 10 feet of terrain cost — Step requires exactly 5
    let terrain_cost = 10;
    let result = MovementRules::validate_movement(&request, terrain_cost, &[]);
    assert!(matches!(result, MovementValidation::Blocked { .. }));
}

// ------------------------------------------------------------------
// PreventMovement blocks all movement
// ------------------------------------------------------------------

#[test]
fn prevent_movement_blocks_stride() {
    let request = MovementRequest {
        entity: test_entity(),
        movement_type: MovementType::Stride,
        path: vec![Position::new(0, 0), Position::new(1, 0)],
        speed_in_feet: 25,
    };
    let conditions = vec![ConditionEffect::PreventMovement];
    let result = MovementRules::validate_movement(&request, 5, &conditions);
    assert!(matches!(result, MovementValidation::Blocked { .. }));
}

#[test]
fn prevent_movement_blocks_step() {
    let request = MovementRequest {
        entity: test_entity(),
        movement_type: MovementType::Step,
        path: vec![Position::new(0, 0), Position::new(1, 0)],
        speed_in_feet: 25,
    };
    let conditions = vec![ConditionEffect::PreventMovement];
    let result = MovementRules::validate_movement(&request, 5, &conditions);
    assert!(matches!(result, MovementValidation::Blocked { .. }));
}

// ------------------------------------------------------------------
// ReduceSpeed reduces effective speed
// ------------------------------------------------------------------

#[test]
fn reduce_speed_lowers_effective_speed() {
    assert_eq!(
        MovementRules::effective_speed(25, &[ConditionEffect::ReduceSpeed(10)]),
        15
    );
}

#[test]
fn reduce_speed_stacks() {
    let conditions = vec![
        ConditionEffect::ReduceSpeed(5),
        ConditionEffect::ReduceSpeed(10),
    ];
    assert_eq!(MovementRules::effective_speed(30, &conditions), 15);
}

#[test]
fn reduce_speed_cannot_go_below_zero() {
    assert_eq!(
        MovementRules::effective_speed(10, &[ConditionEffect::ReduceSpeed(20)]),
        0
    );
}

#[test]
fn reduce_speed_blocks_stride_that_was_valid() {
    let request = MovementRequest {
        entity: test_entity(),
        movement_type: MovementType::Stride,
        path: vec![
            Position::new(0, 0),
            Position::new(1, 0),
            Position::new(2, 0),
            Position::new(3, 0),
            Position::new(4, 0),
        ],
        speed_in_feet: 25,
    };
    // 4 steps * 5 ft = 20 ft of terrain
    let terrain_cost = 20;
    // Reduce speed by 10 -> effective speed = 15, which < 20
    let conditions = vec![ConditionEffect::ReduceSpeed(10)];
    let result = MovementRules::validate_movement(&request, terrain_cost, &conditions);
    assert!(matches!(result, MovementValidation::Blocked { .. }));
}

// ------------------------------------------------------------------
// Difficult terrain doubles cost
// ------------------------------------------------------------------

#[test]
fn difficult_terrain_doubles_cost_blocks_if_over_speed() {
    let request = MovementRequest {
        entity: test_entity(),
        movement_type: MovementType::Stride,
        path: vec![
            Position::new(0, 0),
            Position::new(1, 0),
            Position::new(2, 0),
            Position::new(3, 0),
        ],
        speed_in_feet: 25,
    };
    // 3 steps through difficult terrain: 3 * 5 * 2 = 30 ft terrain cost
    // (terrain_cost is already computed by Topology::path_cost_in_feet)
    let terrain_cost = 30;
    let result = MovementRules::validate_movement(&request, terrain_cost, &[]);
    assert!(matches!(result, MovementValidation::Blocked { .. }));
}

#[test]
fn difficult_terrain_within_speed_valid() {
    let request = MovementRequest {
        entity: test_entity(),
        movement_type: MovementType::Stride,
        path: vec![
            Position::new(0, 0),
            Position::new(1, 0),
            Position::new(2, 0),
        ],
        speed_in_feet: 25,
    };
    // 2 steps through difficult terrain: 2 * 5 * 2 = 20 ft
    let terrain_cost = 20;
    let result = MovementRules::validate_movement(&request, terrain_cost, &[]);
    assert_eq!(
        result,
        MovementValidation::Valid {
            cost_in_feet: 20,
            provokes: true,
        }
    );
}

// ------------------------------------------------------------------
// Movement type action costs
// ------------------------------------------------------------------

#[test]
fn all_movement_types_cost_one_action() {
    let types = [
        MovementType::Stride,
        MovementType::Step,
        MovementType::Crawl,
        MovementType::Climb,
        MovementType::Swim,
        MovementType::Fly,
        MovementType::Burrow,
    ];
    for mt in &types {
        assert_eq!(
            MovementRules::action_cost(mt),
            ActionCost::Actions(1),
            "{:?} should cost 1 action",
            mt
        );
    }
}

// ------------------------------------------------------------------
// Provokes reactions check
// ------------------------------------------------------------------

#[test]
fn stride_provokes_reactions() {
    assert!(MovementRules::provokes_reactions(&MovementType::Stride));
}

#[test]
fn step_does_not_provoke_reactions() {
    assert!(!MovementRules::provokes_reactions(&MovementType::Step));
}

#[test]
fn crawl_does_not_provoke_reactions() {
    assert!(!MovementRules::provokes_reactions(&MovementType::Crawl));
}

#[test]
fn climb_provokes_reactions() {
    assert!(MovementRules::provokes_reactions(&MovementType::Climb));
}

#[test]
fn swim_provokes_reactions() {
    assert!(MovementRules::provokes_reactions(&MovementType::Swim));
}

#[test]
fn fly_provokes_reactions() {
    assert!(MovementRules::provokes_reactions(&MovementType::Fly));
}

#[test]
fn burrow_provokes_reactions() {
    assert!(MovementRules::provokes_reactions(&MovementType::Burrow));
}

// ------------------------------------------------------------------
// Max distance for each movement type
// ------------------------------------------------------------------

#[test]
fn max_distance_stride_equals_speed() {
    assert_eq!(MovementRules::max_distance(&MovementType::Stride, 30), 30);
}

#[test]
fn max_distance_step_always_five() {
    assert_eq!(MovementRules::max_distance(&MovementType::Step, 30), 5);
    assert_eq!(MovementRules::max_distance(&MovementType::Step, 100), 5);
}

#[test]
fn max_distance_crawl_always_five() {
    assert_eq!(MovementRules::max_distance(&MovementType::Crawl, 30), 5);
}

#[test]
fn max_distance_climb_quarter_speed() {
    // 30 / 4 = 7 (integer division), which is > 5 so no clamping
    assert_eq!(MovementRules::max_distance(&MovementType::Climb, 30), 7);
}

#[test]
fn max_distance_climb_minimum_five() {
    // 16 / 4 = 4, but minimum is 5
    assert_eq!(MovementRules::max_distance(&MovementType::Climb, 16), 5);
}

#[test]
fn max_distance_swim_quarter_speed() {
    assert_eq!(MovementRules::max_distance(&MovementType::Swim, 40), 10);
}

#[test]
fn max_distance_fly_equals_speed() {
    assert_eq!(MovementRules::max_distance(&MovementType::Fly, 60), 60);
}

#[test]
fn max_distance_burrow_equals_speed() {
    assert_eq!(MovementRules::max_distance(&MovementType::Burrow, 20), 20);
}
