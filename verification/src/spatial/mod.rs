//! # Spatial Layer (Layer 1)
//!
//! The topology of the space entities exist in: positions, terrain, the
//! 2D grid and the movement rules. Swapping spatial implementations goes
//! through the `Topology` trait and doesn't touch any other layer.

pub mod grid2d;
pub mod movement;
pub mod position;
pub mod terrain;
pub mod topology;

pub use grid2d::Grid2D;
pub use movement::{MovementRules, MovementType};
pub use position::{Direction, Position};
pub use terrain::{Terrain, TerrainEffect};
pub use topology::Topology;

use vstd::prelude::*;

use position::steps_fit;
use terrain::terrain_multiplier;
use topology::path_cost;

verus! {

/// An entity's position in the spatial field.
#[derive(Debug, Clone, Copy, PartialEq, Eq, Hash, Structural)]
pub struct GridPosition(pub Position);

/// How the spatial layer resolves a request to move from one position to
/// another.
#[derive(Debug, Clone, PartialEq, Eq)]
pub struct MoveOutcome {
    pub cost_in_feet: u32,
    pub blocked: bool,
    pub reason: Option<String>,
}

/// A blocked outcome at no cost, for the given reason.
pub open spec fn blocked_with(r: MoveOutcome, msg: Seq<char>) -> bool {
    &&& r.blocked
    &&& r.cost_in_feet == 0
    &&& match r.reason {
        Some(m) => m@ == msg,
        None => false,
    }
}

/// Resolve a movement request against the current topology: without a grid,
/// to a destination off the grid, or when the start or the destination is
/// impassable, the move is blocked at no cost; otherwise it costs the path's
/// cost in feet.
pub fn resolve_move(grid: Option<&Grid2D>, from: Position, to: Position) -> (r: MoveOutcome)
    requires
        grid matches Some(g) ==> g.well_formed(),
        grid matches Some(g) ==> (g.spec_in_bounds(to) && terrain_multiplier((g.terrain_view())(to))
            is Some ==> steps_fit(to, from)),
    ensures
        match grid {
            None => blocked_with(r, "No spatial topology loaded"@),
            Some(g) => if !g.spec_in_bounds(to) {
                blocked_with(r, "Destination out of bounds"@)
            } else {
                match path_cost(g.terrain_view(), seq![from, to]) {
                    None => blocked_with(r, "Impassable terrain"@),
                    Some(c) => !r.blocked && r.cost_in_feet == c && r.reason is None,
                }
            },
        },
{
    match grid {
        None => MoveOutcome {
            cost_in_feet: 0,
            blocked: true,
            reason: Some(String::from_str("No spatial topology loaded")),
        },
        Some(g) => {
            if !g.in_bounds(to) {
                return MoveOutcome {
                    cost_in_feet: 0,
                    blocked: true,
                    reason: Some(String::from_str("Destination out of bounds")),
                };
            }
            let path = [from, to];
            proof {
                let p = path@;
                assert(p =~= seq![from, to]);
                assert(p.take(1) =~= seq![from]);
                assert(p.take(2) =~= p);
                assert(p.take(0) =~= Seq::<Position>::empty());
                reveal_with_fuel(topology::walk, 3);
            }
            match g.path_cost_in_feet(&path) {
                None => MoveOutcome {
                    cost_in_feet: 0,
                    blocked: true,
                    reason: Some(String::from_str("Impassable terrain")),
                },
                Some(cost) => MoveOutcome { cost_in_feet: cost, blocked: false, reason: None },
            }
        },
    }
}

} // verus!
