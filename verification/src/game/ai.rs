//! Enemy AI: a small priority system.
//!
//! 1. With no actions left, end the turn.
//! 2. Next to the player, Strike.
//! 3. Otherwise step toward the player.
//! 4. If no step gets closer, end the turn.

use vstd::prelude::*;

use crate::spatial::grid2d::{in_grid, lemma_grid_steps_members, step_from, Grid2D};
use crate::spatial::position::{
    all_directions, dx_abs, dy_abs, max_int, steps_fit, Direction, Position,
};
use crate::spatial::terrain::Terrain;
use crate::spatial::topology::Topology;

verus! {

/// An action chosen by the AI for an enemy creature's turn.
#[derive(Debug, Clone, Copy, PartialEq, Eq, Structural)]
pub enum AiAction {
    /// Move to an adjacent position (one step on the grid).
    MoveTo(Position),
    /// Attack with the strike at the given index in the creature's attack list.
    Strike {
        /// Index into the creature's list of strikes.
        attack_index: usize,
    },
    /// End the turn because no useful action is available.
    EndTurn,
}

/// Chebyshev distance (king moves) between two positions.
pub open spec fn cheb(a: Position, b: Position) -> int {
    max_int(dx_abs(a, b), dy_abs(a, b))
}

/// The square one step from `from` in the `i`-th direction of the fixed
/// direction order.
pub open spec fn candidate(from: Position, i: int) -> Position {
    step_from(from, all_directions()[i])
}

/// `c` is a square the AI may step to: on the grid, free, passable and
/// strictly closer to `target` than `from` is.
pub open spec fn is_closer_step(
    g: Grid2D,
    occupied: Seq<Position>,
    from: Position,
    target: Position,
    c: Position,
) -> bool {
    &&& in_grid(g.width as int, g.height as int, c)
    &&& !occupied.contains(c)
    &&& (g.terrain_view())(c) != Terrain::Impassable
    &&& cheb(c, target) < cheb(from, target)
}

/// The `i`-th direction gives the step the AI takes: a closer step at the
/// smallest distance to `target`, and the first such in direction order.
pub open spec fn is_best_step(
    g: Grid2D,
    occupied: Seq<Position>,
    from: Position,
    target: Position,
    i: int,
) -> bool {
    &&& 0 <= i < 8
    &&& is_closer_step(g, occupied, from, target, candidate(from, i))
    &&& forall|j: int|
        0 <= j < 8 && is_closer_step(g, occupied, from, target, #[trigger] candidate(from, j))
            ==> cheb(candidate(from, i), target) <= cheb(candidate(from, j), target)
    &&& forall|j: int|
        0 <= j < i && is_closer_step(g, occupied, from, target, #[trigger] candidate(from, j))
            ==> cheb(candidate(from, i), target) < cheb(candidate(from, j), target)
}

/// The step the AI takes toward `target`, if any step gets closer.
pub open spec fn best_step(
    g: Grid2D,
    occupied: Seq<Position>,
    from: Position,
    target: Position,
) -> Option<Position> {
    if exists|i: int| is_best_step(g, occupied, from, target, i) {
        Some(candidate(from, choose|i: int| is_best_step(g, occupied, from, target, i)))
    } else {
        None
    }
}

/// Every on-grid square has coordinate differences with `target` that fit
/// in an `i32`.
pub open spec fn target_fits(g: Grid2D, target: Position) -> bool {
    &&& g.width - 1 - target.x <= i32::MAX
    &&& g.height - 1 - target.y <= i32::MAX
}

/// The action the AI takes.
pub open spec fn enemy_action(
    g: Grid2D,
    occupied: Seq<Position>,
    my_pos: Position,
    actions_remaining: u32,
    player_pos: Position,
) -> AiAction {
    if actions_remaining == 0 {
        AiAction::EndTurn
    } else if g.spec_neighbors(my_pos).contains(player_pos) {
        AiAction::Strike { attack_index: 0 }
    } else {
        match best_step(g, occupied, my_pos, player_pos) {
            Some(p) => AiAction::MoveTo(p),
            None => AiAction::EndTurn,
        }
    }
}

/// Whether `p` occurs in `v`.
fn contains_position(v: &[Position], p: Position) -> (r: bool)
    ensures
        r == v@.contains(p),
{
    let n = v.len();
    for i in 0..n
        invariant
            n == v@.len(),
            forall|j: int| 0 <= j < i ==> v@[j] != p,
    {
        if v[i] == p {
            return true;
        }
    }
    false
}

/// Choose the action of an enemy creature.
///
/// * With no actions left, end the turn.
/// * Next to the player, Strike with the first strike (index 0).
/// * Otherwise step toward the player (see `find_move_toward`), or end the
///   turn when no step gets closer.
///
/// `occupied` lists the positions other creatures stand on; `_my_speed` is
/// not used by this AI.
pub fn choose_enemy_action(
    my_pos: Position,
    _my_speed: u32,
    actions_remaining: u32,
    player_pos: Position,
    grid: &Grid2D,
    occupied: &[Position],
) -> (r: AiAction)
    requires
        grid.well_formed(),
        grid.neighbors_ok(my_pos),
        steps_fit(my_pos, player_pos),
        target_fits(*grid, player_pos),
    ensures
        r == enemy_action(*grid, occupied@, my_pos, actions_remaining, player_pos),
{
    if actions_remaining == 0 {
        return AiAction::EndTurn;
    }
    if grid.is_adjacent(my_pos, player_pos) {
        return AiAction::Strike { attack_index: 0 };
    }
    match find_move_toward(my_pos, player_pos, grid, occupied) {
        Some(p) => AiAction::MoveTo(p),
        None => AiAction::EndTurn,
    }
}

/// The best square next to `from` to step to on the way to `target`.
///
/// Of the eight neighbors, in direction order, those on the grid, free,
/// passable and strictly closer (Chebyshev) to `target` are candidates; the
/// first one at the smallest distance is returned, `None` when there is none.
pub fn find_move_toward(
    from: Position,
    target: Position,
    grid: &Grid2D,
    occupied: &[Position],
) -> (r: Option<Position>)
    requires
        grid.well_formed(),
        grid.neighbors_ok(from),
        steps_fit(from, target),
        target_fits(*grid, target),
    ensures
        r == best_step(*grid, occupied@, from, target),
{
    let ghost g = *grid;
    let ghost occ = occupied@;
    let current = from.chebyshev(&target);
    let dirs = Direction::all();
    let mut best: Option<(Position, u32)> = None;
    let ghost mut best_i: int = -1;
    for i in 0..8usize
        invariant
            g == *grid,
            occ == occupied@,
            grid.well_formed(),
            grid.neighbors_ok(from),
            target_fits(*grid, target),
            dirs@ == all_directions(),
            current == cheb(from, target),
            match best {
                None => forall|j: int|
                    0 <= j < i ==> !is_closer_step(g, occ, from, target, #[trigger] candidate(from, j)),
                Some((p, d)) => {
                    &&& 0 <= best_i < i
                    &&& p == candidate(from, best_i)
                    &&& d == cheb(p, target)
                    &&& is_closer_step(g, occ, from, target, p)
                    &&& forall|j: int|
                        0 <= j < i && is_closer_step(g, occ, from, target, #[trigger] candidate(from, j))
                            ==> d <= cheb(candidate(from, j), target)
                    &&& forall|j: int|
                        0 <= j < best_i && is_closer_step(g, occ, from, target, #[trigger] candidate(from, j))
                            ==> d < cheb(candidate(from, j), target)
                },
            },
    {
        let (dx, dy) = dirs[i].offset();
        let c = from.offset(dx, dy);
        proof {
            assert(c == candidate(from, i as int));
            assert(grid.spec_in_bounds(c) == in_grid(grid.width as int, grid.height as int, c));
        }
        if grid.in_bounds(c) {
            if !contains_position(occupied, c) {
                if grid.terrain_at(c) != Terrain::Impassable {
                    let dist = c.chebyshev(&target);
                    if dist < current {
                        match best {
                            None => {
                                best = Some((c, dist));
                                proof {
                                    best_i = i as int;
                                }
                            },
                            Some((_, best_dist)) => {
                                if dist < best_dist {
                                    best = Some((c, dist));
                                    proof {
                                        best_i = i as int;
                                    }
                                }
                            },
                        }
                    }
                }
            }
        }
    }
    proof {
        match best {
            None => {
                if exists|k: int| is_best_step(g, occ, from, target, k) {
                    let k = choose|k: int| is_best_step(g, occ, from, target, k);
                    assert(is_closer_step(g, occ, from, target, candidate(from, k)));
                }
            },
            Some((p, d)) => {
                assert(is_best_step(g, occ, from, target, best_i));
                lemma_best_step_unique(g, occ, from, target, best_i);
            },
        }
    }
    match best {
        Some((p, _)) => Some(p),
        None => None,
    }
}

/// At most one direction gives the best step.
proof fn lemma_best_step_unique(
    g: Grid2D,
    occupied: Seq<Position>,
    from: Position,
    target: Position,
    i: int,
)
    requires
        is_best_step(g, occupied, from, target, i),
    ensures
        best_step(g, occupied, from, target) == Some(candidate(from, i)),
{
    let k = choose|k: int| is_best_step(g, occupied, from, target, k);
    assert(is_best_step(g, occupied, from, target, k));
    if k < i {
        assert(is_closer_step(g, occupied, from, target, candidate(from, k)));
    } else if k > i {
        assert(is_closer_step(g, occupied, from, target, candidate(from, i)));
    }
}

/// A step the AI takes goes to a square adjacent to `from` on the grid,
/// free, passable and strictly closer to the target.
pub proof fn lemma_step_is_closer_neighbor(
    g: Grid2D,
    occupied: Seq<Position>,
    from: Position,
    target: Position,
)
    requires
        g.neighbors_ok(from),
        best_step(g, occupied, from, target) is Some,
    ensures
        ({
            let p = best_step(g, occupied, from, target)->0;
            &&& in_grid(g.width as int, g.height as int, p)
            &&& g.spec_neighbors(from).contains(p)
            &&& !occupied.contains(p)
            &&& (g.terrain_view())(p) != Terrain::Impassable
            &&& cheb(p, target) < cheb(from, target)
        }),
{
    let i = choose|i: int| is_best_step(g, occupied, from, target, i);
    let p = candidate(from, i);
    lemma_grid_steps_members(g.width as int, g.height as int, from, all_directions(), p);
}

/// The AI strikes only when the player is adjacent, and never acts with no
/// actions left.
pub proof fn lemma_strike_only_adjacent(
    g: Grid2D,
    occupied: Seq<Position>,
    my_pos: Position,
    actions_remaining: u32,
    player_pos: Position,
)
    ensures
        enemy_action(g, occupied, my_pos, actions_remaining, player_pos) is Strike ==> (
        actions_remaining > 0 && g.spec_neighbors(my_pos).contains(player_pos)),
        actions_remaining == 0 ==> enemy_action(g, occupied, my_pos, actions_remaining, player_pos)
            == AiAction::EndTurn,
{
}

} // verus!
