//! The topology trait — any spatial system implements this.
//! This abstraction is what lets a 2D grid be swapped for hex or 3D later.

use vstd::prelude::*;

use super::position::{abs_int, steps_fit, unsigned_abs, Position};
use super::terrain::{terrain_multiplier, Terrain};

verus! {

pub trait Topology {
    /// The internal consistency the operations rely on.
    spec fn well_formed(&self) -> bool;

    spec fn spec_in_bounds(&self, pos: Position) -> bool;

    /// The terrain of every position.
    spec fn terrain_view(&self) -> spec_fn(Position) -> Terrain;

    /// `a` and `b` name the same cell of the space.
    spec fn same_cell(&self, a: Position, b: Position) -> bool;

    /// The positions adjacent to `pos`, in the order `neighbors` gives them.
    spec fn spec_neighbors(&self, pos: Position) -> Seq<Position>;

    /// Distance in feet between two positions.
    spec fn spec_distance(&self, from: Position, to: Position) -> int;

    /// `distance_in_feet` can compute the distance without overflow.
    spec fn distance_ok(&self, from: Position, to: Position) -> bool;

    /// `neighbors` can step from `pos` without overflow.
    spec fn neighbors_ok(&self, pos: Position) -> bool;

    /// Whether a position is within the bounds of this space.
    fn in_bounds(&self, pos: Position) -> (r: bool)
        requires
            self.well_formed(),
        ensures
            r == self.spec_in_bounds(pos),
    ;

    /// The terrain at a given position.
    fn terrain_at(&self, pos: Position) -> (r: Terrain)
        requires
            self.well_formed(),
        ensures
            r == (self.terrain_view())(pos),
    ;

    /// Set terrain at a position; positions out of bounds are ignored.
    fn set_terrain(&mut self, pos: Position, terrain: Terrain)
        requires
            old(self).well_formed(),
        ensures
            final(self).well_formed(),
            forall|p: Position|
                #[trigger] (final(self).terrain_view())(p) == (if old(self).same_cell(p, pos) && old(self).spec_in_bounds(pos) {
                    terrain
                } else {
                    (old(self).terrain_view())(p)
                }),
            forall|p: Position| #[trigger] final(self).spec_in_bounds(p) == old(self).spec_in_bounds(p),
            forall|p: Position| #[trigger] final(self).spec_neighbors(p) == old(self).spec_neighbors(p),
            forall|p: Position| #[trigger] final(self).neighbors_ok(p) == old(self).neighbors_ok(p),
            forall|a: Position, b: Position| #[trigger] final(self).same_cell(a, b) == old(self).same_cell(a, b),
    ;

    /// Distance in feet between two positions (PF2e uses 5-foot squares).
    fn distance_in_feet(&self, from: Position, to: Position) -> (r: u32)
        requires
            self.well_formed(),
            self.distance_ok(from, to),
        ensures
            r == self.spec_distance(from, to),
    ;

    /// All positions adjacent to the given position.
    fn neighbors(&self, pos: Position) -> (r: Vec<Position>)
        requires
            self.well_formed(),
            self.neighbors_ok(pos),
        ensures
            r@ == self.spec_neighbors(pos),
    ;

    /// Whether two positions are adjacent (within 5 feet).
    fn is_adjacent(&self, a: Position, b: Position) -> (r: bool)
        requires
            self.well_formed(),
            self.neighbors_ok(a),
        ensures
            r == self.spec_neighbors(a).contains(b),
    {
        let ns = self.neighbors(a);
        let n = ns.len();
        for i in 0..n
            invariant
                n == ns@.len(),
                ns@ == self.spec_neighbors(a),
                forall|j: int| 0 <= j < i ==> ns@[j] != b,
        {
            if ns[i] == b {
                return true;
            }
        }
        false
    }

    /// Movement cost along a specific path, checking terrain per cell.
    /// Returns None if any cell in the path is impassable.
    fn path_cost_in_feet(&self, path: &[Position]) -> (r: Option<u32>)
        requires
            self.well_formed(),
            path_ok(self.terrain_view(), path@),
        ensures
            r == path_cost(self.terrain_view(), path@),
    {
        let n = path.len();
        if n == 0 {
            return Some(0);
        }
        if self.terrain_at(path[0]).movement_cost().is_none() {
            proof {
                assert(path@.take(1).drop_last() =~= Seq::<Position>::empty());
                lemma_walk_none_propagates(self.terrain_view(), path@, 1);
            }
            return None;
        }
        if n < 2 {
            return Some(0);
        }
        let mut total: u32 = 0;
        let mut diagonal_count: u32 = 0;
        let mut i: usize = 1;
        proof {
            assert(path@.take(1)[0] == path@[0]);
            assert(walk(self.terrain_view(), path@.take(1)) == Some((0int, 0int)));
        }
        while i < n
            invariant
                n == path@.len(),
                1 <= i <= n,
                self.well_formed(),
                path_ok(self.terrain_view(), path@),
                walk(self.terrain_view(), path@.take(i as int)) == Some((total as int, diagonal_count as int)),
                5 * diagonal_count <= total,
            decreases n - i,
        {
            let from = path[i - 1];
            let to = path[i];
            proof {
                assert(path@.take(i + 1).drop_last() =~= path@.take(i as int));
                assert(path@.take(i + 1)[i - 1] == from);
                assert(path@.take(i + 1).last() == to);
            }
            let terrain = self.terrain_at(to);
            let multiplier = match terrain.movement_cost() {
                Some(m) => m,
                None => {
                    proof {
                        lemma_walk_none_propagates(self.terrain_view(), path@, i + 1);
                        assert(path@.take(n as int) =~= path@);
                    }
                    return None;
                },
            };
            proof {
                assert(steps_fit(path@[i as int], path@[i - 1]));
            }
            let dx = unsigned_abs(to.x - from.x);
            let dy = unsigned_abs(to.y - from.y);
            let is_diagonal = dx == 1 && dy == 1;
            let base_cost: u32 = if is_diagonal {
                diagonal_count = diagonal_count + 1;
                if diagonal_count % 2 == 0 {
                    10
                } else {
                    5
                }
            } else {
                5
            };
            proof {
                assert(walk(self.terrain_view(), path@.take(i + 1)) == Some(
                    (total + base_cost * multiplier, diagonal_count as int),
                ));
                assert(total + base_cost * multiplier <= u32::MAX);
            }
            total = total + base_cost * multiplier;
            i = i + 1;
        }
        proof {
            assert(path@.take(n as int) =~= path@);
        }
        Some(total)
    }
}

/// A step that moves one square along both axes.
pub open spec fn step_is_diagonal(from: Position, to: Position) -> bool {
    abs_int(to.x - from.x) == 1 && abs_int(to.y - from.y) == 1
}

/// Walking a path step by step: the cost so far and the diagonal steps
/// taken so far, or `None` as soon as a cell of the path, the first one
/// included, is impassable. Each step costs 5 feet times the terrain
/// multiplier of the square it enters; every second diagonal step costs
/// 10 feet instead of 5.
pub open spec fn walk(tv: spec_fn(Position) -> Terrain, path: Seq<Position>) -> Option<(int, int)>
    decreases path.len(),
{
    if path.len() == 0 {
        Some((0, 0))
    } else if path.len() == 1 {
        match terrain_multiplier(tv(path[0])) {
            None => None,
            Some(_) => Some((0, 0)),
        }
    } else {
        match walk(tv, path.drop_last()) {
            None => None,
            Some((total, diagonals)) => {
                let from = path[path.len() - 2];
                let to = path.last();
                match terrain_multiplier(tv(to)) {
                    None => None,
                    Some(m) => {
                        let d = if step_is_diagonal(from, to) {
                            diagonals + 1
                        } else {
                            diagonals
                        };
                        let base: int = if step_is_diagonal(from, to) && d % 2 == 0 {
                            10
                        } else {
                            5
                        };
                        Some((total + base * m, d))
                    },
                }
            },
        }
    }
}

/// The cost in feet of walking `path`, `None` when it is blocked.
pub open spec fn path_cost(tv: spec_fn(Position) -> Terrain, path: Seq<Position>) -> Option<u32> {
    match walk(tv, path) {
        Some((c, _)) => Some(c as u32),
        None => None,
    }
}

/// The walk never overflows: every step it reaches has coordinate
/// differences that fit, and every running cost fits in a `u32`.
pub open spec fn path_ok(tv: spec_fn(Position) -> Terrain, path: Seq<Position>) -> bool {
    &&& forall|k: int|
        2 <= k <= path.len() && (#[trigger] walk(tv, path.take(k - 1))) is Some && terrain_multiplier(
            tv(path[k - 1]),
        ) is Some ==> steps_fit(path[k - 1], path[k - 2])
    &&& forall|k: int|
        0 <= k <= path.len() ==> (#[trigger] walk(tv, path.take(k)) matches Some((c, _)) ==> c
            <= u32::MAX)
}

/// Once a walk is blocked it stays blocked.
pub proof fn lemma_walk_none_propagates(tv: spec_fn(Position) -> Terrain, path: Seq<Position>, k: int)
    requires
        0 <= k <= path.len(),
        walk(tv, path.take(k)) is None,
    ensures
        walk(tv, path) is None,
    decreases path.len() - k,
{
    if k < path.len() {
        assert(path.take(k + 1).drop_last() =~= path.take(k));
        lemma_walk_none_propagates(tv, path, k + 1);
    } else {
        assert(path.take(k) =~= path);
    }
}

/// The cost of a walk never decreases as the path grows.
pub proof fn lemma_walk_monotone(tv: spec_fn(Position) -> Terrain, path: Seq<Position>, k: int)
    requires
        0 <= k <= path.len(),
        walk(tv, path) is Some,
    ensures
        walk(tv, path.take(k)) is Some,
        walk(tv, path.take(k)).unwrap().0 <= walk(tv, path).unwrap().0,
        walk(tv, path.take(k)).unwrap().0 >= 0,
    decreases path.len() - k,
{
    if k < path.len() {
        assert(path.take(k + 1).drop_last() =~= path.take(k));
        lemma_walk_monotone(tv, path, k + 1);
    } else {
        assert(path.take(k) =~= path);
    }
    lemma_walk_nonneg(tv, path.take(k));
}

proof fn lemma_walk_nonneg(tv: spec_fn(Position) -> Terrain, path: Seq<Position>)
    ensures
        walk(tv, path) matches Some((c, d)) ==> c >= 0 && d >= 0,
    decreases path.len(),
{
    if path.len() >= 2 {
        lemma_walk_nonneg(tv, path.drop_last());
    }
}

/// Number of diagonal steps along `path`.
pub open spec fn diagonal_steps(path: Seq<Position>) -> int
    decreases path.len(),
{
    if path.len() < 2 {
        0
    } else {
        diagonal_steps(path.drop_last()) + if step_is_diagonal(path[path.len() - 2], path.last()) {
            1int
        } else {
            0int
        }
    }
}

/// The base cost of stepping from the end of `path` to `to`: 5 feet, or
/// 10 feet for a diagonal step that is the second, fourth, ... diagonal.
pub open spec fn step_base(path: Seq<Position>, to: Position) -> int {
    if step_is_diagonal(path.last(), to) && diagonal_steps(path) % 2 == 1 {
        10
    } else {
        5
    }
}

proof fn lemma_walk_counts_diagonals(tv: spec_fn(Position) -> Terrain, path: Seq<Position>)
    ensures
        walk(tv, path) matches Some((_, d)) ==> d == diagonal_steps(path),
    decreases path.len(),
{
    if path.len() >= 2 {
        lemma_walk_counts_diagonals(tv, path.drop_last());
    }
}

/// A path has a cost exactly when none of its squares, the first one
/// included, is impassable.
pub proof fn lemma_path_blocked_iff_impassable(tv: spec_fn(Position) -> Terrain, path: Seq<Position>)
    ensures
        path_cost(tv, path) is None <==> exists|j: int|
            0 <= j < path.len() && #[trigger] terrain_multiplier(tv(path[j])) is None,
    decreases path.len(),
{
    if path.len() >= 2 {
        let p = path.drop_last();
        lemma_path_blocked_iff_impassable(tv, p);
        if path_cost(tv, p) is None {
            let j = choose|j: int| 0 <= j < p.len() && #[trigger] terrain_multiplier(tv(p[j])) is None;
            assert(path[j] == p[j]);
        } else {
            if exists|j: int| 0 <= j < path.len() && #[trigger] terrain_multiplier(tv(path[j])) is None {
                let j = choose|j: int| 0 <= j < path.len() && #[trigger] terrain_multiplier(tv(path[j])) is None;
                if j < p.len() {
                    assert(p[j] == path[j]);
                }
            }
        }
    } else if path.len() == 1 {
        if terrain_multiplier(tv(path[0])) is None {
            assert(terrain_multiplier(tv(path[0])) is None);
        }
    }
}

/// Each step of a path costs its base cost (5 feet, or 10 for every second
/// diagonal) times the movement multiplier of the square it enters; the
/// square being left does not matter.
pub proof fn lemma_step_cost(tv: spec_fn(Position) -> Terrain, path: Seq<Position>, to: Position)
    requires
        path.len() >= 1,
        path_ok(tv, path.push(to)),
        path_cost(tv, path) is Some,
        terrain_multiplier(tv(to)) is Some,
    ensures
        path_cost(tv, path.push(to)) is Some,
        path_cost(tv, path.push(to))->0 == path_cost(tv, path)->0 + step_base(path, to) * (
        terrain_multiplier(tv(to))->0),
{
    let w = path.push(to);
    assert(w.drop_last() =~= path);
    assert(w[w.len() - 2] == path.last());
    lemma_walk_counts_diagonals(tv, path);
    lemma_walk_nonneg(tv, path);
    lemma_walk_nonneg(tv, w);
    assert(w.take(w.len() as int) =~= w);
    assert(w.take(path.len() as int) =~= path);
    assert(walk(tv, w.take(w.len() as int)) == walk(tv, w));
    assert(walk(tv, w.take(path.len() as int)) == walk(tv, path));
}

/// A one-step path costs 5 feet times the multiplier of the square entered,
/// whatever passable square it starts from: 5 into normal or hazardous
/// terrain, 10 into difficult, 15 into greater difficult terrain.
pub proof fn lemma_first_step_cost(tv: spec_fn(Position) -> Terrain, from: Position, to: Position)
    requires
        terrain_multiplier(tv(from)) is Some,
        terrain_multiplier(tv(to)) is Some,
    ensures
        path_cost(tv, seq![from, to]) == Some((5 * (terrain_multiplier(tv(to))->0)) as u32),
        tv(to) == Terrain::Normal ==> path_cost(tv, seq![from, to]) == Some(5u32),
        tv(to) == Terrain::Hazardous ==> path_cost(tv, seq![from, to]) == Some(5u32),
        tv(to) == Terrain::Difficult ==> path_cost(tv, seq![from, to]) == Some(10u32),
        tv(to) == Terrain::GreaterDifficult ==> path_cost(tv, seq![from, to]) == Some(15u32),
{
    let p = seq![from, to];
    let q = seq![from];
    assert(p.drop_last() =~= q);
    assert(q[0] == from);
    assert(walk(tv, q) == Some((0int, 0int)));
    assert(p[p.len() - 2] == from);
    assert(p.last() == to);
    let m = terrain_multiplier(tv(to))->0;
    assert(walk(tv, p) == Some((5 * m, if step_is_diagonal(from, to) {
        1int
    } else {
        0int
    })));
}

} // verus!
