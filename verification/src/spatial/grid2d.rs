//! A 2D square grid — the default PF2e spatial topology.

use vstd::prelude::*;

use super::position::{
    abs_int, all_directions, dir_offset, dx_abs, dy_abs, max_int, min_int, steps_fit, Direction,
    Position,
};
use super::terrain::Terrain;
use super::topology::Topology;

verus! {

/// A 2D square grid. Each cell is a 5-foot square.
#[derive(Debug, Clone)]
pub struct Grid2D {
    pub width: u32,
    pub height: u32,
    /// Terrain of every cell, row by row.
    pub terrain: Vec<Terrain>,
}

/// `pos` lies on a `w` by `h` grid.
pub open spec fn in_grid(w: int, h: int, pos: Position) -> bool {
    0 <= pos.x && 0 <= pos.y && pos.x < w && pos.y < h
}

/// The position one step from `pos` in direction `d`, on the plane z = 0.
pub open spec fn step_from(pos: Position, d: Direction) -> Position {
    Position { x: (pos.x + dir_offset(d).0) as i32, y: (pos.y + dir_offset(d).1) as i32, z: 0 }
}

/// The steps from `pos` along `dirs` that stay on a `w` by `h` grid, in order.
pub open spec fn grid_steps(w: int, h: int, pos: Position, dirs: Seq<Direction>) -> Seq<Position>
    decreases dirs.len(),
{
    if dirs.len() == 0 {
        seq![]
    } else {
        let r = grid_steps(w, h, pos, dirs.drop_last());
        let p = step_from(pos, dirs.last());
        if in_grid(w, h, p) {
            r.push(p)
        } else {
            r
        }
    }
}

/// PF2e distance: every second diagonal costs 10 feet instead of 5.
pub open spec fn grid_distance(from: Position, to: Position) -> int {
    let diag = min_int(dx_abs(from, to), dy_abs(from, to));
    let card = abs_int(dx_abs(from, to) - dy_abs(from, to));
    (card + diag + diag / 2) * 5
}

impl Grid2D {
    /// A `width` by `height` grid of normal terrain.
    pub fn new(width: u32, height: u32) -> (r: Self)
        requires
            width * height <= u32::MAX,
        ensures
            r.width == width,
            r.height == height,
            r.well_formed(),
            forall|p: Position| #[trigger] (r.terrain_view())(p) == Terrain::Normal,
    {
        let n = (width * height) as usize;
        let g = Self { width, height, terrain: vec![Terrain::Normal; n] };
        proof {
            assert forall|i: int| 0 <= i < g.terrain@.len() implies g.terrain@[i] == Terrain::Normal by {
                assert(cloned(Terrain::Normal, g.terrain@[i]));
            }
            assert forall|p: Position| #[trigger] (g.terrain_view())(p) == Terrain::Normal by {
                if in_grid(width as int, height as int, p) {
                    lemma_cell_index(p.x as int, p.y as int, width as int, height as int);
                }
            }
        }
        g
    }

    /// Index of `pos` in the cell vector, if it is on the grid.
    fn index(&self, pos: Position) -> (r: Option<usize>)
        requires
            self.well_formed(),
        ensures
            r is Some <==> in_grid(self.width as int, self.height as int, pos),
            r matches Some(i) ==> i == pos.y * self.width + pos.x && i < self.terrain@.len(),
    {
        proof {
            assert(self.spec_in_bounds(pos) == in_grid(self.width as int, self.height as int, pos));
        }
        if self.in_bounds(pos) {
            proof {
                lemma_cell_index(pos.x as int, pos.y as int, self.width as int, self.height as int);
            }
            Some((pos.y as u32 * self.width + pos.x as u32) as usize)
        } else {
            None
        }
    }
}

proof fn lemma_cell_index(x: int, y: int, w: int, h: int)
    requires
        0 <= x < w,
        0 <= y < h,
    ensures
        0 <= y * w + x < w * h,
        y * w <= y * w + x,
{
    assert(y * w + x < (y + 1) * w) by (nonlinear_arith)
        requires
            x < w,
    ;
    assert((y + 1) * w <= h * w) by (nonlinear_arith)
        requires
            y + 1 <= h,
            w > 0,
    ;
    assert(0 <= y * w) by (nonlinear_arith)
        requires
            y >= 0,
            w >= 0,
    ;
    assert(h * w == w * h) by (nonlinear_arith);
}

impl Topology for Grid2D {
    open spec fn well_formed(&self) -> bool {
        &&& self.terrain@.len() == self.width * self.height
        &&& self.width * self.height <= u32::MAX
    }

    open spec fn spec_in_bounds(&self, pos: Position) -> bool {
        in_grid(self.width as int, self.height as int, pos)
    }

    /// Terrain of cells on the grid; everything off the grid reads as normal.
    open spec fn terrain_view(&self) -> spec_fn(Position) -> Terrain {
        |p: Position|
            if in_grid(self.width as int, self.height as int, p) {
                self.terrain@[p.y * self.width + p.x]
            } else {
                Terrain::Normal
            }
    }

    open spec fn same_cell(&self, a: Position, b: Position) -> bool {
        a.x == b.x && a.y == b.y
    }

    open spec fn spec_neighbors(&self, pos: Position) -> Seq<Position> {
        grid_steps(self.width as int, self.height as int, pos, all_directions())
    }

    open spec fn spec_distance(&self, from: Position, to: Position) -> int {
        grid_distance(from, to)
    }

    open spec fn distance_ok(&self, from: Position, to: Position) -> bool {
        steps_fit(from, to) && grid_distance(from, to) <= u32::MAX
    }

    open spec fn neighbors_ok(&self, pos: Position) -> bool {
        i32::MIN < pos.x < i32::MAX && i32::MIN < pos.y < i32::MAX
    }

    fn in_bounds(&self, pos: Position) -> (r: bool) {
        let x = pos.x as i64;
        let y = pos.y as i64;
        let w = self.width as i64;
        let h = self.height as i64;
        proof {
            assert(self.spec_in_bounds(pos) == in_grid(self.width as int, self.height as int, pos));
        }
        0 <= x && 0 <= y && x < w && y < h
    }

    fn terrain_at(&self, pos: Position) -> (r: Terrain) {
        match self.index(pos) {
            Some(idx) => self.terrain[idx],
            None => Terrain::Normal,
        }
    }

    fn set_terrain(&mut self, pos: Position, terrain: Terrain)
        ensures
            final(self).width == old(self).width,
            final(self).height == old(self).height,
    {
        let ghost before = *self;
        if let Some(idx) = self.index(pos) {
            self.terrain.set(idx, terrain);
            proof {
                let w = self.width as int;
                let h = self.height as int;
                assert forall|p: Position|
                    #[trigger] (self.terrain_view())(p) == (if before.same_cell(p, pos)
                        && before.spec_in_bounds(pos) {
                        terrain
                    } else {
                        (before.terrain_view())(p)
                    }) by {
                    if in_grid(w, h, p) && !(p.x == pos.x && p.y == pos.y) {
                        if p.y * self.width + p.x == idx as int {
                            lemma_cell_index_injective(p, pos, w, h);
                        }
                        lemma_cell_index(p.x as int, p.y as int, w, h);
                    }
                }
            }
        }
    }

    /// PF2e diagonal movement: every second diagonal costs 10 feet instead of 5.
    fn distance_in_feet(&self, from: Position, to: Position) -> (r: u32) {
        let diag = from.diagonal_steps(&to);
        let card = from.cardinal_steps(&to);
        let extra_diag_cost = diag / 2;
        (card + diag + extra_diag_cost) * 5
    }

    fn neighbors(&self, pos: Position) -> (r: Vec<Position>) {
        let dirs = Direction::all();
        let mut out: Vec<Position> = Vec::new();
        for i in 0..8usize
            invariant
                self.well_formed(),
                self.neighbors_ok(pos),
                dirs@ == all_directions(),
                out@ == grid_steps(self.width as int, self.height as int, pos, all_directions().take(i as int)),
        {
            proof {
                assert(all_directions().take(i + 1).drop_last() =~= all_directions().take(i as int));
            }
            let (dx, dy) = dirs[i].offset();
            let p = pos.offset(dx, dy);
            proof {
                assert(self.spec_in_bounds(p) == in_grid(self.width as int, self.height as int, p));
            }
            if self.in_bounds(p) {
                out.push(p);
            }
        }
        proof {
            assert(all_directions().take(8) =~= all_directions());
        }
        out
    }
}

proof fn lemma_cell_index_injective(p: Position, q: Position, w: int, h: int)
    requires
        in_grid(w, h, p),
        in_grid(w, h, q),
        p.y * w + p.x == q.y * w + q.x,
    ensures
        p.x == q.x && p.y == q.y,
{
    let (py, px, qy, qx) = (p.y as int, p.x as int, q.y as int, q.x as int);
    if py < qy {
        assert(py * w + px < qy * w) by (nonlinear_arith)
            requires
                py + 1 <= qy,
                0 <= px < w,
        ;
        assert(qy * w <= qy * w + qx);
        assert(false);
    } else if py > qy {
        assert(qy * w + qx < py * w) by (nonlinear_arith)
            requires
                qy + 1 <= py,
                0 <= qx < w,
        ;
        assert(py * w <= py * w + px);
        assert(false);
    }
}

/// Adjacency on the grid: `b` is a neighbor of `a` exactly when `b` lies on
/// the grid (on the plane z = 0) one king's move away from `a`.
pub proof fn lemma_grid_adjacency(g: Grid2D, a: Position, b: Position)
    requires
        g.neighbors_ok(a),
    ensures
        g.spec_neighbors(a).contains(b) <==> (in_grid(g.width as int, g.height as int, b) && b.z == 0
            && abs_int(b.x - a.x) <= 1 && abs_int(b.y - a.y) <= 1 && !(b.x == a.x && b.y == a.y)),
{
    let w = g.width as int;
    let h = g.height as int;
    let dirs = all_directions();
    reveal_with_fuel(grid_steps, 9);
    let s = grid_steps(w, h, a, dirs);
    let cand = seq![
        step_from(a, Direction::North),
        step_from(a, Direction::South),
        step_from(a, Direction::East),
        step_from(a, Direction::West),
        step_from(a, Direction::NorthEast),
        step_from(a, Direction::NorthWest),
        step_from(a, Direction::SouthEast),
        step_from(a, Direction::SouthWest),
    ];
    assert forall|p: Position| s.contains(p) <==> (cand.contains(p) && in_grid(w, h, p)) by {
        lemma_grid_steps_members(w, h, a, dirs, p);
        if cand.contains(p) {
            let i = choose|i: int| 0 <= i < cand.len() && cand[i] == p;
            assert(dirs[i] == dirs[i]);
            assert(step_from(a, dirs[i]) == p);
        }
        if exists|i: int| 0 <= i < dirs.len() && step_from(a, dirs[i]) == p {
            let i = choose|i: int| 0 <= i < dirs.len() && step_from(a, dirs[i]) == p;
            assert(cand[i] == p);
        }
    }
    if in_grid(w, h, b) && b.z == 0 && abs_int(b.x - a.x) <= 1 && abs_int(b.y - a.y) <= 1 && !(b.x
        == a.x && b.y == a.y) {
        if b.x == a.x && b.y == a.y - 1 {
            assert(cand[0] == b);
        } else if b.x == a.x && b.y == a.y + 1 {
            assert(cand[1] == b);
        } else if b.x == a.x + 1 && b.y == a.y {
            assert(cand[2] == b);
        } else if b.x == a.x - 1 && b.y == a.y {
            assert(cand[3] == b);
        } else if b.x == a.x + 1 && b.y == a.y - 1 {
            assert(cand[4] == b);
        } else if b.x == a.x - 1 && b.y == a.y - 1 {
            assert(cand[5] == b);
        } else if b.x == a.x + 1 && b.y == a.y + 1 {
            assert(cand[6] == b);
        } else {
            assert(cand[7] == b);
        }
    }
}

/// Membership in `grid_steps`: the on-grid steps along `dirs`.
pub(crate) proof fn lemma_grid_steps_members(w: int, h: int, a: Position, dirs: Seq<Direction>, p: Position)
    ensures
        grid_steps(w, h, a, dirs).contains(p) <==> (in_grid(w, h, p) && exists|i: int|
            0 <= i < dirs.len() && step_from(a, dirs[i]) == p),
    decreases dirs.len(),
{
    if dirs.len() > 0 {
        let d = dirs.drop_last();
        let r = grid_steps(w, h, a, d);
        let q = step_from(a, dirs.last());
        lemma_grid_steps_members(w, h, a, d, p);
        let s = grid_steps(w, h, a, dirs);
        if in_grid(w, h, q) {
            assert(s == r.push(q));
        } else {
            assert(s == r);
        }
        if s.contains(p) {
            if r.contains(p) {
                let i = choose|i: int| 0 <= i < d.len() && step_from(a, d[i]) == p;
                assert(dirs[i] == d[i]);
            } else {
                let k = choose|k: int| 0 <= k < s.len() && s[k] == p;
                assert(in_grid(w, h, q) && k == r.len());
                assert(step_from(a, dirs[dirs.len() - 1]) == p);
            }
        }
        if in_grid(w, h, p) && exists|i: int| 0 <= i < dirs.len() && step_from(a, dirs[i]) == p {
            let i = choose|i: int| 0 <= i < dirs.len() && step_from(a, dirs[i]) == p;
            if i < d.len() {
                assert(d[i] == dirs[i]);
                assert(r.contains(p));
                let k = choose|k: int| 0 <= k < r.len() && r[k] == p;
                assert(s[k] == p);
            } else {
                assert(q == p);
                assert(s[r.len() as int] == p);
            }
        }
    }
}

} // verus!
