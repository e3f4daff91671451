//! What the terminal screen shows: grid cells, creature markers, status
//! lines and the window of the combat log.

use vstd::prelude::*;

use crate::spatial::grid2d::Grid2D;
use crate::spatial::position::{min_int, Position};
use crate::spatial::terrain::Terrain;
use crate::spatial::topology::Topology;
use crate::text::{i64_to_decimal, int_decimal, nat_decimal};

verus! {

/// Maximum number of columns of the grid viewport.
pub const MAX_DISPLAY_COLS: u32 = 40;

/// Maximum number of rows of the grid viewport.
pub const MAX_DISPLAY_ROWS: u32 = 25;

/// A creature as the grid shows it.
#[derive(Debug, Clone)]
pub struct CreatureDisplay {
    /// The creature's grid position.
    pub position: Position,
    /// The character that marks the creature on the grid.
    pub display_char: char,
    /// The creature's name.
    pub name: String,
    /// Whether the creature is alive (dead creatures are not drawn).
    pub is_alive: bool,
}

/// The marker of the first living creature of `cs` at `pos`.
pub open spec fn marker_at(cs: Seq<CreatureDisplay>, pos: Position) -> Option<char>
    decreases cs.len(),
{
    if cs.len() == 0 {
        None
    } else {
        match marker_at(cs.drop_last(), pos) {
            Some(c) => Some(c),
            None => if cs.last().is_alive && cs.last().position == pos {
                Some(cs.last().display_char)
            } else {
                None
            },
        }
    }
}

/// The character of a terrain type.
pub open spec fn terrain_symbol(t: Terrain) -> char {
    match t {
        Terrain::Normal => '.',
        Terrain::Difficult => '~',
        Terrain::GreaterDifficult => '~',
        Terrain::Impassable => '#',
        Terrain::Hazardous => '!',
    }
}

/// The marker of the first living creature at `pos`, if any.
pub fn creature_at(creatures: &[CreatureDisplay], pos: Position) -> (r: Option<char>)
    ensures
        r == marker_at(creatures@, pos),
{
    let n = creatures.len();
    for i in 0..n
        invariant
            n == creatures@.len(),
            marker_at(creatures@.take(i as int), pos) is None,
    {
        proof {
            assert(creatures@.take(i + 1).drop_last() =~= creatures@.take(i as int));
        }
        if creatures[i].is_alive && creatures[i].position == pos {
            proof {
                lemma_marker_found(creatures@, i as int, pos);
            }
            return Some(creatures[i].display_char);
        }
    }
    proof {
        assert(creatures@.take(n as int) =~= creatures@);
    }
    None
}

proof fn lemma_marker_found(cs: Seq<CreatureDisplay>, i: int, pos: Position)
    requires
        0 <= i < cs.len(),
        marker_at(cs.take(i), pos) is None,
        cs[i].is_alive && cs[i].position == pos,
    ensures
        marker_at(cs, pos) == Some(cs[i].display_char),
    decreases cs.len(),
{
    if i == cs.len() - 1 {
        assert(cs.drop_last() =~= cs.take(i));
    } else {
        assert(cs.drop_last().take(i) =~= cs.take(i));
        lemma_marker_found(cs.drop_last(), i, pos);
    }
}

/// The character shown for a terrain type.
pub fn terrain_char(terrain: Terrain) -> (r: char)
    ensures
        r == terrain_symbol(terrain),
{
    match terrain {
        Terrain::Normal => '.',
        Terrain::Difficult => '~',
        Terrain::GreaterDifficult => '~',
        Terrain::Impassable => '#',
        Terrain::Hazardous => '!',
    }
}

/// The character shown in the grid cell at `pos`: a living creature's
/// marker, else the terrain's character.
pub fn cell_char(grid: &Grid2D, creatures: &[CreatureDisplay], pos: Position) -> (r: char)
    requires
        grid.well_formed(),
    ensures
        r == match marker_at(creatures@, pos) {
            Some(c) => c,
            None => terrain_symbol((grid.terrain_view())(pos)),
        },
{
    match creature_at(creatures, pos) {
        Some(c) => c,
        None => terrain_char(grid.terrain_at(pos)),
    }
}

/// The number of decimal digits of `n`.
pub fn digit_count(n: u32) -> (r: usize)
    ensures
        r == nat_decimal(n as nat).len(),
{
    if n == 0 {
        return 1;
    }
    let ghost total = nat_decimal(n as nat).len();
    proof {
        assert(pow10(0) == 1);
        assert(pow10(1) == 10);
        assert(pow10(2) == 100);
        assert(pow10(3) == 1000);
        assert(pow10(4) == 10000);
        assert(pow10(5) == 100000);
        assert(pow10(6) == 1000000);
        assert(pow10(7) == 10000000);
        assert(pow10(8) == 100000000);
        assert(pow10(9) == 1000000000);
        assert(pow10(10) == 10000000000);
        lemma_decimal_len_bound(n as nat, 10);
    }
    let mut count: usize = 0;
    let mut val = n;
    while val > 0
        invariant
            total == nat_decimal(n as nat).len(),
            total <= 10,
            val > 0 ==> count + nat_decimal(val as nat).len() == total,
            val == 0 ==> count == total,
        decreases val,
    {
        count = count + 1;
        val = val / 10;
    }
    count
}

/// Ten to the power `k`.
pub open spec fn pow10(k: nat) -> nat
    decreases k,
{
    if k == 0 {
        1
    } else {
        10 * pow10((k - 1) as nat)
    }
}

/// A number below ten to the `k` has at most `k` decimal digits.
proof fn lemma_decimal_len_bound(n: nat, k: nat)
    requires
        k >= 1,
        n < pow10(k),
    ensures
        nat_decimal(n).len() <= k,
    decreases k,
{
    if n >= 10 {
        if k == 1 {
            assert(pow10(1) == 10 * pow10(0));
        } else {
            let k1 = (k - 1) as nat;
            assert(n / 10 < pow10(k1)) by (nonlinear_arith)
                requires
                    n < 10 * pow10(k1),
            ;
            lemma_decimal_len_bound(n / 10, k1);
        }
    }
}

/// The size of the grid viewport: the grid, capped at
/// `MAX_DISPLAY_COLS` by `MAX_DISPLAY_ROWS`.
pub fn viewport(grid: &Grid2D) -> (r: (u32, u32))
    ensures
        r.0 == min_int(grid.width as int, MAX_DISPLAY_COLS as int),
        r.1 == min_int(grid.height as int, MAX_DISPLAY_ROWS as int),
{
    let w = if grid.width < MAX_DISPLAY_COLS {
        grid.width
    } else {
        MAX_DISPLAY_COLS
    };
    let h = if grid.height < MAX_DISPLAY_ROWS {
        grid.height
    } else {
        MAX_DISPLAY_ROWS
    };
    (w, h)
}

/// The header's turn label.
pub fn turn_label(is_player_turn: bool) -> (r: &'static str)
    ensures
        r@ == (if is_player_turn {
            "Your Turn"@
        } else {
            "Enemy Turn"@
        }),
{
    if is_player_turn {
        "Your Turn"
    } else {
        "Enemy Turn"
    }
}

/// An enemy's status: its hit points while alive, else "DEAD".
pub fn enemy_status(hp_current: i32, hp_max: i32, alive: bool) -> (r: String)
    ensures
        r@ == (if alive {
            "HP: "@ + int_decimal(hp_current as int) + "/"@ + int_decimal(hp_max as int)
        } else {
            "DEAD"@
        }),
{
    if alive {
        String::from_str("HP: ").concat(i64_to_decimal(hp_current as i64).as_str()).concat("/").concat(
            i64_to_decimal(hp_max as i64).as_str(),
        )
    } else {
        String::from_str("DEAD")
    }
}

/// Where the shown window of the combat log starts: the last
/// `max_log_lines` messages are shown.
pub fn log_window_start(log_len: usize, max_log_lines: usize) -> (r: usize)
    ensures
        r == (if log_len > max_log_lines {
            log_len - max_log_lines
        } else {
            0
        }),
{
    if log_len > max_log_lines {
        log_len - max_log_lines
    } else {
        0
    }
}

} // verus!
