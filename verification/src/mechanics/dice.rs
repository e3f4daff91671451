//! Dice: die types, pools and rolls. Randomness comes from a caller-owned
//! `StdRng`; the mechanics layer never owns it.

use vstd::prelude::*;
use rand::rngs::StdRng;
use rand::Rng;

verus! {

/// The random number generator the library draws from.
#[verifier::external_type_specification]
#[verifier::external_body]
pub struct ExStdRng(StdRng);

/// A uniformly drawn integer in `low ..= high`.
/// Calls rand's `Rng::gen_range` with an inclusive range; it panics only on
/// an empty range, which `requires` excludes, and returns a value of the
/// range. Which value comes out depends on the generator's state and is
/// not stated.
#[verifier::external_body]
fn gen_range_inclusive(rng: &mut StdRng, low: i32, high: i32) -> (r: i32)
    requires
        low <= high,
    ensures
        low <= r <= high,
{
    rng.gen_range(low..=high)
}

/// A single die type.
#[derive(Debug, Clone, Copy, PartialEq, Eq, Hash, Structural)]
pub enum Die {
    D4,
    D6,
    D8,
    D10,
    D12,
    D20,
}

/// Number of faces of a die.
pub open spec fn die_faces(d: Die) -> int {
    match d {
        Die::D4 => 4,
        Die::D6 => 6,
        Die::D8 => 8,
        Die::D10 => 10,
        Die::D12 => 12,
        Die::D20 => 20,
    }
}

impl Die {
    pub fn max_value(self) -> (r: i32)
        ensures
            r == die_faces(self),
    {
        match self {
            Die::D4 => 4,
            Die::D6 => 6,
            Die::D8 => 8,
            Die::D10 => 10,
            Die::D12 => 12,
            Die::D20 => 20,
        }
    }

    /// Roll this die. RNG is injected — the mechanics layer never owns randomness.
    pub fn roll(self, rng: &mut StdRng) -> (r: i32)
        ensures
            1 <= r <= die_faces(self),
    {
        gen_range_inclusive(rng, 1, self.max_value())
    }
}

/// Sum of a sequence of integers.
pub open spec fn seq_sum(s: Seq<i32>) -> int
    decreases s.len(),
{
    if s.len() == 0 {
        0
    } else {
        seq_sum(s.drop_last()) + s.last()
    }
}

/// Every running sum of `s`, taken in order, fits in an `i32`.
pub open spec fn running_sums_fit(s: Seq<i32>) -> bool {
    forall|k: int| 0 <= k <= s.len() ==> i32::MIN <= #[trigger] seq_sum(s.take(k)) <= i32::MAX
}

/// Every value of `s` is a face of die `d`.
pub open spec fn all_faces(s: Seq<i32>, d: Die) -> bool {
    forall|i: int| 0 <= i < s.len() ==> 1 <= #[trigger] s[i] <= die_faces(d)
}

/// Result from rolling dice — preserves individual values for inspection.
#[derive(Debug, Clone, PartialEq, Eq)]
pub struct DiceRoll {
    pub die: Die,
    pub results: Vec<i32>,
}

impl DiceRoll {
    pub fn total(&self) -> (r: i32)
        requires
            running_sums_fit(self.results@),
        ensures
            r == seq_sum(self.results@),
    {
        let n = self.results.len();
        let mut sum: i32 = 0;
        for i in 0..n
            invariant
                n == self.results@.len(),
                running_sums_fit(self.results@),
                sum == seq_sum(self.results@.take(i as int)),
        {
            proof {
                assert(self.results@.take(i + 1).drop_last() =~= self.results@.take(i as int));
                assert(i32::MIN <= seq_sum(self.results@.take(i + 1)) <= i32::MAX);
            }
            sum = sum + self.results[i];
        }
        proof {
            assert(self.results@.take(n as int) =~= self.results@);
        }
        sum
    }

    /// The natural value of the first die — relevant for d20 checks
    /// where natural 1 and natural 20 shift degree of success.
    pub fn natural_value(&self) -> (r: Option<i32>)
        ensures
            r == (if self.results@.len() > 0 { Some(self.results@[0]) } else { None }),
    {
        if self.results.len() > 0 {
            Some(self.results[0])
        } else {
            None
        }
    }
}

/// A pool of dice to roll (e.g., 2d6, 1d20, 4d8).
#[derive(Debug, Clone, PartialEq, Eq)]
pub struct DicePool {
    pub count: u32,
    pub die: Die,
}

impl DicePool {
    pub fn new(count: u32, die: Die) -> (r: Self)
        ensures
            r.count == count,
            r.die == die,
    {
        Self { count, die }
    }

    /// Roll every die of the pool once.
    pub fn roll(&self, rng: &mut StdRng) -> (r: DiceRoll)
        ensures
            r.die == self.die,
            r.results@.len() == self.count,
            all_faces(r.results@, self.die),
    {
        let mut results: Vec<i32> = Vec::new();
        let mut k: u32 = 0;
        while k < self.count
            invariant
                k <= self.count,
                results@.len() == k,
                all_faces(results@, self.die),
            decreases self.count - k,
        {
            let v = self.die.roll(rng);
            results.push(v);
            k = k + 1;
        }
        DiceRoll { die: self.die, results }
    }
}

/// A roll of `n` dice of `d` sums to between `n` and `n` times the faces.
pub proof fn lemma_faces_sum_bounds(s: Seq<i32>, d: Die)
    requires
        all_faces(s, d),
    ensures
        s.len() <= seq_sum(s) <= s.len() * die_faces(d),
    decreases s.len(),
{
    if s.len() > 0 {
        let p = s.drop_last();
        assert(all_faces(p, d)) by {
            assert forall|i: int| 0 <= i < p.len() implies 1 <= #[trigger] p[i] <= die_faces(d) by {
                assert(p[i] == s[i]);
            }
        }
        lemma_faces_sum_bounds(p, d);
        assert(1 <= s[s.len() - 1] <= die_faces(d));
        assert((p.len() + 1) * die_faces(d) == p.len() * die_faces(d) + die_faces(d)) by (nonlinear_arith);
    }
}

/// Sums of face values stay within range for every prefix, given a bound
/// on the whole.
pub proof fn lemma_faces_running_sums_fit(s: Seq<i32>, d: Die)
    requires
        all_faces(s, d),
        s.len() * die_faces(d) <= i32::MAX,
    ensures
        running_sums_fit(s),
{
    assert forall|k: int| 0 <= k <= s.len() implies i32::MIN <= #[trigger] seq_sum(s.take(k))
        <= i32::MAX by {
        let t = s.take(k);
        assert(all_faces(t, d)) by {
            assert forall|i: int| 0 <= i < t.len() implies 1 <= #[trigger] t[i] <= die_faces(d) by {
                assert(t[i] == s[i]);
            }
        }
        lemma_faces_sum_bounds(t, d);
        assert(k * die_faces(d) <= s.len() * die_faces(d)) by (nonlinear_arith)
            requires
                0 <= k <= s.len(),
                die_faces(d) >= 0,
        ;
    }
}

} // verus!
