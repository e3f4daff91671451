//! Check resolution: total against DC, natural 20 / natural 1, degree shifts.

use vstd::prelude::*;

use super::modifier::{prefix_sums_fit, applied_of, stacked_total, ModifierStack};

verus! {

/// The four degrees of success.
#[derive(Debug, Clone, Copy, PartialEq, Eq, PartialOrd, Ord, Hash, Structural)]
pub enum DegreeOfSuccess {
    CriticalFailure,
    Failure,
    Success,
    CriticalSuccess,
}

/// Position of a degree on the scale, 0 (critical failure) to 3 (critical success).
pub open spec fn degree_rank(d: DegreeOfSuccess) -> int {
    match d {
        DegreeOfSuccess::CriticalFailure => 0,
        DegreeOfSuccess::Failure => 1,
        DegreeOfSuccess::Success => 2,
        DegreeOfSuccess::CriticalSuccess => 3,
    }
}

/// The degree at rank `r`, clamped to the scale.
pub open spec fn degree_at(r: int) -> DegreeOfSuccess {
    if r <= 0 {
        DegreeOfSuccess::CriticalFailure
    } else if r == 1 {
        DegreeOfSuccess::Failure
    } else if r == 2 {
        DegreeOfSuccess::Success
    } else {
        DegreeOfSuccess::CriticalSuccess
    }
}

/// `d` moved `steps` places along the scale, stopping at its ends.
pub open spec fn shifted(d: DegreeOfSuccess, steps: int) -> DegreeOfSuccess {
    degree_at(degree_rank(d) + steps)
}

impl DegreeOfSuccess {
    pub fn improve(self) -> (r: Self)
        ensures
            r == shifted(self, 1),
    {
        match self {
            Self::CriticalFailure => Self::Failure,
            Self::Failure => Self::Success,
            Self::Success => Self::CriticalSuccess,
            Self::CriticalSuccess => Self::CriticalSuccess,
        }
    }

    pub fn worsen(self) -> (r: Self)
        ensures
            r == shifted(self, -1),
    {
        match self {
            Self::CriticalFailure => Self::CriticalFailure,
            Self::Failure => Self::CriticalFailure,
            Self::Success => Self::Failure,
            Self::CriticalSuccess => Self::Success,
        }
    }

    /// Improve `steps` times (or worsen `-steps` times).
    pub fn shift(self, steps: i32) -> (r: Self)
        requires
            steps != i32::MIN,
        ensures
            r == shifted(self, steps as int),
    {
        let mut result = self;
        if steps > 0 {
            let mut k: i32 = 0;
            while k < steps
                invariant
                    0 <= k <= steps,
                    result == shifted(self, k as int),
                decreases steps - k,
            {
                result = result.improve();
                k = k + 1;
            }
        } else {
            let n: i32 = -steps;
            let mut k: i32 = 0;
            while k < n
                invariant
                    0 <= k <= n,
                    n == -steps,
                    result == shifted(self, -(k as int)),
                decreases n - k,
            {
                result = result.worsen();
                k = k + 1;
            }
        }
        result
    }
}

/// Pure input for resolving a check. No entity knowledge — just numbers.
#[derive(Debug, Clone)]
pub struct CheckContext {
    pub natural_roll: i32,
    pub modifiers: ModifierStack,
    pub dc: i32,
    pub degree_shifts: i32,
}

/// Full result of resolving a check.
#[derive(Debug, Clone)]
pub struct CheckResult {
    pub natural_roll: i32,
    pub total: i32,
    pub dc: i32,
    pub base_degree: DegreeOfSuccess,
    pub final_degree: DegreeOfSuccess,
}

/// The degree a total earns against a DC: beating it by 10 is a critical
/// success, meeting it a success, missing it by 10 a critical failure.
pub open spec fn base_degree(total: int, dc: int) -> DegreeOfSuccess {
    if total >= dc + 10 {
        DegreeOfSuccess::CriticalSuccess
    } else if total >= dc {
        DegreeOfSuccess::Success
    } else if total <= dc - 10 {
        DegreeOfSuccess::CriticalFailure
    } else {
        DegreeOfSuccess::Failure
    }
}

/// A natural 20 improves the degree by one step, a natural 1 worsens it.
pub open spec fn natural_adjusted(d: DegreeOfSuccess, natural_roll: int) -> DegreeOfSuccess {
    if natural_roll == 20 {
        shifted(d, 1)
    } else if natural_roll == 1 {
        shifted(d, -1)
    } else {
        d
    }
}

/// The final degree of a check.
pub open spec fn final_degree(total: int, dc: int, natural_roll: int, shifts: int) -> DegreeOfSuccess {
    shifted(natural_adjusted(base_degree(total, dc), natural_roll), shifts)
}

/// What `resolve_check` needs so that no sum overflows.
pub open spec fn check_fits(ctx: CheckContext) -> bool {
    &&& prefix_sums_fit(applied_of(ctx.modifiers@))
    &&& i32::MIN <= ctx.natural_roll + stacked_total(ctx.modifiers@) <= i32::MAX
    &&& ctx.dc + 10 <= i32::MAX
    &&& ctx.dc - 10 >= i32::MIN
    &&& ctx.degree_shifts != i32::MIN
}

/// Resolve a check according to PF2e rules.
///
/// 1. total = natural_roll + resolved modifiers
/// 2. Compare total to DC for base degree
/// 3. Natural 20 improves, natural 1 worsens
/// 4. Apply additional degree shifts
pub fn resolve_check(ctx: &CheckContext) -> (r: CheckResult)
    requires
        check_fits(*ctx),
    ensures
        r.natural_roll == ctx.natural_roll,
        r.dc == ctx.dc,
        r.total == ctx.natural_roll + stacked_total(ctx.modifiers@),
        r.base_degree == base_degree(r.total as int, ctx.dc as int),
        r.final_degree == final_degree(
            r.total as int,
            ctx.dc as int,
            ctx.natural_roll as int,
            ctx.degree_shifts as int,
        ),
{
    let resolved = ctx.modifiers.resolve();
    let total = ctx.natural_roll + resolved.total;

    let base_degree = if total >= ctx.dc + 10 {
        DegreeOfSuccess::CriticalSuccess
    } else if total >= ctx.dc {
        DegreeOfSuccess::Success
    } else if total <= ctx.dc - 10 {
        DegreeOfSuccess::CriticalFailure
    } else {
        DegreeOfSuccess::Failure
    };

    let nat_shifted = if ctx.natural_roll == 20 {
        base_degree.improve()
    } else if ctx.natural_roll == 1 {
        base_degree.worsen()
    } else {
        base_degree
    };

    let final_degree = nat_shifted.shift(ctx.degree_shifts);

    CheckResult { natural_roll: ctx.natural_roll, total, dc: ctx.dc, base_degree, final_degree }
}

// ---------------------------------------------------------------------------
// Laws
// ---------------------------------------------------------------------------

/// Shifting never leaves the scale, and shifting by zero changes nothing.
pub proof fn lemma_shift_zero(d: DegreeOfSuccess)
    ensures
        shifted(d, 0) == d,
        0 <= degree_rank(d) <= 3,
{
}

/// Improving then worsening gives back the degree, except at the top of the
/// scale; worsening then improving, except at the bottom.
pub proof fn lemma_improve_worsen(d: DegreeOfSuccess)
    ensures
        d != DegreeOfSuccess::CriticalSuccess ==> shifted(shifted(d, 1), -1) == d,
        d != DegreeOfSuccess::CriticalFailure ==> shifted(shifted(d, -1), 1) == d,
{
}

/// Shifting is monotone: a better degree stays at least as good after the
/// same shift, and more steps never give a worse degree.
pub proof fn lemma_shift_monotone(d1: DegreeOfSuccess, d2: DegreeOfSuccess, s1: int, s2: int)
    requires
        degree_rank(d1) <= degree_rank(d2),
        s1 <= s2,
    ensures
        degree_rank(shifted(d1, s1)) <= degree_rank(shifted(d2, s2)),
{
}

/// A higher total never gives a worse degree, all else being equal.
pub proof fn lemma_degree_monotone_in_total(t1: int, t2: int, dc: int, natural_roll: int, shifts: int)
    requires
        t1 <= t2,
    ensures
        degree_rank(final_degree(t1, dc, natural_roll, shifts)) <= degree_rank(
            final_degree(t2, dc, natural_roll, shifts),
        ),
{
}

/// A natural 20 gives a degree at least as good as any other roll with the
/// same total, and a natural 1 one at most as good.
pub proof fn lemma_natural_roll_extremes(total: int, dc: int, natural_roll: int, shifts: int)
    ensures
        degree_rank(final_degree(total, dc, natural_roll, shifts)) <= degree_rank(
            final_degree(total, dc, 20, shifts),
        ),
        degree_rank(final_degree(total, dc, 1, shifts)) <= degree_rank(
            final_degree(total, dc, natural_roll, shifts),
        ),
{
}

/// The degree of a check on the scale 0 (critical failure) to 3 (critical
/// success), counted from the margin over the DC: 3 when the total beats the
/// DC by 10 or more, 2 when it meets it, 0 when it misses by 10 or more, 1
/// otherwise. A natural 20 then moves it one step up and a natural 1 one step
/// down, never past the ends of the scale; whatever the base degree, a
/// natural 1 leaves it strictly worse unless it is already a critical
/// failure, and a natural 20 strictly better unless it is already a critical
/// success. The extra shifts move it last, again stopping at the ends.
pub proof fn lemma_degree_by_rank(total: int, dc: int, natural_roll: int, shifts: int)
    ensures
        ({
            let base: int = if total >= dc + 10 {
                3
            } else if total >= dc {
                2
            } else if total <= dc - 10 {
                0
            } else {
                1
            };
            let natural: int = if natural_roll == 20 {
                if base == 3 {
                    3
                } else {
                    base + 1
                }
            } else if natural_roll == 1 {
                if base == 0 {
                    0
                } else {
                    base - 1
                }
            } else {
                base
            };
            let last: int = natural + shifts;
            &&& degree_rank(base_degree(total, dc)) == base
            &&& degree_rank(final_degree(total, dc, natural_roll, 0)) == natural
            &&& degree_rank(final_degree(total, dc, natural_roll, shifts)) == if last < 0 {
                0
            } else if last > 3 {
                3
            } else {
                last
            }
        }),
        natural_roll == 1 && base_degree(total, dc) != DegreeOfSuccess::CriticalFailure ==> degree_rank(
            final_degree(total, dc, 1, 0),
        ) == degree_rank(base_degree(total, dc)) - 1,
        natural_roll == 20 && base_degree(total, dc) != DegreeOfSuccess::CriticalSuccess ==> degree_rank(
            final_degree(total, dc, 20, 0),
        ) == degree_rank(base_degree(total, dc)) + 1,
{
}

} // verus!
