//! # Action Layer (Layer 3)
//!
//! The three-action economy, MAP tracking, and action trait restrictions.
//! These are laws of the field — every entity is subject to them equally.

use vstd::prelude::*;

use crate::mechanics::traits::{GameTrait, TraitCategory};
use crate::text::{i64_to_decimal, int_decimal};

verus! {

/// The cost of an action in PF2e's three-action economy.
#[derive(Debug, Clone, Copy, PartialEq, Eq, Hash, Structural)]
pub enum ActionCost {
    Free,
    Reaction,
    Actions(u32),
}

/// Actions an action cost consumes.
pub open spec fn actions_of(c: ActionCost) -> u32 {
    match c {
        ActionCost::Free | ActionCost::Reaction => 0,
        ActionCost::Actions(n) => n,
    }
}

impl ActionCost {
    pub fn actions_required(&self) -> (r: u32)
        ensures
            r == actions_of(*self),
    {
        match self {
            Self::Free | Self::Reaction => 0,
            Self::Actions(n) => *n,
        }
    }

    pub fn is_reaction(&self) -> (r: bool)
        ensures
            r == (*self == ActionCost::Reaction),
    {
        matches!(self, Self::Reaction)
    }
}

/// MAP state: successive attacks suffer penalties.
#[derive(Debug, Clone, Copy, PartialEq, Eq, Structural)]
pub struct MultipleAttackPenalty {
    pub attacks_made: u32,
}

/// The multiple attack penalty after `attacks` attacks this turn.
pub open spec fn map_penalty(attacks: u32, agile: bool) -> int {
    if attacks == 0 {
        0
    } else if attacks == 1 {
        if agile {
            -4
        } else {
            -5
        }
    } else {
        if agile {
            -8
        } else {
            -10
        }
    }
}

impl MultipleAttackPenalty {
    pub fn new() -> (r: Self)
        ensures
            r.attacks_made == 0,
    {
        Self { attacks_made: 0 }
    }

    pub fn current_penalty(&self, agile: bool) -> (r: i32)
        ensures
            r == map_penalty(self.attacks_made, agile),
    {
        match self.attacks_made {
            0 => 0,
            1 => {
                if agile {
                    -4
                } else {
                    -5
                }
            },
            _ => {
                if agile {
                    -8
                } else {
                    -10
                }
            },
        }
    }

    pub fn record_attack(&mut self)
        requires
            old(self).attacks_made < u32::MAX,
        ensures
            final(self).attacks_made == old(self).attacks_made + 1,
    {
        self.attacks_made += 1;
    }
}

impl Default for MultipleAttackPenalty {
    fn default() -> (r: Self)
        ensures
            r.attacks_made == 0,
    {
        Self::new()
    }
}

/// Tracks available actions for an entity's current turn.
#[derive(Debug, Clone)]
pub struct ActionPool {
    pub base_actions: u32,
    pub actions_lost: u32,
    pub actions_gained: u32,
    pub actions_spent: u32,
    pub reaction_used: bool,
    pub map: MultipleAttackPenalty,
    pub flourish_used: bool,
    pub non_open_action_taken: bool,
}

/// Result of checking action feasibility.
#[derive(Debug, Clone, PartialEq, Eq)]
pub enum ActionFeasibility {
    Available,
    Blocked(String),
}

impl ActionFeasibility {
    pub fn is_available(&self) -> (r: bool)
        ensures
            r == (*self is Available),
    {
        matches!(self, Self::Available)
    }
}

/// `x - y`, or 0 when `y` is larger.
pub open spec fn sat_sub(x: int, y: int) -> int {
    if x >= y {
        x - y
    } else {
        0
    }
}

/// Actions available this turn.
pub open spec fn total_available_of(p: ActionPool) -> int {
    sat_sub(p.base_actions + p.actions_gained, p.actions_lost as int)
}

/// Actions left this turn.
pub open spec fn remaining_of(p: ActionPool) -> int {
    sat_sub(total_available_of(p), p.actions_spent as int)
}

/// The pool's counters can be added without overflow.
pub open spec fn pool_fits(p: ActionPool) -> bool {
    p.base_actions + p.actions_gained <= u32::MAX
}

/// Number of traits of category `c`.
pub open spec fn count_category(ts: Seq<GameTrait>, c: TraitCategory) -> int
    decreases ts.len(),
{
    if ts.len() == 0 {
        0
    } else {
        count_category(ts.drop_last(), c) + if ts.last().category == c {
            1int
        } else {
            0
        }
    }
}

/// Some trait has category `c`.
pub open spec fn has_category(ts: Seq<GameTrait>, c: TraitCategory) -> bool {
    exists|i: int| 0 <= i < ts.len() && ts[i].category == c
}

/// The message for the first trait that blocks the action, if any: a
/// flourish after a flourish, an open action after another action, a press
/// action before any attack.
pub open spec fn trait_block(p: ActionPool, ts: Seq<GameTrait>) -> Option<Seq<char>>
    decreases ts.len(),
{
    if ts.len() == 0 {
        None
    } else {
        match trait_block(p, ts.drop_last()) {
            Some(m) => Some(m),
            None => {
                let c = ts.last().category;
                if c == TraitCategory::Flourish && p.flourish_used {
                    Some("Already used a flourish action this turn"@)
                } else if c == TraitCategory::Open && p.non_open_action_taken {
                    Some("Open actions must be used before other actions"@)
                } else if c == TraitCategory::Press && p.map.attacks_made == 0 {
                    Some("Press actions require a prior attack this turn"@)
                } else {
                    None
                }
            },
        }
    }
}

/// Why the action is blocked, or `None` when it can be taken.
pub open spec fn feasibility_of(p: ActionPool, cost: ActionCost, ts: Seq<GameTrait>) -> Option<
    Seq<char>,
> {
    if cost == ActionCost::Reaction && p.reaction_used {
        Some("Reaction already used this round"@)
    } else if actions_of(cost) > remaining_of(p) {
        Some(
            "Requires "@ + int_decimal(actions_of(cost) as int) + " actions, only "@ + int_decimal(
                remaining_of(p),
            ) + " remaining"@,
        )
    } else {
        trait_block(p, ts)
    }
}

/// The pool after spending an action of `cost` with traits `ts`.
pub open spec fn spent(p: ActionPool, cost: ActionCost, ts: Seq<GameTrait>) -> ActionPool {
    ActionPool {
        actions_spent: (p.actions_spent + actions_of(cost)) as u32,
        reaction_used: p.reaction_used || cost == ActionCost::Reaction,
        non_open_action_taken: p.non_open_action_taken || (cost is Actions && !has_category(
            ts,
            TraitCategory::Open,
        )),
        map: MultipleAttackPenalty {
            attacks_made: (p.map.attacks_made + count_category(ts, TraitCategory::Attack)) as u32,
        },
        flourish_used: p.flourish_used || has_category(ts, TraitCategory::Flourish),
        ..p
    }
}

/// `spend` can update the counters without overflow.
pub open spec fn spend_fits(p: ActionPool, cost: ActionCost, ts: Seq<GameTrait>) -> bool {
    &&& p.actions_spent + actions_of(cost) <= u32::MAX
    &&& p.map.attacks_made + count_category(ts, TraitCategory::Attack) <= u32::MAX
}

proof fn lemma_count_bounds(ts: Seq<GameTrait>, c: TraitCategory)
    ensures
        0 <= count_category(ts, c) <= ts.len(),
    decreases ts.len(),
{
    if ts.len() > 0 {
        lemma_count_bounds(ts.drop_last(), c);
    }
}

impl ActionPool {
    /// A pool at the start of a turn: three actions, nothing used.
    pub open spec fn spec_new_turn() -> ActionPool {
        ActionPool {
            base_actions: 3,
            actions_lost: 0,
            actions_gained: 0,
            actions_spent: 0,
            reaction_used: false,
            map: MultipleAttackPenalty { attacks_made: 0 },
            flourish_used: false,
            non_open_action_taken: false,
        }
    }

    pub fn new_turn() -> (r: Self)
        ensures
            r == ActionPool::spec_new_turn(),
    {
        Self {
            base_actions: 3,
            actions_lost: 0,
            actions_gained: 0,
            actions_spent: 0,
            reaction_used: false,
            map: MultipleAttackPenalty::new(),
            flourish_used: false,
            non_open_action_taken: false,
        }
    }

    pub fn total_available(&self) -> (r: u32)
        requires
            pool_fits(*self),
        ensures
            r == total_available_of(*self),
    {
        (self.base_actions + self.actions_gained).saturating_sub(self.actions_lost)
    }

    pub fn remaining(&self) -> (r: u32)
        requires
            pool_fits(*self),
        ensures
            r == remaining_of(*self),
    {
        self.total_available().saturating_sub(self.actions_spent)
    }

    pub fn can_perform(&self, cost: ActionCost, traits: &[GameTrait]) -> (r: ActionFeasibility)
        requires
            pool_fits(*self),
        ensures
            match r {
                ActionFeasibility::Available => feasibility_of(*self, cost, traits@) is None,
                ActionFeasibility::Blocked(m) => feasibility_of(*self, cost, traits@) == Some(m@),
            },
    {
        if cost.is_reaction() && self.reaction_used {
            return ActionFeasibility::Blocked(String::from_str("Reaction already used this round"));
        }
        let required = cost.actions_required();
        let remaining = self.remaining();
        if required > remaining {
            let msg = String::from_str("Requires ").concat(i64_to_decimal(required as i64).as_str()).concat(
                " actions, only ",
            ).concat(i64_to_decimal(remaining as i64).as_str()).concat(" remaining");
            return ActionFeasibility::Blocked(msg);
        }
        let n = traits.len();
        for i in 0..n
            invariant
                n == traits@.len(),
                trait_block(*self, traits@.take(i as int)) is None,
                !(cost == ActionCost::Reaction && self.reaction_used),
                actions_of(cost) <= remaining_of(*self),
        {
            proof {
                assert(traits@.take(i + 1).drop_last() =~= traits@.take(i as int));
                lemma_trait_block_prefix(*self, traits@, i + 1);
            }
            let category = traits[i].category;
            if category == TraitCategory::Flourish && self.flourish_used {
                return ActionFeasibility::Blocked(
                    String::from_str("Already used a flourish action this turn"),
                );
            } else if category == TraitCategory::Open && self.non_open_action_taken {
                return ActionFeasibility::Blocked(
                    String::from_str("Open actions must be used before other actions"),
                );
            } else if category == TraitCategory::Press && self.map.attacks_made == 0 {
                return ActionFeasibility::Blocked(
                    String::from_str("Press actions require a prior attack this turn"),
                );
            }
        }
        proof {
            assert(traits@.take(n as int) =~= traits@);
        }
        ActionFeasibility::Available
    }

    pub fn spend(&mut self, cost: ActionCost, traits: &[GameTrait])
        requires
            spend_fits(*old(self), cost, traits@),
        ensures
            *final(self) == spent(*old(self), cost, traits@),
    {
        let ghost p = *self;
        let ghost ts = traits@;
        let n = traits.len();
        match cost {
            ActionCost::Free => {},
            ActionCost::Reaction => {
                self.reaction_used = true;
            },
            ActionCost::Actions(k) => {
                self.actions_spent += k;
                let mut any_open = false;
                for i in 0..n
                    invariant
                        n == ts.len(),
                        ts == traits@,
                        any_open == exists|j: int| 0 <= j < i && ts[j].category == TraitCategory::Open,
                {
                    if traits[i].category == TraitCategory::Open {
                        any_open = true;
                    }
                }
                if !any_open {
                    self.non_open_action_taken = true;
                }
            },
        }
        let ghost mid = *self;
        for i in 0..n
            invariant
                n == ts.len(),
                ts == traits@,
                spend_fits(p, cost, ts),
                self.map.attacks_made == mid.map.attacks_made + count_category(ts.take(i as int), TraitCategory::Attack),
                self.map.attacks_made == p.map.attacks_made + count_category(ts.take(i as int), TraitCategory::Attack),
                self.flourish_used == (mid.flourish_used || exists|j: int| 0 <= j < i && ts[j].category == TraitCategory::Flourish),
                self.actions_spent == mid.actions_spent,
                self.reaction_used == mid.reaction_used,
                self.non_open_action_taken == mid.non_open_action_taken,
                self.base_actions == mid.base_actions,
                self.actions_lost == mid.actions_lost,
                self.actions_gained == mid.actions_gained,
        {
            proof {
                assert(ts.take(i + 1).drop_last() =~= ts.take(i as int));
                lemma_count_monotone(ts, i + 1, TraitCategory::Attack);
                lemma_count_bounds(ts.take(i as int), TraitCategory::Attack);
            }
            match traits[i].category {
                TraitCategory::Attack => {
                    self.map.record_attack();
                },
                TraitCategory::Flourish => {
                    self.flourish_used = true;
                },
                _ => {},
            }
        }
        proof {
            assert(ts.take(n as int) =~= ts);
        }
    }

    pub fn reset_for_new_turn(&mut self)
        ensures
            *final(self) == (ActionPool {
                actions_spent: 0,
                actions_lost: 0,
                actions_gained: 0,
                map: MultipleAttackPenalty { attacks_made: 0 },
                flourish_used: false,
                non_open_action_taken: false,
                ..*old(self)
            }),
    {
        self.actions_spent = 0;
        self.actions_lost = 0;
        self.actions_gained = 0;
        self.map = MultipleAttackPenalty::new();
        self.flourish_used = false;
        self.non_open_action_taken = false;
    }

    pub fn new_round(&mut self)
        ensures
            *final(self) == (ActionPool { reaction_used: false, ..*old(self) }),
    {
        self.reaction_used = false;
    }
}

proof fn lemma_trait_block_prefix(p: ActionPool, ts: Seq<GameTrait>, k: int)
    requires
        0 <= k <= ts.len(),
    ensures
        trait_block(p, ts.take(k)) is Some ==> trait_block(p, ts) == trait_block(p, ts.take(k)),
    decreases ts.len() - k,
{
    if k < ts.len() {
        assert(ts.take(k + 1).drop_last() =~= ts.take(k));
        lemma_trait_block_prefix(p, ts, k + 1);
    } else {
        assert(ts.take(k) =~= ts);
    }
}

proof fn lemma_count_monotone(ts: Seq<GameTrait>, k: int, c: TraitCategory)
    requires
        0 <= k <= ts.len(),
    ensures
        count_category(ts.take(k), c) <= count_category(ts, c),
    decreases ts.len() - k,
{
    if k < ts.len() {
        assert(ts.take(k + 1).drop_last() =~= ts.take(k));
        lemma_count_monotone(ts, k + 1, c);
    } else {
        assert(ts.take(k) =~= ts);
    }
}

// ---------------------------------------------------------------------------
// Laws
// ---------------------------------------------------------------------------

/// Spending a feasible action of `n` actions leaves `n` fewer remaining.
pub proof fn lemma_spend_reduces_remaining(p: ActionPool, n: u32, ts: Seq<GameTrait>)
    requires
        pool_fits(p),
        feasibility_of(p, ActionCost::Actions(n), ts) is None,
        spend_fits(p, ActionCost::Actions(n), ts),
    ensures
        remaining_of(spent(p, ActionCost::Actions(n), ts)) == remaining_of(p) - n,
        pool_fits(spent(p, ActionCost::Actions(n), ts)),
{
}

/// A used reaction blocks further reactions until the next round.
pub proof fn lemma_reaction_once_per_round(p: ActionPool, ts: Seq<GameTrait>, us: Seq<GameTrait>)
    ensures
        feasibility_of(spent(p, ActionCost::Reaction, ts), ActionCost::Reaction, us) is Some,
{
}

/// A new turn, after a new round, leaves the pool with its base actions
/// and no restriction from the previous turn.
pub proof fn lemma_reset_restores(p: ActionPool, r: ActionPool, ts: Seq<GameTrait>)
    requires
        r == (ActionPool {
            actions_spent: 0,
            actions_lost: 0,
            actions_gained: 0,
            map: MultipleAttackPenalty { attacks_made: 0 },
            flourish_used: false,
            non_open_action_taken: false,
            reaction_used: false,
            ..p
        }),
    ensures
        remaining_of(r) == p.base_actions,
        feasibility_of(r, ActionCost::Reaction, seq![]) is None,
{
}

/// The multiple attack penalty never improves as attacks accumulate, and
/// agile weapons are penalized no more than others.
pub proof fn lemma_map_monotone(a: u32, b: u32, agile: bool)
    requires
        a <= b,
    ensures
        map_penalty(b, agile) <= map_penalty(a, agile),
        map_penalty(a, false) <= map_penalty(a, true),
        map_penalty(a, agile) <= 0,
{
}


/// The multiple attack penalty: nothing on the first attack, -5 on the
/// second and -10 on every later one; -4 and -8 with an agile weapon.
pub proof fn lemma_map_values(attacks_made: u32, agile: bool)
    ensures
        attacks_made == 0 ==> map_penalty(attacks_made, agile) == 0,
        attacks_made == 1 ==> map_penalty(attacks_made, agile) == if agile {
            -4int
        } else {
            -5int
        },
        attacks_made >= 2 ==> map_penalty(attacks_made, agile) == if agile {
            -8int
        } else {
            -10int
        },
{
}

} // verus!
