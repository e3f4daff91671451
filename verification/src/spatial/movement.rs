//! # Movement Rules (PF2e)
//!
//! Pure functions encoding how movement works: given a movement request
//! plus the state of the world, they produce a deterministic result.

use vstd::prelude::*;

use crate::action::ActionCost;
use crate::condition::types::ConditionEffect;
use crate::spatial::position::Position;
use crate::text::{i64_to_decimal, int_decimal};

verus! {

/// The type of movement being attempted, per PF2e Core Rules.
#[derive(Debug, Clone, Copy, PartialEq, Eq, Hash, Structural)]
pub enum MovementType {
    /// Stride: 1 action, Move trait, provokes reactions, uses full Speed.
    Stride,
    /// Step: 1 action, Move trait, does NOT provoke, exactly 5 feet.
    Step,
    /// Crawl: 1 action, Move trait, 5 feet, requires prone.
    Crawl,
    /// Climb: 1 action, Move trait, uses climb speed or 1/4 base speed.
    Climb,
    /// Swim: 1 action, Move trait, uses swim speed or 1/4 base speed.
    Swim,
    /// Fly: 1 action, Move trait, provokes reactions, uses fly speed.
    Fly,
    /// Burrow: 1 action, Move trait, uses burrow speed.
    Burrow,
}

/// The name of a movement type, as it is shown in messages.
pub open spec fn movement_type_name(t: MovementType) -> Seq<char> {
    match t {
        MovementType::Stride => "Stride"@,
        MovementType::Step => "Step"@,
        MovementType::Crawl => "Crawl"@,
        MovementType::Climb => "Climb"@,
        MovementType::Swim => "Swim"@,
        MovementType::Fly => "Fly"@,
        MovementType::Burrow => "Burrow"@,
    }
}

fn movement_type_label(t: MovementType) -> (r: &'static str)
    ensures
        r@ == movement_type_name(t),
{
    match t {
        MovementType::Stride => "Stride",
        MovementType::Step => "Step",
        MovementType::Crawl => "Crawl",
        MovementType::Climb => "Climb",
        MovementType::Swim => "Swim",
        MovementType::Fly => "Fly",
        MovementType::Burrow => "Burrow",
    }
}

/// A request to validate a movement.
#[derive(Debug, Clone)]
pub struct MovementRequest {
    /// The entity attempting to move (opaque id for logging/tracing).
    pub entity: u64,
    /// What kind of movement is being attempted.
    pub movement_type: MovementType,
    /// The path the entity wants to traverse (ordered list of positions).
    pub path: Vec<Position>,
    /// The entity's base speed in feet (before condition modifiers).
    pub speed_in_feet: u32,
}

/// The result of validating a movement request.
#[derive(Debug, Clone, PartialEq, Eq)]
pub enum MovementValidation {
    /// Movement is permitted.
    Valid {
        /// How many feet of movement the path costs.
        cost_in_feet: u32,
        /// Whether this movement provokes reactions (e.g., Attacks of Opportunity).
        provokes: bool,
    },
    /// Movement is blocked.
    Blocked {
        /// Human-readable reason the movement was denied.
        reason: String,
    },
}

/// Pure rules for PF2e movement. Stateless — all inputs are passed in,
/// all outputs are returned.
pub struct MovementRules;

/// Speed after every `ReduceSpeed` effect, in order, never below 0.
pub open spec fn speed_after(base: int, cs: Seq<ConditionEffect>) -> int
    decreases cs.len(),
{
    if cs.len() == 0 {
        base
    } else {
        let s = speed_after(base, cs.drop_last());
        match cs.last() {
            ConditionEffect::ReduceSpeed(a) => if s >= a {
                s - a
            } else {
                0
            },
            _ => s,
        }
    }
}

/// Some effect prevents movement.
pub open spec fn prevents_movement(cs: Seq<ConditionEffect>) -> bool {
    exists|i: int| 0 <= i < cs.len() && cs[i] is PreventMovement
}

/// Maximum distance in feet a movement type allows at a given speed.
pub open spec fn max_distance_of(t: MovementType, speed: int) -> int {
    match t {
        MovementType::Stride | MovementType::Fly | MovementType::Burrow => speed,
        MovementType::Step | MovementType::Crawl => 5,
        MovementType::Climb | MovementType::Swim => if speed / 4 >= 5 {
            speed / 4
        } else {
            5
        },
    }
}

/// Whether a movement type provokes reactions.
pub open spec fn provokes(t: MovementType) -> bool {
    !(t == MovementType::Step || t == MovementType::Crawl)
}

/// The validation of a request: the reason it is blocked, or the cost and
/// whether it provokes. The checks, in order: a condition that prevents
/// movement; a Step whose path does not cost exactly 5 feet; a path that
/// costs more than the movement type allows at the reduced speed.
pub open spec fn validation_of(
    t: MovementType,
    base_speed: int,
    cost: int,
    cs: Seq<ConditionEffect>,
) -> Result<bool, Seq<char>> {
    let speed = speed_after(base_speed, cs);
    let max = max_distance_of(t, speed);
    if prevents_movement(cs) {
        Err("Cannot move: movement is prevented by a condition"@)
    } else if t == MovementType::Step && cost != 5 {
        Err("Step must cover exactly 5 feet, but path costs "@ + int_decimal(cost) + " feet"@)
    } else if cost > max {
        Err(
            "Movement costs "@ + int_decimal(cost) + " feet but only "@ + int_decimal(max)
                + " feet available (speed "@ + int_decimal(speed) + ", type "@ + movement_type_name(t)
                + ")"@,
        )
    } else {
        Ok(provokes(t))
    }
}

proof fn lemma_speed_after_bounds(base: int, cs: Seq<ConditionEffect>)
    requires
        base >= 0,
    ensures
        0 <= speed_after(base, cs) <= base,
    decreases cs.len(),
{
    if cs.len() > 0 {
        lemma_speed_after_bounds(base, cs.drop_last());
    }
}

impl MovementRules {
    /// Validate a complete movement request against terrain cost and active conditions.
    ///
    /// Checks applied in order:
    /// 1. `PreventMovement` blocks all movement outright.
    /// 2. `ReduceSpeed` reduces available distance.
    /// 3. `Step` must cost exactly 5 feet of raw terrain cost.
    /// 4. Terrain cost must not exceed available distance.
    pub fn validate_movement(
        request: &MovementRequest,
        terrain_cost: u32,
        conditions: &[ConditionEffect],
    ) -> (r: MovementValidation)
        ensures
            match validation_of(
                request.movement_type,
                request.speed_in_feet as int,
                terrain_cost as int,
                conditions@,
            ) {
                Ok(p) => r == MovementValidation::Valid { cost_in_feet: terrain_cost, provokes: p },
                Err(m) => r matches MovementValidation::Blocked { reason } && reason@ == m,
            },
    {
        let n = conditions.len();
        for i in 0..n
            invariant
                n == conditions@.len(),
                forall|j: int| 0 <= j < i ==> !(conditions@[j] is PreventMovement),
        {
            if matches!(conditions[i], ConditionEffect::PreventMovement) {
                return MovementValidation::Blocked {
                    reason: String::from_str("Cannot move: movement is prevented by a condition"),
                };
            }
        }

        let speed = Self::effective_speed(request.speed_in_feet, conditions);
        let max_dist = Self::max_distance(&request.movement_type, speed);

        if request.movement_type == MovementType::Step && terrain_cost != 5 {
            let reason = String::from_str("Step must cover exactly 5 feet, but path costs ").concat(
                i64_to_decimal(terrain_cost as i64).as_str(),
            ).concat(" feet");
            return MovementValidation::Blocked { reason };
        }

        if terrain_cost > max_dist {
            let reason = String::from_str("Movement costs ").concat(
                i64_to_decimal(terrain_cost as i64).as_str(),
            ).concat(" feet but only ").concat(i64_to_decimal(max_dist as i64).as_str()).concat(
                " feet available (speed ",
            ).concat(i64_to_decimal(speed as i64).as_str()).concat(", type ").concat(
                movement_type_label(request.movement_type),
            ).concat(")");
            return MovementValidation::Blocked { reason };
        }

        MovementValidation::Valid {
            cost_in_feet: terrain_cost,
            provokes: Self::provokes_reactions(&request.movement_type),
        }
    }

    /// Calculate effective speed after applying all `ReduceSpeed` condition effects.
    /// Speed cannot be reduced below 0.
    pub fn effective_speed(base_speed: u32, conditions: &[ConditionEffect]) -> (r: u32)
        ensures
            r == speed_after(base_speed as int, conditions@),
    {
        let mut speed = base_speed;
        let n = conditions.len();
        for i in 0..n
            invariant
                n == conditions@.len(),
                speed == speed_after(base_speed as int, conditions@.take(i as int)),
        {
            proof {
                assert(conditions@.take(i + 1).drop_last() =~= conditions@.take(i as int));
            }
            if let ConditionEffect::ReduceSpeed(amount) = &conditions[i] {
                speed = speed.saturating_sub(*amount);
            }
        }
        proof {
            assert(conditions@.take(n as int) =~= conditions@);
        }
        speed
    }

    /// The action cost of a movement type in PF2e's three-action economy.
    /// All standard movement types cost 1 action.
    pub fn action_cost(movement_type: &MovementType) -> (r: ActionCost)
        ensures
            r == ActionCost::Actions(1),
    {
        match movement_type {
            MovementType::Stride
            | MovementType::Step
            | MovementType::Crawl
            | MovementType::Climb
            | MovementType::Swim
            | MovementType::Fly
            | MovementType::Burrow => ActionCost::Actions(1),
        }
    }

    /// Whether a movement type provokes reactions (e.g., Attack of Opportunity).
    /// Step and Crawl specifically do not provoke.
    pub fn provokes_reactions(movement_type: &MovementType) -> (r: bool)
        ensures
            r == provokes(*movement_type),
    {
        match movement_type {
            MovementType::Stride => true,
            MovementType::Step => false,
            MovementType::Crawl => false,
            MovementType::Climb => true,
            MovementType::Swim => true,
            MovementType::Fly => true,
            MovementType::Burrow => true,
        }
    }

    /// Maximum distance (in feet) a movement type allows.
    ///
    /// - Stride / Fly / Burrow: full speed
    /// - Step / Crawl: 5 feet
    /// - Climb / Swim: quarter speed (minimum 5 feet)
    pub fn max_distance(movement_type: &MovementType, speed: u32) -> (r: u32)
        ensures
            r == max_distance_of(*movement_type, speed as int),
    {
        match movement_type {
            MovementType::Stride | MovementType::Fly | MovementType::Burrow => speed,
            MovementType::Step | MovementType::Crawl => 5,
            MovementType::Climb | MovementType::Swim => {
                let q = speed / 4;
                if q >= 5 {
                    q
                } else {
                    5
                }
            },
        }
    }
}

// ---------------------------------------------------------------------------
// Laws
// ---------------------------------------------------------------------------

/// Conditions only ever lower speed, and never below zero.
pub proof fn lemma_speed_never_increases(base: u32, cs: Seq<ConditionEffect>)
    ensures
        0 <= speed_after(base as int, cs) <= base,
{
    lemma_speed_after_bounds(base as int, cs);
}

/// A condition that prevents movement blocks every movement type, whatever
/// the cost or speed.
pub proof fn lemma_prevented_blocks_all(
    t: MovementType,
    speed: int,
    cost: int,
    cs: Seq<ConditionEffect>,
)
    requires
        prevents_movement(cs),
    ensures
        validation_of(t, speed, cost, cs) is Err,
{
}

/// A valid movement never costs more than the distance its type allows,
/// and a Step is valid only at exactly 5 feet.
pub proof fn lemma_valid_within_reach(t: MovementType, speed: int, cost: int, cs: Seq<ConditionEffect>)
    requires
        validation_of(t, speed, cost, cs) is Ok,
    ensures
        cost <= max_distance_of(t, speed_after(speed, cs)),
        t == MovementType::Step ==> cost == 5,
        !prevents_movement(cs),
{
}

/// Lowering the cost of a path never turns a valid Stride into a blocked one.
pub proof fn lemma_stride_cost_monotone(speed: int, c1: int, c2: int, cs: Seq<ConditionEffect>)
    requires
        c1 <= c2,
        validation_of(MovementType::Stride, speed, c2, cs) is Ok,
    ensures
        validation_of(MovementType::Stride, speed, c1, cs) is Ok,
{
}

} // verus!
