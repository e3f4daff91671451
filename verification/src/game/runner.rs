//! The decisions of the sandbox game's turn loop: what a player's move or
//! attack does, how the enemies act, and how a new round begins. Reading
//! input, rendering and pacing belong to the program around the library.

use vstd::prelude::*;
use rand::rngs::StdRng;

use crate::action::{map_penalty, pool_fits, remaining_of, ActionCost, ActionPool, MultipleAttackPenalty};
use crate::condition::rules::effects_of;
use crate::condition::types::ConditionEffect;
use crate::condition::{all_modifiers_in, collect_condition_modifiers, effects_computable, ActiveCondition};
use crate::entity::creature::HitPoints;
use crate::entity::enemy::AttackData;
use crate::game::ai::{cheb, choose_enemy_action, enemy_action, lemma_step_is_closer_neighbor, target_fits, AiAction};
use crate::game::combat::{
    apply_damage, damage_fits, damage_in_range, damaged, is_hit, resolve_strike, strike_description,
    strike_fits, StrikeResult,
};
use crate::game::sandbox::{all_enemies_dead, extends, logged, GameCreature, SandboxEncounter};
use crate::mechanics::check::{final_degree, DegreeOfSuccess};
use crate::mechanics::modifier::{stacked_total, Modifier};
use crate::mechanics::traits::{GameTrait, TraitCategory};
use crate::spatial::grid2d::{in_grid, lemma_grid_adjacency, step_from, Grid2D};
use crate::spatial::position::{dir_offset, steps_fit, Direction, Position};
use crate::spatial::terrain::Terrain;
use crate::spatial::topology::Topology;
use crate::text::{i64_to_decimal, int_decimal, lowercase_of, to_lowercase};

verus! {

// ---------------------------------------------------------------------------
// The state the loop works on
// ---------------------------------------------------------------------------

/// The positions of the living creatures of `cs`, in order.
pub open spec fn living_positions(cs: Seq<GameCreature>) -> Seq<Position>
    decreases cs.len(),
{
    if cs.len() == 0 {
        seq![]
    } else {
        let r = living_positions(cs.drop_last());
        if cs.last().hp.current > 0 {
            r.push(cs.last().position)
        } else {
            r
        }
    }
}

/// The squares taken: the player's and every living enemy's.
pub open spec fn occupied_of(e: SandboxEncounter) -> Seq<Position> {
    seq![e.player.position] + living_positions(e.enemies@)
}

/// Indices of the living creatures of `cs` adjacent to `pos` on `g`, in order.
pub open spec fn adjacent_living(g: Grid2D, pos: Position, cs: Seq<GameCreature>) -> Seq<int>
    decreases cs.len(),
{
    if cs.len() == 0 {
        seq![]
    } else {
        let r = adjacent_living(g, pos, cs.drop_last());
        if cs.last().hp.current > 0 && g.spec_neighbors(pos).contains(cs.last().position) {
            r.push(cs.len() - 1)
        } else {
            r
        }
    }
}

/// A coordinate within 2^30 - 1 of 0: differences of two such
/// coordinates, and steps from one, fit in an `i32`.
pub open spec fn coord_ok(v: int) -> bool {
    -0x3FFF_FFFF <= v <= 0x3FFF_FFFF
}

/// Both coordinates of `p` are in range.
pub open spec fn pos_ok(p: Position) -> bool {
    coord_ok(p.x as int) && coord_ok(p.y as int)
}

/// The grid is well formed and its sides are in coordinate range, and every
/// creature's coordinates are in range (on the grid or off it).
pub open spec fn in_range(e: SandboxEncounter) -> bool {
    &&& e.grid.well_formed()
    &&& e.grid.width <= 0x3FFF_FFFF
    &&& e.grid.height <= 0x3FFF_FFFF
    &&& pos_ok(e.player.position)
    &&& forall|i: int| 0 <= i < e.enemies@.len() ==> pos_ok(#[trigger] e.enemies@[i].position)
}

/// `mods` is a list of modifiers that the conditions `cs` give.
pub open spec fn modifiers_from(cs: Seq<ActiveCondition>, mods: Seq<Modifier>) -> bool {
    exists|ess: Seq<Seq<ConditionEffect>>|
        {
            &&& ess.len() == cs.len()
            &&& forall|i: int|
                0 <= i < ess.len() ==> effects_of(cs[i].condition, cs[i].severity, #[trigger] ess[i])
            &&& mods == all_modifiers_in(ess)
        }
}

/// A Strike with `a` against armor class `ac` can be resolved without
/// overflow under every multiple attack penalty, with the modifiers `mods`.
pub open spec fn attack_fits(a: AttackData, mods: Seq<Modifier>, ac: int) -> bool {
    &&& forall|mp: int| -10 <= mp <= 0 ==> #[trigger] strike_fits(a.attack_bonus as int, mp, mods, ac)
    &&& damage_fits(a, true)
}

/// Every Strike of `c` against armor class `ac` can be resolved without
/// overflow, whatever modifiers its conditions give.
pub open spec fn strikes_fit(c: GameCreature, ac: int) -> bool {
    &&& effects_computable(c.conditions.active@)
    &&& forall|mods: Seq<Modifier>, k: int|
        modifiers_from(c.conditions.active@, mods) && 0 <= k < c.attacks@.len() ==> #[trigger] attack_fits(
            c.attacks@[k],
            mods,
            ac,
        )
}

/// `c` has a Strike, and every Strike of it against armor class `ac` can be
/// resolved without overflow.
pub open spec fn armed(c: GameCreature, ac: int) -> bool {
    c.attacks@.len() > 0 && strikes_fit(c, ac)
}

/// Chebyshev distance from enemy `i` to the player.
pub open spec fn distance_to_player(e: SandboxEncounter, i: int) -> int {
    cheb(e.enemies@[i].position, e.player.position)
}

/// What the enemies' turns rely on: coordinates in range, and every living
/// enemy that can come next to the player this phase (three squares or
/// closer) armed with Strikes that compute without overflow.
pub open spec fn enemy_phase_ok(e: SandboxEncounter) -> bool {
    &&& in_range(e)
    &&& forall|i: int|
        0 <= i < e.enemies@.len() && (#[trigger] e.enemies@[i]).hp.current > 0 && distance_to_player(e, i)
            <= 3 ==> armed(e.enemies@[i], e.player.ac as int)
}

/// Some trait of `a` is named "agile", in any letter case.
pub open spec fn agile(a: AttackData) -> bool {
    exists|i: int| 0 <= i < a.traits@.len() && lowercase_of(#[trigger] a.traits@[i].name@) == "agile"@
}

/// The pool after a one-action move.
pub open spec fn after_move_action(p: ActionPool) -> ActionPool {
    ActionPool { actions_spent: (p.actions_spent + 1) as u32, non_open_action_taken: true, ..p }
}

/// The pool after a one-action attack.
pub open spec fn after_attack_action(p: ActionPool) -> ActionPool {
    ActionPool {
        actions_spent: (p.actions_spent + 1) as u32,
        non_open_action_taken: true,
        map: MultipleAttackPenalty { attacks_made: (p.map.attacks_made + 1) as u32 },
        ..p
    }
}

// ---------------------------------------------------------------------------
// Looking around
// ---------------------------------------------------------------------------

/// The squares taken: the player's, then every living enemy's.
pub fn get_occupied_positions(encounter: &SandboxEncounter) -> (r: Vec<Position>)
    ensures
        r@ == occupied_of(*encounter),
{
    let mut positions: Vec<Position> = Vec::new();
    positions.push(encounter.player.position);
    let n = encounter.enemies.len();
    for i in 0..n
        invariant
            n == encounter.enemies@.len(),
            positions@ == seq![encounter.player.position] + living_positions(
                encounter.enemies@.take(i as int),
            ),
    {
        proof {
            assert(encounter.enemies@.take(i + 1).drop_last() =~= encounter.enemies@.take(i as int));
        }
        if encounter.enemies[i].is_alive() {
            positions.push(encounter.enemies[i].position);
        }
        proof {
            assert(positions@ =~= seq![encounter.player.position] + living_positions(
                encounter.enemies@.take(i + 1),
            ));
        }
    }
    proof {
        assert(encounter.enemies@.take(n as int) =~= encounter.enemies@);
    }
    positions
}

/// The living enemies next to `pos`, as (index, name) pairs in order.
pub fn find_adjacent_enemies(pos: Position, enemies: &[GameCreature], grid: &Grid2D) -> (r: Vec<
    (usize, String),
>)
    requires
        grid.well_formed(),
        grid.neighbors_ok(pos),
    ensures
        r@.len() == adjacent_living(*grid, pos, enemies@).len(),
        forall|k: int|
            0 <= k < r@.len() ==> #[trigger] r@[k].0 == adjacent_living(*grid, pos, enemies@)[k]
                && r@[k].1@ == enemies@[r@[k].0 as int].name@,
{
    let mut out: Vec<(usize, String)> = Vec::new();
    let n = enemies.len();
    for i in 0..n
        invariant
            n == enemies@.len(),
            grid.well_formed(),
            grid.neighbors_ok(pos),
            out@.len() == adjacent_living(*grid, pos, enemies@.take(i as int)).len(),
            forall|k: int|
                0 <= k < out@.len() ==> #[trigger] out@[k].0 == adjacent_living(
                    *grid,
                    pos,
                    enemies@.take(i as int),
                )[k] && 0 <= out@[k].0 < i && out@[k].1@ == enemies@[out@[k].0 as int].name@,
    {
        proof {
            assert(enemies@.take(i + 1).drop_last() =~= enemies@.take(i as int));
            assert(enemies@.take(i + 1).last() == enemies@[i as int]);
        }
        if enemies[i].is_alive() && grid.is_adjacent(pos, enemies[i].position) {
            out.push((i, enemies[i].name.clone()));
        }
    }
    proof {
        assert(enemies@.take(n as int) =~= enemies@);
    }
    out
}

// ---------------------------------------------------------------------------
// The player's turn
// ---------------------------------------------------------------------------

/// Why a step of the player in direction `d` is refused, if it is.
pub open spec fn move_refusal(e: SandboxEncounter, d: Direction) -> Option<Seq<char>> {
    let p = step_from(e.player.position, d);
    if !in_grid(e.grid.width as int, e.grid.height as int, p) {
        Some("You can't move there — it's out of bounds!"@)
    } else if (e.grid.terrain_view())(p) == Terrain::Impassable {
        Some("You can't move there — the way is blocked!"@)
    } else if occupied_of(e).contains(p) {
        Some("You can't move there — the space is occupied!"@)
    } else {
        None
    }
}

/// The remark on the terrain a creature moved into.
pub open spec fn terrain_note(t: Terrain) -> Seq<char> {
    match t {
        Terrain::Difficult => " (difficult terrain)"@,
        Terrain::Hazardous => " (hazardous!)"@,
        _ => seq![],
    }
}

/// The log line for the player's step from `from` to `to` onto terrain `t`.
pub open spec fn move_report(from: Position, to: Position, t: Terrain) -> Seq<char> {
    "You move from ("@ + int_decimal(from.x as int) + ","@ + int_decimal(from.y as int) + ") to ("@
        + int_decimal(to.x as int) + ","@ + int_decimal(to.y as int) + ")"@ + terrain_note(t) + "."@
}

proof fn lemma_one_trait_spent(p: ActionPool, t: GameTrait)
    ensures
        crate::action::count_category(seq![t], TraitCategory::Attack) == (if t.category
            == TraitCategory::Attack {
            1int
        } else {
            0int
        }),
        t.category == TraitCategory::Move ==> crate::action::spent(
            p,
            ActionCost::Actions(1),
            seq![t],
        ) == after_move_action(p),
        t.category == TraitCategory::Attack ==> crate::action::spent(
            p,
            ActionCost::Actions(1),
            seq![t],
        ) == after_attack_action(p),
{
    let ts = seq![t];
    assert(ts.drop_last() =~= Seq::<GameTrait>::empty());
    assert(ts[0] == t);
    reveal_with_fuel(crate::action::count_category, 2);
}

/// The player steps one square in `direction`: refused (with a message)
/// off the grid, into a wall or onto a creature; otherwise it costs one
/// action with the move trait.
pub fn handle_player_move(encounter: &mut SandboxEncounter, direction: Direction)
    requires
        old(encounter).grid.well_formed(),
        old(encounter).grid.neighbors_ok(old(encounter).player.position),
        old(encounter).player.actions.actions_spent < u32::MAX,
    ensures
        final(encounter).grid == old(encounter).grid,
        final(encounter).enemies == old(encounter).enemies,
        final(encounter).round == old(encounter).round,
        final(encounter).is_player_turn == old(encounter).is_player_turn,
        final(encounter).current_enemy_index == old(encounter).current_enemy_index,
        match move_refusal(*old(encounter), direction) {
            Some(m) => {
                &&& final(encounter).player == old(encounter).player
                &&& logged(old(encounter).combat_log@, final(encounter).combat_log@, m)
            },
            None => {
                let to = step_from(old(encounter).player.position, direction);
                &&& final(encounter).player == (GameCreature {
                    position: to,
                    actions: after_move_action(old(encounter).player.actions),
                    ..old(encounter).player
                })
                &&& logged(
                    old(encounter).combat_log@,
                    final(encounter).combat_log@,
                    move_report(
                        old(encounter).player.position,
                        to,
                        (old(encounter).grid.terrain_view())(to),
                    ),
                )
            },
        },
        in_range(*old(encounter)) ==> in_range(*final(encounter)),
{
    let (dx, dy) = direction.offset();
    let new_pos = encounter.player.position.offset(dx, dy);
    proof {
        assert(new_pos == step_from(encounter.player.position, direction));
        assert(encounter.grid.spec_in_bounds(new_pos) == in_grid(
            encounter.grid.width as int,
            encounter.grid.height as int,
            new_pos,
        ));
    }
    if !encounter.grid.in_bounds(new_pos) {
        encounter.log(String::from_str("You can't move there — it's out of bounds!"));
        return;
    }
    let terrain = encounter.grid.terrain_at(new_pos);
    if terrain == Terrain::Impassable {
        encounter.log(String::from_str("You can't move there — the way is blocked!"));
        return;
    }
    let occupied = get_occupied_positions(encounter);
    if contains(&occupied, new_pos) {
        encounter.log(String::from_str("You can't move there — the space is occupied!"));
        return;
    }
    // Every passable terrain costs a single action to step into.
    let action_cost: u32 = match terrain.movement_cost() {
        Some(_) => 1,
        None => {
            encounter.log(String::from_str("You can't move there — impassable!"));
            return;
        },
    };
    let move_traits = vec![GameTrait::move_trait()];
    proof {
        lemma_one_trait_spent(encounter.player.actions, move_traits@[0]);
        assert(move_traits@ =~= seq![move_traits@[0]]);
    }
    encounter.player.actions.spend(ActionCost::Actions(action_cost), move_traits.as_slice());
    let old_pos = encounter.player.position;
    encounter.player.position = new_pos;
    let note = if terrain == Terrain::Difficult {
        " (difficult terrain)"
    } else if terrain == Terrain::Hazardous {
        " (hazardous!)"
    } else {
        ""
    };
    proof {
        reveal_strlit("");
    }
    let msg = String::from_str("You move from (").concat(i64_to_decimal(old_pos.x as i64).as_str()).concat(
        ",",
    ).concat(i64_to_decimal(old_pos.y as i64).as_str()).concat(") to (").concat(
        i64_to_decimal(new_pos.x as i64).as_str(),
    ).concat(",").concat(i64_to_decimal(new_pos.y as i64).as_str()).concat(")").concat(note).concat(
        ".",
    );
    encounter.log(msg);
}

/// Whether `p` occurs in `v`.
fn contains(v: &Vec<Position>, p: Position) -> (r: bool)
    ensures
        r == v@.contains(p),
{
    let n = v.len();
    for i in 0..n
        invariant
            n == v@.len(),
            forall|j: int| 0 <= j < i ==> v@[j] != p,
    {
        if v[i] == p {
            return true;
        }
    }
    false
}

/// What the turn loop does next.
#[derive(Debug, Clone, Copy, PartialEq, Eq, Structural)]
pub enum GameStep {
    /// Every enemy is dead: the player has won.
    Victory,
    /// The player is down.
    Defeat,
    /// The player's turn with actions left: the player chooses one.
    PlayerChooses,
    /// The player's turn with no action left: the turn passes.
    PlayerOutOfActions,
    /// The enemies act, then a new round begins.
    EnemyPhase,
}

/// The loop's next step in `e`: victory and defeat first, then whose turn
/// it is, and on the player's turn whether an action is left.
pub open spec fn game_step_of(e: SandboxEncounter) -> GameStep {
    if all_enemies_dead(e.enemies@) {
        GameStep::Victory
    } else if e.player.hp.current <= 0 {
        GameStep::Defeat
    } else if e.is_player_turn {
        if remaining_of(e.player.actions) == 0 {
            GameStep::PlayerOutOfActions
        } else {
            GameStep::PlayerChooses
        }
    } else {
        GameStep::EnemyPhase
    }
}

/// Decides what the turn loop does next.
pub fn next_game_step(encounter: &SandboxEncounter) -> (r: GameStep)
    requires
        pool_fits(encounter.player.actions),
    ensures
        r == game_step_of(*encounter),
{
    if encounter.player_won() {
        GameStep::Victory
    } else if encounter.player_lost() {
        GameStep::Defeat
    } else if encounter.is_player_turn {
        if encounter.player.actions.remaining() == 0 {
            GameStep::PlayerOutOfActions
        } else {
            GameStep::PlayerChooses
        }
    } else {
        GameStep::EnemyPhase
    }
}

/// The player ends the turn.
pub fn end_player_turn(encounter: &mut SandboxEncounter)
    ensures
        *final(encounter) == (SandboxEncounter {
            is_player_turn: false,
            combat_log: final(encounter).combat_log,
            ..*old(encounter)
        }),
        logged(old(encounter).combat_log@, final(encounter).combat_log@, "You end your turn."@),
{
    encounter.log(String::from_str("You end your turn."));
    encounter.is_player_turn = false;
}

/// The player's turn is over for want of actions.
pub fn pass_player_turn(encounter: &mut SandboxEncounter)
    ensures
        *final(encounter) == (SandboxEncounter { is_player_turn: false, ..*old(encounter) }),
{
    encounter.is_player_turn = false;
}

/// After every enemy has acted a new round begins: the round number grows,
/// the player's actions and reaction come back, and the log says so.
pub fn start_new_round(encounter: &mut SandboxEncounter)
    requires
        old(encounter).round < u32::MAX,
    ensures
        final(encounter).round == old(encounter).round + 1,
        final(encounter).is_player_turn,
        final(encounter).player == (GameCreature {
            actions: ActionPool {
                actions_spent: 0,
                actions_lost: 0,
                actions_gained: 0,
                map: MultipleAttackPenalty { attacks_made: 0 },
                flourish_used: false,
                non_open_action_taken: false,
                reaction_used: false,
                ..old(encounter).player.actions
            },
            ..old(encounter).player
        }),
        final(encounter).grid == old(encounter).grid,
        final(encounter).enemies == old(encounter).enemies,
        final(encounter).current_enemy_index == old(encounter).current_enemy_index,
        logged(
            old(encounter).combat_log@,
            final(encounter).combat_log@,
            "--- Round "@ + int_decimal(old(encounter).round + 1) + " begins! ---"@,
        ),
{
    encounter.round = encounter.round + 1;
    encounter.is_player_turn = true;
    encounter.player.actions.reset_for_new_turn();
    encounter.player.actions.new_round();
    let msg = String::from_str("--- Round ").concat(i64_to_decimal(encounter.round as i64).as_str()).concat(
        " begins! ---",
    );
    encounter.log(msg);
}

// ---------------------------------------------------------------------------
// Strikes in the turn loop
// ---------------------------------------------------------------------------

/// `r` is an outcome of a Strike with `a` at multiple attack penalty `map`,
/// with the modifiers `mods`, against armor class `ac`.
pub open spec fn strike_outcome_with(
    r: StrikeResult,
    a: AttackData,
    map: int,
    mods: Seq<Modifier>,
    ac: int,
) -> bool {
    &&& 1 <= r.natural_roll <= 20
    &&& r.check_total == r.natural_roll + a.attack_bonus + map + stacked_total(mods)
    &&& r.degree == final_degree(r.check_total as int, ac, r.natural_roll as int, 0)
    &&& !is_hit(r.degree) ==> r.damage_dealt == 0
    &&& is_hit(r.degree) ==> damage_in_range(
        a,
        r.degree == DegreeOfSuccess::CriticalSuccess,
        r.damage_dealt as int,
    )
    &&& r.description@ == strike_description(
        a.name@,
        r.natural_roll as int,
        r.check_total as int,
        ac,
        r.degree,
        r.damage_dealt as int,
        a.damage_type@,
    )
}

/// `r` is an outcome of a Strike with `a` at multiple attack penalty `map`
/// by a creature with conditions `cs`, against armor class `ac`.
pub open spec fn strike_outcome(
    r: StrikeResult,
    a: AttackData,
    map: int,
    cs: Seq<ActiveCondition>,
    ac: int,
) -> bool {
    exists|mods: Seq<Modifier>| #[trigger] modifiers_from(cs, mods) && strike_outcome_with(r, a, map, mods, ac)
}

/// The hit points of a creature struck by `r`.
pub open spec fn hp_after(hp: HitPoints, r: StrikeResult) -> HitPoints {
    if r.damage_dealt > 0 {
        damaged(hp, r.damage_dealt as int)
    } else {
        hp
    }
}

/// The target of `r` fell: it took damage and is at 0 hit points or below.
pub open spec fn fell(hp: HitPoints, r: StrikeResult) -> bool {
    r.damage_dealt > 0 && hp_after(hp, r).current <= 0
}

/// The log after a Strike `r`: the report line, then, if the target fell,
/// the line `fallen`.
pub open spec fn strike_logged(
    log0: Seq<String>,
    log1: Seq<String>,
    report: Seq<char>,
    fallen: Seq<char>,
    died: bool,
    r: StrikeResult,
) -> bool {
    &&& log1.len() == log0.len() + 1 + (if died {
        1int
    } else {
        0int
    })
    &&& log1.take(log0.len() as int) == log0
    &&& log1[log0.len() as int]@ == report + r.description@
    &&& died ==> log1[log0.len() + 1int]@ == fallen
}

/// Why the player's attack on enemy `idx` is refused, if it is.
pub open spec fn attack_refusal(e: SandboxEncounter, idx: int) -> Option<Seq<char>> {
    if idx >= e.enemies@.len() {
        Some("Invalid target!"@)
    } else if e.enemies@[idx].hp.current <= 0 {
        Some("That enemy is already dead!"@)
    } else if !e.grid.spec_neighbors(e.player.position).contains(e.enemies@[idx].position) {
        Some("That enemy is not adjacent to you!"@)
    } else if e.player.attacks@.len() == 0 {
        Some("You have no attacks!"@)
    } else {
        None
    }
}

/// Whether some trait of `attack` is named "agile", in any letter case.
fn is_agile(attack: &AttackData) -> (r: bool)
    ensures
        r == agile(*attack),
{
    let n = attack.traits.len();
    for i in 0..n
        invariant
            n == attack.traits@.len(),
            forall|j: int| 0 <= j < i ==> lowercase_of(#[trigger] attack.traits@[j].name@) != "agile"@,
    {
        let lower = to_lowercase(attack.traits[i].name.as_str());
        if lower == String::from_str("agile") {
            return true;
        }
    }
    false
}

/// Report the player's Strike `result` on enemy `enemy_idx` and apply its
/// damage; a slain enemy gets a line of its own.
pub fn apply_player_strike(
    encounter: &mut SandboxEncounter,
    enemy_idx: usize,
    attack_name: &str,
    result: &StrikeResult,
)
    requires
        enemy_idx < old(encounter).enemies@.len(),
        old(encounter).enemies@[enemy_idx as int].hp.current > 0,
    ensures
        ({
            let t = old(encounter).enemies@[enemy_idx as int];
            &&& final(encounter).enemies@ == old(encounter).enemies@.update(
                enemy_idx as int,
                GameCreature { hp: hp_after(t.hp, *result), ..t },
            )
            &&& strike_logged(
                old(encounter).combat_log@,
                final(encounter).combat_log@,
                "You attack "@ + t.name@ + " with "@ + attack_name@ + " — "@,
                t.name@ + " is slain!"@,
                fell(t.hp, *result),
                *result,
            )
        }),
        final(encounter).grid == old(encounter).grid,
        final(encounter).player == old(encounter).player,
        final(encounter).round == old(encounter).round,
        final(encounter).is_player_turn == old(encounter).is_player_turn,
        final(encounter).current_enemy_index == old(encounter).current_enemy_index,
{
    let ghost log0 = encounter.combat_log@;
    let target_name = encounter.enemies[enemy_idx].name.clone();
    let msg = String::from_str("You attack ").concat(target_name.as_str()).concat(" with ").concat(
        attack_name,
    ).concat(" — ").concat(result.description.as_str());
    encounter.log(msg);
    if result.damage_dealt > 0 {
        let died = apply_damage(&mut encounter.enemies[enemy_idx].hp, result.damage_dealt);
        if died {
            encounter.log(target_name.concat(" is slain!"));
            proof {
                assert(encounter.combat_log@.take(log0.len() as int) =~= log0);
            }
        }
    }
    proof {
        let t = old(encounter).enemies@[enemy_idx as int];
        assert(encounter.enemies@ =~= old(encounter).enemies@.update(
            enemy_idx as int,
            GameCreature { hp: hp_after(t.hp, *result), ..t },
        ));
    }
}

/// The player Strikes enemy `enemy_idx` with the first of their attacks:
/// refused (with a message) for a bad index, a dead enemy, an enemy out of
/// reach or a player without attacks; otherwise it costs one action with
/// the attack trait, the Strike is rolled and reported, and its damage
/// applied.
pub fn handle_player_attack(encounter: &mut SandboxEncounter, enemy_idx: usize, rng: &mut StdRng)
    requires
        old(encounter).grid.well_formed(),
        old(encounter).grid.neighbors_ok(old(encounter).player.position),
        old(encounter).player.actions.actions_spent < u32::MAX,
        old(encounter).player.actions.map.attacks_made < u32::MAX,
        enemy_idx < old(encounter).enemies@.len() ==> strikes_fit(
            old(encounter).player,
            old(encounter).enemies@[enemy_idx as int].ac as int,
        ),
    ensures
        final(encounter).grid == old(encounter).grid,
        final(encounter).round == old(encounter).round,
        final(encounter).is_player_turn == old(encounter).is_player_turn,
        final(encounter).current_enemy_index == old(encounter).current_enemy_index,
        match attack_refusal(*old(encounter), enemy_idx as int) {
            Some(m) => {
                &&& final(encounter).player == old(encounter).player
                &&& final(encounter).enemies == old(encounter).enemies
                &&& logged(old(encounter).combat_log@, final(encounter).combat_log@, m)
            },
            None => {
                let a = old(encounter).player.attacks@[0];
                let t = old(encounter).enemies@[enemy_idx as int];
                let map = map_penalty(old(encounter).player.actions.map.attacks_made, agile(a));
                &&& final(encounter).player == (GameCreature {
                    actions: after_attack_action(old(encounter).player.actions),
                    ..old(encounter).player
                })
                &&& exists|r: StrikeResult|
                    {
                        &&& #[trigger] strike_outcome(
                            r,
                            a,
                            map,
                            old(encounter).player.conditions.active@,
                            t.ac as int,
                        )
                        &&& final(encounter).enemies@ == old(encounter).enemies@.update(
                            enemy_idx as int,
                            GameCreature { hp: hp_after(t.hp, r), ..t },
                        )
                        &&& strike_logged(
                            old(encounter).combat_log@,
                            final(encounter).combat_log@,
                            "You attack "@ + t.name@ + " with "@ + a.name@ + " — "@,
                            t.name@ + " is slain!"@,
                            fell(t.hp, r),
                            r,
                        )
                    }
            },
        },
{
    if enemy_idx >= encounter.enemies.len() {
        encounter.log(String::from_str("Invalid target!"));
        return;
    }
    if !encounter.enemies[enemy_idx].is_alive() {
        encounter.log(String::from_str("That enemy is already dead!"));
        return;
    }
    if !encounter.grid.is_adjacent(encounter.player.position, encounter.enemies[enemy_idx].position) {
        encounter.log(String::from_str("That enemy is not adjacent to you!"));
        return;
    }
    if encounter.player.attacks.len() == 0 {
        encounter.log(String::from_str("You have no attacks!"));
        return;
    }
    let attack = encounter.player.attacks[0].clone();
    let is_agile = is_agile(&attack);
    let map_penalty = encounter.player.actions.map.current_penalty(is_agile);
    let condition_mods = collect_condition_modifiers(&encounter.player.conditions);
    let ghost a = encounter.player.attacks@[0];
    let ghost cs = encounter.player.conditions.active@;
    let ghost ac = encounter.enemies@[enemy_idx as int].ac as int;
    proof {
        assert(attack.traits@ =~= a.traits@);
        assert(agile(attack) == agile(a));
        assert(modifiers_from(cs, condition_mods@));
        assert(attack_fits(a, condition_mods@, ac));
        assert(strike_fits(a.attack_bonus as int, map_penalty as int, condition_mods@, ac));
    }
    let attack_traits = vec![GameTrait::attack()];
    proof {
        lemma_one_trait_spent(encounter.player.actions, attack_traits@[0]);
        assert(attack_traits@ =~= seq![attack_traits@[0]]);
    }
    encounter.player.actions.spend(ActionCost::Actions(1), attack_traits.as_slice());
    let target_ac = encounter.enemies[enemy_idx].ac;
    let result = resolve_strike(
        attack.attack_bonus,
        target_ac,
        map_penalty,
        condition_mods.as_slice(),
        &attack,
        rng,
    );
    proof {
        assert(strike_outcome_with(result, a, map_penalty as int, condition_mods@, ac));
        assert(strike_outcome(result, a, map_penalty as int, cs, ac));
    }
    apply_player_strike(encounter, enemy_idx, attack.name.as_str(), &result);
}

// ---------------------------------------------------------------------------
// The enemies' turns
// ---------------------------------------------------------------------------

/// `c1` is `c0` after a turn of its own: only its position and its actions
/// may differ.
pub open spec fn moved_and_acted(c0: GameCreature, c1: GameCreature) -> bool {
    c1 == GameCreature { position: c1.position, actions: c1.actions, ..c0 }
}

/// What the enemies' turns can change from `a` to `b`: enemies move and
/// spend actions, dead enemies stay as they are, the player can only lose
/// hit points, and the log only grows.
pub open spec fn enemy_phase(a: SandboxEncounter, b: SandboxEncounter) -> bool {
    &&& b.grid == a.grid
    &&& b.round == a.round
    &&& b.is_player_turn == a.is_player_turn
    &&& b.current_enemy_index == a.current_enemy_index
    &&& b.enemies@.len() == a.enemies@.len()
    &&& forall|j: int| 0 <= j < a.enemies@.len() ==> moved_and_acted(#[trigger] a.enemies@[j], b.enemies@[j])
    &&& forall|j: int|
        0 <= j < a.enemies@.len() && (#[trigger] a.enemies@[j]).hp.current <= 0 ==> b.enemies@[j]
            == a.enemies@[j]
    &&& b.player == (GameCreature { hp: b.player.hp, ..a.player })
    &&& b.player.hp.max == a.player.hp.max
    &&& b.player.hp.current <= a.player.hp.current
    &&& extends(a.combat_log@, b.combat_log@)
}

/// The attack used for a requested index: the index itself, or the last
/// attack when the index is past the end.
pub open spec fn strike_index(idx: int, len: int) -> int {
    if idx < len {
        idx
    } else {
        len - 1
    }
}

/// Enemy `i` steps to `pos`, spending an action with the move trait.
pub fn enemy_move(encounter: &mut SandboxEncounter, i: usize, pos: Position)
    requires
        i < old(encounter).enemies@.len(),
        old(encounter).enemies@[i as int].actions.actions_spent < u32::MAX,
    ensures
        ({
            let c = old(encounter).enemies@[i as int];
            &&& final(encounter).enemies@ == old(encounter).enemies@.update(
                i as int,
                GameCreature { position: pos, actions: after_move_action(c.actions), ..c },
            )
            &&& logged(
                old(encounter).combat_log@,
                final(encounter).combat_log@,
                c.name@ + " moves to ("@ + int_decimal(pos.x as int) + ","@ + int_decimal(pos.y as int)
                    + ")."@,
            )
        }),
        final(encounter).grid == old(encounter).grid,
        final(encounter).player == old(encounter).player,
        final(encounter).round == old(encounter).round,
        final(encounter).is_player_turn == old(encounter).is_player_turn,
        final(encounter).current_enemy_index == old(encounter).current_enemy_index,
{
    let move_traits = vec![GameTrait::move_trait()];
    proof {
        lemma_one_trait_spent(encounter.enemies@[i as int].actions, move_traits@[0]);
        assert(move_traits@ =~= seq![move_traits@[0]]);
    }
    encounter.enemies[i].actions.spend(ActionCost::Actions(1), move_traits.as_slice());
    encounter.enemies[i].position = pos;
    let msg = encounter.enemies[i].name.clone().concat(" moves to (").concat(
        i64_to_decimal(pos.x as i64).as_str(),
    ).concat(",").concat(i64_to_decimal(pos.y as i64).as_str()).concat(").");
    encounter.log(msg);
    proof {
        let c = old(encounter).enemies@[i as int];
        assert(encounter.enemies@ =~= old(encounter).enemies@.update(
            i as int,
            GameCreature { position: pos, actions: after_move_action(c.actions), ..c },
        ));
    }
}

/// Report enemy `i`'s Strike `result` on the player and apply its damage.
/// Returns whether the player fell; a fall gets a line of its own.
pub fn apply_enemy_strike(
    encounter: &mut SandboxEncounter,
    i: usize,
    attack_name: &str,
    result: &StrikeResult,
) -> (r: bool)
    requires
        i < old(encounter).enemies@.len(),
        old(encounter).player.hp.current > 0,
    ensures
        r == fell(old(encounter).player.hp, *result),
        final(encounter).player == (GameCreature {
            hp: hp_after(old(encounter).player.hp, *result),
            ..old(encounter).player
        }),
        strike_logged(
            old(encounter).combat_log@,
            final(encounter).combat_log@,
            old(encounter).enemies@[i as int].name@ + " attacks you with "@ + attack_name@ + " — "@,
            "You have fallen!"@,
            r,
            *result,
        ),
        final(encounter).grid == old(encounter).grid,
        final(encounter).enemies == old(encounter).enemies,
        final(encounter).round == old(encounter).round,
        final(encounter).is_player_turn == old(encounter).is_player_turn,
        final(encounter).current_enemy_index == old(encounter).current_enemy_index,
{
    let ghost log0 = encounter.combat_log@;
    let msg = encounter.enemies[i].name.clone().concat(" attacks you with ").concat(attack_name).concat(
        " — ",
    ).concat(result.description.as_str());
    encounter.log(msg);
    if result.damage_dealt > 0 {
        let died = apply_damage(&mut encounter.player.hp, result.damage_dealt);
        if died {
            encounter.log(String::from_str("You have fallen!"));
            proof {
                assert(encounter.combat_log@.take(log0.len() as int) =~= log0);
            }
            return true;
        }
    }
    false
}

/// Enemy `i` Strikes the player with the attack at `attack_index` (the
/// last one when the index is past the end): it costs one action with the
/// attack trait, the Strike is rolled and reported, and its damage applied.
/// Returns whether the player fell.
pub fn enemy_strike(encounter: &mut SandboxEncounter, i: usize, attack_index: usize, rng: &mut StdRng) -> (r: bool)
    requires
        i < old(encounter).enemies@.len(),
        old(encounter).enemies@[i as int].attacks@.len() > 0,
        strikes_fit(old(encounter).enemies@[i as int], old(encounter).player.ac as int),
        old(encounter).enemies@[i as int].actions.actions_spent < u32::MAX,
        old(encounter).enemies@[i as int].actions.map.attacks_made < u32::MAX,
        old(encounter).player.hp.current > 0,
    ensures
        ({
            let c = old(encounter).enemies@[i as int];
            let a = c.attacks@[strike_index(attack_index as int, c.attacks@.len() as int)];
            let map = map_penalty(c.actions.map.attacks_made, agile(a));
            &&& final(encounter).enemies@ == old(encounter).enemies@.update(
                i as int,
                GameCreature { actions: after_attack_action(c.actions), ..c },
            )
            &&& exists|s: StrikeResult|
                {
                    &&& #[trigger] strike_outcome(
                        s,
                        a,
                        map,
                        c.conditions.active@,
                        old(encounter).player.ac as int,
                    )
                    &&& r == fell(old(encounter).player.hp, s)
                    &&& final(encounter).player == (GameCreature {
                        hp: hp_after(old(encounter).player.hp, s),
                        ..old(encounter).player
                    })
                    &&& strike_logged(
                        old(encounter).combat_log@,
                        final(encounter).combat_log@,
                        c.name@ + " attacks you with "@ + a.name@ + " — "@,
                        "You have fallen!"@,
                        r,
                        s,
                    )
                }
        }),
        final(encounter).grid == old(encounter).grid,
        final(encounter).round == old(encounter).round,
        final(encounter).is_player_turn == old(encounter).is_player_turn,
        final(encounter).current_enemy_index == old(encounter).current_enemy_index,
{
    let n = encounter.enemies[i].attacks.len();
    let attack_idx = if attack_index < n - 1 {
        attack_index
    } else {
        n - 1
    };
    let attack = encounter.enemies[i].attacks[attack_idx].clone();
    let is_agile = is_agile(&attack);
    let map_penalty = encounter.enemies[i].actions.map.current_penalty(is_agile);
    let condition_mods = collect_condition_modifiers(&encounter.enemies[i].conditions);
    let ghost c = encounter.enemies@[i as int];
    let ghost a = c.attacks@[attack_idx as int];
    let ghost ac = encounter.player.ac as int;
    proof {
        assert(attack.traits@ =~= a.traits@);
        assert(agile(attack) == agile(a));
        assert(modifiers_from(c.conditions.active@, condition_mods@));
        assert(attack_fits(a, condition_mods@, ac));
        assert(strike_fits(a.attack_bonus as int, map_penalty as int, condition_mods@, ac));
    }
    let attack_traits = vec![GameTrait::attack()];
    proof {
        lemma_one_trait_spent(c.actions, attack_traits@[0]);
        assert(attack_traits@ =~= seq![attack_traits@[0]]);
    }
    encounter.enemies[i].actions.spend(ActionCost::Actions(1), attack_traits.as_slice());
    proof {
        assert(encounter.enemies@ =~= old(encounter).enemies@.update(
            i as int,
            GameCreature { actions: after_attack_action(c.actions), ..c },
        ));
    }
    let target_ac = encounter.player.ac;
    let result = resolve_strike(
        attack.attack_bonus,
        target_ac,
        map_penalty,
        condition_mods.as_slice(),
        &attack,
        rng,
    );
    proof {
        assert(strike_outcome_with(result, a, map_penalty as int, condition_mods@, ac));
        assert(strike_outcome(result, a, map_penalty as int, c.conditions.active@, ac));
    }
    apply_enemy_strike(encounter, i, attack.name.as_str(), &result)
}

proof fn lemma_enemy_phase_trans(a: SandboxEncounter, b: SandboxEncounter, c: SandboxEncounter)
    requires
        enemy_phase(a, b),
        enemy_phase(b, c),
    ensures
        enemy_phase(a, c),
{
    assert(c.combat_log@.take(a.combat_log@.len() as int) =~= c.combat_log@.take(
        b.combat_log@.len() as int,
    ).take(a.combat_log@.len() as int));
    assert forall|j: int| 0 <= j < a.enemies@.len() implies moved_and_acted(
        #[trigger] a.enemies@[j],
        c.enemies@[j],
    ) by {
        assert(moved_and_acted(a.enemies@[j], b.enemies@[j]));
        assert(moved_and_acted(b.enemies@[j], c.enemies@[j]));
    }
    assert forall|j: int|
        0 <= j < a.enemies@.len() && (#[trigger] a.enemies@[j]).hp.current <= 0 implies c.enemies@[j]
        == a.enemies@[j] by {
        assert(moved_and_acted(a.enemies@[j], b.enemies@[j]));
    }
}

/// A Strike never heals: current hit points can only go down, the maximum
/// stays.
proof fn lemma_hp_after(hp: HitPoints, r: StrikeResult)
    requires
        hp.current > 0,
    ensures
        hp_after(hp, r).current <= hp.current,
        hp_after(hp, r).max == hp.max,
{
}

/// How an enemy's action ended.
#[derive(Debug, Clone, Copy, PartialEq, Eq, Structural)]
pub enum EnemyStep {
    /// The enemy moved or struck, and the player is still standing.
    Acted,
    /// The AI ended the enemy's turn.
    Stopped,
    /// The enemy's Strike felled the player.
    PlayerFell,
}

/// One action of enemy `i` takes `a` to `b` and ends as `step`: the AI's
/// decision in `a` is carried out, a step toward the player, a Strike at the
/// player with some outcome of the dice, or nothing when it ends the turn.
pub open spec fn act_outcome(a: SandboxEncounter, i: int, step: EnemyStep, b: SandboxEncounter) -> bool {
    let c = a.enemies@[i];
    &&& b.grid == a.grid
    &&& b.round == a.round
    &&& b.is_player_turn == a.is_player_turn
    &&& b.current_enemy_index == a.current_enemy_index
    &&& match enemy_action(
        a.grid,
        occupied_of(a),
        c.position,
        remaining_of(c.actions) as u32,
        a.player.position,
    ) {
        AiAction::MoveTo(p) => {
            &&& step == EnemyStep::Acted
            &&& b.enemies@ == a.enemies@.update(
                i,
                GameCreature { position: p, actions: after_move_action(c.actions), ..c },
            )
            &&& b.player == a.player
            &&& logged(
                a.combat_log@,
                b.combat_log@,
                c.name@ + " moves to ("@ + int_decimal(p.x as int) + ","@ + int_decimal(p.y as int)
                    + ")."@,
            )
        },
        AiAction::Strike { attack_index } => {
            let w = c.attacks@[strike_index(attack_index as int, c.attacks@.len() as int)];
            &&& b.enemies@ == a.enemies@.update(
                i,
                GameCreature { actions: after_attack_action(c.actions), ..c },
            )
            &&& exists|s: StrikeResult|
                {
                    &&& #[trigger] strike_outcome(
                        s,
                        w,
                        map_penalty(c.actions.map.attacks_made, agile(w)),
                        c.conditions.active@,
                        a.player.ac as int,
                    )
                    &&& step == (if fell(a.player.hp, s) {
                        EnemyStep::PlayerFell
                    } else {
                        EnemyStep::Acted
                    })
                    &&& b.player == (GameCreature { hp: hp_after(a.player.hp, s), ..a.player })
                    &&& strike_logged(
                        a.combat_log@,
                        b.combat_log@,
                        c.name@ + " attacks you with "@ + w.name@ + " — "@,
                        "You have fallen!"@,
                        fell(a.player.hp, s),
                        s,
                    )
                }
        },
        AiAction::EndTurn => {
            &&& step == EnemyStep::Stopped
            &&& b == a
        },
    }
}

/// One action of enemy `i`, as the AI decides from the current state: a
/// step toward the player, a Strike at the player, or the end of its turn.
pub fn enemy_act(encounter: &mut SandboxEncounter, i: usize, rng: &mut StdRng) -> (r: EnemyStep)
    requires
        in_range(*old(encounter)),
        i < old(encounter).enemies@.len(),
        old(encounter).enemies@[i as int].hp.current > 0,
        old(encounter).player.hp.current > 0,
        pool_fits(old(encounter).enemies@[i as int].actions),
        old(encounter).enemies@[i as int].actions.actions_spent < u32::MAX,
        old(encounter).enemies@[i as int].actions.map.attacks_made < u32::MAX,
        old(encounter).grid.spec_neighbors(old(encounter).enemies@[i as int].position).contains(
            old(encounter).player.position,
        ) ==> armed(old(encounter).enemies@[i as int], old(encounter).player.ac as int),
    ensures
        in_range(*final(encounter)),
        enemy_phase(*old(encounter), *final(encounter)),
        act_outcome(*old(encounter), i as int, r, *final(encounter)),
        distance_to_player(*final(encounter), i as int) >= distance_to_player(*old(encounter), i as int) - 1,
{
    let ghost before = *encounter;
    let my_pos = encounter.enemies[i].position;
    let my_speed = encounter.enemies[i].speed;
    let actions_remaining = encounter.enemies[i].actions.remaining();
    let occupied = get_occupied_positions(encounter);
    let ai_action = choose_enemy_action(
        my_pos,
        my_speed,
        actions_remaining,
        encounter.player.position,
        &encounter.grid,
        occupied.as_slice(),
    );
    match ai_action {
        AiAction::MoveTo(pos) => {
            proof {
                lemma_step_is_closer_neighbor(encounter.grid, occupied@, my_pos, encounter.player.position);
                lemma_grid_adjacency(encounter.grid, my_pos, pos);
            }
            enemy_move(encounter, i, pos);
            proof {
                assert forall|j: int| 0 <= j < before.enemies@.len() implies moved_and_acted(
                    #[trigger] before.enemies@[j],
                    encounter.enemies@[j],
                ) by {}
                assert(encounter.combat_log@.take(before.combat_log@.len() as int)
                    =~= before.combat_log@);
                assert forall|j: int| 0 <= j < encounter.enemies@.len() implies pos_ok(
                    #[trigger] encounter.enemies@[j].position,
                ) by {
                    if j != i {
                        assert(encounter.enemies@[j] == before.enemies@[j]);
                    }
                }
            }
            EnemyStep::Acted
        },
        AiAction::Strike { attack_index } => {
            proof {
                lemma_grid_adjacency(encounter.grid, my_pos, encounter.player.position);
            }
            let fallen = enemy_strike(encounter, i, attack_index, rng);
            proof {
                let c = before.enemies@[i as int];
                let a = c.attacks@[strike_index(attack_index as int, c.attacks@.len() as int)];
                let s = choose|s: StrikeResult|
                    {
                        &&& #[trigger] strike_outcome(
                            s,
                            a,
                            map_penalty(c.actions.map.attacks_made, agile(a)),
                            c.conditions.active@,
                            before.player.ac as int,
                        )
                        &&& fallen == fell(before.player.hp, s)
                        &&& encounter.player == (GameCreature {
                            hp: hp_after(before.player.hp, s),
                            ..before.player
                        })
                        &&& strike_logged(
                            before.combat_log@,
                            encounter.combat_log@,
                            c.name@ + " attacks you with "@ + a.name@ + " — "@,
                            "You have fallen!"@,
                            fallen,
                            s,
                        )
                    };
                lemma_hp_after(before.player.hp, s);
                assert forall|j: int| 0 <= j < before.enemies@.len() implies moved_and_acted(
                    #[trigger] before.enemies@[j],
                    encounter.enemies@[j],
                ) by {}
                assert forall|j: int| 0 <= j < encounter.enemies@.len() implies pos_ok(
                    #[trigger] encounter.enemies@[j].position,
                ) by {
                    assert(encounter.enemies@[j].position == before.enemies@[j].position);
                }
            }
            if fallen {
                EnemyStep::PlayerFell
            } else {
                EnemyStep::Acted
            }
        },
        AiAction::EndTurn => {
            proof {
                assert(before.combat_log@.take(before.combat_log@.len() as int) =~= before.combat_log@);
                assert forall|j: int| 0 <= j < before.enemies@.len() implies moved_and_acted(
                    #[trigger] before.enemies@[j],
                    before.enemies@[j],
                ) by {}
            }
            EnemyStep::Stopped
        },
    }
}

/// An action pool at the start of a turn in a new round: nothing spent,
/// lost or gained, no attack made, no flourish, no action taken, the
/// reaction back.
pub open spec fn turn_start_pool(p: ActionPool) -> ActionPool {
    ActionPool {
        actions_spent: 0,
        actions_lost: 0,
        actions_gained: 0,
        map: MultipleAttackPenalty { attacks_made: 0 },
        flourish_used: false,
        non_open_action_taken: false,
        reaction_used: false,
        ..p
    }
}

/// `b` is `a` once enemy `i`'s turn has begun: its pool restored, and
/// "<name>'s turn." logged.
pub open spec fn turn_begun(a: SandboxEncounter, i: int, b: SandboxEncounter) -> bool {
    let c = a.enemies@[i];
    &&& b.enemies@ == a.enemies@.update(i, GameCreature { actions: turn_start_pool(c.actions), ..c })
    &&& b.player == a.player
    &&& b.grid == a.grid
    &&& b.round == a.round
    &&& b.is_player_turn == a.is_player_turn
    &&& b.current_enemy_index == a.current_enemy_index
    &&& logged(a.combat_log@, b.combat_log@, c.name@ + "'s turn."@)
}

/// Enemy `i` can act in `e`: it and the player are alive and it has an
/// action left.
pub open spec fn can_act(e: SandboxEncounter, i: int) -> bool {
    &&& e.enemies@[i].hp.current > 0
    &&& e.player.hp.current > 0
    &&& remaining_of(e.enemies@[i].actions) > 0
}

/// Enemy `i` could act in `a`, and one action of it took `a` to `b`,
/// ending as `step`.
#[verifier::opaque]
pub open spec fn step_taken(a: SandboxEncounter, i: int, step: EnemyStep, b: SandboxEncounter) -> bool {
    can_act(a, i) && act_outcome(a, i, step, b)
}

/// Each state of `s` after the first follows from the one before it by one
/// action of enemy `i`, taken while it could act, that ended as the matching
/// entry of `steps`.
#[verifier::opaque]
pub open spec fn acts_traced(i: int, s: Seq<SandboxEncounter>, steps: Seq<EnemyStep>) -> bool {
    forall|k: int| 0 <= k < steps.len() ==> step_taken(s[k], i, #[trigger] steps[k], s[k + 1])
}

/// The states `s` and steps `steps` trace enemy `i`'s actions in one turn:
/// each state follows from the one before by one action the enemy could
/// take, each action but the last left it acting on, and the turn ends after
/// three actions, when the AI ends it, when the player falls, or when the
/// enemy can act no more.
pub open spec fn turn_trace(i: int, s: Seq<SandboxEncounter>, steps: Seq<EnemyStep>) -> bool {
    &&& s.len() == steps.len() + 1
    &&& steps.len() <= 3
    &&& acts_traced(i, s, steps)
    &&& forall|k: int| 0 <= k < steps.len() - 1 ==> #[trigger] steps[k] == EnemyStep::Acted
    &&& (steps.len() == 0 || steps.last() == EnemyStep::Acted) && steps.len() < 3 ==> !can_act(
        s.last(),
        i,
    )
}

/// Enemy `i`'s whole turn takes `a` to `b`; `fell` says whether the player
/// fell during it.
pub open spec fn turn_outcome(a: SandboxEncounter, i: int, b: SandboxEncounter, fell: bool) -> bool {
    exists|s: Seq<SandboxEncounter>, steps: Seq<EnemyStep>|
        {
            &&& #[trigger] turn_trace(i, s, steps)
            &&& turn_begun(a, i, s[0])
            &&& s.last() == b
            &&& fell == (steps.len() > 0 && steps.last() == EnemyStep::PlayerFell)
        }
}

proof fn lemma_acts_traced_push(
    i: int,
    s: Seq<SandboxEncounter>,
    steps: Seq<EnemyStep>,
    step: EnemyStep,
    b: SandboxEncounter,
)
    requires
        acts_traced(i, s, steps),
        s.len() == steps.len() + 1,
        step_taken(s.last(), i, step, b),
    ensures
        acts_traced(i, s.push(b), steps.push(step)),
{
    reveal(acts_traced);
    let s1 = s.push(b);
    let t1 = steps.push(step);
    assert forall|m: int| 0 <= m < t1.len() implies step_taken(s1[m], i, #[trigger] t1[m], s1[m + 1]) by {
        if m < steps.len() {
            assert(t1[m] == steps[m]);
            assert(s1[m] == s[m]);
            assert(s1[m + 1] == s[m + 1]);
        } else {
            assert(s1[m] == s.last());
            assert(s1[m + 1] == b);
        }
    }
}

proof fn lemma_armed_kept(c0: GameCreature, c1: GameCreature, ac: int)
    requires
        moved_and_acted(c0, c1),
        armed(c0, ac),
    ensures
        armed(c1, ac),
{
}

/// One enemy's turn: its actions come back, then it acts up to three times
/// as the AI decides, stopping when it is dead, the player is down, its
/// actions are spent or the AI ends the turn. Returns whether the player
/// fell.
pub fn enemy_turn(encounter: &mut SandboxEncounter, i: usize, rng: &mut StdRng) -> (r: bool)
    requires
        in_range(*old(encounter)),
        i < old(encounter).enemies@.len(),
        old(encounter).enemies@[i as int].hp.current > 0,
        distance_to_player(*old(encounter), i as int) <= 3 ==> armed(
            old(encounter).enemies@[i as int],
            old(encounter).player.ac as int,
        ),
    ensures
        in_range(*final(encounter)),
        enemy_phase(*old(encounter), *final(encounter)),
        forall|j: int|
            0 <= j < old(encounter).enemies@.len() && j != i ==> #[trigger] final(encounter).enemies@[j]
                == old(encounter).enemies@[j],
        turn_outcome(*old(encounter), i as int, *final(encounter), r),
        r ==> final(encounter).player.hp.current <= 0,
{
    let ghost e0 = *encounter;
    encounter.enemies[i].actions.reset_for_new_turn();
    encounter.enemies[i].actions.new_round();
    let name = encounter.enemies[i].name.clone();
    encounter.log(name.concat("'s turn."));
    let ghost mut s: Seq<SandboxEncounter> = seq![*encounter];
    let ghost mut steps: Seq<EnemyStep> = seq![];
    proof {
        let c = e0.enemies@[i as int];
        assert(encounter.enemies@ =~= e0.enemies@.update(
            i as int,
            GameCreature { actions: turn_start_pool(c.actions), ..c },
        ));
        assert(turn_begun(e0, i as int, s[0]));
        assert(encounter.combat_log@.take(e0.combat_log@.len() as int) =~= e0.combat_log@);
        assert forall|j: int| 0 <= j < e0.enemies@.len() implies moved_and_acted(
            #[trigger] e0.enemies@[j],
            encounter.enemies@[j],
        ) by {}
        assert forall|j: int| 0 <= j < encounter.enemies@.len() implies pos_ok(
            #[trigger] encounter.enemies@[j].position,
        ) by {
            assert(encounter.enemies@[j].position == e0.enemies@[j].position);
        }
        reveal(acts_traced);
    }
    let mut k: u32 = 0;
    while k < 3
        invariant_except_break
            forall|m: int| 0 <= m < steps.len() ==> #[trigger] steps[m] == EnemyStep::Acted,
        invariant
            e0 == *old(encounter),
            k <= 3,
            i < encounter.enemies@.len(),
            i < e0.enemies@.len(),
            in_range(*encounter),
            enemy_phase(e0, *encounter),
            forall|j: int|
                0 <= j < e0.enemies@.len() && j != i ==> #[trigger] encounter.enemies@[j] == e0.enemies@[j],
            encounter.enemies@[i as int].actions.actions_spent <= k,
            encounter.enemies@[i as int].actions.map.attacks_made <= k,
            encounter.enemies@[i as int].actions.actions_gained == 0,
            distance_to_player(*encounter, i as int) > 3 - k || armed(
                e0.enemies@[i as int],
                e0.player.ac as int,
            ),
            s.len() == k + 1,
            steps.len() == k,
            s.last() == *encounter,
            turn_begun(e0, i as int, s[0]),
            acts_traced(i as int, s, steps),
        ensures
            in_range(*encounter),
            enemy_phase(e0, *encounter),
            forall|j: int|
                0 <= j < e0.enemies@.len() && j != i ==> #[trigger] encounter.enemies@[j] == e0.enemies@[j],
            s.last() == *encounter,
            turn_begun(e0, i as int, s[0]),
            turn_trace(i as int, s, steps),
            !(steps.len() > 0 && steps.last() == EnemyStep::PlayerFell),
        decreases 3 - k,
    {
        if !encounter.enemies[i].is_alive() || !encounter.player.is_alive() {
            proof {
                assert(!can_act(s.last(), i as int));
            }
            break;
        }
        if encounter.enemies[i].actions.remaining() == 0 {
            proof {
                assert(!can_act(s.last(), i as int));
            }
            break;
        }
        let ghost before = *encounter;
        let ghost prev = steps;
        proof {
            assert(can_act(before, i as int));
            lemma_grid_adjacency(
                before.grid,
                before.enemies@[i as int].position,
                before.player.position,
            );
            if before.grid.spec_neighbors(before.enemies@[i as int].position).contains(
                before.player.position,
            ) {
                assert(moved_and_acted(e0.enemies@[i as int], before.enemies@[i as int]));
                lemma_armed_kept(e0.enemies@[i as int], before.enemies@[i as int], e0.player.ac as int);
            }
        }
        let step = enemy_act(encounter, i, rng);
        proof {
            lemma_enemy_phase_trans(e0, before, *encounter);
            assert(step_taken(before, i as int, step, *encounter)) by {
                reveal(step_taken);
            }
            lemma_acts_traced_push(i as int, s, steps, step, *encounter);
            s = s.push(*encounter);
            steps = steps.push(step);
            assert forall|m: int| 0 <= m < steps.len() - 1 implies #[trigger] steps[m]
                == EnemyStep::Acted by {
                assert(steps[m] == prev[m]);
            }
        }
        k = k + 1;
        match step {
            EnemyStep::Acted => {},
            EnemyStep::Stopped => {
                break;
            },
            EnemyStep::PlayerFell => {
                proof {
                    assert(turn_trace(i as int, s, steps));
                }
                return true;
            },
        }
    }
    false
}

/// Enemy `j` takes `a` to `b`: a whole turn if it is alive, nothing if it
/// is dead. `fell` says whether the player fell in it.
pub open spec fn turn_step(a: SandboxEncounter, j: int, b: SandboxEncounter, fell: bool) -> bool {
    if a.enemies@[j].hp.current > 0 {
        turn_outcome(a, j, b, fell)
    } else {
        b == a && !fell
    }
}

/// Enemy `j` takes `ph[j]` to `ph[j + 1]`, with `falls[j]` as its fall flag,
/// for each entry of `falls`.
#[verifier::opaque]
pub open spec fn turns_traced(ph: Seq<SandboxEncounter>, falls: Seq<bool>) -> bool {
    forall|j: int| 0 <= j < falls.len() ==> turn_step(ph[j], j, ph[j + 1], #[trigger] falls[j])
}

/// The states `ph` trace the enemies' turns from `e0`: enemy `j` takes
/// `ph[j]` to `ph[j + 1]`, a whole turn if it is alive, nothing if it is
/// dead; `falls[j]` says whether the player fell in it. The enemies act in
/// order, all of them unless the player falls, and none after that.
pub open spec fn phase_trace(e0: SandboxEncounter, ph: Seq<SandboxEncounter>, falls: Seq<bool>) -> bool {
    &&& ph.len() == falls.len() + 1
    &&& ph[0] == e0
    &&& falls.len() <= e0.enemies@.len()
    &&& turns_traced(ph, falls)
    &&& forall|j: int| 0 <= j < falls.len() - 1 ==> !#[trigger] falls[j]
    &&& falls.len() < e0.enemies@.len() ==> falls.len() > 0 && falls.last()
}

proof fn lemma_turns_traced_push(
    ph: Seq<SandboxEncounter>,
    falls: Seq<bool>,
    b: SandboxEncounter,
    f: bool,
)
    requires
        turns_traced(ph, falls),
        ph.len() == falls.len() + 1,
        turn_step(ph.last(), falls.len() as int, b, f),
    ensures
        turns_traced(ph.push(b), falls.push(f)),
{
    reveal(turns_traced);
    let p1 = ph.push(b);
    let f1 = falls.push(f);
    assert forall|j: int| 0 <= j < f1.len() implies turn_step(p1[j], j, p1[j + 1], #[trigger] f1[j]) by {
        if j < falls.len() {
            assert(f1[j] == falls[j]);
            assert(p1[j] == ph[j]);
            assert(p1[j + 1] == ph[j + 1]);
        } else {
            assert(p1[j] == ph.last());
            assert(p1[j + 1] == b);
        }
    }
}

/// Every living enemy takes its turn in order; if the player falls, the
/// remaining enemies do not act.
pub fn enemy_turns(encounter: &mut SandboxEncounter, rng: &mut StdRng)
    requires
        enemy_phase_ok(*old(encounter)),
    ensures
        in_range(*final(encounter)),
        enemy_phase(*old(encounter), *final(encounter)),
        exists|ph: Seq<SandboxEncounter>, falls: Seq<bool>|
            #[trigger] phase_trace(*old(encounter), ph, falls) && ph.last() == *final(encounter),
{
    let ghost e0 = *encounter;
    let ghost mut ph: Seq<SandboxEncounter> = seq![e0];
    let ghost mut falls: Seq<bool> = seq![];
    proof {
        assert(e0.combat_log@.take(e0.combat_log@.len() as int) =~= e0.combat_log@);
        assert forall|j: int| 0 <= j < e0.enemies@.len() implies moved_and_acted(
            #[trigger] e0.enemies@[j],
            e0.enemies@[j],
        ) by {}
        reveal(turns_traced);
    }
    let n = encounter.enemies.len();
    let mut i: usize = 0;
    while i < n
        invariant
            e0 == *old(encounter),
            enemy_phase_ok(e0),
            n == e0.enemies@.len(),
            i <= n,
            in_range(*encounter),
            enemy_phase(e0, *encounter),
            forall|j: int| i <= j < n ==> #[trigger] encounter.enemies@[j] == e0.enemies@[j],
            ph.len() == i + 1,
            falls.len() == i,
            ph[0] == e0,
            ph.last() == *encounter,
            turns_traced(ph, falls),
            forall|j: int| 0 <= j < falls.len() ==> !#[trigger] falls[j],
        decreases n - i,
    {
        let ghost before = *encounter;
        let ghost prev = falls;
        if encounter.enemies[i].is_alive() {
            proof {
                assert(encounter.enemies@[i as int] == e0.enemies@[i as int]);
                assert(e0.enemies@[i as int].hp.current > 0);
            }
            let fallen = enemy_turn(encounter, i, rng);
            proof {
                lemma_enemy_phase_trans(e0, before, *encounter);
                lemma_turns_traced_push(ph, falls, *encounter, fallen);
                ph = ph.push(*encounter);
                falls = falls.push(fallen);
                assert forall|j: int| 0 <= j < falls.len() - 1 implies !#[trigger] falls[j] by {
                    assert(falls[j] == prev[j]);
                }
            }
            if fallen {
                proof {
                    assert(phase_trace(e0, ph, falls));
                }
                return;
            }
        } else {
            proof {
                lemma_turns_traced_push(ph, falls, *encounter, false);
                ph = ph.push(*encounter);
                falls = falls.push(false);
            }
        }
        proof {
            assert forall|j: int| 0 <= j < falls.len() implies !#[trigger] falls[j] by {
                if j < prev.len() {
                    assert(falls[j] == prev[j]);
                }
            }
        }
        i = i + 1;
    }
    proof {
        assert(phase_trace(e0, ph, falls));
    }
}

} // verus!
