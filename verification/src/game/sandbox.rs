//! The sandbox encounter: a 20 by 15 arena with varied terrain, a player
//! character and a handful of enemies.

use vstd::prelude::*;

use crate::action::ActionPool;
use crate::condition::Conditions;
use crate::entity::bestiary::{self, melee_strike, strike_is, traits_are};
use crate::entity::creature::HitPoints;
use crate::entity::enemy::AttackData;
use crate::game::faction::Faction;
use crate::mechanics::dice::Die;
use crate::mechanics::traits::{GameTrait, TraitCategory};
use crate::spatial::grid2d::{in_grid, Grid2D};
use crate::spatial::position::Position;
use crate::spatial::terrain::Terrain;
use crate::spatial::topology::Topology;

verus! {

/// A creature of the sandbox game.
#[derive(Debug)]
pub struct GameCreature {
    pub name: String,
    pub hp: HitPoints,
    pub ac: i32,
    pub speed: u32,
    pub position: Position,
    pub actions: ActionPool,
    pub conditions: Conditions,
    pub attacks: Vec<AttackData>,
    pub faction: Faction,
    pub display_char: char,
}

impl GameCreature {
    pub fn is_alive(&self) -> (r: bool)
        ensures
            r == (self.hp.current > 0),
    {
        self.hp.current > 0
    }
}

/// Everything needed to play a sandbox encounter.
#[derive(Debug)]
pub struct SandboxEncounter {
    pub grid: Grid2D,
    pub player: GameCreature,
    pub enemies: Vec<GameCreature>,
    pub combat_log: Vec<String>,
    pub round: u32,
    pub is_player_turn: bool,
    pub current_enemy_index: usize,
}

/// Every enemy is dead.
pub open spec fn all_enemies_dead(enemies: Seq<GameCreature>) -> bool {
    forall|i: int| 0 <= i < enemies.len() ==> #[trigger] enemies[i].hp.current <= 0
}

/// `log1` is `log0` with more messages after it.
pub open spec fn extends(log0: Seq<String>, log1: Seq<String>) -> bool {
    log0.len() <= log1.len() && log1.take(log0.len() as int) == log0
}

/// `log1` is `log0` with one message `m` after it.
pub open spec fn logged(log0: Seq<String>, log1: Seq<String>, m: Seq<char>) -> bool {
    &&& log1.len() == log0.len() + 1
    &&& log1.take(log0.len() as int) == log0
    &&& log1[log0.len() as int]@ == m
}

impl SandboxEncounter {
    /// The player has won: every enemy is dead.
    pub fn player_won(&self) -> (r: bool)
        ensures
            r == all_enemies_dead(self.enemies@),
    {
        let n = self.enemies.len();
        for i in 0..n
            invariant
                n == self.enemies@.len(),
                forall|j: int| 0 <= j < i ==> #[trigger] self.enemies@[j].hp.current <= 0,
        {
            if self.enemies[i].is_alive() {
                return false;
            }
        }
        true
    }

    /// The player has lost: the player is dead.
    pub fn player_lost(&self) -> (r: bool)
        ensures
            r == (self.player.hp.current <= 0),
    {
        !self.player.is_alive()
    }

    /// Append a message to the combat log.
    pub fn log(&mut self, msg: String)
        ensures
            final(self).combat_log@ == old(self).combat_log@.push(msg),
            logged(old(self).combat_log@, final(self).combat_log@, msg@),
            final(self).grid == old(self).grid,
            final(self).player == old(self).player,
            final(self).enemies == old(self).enemies,
            final(self).round == old(self).round,
            final(self).is_player_turn == old(self).is_player_turn,
            final(self).current_enemy_index == old(self).current_enemy_index,
    {
        self.combat_log.push(msg);
        proof {
            assert(self.combat_log@.take(old(self).combat_log@.len() as int) =~= old(self).combat_log@);
        }
    }
}

/// The terrain of the sandbox arena: stone walls, rubble and mud, and a
/// fire pit in the middle; everything else is open ground.
pub open spec fn sandbox_terrain(p: Position) -> Terrain {
    if !in_grid(20, 15, p) {
        Terrain::Normal
    } else if (p.y == 3 && ((4 <= p.x <= 6) || (13 <= p.x <= 15))) || (p.y == 4 && (p.x == 4
        || p.x == 15)) || (p.y == 10 && ((6 <= p.x <= 8) || (11 <= p.x <= 13))) {
        Terrain::Impassable
    } else if (6 <= p.y <= 7 && 8 <= p.x <= 11) || (p.y == 11 && (p.x == 3 || p.x == 4)) || (p.y
        == 12 && p.x == 3) {
        Terrain::Difficult
    } else if p.y == 4 && (p.x == 9 || p.x == 10) {
        Terrain::Hazardous
    } else {
        Terrain::Normal
    }
}

/// A sandbox creature with these name, hit points, AC, speed, position,
/// faction and map character, at the start of a turn and with no conditions.
pub open spec fn fresh_creature(
    c: GameCreature,
    name: Seq<char>,
    hp: i32,
    ac: i32,
    speed: u32,
    position: Position,
    faction: Faction,
    display_char: char,
) -> bool {
    &&& c.name@ == name
    &&& c.hp == HitPoints { current: hp, max: hp, temporary: 0 }
    &&& c.ac == ac
    &&& c.speed == speed
    &&& c.position == position
    &&& c.actions == ActionPool::spec_new_turn()
    &&& c.conditions.active@.len() == 0
    &&& c.faction == faction
    &&& c.display_char == display_char
}

/// The hero's strikes: a longsword and an agile shield bash.
pub open spec fn hero_strikes(s: Seq<AttackData>) -> bool {
    &&& s.len() == 2
    &&& strike_is(s[0], "Longsword"@, 9, Die::D8, 1, 4, "slashing"@, 5)
    &&& traits_are(s[0].traits@, seq![], seq![])
    &&& strike_is(s[1], "Shield Bash"@, 9, Die::D4, 1, 4, "bludgeoning"@, 5)
    &&& traits_are(s[1].traits@, seq!["Agile"@], seq![TraitCategory::Attack])
}

/// A goblin warrior's strikes.
pub open spec fn goblin_strikes(s: Seq<AttackData>) -> bool {
    &&& s.len() == 2
    &&& strike_is(s[0], "Dogslicer"@, 8, Die::D6, 1, 1, "slashing"@, 5)
    &&& traits_are(
        s[0].traits@,
        seq!["Agile"@, "Backstabber"@, "Finesse"@],
        seq![TraitCategory::Attack, TraitCategory::Custom, TraitCategory::Custom],
    )
    &&& strike_is(s[1], "Shortbow"@, 7, Die::D6, 1, 0, "piercing"@, 0)
    &&& traits_are(s[1].traits@, seq!["Deadly d10"@], seq![TraitCategory::Custom])
}

/// A skeleton guard's strikes.
pub open spec fn skeleton_strikes(s: Seq<AttackData>) -> bool {
    &&& s.len() == 2
    &&& strike_is(s[0], "Scimitar"@, 7, Die::D6, 1, 1, "slashing"@, 5)
    &&& traits_are(
        s[0].traits@,
        seq!["Forceful"@, "Sweep"@],
        seq![TraitCategory::Custom, TraitCategory::Custom],
    )
    &&& strike_is(s[1], "Claw"@, 7, Die::D4, 1, 1, "slashing"@, 5)
    &&& traits_are(s[1].traits@, seq!["Agile"@], seq![TraitCategory::Attack])
}

/// A giant rat's strikes.
pub open spec fn rat_strikes(s: Seq<AttackData>) -> bool {
    &&& s.len() == 1
    &&& strike_is(s[0], "Jaws"@, 8, Die::D6, 1, 1, "piercing"@, 5)
    &&& traits_are(
        s[0].traits@,
        seq!["Agile"@, "Finesse"@],
        seq![TraitCategory::Attack, TraitCategory::Custom],
    )
}

/// The names of `cs`, separated by ", ".
pub open spec fn joined_names(cs: Seq<GameCreature>) -> Seq<char>
    decreases cs.len(),
{
    if cs.len() == 0 {
        seq![]
    } else if cs.len() == 1 {
        cs[0].name@
    } else {
        joined_names(cs.drop_last()) + ", "@ + cs.last().name@
    }
}

/// The names of `cs`, separated by ", ".
fn join_names(cs: &Vec<GameCreature>) -> (r: String)
    ensures
        r@ == joined_names(cs@),
{
    let n = cs.len();
    let mut out = String::new();
    for i in 0..n
        invariant
            n == cs@.len(),
            out@ == joined_names(cs@.take(i as int)),
    {
        proof {
            assert(cs@.take(i + 1).drop_last() =~= cs@.take(i as int));
        }
        if i == 0 {
            out = String::from_str(cs[0].name.as_str());
            proof {
                assert(cs@.take(1) =~= seq![cs@[0]]);
            }
        } else {
            out = out.concat(", ").concat(cs[i].name.as_str());
        }
    }
    proof {
        assert(cs@.take(n as int) =~= cs@);
    }
    out
}

/// Set the terrain of the cells `x_from ..= x_to` of row `y`.
fn paint_row(grid: &mut Grid2D, y: i32, x_from: i32, x_to: i32, terrain: Terrain)
    requires
        old(grid).well_formed(),
        x_from <= x_to < i32::MAX,
    ensures
        final(grid).well_formed(),
        final(grid).width == old(grid).width,
        final(grid).height == old(grid).height,
        forall|p: Position| #[trigger] (final(grid).terrain_view())(p) == (if p.y == y && x_from <= p.x
            <= x_to && in_grid(old(grid).width as int, old(grid).height as int, p) {
            terrain
        } else {
            (old(grid).terrain_view())(p)
        }),
{
    let ghost g0 = *grid;
    let mut x = x_from;
    while x <= x_to
        invariant
            grid.well_formed(),
            grid.width == g0.width,
            grid.height == g0.height,
            x_to < i32::MAX,
            x_from <= x <= x_to + 1,
            forall|p: Position| #[trigger] (grid.terrain_view())(p) == (if p.y == y && x_from <= p.x
                < x && in_grid(g0.width as int, g0.height as int, p) {
                terrain
            } else {
                (g0.terrain_view())(p)
            }),
        decreases x_to + 1 - x,
    {
        grid.set_terrain(Position::new(x, y), terrain);
        x = x + 1;
    }
}

/// Build the sandbox encounter: the arena, the hero and four enemies, with
/// the opening lines of the combat log.
pub fn create_sandbox() -> (r: SandboxEncounter)
    ensures
        r.grid.width == 20,
        r.grid.height == 15,
        r.grid.well_formed(),
        forall|p: Position| #[trigger] (r.grid.terrain_view())(p) == sandbox_terrain(p),
        fresh_creature(r.player, "Hero"@, 25, 18, 25, Position { x: 10, y: 12, z: 0 }, Faction::Player, '@'),
        hero_strikes(r.player.attacks@),
        r.enemies@.len() == 4,
        fresh_creature(r.enemies@[0], "Goblin Warrior"@, 6, 16, 25, Position { x: 8, y: 2, z: 0 }, Faction::Enemy, 'G'),
        goblin_strikes(r.enemies@[0].attacks@),
        fresh_creature(r.enemies@[1], "Skeleton Guard"@, 4, 16, 25, Position { x: 14, y: 5, z: 0 }, Faction::Enemy, 'S'),
        skeleton_strikes(r.enemies@[1].attacks@),
        fresh_creature(r.enemies@[2], "Giant Rat"@, 8, 15, 30, Position { x: 5, y: 8, z: 0 }, Faction::Enemy, 'R'),
        rat_strikes(r.enemies@[2].attacks@),
        fresh_creature(r.enemies@[3], "Goblin Archer"@, 6, 16, 25, Position { x: 16, y: 8, z: 0 }, Faction::Enemy, 'g'),
        goblin_strikes(r.enemies@[3].attacks@),
        r.combat_log@.len() == 4,
        r.combat_log@[0]@ == "=== WELCOME TO THE SANDBOX ARENA ==="@,
        r.combat_log@[1]@ == "Defeat all enemies to win!"@,
        r.combat_log@[2]@ == "You face: "@ + joined_names(r.enemies@),
        r.combat_log@[3]@ == "--- Round 1 begins! ---"@,
        r.round == 1,
        r.is_player_turn,
        r.current_enemy_index == 0,
{
    let mut grid = Grid2D::new(20, 15);
    // Stone walls forming partial cover.
    paint_row(&mut grid, 3, 4, 6, Terrain::Impassable);
    paint_row(&mut grid, 3, 13, 15, Terrain::Impassable);
    grid.set_terrain(Position::new(4, 4), Terrain::Impassable);
    grid.set_terrain(Position::new(15, 4), Terrain::Impassable);
    // Difficult terrain: rubble patches.
    paint_row(&mut grid, 6, 8, 11, Terrain::Difficult);
    paint_row(&mut grid, 7, 8, 11, Terrain::Difficult);
    // More walls in the south.
    paint_row(&mut grid, 10, 6, 8, Terrain::Impassable);
    paint_row(&mut grid, 10, 11, 13, Terrain::Impassable);
    // Hazardous terrain: a fire pit in the center.
    grid.set_terrain(Position::new(9, 4), Terrain::Hazardous);
    grid.set_terrain(Position::new(10, 4), Terrain::Hazardous);
    // Difficult terrain: mud near the south.
    grid.set_terrain(Position::new(3, 11), Terrain::Difficult);
    grid.set_terrain(Position::new(4, 11), Terrain::Difficult);
    grid.set_terrain(Position::new(3, 12), Terrain::Difficult);
    proof {
        assert forall|p: Position| #[trigger] (grid.terrain_view())(p) == sandbox_terrain(p) by {}
    }

    // The player: a capable level 1 fighter.
    let player_attacks = vec![
        melee_strike("Longsword", 9, Die::D8, 1, 4, "slashing", vec![], 5),
        melee_strike(
            "Shield Bash",
            9,
            Die::D4,
            1,
            4,
            "bludgeoning",
            vec![GameTrait::new("Agile", TraitCategory::Attack)],
            5,
        ),
    ];
    let player = GameCreature {
        name: String::from_str("Hero"),
        hp: HitPoints::new(25),
        ac: 18,
        speed: 25,
        position: Position::new(10, 12),
        actions: ActionPool::new_turn(),
        conditions: Conditions::default(),
        attacks: player_attacks,
        faction: Faction::Player,
        display_char: '@',
    };

    // Enemies from the bestiary.
    let goblin_stats = bestiary::goblin_warrior();
    let skeleton_stats = bestiary::skeleton_guard();
    let rat_stats = bestiary::giant_rat();
    let goblin2 = bestiary::goblin_warrior();
    let enemies = vec![
        GameCreature {
            name: goblin_stats.name,
            hp: HitPoints::new(goblin_stats.hp),
            ac: goblin_stats.ac,
            speed: goblin_stats.speed,
            position: Position::new(8, 2),
            actions: ActionPool::new_turn(),
            conditions: Conditions::default(),
            attacks: goblin_stats.enemy_abilities.strikes,
            faction: Faction::Enemy,
            display_char: 'G',
        },
        GameCreature {
            name: skeleton_stats.name,
            hp: HitPoints::new(skeleton_stats.hp),
            ac: skeleton_stats.ac,
            speed: skeleton_stats.speed,
            position: Position::new(14, 5),
            actions: ActionPool::new_turn(),
            conditions: Conditions::default(),
            attacks: skeleton_stats.enemy_abilities.strikes,
            faction: Faction::Enemy,
            display_char: 'S',
        },
        GameCreature {
            name: rat_stats.name,
            hp: HitPoints::new(rat_stats.hp),
            ac: rat_stats.ac,
            speed: rat_stats.speed,
            position: Position::new(5, 8),
            actions: ActionPool::new_turn(),
            conditions: Conditions::default(),
            attacks: rat_stats.enemy_abilities.strikes,
            faction: Faction::Enemy,
            display_char: 'R',
        },
        GameCreature {
            name: String::from_str("Goblin Archer"),
            hp: HitPoints::new(goblin2.hp),
            ac: goblin2.ac,
            speed: goblin2.speed,
            position: Position::new(16, 8),
            actions: ActionPool::new_turn(),
            conditions: Conditions::default(),
            attacks: goblin2.enemy_abilities.strikes,
            faction: Faction::Enemy,
            display_char: 'g',
        },
    ];

    let mut encounter = SandboxEncounter {
        grid,
        player,
        enemies,
        combat_log: Vec::new(),
        round: 1,
        is_player_turn: true,
        current_enemy_index: 0,
    };
    encounter.log(String::from_str("=== WELCOME TO THE SANDBOX ARENA ==="));
    encounter.log(String::from_str("Defeat all enemies to win!"));
    let names = join_names(&encounter.enemies);
    encounter.log(String::from_str("You face: ").concat(names.as_str()));
    encounter.log(String::from_str("--- Round 1 begins! ---"));
    encounter
}

} // verus!
