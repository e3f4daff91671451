# pathfinder_mechanics

The rules of the Pathfinder 2nd Edition tabletop game as a verified Rust
library, written in Verus: every function of `src/` carries a contract that
Verus proves.

- `src/mechanics` — d20 checks and degrees of success, modifier stacking,
  dice, traits.
- `src/spatial` — positions, the square grid and its topology, terrain,
  movement rules.
- `src/condition` — conditions, their severities and the effects they
  produce.
- `src/action` — the three-action economy, the multiple attack penalty,
  trait restrictions.
- `src/entity` — creatures, classes, proficiency, items, the bestiary.
- `src/game` — factions, initiative, Strikes and damage, the enemy AI, the
  sandbox encounter and the decisions of its turn loop.
- `src/ui` — what the terminal shows and how typed answers are read.

`app/` wraps the library into a Bevy application (plugins, systems,
messages, components) and holds the terminal front end of the sandbox game.
`tests/` runs the library on concrete values.
