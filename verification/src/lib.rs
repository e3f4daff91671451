//! # Pathfinder 2e Mechanics Engine
//!
//! The rules of the Pathfinder 2nd Edition ruleset, written as verified,
//! engine-independent logic. The layers are:
//!
//! 0. `mechanics` — check resolution, modifier stacking, dice
//! 1. `spatial` — grid topology, terrain, movement costs
//! 2. `condition` — condition tracking and the effects conditions produce
//! 3. `action` — the three-action economy, MAP, trait restrictions
//! 4. `entity` — creature and item data
//! 5. `game` — initiative, encounters, combat, the sandbox game's rules
//! 6. `ui` — what the terminal shows and how typed answers are read
//!
//! The ECS integration (plugins, systems, messages) lives beside this
//! library and only moves values in and out of it.

pub mod text;
pub mod mechanics;
pub mod spatial;
pub mod condition;
pub mod action;
pub mod entity;
pub mod game;
pub mod ui;
