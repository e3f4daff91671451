//! The game layer: factions, initiative and turn order, combat resolution,
//! the enemy AI, the sandbox encounter and the decisions of its turn loop.

pub mod ai;
pub mod combat;
pub mod faction;
pub mod initiative;
pub mod runner;
pub mod sandbox;

pub use initiative::{EncounterPhase, EncounterState, InitiativeEntry, InitiativeOrder};
