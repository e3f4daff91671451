//! # Mechanics Layer (Layer 0)
//!
//! Pure game logic: how d20 checks resolve, how modifiers stack, dice.

pub mod check;
pub mod dice;
pub mod modifier;
pub mod traits;

pub use check::{CheckContext, DegreeOfSuccess};
pub use dice::{DicePool, DiceRoll, Die};
pub use modifier::{Modifier, ModifierStack, ModifierType};
pub use traits::{GameTrait, TraitCategory};
