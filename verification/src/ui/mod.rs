//! The terminal interface: what the screen shows and how the player's
//! typed answers are read. Printing and reading stay with the program.

pub mod display;
pub mod input;
