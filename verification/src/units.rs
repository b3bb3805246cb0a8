//! Units and buildings of the game.

pub mod attack;
pub mod buildings;
pub mod cannons;
