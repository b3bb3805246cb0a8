//! The game's object and world vocabulary.

pub mod objects;
pub mod types;
