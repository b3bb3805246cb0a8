//! Cannons: how their frames are named and which frame each state shows.

pub mod cannon_ui;
pub mod missile_cannon;
