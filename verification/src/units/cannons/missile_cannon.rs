//! The missile cannon.

pub mod missile_cannon_ui;
