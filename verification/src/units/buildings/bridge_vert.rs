//! The vertical bridge.

pub mod bridge_vert_ui;
