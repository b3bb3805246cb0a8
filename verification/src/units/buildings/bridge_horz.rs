//! The horizontal bridge.

pub mod bridge_horz_ui;
