//! Rules of the Zod unit and building layer: production queues and build
//! lists, the production selector, overlay and asset naming, bridge
//! footprints, combat and repair eligibility, selection cycling, the
//! server's checks on waypoint and rally point orders, which orders an
//! account may give, and the settings packet layout.

pub mod original;
pub mod text;
pub mod components;
pub mod render;
pub mod units;
pub mod network_commands;
pub mod selection;
pub mod settings_sync;
