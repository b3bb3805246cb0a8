//! The repair building.

use vstd::prelude::*;

use crate::components::ObjectStats;
use crate::original::types::{PlanetType, TeamType};
use crate::render::atlas::RepairOverlayKind;

pub mod repair_logic;
pub mod repair_ui;

verus! {

/// Asset path of a destroyed repair building on `planet`.
pub fn destroyed_asset_path(planet: PlanetType) -> (r: String)
    ensures
        r@ == repair_ui::spec_destroyed_asset_path(planet),
{
    repair_ui::destroyed_asset_path(planet)
}

/// Whether a repair building overlay is drawn.
pub fn overlay_should_be_visible(kind: RepairOverlayKind, owner: TeamType, stats: ObjectStats, repairing_unit: bool) -> (r: bool)
    ensures
        r == repair_ui::spec_overlay_should_be_visible(kind, owner, stats, repairing_unit),
{
    repair_ui::overlay_should_be_visible(kind, owner, stats, repairing_unit)
}

/// The frame a repair building overlay is held at, if any.
pub fn overlay_forced_frame(kind: RepairOverlayKind, owner: TeamType, repairing_unit: bool) -> (r: Option<usize>)
    ensures
        r == repair_ui::spec_overlay_forced_frame(kind, owner, repairing_unit),
{
    repair_ui::overlay_forced_frame(kind, owner, repairing_unit)
}

} // verus!
