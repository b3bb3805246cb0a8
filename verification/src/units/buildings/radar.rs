//! The radar building.

use vstd::prelude::*;

use crate::components::ObjectStats;
use crate::original::types::{PlanetType, TeamType};
use crate::render::atlas::RadarOverlayKind;

pub mod radar_ui;

verus! {

/// Asset path of a destroyed radar on `planet`.
pub fn destroyed_asset_path(planet: PlanetType) -> (r: String)
    ensures
        r@ == radar_ui::spec_destroyed_asset_path(planet),
{
    radar_ui::destroyed_asset_path(planet)
}

/// Whether a radar overlay is drawn.
pub fn overlay_should_be_visible(kind: RadarOverlayKind, owner: TeamType, stats: ObjectStats) -> (r: bool)
    ensures
        r == radar_ui::spec_overlay_should_be_visible(kind, owner, stats),
{
    radar_ui::overlay_should_be_visible(kind, owner, stats)
}

} // verus!
