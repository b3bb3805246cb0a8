//! The vehicle factory.

use vstd::prelude::*;

use crate::components::{ObjectStats, ProductionLevel};
use crate::original::objects::ObjectKind;
use crate::original::types::{PlanetType, TeamType};
use crate::render::atlas::FactoryOverlayKind;

pub mod vehicle_factory_logic;
pub mod vehicle_factory_ui;

verus! {

/// Asset path of a destroyed vehicle factory on `planet`.
pub fn destroyed_asset_path(planet: PlanetType) -> (r: String)
    ensures
        r@ == vehicle_factory_ui::spec_destroyed_asset_path(planet),
{
    vehicle_factory_ui::destroyed_asset_path(planet)
}

/// The unit a vehicle factory starts building.
pub fn default_production_unit() -> (r: ObjectKind)
    ensures
        r == vehicle_factory_logic::spec_default_production_unit(),
{
    vehicle_factory_logic::default_production_unit()
}

/// Units a vehicle factory can build at `level`.
pub fn default_build_list(level: ProductionLevel) -> (r: Vec<ObjectKind>)
    ensures
        r@ == vehicle_factory_logic::spec_default_build_list(level),
{
    vehicle_factory_logic::default_build_list(level)
}

/// Whether an overlay belongs to the vehicle factory.
pub fn overlay_kind_is_vehicle(kind: FactoryOverlayKind) -> (r: bool)
    ensures
        r == vehicle_factory_ui::spec_overlay_kind_is_vehicle(kind),
{
    vehicle_factory_ui::overlay_kind_is_vehicle(kind)
}

/// Whether a vehicle factory overlay is drawn.
pub fn overlay_should_be_visible(kind: FactoryOverlayKind, owner: TeamType, stats: ObjectStats, production_active: bool) -> (r: bool)
    ensures
        r == vehicle_factory_ui::spec_overlay_should_be_visible(kind, owner, stats, production_active),
{
    vehicle_factory_ui::overlay_should_be_visible(kind, owner, stats, production_active)
}

} // verus!
