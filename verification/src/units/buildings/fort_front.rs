//! The front half of a fort.

use vstd::prelude::*;

use crate::components::ProductionLevel;
use crate::original::objects::ObjectKind;
use crate::original::types::PlanetType;

pub mod fort_front_logic;
pub mod fort_front_ui;

verus! {

/// Asset path of a destroyed front fort on `planet`.
pub fn destroyed_asset_path(planet: PlanetType) -> (r: String)
    ensures
        r@ == fort_front_ui::spec_destroyed_asset_path(planet),
{
    fort_front_ui::destroyed_asset_path(planet)
}

/// The unit a fort starts building.
pub fn default_production_unit() -> (r: ObjectKind)
    ensures
        r == fort_front_logic::spec_default_production_unit(),
{
    fort_front_logic::default_production_unit()
}

/// Units a fort can build at `level`.
pub fn default_build_list(level: ProductionLevel) -> (r: Vec<ObjectKind>)
    ensures
        r@ == fort_front_logic::spec_default_build_list(level),
{
    fort_front_logic::default_build_list(level)
}

} // verus!
