//! The back half of a fort.

use vstd::prelude::*;

use crate::components::ProductionLevel;
use crate::original::objects::ObjectKind;
use crate::original::types::PlanetType;
use crate::units::buildings::fort_front::fort_front_logic;

pub mod fort_back_logic;
pub mod fort_back_ui;

verus! {

/// Asset path of a destroyed back fort on `planet`.
pub fn destroyed_asset_path(planet: PlanetType) -> (r: String)
    ensures
        r@ == fort_back_ui::spec_destroyed_asset_path(planet),
{
    fort_back_ui::destroyed_asset_path(planet)
}

/// The unit the back half of a fort starts building.
pub fn default_production_unit() -> (r: ObjectKind)
    ensures
        r == fort_back_logic::spec_default_production_unit(),
{
    fort_back_logic::default_production_unit()
}

/// Units the back half of a fort can build at `level`: those of the front half.
pub fn default_build_list(level: ProductionLevel) -> (r: Vec<ObjectKind>)
    ensures
        r@ == fort_front_logic::spec_default_build_list(level),
{
    fort_back_logic::default_build_list(level)
}

} // verus!
