use vstd::prelude::*;

use crate::components::ProductionLevel;
use crate::original::objects::{ObjectKind, RobotType};
use crate::units::buildings::fort_front::fort_front_logic;

verus! {

/// Health of the back half of a fort, the same as the front half, in 1/240ths.
pub const HEALTH_RATIO_240THS: u32 = fort_front_logic::HEALTH_RATIO_240THS;

/// The unit the back half of a fort starts building.
pub open spec fn spec_default_production_unit() -> ObjectKind {
    ObjectKind::Robot(RobotType::Grunt)
}

/// The unit the back half of a fort starts building.
pub fn default_production_unit() -> (r: ObjectKind)
    ensures
        r == spec_default_production_unit(),
{
    ObjectKind::Robot(RobotType::Grunt)
}

/// The back half of a fort builds what the front half builds.
pub fn default_build_list(level: ProductionLevel) -> (r: Vec<ObjectKind>)
    ensures
        r@ == fort_front_logic::spec_default_build_list(level),
{
    fort_front_logic::default_build_list(level)
}

} // verus!
