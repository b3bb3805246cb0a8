//! Which units a repair building takes in.

use vstd::prelude::*;

use crate::components::ObjectStats;
use crate::original::objects::{BuildingType, ObjectKind};
use crate::original::types::TeamType;

verus! {

/// Seconds a repair building takes to repair a unit.
pub const REPAIR_BUILDING_SECONDS: u32 = 5;

/// A repair building can repair units of its own team while it stands, and
/// only when some team owns it.
pub open spec fn spec_can_repair_unit(kind: ObjectKind, building_team: TeamType, unit_team: TeamType, stats: ObjectStats) -> bool {
    &&& kind == ObjectKind::Building(BuildingType::Repair)
    &&& building_team != TeamType::Null
    &&& building_team == unit_team
    &&& !stats.spec_destroyed()
}

/// Whether the object of `kind`, owned by `building_team` and in state
/// `stats`, is a repair building that repairs units of `unit_team`.
pub fn can_repair_unit(kind: ObjectKind, building_team: TeamType, unit_team: TeamType, stats: ObjectStats) -> (r: bool)
    ensures
        r == spec_can_repair_unit(kind, building_team, unit_team, stats),
{
    let repair = match kind {
        ObjectKind::Building(BuildingType::Repair) => true,
        _ => false,
    };
    repair && building_team != TeamType::Null && building_team == unit_team && !stats.destroyed()
}

/// A unit can be repaired when it is a damaged vehicle that some team owns
/// and that is not destroyed.
pub open spec fn spec_can_repair_target_unit(kind: ObjectKind, team: TeamType, stats: ObjectStats) -> bool {
    &&& kind is Vehicle
    &&& team != TeamType::Null
    &&& !stats.spec_destroyed()
    &&& stats.health < stats.max_health
}

/// Whether a unit of `kind`, owned by `team` and in state `stats`, can be
/// repaired.
pub fn can_repair_target_unit(kind: ObjectKind, team: TeamType, stats: ObjectStats) -> (r: bool)
    ensures
        r == spec_can_repair_target_unit(kind, team, stats),
{
    let vehicle = match kind {
        ObjectKind::Vehicle(_) => true,
        _ => false,
    };
    vehicle && team != TeamType::Null && !stats.destroyed() && stats.health < stats.max_health
}

} // verus!
