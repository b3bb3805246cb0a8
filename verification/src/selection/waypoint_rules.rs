//! What a unit is busy with when a new waypoint order comes, whether the
//! order may replace it, and the cursor an order leaves behind.

use vstd::prelude::*;

use crate::components::ObjectStats;
use crate::network_commands::SourceWaypointMode;
use crate::original::types::TeamType;

verus! {

/// The steps of a crane's repair of a building.
#[derive(Clone, Copy, Debug, PartialEq, Eq, Structural)]
pub enum CraneRepairStage {
    GotoEntrance,
    EnterBuilding,
    ExitBuilding,
}

/// The steps of a unit's visit to a repair building.
#[derive(Clone, Copy, Debug, PartialEq, Eq, Structural)]
pub enum UnitRepairStage {
    GotoEntrance,
    Wait,
    EnterBuilding,
    ExitBuilding,
}

/// The steps of a unit's way into a fort.
#[derive(Clone, Copy, Debug, PartialEq, Eq, Structural)]
pub enum EnterFortStage {
    GotoEntrance,
    EnterBuilding,
    ExitBuilding,
}

/// The special errand a unit is on, with its step.
#[derive(Clone, Copy, Debug, PartialEq, Eq, Structural)]
pub enum SourceCurrentWaypointStage {
    CraneRepair(CraneRepairStage),
    UnitRepair(UnitRepairStage),
    EnterFort(EnterFortStage),
}

/// The errand that counts when a unit carries several: a crane repair
/// before a unit repair before a fort entry.
pub open spec fn spec_current_waypoint_stage(
    crane_repair: Option<CraneRepairStage>,
    unit_repair: Option<UnitRepairStage>,
    enter_fort: Option<EnterFortStage>,
) -> Option<SourceCurrentWaypointStage> {
    match crane_repair {
        Some(stage) => Some(SourceCurrentWaypointStage::CraneRepair(stage)),
        None => match unit_repair {
            Some(stage) => Some(SourceCurrentWaypointStage::UnitRepair(stage)),
            None => match enter_fort {
                Some(stage) => Some(SourceCurrentWaypointStage::EnterFort(stage)),
                None => None,
            },
        },
    }
}

/// The errand a unit is on, from the steps of the errands it carries.
pub fn source_current_waypoint_stage(
    crane_repair: Option<CraneRepairStage>,
    unit_repair: Option<UnitRepairStage>,
    enter_fort: Option<EnterFortStage>,
) -> (r: Option<SourceCurrentWaypointStage>)
    ensures
        r == spec_current_waypoint_stage(crane_repair, unit_repair, enter_fort),
{
    match crane_repair {
        Some(stage) => Some(SourceCurrentWaypointStage::CraneRepair(stage)),
        None => match unit_repair {
            Some(stage) => Some(SourceCurrentWaypointStage::UnitRepair(stage)),
            None => match enter_fort {
                Some(stage) => Some(SourceCurrentWaypointStage::EnterFort(stage)),
                None => None,
            },
        },
    }
}

/// A new order replaces the errand while the unit is still on its way to
/// the entrance (or waiting outside a repair building), and when there is
/// none; inside or on the way out it cannot.
pub open spec fn spec_can_overwrite_current_stage(stage: Option<SourceCurrentWaypointStage>) -> bool {
    match stage {
        None => true,
        Some(SourceCurrentWaypointStage::CraneRepair(s)) => s == CraneRepairStage::GotoEntrance,
        Some(SourceCurrentWaypointStage::UnitRepair(s)) => s == UnitRepairStage::GotoEntrance || s
            == UnitRepairStage::Wait,
        Some(SourceCurrentWaypointStage::EnterFort(s)) => s == EnterFortStage::GotoEntrance,
    }
}

/// Whether a new order may replace the unit's current errand.
pub fn source_can_overwrite_current_stage(stage: Option<SourceCurrentWaypointStage>) -> (r: bool)
    ensures
        r == spec_can_overwrite_current_stage(stage),
{
    match stage {
        None => true,
        Some(SourceCurrentWaypointStage::CraneRepair(s)) => match s {
            CraneRepairStage::GotoEntrance => true,
            _ => false,
        },
        Some(SourceCurrentWaypointStage::UnitRepair(s)) => match s {
            UnitRepairStage::GotoEntrance | UnitRepairStage::Wait => true,
            _ => false,
        },
        Some(SourceCurrentWaypointStage::EnterFort(s)) => match s {
            EnterFortStage::GotoEntrance => true,
            _ => false,
        },
    }
}

/// Whether a new order waits behind the unit's current errand: exactly
/// when it may not replace it.
pub fn source_should_queue_behind_current_stage(stage: Option<SourceCurrentWaypointStage>) -> (r: bool)
    ensures
        r == !spec_can_overwrite_current_stage(stage),
{
    !source_can_overwrite_current_stage(stage)
}

/// The cursor shapes that a waypoint order leaves where it was given.
#[derive(Clone, Copy, Debug, PartialEq, Eq, Structural)]
pub enum ZCursorKind {
    Placed,
    Grabbed,
    Entered,
    Attacked,
    Repaired,
}

/// Moves of any kind and fort entries leave a placed cursor, grenade
/// pickups a grab, robot entries an entry, attacks and aggression an attack
/// and both repairs a repair.
pub open spec fn spec_previous_cursor_kind(mode: SourceWaypointMode) -> ZCursorKind {
    match mode {
        SourceWaypointMode::Move | SourceWaypointMode::ForceMove | SourceWaypointMode::EnterFort
        | SourceWaypointMode::Dodge => ZCursorKind::Placed,
        SourceWaypointMode::PickupGrenades => ZCursorKind::Grabbed,
        SourceWaypointMode::Enter => ZCursorKind::Entered,
        SourceWaypointMode::Attack | SourceWaypointMode::Agro => ZCursorKind::Attacked,
        SourceWaypointMode::CraneRepair | SourceWaypointMode::UnitRepair => ZCursorKind::Repaired,
    }
}

/// The cursor a waypoint of `mode` leaves where it was given.
pub fn previous_cursor_kind_for_source_waypoint(mode: SourceWaypointMode) -> (r: ZCursorKind)
    ensures
        r == spec_previous_cursor_kind(mode),
{
    match mode {
        SourceWaypointMode::Move | SourceWaypointMode::ForceMove | SourceWaypointMode::EnterFort
        | SourceWaypointMode::Dodge => ZCursorKind::Placed,
        SourceWaypointMode::PickupGrenades => ZCursorKind::Grabbed,
        SourceWaypointMode::Enter => ZCursorKind::Entered,
        SourceWaypointMode::Attack | SourceWaypointMode::Agro => ZCursorKind::Attacked,
        SourceWaypointMode::CraneRepair | SourceWaypointMode::UnitRepair => ZCursorKind::Repaired,
    }
}

/// Whether a player's move order attacks on the way: never for an object
/// that cannot fire or has no team, nor with alt held; always with ctrl
/// held; otherwise exactly when the object finds no hostile to turn on
/// where it stands (`attack_choices_empty`, which the caller works out from
/// the positions on the map).
pub open spec fn spec_player_move_waypoint_attack_to(
    team: TeamType,
    stats: ObjectStats,
    ctrl_down: bool,
    alt_down: bool,
    attack_choices_empty: bool,
) -> bool {
    if !stats.attack_capable || team == TeamType::Null || alt_down {
        false
    } else if ctrl_down {
        true
    } else {
        attack_choices_empty
    }
}

/// Whether a player's move order for an object of `team` with `stats`
/// attacks on the way.
pub fn player_move_waypoint_attack_to(
    team: TeamType,
    stats: ObjectStats,
    ctrl_down: bool,
    alt_down: bool,
    attack_choices_empty: bool,
) -> (r: bool)
    ensures
        r == spec_player_move_waypoint_attack_to(team, stats, ctrl_down, alt_down, attack_choices_empty),
{
    if !stats.can_attack() || team == TeamType::Null || alt_down {
        return false;
    }
    if ctrl_down {
        return true;
    }
    attack_choices_empty
}

} // verus!
