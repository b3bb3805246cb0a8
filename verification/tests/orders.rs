use zod_units::components::ObjectStats;
use zod_units::network_commands::SourceWaypointMode;
use zod_units::original::objects::{ObjectKind, RobotType};
use zod_units::original::types::TeamType;
use zod_units::selection::activation::{
    source_activation_rejection, source_command_activation_access, source_filter_activation_refs,
    SourceCommandActivationAccess,
};
use zod_units::selection::waypoint_rules::{
    player_move_waypoint_attack_to, previous_cursor_kind_for_source_waypoint, source_can_overwrite_current_stage, source_current_waypoint_stage,
    source_should_queue_behind_current_stage, CraneRepairStage, EnterFortStage, SourceCurrentWaypointStage,
    UnitRepairStage, ZCursorKind,
};

const REGISTRATION_REQUIRED: &str = "move unit error: registration required, please visit www.nighsoft.com";
const ACTIVATION_REQUIRED: &str = "move unit error: activation required, please visit www.nighsoft.com";

#[test]
fn command_activation_rejection_preserves_client_then_server_order() {
    // A pyro needs an activated account; a jeep does not.
    let restricted = true;
    let unrestricted = false;
    let unregistered = SourceCommandActivationAccess { registered: false, server_activation_passed: false };
    let unactivated = SourceCommandActivationAccess { registered: true, server_activation_passed: false };
    let allowed = SourceCommandActivationAccess { registered: true, server_activation_passed: true };

    assert_eq!(source_activation_rejection(restricted, unregistered), Some(REGISTRATION_REQUIRED));
    assert_eq!(source_activation_rejection(restricted, unactivated), Some(ACTIVATION_REQUIRED));
    assert_eq!(source_activation_rejection(restricted, allowed), None);
    assert_eq!(source_activation_rejection(unrestricted, unregistered), None);
}

#[test]
fn mixed_selection_rejects_only_restricted_unit_and_keeps_other_command_refs() {
    // Ref 1 is a laser, ref 2 a jeep.
    let needs = [(1, true), (2, false)];
    let (allowed, news) = source_filter_activation_refs(
        &[1, 2],
        &needs,
        SourceCommandActivationAccess { registered: false, server_activation_passed: false },
    );
    assert_eq!(allowed, vec![2]);
    assert_eq!(news.first().copied(), Some(REGISTRATION_REQUIRED));
}

#[test]
fn activation_filter_drops_unknown_refs_silently_and_keeps_order() {
    let needs = [(5, true), (3, false), (4, true)];
    let unactivated = SourceCommandActivationAccess { registered: true, server_activation_passed: false };
    let (allowed, news) = source_filter_activation_refs(&[9, 5, 3, 4], &needs, unactivated);
    assert_eq!(allowed, vec![3]);
    assert_eq!(news, vec![ACTIVATION_REQUIRED, ACTIVATION_REQUIRED]);
    let passed = SourceCommandActivationAccess { registered: true, server_activation_passed: true };
    assert_eq!(source_filter_activation_refs(&[4, 3, 5], &needs, passed), (vec![4, 3, 5], Vec::new()));
}

#[test]
fn server_activation_rule_lets_logged_in_activated_players_pass() {
    let access = source_command_activation_access(true, true, false, false, true, true);
    assert_eq!(access, SourceCommandActivationAccess { registered: true, server_activation_passed: true });
    assert!(!source_command_activation_access(false, true, false, false, true, false).server_activation_passed);
    assert!(source_command_activation_access(false, false, false, false, false, false).server_activation_passed);
    assert!(source_command_activation_access(true, true, true, false, false, false).server_activation_passed);
    assert!(source_command_activation_access(true, true, false, true, false, false).server_activation_passed);
    assert!(!source_command_activation_access(true, true, false, false, false, true).server_activation_passed);
}

#[test]
fn source_can_overwrite_current_stage_matches_repair_and_enter_fort_rules() {
    assert!(source_can_overwrite_current_stage(Some(SourceCurrentWaypointStage::CraneRepair(
        CraneRepairStage::GotoEntrance
    ))));
    assert!(!source_can_overwrite_current_stage(Some(SourceCurrentWaypointStage::CraneRepair(
        CraneRepairStage::EnterBuilding
    ))));
    assert!(!source_can_overwrite_current_stage(Some(SourceCurrentWaypointStage::CraneRepair(
        CraneRepairStage::ExitBuilding
    ))));

    assert!(source_can_overwrite_current_stage(Some(SourceCurrentWaypointStage::UnitRepair(
        UnitRepairStage::GotoEntrance
    ))));
    assert!(source_can_overwrite_current_stage(Some(SourceCurrentWaypointStage::UnitRepair(UnitRepairStage::Wait))));
    assert!(!source_can_overwrite_current_stage(Some(SourceCurrentWaypointStage::UnitRepair(
        UnitRepairStage::EnterBuilding
    ))));
    assert!(!source_can_overwrite_current_stage(Some(SourceCurrentWaypointStage::UnitRepair(
        UnitRepairStage::ExitBuilding
    ))));

    assert!(source_can_overwrite_current_stage(Some(SourceCurrentWaypointStage::EnterFort(
        EnterFortStage::GotoEntrance
    ))));
    assert!(!source_can_overwrite_current_stage(Some(SourceCurrentWaypointStage::EnterFort(
        EnterFortStage::EnterBuilding
    ))));
    assert!(!source_can_overwrite_current_stage(Some(SourceCurrentWaypointStage::EnterFort(
        EnterFortStage::ExitBuilding
    ))));
}

#[test]
fn current_stage_prefers_crane_then_unit_repair_then_fort() {
    assert_eq!(
        source_current_waypoint_stage(
            Some(CraneRepairStage::ExitBuilding),
            Some(UnitRepairStage::Wait),
            Some(EnterFortStage::GotoEntrance)
        ),
        Some(SourceCurrentWaypointStage::CraneRepair(CraneRepairStage::ExitBuilding))
    );
    assert_eq!(
        source_current_waypoint_stage(None, Some(UnitRepairStage::Wait), Some(EnterFortStage::GotoEntrance)),
        Some(SourceCurrentWaypointStage::UnitRepair(UnitRepairStage::Wait))
    );
    assert_eq!(
        source_current_waypoint_stage(None, None, Some(EnterFortStage::EnterBuilding)),
        Some(SourceCurrentWaypointStage::EnterFort(EnterFortStage::EnterBuilding))
    );
    assert_eq!(source_current_waypoint_stage(None, None, None), None);
    assert!(!source_should_queue_behind_current_stage(None));
    assert!(source_should_queue_behind_current_stage(Some(SourceCurrentWaypointStage::EnterFort(
        EnterFortStage::EnterBuilding
    ))));
}

#[test]
fn previous_cursor_kind_matches_source_waypoint_cursor_modes() {
    assert_eq!(previous_cursor_kind_for_source_waypoint(SourceWaypointMode::Move), ZCursorKind::Placed);
    assert_eq!(previous_cursor_kind_for_source_waypoint(SourceWaypointMode::ForceMove), ZCursorKind::Placed);
    assert_eq!(previous_cursor_kind_for_source_waypoint(SourceWaypointMode::EnterFort), ZCursorKind::Placed);
    assert_eq!(previous_cursor_kind_for_source_waypoint(SourceWaypointMode::Dodge), ZCursorKind::Placed);
    assert_eq!(previous_cursor_kind_for_source_waypoint(SourceWaypointMode::PickupGrenades), ZCursorKind::Grabbed);
    assert_eq!(previous_cursor_kind_for_source_waypoint(SourceWaypointMode::Enter), ZCursorKind::Entered);
    assert_eq!(previous_cursor_kind_for_source_waypoint(SourceWaypointMode::Attack), ZCursorKind::Attacked);
    assert_eq!(previous_cursor_kind_for_source_waypoint(SourceWaypointMode::Agro), ZCursorKind::Attacked);
    assert_eq!(previous_cursor_kind_for_source_waypoint(SourceWaypointMode::UnitRepair), ZCursorKind::Repaired);
    assert_eq!(previous_cursor_kind_for_source_waypoint(SourceWaypointMode::CraneRepair), ZCursorKind::Repaired);
}

#[test]
fn player_move_attack_to_follows_source_ctrl_alt_and_near_hostiles() {

    let mut attacker_stats = ObjectStats::from_kind(ObjectKind::Robot(RobotType::Grunt), 100);
    attacker_stats.attack_capable = true;
    // A blue grunt stands next to the attacker: it is an attack choice.
    let hostile_near = false;
    let nobody_near = true;

    assert!(!player_move_waypoint_attack_to(TeamType::Red, attacker_stats, false, false, hostile_near));
    assert!(player_move_waypoint_attack_to(TeamType::Red, attacker_stats, true, false, hostile_near));
    assert!(!player_move_waypoint_attack_to(TeamType::Red, attacker_stats, true, true, hostile_near));
    assert!(player_move_waypoint_attack_to(TeamType::Red, attacker_stats, false, false, nobody_near));
    // Without a weapon or a team there is no attacking on the way.
    assert!(!player_move_waypoint_attack_to(TeamType::Null, attacker_stats, true, false, nobody_near));
    attacker_stats.attack_capable = false;
    assert!(!player_move_waypoint_attack_to(TeamType::Red, attacker_stats, true, false, nobody_near));
}
