use zod_units::components::ObjectStats;
use zod_units::network_commands::{SendRallypointsPacket, SendWaypointsPacket, SourceWaypoint, SourceWaypointMode};
use zod_units::original::objects::{BuildingType, ObjectKind, RobotType, VehicleType};
use zod_units::original::types::TeamType;
use zod_units::selection::{
    expand_selected_refs_for_orders_from_snapshots, source_can_attack_object, source_check_waypoint, source_process_rallypoint_data,
    source_process_waypoint_data, MouseCommandObjectSnapshot,
};

fn snapshot(ref_id: u32, kind: ObjectKind, team: TeamType, health_percent: i32, mobile: bool) -> MouseCommandObjectSnapshot {
    MouseCommandObjectSnapshot {
        ref_id,
        kind,
        team,
        stats: ObjectStats::from_kind(kind, health_percent),
        mobile,
        has_move_speed: mobile,
        group_leader_ref_id: None,
        grenade_amount: None,
        can_be_entered: false,
        can_enter_fort: false,
        crane_can_repair: false,
        can_pickup_grenades: false,
        is_grenade_box: false,
    }
}

fn waypoint(mode: SourceWaypointMode, ref_id: i32, x: i32, y: i32, attack_to: bool, player_given: bool) -> SourceWaypoint {
    SourceWaypoint { mode, ref_id, x, y, attack_to, player_given }
}

#[test]
fn source_check_waypoint_rewrites_client_force_move_to_move() {
    let grunt = snapshot(7, ObjectKind::Robot(RobotType::Grunt), TeamType::Red, 100, true);
    let checked = source_check_waypoint(&grunt, waypoint(SourceWaypointMode::ForceMove, -1, 16, 16, false, false), &[grunt]).unwrap();
    assert_eq!(checked.mode, SourceWaypointMode::Move);
    assert!(!checked.player_given);
    // An object that cannot fire does not attack on the way.
    let checked = source_check_waypoint(&grunt, waypoint(SourceWaypointMode::Move, -1, 16, 16, true, true), &[grunt]).unwrap();
    assert!(!checked.attack_to);
    // A building does not move.
    let radar = snapshot(8, ObjectKind::Building(BuildingType::Radar), TeamType::Red, 100, false);
    assert!(source_check_waypoint(&radar, waypoint(SourceWaypointMode::Move, -1, 0, 0, false, true), &[radar]).is_none());
    // Aggression becomes an attack.
    let agro = source_check_waypoint(&radar, waypoint(SourceWaypointMode::Agro, 3, 0, 0, false, true), &[radar]).unwrap();
    assert_eq!(agro.mode, SourceWaypointMode::Attack);
}

#[test]
fn source_send_waypoints_accepts_route_filtered_to_empty() {
    let grunt = snapshot(7, ObjectKind::Robot(RobotType::Grunt), TeamType::Red, 100, true);
    let packet = SendWaypointsPacket { ref_id: 7, waypoints: vec![waypoint(SourceWaypointMode::Attack, 99, 32, 32, true, true)] };
    assert_eq!(source_process_waypoint_data(&packet, TeamType::Red, &[grunt], &[]), Some(Vec::new()));
}

#[test]
fn source_send_waypoints_rejects_wrong_team_and_minions() {
    let mut snapshots = [snapshot(7, ObjectKind::Robot(RobotType::Grunt), TeamType::Red, 100, true)];
    let packet = SendWaypointsPacket { ref_id: 7, waypoints: vec![waypoint(SourceWaypointMode::Move, -1, 16, 16, true, true)] };
    assert!(source_process_waypoint_data(&packet, TeamType::Blue, &snapshots, &[]).is_none());
    snapshots[0].group_leader_ref_id = Some(6);
    assert!(source_process_waypoint_data(&packet, TeamType::Red, &snapshots, &[]).is_none());
    snapshots[0].group_leader_ref_id = Some(7);
    assert_eq!(source_process_waypoint_data(&packet, TeamType::Red, &snapshots, &[]).unwrap().len(), 1);
    assert!(source_process_waypoint_data(&SendWaypointsPacket { ref_id: -7, waypoints: Vec::new() }, TeamType::Red, &snapshots, &[]).is_none());
}

#[test]
fn source_process_waypoint_preserves_force_move_when_current_cannot_overwrite() {
    let snapshots = [snapshot(7, ObjectKind::Robot(RobotType::Grunt), TeamType::Red, 100, true)];
    let existing = [waypoint(SourceWaypointMode::ForceMove, -1, 8, 8, false, false)];
    let packet = SendWaypointsPacket { ref_id: 7, waypoints: vec![waypoint(SourceWaypointMode::Move, -1, 16, 16, true, true)] };
    let accepted = source_process_waypoint_data(&packet, TeamType::Red, &snapshots, &existing).unwrap();
    assert_eq!(accepted.len(), 2);
    assert_eq!(accepted[0], existing[0]);
    assert_eq!(accepted[1].mode, SourceWaypointMode::Move);
    assert_eq!((accepted[1].x, accepted[1].y), (16, 16));
}

#[test]
fn source_process_waypoint_skips_duplicate_preserved_first_waypoint() {
    let snapshots = [snapshot(7, ObjectKind::Robot(RobotType::Grunt), TeamType::Red, 100, true)];
    let existing = [waypoint(SourceWaypointMode::ForceMove, -1, 8, 8, false, false)];
    let packet = SendWaypointsPacket {
        ref_id: 7,
        waypoints: vec![
            waypoint(SourceWaypointMode::ForceMove, -1, 8, 8, false, false),
            waypoint(SourceWaypointMode::Move, -1, 16, 16, true, true),
            waypoint(SourceWaypointMode::Move, -1, 24, 24, true, true),
        ],
    };
    let accepted = source_process_waypoint_data(&packet, TeamType::Red, &snapshots, &existing).unwrap();
    assert_eq!(accepted.len(), 3);
    assert_eq!(accepted[0].mode, SourceWaypointMode::ForceMove);
    assert_eq!((accepted[1].x, accepted[2].x), (16, 24));
}

#[test]
fn source_process_waypoint_overwrites_current_move_when_allowed() {
    let snapshots = [snapshot(7, ObjectKind::Robot(RobotType::Grunt), TeamType::Red, 100, true)];
    let existing = [waypoint(SourceWaypointMode::Move, -1, 8, 8, false, false)];
    let packet = SendWaypointsPacket { ref_id: 7, waypoints: vec![waypoint(SourceWaypointMode::Move, -1, 16, 16, true, true)] };
    let accepted = source_process_waypoint_data(&packet, TeamType::Red, &snapshots, &existing).unwrap();
    assert_eq!(accepted.len(), 1);
    assert_eq!((accepted[0].x, accepted[0].y), (16, 16));
    assert!(accepted[0].player_given);
}

#[test]
fn special_waypoints_follow_their_target_rules() {
    let grunt = snapshot(7, ObjectKind::Robot(RobotType::Grunt), TeamType::Red, 100, true);
    let mut jeep = snapshot(9, ObjectKind::Vehicle(VehicleType::Jeep), TeamType::Null, 100, true);
    jeep.can_be_entered = true;
    let snapshots = [grunt, jeep];
    assert!(source_check_waypoint(&grunt, waypoint(SourceWaypointMode::Enter, 9, 0, 0, false, true), &snapshots).is_some());
    assert!(source_check_waypoint(&jeep, waypoint(SourceWaypointMode::Enter, 7, 0, 0, false, true), &snapshots).is_none());
    assert!(source_check_waypoint(&grunt, waypoint(SourceWaypointMode::Enter, 10, 0, 0, false, true), &snapshots).is_none());
    let crane = snapshot(11, ObjectKind::Vehicle(VehicleType::Crane), TeamType::Red, 100, true);
    let mut radar = snapshot(12, ObjectKind::Building(BuildingType::Radar), TeamType::Red, 40, false);
    radar.crane_can_repair = true;
    assert!(source_check_waypoint(&crane, waypoint(SourceWaypointMode::CraneRepair, 12, 0, 0, false, true), &[crane, radar]).is_some());
    assert!(source_check_waypoint(&grunt, waypoint(SourceWaypointMode::CraneRepair, 12, 0, 0, false, true), &[crane, radar]).is_none());
    let damaged = snapshot(13, ObjectKind::Vehicle(VehicleType::Light), TeamType::Red, 50, true);
    let repair = snapshot(14, ObjectKind::Building(BuildingType::Repair), TeamType::Red, 100, false);
    assert!(source_check_waypoint(&damaged, waypoint(SourceWaypointMode::UnitRepair, 14, 0, 0, false, true), &[damaged, repair]).is_some());
    let blue_repair = snapshot(14, ObjectKind::Building(BuildingType::Repair), TeamType::Blue, 100, false);
    assert!(source_check_waypoint(&damaged, waypoint(SourceWaypointMode::UnitRepair, 14, 0, 0, false, true), &[damaged, blue_repair]).is_none());
    let mut box_snapshot = snapshot(15, ObjectKind::MapItem(1), TeamType::Null, 100, false);
    box_snapshot.is_grenade_box = true;
    let mut picker = grunt;
    picker.can_pickup_grenades = true;
    assert!(source_check_waypoint(&picker, waypoint(SourceWaypointMode::PickupGrenades, 15, 0, 0, false, true), &[picker, box_snapshot]).is_some());
    assert!(source_check_waypoint(&grunt, waypoint(SourceWaypointMode::PickupGrenades, 15, 0, 0, false, true), &[grunt, box_snapshot]).is_none());
}

#[test]
fn source_rallypoints_process_filters_non_move_waypoints() {
    let snapshots = [snapshot(12, ObjectKind::Building(BuildingType::VehicleFactory), TeamType::Red, 100, false)];
    let packet = SendRallypointsPacket {
        ref_id: 12,
        waypoints: vec![
            waypoint(SourceWaypointMode::Move, -1, 32, 48, true, true),
            waypoint(SourceWaypointMode::Attack, 99, 64, -80, true, true),
        ],
    };
    let accepted = source_process_rallypoint_data(&packet, TeamType::Red, &snapshots).unwrap();
    assert_eq!(accepted.len(), 1);
    assert_eq!(accepted[0].mode, SourceWaypointMode::Move);
    assert_eq!((accepted[0].x, accepted[0].y), (32, 48));
}

#[test]
fn source_rallypoints_rejects_wrong_team_and_non_rally_buildings() {
    let packet = SendRallypointsPacket { ref_id: 12, waypoints: vec![waypoint(SourceWaypointMode::Move, -1, 32, 48, true, true)] };
    let mut snapshots = [snapshot(12, ObjectKind::Building(BuildingType::RobotFactory), TeamType::Red, 100, false)];
    assert!(source_process_rallypoint_data(&packet, TeamType::Blue, &snapshots).is_none());
    snapshots[0].kind = ObjectKind::Building(BuildingType::Repair);
    assert!(source_process_rallypoint_data(&packet, TeamType::Red, &snapshots).is_none());
}

#[test]
fn orders_reach_selected_objects_and_their_group_members_once() {
    let mut leader = snapshot(10, ObjectKind::Robot(RobotType::Grunt), TeamType::Red, 100, true);
    leader.group_leader_ref_id = Some(10);
    let mut member = snapshot(11, ObjectKind::Robot(RobotType::Grunt), TeamType::Red, 100, true);
    member.group_leader_ref_id = Some(10);
    let mut dead_member = snapshot(12, ObjectKind::Robot(RobotType::Grunt), TeamType::Red, 0, true);
    dead_member.group_leader_ref_id = Some(10);
    let jeep = snapshot(20, ObjectKind::Vehicle(VehicleType::Jeep), TeamType::Red, 100, true);
    let other = snapshot(30, ObjectKind::Vehicle(VehicleType::Jeep), TeamType::Red, 100, true);
    let snapshots = [leader, member, dead_member, jeep, other, jeep];
    assert_eq!(expand_selected_refs_for_orders_from_snapshots(&[20, 10], &snapshots), vec![10, 11, 20]);
    assert!(expand_selected_refs_for_orders_from_snapshots(&[], &snapshots).is_empty());
}

#[test]
fn pending_move_expand_uses_robot_group_leader_like_order_fanout() {
    let kind = ObjectKind::Robot(RobotType::Grunt);
    let leader = snapshot(10, kind, TeamType::Red, 100, true);
    let mut minion = snapshot(11, kind, TeamType::Red, 100, true);
    minion.group_leader_ref_id = Some(10);
    let snapshots = [leader, minion];
    assert_eq!(expand_selected_refs_for_orders_from_snapshots(&[10], &snapshots), vec![10, 11]);
    assert_eq!(expand_selected_refs_for_orders_from_snapshots(&[11], &snapshots), vec![11]);
}

#[test]
fn attacks_need_a_weapon_a_standing_enemy_and_explosives_where_required() {
    let kind = ObjectKind::Robot(RobotType::Grunt);
    let mut attacker = snapshot(1, kind, TeamType::Red, 100, true);
    let target = snapshot(2, kind, TeamType::Blue, 100, true);
    assert!(!source_can_attack_object(&attacker, &target));
    attacker.stats.attack_capable = true;
    assert!(source_can_attack_object(&attacker, &target));
    let friend = snapshot(3, kind, TeamType::Red, 100, true);
    assert!(!source_can_attack_object(&attacker, &friend));
    let wreck = snapshot(4, kind, TeamType::Blue, 0, true);
    assert!(!source_can_attack_object(&attacker, &wreck));
    let mut armoured = snapshot(5, ObjectKind::Building(BuildingType::Radar), TeamType::Blue, 100, false);
    armoured.stats.attacked_only_by_explosives = true;
    assert!(!source_can_attack_object(&attacker, &armoured));
    attacker.grenade_amount = Some(2);
    assert!(source_can_attack_object(&attacker, &armoured));
}
