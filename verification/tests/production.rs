use std::collections::VecDeque;

use zod_units::components::{BuildingProduction, BuildingProductionStatus, ProductionLevel};
use zod_units::network_commands::SourceWaypointMode;
use zod_units::original::objects::{BuildingType, CannonType, ObjectKind, RobotType, VehicleType};
use zod_units::network_commands::SOURCE_ZSETTINGS_PACKET_SIZE;
use zod_units::settings_sync::SourceSettingsState;
use zod_units::units::buildings::production_logic::{
    add_production_queue, advance_production, advance_production_with_unit_limit,
    advance_production_with_unit_limit_from_source, apply_building_rally_point, cancel_production_queue_item, can_set_rallypoints, cannon_count_in_zone,
    production_spawn_route, production_spawn_route_for_member, production_spawn_waypoints,
    production_spawn_waypoints_for_member, store_built_cannon_in_zone, CannonZoneSnapshot, MAX_STORED_CANNONS,
};

fn test_production() -> BuildingProduction {
    BuildingProduction {
        status: BuildingProductionStatus::Building,
        current: Some(ObjectKind::Cannon(CannonType::Gatling)),
        queue: VecDeque::new(),
        unit_limit_reached: false,
        stored_cannons: Vec::new(),
    }
}

#[test]
fn cannon_zone_count_matches_original_stored_and_placed_sum() {
    let snapshots = vec![
        CannonZoneSnapshot { zone: Some(1), count: 1 },
        CannonZoneSnapshot { zone: Some(1), count: 2 },
        CannonZoneSnapshot { zone: Some(2), count: 4 },
    ];
    assert_eq!(cannon_count_in_zone(&snapshots, Some(1)), 3);
    assert_eq!(cannon_count_in_zone(&snapshots, Some(2)), 4);
    assert_eq!(cannon_count_in_zone(&snapshots, Some(3)), 0);
}

#[test]
fn built_cannon_store_updates_zone_snapshot_like_original_relay_state() {
    let mut production = test_production();
    let mut snapshots = vec![CannonZoneSnapshot { zone: Some(1), count: MAX_STORED_CANNONS - 1 }];
    assert!(store_built_cannon_in_zone(&mut production, ObjectKind::Cannon(CannonType::Gatling), Some(2), &mut snapshots));
    assert_eq!(production.stored_cannons, vec![ObjectKind::Cannon(CannonType::Gatling)]);
    assert_eq!(production.status, BuildingProductionStatus::Place);
    assert_eq!(cannon_count_in_zone(&snapshots, Some(2)), 1);
}

#[test]
fn built_cannon_is_dropped_when_zone_capacity_is_full_like_original_server_path() {
    let mut production = test_production();
    let mut snapshots = vec![CannonZoneSnapshot { zone: Some(1), count: MAX_STORED_CANNONS }];
    assert!(!store_built_cannon_in_zone(&mut production, ObjectKind::Cannon(CannonType::Gun), Some(1), &mut snapshots));
    assert!(production.stored_cannons.is_empty());
    assert_eq!(production.status, BuildingProductionStatus::Building);
    assert_eq!(snapshots.len(), 1);
}

#[test]
fn can_set_rallypoints_matches_source_building_overrides() {
    assert!(can_set_rallypoints(ObjectKind::Building(BuildingType::FortFront)));
    assert!(can_set_rallypoints(ObjectKind::Building(BuildingType::FortBack)));
    assert!(can_set_rallypoints(ObjectKind::Building(BuildingType::RobotFactory)));
    assert!(can_set_rallypoints(ObjectKind::Building(BuildingType::VehicleFactory)));
    assert!(!can_set_rallypoints(ObjectKind::Building(BuildingType::Repair)));
    assert!(!can_set_rallypoints(ObjectKind::Building(BuildingType::Radar)));
    assert!(!can_set_rallypoints(ObjectKind::Vehicle(VehicleType::Light)));
}

#[test]
fn cancelling_a_queued_unit_undoes_adding_it() {
    let mut production = test_production();
    production.queue.push_back(ObjectKind::Robot(RobotType::Grunt));
    let before: Vec<ObjectKind> = production.queue.iter().copied().collect();
    assert!(add_production_queue(&mut production, BuildingType::FortFront, ProductionLevel::Level2, ObjectKind::Robot(RobotType::Sniper), false));
    assert_eq!(production.queue.len(), 2);
    assert!(cancel_production_queue_item(&mut production, 1, ObjectKind::Robot(RobotType::Sniper)));
    let after: Vec<ObjectKind> = production.queue.iter().copied().collect();
    assert_eq!(after, before);
    // A unit the building cannot build at its level is refused.
    assert!(!add_production_queue(&mut production, BuildingType::FortFront, ProductionLevel::Level0, ObjectKind::Robot(RobotType::Laser), true));
    assert_eq!(production.queue.len(), 1);
}

#[test]
fn rally_point_command_replaces_or_appends_like_original_shift_send() {
    let mut rally_points: Vec<(i32, i32)> = Vec::new();
    apply_building_rally_point(&mut rally_points, (10, -20), false);
    assert_eq!(rally_points, vec![(10, -20)]);
    apply_building_rally_point(&mut rally_points, (30, -40), true);
    assert_eq!(rally_points, vec![(10, -20), (30, -40)]);
    apply_building_rally_point(&mut rally_points, (50, -60), false);
    assert_eq!(rally_points, vec![(50, -60)]);
}

#[test]
fn production_spawn_route_appends_rally_points_after_factory_exit() {
    let rally_points = vec![(32, -64), (96, -128)];
    assert_eq!(production_spawn_route((16, -16), Some(&rally_points)), vec![(16, -16), (32, -64), (96, -128)]);
    assert_eq!(production_spawn_route((16, -16), None), vec![(16, -16)]);
}

#[test]
fn production_spawn_route_for_minion_keeps_only_initial_clone_waypoint() {
    let rally_points = vec![(32, -64)];
    assert_eq!(production_spawn_route_for_member((16, -16), Some(&rally_points), true), vec![(16, -16), (32, -64)]);
    assert_eq!(production_spawn_route_for_member((16, -16), Some(&rally_points), false), vec![(16, -16)]);
}

#[test]
fn advancing_production_finishes_the_current_unit_and_restarts_the_queue() {
    let grunt = ObjectKind::Robot(RobotType::Grunt);
    let mut production = test_production();
    production.current = Some(grunt);
    production.queue.push_back(grunt);
    // The timer has not run out: nothing happens.
    assert!(advance_production(&mut production, false).is_empty());
    assert_eq!(production.current, Some(grunt));
    // It has: the grunt is done and, the queue holding only it, starts again.
    assert_eq!(advance_production(&mut production, true), vec![grunt]);
    assert_eq!(production.current, Some(grunt));
    assert_eq!(production.status, BuildingProductionStatus::Building);
    assert_eq!(production.queue.iter().copied().collect::<Vec<_>>(), vec![grunt]);
    // A paused building completes nothing without the unit limit check.
    production.status = BuildingProductionStatus::Paused;
    assert!(advance_production(&mut production, true).is_empty());
}

#[test]
fn unit_limit_holds_production_back_until_it_clears() {
    let grunt = ObjectKind::Robot(RobotType::Grunt);
    let sniper = ObjectKind::Robot(RobotType::Sniper);
    let mut production = test_production();
    production.current = Some(grunt);
    production.queue.push_back(grunt);
    production.queue.push_back(sniper);
    assert!(advance_production_with_unit_limit(&mut production, true, true).is_empty());
    assert!(production.unit_limit_reached);
    assert_eq!(production.current, Some(grunt));
    // The finished grunt leaves the queue front and, being next there, starts again.
    assert_eq!(advance_production_with_unit_limit(&mut production, true, false), vec![grunt]);
    assert!(!production.unit_limit_reached);
    assert_eq!(production.current, Some(grunt));
    assert_eq!(production.queue.iter().copied().collect::<Vec<_>>(), vec![sniper]);
    assert_eq!(advance_production_with_unit_limit(&mut production, true, false), vec![grunt]);
    assert_eq!(production.current, Some(sniper));
    assert_eq!(production.queue.iter().copied().collect::<Vec<_>>(), vec![sniper]);
}

#[test]
fn server_build_times_drive_production_ticks() {
    let grunt = ObjectKind::Robot(RobotType::Grunt);
    let sniper = ObjectKind::Robot(RobotType::Sniper);
    // Settings that cannot be read give no build time: the next unit does not start.
    let empty = SourceSettingsState::new(Vec::new());
    let mut production = test_production();
    production.status = BuildingProductionStatus::Paused;
    production.current = Some(grunt);
    production.queue.push_back(grunt);
    production.queue.push_back(sniper);
    assert!(advance_production_with_unit_limit_from_source(&mut production, false, false, &empty).is_empty());
    assert_eq!(advance_production_with_unit_limit_from_source(&mut production, true, false, &empty), vec![grunt]);
    assert_eq!(production.current, None);
    assert_eq!(production.status, BuildingProductionStatus::Select);
    assert_eq!(production.queue.iter().copied().collect::<Vec<_>>(), vec![sniper]);
    // Readable settings start the next queued unit.
    let settings = SourceSettingsState::new(vec![0; SOURCE_ZSETTINGS_PACKET_SIZE]);
    let mut production = test_production();
    production.current = Some(grunt);
    production.queue.push_back(grunt);
    production.queue.push_back(sniper);
    assert!(advance_production_with_unit_limit_from_source(&mut production, true, true, &settings).is_empty());
    assert_eq!(advance_production_with_unit_limit_from_source(&mut production, true, false, &settings), vec![grunt]);
    assert_eq!(production.current, Some(grunt));
    assert_eq!(advance_production_with_unit_limit_from_source(&mut production, true, false, &settings), vec![grunt]);
    assert_eq!(production.current, Some(sniper));
    assert_eq!(production.status, BuildingProductionStatus::Building);
}

#[test]
fn production_spawn_waypoints_preserve_source_modes_and_flags() {
    let rally_points = vec![(32, -64), (96, -128)];
    let route = production_spawn_waypoints((16, -16), Some(&rally_points));

    assert_eq!(route.len(), 3);
    assert_eq!(route[0].position, (16, -16));
    assert_eq!(route[0].mode, SourceWaypointMode::ForceMove);
    assert_eq!(route[0].ref_id, None);
    assert!(!route[0].attack_to);
    assert!(!route[0].player_given);

    assert_eq!(route[1].position, (32, -64));
    assert_eq!(route[1].mode, SourceWaypointMode::Move);
    assert_eq!(route[1].ref_id, None);
    assert!(route[1].attack_to);
    assert!(route[1].player_given);

    assert_eq!(route[2].position, (96, -128));
    assert_eq!(route[2].mode, SourceWaypointMode::Move);
    assert_eq!(route[2].ref_id, None);
    assert!(route[2].attack_to);
    assert!(route[2].player_given);
}

#[test]
fn production_spawn_waypoints_for_minion_keeps_force_exit_only() {
    let rally_points = vec![(32, -64)];
    let route = production_spawn_waypoints_for_member((16, -16), Some(&rally_points), false);

    assert_eq!(route.len(), 1);
    assert_eq!(route[0].position, (16, -16));
    assert_eq!(route[0].mode, SourceWaypointMode::ForceMove);
    assert_eq!(route[0].ref_id, None);
    assert!(!route[0].attack_to);
    assert!(!route[0].player_given);
    assert_eq!(production_spawn_waypoints_for_member((16, -16), Some(&rally_points), true).len(), 2);
    assert_eq!(production_spawn_waypoints::<(i32, i32)>((16, -16), None).len(), 1);
}
