use std::collections::HashMap;

use zod_units::components::{ObjectStats, ProductionLevel};
use zod_units::original::objects::{BuildingType, CannonType, ObjectKind, RobotType};
use zod_units::original::types::{PlanetType, TeamType};
use zod_units::render::atlas::FactoryOverlayKind;
use zod_units::units::buildings::robot_factory;
use zod_units::units::buildings::robot_factory::robot_factory_ui;
use zod_units::units::buildings::vehicle_factory;
use zod_units::units::buildings::vehicle_factory::vehicle_factory_ui;
use zod_units::units::buildings::{
    factory_overlay_frame_names, factory_overlay_initial_frame_visible, factory_overlay_kinds,
    factory_overlay_kinds_for_object, factory_overlay_next_frame, factory_overlay_should_be_visible,
};

#[test]
fn robot_factory_destroyed_asset_matches_original_path() {
    assert_eq!(robot_factory::destroyed_asset_path(PlanetType::Jungle), "buildings/robot/base_destroyed_jungle.png");
}

#[test]
fn robot_factory_ui_destroyed_asset_matches_original_path() {
    assert_eq!(robot_factory_ui::destroyed_asset_path(PlanetType::Jungle), "buildings/robot/base_destroyed_jungle.png");
}

fn check_robot_visibility(visible: fn(FactoryOverlayKind, TeamType, ObjectStats, bool, usize) -> bool) {
    let live = ObjectStats::from_kind(ObjectKind::Building(BuildingType::RobotFactory), 100);
    let destroyed = ObjectStats::from_kind(ObjectKind::Building(BuildingType::RobotFactory), 0);
    assert!(visible(FactoryOverlayKind::RobotBody, TeamType::Null, live, false, 0));
    assert!(!visible(FactoryOverlayKind::RobotSpin, TeamType::Null, live, false, 0));
    assert!(visible(FactoryOverlayKind::RobotSpin, TeamType::Red, live, true, 0));
    assert!(!visible(FactoryOverlayKind::RobotBody, TeamType::Red, destroyed, true, 0));
    assert!(!visible(FactoryOverlayKind::RobotSingleLight0, TeamType::Red, live, true, 0));
    assert!(visible(FactoryOverlayKind::RobotSingleLight0, TeamType::Red, live, true, 1));
}

#[test]
fn robot_factory_overlay_visibility_matches_original_owner_building_and_destroyed_rules() {
    check_robot_visibility(robot_factory::overlay_should_be_visible);
}

#[test]
fn robot_factory_ui_overlay_visibility_matches_original_owner_building_and_destroyed_rules() {
    check_robot_visibility(robot_factory_ui::overlay_should_be_visible);
}

#[test]
fn vehicle_factory_destroyed_asset_matches_original_path() {
    assert_eq!(vehicle_factory::destroyed_asset_path(PlanetType::Volcanic), "buildings/vehicle/base_destroyed_volcanic.png");
}

#[test]
fn vehicle_factory_ui_destroyed_asset_matches_original_path() {
    assert_eq!(
        vehicle_factory_ui::destroyed_asset_path(PlanetType::Volcanic),
        "buildings/vehicle/base_destroyed_volcanic.png"
    );
}

fn check_vehicle_visibility(visible: fn(FactoryOverlayKind, TeamType, ObjectStats, bool) -> bool) {
    let live = ObjectStats::from_kind(ObjectKind::Building(BuildingType::VehicleFactory), 100);
    let destroyed = ObjectStats::from_kind(ObjectKind::Building(BuildingType::VehicleFactory), 0);
    assert!(visible(FactoryOverlayKind::VehicleTank, TeamType::Null, live, false));
    assert!(!visible(FactoryOverlayKind::VehicleSpin, TeamType::Null, live, false));
    assert!(visible(FactoryOverlayKind::VehicleSpin, TeamType::Red, live, true));
    assert!(!visible(FactoryOverlayKind::VehicleTank, TeamType::Red, destroyed, true));
    assert!(!visible(FactoryOverlayKind::RobotBody, TeamType::Red, live, true));
}

#[test]
fn vehicle_factory_overlay_visibility_matches_original_owner_building_and_destroyed_rules() {
    check_vehicle_visibility(vehicle_factory::overlay_should_be_visible);
}

#[test]
fn vehicle_factory_ui_overlay_visibility_matches_original_owner_building_and_destroyed_rules() {
    check_vehicle_visibility(vehicle_factory_ui::overlay_should_be_visible);
}

#[test]
fn factory_overlay_frames_match_assets() {
    assert_eq!(
        robot_factory_ui::overlay_frame_names(FactoryOverlayKind::RobotGreenBox).last().map(String::as_str),
        Some("building_robot_green_box_5")
    );
    assert_eq!(
        robot_factory_ui::overlay_frame_names(FactoryOverlayKind::RobotSingleLight0),
        vec!["building_robot_light_0".to_string(), "building_robot_light_1".to_string()]
    );
    assert_eq!(factory_overlay_frame_names(FactoryOverlayKind::RobotExhaust).len(), 13);
    assert_eq!(factory_overlay_frame_names(FactoryOverlayKind::VehicleExhaust)[12], "exhaust_12");
    assert_eq!(factory_overlay_frame_names(FactoryOverlayKind::VehicleLight1), vec!["building_vehicle_lights_1".to_string()]);
    assert_eq!(factory_overlay_frame_names(FactoryOverlayKind::RobotDoubleLight), vec!["building_robot_double_light_1".to_string()]);
    assert!(robot_factory_ui::overlay_frame_names(FactoryOverlayKind::VehicleVent).is_empty());
    assert!(!factory_overlay_initial_frame_visible(FactoryOverlayKind::RobotSingleLight0));
    assert!(factory_overlay_initial_frame_visible(FactoryOverlayKind::RobotBody));
    assert!(factory_overlay_initial_frame_visible(FactoryOverlayKind::VehicleBulb));
    assert_eq!(factory_overlay_kinds(BuildingType::RobotFactory).unwrap().len(), 8);
    assert_eq!(factory_overlay_kinds(BuildingType::VehicleFactory).unwrap().len(), 7);
    assert!(factory_overlay_kinds(BuildingType::Radar).is_none());
    assert!(factory_overlay_kinds_for_object(ObjectKind::Robot(RobotType::Grunt)).is_none());
    assert_eq!(robot_factory_ui::production_label_asset_path(), "other/production_gui/robot_factory_label.png");
    assert_eq!(robot_factory_ui::team_overlay_frame_name(TeamType::Blue), "building_robot_blue");
    assert_eq!(vehicle_factory_ui::base_atlas_frame_name(PlanetType::Desert), "building_vehicle_base_desert");
}

#[test]
fn factory_overlay_visibility_routes_to_the_owning_factory() {
    let live = ObjectStats::from_kind(ObjectKind::Building(BuildingType::RobotFactory), 100);
    assert!(factory_overlay_should_be_visible(FactoryOverlayKind::RobotBody, TeamType::Null, live, false, 0));
    assert!(factory_overlay_should_be_visible(FactoryOverlayKind::VehicleTank, TeamType::Null, live, false, 0));
    assert!(!factory_overlay_should_be_visible(FactoryOverlayKind::VehicleBulb, TeamType::Null, live, false, 0));
}

#[test]
fn robot_single_lights_follow_recorded_flicker() {
    let mut updates: HashMap<u32, Option<[usize; 3]>> = HashMap::new();
    // No flicker drawn: the light keeps its frame.
    assert_eq!(
        factory_overlay_next_frame(10, FactoryOverlayKind::RobotSingleLight0, 0, 2, || robot_factory_ui::robot_single_light_update(1, [1, 1, 1]), &mut updates),
        0
    );
    // The recorded outcome is reused, the draw is not called again.
    assert_eq!(
        factory_overlay_next_frame(10, FactoryOverlayKind::RobotSingleLight1, 1, 2, || panic!("drawn twice"), &mut updates),
        1
    );
    let mut lit: HashMap<u32, Option<[usize; 3]>> = HashMap::new();
    assert_eq!(
        factory_overlay_next_frame(20, FactoryOverlayKind::RobotSingleLight0, 0, 2, || robot_factory_ui::robot_single_light_update(0, [1, 0, 1]), &mut lit),
        1
    );
    assert_eq!(factory_overlay_next_frame(20, FactoryOverlayKind::RobotSingleLight1, 1, 2, || None, &mut lit), 0);
    assert_eq!(factory_overlay_next_frame(20, FactoryOverlayKind::RobotSingleLight2, 0, 2, || None, &mut lit), 1);
    // Other overlays advance and wrap.
    assert_eq!(factory_overlay_next_frame(30, FactoryOverlayKind::RobotBody, 1, 2, || None, &mut lit), 0);
    assert_eq!(factory_overlay_next_frame(30, FactoryOverlayKind::RobotSpin, 6, 8, || None, &mut lit), 7);
    assert_eq!(lit.len(), 1);
}

#[test]
fn stale_factory_build_lists_keep_their_order() {
    assert_eq!(
        robot_factory::default_build_list(ProductionLevel::Level2),
        vec![
            ObjectKind::Robot(RobotType::Grunt),
            ObjectKind::Cannon(CannonType::Gatling),
            ObjectKind::Robot(RobotType::Psycho),
            ObjectKind::Robot(RobotType::Sniper),
            ObjectKind::Robot(RobotType::Tough),
            ObjectKind::Cannon(CannonType::Gun),
        ]
    );
    assert_eq!(robot_factory::default_production_unit(), ObjectKind::Robot(RobotType::Grunt));
    assert_eq!(vehicle_factory::default_build_list(ProductionLevel::Level0)[0], vehicle_factory::default_production_unit());
}
