use zod_units::components::ObjectStats;
use zod_units::original::objects::{BuildingType, ObjectKind, VehicleType};
use zod_units::original::types::{PlanetType, TeamType};
use zod_units::render::atlas::{RadarOverlayKind, RepairOverlayKind};
use zod_units::units::buildings::radar;
use zod_units::units::buildings::radar::radar_ui;
use zod_units::units::buildings::repair;
use zod_units::units::buildings::repair::repair_logic::{can_repair_target_unit, can_repair_unit};
use zod_units::units::buildings::repair::repair_ui;
use zod_units::units::buildings::{
    radar_overlay_kinds_for_object, repair_overlay_initial_frame, repair_overlay_kinds, repair_overlay_kinds_for_object,
};

#[test]
fn radar_destroyed_asset_matches_original_path() {
    assert_eq!(radar::destroyed_asset_path(PlanetType::Arctic), "buildings/radar/base_destroyed_arctic.png");
}

#[test]
fn radar_ui_destroyed_asset_matches_original_path() {
    assert_eq!(radar_ui::destroyed_asset_path(PlanetType::Arctic), "buildings/radar/base_destroyed_arctic.png");
}

fn check_radar_visibility(visible: fn(RadarOverlayKind, TeamType, ObjectStats) -> bool) {
    let live = ObjectStats::from_kind(ObjectKind::Building(BuildingType::Radar), 100);
    let destroyed = ObjectStats::from_kind(ObjectKind::Building(BuildingType::Radar), 0);
    assert!(visible(RadarOverlayKind::FrontLight, TeamType::Null, live));
    assert!(!visible(RadarOverlayKind::Dish, TeamType::Null, live));
    assert!(visible(RadarOverlayKind::BoxSpinner, TeamType::Red, live));
    assert!(!visible(RadarOverlayKind::FrontLight, TeamType::Red, destroyed));
}

#[test]
fn radar_overlay_visibility_matches_original_owner_and_destroyed_rules() {
    check_radar_visibility(radar::overlay_should_be_visible);
}

#[test]
fn radar_ui_overlay_visibility_matches_original_owner_and_destroyed_rules() {
    check_radar_visibility(radar_ui::overlay_should_be_visible);
}

#[test]
fn radar_atlas_and_overlay_frames_match_names() {
    assert_eq!(radar_ui::base_atlas_frame_name(PlanetType::City), "building_radar_base_city");
    assert_eq!(radar_ui::team_overlay_frame_name(TeamType::Purple), "building_radar_red");
    assert_eq!(radar_ui::team_overlay_frame_name(TeamType::Blue), "building_radar_blue");
    assert_eq!(
        radar_ui::overlay_frame_names(RadarOverlayKind::FrontLight),
        vec!["building_radar_front_light_0".to_string(), "building_radar_front_light_1".to_string()]
    );
    let spinner = radar_ui::overlay_frame_names(RadarOverlayKind::BoxSpinner);
    assert_eq!(spinner.len(), 12);
    assert_eq!(spinner[11], "building_radar_box_spinner_11");
    assert_eq!(radar_ui::overlay_kinds().len(), 4);
    assert_eq!(radar_overlay_kinds_for_object(ObjectKind::Building(BuildingType::Radar)).unwrap().len(), 4);
    assert!(radar_overlay_kinds_for_object(ObjectKind::Building(BuildingType::Repair)).is_none());
}

#[test]
fn repair_destroyed_asset_matches_original_path() {
    assert_eq!(repair::destroyed_asset_path(PlanetType::Desert), "buildings/repair/base_destroyed_desert.png");
}

#[test]
fn repair_ui_destroyed_asset_matches_original_path() {
    assert_eq!(repair_ui::destroyed_asset_path(PlanetType::Desert), "buildings/repair/base_destroyed_desert.png");
}

fn check_repair_visibility(visible: fn(RepairOverlayKind, TeamType, ObjectStats, bool) -> bool) {
    let live = ObjectStats::from_kind(ObjectKind::Building(BuildingType::Repair), 100);
    let destroyed = ObjectStats::from_kind(ObjectKind::Building(BuildingType::Repair), 0);
    assert!(visible(RepairOverlayKind::SmokeStack, TeamType::Null, live, false));
    assert!(!visible(RepairOverlayKind::TextBox, TeamType::Null, live, false));
    assert!(visible(RepairOverlayKind::TextBox, TeamType::Red, live, false));
    assert!(!visible(RepairOverlayKind::SmokeStack, TeamType::Red, live, false));
    assert!(visible(RepairOverlayKind::SmokeStack, TeamType::Red, live, true));
    assert!(!visible(RepairOverlayKind::FrontLight, TeamType::Red, destroyed, true));
}

#[test]
fn repair_overlay_visibility_matches_original_owner_destroyed_and_busy_rules() {
    check_repair_visibility(repair::overlay_should_be_visible);
}

#[test]
fn repair_ui_overlay_visibility_matches_original_owner_destroyed_and_busy_rules() {
    check_repair_visibility(repair_ui::overlay_should_be_visible);
}

fn check_forced_frames(forced: fn(RepairOverlayKind, TeamType, bool) -> Option<usize>) {
    assert_eq!(forced(RepairOverlayKind::FrontLight, TeamType::Red, true), Some(1));
    assert_eq!(forced(RepairOverlayKind::SideLight, TeamType::Red, false), Some(1));
    assert_eq!(forced(RepairOverlayKind::Bulb, TeamType::Red, false), Some(0));
    assert_eq!(forced(RepairOverlayKind::SmokeStack, TeamType::Null, false), Some(0));
    assert_eq!(forced(RepairOverlayKind::TextBox, TeamType::Red, false), None);
    assert_eq!(forced(RepairOverlayKind::Bulb, TeamType::Red, true), None);
}

#[test]
fn repair_overlay_forced_frames_match_original_after_effects() {
    check_forced_frames(repair::overlay_forced_frame);
}

#[test]
fn repair_ui_overlay_forced_frames_match_original_after_effects() {
    check_forced_frames(repair_ui::overlay_forced_frame);
    assert_eq!(repair_ui::overlay_initial_frame(RepairOverlayKind::FrontLight, TeamType::Red, true), 1);
    assert_eq!(repair_ui::overlay_initial_frame(RepairOverlayKind::TextBox, TeamType::Red, true), 0);
    assert_eq!(repair_overlay_initial_frame(RepairOverlayKind::SideLight, TeamType::Red, false), 1);
}

#[test]
fn repair_building_accepts_same_team_damaged_vehicle() {
    let building_stats = ObjectStats::from_kind(ObjectKind::Building(BuildingType::Repair), 100);
    let vehicle_stats = ObjectStats::from_kind(ObjectKind::Vehicle(VehicleType::Light), 50);
    assert!(can_repair_unit(ObjectKind::Building(BuildingType::Repair), TeamType::Red, TeamType::Red, building_stats));
    assert!(can_repair_target_unit(ObjectKind::Vehicle(VehicleType::Light), TeamType::Red, vehicle_stats));
    assert!(!can_repair_unit(ObjectKind::Building(BuildingType::Repair), TeamType::Blue, TeamType::Red, building_stats));
}

#[test]
fn repair_refuses_unowned_destroyed_and_undamaged_units() {
    let full = ObjectStats::from_kind(ObjectKind::Vehicle(VehicleType::Light), 100);
    let wreck = ObjectStats::from_kind(ObjectKind::Vehicle(VehicleType::Light), 0);
    let half = ObjectStats::from_kind(ObjectKind::Vehicle(VehicleType::Light), 50);
    assert!(!can_repair_target_unit(ObjectKind::Vehicle(VehicleType::Light), TeamType::Red, full));
    assert!(!can_repair_target_unit(ObjectKind::Vehicle(VehicleType::Light), TeamType::Red, wreck));
    assert!(!can_repair_target_unit(ObjectKind::Vehicle(VehicleType::Light), TeamType::Null, half));
    assert!(!can_repair_target_unit(ObjectKind::Building(BuildingType::Radar), TeamType::Red, half));
    let building = ObjectStats::from_kind(ObjectKind::Building(BuildingType::Repair), 100);
    assert!(!can_repair_unit(ObjectKind::Building(BuildingType::Repair), TeamType::Null, TeamType::Null, building));
    assert!(!can_repair_unit(ObjectKind::Building(BuildingType::Radar), TeamType::Red, TeamType::Red, building));
}

#[test]
fn repair_atlas_and_overlay_frames_match_names() {
    assert_eq!(repair_ui::base_atlas_frame_name(PlanetType::Volcanic), "building_repair_base_volcanic");
    assert_eq!(repair_ui::team_overlay_frame_name(TeamType::Green), "building_repair_green");
    assert_eq!(
        repair_ui::overlay_frame_names(RepairOverlayKind::TextBox),
        vec![
            "building_repair_text_box_0".to_string(),
            "building_repair_text_box_1".to_string(),
            "building_repair_text_box_2".to_string()
        ]
    );
    assert_eq!(
        repair_overlay_kinds(),
        vec![
            RepairOverlayKind::TextBox,
            RepairOverlayKind::Bulb,
            RepairOverlayKind::SmokeStack,
            RepairOverlayKind::FrontLight,
            RepairOverlayKind::SideLight
        ]
    );
    assert!(repair_overlay_kinds_for_object(ObjectKind::Building(BuildingType::Repair)).is_some());
    assert!(repair_overlay_kinds_for_object(ObjectKind::Vehicle(VehicleType::Jeep)).is_none());
}
