use zod_units::original::objects::{BuildingType, ObjectKind, RobotType, VehicleType};
use zod_units::original::types::{PlanetType, TeamType};
use zod_units::render::atlas::{FactoryOverlayKind, RadarOverlayKind, RepairOverlayKind};
use zod_units::selection::attack_command_no_way;
use zod_units::units::buildings::building_ui::{BridgeVisualState, BuildingOverlayFrameSpec};
use zod_units::units::buildings::bridge_horz::bridge_horz_ui;
use zod_units::units::buildings::bridge_vert::bridge_vert_ui;
use zod_units::units::buildings::fort_back::fort_back_ui;
use zod_units::units::buildings::fort_front::fort_front_ui;
use zod_units::units::buildings::radar::radar_ui;
use zod_units::units::buildings::repair::repair_ui;
use zod_units::units::buildings::robot_factory::robot_factory_ui;
use zod_units::units::buildings::vehicle_factory::vehicle_factory_ui;
use zod_units::units::buildings::{
    building_piece_frame_paths_for_variants, factory_overlay_frame_specs, factory_overlay_initial_frame_visible,
    factory_overlay_kinds, radar_overlay_frame_specs, radar_overlay_kinds, repair_overlay_frame_specs,
    repair_overlay_initial_frame, repair_overlay_kinds,
};

#[test]
fn attack_command_no_way_matches_single_selected_source_gate() {
    assert!(attack_command_no_way(
        &[7],
        8,
        &[(7, ObjectKind::Robot(RobotType::Grunt)), (8, ObjectKind::Vehicle(VehicleType::Heavy))],
    ));
    assert!(!attack_command_no_way(
        &[7, 9],
        8,
        &[(7, ObjectKind::Robot(RobotType::Grunt)), (8, ObjectKind::Vehicle(VehicleType::Heavy))],
    ));
    assert!(!attack_command_no_way(
        &[7],
        8,
        &[(7, ObjectKind::Vehicle(VehicleType::Heavy)), (8, ObjectKind::Robot(RobotType::Grunt))],
    ));
}

#[test]
fn radar_ui_atlas_layer_specs_match_original_base_and_team_overlay() {
    let specs = radar_ui::atlas_layer_specs(TeamType::Purple, PlanetType::City);
    assert_eq!(specs.len(), 2);
    assert_eq!(specs[0].atlas_team, TeamType::Red);
    assert_eq!(specs[0].frame_name, "building_radar_base_city");
    assert_eq!((specs[0].offset_x, specs[0].offset_y), (0, 0));
    assert_eq!(specs[1].atlas_team, TeamType::Red);
    assert_eq!(specs[1].frame_name, "building_radar_red");
    assert_eq!((specs[1].offset_x, specs[1].offset_y), (0, 32));
}

#[test]
fn radar_ui_overlay_frame_specs_match_original_assets_and_offsets() {
    assert_eq!(radar_ui::overlay_kinds().len(), 4);
    assert_eq!(
        radar_ui::overlay_frame_names(RadarOverlayKind::FrontLight),
        vec!["building_radar_front_light_0".to_string(), "building_radar_front_light_1".to_string()]
    );
    assert_eq!(
        radar_ui::overlay_offsets(RadarOverlayKind::Dish),
        vec![(15, -5), (15, -6), (15, -10), (15, -13), (15, -15), (15, -13), (15, -10), (15, -6)]
    );
    let specs = radar_ui::overlay_frame_specs(RadarOverlayKind::BoxSpinner);
    assert_eq!(specs.len(), 12);
    assert_eq!(specs[0].frame_name, "building_radar_box_spinner_0");
    assert_eq!((specs[0].offset_x, specs[0].offset_y), (18, 13));
}

#[test]
fn repair_ui_atlas_layer_specs_match_original_base_and_team_overlay() {
    let specs = repair_ui::atlas_layer_specs(TeamType::Green, PlanetType::Volcanic);
    assert_eq!(specs.len(), 2);
    assert_eq!(specs[0].atlas_team, TeamType::Red);
    assert_eq!(specs[0].frame_name, "building_repair_base_volcanic");
    assert_eq!(specs[1].atlas_team, TeamType::Green);
    assert_eq!(specs[1].frame_name, "building_repair_green");
    assert_eq!((specs[1].offset_x, specs[1].offset_y), (0, 48));
}

#[test]
fn repair_ui_overlay_frame_specs_match_original_assets_and_offsets() {
    assert_eq!(
        repair_ui::overlay_kinds(),
        vec![
            RepairOverlayKind::TextBox,
            RepairOverlayKind::Bulb,
            RepairOverlayKind::SmokeStack,
            RepairOverlayKind::FrontLight,
            RepairOverlayKind::SideLight
        ]
    );
    assert_eq!(
        repair_ui::overlay_frame_names(RepairOverlayKind::TextBox),
        vec![
            "building_repair_text_box_0".to_string(),
            "building_repair_text_box_1".to_string(),
            "building_repair_text_box_2".to_string()
        ]
    );
    assert_eq!(repair_ui::overlay_offsets(RepairOverlayKind::SmokeStack), vec![(61, 0); 5]);
    let specs = repair_ui::overlay_frame_specs(RepairOverlayKind::Bulb);
    assert_eq!(specs.len(), 2);
    assert_eq!(specs[0].frame_name, "building_repair_bulb_0");
    assert_eq!((specs[0].offset_x, specs[0].offset_y), (32, 0));
}

#[test]
fn robot_factory_ui_atlas_layer_and_production_label_specs_match_original_assets() {
    assert_eq!(robot_factory_ui::production_label_asset_path(), "other/production_gui/robot_factory_label.png");
    let specs = robot_factory_ui::atlas_layer_specs(TeamType::Blue, PlanetType::Desert);
    assert_eq!(specs.len(), 2);
    assert_eq!(specs[0].atlas_team, TeamType::Red);
    assert_eq!(specs[0].frame_name, "building_robot_base_desert");
    assert_eq!(specs[1].atlas_team, TeamType::Blue);
    assert_eq!(specs[1].frame_name, "building_robot_blue");
    assert_eq!((specs[1].offset_x, specs[1].offset_y), (16, 64));
}

#[test]
fn robot_factory_ui_overlay_frame_specs_match_original_assets_and_offsets() {
    assert_eq!(robot_factory_ui::overlay_kinds().len(), 8);
    assert_eq!(
        robot_factory_ui::overlay_frame_names(FactoryOverlayKind::RobotGreenBox).last().map(String::as_str),
        Some("building_robot_green_box_5")
    );
    assert_eq!(
        robot_factory_ui::overlay_frame_names(FactoryOverlayKind::RobotSingleLight0),
        vec!["building_robot_light_0".to_string(), "building_robot_light_1".to_string()]
    );
    assert_eq!(robot_factory_ui::overlay_offsets(FactoryOverlayKind::RobotExhaust).last().copied(), Some((28, -48)));
    assert!(!robot_factory_ui::overlay_initial_frame_visible(FactoryOverlayKind::RobotSingleLight0));
    assert!(robot_factory_ui::overlay_initial_frame_visible(FactoryOverlayKind::RobotBody));
    let specs = robot_factory_ui::overlay_frame_specs(FactoryOverlayKind::RobotSpin);
    assert_eq!(specs.len(), 8);
    assert_eq!(specs[0].frame_name, "building_robot_spin_0");
    assert_eq!((specs[0].offset_x, specs[0].offset_y), (9, -2));
}

#[test]
fn vehicle_factory_ui_atlas_layer_and_production_label_specs_match_original_assets() {
    assert_eq!(vehicle_factory_ui::production_label_asset_path(), "other/production_gui/vehicle_factory_label.png");
    let specs = vehicle_factory_ui::atlas_layer_specs(TeamType::Yellow, PlanetType::Arctic);
    assert_eq!(specs.len(), 2);
    assert_eq!(specs[0].atlas_team, TeamType::Red);
    assert_eq!(specs[0].frame_name, "building_vehicle_base_arctic");
    assert_eq!(specs[1].atlas_team, TeamType::Yellow);
    assert_eq!(specs[1].frame_name, "building_vehicle_yellow");
    assert_eq!((specs[1].offset_x, specs[1].offset_y), (32, 48));
}

#[test]
fn vehicle_factory_ui_overlay_frame_specs_match_original_assets_and_offsets() {
    assert_eq!(vehicle_factory_ui::overlay_kinds().len(), 7);
    assert_eq!(vehicle_factory_ui::overlay_frame_names(FactoryOverlayKind::VehicleVent).len(), 4);
    assert_eq!(
        vehicle_factory_ui::overlay_frame_names(FactoryOverlayKind::VehicleLight1),
        vec!["building_vehicle_lights_1".to_string()]
    );
    assert_eq!(vehicle_factory_ui::overlay_offsets(FactoryOverlayKind::VehicleExhaust).last().copied(), Some((28, -46)));
    assert_eq!(vehicle_factory_ui::overlay_offsets(FactoryOverlayKind::VehicleLight1), vec![(42, 47)]);
    assert!(vehicle_factory_ui::overlay_initial_frame_visible(FactoryOverlayKind::VehicleLight1));
    assert!(!vehicle_factory_ui::overlay_initial_frame_visible(FactoryOverlayKind::RobotSingleLight0));
    let specs = vehicle_factory_ui::overlay_frame_specs(FactoryOverlayKind::VehicleBulb);
    assert_eq!(specs.len(), 2);
    assert_eq!(specs[0].frame_name, "building_vehicle_bulb_0");
    assert_eq!((specs[0].offset_x, specs[0].offset_y), (24, 39));
}

#[test]
fn fort_front_ui_atlas_and_flag_specs_match_original_frames() {
    assert_eq!(fort_front_ui::base_atlas_frame_name(PlanetType::Volcanic), "fort_volcanic_front");
    assert_eq!(
        fort_front_ui::flag_frame_names(TeamType::Blue),
        vec![
            "fort_flag_blue_n00".to_string(),
            "fort_flag_blue_n01".to_string(),
            "fort_flag_blue_n02".to_string(),
            "fort_flag_blue_n03".to_string()
        ]
    );
    assert_eq!(fort_front_ui::flag_world_offset(), (85, 29));
    let specs = fort_front_ui::atlas_layer_specs(TeamType::Black, PlanetType::City);
    assert_eq!(specs.len(), 2);
    assert_eq!(specs[0].atlas_team, TeamType::Red);
    assert_eq!(specs[0].frame_name, "fort_city_front");
    assert_eq!(specs[1].atlas_team, TeamType::Red);
    assert_eq!(specs[1].animation_frame_names.len(), 4);
}

#[test]
fn fort_back_ui_atlas_and_flag_specs_match_original_frames() {
    assert_eq!(fort_back_ui::base_atlas_frame_name(PlanetType::Arctic), "fort_arctic_back");
    assert_eq!(
        fort_back_ui::flag_frame_names(TeamType::Yellow).last().map(String::as_str),
        Some("fort_flag_yellow_n03")
    );
    assert_eq!(fort_back_ui::flag_world_offset(), (85, 29));
    let specs = fort_back_ui::atlas_layer_specs(TeamType::Yellow, PlanetType::Desert);
    assert_eq!(specs.len(), 2);
    assert_eq!(specs[0].atlas_team, TeamType::Red);
    assert_eq!(specs[0].frame_name, "fort_desert_back");
    assert_eq!(specs[1].atlas_team, TeamType::Yellow);
    assert_eq!(specs[1].animation_frame_names.len(), 4);
}

#[test]
fn bridge_horizontal_visual_tiles_match_original_indices_and_offsets() {
    let specs = bridge_horz_ui::visual_tile_specs(2, BridgeVisualState::Damaged);
    assert_eq!(specs.len(), 7);
    assert_eq!(specs[0].index, bridge_horz_ui::LEFT_INDEX);
    assert_eq!(specs[1].index, bridge_horz_ui::SECOND_INDEX);
    assert_eq!(specs[2].index, bridge_horz_ui::FILL_DAMAGED_0_INDEX);
    assert_eq!(specs[3].index, bridge_horz_ui::FILL_DAMAGED_1_INDEX);
    assert_eq!(specs[5].index, bridge_horz_ui::PENULTIMATE_INDEX);
    assert_eq!(specs[6].index, bridge_horz_ui::RIGHT_INDEX);
    assert_eq!((specs[3].offset_x, specs[3].offset_y), (48, 0));
    assert_eq!((specs[3].frame_width, specs[3].frame_height), (16, 64));
    assert_eq!(bridge_horz_ui::fill_index(BridgeVisualState::Live, 3), bridge_horz_ui::FILL_LIVE_INDEX);
}

#[test]
fn bridge_vertical_visual_tiles_match_original_indices_and_offsets() {
    let specs = bridge_vert_ui::visual_tile_specs(2, BridgeVisualState::Damaged);
    assert_eq!(specs.len(), 7);
    assert_eq!(specs[0].index, bridge_vert_ui::TOP_INDEX);
    assert_eq!(specs[1].index, bridge_vert_ui::SECOND_INDEX);
    assert_eq!(specs[2].index, bridge_vert_ui::FILL_DAMAGED_0_INDEX);
    assert_eq!(specs[3].index, bridge_vert_ui::FILL_DAMAGED_1_INDEX);
    assert_eq!(specs[5].index, bridge_vert_ui::PENULTIMATE_INDEX);
    assert_eq!(specs[6].index, bridge_vert_ui::BOTTOM_INDEX);
    assert_eq!((specs[3].offset_x, specs[3].offset_y), (0, 48));
    assert_eq!((specs[3].frame_width, specs[3].frame_height), (64, 16));
    assert_eq!(bridge_vert_ui::fill_index(BridgeVisualState::Destroyed, 3), bridge_vert_ui::FILL_DESTROYED_INDEX);
}

#[test]
fn building_piece_assets_and_timing_match_original_turrent_missiles() {
    assert_eq!(building_piece_frame_paths_for_variants(0, 2).len(), 12);
    assert_eq!(building_piece_frame_paths_for_variants(0, 2).first().unwrap(), "buildings/death_effects/piece0_n00.png");
    assert_eq!(building_piece_frame_paths_for_variants(1, 2).last().unwrap(), "buildings/death_effects/piece1_n11.png");
    assert_eq!(
        building_piece_frame_paths_for_variants(4, 5).last().unwrap(),
        "buildings/death_effects/fort_piece4_n11.png"
    );
}

#[test]
fn overlay_specs_are_available_from_building_facade() {
    assert_eq!(radar_overlay_kinds().len(), 4);
    assert_eq!(repair_overlay_kinds().len(), 5);
    assert_eq!(factory_overlay_kinds(BuildingType::RobotFactory).unwrap().len(), 8);
    assert_eq!(
        radar_overlay_frame_specs(RadarOverlayKind::FrontLight)[0],
        BuildingOverlayFrameSpec { frame_name: "building_radar_front_light_0".to_string(), offset_x: 16, offset_y: 22 }
    );
    assert_eq!(repair_overlay_initial_frame(RepairOverlayKind::SideLight, TeamType::Red, false), 1);
    assert_eq!(
        repair_overlay_frame_specs(RepairOverlayKind::SmokeStack)[0],
        BuildingOverlayFrameSpec { frame_name: "building_repair_smoke_stack_0".to_string(), offset_x: 61, offset_y: 0 }
    );
    assert_eq!(
        factory_overlay_frame_specs(FactoryOverlayKind::VehicleLight1)[0],
        BuildingOverlayFrameSpec { frame_name: "building_vehicle_lights_1".to_string(), offset_x: 42, offset_y: 47 }
    );
    assert!(!factory_overlay_initial_frame_visible(FactoryOverlayKind::RobotSingleLight0));
}
