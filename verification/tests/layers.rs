use zod_units::original::objects::{BuildingType, ObjectKind, RobotType, VehicleType};
use zod_units::original::types::{PlanetType, TeamType};
use zod_units::render::atlas::{FactoryOverlayKind, RadarOverlayKind, RepairOverlayKind};
use zod_units::units::attack::{can_be_sniped, effective_attack_kind};
use zod_units::units::buildings::building_ui::{BuildingAtlasFrameSpec, BuildingOverlayFrameSpec};
use zod_units::units::buildings::fort_back::fort_back_ui;
use zod_units::units::buildings::fort_front::fort_front_ui;
use zod_units::units::buildings::radar::radar_ui;
use zod_units::units::buildings::repair::repair_ui;
use zod_units::units::buildings::robot_factory::robot_factory_ui;
use zod_units::units::buildings::vehicle_factory::vehicle_factory_ui;
use zod_units::units::buildings::{
    building_layer_specs, factory_overlay_frame_specs, factory_overlay_offsets, radar_overlay_frame_specs,
    repair_overlay_frame_specs,
};

#[test]
fn building_atlas_layer_specs_route_to_per_unit_ui_modules() {
    assert_eq!(
        building_layer_specs(BuildingType::Radar, TeamType::Blue, PlanetType::Desert),
        vec![
            BuildingAtlasFrameSpec {
                atlas_team: TeamType::Red,
                frame_name: "building_radar_base_desert".to_string(),
                offset_x: 0,
                offset_y: 0,
                animation_frame_names: Vec::new()
            },
            BuildingAtlasFrameSpec {
                atlas_team: TeamType::Blue,
                frame_name: "building_radar_blue".to_string(),
                offset_x: 0,
                offset_y: 32,
                animation_frame_names: Vec::new()
            }
        ]
    );
    let fort_specs = building_layer_specs(BuildingType::FortFront, TeamType::Yellow, PlanetType::City);
    assert_eq!(fort_specs[0].frame_name, "fort_city_front");
    assert_eq!(fort_specs[1].animation_frame_names.last().map(String::as_str), Some("fort_flag_yellow_n03"));
    assert_eq!((fort_specs[1].offset_x, fort_specs[1].offset_y), (85, 29));
    assert!(building_layer_specs(BuildingType::BridgeHorz, TeamType::Red, PlanetType::City).is_empty());
}

#[test]
fn fort_atlas_layers_use_team_flags() {
    let specs = fort_front_ui::atlas_layer_specs(TeamType::Black, PlanetType::City);
    assert_eq!(specs.len(), 2);
    assert_eq!(specs[0].atlas_team, TeamType::Red);
    assert_eq!(specs[0].frame_name, "fort_city_front");
    assert_eq!(specs[1].atlas_team, TeamType::Red);
    assert_eq!(specs[1].animation_frame_names.len(), 4);
    assert_eq!(specs[1].frame_name, "fort_flag_red_n00");
    let back = fort_back_ui::atlas_layer_specs(TeamType::Yellow, PlanetType::Desert);
    assert_eq!(back[0].frame_name, "fort_desert_back");
    assert_eq!(back[1].atlas_team, TeamType::Yellow);
    assert_eq!(fort_front_ui::flag_world_offset(), (85, 29));
}

#[test]
fn unit_buildings_layer_their_team_parts() {
    let repair = repair_ui::atlas_layer_specs(TeamType::Green, PlanetType::Volcanic);
    assert_eq!(repair[0].frame_name, "building_repair_base_volcanic");
    assert_eq!(repair[1].atlas_team, TeamType::Green);
    assert_eq!(repair[1].frame_name, "building_repair_green");
    assert_eq!((repair[1].offset_x, repair[1].offset_y), (0, 48));
    let robot = robot_factory_ui::atlas_layer_specs(TeamType::Blue, PlanetType::Desert);
    assert_eq!(robot[0].frame_name, "building_robot_base_desert");
    assert_eq!(robot[1].frame_name, "building_robot_blue");
    assert_eq!((robot[1].offset_x, robot[1].offset_y), (16, 64));
    let vehicle = vehicle_factory_ui::atlas_layer_specs(TeamType::White, PlanetType::Arctic);
    assert_eq!(vehicle[1].atlas_team, TeamType::Red);
    assert_eq!(vehicle[1].frame_name, "building_vehicle_red");
    assert_eq!((vehicle[1].offset_x, vehicle[1].offset_y), (32, 48));
    let radar = radar_ui::atlas_layer_specs(TeamType::Purple, PlanetType::City);
    assert_eq!(radar[1].frame_name, "building_radar_red");
}

#[test]
fn overlay_frame_specs_match_original_assets_and_offsets() {
    assert_eq!(
        radar_ui::overlay_offsets(RadarOverlayKind::Dish),
        vec![(15, -5), (15, -6), (15, -10), (15, -13), (15, -15), (15, -13), (15, -10), (15, -6)]
    );
    let spinner = radar_overlay_frame_specs(RadarOverlayKind::BoxSpinner);
    assert_eq!(spinner.len(), 12);
    assert_eq!(
        spinner[0],
        BuildingOverlayFrameSpec { frame_name: "building_radar_box_spinner_0".to_string(), offset_x: 18, offset_y: 13 }
    );
    assert_eq!(repair_ui::overlay_offsets(RepairOverlayKind::SmokeStack), vec![(61, 0); 5]);
    assert_eq!(
        repair_overlay_frame_specs(RepairOverlayKind::Bulb)[0],
        BuildingOverlayFrameSpec { frame_name: "building_repair_bulb_0".to_string(), offset_x: 32, offset_y: 0 }
    );
    assert_eq!(factory_overlay_offsets(FactoryOverlayKind::RobotExhaust).last().copied(), Some((28, -48)));
    assert_eq!(factory_overlay_offsets(FactoryOverlayKind::VehicleExhaust)[1], (28, -24));
    let spin = factory_overlay_frame_specs(FactoryOverlayKind::RobotSpin);
    assert_eq!(spin.len(), 8);
    assert_eq!(spin[0].frame_name, "building_robot_spin_0");
    assert_eq!((spin[0].offset_x, spin[0].offset_y), (9, -2));
    assert_eq!(
        factory_overlay_frame_specs(FactoryOverlayKind::VehicleLight1)[0],
        BuildingOverlayFrameSpec { frame_name: "building_vehicle_lights_1".to_string(), offset_x: 42, offset_y: 47 }
    );
}

#[test]
fn snipable_drivers_and_apc_attacks() {
    assert!(can_be_sniped(ObjectKind::Vehicle(VehicleType::Heavy), true, true));
    assert!(!can_be_sniped(ObjectKind::Vehicle(VehicleType::Heavy), false, true));
    assert!(!can_be_sniped(ObjectKind::Vehicle(VehicleType::Heavy), true, false));
    assert!(!can_be_sniped(ObjectKind::Vehicle(VehicleType::Apc), true, true));
    assert_eq!(
        effective_attack_kind(ObjectKind::Vehicle(VehicleType::Apc), Some(RobotType::Pyro)),
        ObjectKind::Robot(RobotType::Pyro)
    );
    assert_eq!(effective_attack_kind(ObjectKind::Vehicle(VehicleType::Apc), None), ObjectKind::Vehicle(VehicleType::Apc));
    assert_eq!(
        effective_attack_kind(ObjectKind::Vehicle(VehicleType::Jeep), Some(RobotType::Pyro)),
        ObjectKind::Vehicle(VehicleType::Jeep)
    );
}
