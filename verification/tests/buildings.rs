use zod_units::components::{ObjectStats, ProductionLevel, ProductionWindowKind};
use zod_units::original::objects::{BuildingType, CannonType, ObjectKind, RobotType, VehicleType};
use zod_units::original::types::{PlanetType, TeamType};
use zod_units::units::buildings::building_ui::{BridgeVisualState, BridgeVisualTileSpec};
use zod_units::units::buildings::{
    auto_repair_blocking_fort, auto_repairable_after_destroy, bridge_center_offsets, bridge_edge_block_offsets,
    bridge_end_particle_count, bridge_horz_fill_index, bridge_pathing_dimensions, bridge_rock_particle_frame_paths,
    bridge_turrent_frame_paths, bridge_vert_fill_index, bridge_visual_state, bridge_visual_tile_specs,
    building_pathing_spec, building_piece_frame_paths_for_variants, cycle_production_selection, destroyed_asset_name,
    destroyed_asset_path, production_label_asset_path, production_label_asset_path_for_building,
    production_selector_unit_index, production_selector_units, production_window_kind, selected_production_unit,
    BuildingPathingRect,
};

#[test]
fn destroyed_building_assets_match_original_paths() {
    assert_eq!(
        destroyed_asset_name(ObjectKind::Building(BuildingType::Radar), PlanetType::Arctic),
        Some("buildings/radar/base_destroyed_arctic.png".to_string())
    );
    assert_eq!(
        destroyed_asset_name(ObjectKind::Building(BuildingType::FortFront), PlanetType::Desert),
        Some("buildings/fort/fort_desert_front_destroyed.png".to_string())
    );
    assert_eq!(destroyed_asset_name(ObjectKind::Building(BuildingType::BridgeHorz), PlanetType::Desert), None);
    assert_eq!(destroyed_asset_name(ObjectKind::Cannon(CannonType::Gun), PlanetType::Desert), None);
}

#[test]
fn production_window_kind_matches_producing_buildings_only() {
    assert_eq!(
        production_window_kind(ObjectKind::Building(BuildingType::RobotFactory)),
        Some(ProductionWindowKind::Robot)
    );
    assert_eq!(
        production_window_kind(ObjectKind::Building(BuildingType::VehicleFactory)),
        Some(ProductionWindowKind::Vehicle)
    );
    assert_eq!(
        production_window_kind(ObjectKind::Building(BuildingType::FortBack)),
        Some(ProductionWindowKind::Fort)
    );
    assert_eq!(production_window_kind(ObjectKind::Building(BuildingType::Radar)), None);
    assert_eq!(production_window_kind(ObjectKind::Robot(RobotType::Grunt)), None);
}

#[test]
fn auto_repair_policy_matches_original_non_fort_buildings() {
    assert!(auto_repairable_after_destroy(ObjectKind::Building(BuildingType::Radar)));
    assert!(auto_repairable_after_destroy(ObjectKind::Building(BuildingType::Repair)));
    assert!(auto_repairable_after_destroy(ObjectKind::Bridge(BuildingType::BridgeVert)));
    assert!(!auto_repairable_after_destroy(ObjectKind::Building(BuildingType::FortFront)));
    assert!(!auto_repairable_after_destroy(ObjectKind::Cannon(CannonType::Gun)));
}

#[test]
fn auto_repair_zone_blocker_matches_original_fort_front_check() {
    assert!(auto_repair_blocking_fort(ObjectKind::Building(BuildingType::FortFront)));
    assert!(!auto_repair_blocking_fort(ObjectKind::Building(BuildingType::FortBack)));
    assert!(!auto_repair_blocking_fort(ObjectKind::Building(BuildingType::Radar)));
}

#[test]
fn building_piece_assets_match_turrent_missiles() {
    assert_eq!(building_piece_frame_paths_for_variants(0, 2).len(), 12);
    assert_eq!(building_piece_frame_paths_for_variants(0, 2).first().unwrap(), "buildings/death_effects/piece0_n00.png");
    assert_eq!(building_piece_frame_paths_for_variants(1, 2).last().unwrap(), "buildings/death_effects/piece1_n11.png");
    assert_eq!(
        building_piece_frame_paths_for_variants(4, 5).last().unwrap(),
        "buildings/death_effects/fort_piece4_n11.png"
    );
    // An index past the last variant shows the last variant.
    assert_eq!(building_piece_frame_paths_for_variants(9, 2)[3], "buildings/death_effects/piece1_n03.png");
    assert_eq!(building_piece_frame_paths_for_variants(7, 0)[0], "buildings/death_effects/piece0_n00.png");
}

#[test]
fn production_selector_groups_build_list_into_original_ui_rows() {
    let robot_factory = ObjectKind::Building(BuildingType::RobotFactory);
    assert_eq!(
        production_selector_units(robot_factory, ProductionLevel::Level0),
        vec![(ObjectKind::Robot(RobotType::Grunt), 6, 22), (ObjectKind::Cannon(CannonType::Gatling), 6, 75)]
    );
    assert_eq!(
        production_selector_unit_index(robot_factory, ProductionLevel::Level0, ObjectKind::Cannon(CannonType::Gatling)),
        Some(1)
    );
    assert_eq!(
        selected_production_unit(robot_factory, ProductionLevel::Level0, usize::MAX),
        Some(ObjectKind::Robot(RobotType::Grunt))
    );
    assert_eq!(cycle_production_selection(robot_factory, ProductionLevel::Level0, 1, 1), 0);
}

#[test]
fn production_selector_lays_out_fort_rows_and_skips_nothing() {
    let fort = ObjectKind::Building(BuildingType::FortFront);
    let slots = production_selector_units(fort, ProductionLevel::Level1);
    // grunt, psycho / jeep, crane, light / gatling, gun
    assert_eq!(slots.len(), 7);
    assert_eq!(slots[0], (ObjectKind::Robot(RobotType::Grunt), 6, 22));
    assert_eq!(slots[1], (ObjectKind::Robot(RobotType::Psycho), 53, 22));
    assert_eq!(slots[2], (ObjectKind::Vehicle(VehicleType::Jeep), 6, 75));
    assert_eq!(slots[4], (ObjectKind::Vehicle(VehicleType::Light), 100, 75));
    assert_eq!(slots[6], (ObjectKind::Cannon(CannonType::Gun), 53, 128));
    // A vehicle factory at level 0 has no robots: its vehicles take the first row.
    let vehicles = production_selector_units(ObjectKind::Building(BuildingType::VehicleFactory), ProductionLevel::Level0);
    assert_eq!(vehicles[0], (ObjectKind::Vehicle(VehicleType::Jeep), 6, 22));
    assert!(production_selector_units(ObjectKind::Building(BuildingType::Radar), ProductionLevel::Level5).is_empty());
}

#[test]
fn production_selection_cycles_both_ways_and_returns() {
    let fort = ObjectKind::Building(BuildingType::FortBack);
    // Four units at level 0.
    assert_eq!(cycle_production_selection(fort, ProductionLevel::Level0, 3, 1), 0);
    assert_eq!(cycle_production_selection(fort, ProductionLevel::Level0, 0, -1), 3);
    assert_eq!(cycle_production_selection(fort, ProductionLevel::Level0, 2, -1), 1);
    for i in 0..4 {
        let forward = cycle_production_selection(fort, ProductionLevel::Level0, i, 1);
        assert_eq!(cycle_production_selection(fort, ProductionLevel::Level0, forward, -1), i);
    }
    // Objects that do not produce keep their index.
    assert_eq!(cycle_production_selection(ObjectKind::Robot(RobotType::Grunt), ProductionLevel::Level0, 9, 1), 9);
    assert_eq!(cycle_production_selection(fort, ProductionLevel::Level0, usize::MAX, 1), 0);
    assert_eq!(selected_production_unit(fort, ProductionLevel::Level1, 5), Some(ObjectKind::Vehicle(VehicleType::Light)));
    assert_eq!(production_selector_unit_index(fort, ProductionLevel::Level0, ObjectKind::Robot(RobotType::Laser)), None);
}

#[test]
fn production_labels_route_by_window_kind() {
    assert_eq!(production_label_asset_path(ProductionWindowKind::Fort), "other/production_gui/fort_factory_label.png");
    assert_eq!(
        production_label_asset_path_for_building(BuildingType::VehicleFactory),
        Some("other/production_gui/vehicle_factory_label.png")
    );
    assert_eq!(
        production_label_asset_path_for_building(BuildingType::FortBack),
        Some("other/production_gui/fort_factory_label.png")
    );
    assert_eq!(production_label_asset_path_for_building(BuildingType::Radar), None);
}

#[test]
fn bridge_visual_tile_specs_match_original_bridge_atlas_policy() {
    assert_eq!(bridge_visual_state(50), BridgeVisualState::Live);
    assert_eq!(bridge_visual_state(49), BridgeVisualState::Damaged);
    assert_eq!(bridge_visual_state(0), BridgeVisualState::Destroyed);
    assert_eq!(bridge_visual_state(-3), BridgeVisualState::Destroyed);

    let vert = bridge_visual_tile_specs(BuildingType::BridgeVert, 2, BridgeVisualState::Damaged);
    assert_eq!(vert.len(), 7);
    assert_eq!(vert[2].index, bridge_vert_fill_index(BridgeVisualState::Damaged, 2));
    assert_eq!((vert[2].frame_width, vert[2].frame_height), (64, 16));
    assert_eq!(vert[0].index, 0);
    assert_eq!(vert[1].index, 1);
    assert_eq!(vert[3].index, 6);
    assert_eq!(vert[5].index, 2);
    assert_eq!(vert[6].index, 3);
    assert_eq!((vert[3].offset_x, vert[3].offset_y), (0, 48));

    let horz = bridge_visual_tile_specs(BuildingType::BridgeHorz, 2, BridgeVisualState::Destroyed);
    assert_eq!(horz.len(), 7);
    assert_eq!(horz[2].index, bridge_horz_fill_index(BridgeVisualState::Destroyed, 2));
    assert_eq!(
        horz[2],
        BridgeVisualTileSpec { index: 15, offset_x: 32, offset_y: 0, frame_width: 16, frame_height: 64 }
    );
    assert_eq!(horz[0].index, 8);
    assert_eq!(horz[6].index, 11);
    assert!(bridge_visual_tile_specs(BuildingType::Radar, 0, BridgeVisualState::Live).is_empty());
    assert_eq!(bridge_horz_fill_index(BridgeVisualState::Live, 3), 12);
    assert_eq!(bridge_vert_fill_index(BridgeVisualState::Destroyed, 3), 7);
}

#[test]
fn bridge_footprints_follow_their_links() {
    assert_eq!(bridge_pathing_dimensions(BuildingType::BridgeVert, 2), Some((4, 7)));
    assert_eq!(bridge_pathing_dimensions(BuildingType::BridgeHorz, 2), Some((7, 4)));
    assert_eq!(bridge_pathing_dimensions(BuildingType::BridgeHorz, u16::MAX), Some((u16::MAX, 4)));
    assert_eq!(bridge_pathing_dimensions(BuildingType::Radar, 2), None);
    let edges = bridge_edge_block_offsets(BuildingType::BridgeVert, 0);
    assert_eq!(edges.len(), 10);
    assert_eq!(&edges[..4], &[(0, 0), (3, 0), (0, 1), (3, 1)]);
    let lanes = bridge_center_offsets(BuildingType::BridgeHorz, 1);
    assert_eq!(lanes.len(), 12);
    assert_eq!(&lanes[..4], &[(0, 1), (0, 2), (1, 1), (1, 2)]);
    assert_eq!(lanes[11], (5, 2));
    assert!(bridge_center_offsets(BuildingType::Repair, 1).is_empty());
}

#[test]
fn bridge_effect_assets_match_original_paths() {
    let bridge_frames = bridge_turrent_frame_paths(PlanetType::Desert);
    assert_eq!(bridge_frames.len(), 12);
    assert_eq!(bridge_frames.first().unwrap(), "planets/bridge_effects/debri_large_desert_n00.png");
    assert_eq!(bridge_frames.last().unwrap(), "planets/bridge_effects/debri_large_desert_n11.png");

    let rock_frames = bridge_rock_particle_frame_paths(PlanetType::Arctic);
    assert_eq!(rock_frames.len(), 16);
    assert_eq!(rock_frames.last().unwrap(), "planets/rock_effects/debri_small_arctic_n15.png");
    assert_eq!(bridge_end_particle_count(0), 12);
    assert_eq!(bridge_end_particle_count(5), 17);
}

#[test]
fn building_pathing_specs_match_footprints() {
    let radar = building_pathing_spec(BuildingType::Radar);
    assert_eq!(radar.blocked_rects, vec![BuildingPathingRect { dx: 0, dy: 0, width: 4, height: 3 }]);
    assert_eq!(radar.unblocked_tiles, vec![(3, 2)]);
    let fort = building_pathing_spec(BuildingType::FortFront);
    assert_eq!(fort.blocked_masks.len(), 1);
    assert_eq!(fort.blocked_masks[0][6], "####..####");
    assert_eq!(building_pathing_spec(BuildingType::FortBack).blocked_masks[0][9], "..........");
    let bridge = building_pathing_spec(BuildingType::BridgeVert);
    assert!(bridge.blocked_rects.is_empty() && bridge.blocked_masks.is_empty() && bridge.unblocked_tiles.is_empty());
}

#[test]
fn destroyed_asset_path_routes_each_building() {
    assert_eq!(
        destroyed_asset_path(BuildingType::VehicleFactory, PlanetType::Jungle),
        Some("buildings/vehicle/base_destroyed_jungle.png".to_string())
    );
    assert_eq!(
        destroyed_asset_path(BuildingType::FortBack, PlanetType::Volcanic),
        Some("buildings/fort/fort_volcanic_back_destroyed.png".to_string())
    );
    assert_eq!(destroyed_asset_path(BuildingType::BridgeVert, PlanetType::City), None);
    let _ = ObjectStats::from_kind(ObjectKind::Rock, 100);
    let _ = TeamType::Null;
}
