use zod_units::original::types::{PlanetType, TeamType};
use zod_units::units::buildings::fort_back;
use zod_units::units::buildings::fort_back::fort_back_ui;
use zod_units::units::buildings::fort_front;
use zod_units::units::buildings::fort_front::fort_front_ui;

#[test]
fn fort_back_destroyed_asset_matches_original_path() {
    assert_eq!(fort_back::destroyed_asset_path(PlanetType::City), "buildings/fort/fort_city_back_destroyed.png");
}

#[test]
fn fort_back_ui_destroyed_asset_matches_original_path() {
    assert_eq!(fort_back_ui::destroyed_asset_path(PlanetType::City), "buildings/fort/fort_city_back_destroyed.png");
}

#[test]
fn fort_front_destroyed_assets_and_overlay_match_original_paths() {
    assert_eq!(fort_front::destroyed_asset_path(PlanetType::Desert), "buildings/fort/fort_desert_front_destroyed.png");
    assert_eq!(fort_front_ui::destroyed_overlay_path(), "buildings/fort/destroyed_overlay.png");
    assert_eq!(fort_front_ui::DESTROYED_OVERLAY_ALPHA_MIN, 1);
    assert_eq!(fort_front_ui::DESTROYED_OVERLAY_ALPHA_MAX, 254);
}

#[test]
fn fort_front_ui_destroyed_assets_and_overlay_match_original_paths() {
    assert_eq!(fort_front_ui::destroyed_asset_path(PlanetType::Desert), "buildings/fort/fort_desert_front_destroyed.png");
    assert_eq!(fort_front_ui::destroyed_overlay_path(), "buildings/fort/destroyed_overlay.png");
    assert_eq!(fort_front_ui::DESTROYED_OVERLAY_ALPHA_MIN, 1);
    assert_eq!(fort_front_ui::DESTROYED_OVERLAY_ALPHA_MAX, 254);
}

#[test]
fn fort_front_atlas_and_flag_specs_match_frames() {
    assert_eq!(fort_front_ui::base_atlas_frame_name(PlanetType::Volcanic), "fort_volcanic_front");
    assert_eq!(
        fort_front_ui::flag_frame_names(TeamType::Blue),
        vec![
            "fort_flag_blue_n00".to_string(),
            "fort_flag_blue_n01".to_string(),
            "fort_flag_blue_n02".to_string(),
            "fort_flag_blue_n03".to_string()
        ]
    );
    // Teams without an atlas of their own fly the red flag.
    assert_eq!(fort_front_ui::flag_frame_names(TeamType::Black)[0], "fort_flag_red_n00");
    assert_eq!(fort_front_ui::production_label_asset_path(), "other/production_gui/fort_factory_label.png");
}

#[test]
fn fort_back_atlas_and_flag_specs_match_frames() {
    assert_eq!(fort_back_ui::base_atlas_frame_name(PlanetType::Arctic), "fort_arctic_back");
    assert_eq!(fort_back_ui::flag_frame_names(TeamType::Yellow).last().map(String::as_str), Some("fort_flag_yellow_n03"));
    assert_eq!(fort_back_ui::production_label_asset_path(), "other/production_gui/fort_factory_label.png");
}

#[test]
fn entrance_rect_matches_original_front_zone() {
    assert_eq!(fort_front_ui::entrance_rect(), (64, 32, 32, 96));
}

#[test]
fn entrance_rect_matches_original_back_zone() {
    assert_eq!(fort_back_ui::entrance_rect(), (64, 16, 32, 64));
}
