use zod_units::original::types::TeamType;
use zod_units::units::cannons::cannon_ui::{frame_profile, init_place_frame_path, init_place_frame_profile, CannonFrameRole};
use zod_units::units::cannons::missile_cannon::missile_cannon_ui;

#[test]
fn cannon_frame_profiles_match_original_asset_families() {
    assert_eq!(init_place_frame_path(2), "units/cannons/init-place_n02.png");
    let init_place = init_place_frame_profile(99);
    assert_eq!(init_place.role, CannonFrameRole::Place);
    assert_eq!(init_place.atlas_team, TeamType::Red);
    assert_eq!(init_place.asset_path, "units/cannons/init-place_n02.png");
    assert_eq!(init_place.atlas_frame_name, "cannon_init_place_n02");

    assert_eq!(
        missile_cannon_ui::empty_frame_profile(TeamType::Null, 90).asset_path,
        "units/cannons/missile_cannon/empty_null.png"
    );
    assert_eq!(
        missile_cannon_ui::empty_frame_profile(TeamType::Blue, 90).asset_path,
        "units/cannons/missile_cannon/empty_blue_r090.png"
    );
    assert_eq!(
        missile_cannon_ui::equipped_frame_profile(TeamType::Blue, 90).unwrap().asset_path,
        "units/cannons/missile_cannon/equiped_blue_r090.png"
    );
    assert_eq!(
        missile_cannon_ui::passive_frame_profile(TeamType::Null, 90).asset_path,
        "units/cannons/missile_cannon/empty_null.png"
    );
}

#[test]
fn cannon_atlas_team_choice_is_owned_by_cannon_ui_profiles() {
    assert_eq!(missile_cannon_ui::empty_frame_profile(TeamType::Blue, 180).atlas_team, TeamType::Blue);
    assert_eq!(missile_cannon_ui::empty_frame_profile(TeamType::Null, 180).atlas_team, TeamType::Red);
    assert_eq!(missile_cannon_ui::destroyed_frame_profile(TeamType::Yellow).atlas_team, TeamType::Yellow);
    assert!(missile_cannon_ui::equipped_frame_profile(TeamType::Null, 180).is_none());
}

#[test]
fn cannon_atlas_names_follow_asset_paths() {
    let gatling = frame_profile(CannonFrameRole::Passive, TeamType::Blue, "units/cannons/gatling/fire_blue_r180_n00.png".to_string());
    assert_eq!(gatling.atlas_frame_name, "cannon_gatling_fire_blue_r180_n00");
    // Outside the cannon folder the whole path is kept, extension included.
    let outside = frame_profile(CannonFrameRole::Empty, TeamType::Red, "other/a-b.png".to_string());
    assert_eq!(outside.atlas_frame_name, "cannon_other_a_b.png");
    let no_suffix = frame_profile(CannonFrameRole::Empty, TeamType::Red, "units/cannons/x-y".to_string());
    assert_eq!(no_suffix.atlas_frame_name, "cannon_x_y");
}

#[test]
fn missile_cannon_frames_match_assets() {
    let place = missile_cannon_ui::place_frame_profile(TeamType::Green, 99);
    assert_eq!(place.asset_path, "units/cannons/missile_cannon/place_green_n03.png");
    assert_eq!(place.atlas_frame_name, "cannon_missile_cannon_place_green_n03");
    let passive = missile_cannon_ui::passive_frame_profile(TeamType::White, 45);
    assert_eq!(passive.role, CannonFrameRole::Passive);
    assert_eq!(passive.atlas_team, TeamType::Red);
    assert_eq!(passive.asset_path, "units/cannons/missile_cannon/equiped_red_r045.png");
    assert_eq!(missile_cannon_ui::fire_frame_profile(TeamType::Blue, 0).role, CannonFrameRole::Fire);
    assert_eq!(missile_cannon_ui::destroyed_asset_path(TeamType::Purple), "units/cannons/missile_cannon/wasted_red.png");
    assert_eq!(missile_cannon_ui::death_wreck_frame_profile().asset_path, "units/cannons/missile_cannon/wasted.png");
    assert_eq!(missile_cannon_ui::damage_missile_frame_paths(), vec!["units/cannons/missile_cannon/bullet.png".to_string()]);
    assert_eq!(missile_cannon_ui::hud_name(), "missile_cannon");
}
