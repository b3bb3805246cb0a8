//! How the back half of a fort is drawn: atlas frames, flag, footprint and entrance.

use vstd::prelude::*;

use crate::original::types::{PlanetType, TeamType};
use crate::text::{concat3, spec_texts};
use crate::original::types::spec_atlas_team;
use crate::units::buildings::building_ui::{planet_asset_name, spec_atlas_layer_is, spec_planet_asset_name, BuildingAtlasFrameSpec};
use crate::units::buildings::fort_front::fort_front_ui;
use crate::units::buildings::BuildingPathingSpec;

verus! {

/// Rows of the back fort's footprint mask, top to bottom.
pub open spec fn spec_pathing_mask() -> Seq<Seq<char>> {
    seq![
        ".##....##."@,
        ".###..###."@,
        ".###..###."@,
        "##########"@,
        "##########"@,
        "##########"@,
        "##########"@,
        ".########."@,
        "..#....#.."@,
        ".........."@,
    ]
}

/// Footprint of the back half of a fort: one mask, ten by ten tiles, with
/// the entrance open at the top.
pub fn pathing_spec() -> (r: BuildingPathingSpec)
    ensures
        r.spec_is(Seq::empty(), seq![spec_pathing_mask()], Seq::empty()),
{
    let mask: Vec<&'static str> = vec![
        ".##....##.",
        ".###..###.",
        ".###..###.",
        "##########",
        "##########",
        "##########",
        "##########",
        ".########.",
        "..#....#..",
        "..........",
    ];
    let r = BuildingPathingSpec { blocked_rects: Vec::new(), blocked_masks: vec![mask], unblocked_tiles: Vec::new() };
    proof {
        assert(r.blocked_rects@ =~= Seq::empty());
        assert(r.blocked_masks@[0]@.map_values(|row: &'static str| row@) =~= spec_pathing_mask());
        assert(r.spec_masks() =~= seq![spec_pathing_mask()]);
        assert(r.unblocked_tiles@ =~= Seq::empty());
    }
    r
}

/// Asset path of the label of the fort production window, shared with the front half.
pub fn production_label_asset_path() -> (r: &'static str)
    ensures
        r@ == "other/production_gui/fort_factory_label.png"@,
{
    fort_front_ui::production_label_asset_path()
}

/// Atlas frame of the back fort on `planet`.
pub open spec fn spec_base_atlas_frame_name(planet: PlanetType) -> Seq<char> {
    "fort_"@ + spec_planet_asset_name(planet) + "_back"@
}

/// Atlas frame of the back fort on `planet`.
pub fn base_atlas_frame_name(planet: PlanetType) -> (r: String)
    ensures
        r@ == spec_base_atlas_frame_name(planet),
{
    concat3("fort_", planet_asset_name(planet), "_back")
}

/// Atlas frames of a fort flag of `team`, shared with the front half.
pub fn flag_frame_names(team: TeamType) -> (r: Vec<String>)
    ensures
        r@.len() == fort_front_ui::FLAG_FRAME_COUNT,
        forall|i: int| 0 <= i < fort_front_ui::FLAG_FRAME_COUNT ==> #[trigger] r@[i]@ == fort_front_ui::spec_flag_frame_name(team, i as nat),
{
    fort_front_ui::flag_frame_names(team)
}

/// The opening through which units enter the back fort: left, top, width and
/// height in pixels from the fort's top-left corner.
pub fn entrance_rect() -> (r: (u32, u32, u32, u32))
    ensures
        r == (64u32, 16u32, 32u32, 64u32),
{
    (64, 16, 32, 64)
}

/// Asset path of a destroyed back fort on `planet`.
pub open spec fn spec_destroyed_asset_path(planet: PlanetType) -> Seq<char> {
    "buildings/fort/fort_"@ + spec_planet_asset_name(planet) + "_back_destroyed.png"@
}

/// Asset path of a destroyed back fort on `planet`.
pub fn destroyed_asset_path(planet: PlanetType) -> (r: String)
    ensures
        r@ == spec_destroyed_asset_path(planet),
{
    concat3("buildings/fort/fort_", planet_asset_name(planet), "_back_destroyed.png")
}

/// Where the flag is drawn, shared with the front half.
pub fn flag_world_offset() -> (r: (i32, i32))
    ensures
        r == (85i32, 29i32),
{
    fort_front_ui::flag_world_offset()
}

/// Whether `layers` are the sprite layers of a back fort of `team` on `planet`.
pub open spec fn spec_atlas_layers(team: TeamType, planet: PlanetType, layers: Seq<BuildingAtlasFrameSpec>) -> bool {
    &&& layers.len() == 2
    &&& spec_atlas_layer_is(layers[0], TeamType::Red, spec_base_atlas_frame_name(planet), 0, 0, Seq::empty())
    &&& spec_atlas_layer_is(
        layers[1],
        spec_atlas_team(team),
        fort_front_ui::spec_flag_frame_name(team, 0),
        85,
        29,
        fort_front_ui::spec_flag_frames(team),
    )
}

/// The layers of a back fort of `team` on `planet`: the fort from the red
/// atlas, then the team's waving flag.
pub fn atlas_layer_specs(team: TeamType, planet: PlanetType) -> (r: Vec<BuildingAtlasFrameSpec>)
    ensures
        spec_atlas_layers(team, planet, r@),
{
    let base = BuildingAtlasFrameSpec {
        atlas_team: TeamType::Red,
        frame_name: base_atlas_frame_name(planet),
        offset_x: 0,
        offset_y: 0,
        animation_frame_names: Vec::new(),
    };
    let r = vec![base, fort_front_ui::flag_layer_spec(team)];
    proof {
        assert(spec_texts(r@[0].animation_frame_names@) =~= Seq::empty());
    }
    r
}

} // verus!
