//! How the front half of a fort is drawn: atlas frames, flag, footprint and entrance.

use vstd::prelude::*;

use crate::original::types::{spec_atlas_team, spec_team_asset_name, PlanetType, TeamType};
use crate::text::{concat3, numbered_names, spec_numbered_name, spec_texts};
use crate::units::buildings::building_ui::{planet_asset_name, spec_atlas_layer_is, spec_planet_asset_name, BuildingAtlasFrameSpec};
use crate::units::buildings::BuildingPathingSpec;

verus! {

/// Alpha range the destroyed-fort overlay fades through.
pub const DESTROYED_OVERLAY_ALPHA_MIN: u8 = 1;
pub const DESTROYED_OVERLAY_ALPHA_MAX: u8 = 254;
/// Frames of the fort flag animation.
pub const FLAG_FRAME_COUNT: usize = 4;

/// Asset path of the overlay drawn over a destroyed fort.
pub fn destroyed_overlay_path() -> (r: &'static str)
    ensures
        r@ == "buildings/fort/destroyed_overlay.png"@,
{
    "buildings/fort/destroyed_overlay.png"
}

/// Rows of the front fort's footprint mask, top to bottom.
pub open spec fn spec_pathing_mask() -> Seq<Seq<char>> {
    seq![
        ".##....##."@,
        ".########."@,
        ".########."@,
        "##########"@,
        "##########"@,
        "##########"@,
        "####..####"@,
        ".###..###."@,
        "..##..##.."@,
        "...#..#..."@,
    ]
}

/// Footprint of the front half of a fort: one mask, ten by ten tiles, with
/// the entrance open at the bottom.
pub fn pathing_spec() -> (r: BuildingPathingSpec)
    ensures
        r.spec_is(Seq::empty(), seq![spec_pathing_mask()], Seq::empty()),
{
    let mask: Vec<&'static str> = vec![
        ".##....##.",
        ".########.",
        ".########.",
        "##########",
        "##########",
        "##########",
        "####..####",
        ".###..###.",
        "..##..##..",
        "...#..#...",
    ];
    let r = BuildingPathingSpec { blocked_rects: Vec::new(), blocked_masks: vec![mask], unblocked_tiles: Vec::new() };
    proof {
        assert(r.blocked_rects@ =~= Seq::empty());
        assert(r.blocked_masks@[0]@.map_values(|row: &'static str| row@) =~= spec_pathing_mask());
        assert(r.spec_masks() =~= seq![spec_pathing_mask()]);
        assert(r.unblocked_tiles@ =~= Seq::empty());
    }
    r
}

/// Asset path of the label of the fort production window.
pub fn production_label_asset_path() -> (r: &'static str)
    ensures
        r@ == "other/production_gui/fort_factory_label.png"@,
{
    "other/production_gui/fort_factory_label.png"
}

/// Atlas frame of the front fort on `planet`.
pub open spec fn spec_base_atlas_frame_name(planet: PlanetType) -> Seq<char> {
    "fort_"@ + spec_planet_asset_name(planet) + "_front"@
}

/// Atlas frame of the front fort on `planet`.
pub fn base_atlas_frame_name(planet: PlanetType) -> (r: String)
    ensures
        r@ == spec_base_atlas_frame_name(planet),
{
    concat3("fort_", planet_asset_name(planet), "_front")
}

/// Atlas frame `frame` of the flag of `team`, in the team's atlas colour.
pub open spec fn spec_flag_frame_name(team: TeamType, frame: nat) -> Seq<char> {
    spec_numbered_name("fort_flag_"@ + spec_team_asset_name(spec_atlas_team(team)) + "_n"@, frame, 2, ""@)
}

/// Atlas frames of a fort flag of `team`, in animation order.
pub fn flag_frame_names(team: TeamType) -> (r: Vec<String>)
    ensures
        r@.len() == FLAG_FRAME_COUNT,
        forall|i: int| 0 <= i < FLAG_FRAME_COUNT ==> #[trigger] r@[i]@ == spec_flag_frame_name(team, i as nat),
{
    let prefix = concat3("fort_flag_", team.atlas_team().asset_name(), "_n");
    numbered_names(prefix.as_str(), FLAG_FRAME_COUNT, 2, "")
}

/// The opening through which units enter the fort: left, top, width and height
/// in pixels from the fort's top-left corner.
pub fn entrance_rect() -> (r: (u32, u32, u32, u32))
    ensures
        r == (64u32, 32u32, 32u32, 96u32),
{
    (64, 32, 32, 96)
}

/// Asset path of a destroyed front fort on `planet`.
pub open spec fn spec_destroyed_asset_path(planet: PlanetType) -> Seq<char> {
    "buildings/fort/fort_"@ + spec_planet_asset_name(planet) + "_front_destroyed.png"@
}

/// Asset path of a destroyed front fort on `planet`.
pub fn destroyed_asset_path(planet: PlanetType) -> (r: String)
    ensures
        r@ == spec_destroyed_asset_path(planet),
{
    concat3("buildings/fort/fort_", planet_asset_name(planet), "_front_destroyed.png")
}

/// Where the flag is drawn, in pixels from the fort's top-left corner.
pub fn flag_world_offset() -> (r: (i32, i32))
    ensures
        r == (85i32, 29i32),
{
    (85, 29)
}

/// The flag frames of `team`, in animation order.
pub open spec fn spec_flag_frames(team: TeamType) -> Seq<Seq<char>> {
    Seq::new(FLAG_FRAME_COUNT as nat, |i: int| spec_flag_frame_name(team, i as nat))
}

/// The flag layer of a fort of `team`: drawn from the team's atlas,
/// showing and animating through the team's flag frames.
pub fn flag_layer_spec(team: TeamType) -> (r: BuildingAtlasFrameSpec)
    ensures
        spec_atlas_layer_is(r, spec_atlas_team(team), spec_flag_frame_name(team, 0), 85, 29, spec_flag_frames(team)),
{
    let atlas = team.atlas_team();
    let flag_frames = flag_frame_names(atlas);
    let (x, y) = flag_world_offset();
    let first = flag_frames[0].clone();
    let r = BuildingAtlasFrameSpec { atlas_team: atlas, frame_name: first, offset_x: x, offset_y: y, animation_frame_names: flag_frames };
    proof {
        assert(spec_atlas_team(atlas) == spec_atlas_team(team));
        assert(spec_texts(r.animation_frame_names@) =~= spec_flag_frames(team));
    }
    r
}

/// Whether `layers` are the sprite layers of a front fort of `team` on `planet`.
pub open spec fn spec_atlas_layers(team: TeamType, planet: PlanetType, layers: Seq<BuildingAtlasFrameSpec>) -> bool {
    &&& layers.len() == 2
    &&& spec_atlas_layer_is(layers[0], TeamType::Red, spec_base_atlas_frame_name(planet), 0, 0, Seq::empty())
    &&& spec_atlas_layer_is(layers[1], spec_atlas_team(team), spec_flag_frame_name(team, 0), 85, 29, spec_flag_frames(team))
}

/// The layers of a front fort of `team` on `planet`: the fort from the red
/// atlas, then the team's waving flag.
pub fn atlas_layer_specs(team: TeamType, planet: PlanetType) -> (r: Vec<BuildingAtlasFrameSpec>)
    ensures
        spec_atlas_layers(team, planet, r@),
{
    let base = BuildingAtlasFrameSpec {
        atlas_team: TeamType::Red,
        frame_name: base_atlas_frame_name(planet),
        offset_x: 0,
        offset_y: 0,
        animation_frame_names: Vec::new(),
    };
    let r = vec![base, flag_layer_spec(team)];
    proof {
        assert(spec_texts(r@[0].animation_frame_names@) =~= Seq::empty());
    }
    r
}

} // verus!
