//! How the radar building is drawn: atlas frames, overlays and footprint.

use vstd::prelude::*;

use crate::components::ObjectStats;
use crate::original::types::{spec_atlas_team, spec_team_asset_name, PlanetType, TeamType};
use crate::render::atlas::RadarOverlayKind;
use crate::text::{concat2, concat3, decimal_names, spec_decimal};
use crate::text::spec_texts;
use crate::units::buildings::building_ui::{
    planet_asset_name, repeated_offsets, spec_atlas_layer_is, spec_overlay_frame_specs_are, spec_planet_asset_name,
    zip_overlay_frame_specs, BuildingAtlasFrameSpec, BuildingOverlayFrameSpec,
};
use crate::units::buildings::{BuildingPathingRect, BuildingPathingSpec};

verus! {

/// The radar's overlays, in drawing order.
pub open spec fn spec_overlay_kinds() -> Seq<RadarOverlayKind> {
    seq![RadarOverlayKind::FrontLight, RadarOverlayKind::SideLight, RadarOverlayKind::BoxSpinner, RadarOverlayKind::Dish]
}

/// The radar's overlays, in drawing order.
pub fn overlay_kinds() -> (r: Vec<RadarOverlayKind>)
    ensures
        r@ == spec_overlay_kinds(),
{
    let r = vec![RadarOverlayKind::FrontLight, RadarOverlayKind::SideLight, RadarOverlayKind::BoxSpinner, RadarOverlayKind::Dish];
    proof {
        assert(r@ =~= spec_overlay_kinds());
    }
    r
}

/// Footprint of the radar: a four by three block with its bottom-right
/// tile left free.
pub fn pathing_spec() -> (r: BuildingPathingSpec)
    ensures
        r.spec_is(seq![BuildingPathingRect { dx: 0, dy: 0, width: 4, height: 3 }], Seq::empty(), seq![(3u16, 2u16)]),
{
    let r = BuildingPathingSpec {
        blocked_rects: vec![BuildingPathingRect { dx: 0, dy: 0, width: 4, height: 3 }],
        blocked_masks: Vec::new(),
        unblocked_tiles: vec![(3, 2)],
    };
    proof {
        assert(r.blocked_rects@ =~= seq![BuildingPathingRect { dx: 0, dy: 0, width: 4, height: 3 }]);
        assert(r.spec_masks() =~= Seq::empty());
        assert(r.unblocked_tiles@ =~= seq![(3u16, 2u16)]);
    }
    r
}

/// Atlas frame of the radar's base on `planet`.
pub open spec fn spec_base_atlas_frame_name(planet: PlanetType) -> Seq<char> {
    "building_radar_base_"@ + spec_planet_asset_name(planet)
}

/// Atlas frame of the radar's base on `planet`.
pub fn base_atlas_frame_name(planet: PlanetType) -> (r: String)
    ensures
        r@ == spec_base_atlas_frame_name(planet),
{
    concat2("building_radar_base_", planet_asset_name(planet))
}

/// Atlas frame of the team-coloured part, in the team's atlas colour.
pub open spec fn spec_team_overlay_frame_name(team: TeamType) -> Seq<char> {
    "building_radar_"@ + spec_team_asset_name(spec_atlas_team(team))
}

/// Atlas frame of the team-coloured part of the radar.
pub fn team_overlay_frame_name(team: TeamType) -> (r: String)
    ensures
        r@ == spec_team_overlay_frame_name(team),
{
    concat2("building_radar_", team.atlas_team().asset_name())
}

/// Asset path of a destroyed radar on `planet`.
pub open spec fn spec_destroyed_asset_path(planet: PlanetType) -> Seq<char> {
    "buildings/radar/base_destroyed_"@ + spec_planet_asset_name(planet) + ".png"@
}

/// Asset path of a destroyed radar on `planet`.
pub fn destroyed_asset_path(planet: PlanetType) -> (r: String)
    ensures
        r@ == spec_destroyed_asset_path(planet),
{
    concat3("buildings/radar/base_destroyed_", planet_asset_name(planet), ".png")
}

/// Name stem of an overlay's frames.
pub open spec fn spec_overlay_stem(kind: RadarOverlayKind) -> Seq<char> {
    match kind {
        RadarOverlayKind::FrontLight => "front_light"@,
        RadarOverlayKind::SideLight => "side_light"@,
        RadarOverlayKind::BoxSpinner => "box_spinner"@,
        RadarOverlayKind::Dish => "dish"@,
    }
}

/// Number of frames of an overlay.
pub open spec fn spec_overlay_frame_count(kind: RadarOverlayKind) -> nat {
    match kind {
        RadarOverlayKind::FrontLight => 2,
        RadarOverlayKind::SideLight => 2,
        RadarOverlayKind::BoxSpinner => 12,
        RadarOverlayKind::Dish => 8,
    }
}

/// Atlas frame `frame` of an overlay.
pub open spec fn spec_overlay_frame_name(kind: RadarOverlayKind, frame: nat) -> Seq<char> {
    "building_radar_"@ + spec_overlay_stem(kind) + "_"@ + spec_decimal(frame)
}

/// Atlas frames of an overlay, in animation order.
pub fn overlay_frame_names(kind: RadarOverlayKind) -> (r: Vec<String>)
    ensures
        r@.len() == spec_overlay_frame_count(kind),
        forall|i: int| 0 <= i < spec_overlay_frame_count(kind) ==> #[trigger] r@[i]@ == spec_overlay_frame_name(kind, i as nat),
{
    let (stem, count): (&str, usize) = match kind {
        RadarOverlayKind::FrontLight => ("front_light", 2),
        RadarOverlayKind::SideLight => ("side_light", 2),
        RadarOverlayKind::BoxSpinner => ("box_spinner", 12),
        RadarOverlayKind::Dish => ("dish", 8),
    };
    let prefix = concat3("building_radar_", stem, "_");
    let r = decimal_names(prefix.as_str(), count, "");
    proof {
        reveal_strlit("");
        assert(stem@ == spec_overlay_stem(kind));
        assert(count == spec_overlay_frame_count(kind));
        assert forall|i: int| 0 <= i < spec_overlay_frame_count(kind) implies #[trigger] r@[i]@ == spec_overlay_frame_name(kind, i as nat) by {
            assert(r@[i]@ =~= prefix@ + spec_decimal(i as nat) + ""@);
        }
    }
    r
}

/// A radar overlay is drawn while the radar stands; a radar nobody owns
/// shows only its front light.
pub open spec fn spec_overlay_should_be_visible(kind: RadarOverlayKind, owner: TeamType, stats: ObjectStats) -> bool {
    !stats.spec_destroyed() && (owner != TeamType::Null || kind == RadarOverlayKind::FrontLight)
}

/// Whether a radar overlay is drawn.
pub fn overlay_should_be_visible(kind: RadarOverlayKind, owner: TeamType, stats: ObjectStats) -> (r: bool)
    ensures
        r == spec_overlay_should_be_visible(kind, owner, stats),
{
    let front_light = match kind {
        RadarOverlayKind::FrontLight => true,
        _ => false,
    };
    !stats.destroyed() && (owner != TeamType::Null || front_light)
}

/// Where the team-coloured part is drawn, in pixels from the top-left corner.
pub fn team_overlay_world_offset() -> (r: (i32, i32))
    ensures
        r == (0i32, 32i32),
{
    (0, 32)
}

/// Whether `layers` are the sprite layers of a radar of `team` on `planet`.
pub open spec fn spec_atlas_layers(team: TeamType, planet: PlanetType, layers: Seq<BuildingAtlasFrameSpec>) -> bool {
    &&& layers.len() == 2
    &&& spec_atlas_layer_is(layers[0], TeamType::Red, spec_base_atlas_frame_name(planet), 0, 0, Seq::empty())
    &&& spec_atlas_layer_is(layers[1], spec_atlas_team(team), spec_team_overlay_frame_name(spec_atlas_team(team)), 0, 32, Seq::empty())
}

/// The layers of a radar of `team` on `planet`: the base from the red
/// atlas, then the team-coloured part from the team's atlas.
pub fn atlas_layer_specs(team: TeamType, planet: PlanetType) -> (r: Vec<BuildingAtlasFrameSpec>)
    ensures
        spec_atlas_layers(team, planet, r@),
{
    let team = team.atlas_team();
    let (x, y) = team_overlay_world_offset();
    let r = vec![
        BuildingAtlasFrameSpec {
            atlas_team: TeamType::Red,
            frame_name: base_atlas_frame_name(planet),
            offset_x: 0,
            offset_y: 0,
            animation_frame_names: Vec::new(),
        },
        BuildingAtlasFrameSpec {
            atlas_team: team,
            frame_name: team_overlay_frame_name(team),
            offset_x: x,
            offset_y: y,
            animation_frame_names: Vec::new(),
        },
    ];
    proof {
        assert(spec_texts(r@[0].animation_frame_names@) =~= Seq::empty());
        assert(spec_texts(r@[1].animation_frame_names@) =~= Seq::empty());
    }
    r
}

/// Where each frame of an overlay is drawn, in pixels from the top-left
/// corner; the dish bobs up and down as it turns.
pub open spec fn spec_overlay_offsets(kind: RadarOverlayKind) -> Seq<(i32, i32)> {
    match kind {
        RadarOverlayKind::FrontLight => Seq::new(2, |i: int| (16i32, 22i32)),
        RadarOverlayKind::SideLight => Seq::new(2, |i: int| (41i32, 0i32)),
        RadarOverlayKind::BoxSpinner => Seq::new(12, |i: int| (18i32, 13i32)),
        RadarOverlayKind::Dish => seq![(15i32, -5i32), (15i32, -6i32), (15i32, -10i32), (15i32, -13i32), (15i32, -15i32), (15i32, -13i32), (15i32, -10i32), (15i32, -6i32)],
    }
}

/// Where each frame of an overlay is drawn.
pub fn overlay_offsets(kind: RadarOverlayKind) -> (r: Vec<(i32, i32)>)
    ensures
        r@ == spec_overlay_offsets(kind),
{
    match kind {
        RadarOverlayKind::FrontLight => repeated_offsets(16, 22, 2),
        RadarOverlayKind::SideLight => repeated_offsets(41, 0, 2),
        RadarOverlayKind::BoxSpinner => repeated_offsets(18, 13, 12),
        RadarOverlayKind::Dish => {
            let r = vec![(15, -5), (15, -6), (15, -10), (15, -13), (15, -15), (15, -13), (15, -10), (15, -6)];
            proof {
                assert(r@ =~= spec_overlay_offsets(kind));
            }
            r
        },
    }
}

/// The frames of an overlay with where each is drawn.
pub fn overlay_frame_specs(kind: RadarOverlayKind) -> (r: Vec<BuildingOverlayFrameSpec>)
    ensures
        spec_overlay_frame_specs_are(
            r@,
            Seq::new(spec_overlay_frame_count(kind), |i: int| spec_overlay_frame_name(kind, i as nat)),
            spec_overlay_offsets(kind),
        ),
{
    let names = overlay_frame_names(kind);
    let offsets = overlay_offsets(kind);
    proof {
        assert(spec_texts(names@) =~= Seq::new(spec_overlay_frame_count(kind), |i: int| spec_overlay_frame_name(kind, i as nat)));
    }
    zip_overlay_frame_specs(names, offsets)
}

} // verus!
