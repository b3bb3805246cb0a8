//! How the vehicle factory is drawn: atlas frames, overlays and footprint.

use vstd::prelude::*;

use crate::components::ObjectStats;
use crate::original::types::{spec_atlas_team, spec_team_asset_name, PlanetType, TeamType};
use crate::render::atlas::FactoryOverlayKind;
use crate::text::{concat2, concat3, decimal_names, spec_decimal_names, spec_texts};
use crate::units::buildings::building_ui::{
    planet_asset_name, repeated_offsets, spec_atlas_layer_is, spec_overlay_frame_specs_are, spec_planet_asset_name,
    zip_overlay_frame_specs, BuildingAtlasFrameSpec, BuildingOverlayFrameSpec,
};
use crate::units::buildings::robot_factory::robot_factory_ui::{exhaust_offsets, spec_exhaust_offsets};
use crate::units::buildings::{BuildingPathingRect, BuildingPathingSpec};

verus! {

/// The vehicle factory's overlays, in drawing order.
pub open spec fn spec_overlay_kinds() -> Seq<FactoryOverlayKind> {
    seq![
        FactoryOverlayKind::VehicleExhaust,
        FactoryOverlayKind::VehicleTank,
        FactoryOverlayKind::VehicleVent,
        FactoryOverlayKind::VehicleBulb,
        FactoryOverlayKind::VehicleLight0,
        FactoryOverlayKind::VehicleLight1,
        FactoryOverlayKind::VehicleSpin,
    ]
}

/// The vehicle factory's overlays, in drawing order.
pub fn overlay_kinds() -> (r: Vec<FactoryOverlayKind>)
    ensures
        r@ == spec_overlay_kinds(),
{
    let r = vec![
        FactoryOverlayKind::VehicleExhaust,
        FactoryOverlayKind::VehicleTank,
        FactoryOverlayKind::VehicleVent,
        FactoryOverlayKind::VehicleBulb,
        FactoryOverlayKind::VehicleLight0,
        FactoryOverlayKind::VehicleLight1,
        FactoryOverlayKind::VehicleSpin,
    ];
    proof {
        assert(r@ =~= spec_overlay_kinds());
    }
    r
}

/// Footprint of the vehicle factory: a four by five block.
pub fn pathing_spec() -> (r: BuildingPathingSpec)
    ensures
        r.spec_is(seq![BuildingPathingRect { dx: 0, dy: 0, width: 4, height: 5 }], Seq::empty(), Seq::empty()),
{
    let r = BuildingPathingSpec {
        blocked_rects: vec![BuildingPathingRect { dx: 0, dy: 0, width: 4, height: 5 }],
        blocked_masks: Vec::new(),
        unblocked_tiles: Vec::new(),
    };
    proof {
        assert(r.blocked_rects@ =~= seq![BuildingPathingRect { dx: 0, dy: 0, width: 4, height: 5 }]);
        assert(r.spec_masks() =~= Seq::empty());
        assert(r.unblocked_tiles@ =~= Seq::empty());
    }
    r
}

/// Asset path of the label of the vehicle production window.
pub fn production_label_asset_path() -> (r: &'static str)
    ensures
        r@ == "other/production_gui/vehicle_factory_label.png"@,
{
    "other/production_gui/vehicle_factory_label.png"
}

/// Atlas frame of the vehicle factory's base on `planet`.
pub open spec fn spec_base_atlas_frame_name(planet: PlanetType) -> Seq<char> {
    "building_vehicle_base_"@ + spec_planet_asset_name(planet)
}

/// Atlas frame of the vehicle factory's base on `planet`.
pub fn base_atlas_frame_name(planet: PlanetType) -> (r: String)
    ensures
        r@ == spec_base_atlas_frame_name(planet),
{
    concat2("building_vehicle_base_", planet_asset_name(planet))
}

/// Atlas frame of the team-coloured part, in the team's atlas colour.
pub open spec fn spec_team_overlay_frame_name(team: TeamType) -> Seq<char> {
    "building_vehicle_"@ + spec_team_asset_name(spec_atlas_team(team))
}

/// Atlas frame of the team-coloured part of the vehicle factory.
pub fn team_overlay_frame_name(team: TeamType) -> (r: String)
    ensures
        r@ == spec_team_overlay_frame_name(team),
{
    concat2("building_vehicle_", team.atlas_team().asset_name())
}

/// Asset path of a destroyed vehicle factory on `planet`.
pub open spec fn spec_destroyed_asset_path(planet: PlanetType) -> Seq<char> {
    "buildings/vehicle/base_destroyed_"@ + spec_planet_asset_name(planet) + ".png"@
}

/// Asset path of a destroyed vehicle factory on `planet`.
pub fn destroyed_asset_path(planet: PlanetType) -> (r: String)
    ensures
        r@ == spec_destroyed_asset_path(planet),
{
    concat3("buildings/vehicle/base_destroyed_", planet_asset_name(planet), ".png")
}

/// The overlays that belong to the vehicle factory.
pub open spec fn spec_overlay_kind_is_vehicle(kind: FactoryOverlayKind) -> bool {
    match kind {
        FactoryOverlayKind::VehicleExhaust => true,
        FactoryOverlayKind::VehicleTank => true,
        FactoryOverlayKind::VehicleVent => true,
        FactoryOverlayKind::VehicleBulb => true,
        FactoryOverlayKind::VehicleLight0 => true,
        FactoryOverlayKind::VehicleLight1 => true,
        FactoryOverlayKind::VehicleSpin => true,
        _ => false,
    }
}

/// Whether an overlay belongs to the vehicle factory.
pub fn overlay_kind_is_vehicle(kind: FactoryOverlayKind) -> (r: bool)
    ensures
        r == spec_overlay_kind_is_vehicle(kind),
{
    match kind {
        FactoryOverlayKind::VehicleExhaust
        | FactoryOverlayKind::VehicleTank
        | FactoryOverlayKind::VehicleVent
        | FactoryOverlayKind::VehicleBulb
        | FactoryOverlayKind::VehicleLight0
        | FactoryOverlayKind::VehicleLight1
        | FactoryOverlayKind::VehicleSpin => true,
        _ => false,
    }
}

/// Atlas frames of an overlay, in animation order; robot overlays have none here.
pub open spec fn spec_overlay_frame_names(kind: FactoryOverlayKind) -> Seq<Seq<char>> {
    match kind {
        FactoryOverlayKind::VehicleExhaust => spec_decimal_names("exhaust_"@, 13, ""@),
        FactoryOverlayKind::VehicleTank => spec_decimal_names("building_vehicle_tank_"@, 2, ""@),
        FactoryOverlayKind::VehicleVent => spec_decimal_names("building_vehicle_vent_"@, 4, ""@),
        FactoryOverlayKind::VehicleBulb => spec_decimal_names("building_vehicle_bulb_"@, 2, ""@),
        FactoryOverlayKind::VehicleLight0 => seq!["building_vehicle_lights_1"@],
        FactoryOverlayKind::VehicleLight1 => seq!["building_vehicle_lights_1"@],
        FactoryOverlayKind::VehicleSpin => spec_decimal_names("building_vehicle_spin_"@, 8, ""@),
        _ => Seq::empty(),
    }
}

/// Atlas frames of an overlay, in animation order.
pub fn overlay_frame_names(kind: FactoryOverlayKind) -> (r: Vec<String>)
    ensures
        spec_texts(r@) == spec_overlay_frame_names(kind),
{
    match kind {
        FactoryOverlayKind::VehicleExhaust => decimal_names("exhaust_", 13, ""),
        FactoryOverlayKind::VehicleTank => decimal_names("building_vehicle_tank_", 2, ""),
        FactoryOverlayKind::VehicleVent => decimal_names("building_vehicle_vent_", 4, ""),
        FactoryOverlayKind::VehicleBulb => decimal_names("building_vehicle_bulb_", 2, ""),
        FactoryOverlayKind::VehicleLight0 | FactoryOverlayKind::VehicleLight1 => {
            let mut r: Vec<String> = Vec::new();
            r.push(concat2("building_vehicle_lights_1", ""));
            proof {
                reveal_strlit("");
                assert(spec_texts(r@) =~= seq!["building_vehicle_lights_1"@]);
            }
            r
        },
        FactoryOverlayKind::VehicleSpin => decimal_names("building_vehicle_spin_", 8, ""),
        _ => {
            let r: Vec<String> = Vec::new();
            proof {
                assert(spec_texts(r@) =~= Seq::empty());
            }
            r
        },
    }
}

/// Whether an overlay's first frame is drawn: every vehicle factory overlay's is.
pub fn overlay_initial_frame_visible(kind: FactoryOverlayKind) -> (r: bool)
    ensures
        r == spec_overlay_kind_is_vehicle(kind),
{
    overlay_kind_is_vehicle(kind)
}

/// Nothing is drawn on a destroyed factory or for another factory's
/// overlays; an unowned or idle factory shows only its tank; a busy one
/// shows everything.
pub open spec fn spec_overlay_should_be_visible(kind: FactoryOverlayKind, owner: TeamType, stats: ObjectStats, production_active: bool) -> bool {
    if stats.spec_destroyed() || !spec_overlay_kind_is_vehicle(kind) {
        false
    } else if owner == TeamType::Null || !production_active {
        kind == FactoryOverlayKind::VehicleTank
    } else {
        true
    }
}

/// Whether a vehicle factory overlay is drawn.
pub fn overlay_should_be_visible(kind: FactoryOverlayKind, owner: TeamType, stats: ObjectStats, production_active: bool) -> (r: bool)
    ensures
        r == spec_overlay_should_be_visible(kind, owner, stats, production_active),
{
    if stats.destroyed() || !overlay_kind_is_vehicle(kind) {
        return false;
    }
    if owner == TeamType::Null || !production_active {
        return match kind {
            FactoryOverlayKind::VehicleTank => true,
            _ => false,
        };
    }
    true
}

/// Where the team-coloured part is drawn, in pixels from the top-left corner.
pub fn team_overlay_world_offset() -> (r: (i32, i32))
    ensures
        r == (32i32, 48i32),
{
    (32, 48)
}

/// Whether `layers` are the sprite layers of a vehicle factory of `team` on `planet`.
pub open spec fn spec_atlas_layers(team: TeamType, planet: PlanetType, layers: Seq<BuildingAtlasFrameSpec>) -> bool {
    &&& layers.len() == 2
    &&& spec_atlas_layer_is(layers[0], TeamType::Red, spec_base_atlas_frame_name(planet), 0, 0, Seq::empty())
    &&& spec_atlas_layer_is(layers[1], spec_atlas_team(team), spec_team_overlay_frame_name(spec_atlas_team(team)), 32, 48, Seq::empty())
}

/// The layers of a vehicle factory of `team` on `planet`: the base from the red
/// atlas, then the team-coloured part from the team's atlas.
pub fn atlas_layer_specs(team: TeamType, planet: PlanetType) -> (r: Vec<BuildingAtlasFrameSpec>)
    ensures
        spec_atlas_layers(team, planet, r@),
{
    let team = team.atlas_team();
    let (x, y) = team_overlay_world_offset();
    let r = vec![
        BuildingAtlasFrameSpec {
            atlas_team: TeamType::Red,
            frame_name: base_atlas_frame_name(planet),
            offset_x: 0,
            offset_y: 0,
            animation_frame_names: Vec::new(),
        },
        BuildingAtlasFrameSpec {
            atlas_team: team,
            frame_name: team_overlay_frame_name(team),
            offset_x: x,
            offset_y: y,
            animation_frame_names: Vec::new(),
        },
    ];
    proof {
        assert(spec_texts(r@[0].animation_frame_names@) =~= Seq::empty());
        assert(spec_texts(r@[1].animation_frame_names@) =~= Seq::empty());
    }
    r
}

/// Where each frame of an overlay is drawn, in pixels from the top-left
/// corner; robot overlays have none here.
pub open spec fn spec_overlay_offsets(kind: FactoryOverlayKind) -> Seq<(i32, i32)> {
    match kind {
        FactoryOverlayKind::VehicleExhaust => spec_exhaust_offsets(-22i32),
        FactoryOverlayKind::VehicleTank => Seq::new(2, |i: int| (16i32, 48i32)),
        FactoryOverlayKind::VehicleVent => Seq::new(4, |i: int| (16i32, 32i32)),
        FactoryOverlayKind::VehicleBulb => Seq::new(2, |i: int| (24i32, 39i32)),
        FactoryOverlayKind::VehicleLight0 => Seq::new(1, |i: int| (13i32, 47i32)),
        FactoryOverlayKind::VehicleLight1 => Seq::new(1, |i: int| (42i32, 47i32)),
        FactoryOverlayKind::VehicleSpin => Seq::new(8, |i: int| (9i32, -2i32)),
        _ => Seq::empty(),
    }
}

/// Where each frame of an overlay is drawn.
pub fn overlay_offsets(kind: FactoryOverlayKind) -> (r: Vec<(i32, i32)>)
    ensures
        r@ == spec_overlay_offsets(kind),
{
    match kind {
        FactoryOverlayKind::VehicleExhaust => exhaust_offsets(-22),
        FactoryOverlayKind::VehicleTank => repeated_offsets(16, 48, 2),
        FactoryOverlayKind::VehicleVent => repeated_offsets(16, 32, 4),
        FactoryOverlayKind::VehicleBulb => repeated_offsets(24, 39, 2),
        FactoryOverlayKind::VehicleLight0 => repeated_offsets(13, 47, 1),
        FactoryOverlayKind::VehicleLight1 => repeated_offsets(42, 47, 1),
        FactoryOverlayKind::VehicleSpin => repeated_offsets(9, -2, 8),
        _ => repeated_offsets(0, 0, 0),
    }
}

/// The frames of an overlay with where each is drawn.
pub fn overlay_frame_specs(kind: FactoryOverlayKind) -> (r: Vec<BuildingOverlayFrameSpec>)
    ensures
        spec_overlay_frame_specs_are(r@, spec_overlay_frame_names(kind), spec_overlay_offsets(kind)),
{
    let names = overlay_frame_names(kind);
    let offsets = overlay_offsets(kind);
    proof {
        assert(spec_texts(names@).len() == names@.len());
    }
    zip_overlay_frame_specs(names, offsets)
}

} // verus!
