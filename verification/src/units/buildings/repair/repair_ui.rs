//! How the repair building is drawn: atlas frames, overlays and footprint.

use vstd::prelude::*;

use crate::components::ObjectStats;
use crate::original::types::{spec_atlas_team, spec_team_asset_name, PlanetType, TeamType};
use crate::render::atlas::RepairOverlayKind;
use crate::text::{concat2, concat3, decimal_names, spec_decimal, spec_texts};
use crate::units::buildings::building_ui::{
    planet_asset_name, repeated_offsets, spec_atlas_layer_is, spec_overlay_frame_specs_are, spec_planet_asset_name,
    zip_overlay_frame_specs, BuildingAtlasFrameSpec, BuildingOverlayFrameSpec,
};
use crate::units::buildings::{BuildingPathingRect, BuildingPathingSpec};

verus! {

/// The repair building's overlays, in drawing order.
pub open spec fn spec_overlay_kinds() -> Seq<RepairOverlayKind> {
    seq![
        RepairOverlayKind::TextBox,
        RepairOverlayKind::Bulb,
        RepairOverlayKind::SmokeStack,
        RepairOverlayKind::FrontLight,
        RepairOverlayKind::SideLight,
    ]
}

/// The repair building's overlays, in drawing order.
pub fn overlay_kinds() -> (r: Vec<RepairOverlayKind>)
    ensures
        r@ == spec_overlay_kinds(),
{
    let r = vec![
        RepairOverlayKind::TextBox,
        RepairOverlayKind::Bulb,
        RepairOverlayKind::SmokeStack,
        RepairOverlayKind::FrontLight,
        RepairOverlayKind::SideLight,
    ];
    proof {
        assert(r@ =~= spec_overlay_kinds());
    }
    r
}

/// Footprint of the repair building: a five by four block.
pub fn pathing_spec() -> (r: BuildingPathingSpec)
    ensures
        r.spec_is(seq![BuildingPathingRect { dx: 0, dy: 0, width: 5, height: 4 }], Seq::empty(), Seq::empty()),
{
    let r = BuildingPathingSpec {
        blocked_rects: vec![BuildingPathingRect { dx: 0, dy: 0, width: 5, height: 4 }],
        blocked_masks: Vec::new(),
        unblocked_tiles: Vec::new(),
    };
    proof {
        assert(r.blocked_rects@ =~= seq![BuildingPathingRect { dx: 0, dy: 0, width: 5, height: 4 }]);
        assert(r.spec_masks() =~= Seq::empty());
        assert(r.unblocked_tiles@ =~= Seq::empty());
    }
    r
}

/// Atlas frame of the repair building's base on `planet`.
pub open spec fn spec_base_atlas_frame_name(planet: PlanetType) -> Seq<char> {
    "building_repair_base_"@ + spec_planet_asset_name(planet)
}

/// Atlas frame of the repair building's base on `planet`.
pub fn base_atlas_frame_name(planet: PlanetType) -> (r: String)
    ensures
        r@ == spec_base_atlas_frame_name(planet),
{
    concat2("building_repair_base_", planet_asset_name(planet))
}

/// Atlas frame of the team-coloured part, in the team's atlas colour.
pub open spec fn spec_team_overlay_frame_name(team: TeamType) -> Seq<char> {
    "building_repair_"@ + spec_team_asset_name(spec_atlas_team(team))
}

/// Atlas frame of the team-coloured part of the repair building.
pub fn team_overlay_frame_name(team: TeamType) -> (r: String)
    ensures
        r@ == spec_team_overlay_frame_name(team),
{
    concat2("building_repair_", team.atlas_team().asset_name())
}

/// Asset path of a destroyed repair building on `planet`.
pub open spec fn spec_destroyed_asset_path(planet: PlanetType) -> Seq<char> {
    "buildings/repair/base_destroyed_"@ + spec_planet_asset_name(planet) + ".png"@
}

/// Asset path of a destroyed repair building on `planet`.
pub fn destroyed_asset_path(planet: PlanetType) -> (r: String)
    ensures
        r@ == spec_destroyed_asset_path(planet),
{
    concat3("buildings/repair/base_destroyed_", planet_asset_name(planet), ".png")
}

/// Name stem of an overlay's frames.
pub open spec fn spec_overlay_stem(kind: RepairOverlayKind) -> Seq<char> {
    match kind {
        RepairOverlayKind::FrontLight => "front_light"@,
        RepairOverlayKind::SideLight => "side_light"@,
        RepairOverlayKind::Bulb => "bulb"@,
        RepairOverlayKind::SmokeStack => "smoke_stack"@,
        RepairOverlayKind::TextBox => "text_box"@,
    }
}

/// Number of frames of an overlay.
pub open spec fn spec_overlay_frame_count(kind: RepairOverlayKind) -> nat {
    match kind {
        RepairOverlayKind::FrontLight => 2,
        RepairOverlayKind::SideLight => 2,
        RepairOverlayKind::Bulb => 2,
        RepairOverlayKind::SmokeStack => 5,
        RepairOverlayKind::TextBox => 3,
    }
}

/// Atlas frame `frame` of an overlay.
pub open spec fn spec_overlay_frame_name(kind: RepairOverlayKind, frame: nat) -> Seq<char> {
    "building_repair_"@ + spec_overlay_stem(kind) + "_"@ + spec_decimal(frame)
}

/// Atlas frames of an overlay, in animation order.
pub fn overlay_frame_names(kind: RepairOverlayKind) -> (r: Vec<String>)
    ensures
        r@.len() == spec_overlay_frame_count(kind),
        forall|i: int| 0 <= i < spec_overlay_frame_count(kind) ==> #[trigger] r@[i]@ == spec_overlay_frame_name(kind, i as nat),
{
    let (stem, count): (&str, usize) = match kind {
        RepairOverlayKind::FrontLight => ("front_light", 2),
        RepairOverlayKind::SideLight => ("side_light", 2),
        RepairOverlayKind::Bulb => ("bulb", 2),
        RepairOverlayKind::SmokeStack => ("smoke_stack", 5),
        RepairOverlayKind::TextBox => ("text_box", 3),
    };
    let prefix = concat3("building_repair_", stem, "_");
    let r = decimal_names(prefix.as_str(), count, "");
    proof {
        reveal_strlit("");
        assert(stem@ == spec_overlay_stem(kind));
        assert(count == spec_overlay_frame_count(kind));
        assert forall|i: int| 0 <= i < spec_overlay_frame_count(kind) implies #[trigger] r@[i]@ == spec_overlay_frame_name(kind, i as nat) by {
            assert(r@[i]@ =~= prefix@ + spec_decimal(i as nat) + ""@);
        }
    }
    r
}

/// Nothing is drawn on a destroyed repair building; an unowned one only
/// smokes; an owned one shows its lights, bulb and sign, and smokes while
/// it repairs a unit.
pub open spec fn spec_overlay_should_be_visible(kind: RepairOverlayKind, owner: TeamType, stats: ObjectStats, repairing_unit: bool) -> bool {
    if stats.spec_destroyed() {
        false
    } else if owner == TeamType::Null {
        kind == RepairOverlayKind::SmokeStack
    } else if kind == RepairOverlayKind::SmokeStack {
        repairing_unit
    } else {
        true
    }
}

/// Whether a repair building overlay is drawn.
pub fn overlay_should_be_visible(kind: RepairOverlayKind, owner: TeamType, stats: ObjectStats, repairing_unit: bool) -> (r: bool)
    ensures
        r == spec_overlay_should_be_visible(kind, owner, stats, repairing_unit),
{
    if stats.destroyed() {
        return false;
    }
    if owner == TeamType::Null {
        return match kind {
            RepairOverlayKind::SmokeStack => true,
            _ => false,
        };
    }
    match kind {
        RepairOverlayKind::SmokeStack => repairing_unit,
        RepairOverlayKind::FrontLight | RepairOverlayKind::SideLight | RepairOverlayKind::Bulb | RepairOverlayKind::TextBox => true,
    }
}

/// The lights are held at their second frame; the bulb and smoke stack are
/// held at their first while the building is unowned or idle; everything
/// else animates freely.
pub open spec fn spec_overlay_forced_frame(kind: RepairOverlayKind, owner: TeamType, repairing_unit: bool) -> Option<usize> {
    match kind {
        RepairOverlayKind::FrontLight => Some(1),
        RepairOverlayKind::SideLight => Some(1),
        RepairOverlayKind::Bulb => if owner == TeamType::Null || !repairing_unit { Some(0) } else { None },
        RepairOverlayKind::SmokeStack => if owner == TeamType::Null || !repairing_unit { Some(0) } else { None },
        RepairOverlayKind::TextBox => None,
    }
}

/// The frame a repair building overlay is held at, if any.
pub fn overlay_forced_frame(kind: RepairOverlayKind, owner: TeamType, repairing_unit: bool) -> (r: Option<usize>)
    ensures
        r == spec_overlay_forced_frame(kind, owner, repairing_unit),
{
    match kind {
        RepairOverlayKind::FrontLight | RepairOverlayKind::SideLight => Some(1),
        RepairOverlayKind::Bulb | RepairOverlayKind::SmokeStack => {
            if owner == TeamType::Null || !repairing_unit {
                Some(0)
            } else {
                None
            }
        },
        RepairOverlayKind::TextBox => None,
    }
}

/// The frame an overlay starts at: its held frame, or the first.
pub fn overlay_initial_frame(kind: RepairOverlayKind, owner: TeamType, repairing_unit: bool) -> (r: usize)
    ensures
        r == (match spec_overlay_forced_frame(kind, owner, repairing_unit) {
            Some(frame) => frame,
            None => 0,
        }),
{
    match overlay_forced_frame(kind, owner, repairing_unit) {
        Some(frame) => frame,
        None => 0,
    }
}

/// Where the team-coloured part is drawn, in pixels from the top-left corner.
pub fn team_overlay_world_offset() -> (r: (i32, i32))
    ensures
        r == (0i32, 48i32),
{
    (0, 48)
}

/// Whether `layers` are the sprite layers of a repair building of `team` on `planet`.
pub open spec fn spec_atlas_layers(team: TeamType, planet: PlanetType, layers: Seq<BuildingAtlasFrameSpec>) -> bool {
    &&& layers.len() == 2
    &&& spec_atlas_layer_is(layers[0], TeamType::Red, spec_base_atlas_frame_name(planet), 0, 0, Seq::empty())
    &&& spec_atlas_layer_is(layers[1], spec_atlas_team(team), spec_team_overlay_frame_name(spec_atlas_team(team)), 0, 48, Seq::empty())
}

/// The layers of a repair building of `team` on `planet`: the base from the red
/// atlas, then the team-coloured part from the team's atlas.
pub fn atlas_layer_specs(team: TeamType, planet: PlanetType) -> (r: Vec<BuildingAtlasFrameSpec>)
    ensures
        spec_atlas_layers(team, planet, r@),
{
    let team = team.atlas_team();
    let (x, y) = team_overlay_world_offset();
    let r = vec![
        BuildingAtlasFrameSpec {
            atlas_team: TeamType::Red,
            frame_name: base_atlas_frame_name(planet),
            offset_x: 0,
            offset_y: 0,
            animation_frame_names: Vec::new(),
        },
        BuildingAtlasFrameSpec {
            atlas_team: team,
            frame_name: team_overlay_frame_name(team),
            offset_x: x,
            offset_y: y,
            animation_frame_names: Vec::new(),
        },
    ];
    proof {
        assert(spec_texts(r@[0].animation_frame_names@) =~= Seq::empty());
        assert(spec_texts(r@[1].animation_frame_names@) =~= Seq::empty());
    }
    r
}

/// Where each frame of an overlay is drawn, in pixels from the top-left corner.
pub open spec fn spec_overlay_offsets(kind: RepairOverlayKind) -> Seq<(i32, i32)> {
    match kind {
        RepairOverlayKind::FrontLight => Seq::new(2, |i: int| (6i32, 16i32)),
        RepairOverlayKind::SideLight => Seq::new(2, |i: int| (18i32, 6i32)),
        RepairOverlayKind::Bulb => Seq::new(2, |i: int| (32i32, 0i32)),
        RepairOverlayKind::SmokeStack => Seq::new(5, |i: int| (61i32, 0i32)),
        RepairOverlayKind::TextBox => Seq::new(3, |i: int| (16i32, 32i32)),
    }
}

/// Where each frame of an overlay is drawn.
pub fn overlay_offsets(kind: RepairOverlayKind) -> (r: Vec<(i32, i32)>)
    ensures
        r@ == spec_overlay_offsets(kind),
{
    match kind {
        RepairOverlayKind::FrontLight => repeated_offsets(6, 16, 2),
        RepairOverlayKind::SideLight => repeated_offsets(18, 6, 2),
        RepairOverlayKind::Bulb => repeated_offsets(32, 0, 2),
        RepairOverlayKind::SmokeStack => repeated_offsets(61, 0, 5),
        RepairOverlayKind::TextBox => repeated_offsets(16, 32, 3),
    }
}

/// The frames of an overlay with where each is drawn.
pub fn overlay_frame_specs(kind: RepairOverlayKind) -> (r: Vec<BuildingOverlayFrameSpec>)
    ensures
        spec_overlay_frame_specs_are(
            r@,
            Seq::new(spec_overlay_frame_count(kind), |i: int| spec_overlay_frame_name(kind, i as nat)),
            spec_overlay_offsets(kind),
        ),
{
    let names = overlay_frame_names(kind);
    let offsets = overlay_offsets(kind);
    proof {
        assert(spec_texts(names@) =~= Seq::new(spec_overlay_frame_count(kind), |i: int| spec_overlay_frame_name(kind, i as nat)));
    }
    zip_overlay_frame_specs(names, offsets)
}

} // verus!
