//! How the robot factory is drawn: atlas frames, overlays and footprint.

use std::collections::HashMap;
use vstd::prelude::*;

use crate::components::ObjectStats;
use crate::original::types::{spec_atlas_team, spec_team_asset_name, PlanetType, TeamType};
use crate::render::atlas::FactoryOverlayKind;
use crate::text::{concat2, concat3, decimal_names, spec_decimal_names, spec_texts};
use crate::units::buildings::building_ui::{
    lemma_mod_succ, planet_asset_name, repeated_offsets, spec_atlas_layer_is, spec_overlay_frame_specs_are,
    spec_planet_asset_name, zip_overlay_frame_specs, BuildingAtlasFrameSpec, BuildingOverlayFrameSpec,
};
use crate::units::buildings::{BuildingPathingRect, BuildingPathingSpec};

verus! {

broadcast use vstd::std_specs::hash::group_hash_axioms;

/// The robot factory's overlays, in drawing order.
pub open spec fn spec_overlay_kinds() -> Seq<FactoryOverlayKind> {
    seq![
        FactoryOverlayKind::RobotExhaust,
        FactoryOverlayKind::RobotGreenBox,
        FactoryOverlayKind::RobotSingleLight0,
        FactoryOverlayKind::RobotSingleLight1,
        FactoryOverlayKind::RobotSingleLight2,
        FactoryOverlayKind::RobotDoubleLight,
        FactoryOverlayKind::RobotBody,
        FactoryOverlayKind::RobotSpin,
    ]
}

/// The robot factory's overlays, in drawing order.
pub fn overlay_kinds() -> (r: Vec<FactoryOverlayKind>)
    ensures
        r@ == spec_overlay_kinds(),
{
    let r = vec![
        FactoryOverlayKind::RobotExhaust,
        FactoryOverlayKind::RobotGreenBox,
        FactoryOverlayKind::RobotSingleLight0,
        FactoryOverlayKind::RobotSingleLight1,
        FactoryOverlayKind::RobotSingleLight2,
        FactoryOverlayKind::RobotDoubleLight,
        FactoryOverlayKind::RobotBody,
        FactoryOverlayKind::RobotSpin,
    ];
    proof {
        assert(r@ =~= spec_overlay_kinds());
    }
    r
}

/// Footprint of the robot factory: a four by five block.
pub fn pathing_spec() -> (r: BuildingPathingSpec)
    ensures
        r.spec_is(seq![BuildingPathingRect { dx: 0, dy: 0, width: 4, height: 5 }], Seq::empty(), Seq::empty()),
{
    let r = BuildingPathingSpec {
        blocked_rects: vec![BuildingPathingRect { dx: 0, dy: 0, width: 4, height: 5 }],
        blocked_masks: Vec::new(),
        unblocked_tiles: Vec::new(),
    };
    proof {
        assert(r.blocked_rects@ =~= seq![BuildingPathingRect { dx: 0, dy: 0, width: 4, height: 5 }]);
        assert(r.spec_masks() =~= Seq::empty());
        assert(r.unblocked_tiles@ =~= Seq::empty());
    }
    r
}

/// Asset path of the label of the robot production window.
pub fn production_label_asset_path() -> (r: &'static str)
    ensures
        r@ == "other/production_gui/robot_factory_label.png"@,
{
    "other/production_gui/robot_factory_label.png"
}

/// Atlas frame of the robot factory's base on `planet`.
pub open spec fn spec_base_atlas_frame_name(planet: PlanetType) -> Seq<char> {
    "building_robot_base_"@ + spec_planet_asset_name(planet)
}

/// Atlas frame of the robot factory's base on `planet`.
pub fn base_atlas_frame_name(planet: PlanetType) -> (r: String)
    ensures
        r@ == spec_base_atlas_frame_name(planet),
{
    concat2("building_robot_base_", planet_asset_name(planet))
}

/// Atlas frame of the team-coloured part, in the team's atlas colour.
pub open spec fn spec_team_overlay_frame_name(team: TeamType) -> Seq<char> {
    "building_robot_"@ + spec_team_asset_name(spec_atlas_team(team))
}

/// Atlas frame of the team-coloured part of the robot factory.
pub fn team_overlay_frame_name(team: TeamType) -> (r: String)
    ensures
        r@ == spec_team_overlay_frame_name(team),
{
    concat2("building_robot_", team.atlas_team().asset_name())
}

/// Asset path of a destroyed robot factory on `planet`.
pub open spec fn spec_destroyed_asset_path(planet: PlanetType) -> Seq<char> {
    "buildings/robot/base_destroyed_"@ + spec_planet_asset_name(planet) + ".png"@
}

/// Asset path of a destroyed robot factory on `planet`.
pub fn destroyed_asset_path(planet: PlanetType) -> (r: String)
    ensures
        r@ == spec_destroyed_asset_path(planet),
{
    concat3("buildings/robot/base_destroyed_", planet_asset_name(planet), ".png")
}

/// The overlays that belong to the robot factory.
pub open spec fn spec_overlay_kind_is_robot(kind: FactoryOverlayKind) -> bool {
    match kind {
        FactoryOverlayKind::RobotExhaust => true,
        FactoryOverlayKind::RobotGreenBox => true,
        FactoryOverlayKind::RobotSingleLight0 => true,
        FactoryOverlayKind::RobotSingleLight1 => true,
        FactoryOverlayKind::RobotSingleLight2 => true,
        FactoryOverlayKind::RobotDoubleLight => true,
        FactoryOverlayKind::RobotBody => true,
        FactoryOverlayKind::RobotSpin => true,
        _ => false,
    }
}

/// Whether an overlay belongs to the robot factory.
pub fn overlay_kind_is_robot(kind: FactoryOverlayKind) -> (r: bool)
    ensures
        r == spec_overlay_kind_is_robot(kind),
{
    match kind {
        FactoryOverlayKind::RobotExhaust
        | FactoryOverlayKind::RobotGreenBox
        | FactoryOverlayKind::RobotSingleLight0
        | FactoryOverlayKind::RobotSingleLight1
        | FactoryOverlayKind::RobotSingleLight2
        | FactoryOverlayKind::RobotDoubleLight
        | FactoryOverlayKind::RobotBody
        | FactoryOverlayKind::RobotSpin => true,
        _ => false,
    }
}

/// Atlas frames of an overlay, in animation order; vehicle overlays have none here.
pub open spec fn spec_overlay_frame_names(kind: FactoryOverlayKind) -> Seq<Seq<char>> {
    match kind {
        FactoryOverlayKind::RobotExhaust => spec_decimal_names("exhaust_"@, 13, ""@),
        FactoryOverlayKind::RobotGreenBox => spec_decimal_names("building_robot_green_box_"@, 6, ""@),
        FactoryOverlayKind::RobotSingleLight0 => spec_decimal_names("building_robot_light_"@, 2, ""@),
        FactoryOverlayKind::RobotSingleLight1 => spec_decimal_names("building_robot_light_"@, 2, ""@),
        FactoryOverlayKind::RobotSingleLight2 => spec_decimal_names("building_robot_light_"@, 2, ""@),
        FactoryOverlayKind::RobotDoubleLight => seq!["building_robot_double_light_1"@],
        FactoryOverlayKind::RobotBody => spec_decimal_names("building_robot_robot_"@, 2, ""@),
        FactoryOverlayKind::RobotSpin => spec_decimal_names("building_robot_spin_"@, 8, ""@),
        _ => Seq::empty(),
    }
}

/// Atlas frames of an overlay, in animation order.
pub fn overlay_frame_names(kind: FactoryOverlayKind) -> (r: Vec<String>)
    ensures
        spec_texts(r@) == spec_overlay_frame_names(kind),
{
    match kind {
        FactoryOverlayKind::RobotExhaust => decimal_names("exhaust_", 13, ""),
        FactoryOverlayKind::RobotGreenBox => decimal_names("building_robot_green_box_", 6, ""),
        FactoryOverlayKind::RobotSingleLight0 | FactoryOverlayKind::RobotSingleLight1 | FactoryOverlayKind::RobotSingleLight2 => {
            decimal_names("building_robot_light_", 2, "")
        },
        FactoryOverlayKind::RobotDoubleLight => {
            let mut r: Vec<String> = Vec::new();
            r.push(concat2("building_robot_double_light_1", ""));
            proof {
                reveal_strlit("");
                assert(spec_texts(r@) =~= seq!["building_robot_double_light_1"@]);
            }
            r
        },
        FactoryOverlayKind::RobotBody => decimal_names("building_robot_robot_", 2, ""),
        FactoryOverlayKind::RobotSpin => decimal_names("building_robot_spin_", 8, ""),
        _ => {
            let r: Vec<String> = Vec::new();
            proof {
                assert(spec_texts(r@) =~= Seq::empty());
            }
            r
        },
    }
}

/// Which of the three single lights an overlay is.
pub open spec fn spec_overlay_single_light_index(kind: FactoryOverlayKind) -> Option<usize> {
    match kind {
        FactoryOverlayKind::RobotSingleLight0 => Some(0),
        FactoryOverlayKind::RobotSingleLight1 => Some(1),
        FactoryOverlayKind::RobotSingleLight2 => Some(2),
        _ => None,
    }
}

/// Which of the three single lights an overlay is, if it is one.
pub fn overlay_single_light_index(kind: FactoryOverlayKind) -> (r: Option<usize>)
    ensures
        r == spec_overlay_single_light_index(kind),
{
    match kind {
        FactoryOverlayKind::RobotSingleLight0 => Some(0),
        FactoryOverlayKind::RobotSingleLight1 => Some(1),
        FactoryOverlayKind::RobotSingleLight2 => Some(2),
        _ => None,
    }
}

/// Whether an overlay is one of the single lights.
pub fn overlay_is_single_light(kind: FactoryOverlayKind) -> (r: bool)
    ensures
        r == spec_overlay_single_light_index(kind) is Some,
{
    overlay_single_light_index(kind).is_some()
}

/// Whether an overlay's first frame is drawn: single lights start dark.
pub fn overlay_initial_frame_visible(kind: FactoryOverlayKind) -> (r: bool)
    ensures
        r == !(spec_overlay_single_light_index(kind) is Some),
{
    !overlay_is_single_light(kind)
}

/// Nothing is drawn on a destroyed factory or for another factory's
/// overlays; an unowned or idle factory shows only its robot; a single
/// light is dark at its first frame; everything else is drawn.
pub open spec fn spec_overlay_should_be_visible(
    kind: FactoryOverlayKind,
    owner: TeamType,
    stats: ObjectStats,
    production_active: bool,
    current: usize,
) -> bool {
    if stats.spec_destroyed() || !spec_overlay_kind_is_robot(kind) {
        false
    } else if owner == TeamType::Null || !production_active {
        kind == FactoryOverlayKind::RobotBody
    } else {
        !(spec_overlay_single_light_index(kind) is Some && current == 0)
    }
}

/// Whether a robot factory overlay at frame `current` is drawn.
pub fn overlay_should_be_visible(
    kind: FactoryOverlayKind,
    owner: TeamType,
    stats: ObjectStats,
    production_active: bool,
    current: usize,
) -> (r: bool)
    ensures
        r == spec_overlay_should_be_visible(kind, owner, stats, production_active, current),
{
    if stats.destroyed() || !overlay_kind_is_robot(kind) {
        return false;
    }
    if owner == TeamType::Null || !production_active {
        return match kind {
            FactoryOverlayKind::RobotBody => true,
            _ => false,
        };
    }
    if overlay_is_single_light(kind) && current == 0 {
        return false;
    }
    true
}

/// States of the three single lights after a flicker: with one chance in
/// three (`reroll == 0`) the lights take the drawn states `lights`,
/// otherwise they keep theirs.
pub fn robot_single_light_update(reroll: usize, lights: [usize; 3]) -> (r: Option<[usize; 3]>)
    requires
        reroll < 3,
        lights@[0] < 2,
        lights@[1] < 2,
        lights@[2] < 2,
    ensures
        r == (if reroll == 0 { Some(lights) } else { None::<[usize; 3]> }),
{
    if reroll == 0 {
        Some(lights)
    } else {
        None
    }
}

/// The light update a flicker of building `ref_id` uses: the one already
/// recorded for it, or the one recorded now.
pub open spec fn spec_recorded_light_update(
    before: Map<u32, Option<[usize; 3]>>,
    after: Map<u32, Option<[usize; 3]>>,
    ref_id: u32,
) -> Option<[usize; 3]> {
    if before.contains_key(ref_id) { before[ref_id] } else { after[ref_id] }
}

/// The next frame of a robot factory overlay. Single lights take their state
/// from the flicker recorded for this building in `robot_light_updates`; when
/// none is recorded yet, `draw` is called once and its result recorded, and a
/// light keeps its frame when the flicker changes nothing. Other overlays
/// advance one frame, wrapping after `frame_count`.
pub fn overlay_next_frame<F: FnOnce() -> Option<[usize; 3]>>(
    ref_id: u32,
    kind: FactoryOverlayKind,
    current: usize,
    frame_count: usize,
    draw: F,
    robot_light_updates: &mut HashMap<u32, Option<[usize; 3]>>,
) -> (r: usize)
    requires
        spec_overlay_single_light_index(kind) is None ==> frame_count > 0,
        call_requires(draw, ()),
    ensures
        match spec_overlay_single_light_index(kind) {
            None => r == (current + 1) % (frame_count as int) && final(robot_light_updates)@ == old(robot_light_updates)@,
            Some(light) => {
                let update = spec_recorded_light_update(old(robot_light_updates)@, final(robot_light_updates)@, ref_id);
                &&& final(robot_light_updates)@ == old(robot_light_updates)@.insert(ref_id, update)
                &&& !old(robot_light_updates)@.contains_key(ref_id) ==> call_ensures(draw, (), update)
                &&& r == (match update {
                    Some(states) => states@[light as int],
                    None => current,
                })
            },
        },
{
    match overlay_single_light_index(kind) {
        Some(light) => {
            let update = match robot_light_updates.get(&ref_id) {
                Some(recorded) => *recorded,
                None => {
                    let fresh = draw();
                    robot_light_updates.insert(ref_id, fresh);
                    fresh
                },
            };
            proof {
                if old(robot_light_updates)@.contains_key(ref_id) {
                    assert(robot_light_updates@ =~= old(robot_light_updates)@.insert(ref_id, update));
                }
            }
            match update {
                Some(states) => states[light],
                None => current,
            }
        },
        None => {
            proof {
                lemma_mod_succ(current as int, frame_count as int);
            }
            (current % frame_count + 1) % frame_count
        },
    }
}

/// Where the team-coloured part is drawn, in pixels from the top-left corner.
pub fn team_overlay_world_offset() -> (r: (i32, i32))
    ensures
        r == (16i32, 64i32),
{
    (16, 64)
}

/// Whether `layers` are the sprite layers of a robot factory of `team` on `planet`.
pub open spec fn spec_atlas_layers(team: TeamType, planet: PlanetType, layers: Seq<BuildingAtlasFrameSpec>) -> bool {
    &&& layers.len() == 2
    &&& spec_atlas_layer_is(layers[0], TeamType::Red, spec_base_atlas_frame_name(planet), 0, 0, Seq::empty())
    &&& spec_atlas_layer_is(layers[1], spec_atlas_team(team), spec_team_overlay_frame_name(spec_atlas_team(team)), 16, 64, Seq::empty())
}

/// The layers of a robot factory of `team` on `planet`: the base from the red
/// atlas, then the team-coloured part from the team's atlas.
pub fn atlas_layer_specs(team: TeamType, planet: PlanetType) -> (r: Vec<BuildingAtlasFrameSpec>)
    ensures
        spec_atlas_layers(team, planet, r@),
{
    let team = team.atlas_team();
    let (x, y) = team_overlay_world_offset();
    let r = vec![
        BuildingAtlasFrameSpec {
            atlas_team: TeamType::Red,
            frame_name: base_atlas_frame_name(planet),
            offset_x: 0,
            offset_y: 0,
            animation_frame_names: Vec::new(),
        },
        BuildingAtlasFrameSpec {
            atlas_team: team,
            frame_name: team_overlay_frame_name(team),
            offset_x: x,
            offset_y: y,
            animation_frame_names: Vec::new(),
        },
    ];
    proof {
        assert(spec_texts(r@[0].animation_frame_names@) =~= Seq::empty());
        assert(spec_texts(r@[1].animation_frame_names@) =~= Seq::empty());
    }
    r
}

/// Offsets of the exhaust frames: the puff rises two pixels a frame from
/// `(28, start)`.
pub open spec fn spec_exhaust_offsets(start: i32) -> Seq<(i32, i32)> {
    Seq::new(13, |i: int| (28i32, (start - 2 * i) as i32))
}

/// The exhaust frame offsets, rising two pixels a frame from `(28, start)`.
pub fn exhaust_offsets(start: i32) -> (r: Vec<(i32, i32)>)
    requires
        start - 24 >= i32::MIN,
    ensures
        r@ == spec_exhaust_offsets(start),
{
    let mut r: Vec<(i32, i32)> = Vec::new();
    let mut frame: i32 = 0;
    while frame < 13
        invariant
            0 <= frame <= 13,
            start - 24 >= i32::MIN,
            r@ == spec_exhaust_offsets(start).take(frame as int),
        decreases 13 - frame,
    {
        r.push((28, start - 2 * frame));
        proof {
            assert(r@ =~= spec_exhaust_offsets(start).take(frame + 1));
        }
        frame = frame + 1;
    }
    proof {
        assert(r@ =~= spec_exhaust_offsets(start));
    }
    r
}

/// Where each frame of an overlay is drawn, in pixels from the top-left
/// corner; vehicle overlays have none here.
pub open spec fn spec_overlay_offsets(kind: FactoryOverlayKind) -> Seq<(i32, i32)> {
    match kind {
        FactoryOverlayKind::RobotExhaust => spec_exhaust_offsets(-24i32),
        FactoryOverlayKind::RobotGreenBox => Seq::new(6, |i: int| (38i32, 39i32)),
        FactoryOverlayKind::RobotSingleLight0 => Seq::new(2, |i: int| (13i32, 68i32)),
        FactoryOverlayKind::RobotSingleLight1 => Seq::new(2, |i: int| (16i32, 68i32)),
        FactoryOverlayKind::RobotSingleLight2 => Seq::new(2, |i: int| (19i32, 68i32)),
        FactoryOverlayKind::RobotDoubleLight => Seq::new(1, |i: int| (16i32, 32i32)),
        FactoryOverlayKind::RobotBody => Seq::new(2, |i: int| (16i32, 48i32)),
        FactoryOverlayKind::RobotSpin => Seq::new(8, |i: int| (9i32, -2i32)),
        _ => Seq::empty(),
    }
}

/// Where each frame of an overlay is drawn.
pub fn overlay_offsets(kind: FactoryOverlayKind) -> (r: Vec<(i32, i32)>)
    ensures
        r@ == spec_overlay_offsets(kind),
{
    match kind {
        FactoryOverlayKind::RobotExhaust => exhaust_offsets(-24),
        FactoryOverlayKind::RobotGreenBox => repeated_offsets(38, 39, 6),
        FactoryOverlayKind::RobotSingleLight0 => repeated_offsets(13, 68, 2),
        FactoryOverlayKind::RobotSingleLight1 => repeated_offsets(16, 68, 2),
        FactoryOverlayKind::RobotSingleLight2 => repeated_offsets(19, 68, 2),
        FactoryOverlayKind::RobotDoubleLight => repeated_offsets(16, 32, 1),
        FactoryOverlayKind::RobotBody => repeated_offsets(16, 48, 2),
        FactoryOverlayKind::RobotSpin => repeated_offsets(9, -2, 8),
        _ => repeated_offsets(0, 0, 0),
    }
}

/// The frames of an overlay with where each is drawn.
pub fn overlay_frame_specs(kind: FactoryOverlayKind) -> (r: Vec<BuildingOverlayFrameSpec>)
    ensures
        spec_overlay_frame_specs_are(r@, spec_overlay_frame_names(kind), spec_overlay_offsets(kind)),
{
    let names = overlay_frame_names(kind);
    let offsets = overlay_offsets(kind);
    proof {
        reveal_strlit("");
        reveal_strlit("exhaust_");
        assert(spec_texts(names@).len() == names@.len());
    }
    zip_overlay_frame_specs(names, offsets)
}

} // verus!
