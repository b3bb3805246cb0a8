//! What the building user interface shows: production windows and their
//! selection, bridge tiles, overlays and asset names.

use vstd::prelude::*;

use std::collections::HashMap;

use crate::components::{ObjectStats, ProductionLevel, ProductionWindowKind};
use crate::original::objects::{BuildingType, ObjectKind};
use crate::original::types::{PlanetType, TeamType};
use crate::render::atlas::{FactoryOverlayKind, RadarOverlayKind, RepairOverlayKind};
use crate::text::{numbered_names, push_decimal, spec_decimal, spec_numbered_name, spec_texts};
use crate::units::buildings::bridge_horz::bridge_horz_ui;
use crate::units::buildings::bridge_vert::bridge_vert_ui;
use crate::units::buildings::fort_back::fort_back_ui;
use crate::units::buildings::fort_front::fort_front_ui;
use crate::units::buildings::radar::radar_ui;
use crate::units::buildings::repair::repair_ui;
use crate::units::buildings::robot_factory::robot_factory_ui;
use crate::units::buildings::vehicle_factory::vehicle_factory_ui;
use crate::units::buildings::BuildingPathingSpec;
use crate::units::buildings::{
    default_build_list, default_production_unit, lemma_default_unit_always_buildable, spec_building_default_unit,
    spec_default_build_list, spec_default_production_unit,
};

verus! {

/// Left edge of the first unit slot in the production selector, in pixels.
pub const PRODUCTION_SELECTOR_OBJECT_OFFSET_X: u32 = 6;
/// Top edge of the first unit row in the production selector, in pixels.
pub const PRODUCTION_SELECTOR_OBJECT_OFFSET_Y: u32 = 22;
/// Horizontal distance between unit slots of one row, in pixels.
pub const PRODUCTION_SELECTOR_OBJECT_STEP_X: u32 = 47;
/// Vertical distance between unit rows, in pixels.
pub const PRODUCTION_SELECTOR_OBJECT_STEP_Y: u32 = 53;

/// Name of a planet in asset paths.
pub open spec fn spec_planet_asset_name(planet: PlanetType) -> Seq<char> {
    match planet {
        PlanetType::Desert => "desert"@,
        PlanetType::Volcanic => "volcanic"@,
        PlanetType::Arctic => "arctic"@,
        PlanetType::Jungle => "jungle"@,
        PlanetType::City => "city"@,
    }
}

/// Name of a planet in asset paths.
pub fn planet_asset_name(planet: PlanetType) -> (r: &'static str)
    ensures
        r@ == spec_planet_asset_name(planet),
{
    match planet {
        PlanetType::Desert => "desert",
        PlanetType::Volcanic => "volcanic",
        PlanetType::Arctic => "arctic",
        PlanetType::Jungle => "jungle",
        PlanetType::City => "city",
    }
}

/// How a bridge is drawn, from its health.
#[derive(Clone, Copy, Debug, PartialEq, Eq, Structural)]
pub enum BridgeVisualState {
    Live,
    Damaged,
    Destroyed,
}

/// One tile of a drawn bridge: the frame it shows, where it sits relative to
/// the bridge's top-left corner, and the frame's size, all in pixels.
#[derive(Clone, Copy, Debug, PartialEq, Eq, Structural)]
pub struct BridgeVisualTileSpec {
    pub index: usize,
    pub offset_x: u32,
    pub offset_y: u32,
    pub frame_width: u32,
    pub frame_height: u32,
}

/// How a bridge at `health_percent` is drawn.
pub open spec fn spec_bridge_visual_state(health_percent: i32) -> BridgeVisualState {
    if health_percent <= 0 {
        BridgeVisualState::Destroyed
    } else if health_percent < 50 {
        BridgeVisualState::Damaged
    } else {
        BridgeVisualState::Live
    }
}

/// How a bridge is drawn: destroyed at no health left, damaged below half
/// health, live otherwise.
pub fn bridge_visual_state(health_percent: i32) -> (r: BridgeVisualState)
    ensures
        r == spec_bridge_visual_state(health_percent),
{
    if health_percent <= 0 {
        BridgeVisualState::Destroyed
    } else if health_percent < 50 {
        BridgeVisualState::Damaged
    } else {
        BridgeVisualState::Live
    }
}

/// Tiles of a drawn bridge; buildings that are not bridges have none.
pub open spec fn spec_bridge_visual_tile_specs(building: BuildingType, extra_links: u16, state: BridgeVisualState) -> Seq<BridgeVisualTileSpec> {
    match building {
        BuildingType::BridgeVert => bridge_vert_ui::spec_visual_tile_specs(extra_links, state),
        BuildingType::BridgeHorz => bridge_horz_ui::spec_visual_tile_specs(extra_links, state),
        _ => Seq::empty(),
    }
}

/// Tiles of a drawn bridge.
pub fn bridge_visual_tile_specs(building: BuildingType, extra_links: u16, state: BridgeVisualState) -> (r: Vec<BridgeVisualTileSpec>)
    ensures
        r@ == spec_bridge_visual_tile_specs(building, extra_links, state),
{
    match building {
        BuildingType::BridgeVert => bridge_vert_ui::visual_tile_specs(extra_links, state),
        BuildingType::BridgeHorz => bridge_horz_ui::visual_tile_specs(extra_links, state),
        _ => Vec::new(),
    }
}

/// Footprint of a bridge in tiles, width then height; `None` for other buildings.
pub fn bridge_pathing_dimensions(building: BuildingType, extra_links: u16) -> (r: Option<(u16, u16)>)
    ensures
        r == (match building {
            BuildingType::BridgeVert => Some(bridge_vert_ui::spec_pathing_dimensions(extra_links)),
            BuildingType::BridgeHorz => Some(bridge_horz_ui::spec_pathing_dimensions(extra_links)),
            _ => None::<(u16, u16)>,
        }),
{
    match building {
        BuildingType::BridgeVert => Some(bridge_vert_ui::pathing_dimensions(extra_links)),
        BuildingType::BridgeHorz => Some(bridge_horz_ui::pathing_dimensions(extra_links)),
        _ => None,
    }
}

/// Side-wall tiles of a bridge; other buildings have none.
pub fn bridge_edge_block_offsets(building: BuildingType, extra_links: u16) -> (r: Vec<(u16, u16)>)
    ensures
        r@ == (match building {
            BuildingType::BridgeVert => bridge_vert_ui::spec_edge_block_offsets(extra_links),
            BuildingType::BridgeHorz => bridge_horz_ui::spec_edge_block_offsets(extra_links),
            _ => Seq::<(u16, u16)>::empty(),
        }),
{
    match building {
        BuildingType::BridgeVert => bridge_vert_ui::edge_block_offsets(extra_links),
        BuildingType::BridgeHorz => bridge_horz_ui::edge_block_offsets(extra_links),
        _ => Vec::new(),
    }
}

/// Roadway tiles of a bridge; other buildings have none.
pub fn bridge_center_offsets(building: BuildingType, extra_links: u16) -> (r: Vec<(u16, u16)>)
    ensures
        r@ == (match building {
            BuildingType::BridgeVert => bridge_vert_ui::spec_center_offsets(extra_links),
            BuildingType::BridgeHorz => bridge_horz_ui::spec_center_offsets(extra_links),
            _ => Seq::<(u16, u16)>::empty(),
        }),
{
    match building {
        BuildingType::BridgeVert => bridge_vert_ui::center_offsets(extra_links),
        BuildingType::BridgeHorz => bridge_horz_ui::center_offsets(extra_links),
        _ => Vec::new(),
    }
}

/// Frame of middle row `row` of a vertical bridge.
pub fn bridge_vert_fill_index(state: BridgeVisualState, row: usize) -> (r: usize)
    ensures
        r == bridge_vert_ui::spec_fill_index(state, row as int),
{
    bridge_vert_ui::fill_index(state, row)
}

/// Frame of middle column `col` of a horizontal bridge.
pub fn bridge_horz_fill_index(state: BridgeVisualState, col: usize) -> (r: usize)
    ensures
        r == bridge_horz_ui::spec_fill_index(state, col as int),
{
    bridge_horz_ui::fill_index(state, col)
}

/// Asset paths of the large debris frames of a collapsing bridge on `planet`.
pub fn bridge_turrent_frame_paths(planet: PlanetType) -> (r: Vec<String>)
    ensures
        r@.len() == bridge_vert_ui::TURRENT_FRAME_COUNT,
        forall|i: int| 0 <= i < bridge_vert_ui::TURRENT_FRAME_COUNT ==> #[trigger] r@[i]@ == bridge_vert_ui::spec_turrent_frame_path(planet, i as nat),
{
    bridge_vert_ui::turrent_frame_paths(planet)
}

/// Asset paths of the small rock debris frames on `planet`.
pub fn bridge_rock_particle_frame_paths(planet: PlanetType) -> (r: Vec<String>)
    ensures
        r@.len() == bridge_vert_ui::ROCK_PARTICLE_FRAME_COUNT,
        forall|i: int| 0 <= i < bridge_vert_ui::ROCK_PARTICLE_FRAME_COUNT ==> #[trigger] r@[i]@ == bridge_vert_ui::spec_rock_particle_frame_path(planet, i as nat),
{
    bridge_vert_ui::rock_particle_frame_paths(planet)
}

/// Number of debris particles at the end of a collapsing bridge, for a
/// random draw `roll` below six.
pub fn bridge_end_particle_count(roll: usize) -> (r: usize)
    requires
        roll < 6,
    ensures
        r == 12 + roll,
{
    bridge_vert_ui::end_particle_count(roll)
}

/// Frames a death piece animates through.
pub const PIECE_FRAME_COUNT: usize = 12;

/// Asset path of frame `frame` of death piece `piece_index` out of
/// `variants`: forts (more than two variants) have pieces of their own, and
/// the index is capped at the last variant.
pub open spec fn spec_building_piece_frame_path(piece_index: nat, variants: nat, frame: nat) -> Seq<char> {
    let index = if variants == 0 { 0 } else if piece_index < variants - 1 { piece_index } else { (variants - 1) as nat };
    let stem = if variants > 2 { "buildings/death_effects/fort_piece"@ } else { "buildings/death_effects/piece"@ };
    spec_numbered_name(stem + spec_decimal(index) + "_n"@, frame, 2, ".png"@)
}

/// Asset paths of the frames of one piece thrown from a destroyed building.
pub fn building_piece_frame_paths_for_variants(piece_index: usize, variants: usize) -> (r: Vec<String>)
    ensures
        r@.len() == PIECE_FRAME_COUNT,
        forall|i: int| 0 <= i < PIECE_FRAME_COUNT ==> #[trigger] r@[i]@ == spec_building_piece_frame_path(piece_index as nat, variants as nat, i as nat),
{
    let last = variants.saturating_sub(1);
    let index = if piece_index < last { piece_index } else { last };
    let mut prefix = String::new();
    if variants > 2 {
        prefix.append("buildings/death_effects/fort_piece");
    } else {
        prefix.append("buildings/death_effects/piece");
    }
    push_decimal(&mut prefix, index);
    prefix.append("_n");
    numbered_names(prefix.as_str(), PIECE_FRAME_COUNT, 2, ".png")
}

/// Whether a tile of an object is one of a fort's four turret slots: columns
/// 1 and 7 of rows 0 and 3, counted from the fort's top-left tile.
pub open spec fn spec_fort_turret_tile(kind: ObjectKind, local_tile_x: i32, local_tile_y: i32) -> bool {
    (kind == ObjectKind::Building(BuildingType::FortFront) || kind == ObjectKind::Building(BuildingType::FortBack))
        && (local_tile_x == 1 || local_tile_x == 7)
        && (local_tile_y == 0 || local_tile_y == 3)
}

/// Whether a tile of an object is a fort turret slot.
pub fn fort_turret_tile(kind: ObjectKind, local_tile_x: i32, local_tile_y: i32) -> (r: bool)
    ensures
        r == spec_fort_turret_tile(kind, local_tile_x, local_tile_y),
{
    let fort = match kind {
        ObjectKind::Building(BuildingType::FortFront) => true,
        ObjectKind::Building(BuildingType::FortBack) => true,
        _ => false,
    };
    fort && (local_tile_x == 1 || local_tile_x == 7) && (local_tile_y == 0 || local_tile_y == 3)
}

/// Asset path of the label of a production window.
pub open spec fn spec_production_label_asset_path(kind: ProductionWindowKind) -> Seq<char> {
    match kind {
        ProductionWindowKind::Robot => "other/production_gui/robot_factory_label.png"@,
        ProductionWindowKind::Vehicle => "other/production_gui/vehicle_factory_label.png"@,
        ProductionWindowKind::Fort => "other/production_gui/fort_factory_label.png"@,
    }
}

/// Asset path of the label of a production window.
pub fn production_label_asset_path(kind: ProductionWindowKind) -> (r: &'static str)
    ensures
        r@ == spec_production_label_asset_path(kind),
{
    match kind {
        ProductionWindowKind::Robot => robot_factory_ui::production_label_asset_path(),
        ProductionWindowKind::Vehicle => vehicle_factory_ui::production_label_asset_path(),
        ProductionWindowKind::Fort => fort_front_ui::production_label_asset_path(),
    }
}

/// Asset path of the label of a building's production window; buildings
/// that do not produce have none.
pub fn production_label_asset_path_for_building(building: BuildingType) -> (r: Option<&'static str>)
    ensures
        match spec_production_window_kind(ObjectKind::Building(building)) {
            Some(kind) => r is Some && r->0@ == spec_production_label_asset_path(kind),
            None => r is None,
        },
{
    match building {
        BuildingType::FortFront => Some(fort_front_ui::production_label_asset_path()),
        BuildingType::FortBack => Some(fort_back_ui::production_label_asset_path()),
        BuildingType::RobotFactory => Some(robot_factory_ui::production_label_asset_path()),
        BuildingType::VehicleFactory => Some(vehicle_factory_ui::production_label_asset_path()),
        BuildingType::Radar | BuildingType::Repair | BuildingType::BridgeVert | BuildingType::BridgeHorz => None,
    }
}

/// Footprint of a building; bridges block nothing here, their footprint
/// grows with their links.
pub fn building_pathing_spec(building: BuildingType) -> (r: BuildingPathingSpec)
    ensures
        match building {
            BuildingType::FortFront => r.spec_is(Seq::empty(), seq![fort_front_ui::spec_pathing_mask()], Seq::empty()),
            BuildingType::FortBack => r.spec_is(Seq::empty(), seq![fort_back_ui::spec_pathing_mask()], Seq::empty()),
            BuildingType::Radar => r.spec_is(
                seq![crate::units::buildings::BuildingPathingRect { dx: 0, dy: 0, width: 4, height: 3 }],
                Seq::empty(),
                seq![(3u16, 2u16)],
            ),
            BuildingType::Repair => r.spec_is(
                seq![crate::units::buildings::BuildingPathingRect { dx: 0, dy: 0, width: 5, height: 4 }],
                Seq::empty(),
                Seq::empty(),
            ),
            BuildingType::RobotFactory => r.spec_is(
                seq![crate::units::buildings::BuildingPathingRect { dx: 0, dy: 0, width: 4, height: 5 }],
                Seq::empty(),
                Seq::empty(),
            ),
            BuildingType::VehicleFactory => r.spec_is(
                seq![crate::units::buildings::BuildingPathingRect { dx: 0, dy: 0, width: 4, height: 5 }],
                Seq::empty(),
                Seq::empty(),
            ),
            BuildingType::BridgeVert | BuildingType::BridgeHorz => r.spec_is(Seq::empty(), Seq::empty(), Seq::empty()),
        },
{
    match building {
        BuildingType::FortFront => fort_front_ui::pathing_spec(),
        BuildingType::FortBack => fort_back_ui::pathing_spec(),
        BuildingType::Radar => radar_ui::pathing_spec(),
        BuildingType::Repair => repair_ui::pathing_spec(),
        BuildingType::RobotFactory => robot_factory_ui::pathing_spec(),
        BuildingType::VehicleFactory => vehicle_factory_ui::pathing_spec(),
        BuildingType::BridgeVert | BuildingType::BridgeHorz => {
            let r = BuildingPathingSpec { blocked_rects: Vec::new(), blocked_masks: Vec::new(), unblocked_tiles: Vec::new() };
            proof {
                assert(r.blocked_rects@ =~= Seq::empty());
                assert(r.spec_masks() =~= Seq::empty());
                assert(r.unblocked_tiles@ =~= Seq::empty());
            }
            r
        },
    }
}

/// Atlas frames of a radar overlay.
pub fn radar_overlay_frame_names(kind: RadarOverlayKind) -> (r: Vec<String>)
    ensures
        r@.len() == radar_ui::spec_overlay_frame_count(kind),
        forall|i: int| 0 <= i < radar_ui::spec_overlay_frame_count(kind) ==> #[trigger] r@[i]@ == radar_ui::spec_overlay_frame_name(kind, i as nat),
{
    radar_ui::overlay_frame_names(kind)
}

/// The radar's overlays, in drawing order.
pub fn radar_overlay_kinds() -> (r: Vec<RadarOverlayKind>)
    ensures
        r@ == radar_ui::spec_overlay_kinds(),
{
    radar_ui::overlay_kinds()
}

/// The overlays of an object: a radar has the radar's, nothing else has any.
pub fn radar_overlay_kinds_for_object(kind: ObjectKind) -> (r: Option<Vec<RadarOverlayKind>>)
    ensures
        kind == ObjectKind::Building(BuildingType::Radar) ==> r is Some && r->0@ == radar_ui::spec_overlay_kinds(),
        kind != ObjectKind::Building(BuildingType::Radar) ==> r is None,
{
    match kind {
        ObjectKind::Building(BuildingType::Radar) => Some(radar_overlay_kinds()),
        _ => None,
    }
}

/// Whether a radar overlay is drawn.
pub fn radar_overlay_should_be_visible(kind: RadarOverlayKind, owner: TeamType, stats: ObjectStats) -> (r: bool)
    ensures
        r == radar_ui::spec_overlay_should_be_visible(kind, owner, stats),
{
    radar_ui::overlay_should_be_visible(kind, owner, stats)
}

/// Atlas frames of a repair building overlay.
pub fn repair_overlay_frame_names(kind: RepairOverlayKind) -> (r: Vec<String>)
    ensures
        r@.len() == repair_ui::spec_overlay_frame_count(kind),
        forall|i: int| 0 <= i < repair_ui::spec_overlay_frame_count(kind) ==> #[trigger] r@[i]@ == repair_ui::spec_overlay_frame_name(kind, i as nat),
{
    repair_ui::overlay_frame_names(kind)
}

/// The repair building's overlays, in drawing order.
pub fn repair_overlay_kinds() -> (r: Vec<RepairOverlayKind>)
    ensures
        r@ == repair_ui::spec_overlay_kinds(),
{
    repair_ui::overlay_kinds()
}

/// The overlays of an object: a repair building has the repair building's,
/// nothing else has any.
pub fn repair_overlay_kinds_for_object(kind: ObjectKind) -> (r: Option<Vec<RepairOverlayKind>>)
    ensures
        kind == ObjectKind::Building(BuildingType::Repair) ==> r is Some && r->0@ == repair_ui::spec_overlay_kinds(),
        kind != ObjectKind::Building(BuildingType::Repair) ==> r is None,
{
    match kind {
        ObjectKind::Building(BuildingType::Repair) => Some(repair_overlay_kinds()),
        _ => None,
    }
}

/// The frame a repair building overlay starts at.
pub fn repair_overlay_initial_frame(kind: RepairOverlayKind, owner: TeamType, repairing_unit: bool) -> (r: usize)
    ensures
        r == (match repair_ui::spec_overlay_forced_frame(kind, owner, repairing_unit) {
            Some(frame) => frame,
            None => 0,
        }),
{
    repair_ui::overlay_initial_frame(kind, owner, repairing_unit)
}

/// Whether a repair building overlay is drawn.
pub fn repair_overlay_should_be_visible(kind: RepairOverlayKind, owner: TeamType, stats: ObjectStats, repairing_unit: bool) -> (r: bool)
    ensures
        r == repair_ui::spec_overlay_should_be_visible(kind, owner, stats, repairing_unit),
{
    repair_ui::overlay_should_be_visible(kind, owner, stats, repairing_unit)
}

/// The frame a repair building overlay is held at, if any.
pub fn repair_overlay_forced_frame(kind: RepairOverlayKind, owner: TeamType, repairing_unit: bool) -> (r: Option<usize>)
    ensures
        r == repair_ui::spec_overlay_forced_frame(kind, owner, repairing_unit),
{
    repair_ui::overlay_forced_frame(kind, owner, repairing_unit)
}

/// Atlas frames of a factory overlay, from the factory it belongs to.
pub open spec fn spec_factory_overlay_frame_names(kind: FactoryOverlayKind) -> Seq<Seq<char>> {
    if robot_factory_ui::spec_overlay_kind_is_robot(kind) {
        robot_factory_ui::spec_overlay_frame_names(kind)
    } else {
        vehicle_factory_ui::spec_overlay_frame_names(kind)
    }
}

/// Atlas frames of a factory overlay.
pub fn factory_overlay_frame_names(kind: FactoryOverlayKind) -> (r: Vec<String>)
    ensures
        spec_texts(r@) == spec_factory_overlay_frame_names(kind),
{
    if robot_factory_ui::overlay_kind_is_robot(kind) {
        robot_factory_ui::overlay_frame_names(kind)
    } else {
        vehicle_factory_ui::overlay_frame_names(kind)
    }
}

/// The overlays of a factory building.
pub open spec fn spec_factory_overlay_kinds(building: BuildingType) -> Option<Seq<FactoryOverlayKind>> {
    match building {
        BuildingType::RobotFactory => Some(robot_factory_ui::spec_overlay_kinds()),
        BuildingType::VehicleFactory => Some(vehicle_factory_ui::spec_overlay_kinds()),
        _ => None,
    }
}

/// The overlays of a factory building; other buildings have none.
pub fn factory_overlay_kinds(building: BuildingType) -> (r: Option<Vec<FactoryOverlayKind>>)
    ensures
        match spec_factory_overlay_kinds(building) {
            Some(kinds) => r is Some && r->0@ == kinds,
            None => r is None,
        },
{
    match building {
        BuildingType::RobotFactory => Some(robot_factory_ui::overlay_kinds()),
        BuildingType::VehicleFactory => Some(vehicle_factory_ui::overlay_kinds()),
        _ => None,
    }
}

/// The factory overlays of an object; only factory buildings have any.
pub fn factory_overlay_kinds_for_object(kind: ObjectKind) -> (r: Option<Vec<FactoryOverlayKind>>)
    ensures
        match kind {
            ObjectKind::Building(building) => match spec_factory_overlay_kinds(building) {
                Some(kinds) => r is Some && r->0@ == kinds,
                None => r is None,
            },
            _ => r is None,
        },
{
    match kind {
        ObjectKind::Building(building) => factory_overlay_kinds(building),
        _ => None,
    }
}

/// Whether a factory overlay's first frame is drawn.
pub fn factory_overlay_initial_frame_visible(kind: FactoryOverlayKind) -> (r: bool)
    ensures
        r == (if robot_factory_ui::spec_overlay_kind_is_robot(kind) {
            !(robot_factory_ui::spec_overlay_single_light_index(kind) is Some)
        } else {
            vehicle_factory_ui::spec_overlay_kind_is_vehicle(kind)
        }),
{
    if robot_factory_ui::overlay_kind_is_robot(kind) {
        robot_factory_ui::overlay_initial_frame_visible(kind)
    } else {
        vehicle_factory_ui::overlay_initial_frame_visible(kind)
    }
}

/// Whether a factory overlay at frame `current` is drawn, by the rules of
/// the factory it belongs to.
pub fn factory_overlay_should_be_visible(
    kind: FactoryOverlayKind,
    owner: TeamType,
    stats: ObjectStats,
    production_active: bool,
    current: usize,
) -> (r: bool)
    ensures
        r == (if robot_factory_ui::spec_overlay_kind_is_robot(kind) {
            robot_factory_ui::spec_overlay_should_be_visible(kind, owner, stats, production_active, current)
        } else {
            vehicle_factory_ui::spec_overlay_should_be_visible(kind, owner, stats, production_active)
        }),
{
    if robot_factory_ui::overlay_kind_is_robot(kind) {
        return robot_factory_ui::overlay_should_be_visible(kind, owner, stats, production_active, current);
    }
    vehicle_factory_ui::overlay_should_be_visible(kind, owner, stats, production_active)
}

/// The next frame of a factory overlay.
pub fn factory_overlay_next_frame<F: FnOnce() -> Option<[usize; 3]>>(
    ref_id: u32,
    kind: FactoryOverlayKind,
    current: usize,
    frame_count: usize,
    draw: F,
    robot_light_updates: &mut HashMap<u32, Option<[usize; 3]>>,
) -> (r: usize)
    requires
        robot_factory_ui::spec_overlay_single_light_index(kind) is None ==> frame_count > 0,
        call_requires(draw, ()),
    ensures
        match robot_factory_ui::spec_overlay_single_light_index(kind) {
            None => r == (current + 1) % (frame_count as int) && final(robot_light_updates)@ == old(robot_light_updates)@,
            Some(light) => {
                let update = robot_factory_ui::spec_recorded_light_update(old(robot_light_updates)@, final(robot_light_updates)@, ref_id);
                &&& final(robot_light_updates)@ == old(robot_light_updates)@.insert(ref_id, update)
                &&& !old(robot_light_updates)@.contains_key(ref_id) ==> call_ensures(draw, (), update)
                &&& r == (match update {
                    Some(states) => states@[light as int],
                    None => current,
                })
            },
        },
{
    robot_factory_ui::overlay_next_frame(ref_id, kind, current, frame_count, draw, robot_light_updates)
}

/// Asset path of a destroyed building on `planet`; bridges have none.
pub open spec fn spec_destroyed_asset_path(building: BuildingType, planet: PlanetType) -> Option<Seq<char>> {
    match building {
        BuildingType::FortFront => Some(fort_front_ui::spec_destroyed_asset_path(planet)),
        BuildingType::FortBack => Some(fort_back_ui::spec_destroyed_asset_path(planet)),
        BuildingType::Radar => Some(radar_ui::spec_destroyed_asset_path(planet)),
        BuildingType::Repair => Some(repair_ui::spec_destroyed_asset_path(planet)),
        BuildingType::RobotFactory => Some(robot_factory_ui::spec_destroyed_asset_path(planet)),
        BuildingType::VehicleFactory => Some(vehicle_factory_ui::spec_destroyed_asset_path(planet)),
        BuildingType::BridgeVert | BuildingType::BridgeHorz => None,
    }
}

/// Asset path of a destroyed building on `planet`.
pub fn destroyed_asset_path(building: BuildingType, planet: PlanetType) -> (r: Option<String>)
    ensures
        match spec_destroyed_asset_path(building, planet) {
            Some(path) => r is Some && r->0@ == path,
            None => r is None,
        },
{
    match building {
        BuildingType::FortFront => Some(fort_front_ui::destroyed_asset_path(planet)),
        BuildingType::FortBack => Some(fort_back_ui::destroyed_asset_path(planet)),
        BuildingType::Radar => Some(radar_ui::destroyed_asset_path(planet)),
        BuildingType::Repair => Some(repair_ui::destroyed_asset_path(planet)),
        BuildingType::RobotFactory => Some(robot_factory_ui::destroyed_asset_path(planet)),
        BuildingType::VehicleFactory => Some(vehicle_factory_ui::destroyed_asset_path(planet)),
        BuildingType::BridgeVert | BuildingType::BridgeHorz => None,
    }
}

/// Asset path of a destroyed object on `planet`: buildings have one,
/// bridges and everything else have none.
pub fn destroyed_asset_name(kind: ObjectKind, planet: PlanetType) -> (r: Option<String>)
    ensures
        match kind {
            ObjectKind::Building(building) => match spec_destroyed_asset_path(building, planet) {
                Some(path) => r is Some && r->0@ == path,
                None => r is None,
            },
            _ => r is None,
        },
{
    match kind {
        ObjectKind::Building(building) => destroyed_asset_path(building, planet),
        _ => None,
    }
}

/// One frame of a building overlay: its atlas name and where it is drawn,
/// in pixels from the building's top-left corner.
#[derive(Clone, Debug, PartialEq, Eq)]
pub struct BuildingOverlayFrameSpec {
    pub frame_name: String,
    pub offset_x: i32,
    pub offset_y: i32,
}

/// One layer of a building sprite: the team atlas it is drawn from, its
/// frame, where it is drawn from the building's top-left corner, and the
/// frames it animates through (none for a still layer).
#[derive(Clone, Debug, PartialEq, Eq)]
pub struct BuildingAtlasFrameSpec {
    pub atlas_team: TeamType,
    pub frame_name: String,
    pub offset_x: i32,
    pub offset_y: i32,
    pub animation_frame_names: Vec<String>,
}

/// Whether `layer` is drawn from `team`'s atlas with frame `name` at
/// (`x`, `y`), animating through `animation`.
pub open spec fn spec_atlas_layer_is(
    layer: BuildingAtlasFrameSpec,
    team: TeamType,
    name: Seq<char>,
    x: int,
    y: int,
    animation: Seq<Seq<char>>,
) -> bool {
    &&& layer.atlas_team == team
    &&& layer.frame_name@ == name
    &&& layer.offset_x == x
    &&& layer.offset_y == y
    &&& spec_texts(layer.animation_frame_names@) == animation
}

/// The overlay frames made of `names` and `offsets`, pairwise.
pub open spec fn spec_overlay_frame_specs_are(specs: Seq<BuildingOverlayFrameSpec>, names: Seq<Seq<char>>, offsets: Seq<(i32, i32)>) -> bool {
    &&& specs.len() == names.len()
    &&& forall|i: int| 0 <= i < specs.len() ==> {
        &&& #[trigger] specs[i].frame_name@ == names[i]
        &&& specs[i].offset_x == offsets[i].0
        &&& specs[i].offset_y == offsets[i].1
    }
}

/// `count` copies of one offset.
pub fn repeated_offsets(x: i32, y: i32, count: usize) -> (r: Vec<(i32, i32)>)
    ensures
        r@ == Seq::new(count as nat, |i: int| (x, y)),
{
    let mut r: Vec<(i32, i32)> = Vec::new();
    let mut i: usize = 0;
    while i < count
        invariant
            i <= count,
            r@ == Seq::new(i as nat, |k: int| (x, y)),
        decreases count - i,
    {
        r.push((x, y));
        i = i + 1;
        proof {
            assert(r@ =~= Seq::new(i as nat, |k: int| (x, y)));
        }
    }
    r
}

/// Overlay frames made of `names` and `offsets`, pairwise.
pub fn zip_overlay_frame_specs(names: Vec<String>, offsets: Vec<(i32, i32)>) -> (r: Vec<BuildingOverlayFrameSpec>)
    requires
        names@.len() == offsets@.len(),
    ensures
        spec_overlay_frame_specs_are(r@, spec_texts(names@), offsets@),
{
    let mut r: Vec<BuildingOverlayFrameSpec> = Vec::new();
    let mut i: usize = 0;
    while i < names.len()
        invariant
            i <= names@.len(),
            names@.len() == offsets@.len(),
            r@.len() == i,
            forall|k: int| 0 <= k < i ==> {
                &&& #[trigger] r@[k].frame_name@ == names@[k]@
                &&& r@[k].offset_x == offsets@[k].0
                &&& r@[k].offset_y == offsets@[k].1
            },
        decreases names@.len() - i,
    {
        let (x, y) = offsets[i];
        r.push(BuildingOverlayFrameSpec { frame_name: names[i].clone(), offset_x: x, offset_y: y });
        i = i + 1;
    }
    r
}

/// Whether `layers` are the sprite layers of `building` of `team` on
/// `planet`; bridges are drawn tile by tile and have none.
pub open spec fn spec_building_layers(building: BuildingType, team: TeamType, planet: PlanetType, layers: Seq<BuildingAtlasFrameSpec>) -> bool {
    match building {
        BuildingType::FortFront => fort_front_ui::spec_atlas_layers(team, planet, layers),
        BuildingType::FortBack => fort_back_ui::spec_atlas_layers(team, planet, layers),
        BuildingType::Radar => radar_ui::spec_atlas_layers(team, planet, layers),
        BuildingType::Repair => repair_ui::spec_atlas_layers(team, planet, layers),
        BuildingType::RobotFactory => robot_factory_ui::spec_atlas_layers(team, planet, layers),
        BuildingType::VehicleFactory => vehicle_factory_ui::spec_atlas_layers(team, planet, layers),
        BuildingType::BridgeVert | BuildingType::BridgeHorz => layers.len() == 0,
    }
}

/// The sprite layers of a building.
pub fn building_layer_specs(building: BuildingType, team: TeamType, planet: PlanetType) -> (r: Vec<BuildingAtlasFrameSpec>)
    ensures
        spec_building_layers(building, team, planet, r@),
{
    match building {
        BuildingType::FortFront => fort_front_ui::atlas_layer_specs(team, planet),
        BuildingType::FortBack => fort_back_ui::atlas_layer_specs(team, planet),
        BuildingType::Radar => radar_ui::atlas_layer_specs(team, planet),
        BuildingType::Repair => repair_ui::atlas_layer_specs(team, planet),
        BuildingType::RobotFactory => robot_factory_ui::atlas_layer_specs(team, planet),
        BuildingType::VehicleFactory => vehicle_factory_ui::atlas_layer_specs(team, planet),
        BuildingType::BridgeVert | BuildingType::BridgeHorz => Vec::new(),
    }
}

/// Where each frame of a radar overlay is drawn.
pub fn radar_overlay_offsets(kind: RadarOverlayKind) -> (r: Vec<(i32, i32)>)
    ensures
        r@ == radar_ui::spec_overlay_offsets(kind),
{
    radar_ui::overlay_offsets(kind)
}

/// The frames of a radar overlay with where each is drawn.
pub fn radar_overlay_frame_specs(kind: RadarOverlayKind) -> (r: Vec<BuildingOverlayFrameSpec>)
    ensures
        spec_overlay_frame_specs_are(
            r@,
            Seq::new(radar_ui::spec_overlay_frame_count(kind), |i: int| radar_ui::spec_overlay_frame_name(kind, i as nat)),
            radar_ui::spec_overlay_offsets(kind),
        ),
{
    radar_ui::overlay_frame_specs(kind)
}

/// Where each frame of a repair building overlay is drawn.
pub fn repair_overlay_offsets(kind: RepairOverlayKind) -> (r: Vec<(i32, i32)>)
    ensures
        r@ == repair_ui::spec_overlay_offsets(kind),
{
    repair_ui::overlay_offsets(kind)
}

/// The frames of a repair building overlay with where each is drawn.
pub fn repair_overlay_frame_specs(kind: RepairOverlayKind) -> (r: Vec<BuildingOverlayFrameSpec>)
    ensures
        spec_overlay_frame_specs_are(
            r@,
            Seq::new(repair_ui::spec_overlay_frame_count(kind), |i: int| repair_ui::spec_overlay_frame_name(kind, i as nat)),
            repair_ui::spec_overlay_offsets(kind),
        ),
{
    repair_ui::overlay_frame_specs(kind)
}

/// Where each frame of a factory overlay is drawn, by the factory it belongs to.
pub open spec fn spec_factory_overlay_offsets(kind: FactoryOverlayKind) -> Seq<(i32, i32)> {
    if robot_factory_ui::spec_overlay_kind_is_robot(kind) {
        robot_factory_ui::spec_overlay_offsets(kind)
    } else {
        vehicle_factory_ui::spec_overlay_offsets(kind)
    }
}

/// Where each frame of a factory overlay is drawn.
pub fn factory_overlay_offsets(kind: FactoryOverlayKind) -> (r: Vec<(i32, i32)>)
    ensures
        r@ == spec_factory_overlay_offsets(kind),
{
    if robot_factory_ui::overlay_kind_is_robot(kind) {
        robot_factory_ui::overlay_offsets(kind)
    } else {
        vehicle_factory_ui::overlay_offsets(kind)
    }
}

/// The frames of a factory overlay with where each is drawn.
pub fn factory_overlay_frame_specs(kind: FactoryOverlayKind) -> (r: Vec<BuildingOverlayFrameSpec>)
    ensures
        spec_overlay_frame_specs_are(r@, spec_factory_overlay_frame_names(kind), spec_factory_overlay_offsets(kind)),
{
    if robot_factory_ui::overlay_kind_is_robot(kind) {
        robot_factory_ui::overlay_frame_specs(kind)
    } else {
        vehicle_factory_ui::overlay_frame_specs(kind)
    }
}

/// The producing building an object is, if it is one.
pub open spec fn spec_production_building(kind: ObjectKind) -> Option<BuildingType> {
    match kind {
        ObjectKind::Building(BuildingType::FortFront) => Some(BuildingType::FortFront),
        ObjectKind::Building(BuildingType::FortBack) => Some(BuildingType::FortBack),
        ObjectKind::Building(BuildingType::RobotFactory) => Some(BuildingType::RobotFactory),
        ObjectKind::Building(BuildingType::VehicleFactory) => Some(BuildingType::VehicleFactory),
        _ => None,
    }
}

/// The producing building an object is: a fort half or a factory.
pub fn production_building(kind: ObjectKind) -> (r: Option<BuildingType>)
    ensures
        r == spec_production_building(kind),
{
    match kind {
        ObjectKind::Building(BuildingType::FortFront) => Some(BuildingType::FortFront),
        ObjectKind::Building(BuildingType::FortBack) => Some(BuildingType::FortBack),
        ObjectKind::Building(BuildingType::RobotFactory) => Some(BuildingType::RobotFactory),
        ObjectKind::Building(BuildingType::VehicleFactory) => Some(BuildingType::VehicleFactory),
        _ => None,
    }
}

/// The production window a building opens.
pub open spec fn spec_production_window_kind(kind: ObjectKind) -> Option<ProductionWindowKind> {
    match kind {
        ObjectKind::Building(BuildingType::RobotFactory) => Some(ProductionWindowKind::Robot),
        ObjectKind::Building(BuildingType::VehicleFactory) => Some(ProductionWindowKind::Vehicle),
        ObjectKind::Building(BuildingType::FortFront) => Some(ProductionWindowKind::Fort),
        ObjectKind::Building(BuildingType::FortBack) => Some(ProductionWindowKind::Fort),
        _ => None,
    }
}

/// The production window a building opens: the robot window for the robot
/// factory, the vehicle window for the vehicle factory, the fort window for
/// either fort half, and none for anything else.
pub fn production_window_kind(kind: ObjectKind) -> (r: Option<ProductionWindowKind>)
    ensures
        r == spec_production_window_kind(kind),
        r is Some <==> spec_production_building(kind) is Some,
{
    match kind {
        ObjectKind::Building(BuildingType::RobotFactory) => Some(ProductionWindowKind::Robot),
        ObjectKind::Building(BuildingType::VehicleFactory) => Some(ProductionWindowKind::Vehicle),
        ObjectKind::Building(BuildingType::FortFront) => Some(ProductionWindowKind::Fort),
        ObjectKind::Building(BuildingType::FortBack) => Some(ProductionWindowKind::Fort),
        _ => None,
    }
}

/// The unit under the selector at `selected_index`, falling back to the
/// building's default unit when the index is past the end of the list.
pub open spec fn spec_selected_production_unit(kind: ObjectKind, level: ProductionLevel, selected_index: int) -> Option<ObjectKind> {
    match spec_production_building(kind) {
        None => None,
        Some(building) => {
            let list = spec_default_build_list(building, level);
            if 0 <= selected_index < list.len() {
                Some(list[selected_index])
            } else {
                spec_default_production_unit(building, level)
            }
        },
    }
}

/// The unit the production window has selected.
pub fn selected_production_unit(kind: ObjectKind, level: ProductionLevel, selected_index: usize) -> (r: Option<ObjectKind>)
    ensures
        r == spec_selected_production_unit(kind, level, selected_index as int),
{
    let building = match production_building(kind) {
        Some(building) => building,
        None => return None,
    };
    let list = default_build_list(building, level);
    if selected_index < list.len() {
        Some(list[selected_index])
    } else {
        default_production_unit(building, level)
    }
}

/// Selector position after one step: forward wraps from the last entry to the
/// first, backward from the first to the last; objects that do not produce
/// keep their index.
pub open spec fn spec_cycle_production_selection(kind: ObjectKind, level: ProductionLevel, selected_index: int, direction: int) -> int {
    match spec_production_building(kind) {
        None => selected_index,
        Some(building) => {
            let len = spec_default_build_list(building, level).len() as int;
            if len == 0 {
                0
            } else if direction >= 0 {
                (selected_index + 1) % len
            } else if selected_index == 0 {
                len - 1
            } else {
                selected_index - 1
            }
        },
    }
}

/// Moves the production selector one step forward (`direction >= 0`) or back.
pub fn cycle_production_selection(kind: ObjectKind, level: ProductionLevel, selected_index: usize, direction: i32) -> (r: usize)
    ensures
        r == spec_cycle_production_selection(kind, level, selected_index as int, direction as int),
{
    let building = match production_building(kind) {
        Some(building) => building,
        None => return selected_index,
    };
    let len = default_build_list(building, level).len();
    if len == 0 {
        return 0;
    }
    if direction >= 0 {
        let r = (selected_index % len + 1) % len;
        proof {
            lemma_mod_succ(selected_index as int, len as int);
        }
        r
    } else if selected_index == 0 {
        len - 1
    } else {
        selected_index - 1
    }
}

pub(crate) proof fn lemma_mod_succ(i: int, n: int)
    requires
        0 <= i,
        0 < n,
    ensures
        (i % n + 1) % n == (i + 1) % n,
{
    if n == 1 {
        assert((i % n + 1) % n == 0 && (i + 1) % n == 0);
    } else {
        vstd::arithmetic::div_mod::lemma_add_mod_noop(i, 1, n);
        vstd::arithmetic::div_mod::lemma_small_mod(1, n as nat);
    }
}

/// For a producing building the selector never leaves its build list, and a
/// step forward followed by a step back (or back, then forward) returns to
/// the entry it started from.
pub proof fn lemma_cycle_production_selection_round_trip(kind: ObjectKind, level: ProductionLevel, selected_index: int)
    requires
        spec_production_building(kind) is Some,
        0 <= selected_index < spec_default_build_list(spec_production_building(kind)->0, level).len(),
    ensures
        ({
            let len = spec_default_build_list(spec_production_building(kind)->0, level).len() as int;
            let forward = spec_cycle_production_selection(kind, level, selected_index, 1);
            let back = spec_cycle_production_selection(kind, level, selected_index, -1);
            &&& 0 <= forward < len
            &&& 0 <= back < len
            &&& spec_cycle_production_selection(kind, level, forward, -1) == selected_index
            &&& spec_cycle_production_selection(kind, level, back, 1) == selected_index
        }),
{
    let len = spec_default_build_list(spec_production_building(kind)->0, level).len() as int;
    if selected_index + 1 < len {
        vstd::arithmetic::div_mod::lemma_small_mod((selected_index + 1) as nat, len as nat);
    } else {
        vstd::arithmetic::div_mod::lemma_mod_self_0(len);
    }
    if selected_index == 0 {
        vstd::arithmetic::div_mod::lemma_mod_self_0(len);
    } else {
        vstd::arithmetic::div_mod::lemma_small_mod(selected_index as nat, len as nat);
    }
}

/// Row of the production selector a unit is shown in: robots, then
/// vehicles, then cannons; other objects are not shown.
pub open spec fn spec_selector_row(unit: ObjectKind) -> Option<nat> {
    match unit {
        ObjectKind::Robot(_) => Some(0),
        ObjectKind::Vehicle(_) => Some(1),
        ObjectKind::Cannon(_) => Some(2),
        _ => None,
    }
}

/// The units of `list` that belong to selector row `row`, in list order.
pub open spec fn spec_selector_row_units(list: Seq<ObjectKind>, row: nat) -> Seq<ObjectKind> {
    list.filter(|u: ObjectKind| spec_selector_row(u) == Some(row))
}

/// The slots of `units` laid out left to right in the `shown`-th visible row:
/// each unit with the top-left pixel of its slot.
pub open spec fn spec_selector_row_slots(units: Seq<ObjectKind>, shown: nat) -> Seq<(ObjectKind, u32, u32)> {
    Seq::new(
        units.len(),
        |col: int|
            (
                units[col],
                (PRODUCTION_SELECTOR_OBJECT_OFFSET_X + col * PRODUCTION_SELECTOR_OBJECT_STEP_X) as u32,
                (PRODUCTION_SELECTOR_OBJECT_OFFSET_Y + shown * PRODUCTION_SELECTOR_OBJECT_STEP_Y) as u32,
            ),
    )
}

/// Slots of selector rows `row` and after; empty rows take no space, so the
/// next non-empty row is shown as row `shown`.
pub open spec fn spec_selector_slots_from(list: Seq<ObjectKind>, row: nat, shown: nat) -> Seq<(ObjectKind, u32, u32)>
    decreases 3 - row,
{
    if row >= 3 {
        Seq::empty()
    } else {
        let units = spec_selector_row_units(list, row);
        if units.len() == 0 {
            spec_selector_slots_from(list, row + 1, shown)
        } else {
            spec_selector_row_slots(units, shown) + spec_selector_slots_from(list, row + 1, shown + 1)
        }
    }
}

/// The production selector of an object: its build list grouped into rows.
pub open spec fn spec_production_selector_units(kind: ObjectKind, level: ProductionLevel) -> Seq<(ObjectKind, u32, u32)> {
    match spec_production_building(kind) {
        None => Seq::empty(),
        Some(building) => spec_selector_slots_from(spec_default_build_list(building, level), 0, 0),
    }
}

proof fn lemma_row_units_step(list: Seq<ObjectKind>, i: int, row: nat)
    requires
        0 <= i < list.len(),
    ensures
        spec_selector_row_units(list.take(i + 1), row) == (if spec_selector_row(list[i]) == Some(row) {
            spec_selector_row_units(list.take(i), row).push(list[i])
        } else {
            spec_selector_row_units(list.take(i), row)
        }),
{
    reveal(Seq::filter);
    assert(list.take(i + 1).drop_last() =~= list.take(i));
    assert(list.take(i + 1).last() == list[i]);
}

pub(crate) proof fn lemma_build_list_short(building: BuildingType, level: ProductionLevel)
    ensures
        spec_default_build_list(building, level).len() <= 17,
{
}

/// Appends the slots of `units` shown as row `shown`.
fn push_row_slots(slots: &mut Vec<(ObjectKind, u32, u32)>, units: &Vec<ObjectKind>, shown: u32)
    requires
        units@.len() <= 17,
        shown < 3,
    ensures
        final(slots)@ == old(slots)@ + spec_selector_row_slots(units@, shown as nat),
{
    let ghost start = slots@;
    let y = PRODUCTION_SELECTOR_OBJECT_OFFSET_Y + shown * PRODUCTION_SELECTOR_OBJECT_STEP_Y;
    let mut col: usize = 0;
    while col < units.len()
        invariant
            col <= units@.len(),
            units@.len() <= 17,
            shown < 3,
            y == PRODUCTION_SELECTOR_OBJECT_OFFSET_Y + shown * PRODUCTION_SELECTOR_OBJECT_STEP_Y,
            slots@ == start + spec_selector_row_slots(units@, shown as nat).take(col as int),
        decreases units@.len() - col,
    {
        let x = PRODUCTION_SELECTOR_OBJECT_OFFSET_X + (col as u32) * PRODUCTION_SELECTOR_OBJECT_STEP_X;
        slots.push((units[col], x, y));
        proof {
            assert(spec_selector_row_slots(units@, shown as nat).take(col + 1) =~= spec_selector_row_slots(units@, shown as nat).take(col as int).push((units@[col as int], x, y)));
        }
        col = col + 1;
    }
    proof {
        assert(spec_selector_row_slots(units@, shown as nat).take(col as int) =~= spec_selector_row_slots(units@, shown as nat));
    }
}

/// The units of a producing building's build list as the production selector
/// lays them out: robots in the first row, vehicles in the next, cannons in
/// the last, each row in list order, with empty rows left out; each unit
/// comes with the top-left pixel of its slot.
pub fn production_selector_units(kind: ObjectKind, level: ProductionLevel) -> (r: Vec<(ObjectKind, u32, u32)>)
    ensures
        r@ == spec_production_selector_units(kind, level),
{
    let building = match production_building(kind) {
        Some(building) => building,
        None => return Vec::new(),
    };
    let list = default_build_list(building, level);
    proof {
        lemma_build_list_short(building, level);
    }
    let mut robots: Vec<ObjectKind> = Vec::new();
    let mut vehicles: Vec<ObjectKind> = Vec::new();
    let mut cannons: Vec<ObjectKind> = Vec::new();
    let mut i: usize = 0;
    while i < list.len()
        invariant
            i <= list@.len(),
            list@.len() <= 17,
            robots@ == spec_selector_row_units(list@.take(i as int), 0),
            vehicles@ == spec_selector_row_units(list@.take(i as int), 1),
            cannons@ == spec_selector_row_units(list@.take(i as int), 2),
            robots@.len() + vehicles@.len() + cannons@.len() <= i,
        decreases list@.len() - i,
    {
        let unit = list[i];
        proof {
            lemma_row_units_step(list@, i as int, 0);
            lemma_row_units_step(list@, i as int, 1);
            lemma_row_units_step(list@, i as int, 2);
        }
        match unit {
            ObjectKind::Robot(_) => robots.push(unit),
            ObjectKind::Vehicle(_) => vehicles.push(unit),
            ObjectKind::Cannon(_) => cannons.push(unit),
            _ => {},
        }
        i = i + 1;
    }
    proof {
        assert(list@.take(i as int) =~= list@);
    }
    let ghost list_view = list@;
    let mut slots: Vec<(ObjectKind, u32, u32)> = Vec::new();
    let mut shown: u32 = 0;
    if robots.len() > 0 {
        push_row_slots(&mut slots, &robots, shown);
        shown = shown + 1;
    }
    if vehicles.len() > 0 {
        push_row_slots(&mut slots, &vehicles, shown);
        shown = shown + 1;
    }
    if cannons.len() > 0 {
        push_row_slots(&mut slots, &cannons, shown);
    }
    proof {
        let s3 = spec_selector_slots_from(list_view, 3, shown as nat);
        assert(s3 == Seq::<(ObjectKind, u32, u32)>::empty());
        reveal_with_fuel(spec_selector_slots_from, 4);
        assert(slots@ =~= spec_selector_slots_from(list_view, 0, 0));
    }
    slots
}

/// Where `unit` stands on a producing building's build list: the first entry
/// that is `unit`; `None` when the object does not produce or the list does
/// not hold `unit`.
pub fn production_selector_unit_index(kind: ObjectKind, level: ProductionLevel, unit: ObjectKind) -> (r: Option<usize>)
    ensures
        match spec_production_building(kind) {
            None => r is None,
            Some(building) => {
                let list = spec_default_build_list(building, level);
                match r {
                    None => !list.contains(unit),
                    Some(i) => i < list.len() && list[i as int] == unit && forall|j: int| 0 <= j < i ==> list[j] != unit,
                }
            },
        },
{
    let building = match production_building(kind) {
        Some(building) => building,
        None => return None,
    };
    let list = default_build_list(building, level);
    let mut i: usize = 0;
    while i < list.len()
        invariant
            i <= list@.len(),
            list@ == spec_default_build_list(building, level),
            spec_production_building(kind) == Some(building),
            forall|j: int| 0 <= j < i ==> list@[j] != unit,
        decreases list@.len() - i,
    {
        if list[i] == unit {
            return Some(i);
        }
        i = i + 1;
    }
    None
}

/// A destroyed building shows none of its overlays, whoever owns it and
/// whatever it is doing.
pub proof fn lemma_destroyed_building_shows_no_overlay(
    stats: ObjectStats,
    owner: TeamType,
    radar: RadarOverlayKind,
    repair: RepairOverlayKind,
    factory: FactoryOverlayKind,
    repairing_unit: bool,
    production_active: bool,
    current: usize,
)
    requires
        stats.spec_destroyed(),
    ensures
        !radar_ui::spec_overlay_should_be_visible(radar, owner, stats),
        !repair_ui::spec_overlay_should_be_visible(repair, owner, stats, repairing_unit),
        !robot_factory_ui::spec_overlay_should_be_visible(factory, owner, stats, production_active, current),
        !vehicle_factory_ui::spec_overlay_should_be_visible(factory, owner, stats, production_active),
{
}

/// The production window of a producing building always has a unit
/// selected, and that unit is one the building can build at its level,
/// whatever the selector index.
pub proof fn lemma_selected_production_unit_is_buildable(kind: ObjectKind, level: ProductionLevel, selected_index: int)
    requires
        spec_production_building(kind) is Some,
    ensures
        spec_selected_production_unit(kind, level, selected_index) is Some,
        spec_default_build_list(spec_production_building(kind)->0, level).contains(
            spec_selected_production_unit(kind, level, selected_index)->0,
        ),
{
    let building = spec_production_building(kind)->0;
    let list = spec_default_build_list(building, level);
    assert(spec_building_default_unit(building) is Some);
    lemma_default_unit_always_buildable(building, level);
    if 0 <= selected_index < list.len() {
        assert(list[selected_index] == list[selected_index]);
    }
}

} // verus!
