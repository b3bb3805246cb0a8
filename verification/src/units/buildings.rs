//! Buildings: production, build lists, bridges, overlays and asset names.

use vstd::prelude::*;

use std::collections::HashMap;

use crate::components::{ObjectStats, ProductionLevel, ProductionWindowKind};
use crate::original::objects::{BuildingType, ObjectKind, RobotType, VehicleType};
use crate::original::types::{PlanetType, TeamType};
use crate::render::atlas::{FactoryOverlayKind, RadarOverlayKind, RepairOverlayKind};
use crate::text::spec_texts;
use crate::units::buildings::bridge_horz::bridge_horz_ui;
use crate::units::buildings::bridge_vert::bridge_vert_ui;
use crate::units::buildings::fort_back::fort_back_ui;
use crate::units::buildings::fort_front::fort_front_ui;
use crate::units::buildings::radar::radar_ui;
use crate::units::buildings::repair::repair_ui;
use crate::units::buildings::robot_factory::robot_factory_ui;
use crate::units::buildings::vehicle_factory::vehicle_factory_ui;

pub mod bridge_horz;
pub mod bridge_vert;
pub mod building_ui;
pub mod fort_back;
pub mod fort_front;
pub mod production_logic;
pub mod radar;
pub mod repair;
pub mod robot_factory;
pub mod vehicle_factory;

verus! {

/// A rectangle of blocked tiles, relative to a building's top-left tile.
#[derive(Clone, Copy, Debug, PartialEq, Eq, Structural)]
pub struct BuildingPathingRect {
    pub dx: u16,
    pub dy: u16,
    pub width: u16,
    pub height: u16,
}

/// Which tiles of a building block movement: whole rectangles, masks drawn
/// row by row (`#` blocks, `.` is free), and single tiles left free.
#[derive(Clone, Debug, PartialEq, Eq)]
pub struct BuildingPathingSpec {
    pub blocked_rects: Vec<BuildingPathingRect>,
    pub blocked_masks: Vec<Vec<&'static str>>,
    pub unblocked_tiles: Vec<(u16, u16)>,
}

impl BuildingPathingSpec {
    /// The masks as text rows.
    pub open spec fn spec_masks(&self) -> Seq<Seq<Seq<char>>> {
        self.blocked_masks@.map_values(|mask: Vec<&'static str>| mask@.map_values(|row: &'static str| row@))
    }

    /// Whether this is the spec made of `rects`, `masks` and `unblocked`.
    pub open spec fn spec_is(&self, rects: Seq<BuildingPathingRect>, masks: Seq<Seq<Seq<char>>>, unblocked: Seq<(u16, u16)>) -> bool {
        &&& self.blocked_rects@ == rects
        &&& self.spec_masks() == masks
        &&& self.unblocked_tiles@ == unblocked
    }
}

/// Units a building can build at `level`; buildings that do not produce
/// have an empty list.
pub open spec fn spec_default_build_list(building: BuildingType, level: ProductionLevel) -> Seq<ObjectKind> {
    match building {
        BuildingType::FortFront => fort_front::fort_front_logic::spec_default_build_list(level),
        BuildingType::FortBack => fort_front::fort_front_logic::spec_default_build_list(level),
        BuildingType::RobotFactory => robot_factory::robot_factory_logic::spec_default_build_list(level),
        BuildingType::VehicleFactory => vehicle_factory::vehicle_factory_logic::spec_default_build_list(level),
        _ => Seq::empty(),
    }
}

/// The unit a producing building starts with.
pub open spec fn spec_building_default_unit(building: BuildingType) -> Option<ObjectKind> {
    match building {
        BuildingType::FortFront => Some(ObjectKind::Robot(RobotType::Grunt)),
        BuildingType::FortBack => Some(ObjectKind::Robot(RobotType::Grunt)),
        BuildingType::RobotFactory => Some(ObjectKind::Robot(RobotType::Grunt)),
        BuildingType::VehicleFactory => Some(ObjectKind::Vehicle(VehicleType::Jeep)),
        _ => None,
    }
}

/// The unit a building starts producing at `level`: its default unit, when
/// that unit is on its build list.
pub open spec fn spec_default_production_unit(building: BuildingType, level: ProductionLevel) -> Option<ObjectKind> {
    match spec_building_default_unit(building) {
        Some(unit) => if spec_default_build_list(building, level).contains(unit) {
            Some(unit)
        } else {
            None
        },
        None => None,
    }
}

/// Units a building can build at `level`.
pub fn default_build_list(building: BuildingType, level: ProductionLevel) -> (r: Vec<ObjectKind>)
    ensures
        r@ == spec_default_build_list(building, level),
{
    match building {
        BuildingType::FortFront => fort_front::fort_front_logic::default_build_list(level),
        BuildingType::FortBack => fort_back::fort_back_logic::default_build_list(level),
        BuildingType::RobotFactory => robot_factory::robot_factory_logic::default_build_list(level),
        BuildingType::VehicleFactory => vehicle_factory::vehicle_factory_logic::default_build_list(level),
        BuildingType::Radar | BuildingType::Repair | BuildingType::BridgeVert | BuildingType::BridgeHorz => Vec::new(),
    }
}

/// Whether `list` holds `unit`.
pub fn list_contains(list: &Vec<ObjectKind>, unit: ObjectKind) -> (r: bool)
    ensures
        r == list@.contains(unit),
{
    let mut i: usize = 0;
    while i < list.len()
        invariant
            i <= list@.len(),
            forall|j: int| 0 <= j < i ==> list@[j] != unit,
        decreases list@.len() - i,
    {
        if list[i] == unit {
            return true;
        }
        i = i + 1;
    }
    false
}

/// Whether `unit` is on a building's build list at `level`.
pub fn unit_in_default_build_list(building: BuildingType, level: ProductionLevel, unit: ObjectKind) -> (r: bool)
    ensures
        r == spec_default_build_list(building, level).contains(unit),
{
    let list = default_build_list(building, level);
    list_contains(&list, unit)
}

/// The unit a building starts producing at `level`, if it produces.
pub fn default_production_unit(building: BuildingType, level: ProductionLevel) -> (r: Option<ObjectKind>)
    ensures
        r == spec_default_production_unit(building, level),
{
    let unit = match building {
        BuildingType::FortFront => fort_front::fort_front_logic::default_production_unit(),
        BuildingType::FortBack => fort_back::fort_back_logic::default_production_unit(),
        BuildingType::RobotFactory => robot_factory::robot_factory_logic::default_production_unit(),
        BuildingType::VehicleFactory => vehicle_factory::vehicle_factory_logic::default_production_unit(),
        BuildingType::Radar | BuildingType::Repair | BuildingType::BridgeVert | BuildingType::BridgeHorz => {
            return None;
        },
    };
    if unit_in_default_build_list(building, level, unit) {
        Some(unit)
    } else {
        None
    }
}

/// Every producing building can start its default unit at every level: the
/// default unit heads each of its build lists.
pub proof fn lemma_default_unit_always_buildable(building: BuildingType, level: ProductionLevel)
    requires
        spec_building_default_unit(building) is Some,
    ensures
        spec_default_build_list(building, level).len() > 0,
        spec_default_build_list(building, level)[0] == spec_building_default_unit(building)->0,
        spec_default_production_unit(building, level) == spec_building_default_unit(building),
{
    let list = spec_default_build_list(building, level);
    assert(list[0] == spec_building_default_unit(building)->0);
    assert(list.contains(list[0]));
}

/// Buildings that rebuild themselves some time after being destroyed.
pub open spec fn spec_auto_repairable_after_destroy(kind: ObjectKind) -> bool {
    match kind {
        ObjectKind::Building(BuildingType::Radar) => true,
        ObjectKind::Building(BuildingType::Repair) => true,
        ObjectKind::Building(BuildingType::RobotFactory) => true,
        ObjectKind::Building(BuildingType::VehicleFactory) => true,
        ObjectKind::Bridge(BuildingType::BridgeVert) => true,
        ObjectKind::Bridge(BuildingType::BridgeHorz) => true,
        _ => false,
    }
}

/// Whether a destroyed object of `kind` rebuilds itself: radars, repair
/// buildings, factories and bridges do, forts and units do not.
pub fn auto_repairable_after_destroy(kind: ObjectKind) -> (r: bool)
    ensures
        r == spec_auto_repairable_after_destroy(kind),
{
    match kind {
        ObjectKind::Building(BuildingType::Radar) => true,
        ObjectKind::Building(BuildingType::Repair) => true,
        ObjectKind::Building(BuildingType::RobotFactory) => true,
        ObjectKind::Building(BuildingType::VehicleFactory) => true,
        ObjectKind::Bridge(BuildingType::BridgeVert) => true,
        ObjectKind::Bridge(BuildingType::BridgeHorz) => true,
        _ => false,
    }
}

/// Whether an object of `kind` holds a zone against automatic rebuilding:
/// only the front half of a fort does.
pub fn auto_repair_blocking_fort(kind: ObjectKind) -> (r: bool)
    ensures
        r == (kind == ObjectKind::Building(BuildingType::FortFront)),
{
    match kind {
        ObjectKind::Building(BuildingType::FortFront) => true,
        _ => false,
    }
}

/// Asset path of the label of a production window.
pub fn production_label_asset_path(kind: ProductionWindowKind) -> (r: &'static str)
    ensures
        r@ == building_ui::spec_production_label_asset_path(kind),
{
    building_ui::production_label_asset_path(kind)
}

/// Asset path of the label of a building's production window; buildings
/// that do not produce have none.
pub fn production_label_asset_path_for_building(building: BuildingType) -> (r: Option<&'static str>)
    ensures
        match building_ui::spec_production_window_kind(ObjectKind::Building(building)) {
            Some(kind) => r is Some && r->0@ == building_ui::spec_production_label_asset_path(kind),
            None => r is None,
        },
{
    building_ui::production_label_asset_path_for_building(building)
}

/// How a bridge is drawn: destroyed at no health left, damaged below half
/// health, live otherwise.
pub fn bridge_visual_state(health_percent: i32) -> (r: building_ui::BridgeVisualState)
    ensures
        r == building_ui::spec_bridge_visual_state(health_percent),
{
    building_ui::bridge_visual_state(health_percent)
}

/// Tiles of a drawn bridge.
pub fn bridge_visual_tile_specs(building: BuildingType, extra_links: u16, state: building_ui::BridgeVisualState) -> (r: Vec<building_ui::BridgeVisualTileSpec>)
    ensures
        r@ == building_ui::spec_bridge_visual_tile_specs(building, extra_links, state),
{
    building_ui::bridge_visual_tile_specs(building, extra_links, state)
}

/// Footprint of a bridge in tiles, width then height; `None` for other buildings.
pub fn bridge_pathing_dimensions(building: BuildingType, extra_links: u16) -> (r: Option<(u16, u16)>)
    ensures
        r == (match building {
            BuildingType::BridgeVert => Some(bridge_vert_ui::spec_pathing_dimensions(extra_links)),
            BuildingType::BridgeHorz => Some(bridge_horz_ui::spec_pathing_dimensions(extra_links)),
            _ => None::<(u16, u16)>,
        }),
{
    building_ui::bridge_pathing_dimensions(building, extra_links)
}

/// Side-wall tiles of a bridge; other buildings have none.
pub fn bridge_edge_block_offsets(building: BuildingType, extra_links: u16) -> (r: Vec<(u16, u16)>)
    ensures
        r@ == (match building {
            BuildingType::BridgeVert => bridge_vert_ui::spec_edge_block_offsets(extra_links),
            BuildingType::BridgeHorz => bridge_horz_ui::spec_edge_block_offsets(extra_links),
            _ => Seq::<(u16, u16)>::empty(),
        }),
{
    building_ui::bridge_edge_block_offsets(building, extra_links)
}

/// Roadway tiles of a bridge; other buildings have none.
pub fn bridge_center_offsets(building: BuildingType, extra_links: u16) -> (r: Vec<(u16, u16)>)
    ensures
        r@ == (match building {
            BuildingType::BridgeVert => bridge_vert_ui::spec_center_offsets(extra_links),
            BuildingType::BridgeHorz => bridge_horz_ui::spec_center_offsets(extra_links),
            _ => Seq::<(u16, u16)>::empty(),
        }),
{
    building_ui::bridge_center_offsets(building, extra_links)
}

/// Footprint of a building; bridges block nothing here, their footprint
/// grows with their links.
pub fn building_pathing_spec(building: BuildingType) -> (r: BuildingPathingSpec)
    ensures
        match building {
            BuildingType::FortFront => r.spec_is(Seq::empty(), seq![fort_front_ui::spec_pathing_mask()], Seq::empty()),
            BuildingType::FortBack => r.spec_is(Seq::empty(), seq![fort_back_ui::spec_pathing_mask()], Seq::empty()),
            BuildingType::Radar => r.spec_is(
                seq![crate::units::buildings::BuildingPathingRect { dx: 0, dy: 0, width: 4, height: 3 }],
                Seq::empty(),
                seq![(3u16, 2u16)],
            ),
            BuildingType::Repair => r.spec_is(
                seq![crate::units::buildings::BuildingPathingRect { dx: 0, dy: 0, width: 5, height: 4 }],
                Seq::empty(),
                Seq::empty(),
            ),
            BuildingType::RobotFactory => r.spec_is(
                seq![crate::units::buildings::BuildingPathingRect { dx: 0, dy: 0, width: 4, height: 5 }],
                Seq::empty(),
                Seq::empty(),
            ),
            BuildingType::VehicleFactory => r.spec_is(
                seq![crate::units::buildings::BuildingPathingRect { dx: 0, dy: 0, width: 4, height: 5 }],
                Seq::empty(),
                Seq::empty(),
            ),
            BuildingType::BridgeVert | BuildingType::BridgeHorz => r.spec_is(Seq::empty(), Seq::empty(), Seq::empty()),
        },
{
    building_ui::building_pathing_spec(building)
}

/// Frame of middle row `row` of a vertical bridge.
pub fn bridge_vert_fill_index(state: building_ui::BridgeVisualState, row: usize) -> (r: usize)
    ensures
        r == bridge_vert_ui::spec_fill_index(state, row as int),
{
    building_ui::bridge_vert_fill_index(state, row)
}

/// Frame of middle column `col` of a horizontal bridge.
pub fn bridge_horz_fill_index(state: building_ui::BridgeVisualState, col: usize) -> (r: usize)
    ensures
        r == bridge_horz_ui::spec_fill_index(state, col as int),
{
    building_ui::bridge_horz_fill_index(state, col)
}

/// Atlas frames of a radar overlay.
pub fn radar_overlay_frame_names(kind: RadarOverlayKind) -> (r: Vec<String>)
    ensures
        r@.len() == radar_ui::spec_overlay_frame_count(kind),
        forall|i: int| 0 <= i < radar_ui::spec_overlay_frame_count(kind) ==> #[trigger] r@[i]@ == radar_ui::spec_overlay_frame_name(kind, i as nat),
{
    building_ui::radar_overlay_frame_names(kind)
}

/// The radar's overlays, in drawing order.
pub fn radar_overlay_kinds() -> (r: Vec<RadarOverlayKind>)
    ensures
        r@ == radar_ui::spec_overlay_kinds(),
{
    building_ui::radar_overlay_kinds()
}

/// The overlays of an object: a radar has the radar's, nothing else has any.
pub fn radar_overlay_kinds_for_object(kind: ObjectKind) -> (r: Option<Vec<RadarOverlayKind>>)
    ensures
        kind == ObjectKind::Building(BuildingType::Radar) ==> r is Some && r->0@ == radar_ui::spec_overlay_kinds(),
        kind != ObjectKind::Building(BuildingType::Radar) ==> r is None,
{
    building_ui::radar_overlay_kinds_for_object(kind)
}

/// Atlas frames of a repair building overlay.
pub fn repair_overlay_frame_names(kind: RepairOverlayKind) -> (r: Vec<String>)
    ensures
        r@.len() == repair_ui::spec_overlay_frame_count(kind),
        forall|i: int| 0 <= i < repair_ui::spec_overlay_frame_count(kind) ==> #[trigger] r@[i]@ == repair_ui::spec_overlay_frame_name(kind, i as nat),
{
    building_ui::repair_overlay_frame_names(kind)
}

/// The repair building's overlays, in drawing order.
pub fn repair_overlay_kinds() -> (r: Vec<RepairOverlayKind>)
    ensures
        r@ == repair_ui::spec_overlay_kinds(),
{
    building_ui::repair_overlay_kinds()
}

/// The overlays of an object: a repair building has the repair building's,
/// nothing else has any.
pub fn repair_overlay_kinds_for_object(kind: ObjectKind) -> (r: Option<Vec<RepairOverlayKind>>)
    ensures
        kind == ObjectKind::Building(BuildingType::Repair) ==> r is Some && r->0@ == repair_ui::spec_overlay_kinds(),
        kind != ObjectKind::Building(BuildingType::Repair) ==> r is None,
{
    building_ui::repair_overlay_kinds_for_object(kind)
}

/// The frame a repair building overlay starts at.
pub fn repair_overlay_initial_frame(kind: RepairOverlayKind, owner: TeamType, repairing_unit: bool) -> (r: usize)
    ensures
        r == (match repair_ui::spec_overlay_forced_frame(kind, owner, repairing_unit) {
            Some(frame) => frame,
            None => 0,
        }),
{
    building_ui::repair_overlay_initial_frame(kind, owner, repairing_unit)
}

/// Atlas frames of a factory overlay.
pub fn factory_overlay_frame_names(kind: FactoryOverlayKind) -> (r: Vec<String>)
    ensures
        spec_texts(r@) == building_ui::spec_factory_overlay_frame_names(kind),
{
    building_ui::factory_overlay_frame_names(kind)
}

/// The overlays of a factory building; other buildings have none.
pub fn factory_overlay_kinds(building: BuildingType) -> (r: Option<Vec<FactoryOverlayKind>>)
    ensures
        match building_ui::spec_factory_overlay_kinds(building) {
            Some(kinds) => r is Some && r->0@ == kinds,
            None => r is None,
        },
{
    building_ui::factory_overlay_kinds(building)
}

/// The factory overlays of an object; only factory buildings have any.
pub fn factory_overlay_kinds_for_object(kind: ObjectKind) -> (r: Option<Vec<FactoryOverlayKind>>)
    ensures
        match kind {
            ObjectKind::Building(building) => match building_ui::spec_factory_overlay_kinds(building) {
                Some(kinds) => r is Some && r->0@ == kinds,
                None => r is None,
            },
            _ => r is None,
        },
{
    building_ui::factory_overlay_kinds_for_object(kind)
}

/// Whether a factory overlay's first frame is drawn.
pub fn factory_overlay_initial_frame_visible(kind: FactoryOverlayKind) -> (r: bool)
    ensures
        r == (if robot_factory_ui::spec_overlay_kind_is_robot(kind) {
            !(robot_factory_ui::spec_overlay_single_light_index(kind) is Some)
        } else {
            vehicle_factory_ui::spec_overlay_kind_is_vehicle(kind)
        }),
{
    building_ui::factory_overlay_initial_frame_visible(kind)
}

/// The production window a building opens: the robot window for the robot
/// factory, the vehicle window for the vehicle factory, the fort window for
/// either fort half, and none for anything else.
pub fn production_window_kind(kind: ObjectKind) -> (r: Option<ProductionWindowKind>)
    ensures
        r == building_ui::spec_production_window_kind(kind),
        r is Some <==> building_ui::spec_production_building(kind) is Some,
{
    building_ui::production_window_kind(kind)
}

/// The unit the production window has selected.
pub fn selected_production_unit(kind: ObjectKind, level: ProductionLevel, selected_index: usize) -> (r: Option<ObjectKind>)
    ensures
        r == building_ui::spec_selected_production_unit(kind, level, selected_index as int),
{
    building_ui::selected_production_unit(kind, level, selected_index)
}

/// Moves the production selector one step forward (`direction >= 0`) or back.
pub fn cycle_production_selection(kind: ObjectKind, level: ProductionLevel, selected_index: usize, direction: i32) -> (r: usize)
    ensures
        r == building_ui::spec_cycle_production_selection(kind, level, selected_index as int, direction as int),
{
    building_ui::cycle_production_selection(kind, level, selected_index, direction)
}

/// Where `unit` stands on a producing building's build list: the first entry
/// that is `unit`; `None` when the object does not produce or the list does
/// not hold `unit`.
pub fn production_selector_unit_index(kind: ObjectKind, level: ProductionLevel, unit: ObjectKind) -> (r: Option<usize>)
    ensures
        match building_ui::spec_production_building(kind) {
            None => r is None,
            Some(building) => {
                let list = spec_default_build_list(building, level);
                match r {
                    None => !list.contains(unit),
                    Some(i) => i < list.len() && list[i as int] == unit && forall|j: int| 0 <= j < i ==> list[j] != unit,
                }
            },
        },
{
    building_ui::production_selector_unit_index(kind, level, unit)
}

/// The units of a producing building's build list as the production selector
/// lays them out: robots in the first row, vehicles in the next, cannons in
/// the last, each row in list order, with empty rows left out; each unit
/// comes with the top-left pixel of its slot.
pub fn production_selector_units(kind: ObjectKind, level: ProductionLevel) -> (r: Vec<(ObjectKind, u32, u32)>)
    ensures
        r@ == building_ui::spec_production_selector_units(kind, level),
{
    building_ui::production_selector_units(kind, level)
}

/// Asset path of a destroyed building on `planet`.
pub fn destroyed_asset_path(building: BuildingType, planet: PlanetType) -> (r: Option<String>)
    ensures
        match building_ui::spec_destroyed_asset_path(building, planet) {
            Some(path) => r is Some && r->0@ == path,
            None => r is None,
        },
{
    building_ui::destroyed_asset_path(building, planet)
}

/// Asset path of a destroyed object on `planet`: buildings have one,
/// bridges and everything else have none.
pub fn destroyed_asset_name(kind: ObjectKind, planet: PlanetType) -> (r: Option<String>)
    ensures
        match kind {
            ObjectKind::Building(building) => match building_ui::spec_destroyed_asset_path(building, planet) {
                Some(path) => r is Some && r->0@ == path,
                None => r is None,
            },
            _ => r is None,
        },
{
    building_ui::destroyed_asset_name(kind, planet)
}

/// Asset paths of the frames of one piece thrown from a destroyed building.
pub fn building_piece_frame_paths_for_variants(piece_index: usize, variants: usize) -> (r: Vec<String>)
    ensures
        r@.len() == building_ui::PIECE_FRAME_COUNT,
        forall|i: int| 0 <= i < building_ui::PIECE_FRAME_COUNT ==> #[trigger] r@[i]@ == building_ui::spec_building_piece_frame_path(piece_index as nat, variants as nat, i as nat),
{
    building_ui::building_piece_frame_paths_for_variants(piece_index, variants)
}

/// Asset paths of the large debris frames of a collapsing bridge on `planet`.
pub fn bridge_turrent_frame_paths(planet: PlanetType) -> (r: Vec<String>)
    ensures
        r@.len() == bridge_vert_ui::TURRENT_FRAME_COUNT,
        forall|i: int| 0 <= i < bridge_vert_ui::TURRENT_FRAME_COUNT ==> #[trigger] r@[i]@ == bridge_vert_ui::spec_turrent_frame_path(planet, i as nat),
{
    building_ui::bridge_turrent_frame_paths(planet)
}

/// Asset paths of the small rock debris frames on `planet`.
pub fn bridge_rock_particle_frame_paths(planet: PlanetType) -> (r: Vec<String>)
    ensures
        r@.len() == bridge_vert_ui::ROCK_PARTICLE_FRAME_COUNT,
        forall|i: int| 0 <= i < bridge_vert_ui::ROCK_PARTICLE_FRAME_COUNT ==> #[trigger] r@[i]@ == bridge_vert_ui::spec_rock_particle_frame_path(planet, i as nat),
{
    building_ui::bridge_rock_particle_frame_paths(planet)
}

/// Number of debris particles at the end of a collapsing bridge, for a
/// random draw `roll` below six.
pub fn bridge_end_particle_count(roll: usize) -> (r: usize)
    requires
        roll < 6,
    ensures
        r == 12 + roll,
{
    building_ui::bridge_end_particle_count(roll)
}

/// Whether a radar overlay is drawn.
pub fn radar_overlay_should_be_visible(kind: RadarOverlayKind, owner: TeamType, stats: ObjectStats) -> (r: bool)
    ensures
        r == radar_ui::spec_overlay_should_be_visible(kind, owner, stats),
{
    building_ui::radar_overlay_should_be_visible(kind, owner, stats)
}

/// Whether a repair building overlay is drawn.
pub fn repair_overlay_should_be_visible(kind: RepairOverlayKind, owner: TeamType, stats: ObjectStats, repairing_unit: bool) -> (r: bool)
    ensures
        r == repair_ui::spec_overlay_should_be_visible(kind, owner, stats, repairing_unit),
{
    building_ui::repair_overlay_should_be_visible(kind, owner, stats, repairing_unit)
}

/// The frame a repair building overlay is held at, if any.
pub fn repair_overlay_forced_frame(kind: RepairOverlayKind, owner: TeamType, repairing_unit: bool) -> (r: Option<usize>)
    ensures
        r == repair_ui::spec_overlay_forced_frame(kind, owner, repairing_unit),
{
    building_ui::repair_overlay_forced_frame(kind, owner, repairing_unit)
}

/// Whether a factory overlay at frame `current` is drawn, by the rules of
/// the factory it belongs to.
pub fn factory_overlay_should_be_visible(
    kind: FactoryOverlayKind,
    owner: TeamType,
    stats: ObjectStats,
    production_active: bool,
    current: usize,
) -> (r: bool)
    ensures
        r == (if robot_factory_ui::spec_overlay_kind_is_robot(kind) {
            robot_factory_ui::spec_overlay_should_be_visible(kind, owner, stats, production_active, current)
        } else {
            vehicle_factory_ui::spec_overlay_should_be_visible(kind, owner, stats, production_active)
        }),
{
    building_ui::factory_overlay_should_be_visible(kind, owner, stats, production_active, current)
}

/// The next frame of a factory overlay.
pub fn factory_overlay_next_frame<F: FnOnce() -> Option<[usize; 3]>>(
    ref_id: u32,
    kind: FactoryOverlayKind,
    current: usize,
    frame_count: usize,
    draw: F,
    robot_light_updates: &mut HashMap<u32, Option<[usize; 3]>>,
) -> (r: usize)
    requires
        robot_factory_ui::spec_overlay_single_light_index(kind) is None ==> frame_count > 0,
        call_requires(draw, ()),
    ensures
        match robot_factory_ui::spec_overlay_single_light_index(kind) {
            None => r == (current + 1) % (frame_count as int) && final(robot_light_updates)@ == old(robot_light_updates)@,
            Some(light) => {
                let update = robot_factory_ui::spec_recorded_light_update(old(robot_light_updates)@, final(robot_light_updates)@, ref_id);
                &&& final(robot_light_updates)@ == old(robot_light_updates)@.insert(ref_id, update)
                &&& !old(robot_light_updates)@.contains_key(ref_id) ==> call_ensures(draw, (), update)
                &&& r == (match update {
                    Some(states) => states@[light as int],
                    None => current,
                })
            },
        },
{
    building_ui::factory_overlay_next_frame(ref_id, kind, current, frame_count, draw, robot_light_updates)
}

/// The sprite layers of a building.
pub fn building_layer_specs(building: BuildingType, team: TeamType, planet: PlanetType) -> (r: Vec<building_ui::BuildingAtlasFrameSpec>)
    ensures
        building_ui::spec_building_layers(building, team, planet, r@),
{
    building_ui::building_layer_specs(building, team, planet)
}

/// Where each frame of a radar overlay is drawn.
pub fn radar_overlay_offsets(kind: RadarOverlayKind) -> (r: Vec<(i32, i32)>)
    ensures
        r@ == radar_ui::spec_overlay_offsets(kind),
{
    building_ui::radar_overlay_offsets(kind)
}

/// The frames of a radar overlay with where each is drawn.
pub fn radar_overlay_frame_specs(kind: RadarOverlayKind) -> (r: Vec<building_ui::BuildingOverlayFrameSpec>)
    ensures
        building_ui::spec_overlay_frame_specs_are(
            r@,
            Seq::new(radar_ui::spec_overlay_frame_count(kind), |i: int| radar_ui::spec_overlay_frame_name(kind, i as nat)),
            radar_ui::spec_overlay_offsets(kind),
        ),
{
    building_ui::radar_overlay_frame_specs(kind)
}

/// Where each frame of a repair building overlay is drawn.
pub fn repair_overlay_offsets(kind: RepairOverlayKind) -> (r: Vec<(i32, i32)>)
    ensures
        r@ == repair_ui::spec_overlay_offsets(kind),
{
    building_ui::repair_overlay_offsets(kind)
}

/// The frames of a repair building overlay with where each is drawn.
pub fn repair_overlay_frame_specs(kind: RepairOverlayKind) -> (r: Vec<building_ui::BuildingOverlayFrameSpec>)
    ensures
        building_ui::spec_overlay_frame_specs_are(
            r@,
            Seq::new(repair_ui::spec_overlay_frame_count(kind), |i: int| repair_ui::spec_overlay_frame_name(kind, i as nat)),
            repair_ui::spec_overlay_offsets(kind),
        ),
{
    building_ui::repair_overlay_frame_specs(kind)
}

/// Where each frame of a factory overlay is drawn.
pub fn factory_overlay_offsets(kind: FactoryOverlayKind) -> (r: Vec<(i32, i32)>)
    ensures
        r@ == building_ui::spec_factory_overlay_offsets(kind),
{
    building_ui::factory_overlay_offsets(kind)
}

/// The frames of a factory overlay with where each is drawn.
pub fn factory_overlay_frame_specs(kind: FactoryOverlayKind) -> (r: Vec<building_ui::BuildingOverlayFrameSpec>)
    ensures
        building_ui::spec_overlay_frame_specs_are(r@, building_ui::spec_factory_overlay_frame_names(kind), building_ui::spec_factory_overlay_offsets(kind)),
{
    building_ui::factory_overlay_frame_specs(kind)
}

/// Whether a repair building repairs units of `unit_team`.
pub fn can_repair_unit(kind: ObjectKind, building_team: TeamType, unit_team: TeamType, stats: ObjectStats) -> (r: bool)
    ensures
        r == repair::repair_logic::spec_can_repair_unit(kind, building_team, unit_team, stats),
{
    repair::repair_logic::can_repair_unit(kind, building_team, unit_team, stats)
}

/// Whether a unit can be repaired.
pub fn can_repair_target_unit(kind: ObjectKind, team: TeamType, stats: ObjectStats) -> (r: bool)
    ensures
        r == repair::repair_logic::spec_can_repair_target_unit(kind, team, stats),
{
    repair::repair_logic::can_repair_target_unit(kind, team, stats)
}

/// Whether finished units of an object can be sent to rally points.
pub fn can_set_rallypoints(kind: ObjectKind) -> (r: bool)
    ensures
        r == production_logic::spec_can_set_rallypoints(kind),
{
    production_logic::can_set_rallypoints(kind)
}


/// The level after `level`; the top level is its own successor.
pub open spec fn spec_next_level(level: ProductionLevel) -> ProductionLevel {
    match level {
        ProductionLevel::Level0 => ProductionLevel::Level1,
        ProductionLevel::Level1 => ProductionLevel::Level2,
        ProductionLevel::Level2 => ProductionLevel::Level3,
        ProductionLevel::Level3 => ProductionLevel::Level4,
        ProductionLevel::Level4 => ProductionLevel::Level5,
        ProductionLevel::Level5 => ProductionLevel::Level5,
    }
}

/// Raising a building's level only unlocks units: whatever it can build at
/// one level it can still build at the next.
pub proof fn lemma_build_list_grows_with_level(building: BuildingType, level: ProductionLevel, unit: ObjectKind)
    requires
        spec_default_build_list(building, level).contains(unit),
    ensures
        spec_default_build_list(building, spec_next_level(level)).contains(unit),
{
    let list = spec_default_build_list(building, level);
    let next = spec_default_build_list(building, spec_next_level(level));
    let i = choose|i: int| 0 <= i < list.len() && list[i] == unit;
    assert(list[i] == unit);
    assert(next.len() <= 17) by {
        building_ui::lemma_build_list_short(building, spec_next_level(level));
    }
    assert forall|j: int| 0 <= j < next.len() && next[j] == unit implies next.contains(unit) by {}
    if next.len() > 0 { assert(next[0] == next[0]); }
    if next.len() > 1 { assert(next[1] == next[1]); }
    if next.len() > 2 { assert(next[2] == next[2]); }
    if next.len() > 3 { assert(next[3] == next[3]); }
    if next.len() > 4 { assert(next[4] == next[4]); }
    if next.len() > 5 { assert(next[5] == next[5]); }
    if next.len() > 6 { assert(next[6] == next[6]); }
    if next.len() > 7 { assert(next[7] == next[7]); }
    if next.len() > 8 { assert(next[8] == next[8]); }
    if next.len() > 9 { assert(next[9] == next[9]); }
    if next.len() > 10 { assert(next[10] == next[10]); }
    if next.len() > 11 { assert(next[11] == next[11]); }
    if next.len() > 12 { assert(next[12] == next[12]); }
    if next.len() > 13 { assert(next[13] == next[13]); }
    if next.len() > 14 { assert(next[14] == next[14]); }
    if next.len() > 15 { assert(next[15] == next[15]); }
    if next.len() > 16 { assert(next[16] == next[16]); }
}

} // verus!
