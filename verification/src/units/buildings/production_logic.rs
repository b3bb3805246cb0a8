//! Production of producing buildings: starting, queueing, cancelling and
//! finishing units, and storing built cannons until they are placed.

use std::collections::VecDeque;
use vstd::prelude::*;

use crate::components::{
    spec_force_move, spec_rally_move, BuildingProduction, BuildingProductionStatus, MovementWaypoint, ProductionLevel,
};
use crate::original::objects::{BuildingType, ObjectKind};
use crate::original::types::TeamType;
use crate::settings_sync::{spec_produced_object_count, spec_source_unit_settings_index, spec_unit_settings, SourceSettingsState};
use crate::units::buildings;

verus! {

pub const MAX_QUEUE_ITEMS: usize = 5;
pub const MAX_STORED_CANNONS: usize = 4;
pub const DEFAULT_MAX_UNITS_PER_TEAM: usize = 70;

/// Cannons of one building counted against a zone: stored or placed.
#[derive(Clone, Copy, Debug, PartialEq, Eq, Structural)]
pub struct CannonZoneSnapshot {
    pub zone: Option<usize>,
    pub count: usize,
}

/// What happens to a unit a building has finished.
#[derive(Clone, Copy, Debug, PartialEq, Eq, Structural)]
pub enum BuildingCreateUnitOutcome {
    SpawnObjects { unit: ObjectKind, count: u8 },
    StoredCannon,
    DroppedCannon,
}

/// Bounds that production keeps: at most `MAX_QUEUE_ITEMS` queued units and
/// at most `MAX_STORED_CANNONS` stored cannons.
pub open spec fn spec_production_wf(p: BuildingProduction) -> bool {
    &&& p.queue@.len() <= MAX_QUEUE_ITEMS
    &&& p.stored_cannons@.len() <= MAX_STORED_CANNONS
}

/// The built-in unit table has settings, and so a build time, for exactly
/// the robot, vehicle and cannon types.
pub open spec fn spec_has_default_build_time(unit: ObjectKind) -> bool {
    spec_source_unit_settings_index(unit) is Some
}

/// A unit has a build time in the server settings when its unit block can be read.
pub open spec fn spec_has_source_build_time(settings: Seq<u8>, unit: ObjectKind) -> bool {
    spec_unit_settings(settings, unit) is Some
}

/// Production after `unit` starts: it is current, the building is building,
/// and an empty queue receives the unit.
pub open spec fn spec_started(old: BuildingProduction, new: BuildingProduction, unit: ObjectKind) -> bool {
    &&& new.current == Some(unit)
    &&& new.status == BuildingProductionStatus::Building
    &&& new.queue@ == (if old.queue@.len() == 0 { seq![unit] } else { old.queue@ })
    &&& new.stored_cannons@ == old.stored_cannons@
    &&& new.unit_limit_reached == old.unit_limit_reached
}

/// Production left as it was.
pub open spec fn spec_unchanged(old: BuildingProduction, new: BuildingProduction) -> bool {
    &&& new.current == old.current
    &&& new.status == old.status
    &&& new.queue@ == old.queue@
    &&& new.stored_cannons@ == old.stored_cannons@
    &&& new.unit_limit_reached == old.unit_limit_reached
}

/// Production after stopping: nothing current, back to selection, and the
/// queue emptied when asked.
pub open spec fn spec_stopped(old: BuildingProduction, new: BuildingProduction, clear_queue: bool) -> bool {
    &&& new.current.is_none()
    &&& new.status == BuildingProductionStatus::Select
    &&& new.queue@ == (if clear_queue { Seq::empty() } else { old.queue@ })
    &&& new.stored_cannons@ == old.stored_cannons@
    &&& new.unit_limit_reached == old.unit_limit_reached
}

/// Whether `current` is exactly `unit`.
fn current_is(current: Option<ObjectKind>, unit: ObjectKind) -> (r: bool)
    ensures
        r == (current == Some(unit)),
{
    match current {
        Some(c) => c == unit,
        None => false,
    }
}

/// Makes `unit` current and building; an empty queue receives the unit.
fn begin_production(production: &mut BuildingProduction, unit: ObjectKind)
    ensures
        spec_started(*old(production), *final(production), unit),
{
    production.current = Some(unit);
    production.status = BuildingProductionStatus::Building;
    if production.queue.len() == 0 {
        production.queue.push_front(unit);
        proof {
            assert(production.queue@ =~= seq![unit]);
        }
    }
}

/// Starts building `unit` with a build time from the built-in unit table;
/// refused when `unit` is already current or has no build time.
pub fn start_production(production: &mut BuildingProduction, unit: ObjectKind) -> (r: bool)
    ensures
        r == (old(production).current != Some(unit) && spec_has_default_build_time(unit)),
        r ==> spec_started(*old(production), *final(production), unit),
        !r ==> spec_unchanged(*old(production), *final(production)),
        spec_production_wf(*old(production)) ==> spec_production_wf(*final(production)),
{
    if current_is(production.current, unit) {
        return false;
    }
    if crate::settings_sync::source_unit_settings_index(unit).is_none() {
        return false;
    }
    begin_production(production, unit);
    true
}

/// Starts building `unit` with a build time from the server settings;
/// refused when `unit` is already current or its settings cannot be read.
pub fn start_production_from_source(
    production: &mut BuildingProduction,
    unit: ObjectKind,
    settings: &SourceSettingsState,
) -> (r: bool)
    ensures
        r == (old(production).current != Some(unit) && spec_has_source_build_time(settings@, unit)),
        r ==> spec_started(*old(production), *final(production), unit),
        !r ==> spec_unchanged(*old(production), *final(production)),
        spec_production_wf(*old(production)) ==> spec_production_wf(*final(production)),
{
    if current_is(production.current, unit) {
        return false;
    }
    if settings.unit_settings(unit).is_none() {
        return false;
    }
    begin_production(production, unit);
    true
}

/// Stops building. Reports whether anything changed: a unit was current, the
/// building was not selecting, or a non-empty queue was cleared.
pub fn stop_production(production: &mut BuildingProduction, clear_queue: bool) -> (r: bool)
    ensures
        r == (old(production).current.is_some() || old(production).status != BuildingProductionStatus::Select
            || (clear_queue && old(production).queue@.len() != 0)),
        spec_stopped(*old(production), *final(production), clear_queue),
        spec_production_wf(*old(production)) ==> spec_production_wf(*final(production)),
{
    let changed = production.current.is_some() || production.status != BuildingProductionStatus::Select
        || (clear_queue && production.queue.len() != 0);
    production.current = None;
    production.status = BuildingProductionStatus::Select;
    if clear_queue {
        production.queue.clear();
    }
    changed
}

/// A queue after adding `unit` at its front or back.
pub open spec fn spec_queue_after_add(queue: Seq<ObjectKind>, unit: ObjectKind, push_to_front: bool) -> Seq<ObjectKind> {
    if push_to_front { seq![unit] + queue } else { queue.push(unit) }
}

/// Queues `unit` at the front or back, if the queue has room and the
/// building can build `unit` at `level`.
pub fn add_production_queue(
    production: &mut BuildingProduction,
    building: BuildingType,
    level: ProductionLevel,
    unit: ObjectKind,
    push_to_front: bool,
) -> (r: bool)
    ensures
        r == (old(production).queue@.len() < MAX_QUEUE_ITEMS
            && buildings::spec_default_build_list(building, level).contains(unit)),
        r ==> final(production).queue@ == spec_queue_after_add(old(production).queue@, unit, push_to_front),
        !r ==> final(production).queue@ == old(production).queue@,
        final(production).current == old(production).current,
        final(production).status == old(production).status,
        final(production).stored_cannons@ == old(production).stored_cannons@,
        final(production).unit_limit_reached == old(production).unit_limit_reached,
        spec_production_wf(*old(production)) ==> spec_production_wf(*final(production)),
{
    if production.queue.len() >= MAX_QUEUE_ITEMS || !buildings::unit_in_default_build_list(building, level, unit) {
        return false;
    }
    if push_to_front {
        production.queue.push_front(unit);
    } else {
        production.queue.push_back(unit);
    }
    proof {
        assert(production.queue@ =~= spec_queue_after_add(old(production).queue@, unit, push_to_front));
    }
    true
}

/// Removes the queue entry at `index`, if it holds `unit`.
pub fn cancel_production_queue_item(production: &mut BuildingProduction, index: usize, unit: ObjectKind) -> (r: bool)
    ensures
        r == (index < old(production).queue@.len() && old(production).queue@[index as int] == unit),
        r ==> final(production).queue@ == old(production).queue@.remove(index as int),
        !r ==> final(production).queue@ == old(production).queue@,
        final(production).current == old(production).current,
        final(production).status == old(production).status,
        final(production).stored_cannons@ == old(production).stored_cannons@,
        final(production).unit_limit_reached == old(production).unit_limit_reached,
        spec_production_wf(*old(production)) ==> spec_production_wf(*final(production)),
{
    if index >= production.queue.len() || production.queue[index] != unit {
        return false;
    }
    let removed = production.queue.remove(index);
    removed.is_some()
}

/// Cancelling the entry that was just queued gives the queue back as it was.
pub proof fn lemma_cancel_undoes_add(queue: Seq<ObjectKind>, unit: ObjectKind, push_to_front: bool)
    ensures
        ({
            let added = spec_queue_after_add(queue, unit, push_to_front);
            let index = if push_to_front { 0 } else { queue.len() as int };
            &&& 0 <= index < added.len()
            &&& added[index] == unit
            &&& added.remove(index) == queue
        }),
{
    let added = spec_queue_after_add(queue, unit, push_to_front);
    if push_to_front {
        assert(added.remove(0) =~= queue);
    } else {
        assert(added.remove(queue.len() as int) =~= queue);
    }
}

/// Production after finishing the current unit with the built-in build
/// times: the next queued unit starts, or production stops with an empty
/// queue. `r` is the result of the start, or of the stop.
pub open spec fn spec_reset(old: BuildingProduction, new: BuildingProduction, r: bool, has_time: spec_fn(ObjectKind) -> bool) -> bool {
    if old.queue@.len() == 0 {
        &&& r == (old.current.is_some() || old.status != BuildingProductionStatus::Select)
        &&& spec_stopped(old, new, true)
    } else {
        let next = old.queue@[0];
        let rest = old.queue@.drop_first();
        &&& r == has_time(next)
        &&& r ==> (new.current == Some(next) && new.status == BuildingProductionStatus::Building
            && new.queue@ == (if rest.len() == 0 { seq![next] } else { rest }))
        &&& !r ==> (new.current.is_none() && new.status == BuildingProductionStatus::Select && new.queue@ == rest)
        &&& new.stored_cannons@ == old.stored_cannons@
        &&& new.unit_limit_reached == old.unit_limit_reached
    }
}

/// What finishing the current unit reports: whether the next queued unit
/// started, or, with an empty queue, whether stopping changed anything.
pub open spec fn spec_reset_result(old: BuildingProduction, has_time: spec_fn(ObjectKind) -> bool) -> bool {
    if old.queue@.len() == 0 {
        old.current.is_some() || old.status != BuildingProductionStatus::Select
    } else {
        has_time(old.queue@[0])
    }
}

/// Finishes the current unit and starts the next queued one with a build
/// time from the built-in table, or stops and clears the queue.
pub fn reset_production(production: &mut BuildingProduction) -> (r: bool)
    ensures
        spec_reset(*old(production), *final(production), r, |u: ObjectKind| spec_has_default_build_time(u)),
        spec_production_wf(*old(production)) ==> spec_production_wf(*final(production)),
{
    if let Some(next_unit) = production.queue.pop_front() {
        stop_production(production, false);
        start_production(production, next_unit)
    } else {
        stop_production(production, true)
    }
}

/// Finishes the current unit and starts the next queued one with a build
/// time from the server settings, or stops and clears the queue.
pub fn reset_production_from_source(production: &mut BuildingProduction, settings: &SourceSettingsState) -> (r: bool)
    ensures
        spec_reset(*old(production), *final(production), r, |u: ObjectKind| spec_has_source_build_time(settings@, u)),
        spec_production_wf(*old(production)) ==> spec_production_wf(*final(production)),
{
    if let Some(next_unit) = production.queue.pop_front() {
        stop_production(production, false);
        start_production_from_source(production, next_unit, settings)
    } else {
        stop_production(production, true)
    }
}

/// Whether production has a unit under way whose timer may complete it.
pub fn production_in_progress(production: &BuildingProduction) -> (r: bool)
    ensures
        r == ((production.status == BuildingProductionStatus::Building
            || production.status == BuildingProductionStatus::Paused) && production.current.is_some()),
{
    (production.status == BuildingProductionStatus::Building || production.status == BuildingProductionStatus::Paused)
        && production.current.is_some()
}

/// Completes the unit under way: returns it and moves on to the next queued
/// unit with server build times; nothing happens when no unit is under way.
pub fn complete_production_from_source(production: &mut BuildingProduction, settings: &SourceSettingsState) -> (r: Option<ObjectKind>)
    ensures
        (old(production).status == BuildingProductionStatus::Building
            || old(production).status == BuildingProductionStatus::Paused) && old(production).current.is_some()
            ==> r == old(production).current
                && spec_reset(*old(production), *final(production),
                    spec_reset_result(*old(production), |u: ObjectKind| spec_has_source_build_time(settings@, u)),
                    |u: ObjectKind| spec_has_source_build_time(settings@, u)),
        !((old(production).status == BuildingProductionStatus::Building
            || old(production).status == BuildingProductionStatus::Paused) && old(production).current.is_some())
            ==> r.is_none() && spec_unchanged(*old(production), *final(production)),
        spec_production_wf(*old(production)) ==> spec_production_wf(*final(production)),
{
    if !production_in_progress(production) {
        return None;
    }
    let unit = production.current;
    reset_production_from_source(production, settings);
    unit
}

/// Production with the unit-limit flag set to `unit_limit_reached` and all
/// else kept.
pub open spec fn spec_with_unit_limit(p: BuildingProduction, unit_limit_reached: bool) -> BuildingProduction {
    BuildingProduction { unit_limit_reached, ..p }
}

/// One tick of production with the built-in build times. The build timer is
/// kept by the caller: `timer_finished` tells whether, with this tick's time
/// added, it has reached a positive build time. While a unit is being built
/// (not paused) and the timer has finished, the unit is returned and the
/// next queued unit starts, or production stops; otherwise nothing changes
/// and nothing is returned.
pub fn advance_production(production: &mut BuildingProduction, timer_finished: bool) -> (r: Vec<ObjectKind>)
    ensures
        old(production).status == BuildingProductionStatus::Building && old(production).current is Some
            && timer_finished ==> r@ == seq![old(production).current->0] && spec_reset(
            *old(production),
            *final(production),
            spec_reset_result(*old(production), |u: ObjectKind| spec_has_default_build_time(u)),
            |u: ObjectKind| spec_has_default_build_time(u),
        ),
        !(old(production).status == BuildingProductionStatus::Building && old(production).current is Some
            && timer_finished) ==> r@.len() == 0 && spec_unchanged(*old(production), *final(production)),
        spec_production_wf(*old(production)) ==> spec_production_wf(*final(production)),
{
    if production.status != BuildingProductionStatus::Building || !timer_finished {
        return Vec::new();
    }
    match production.current {
        Some(unit) => {
            reset_production(production);
            vec![unit]
        },
        None => Vec::new(),
    }
}

/// One tick of production with the built-in build times that also records
/// whether the team's unit limit is reached. A unit under way (building or
/// paused) waits while the limit is reached; otherwise the tick goes on as
/// `advance_production`, which completes only a unit that is being built.
pub fn advance_production_with_unit_limit(
    production: &mut BuildingProduction,
    timer_finished: bool,
    unit_limit_reached: bool,
) -> (r: Vec<ObjectKind>)
    ensures
        final(production).unit_limit_reached == unit_limit_reached,
        ({
            let before = spec_with_unit_limit(*old(production), unit_limit_reached);
            if before.status == BuildingProductionStatus::Building && before.current is Some && !unit_limit_reached
                && timer_finished {
                &&& r@ == seq![before.current->0]
                &&& spec_reset(
                    before,
                    *final(production),
                    spec_reset_result(before, |u: ObjectKind| spec_has_default_build_time(u)),
                    |u: ObjectKind| spec_has_default_build_time(u),
                )
            } else {
                r@.len() == 0 && spec_unchanged(before, *final(production))
            }
        }),
        spec_production_wf(*old(production)) ==> spec_production_wf(*final(production)),
{
    production.unit_limit_reached = unit_limit_reached;
    if !production_in_progress(production) || unit_limit_reached {
        return Vec::new();
    }
    advance_production(production, timer_finished)
}

/// One tick of production with the server's build times. The build timer is
/// kept by the caller: `timer_finished` tells whether, with this tick's time
/// added, it has reached a positive build time. The tick records whether the
/// team's unit limit is reached. With a unit under way (building or paused),
/// the limit not reached and the timer finished, the unit is returned and
/// production moves on as `complete_production_from_source` does; otherwise
/// nothing else changes and nothing is returned.
pub fn advance_production_with_unit_limit_from_source(
    production: &mut BuildingProduction,
    timer_finished: bool,
    unit_limit_reached: bool,
    settings: &SourceSettingsState,
) -> (r: Vec<ObjectKind>)
    ensures
        final(production).unit_limit_reached == unit_limit_reached,
        ({
            let before = spec_with_unit_limit(*old(production), unit_limit_reached);
            if (before.status == BuildingProductionStatus::Building || before.status
                == BuildingProductionStatus::Paused) && before.current is Some && !unit_limit_reached
                && timer_finished {
                &&& r@ == seq![before.current->0]
                &&& spec_reset(
                    before,
                    *final(production),
                    spec_reset_result(before, |u: ObjectKind| spec_has_source_build_time(settings@, u)),
                    |u: ObjectKind| spec_has_source_build_time(settings@, u),
                )
            } else {
                r@.len() == 0 && spec_unchanged(before, *final(production))
            }
        }),
        spec_production_wf(*old(production)) ==> spec_production_wf(*final(production)),
{
    production.unit_limit_reached = unit_limit_reached;
    if !production_in_progress(production) || unit_limit_reached || !timer_finished {
        return Vec::new();
    }
    match complete_production_from_source(production, settings) {
        Some(unit) => vec![unit],
        None => Vec::new(),
    }
}

/// Starts a building's default unit at `level` with built-in build times,
/// if the building is idle and produces.
pub fn set_default_production(production: &mut BuildingProduction, kind: ObjectKind, level: ProductionLevel) -> (r: bool)
    ensures
        r == (old(production).current.is_none() && old(production).status == BuildingProductionStatus::Select
            && spec_default_production_unit(kind, level) is Some
            && spec_has_default_build_time(spec_default_production_unit(kind, level)->0)),
        r ==> spec_started(*old(production), *final(production), spec_default_production_unit(kind, level)->0),
        !r ==> spec_unchanged(*old(production), *final(production)),
        spec_production_wf(*old(production)) ==> spec_production_wf(*final(production)),
{
    if production.current.is_some() || production.status != BuildingProductionStatus::Select {
        return false;
    }
    let unit = match default_production_unit(kind, level) {
        Some(u) => u,
        None => return false,
    };
    start_production(production, unit)
}

/// Starts a building's default unit at `level` with server build times, if
/// the building is idle and produces.
pub fn set_default_production_from_source(
    production: &mut BuildingProduction,
    kind: ObjectKind,
    level: ProductionLevel,
    settings: &SourceSettingsState,
) -> (r: bool)
    ensures
        r == (old(production).current.is_none() && old(production).status == BuildingProductionStatus::Select
            && spec_default_production_unit(kind, level) is Some
            && spec_has_source_build_time(settings@, spec_default_production_unit(kind, level)->0)),
        r ==> spec_started(*old(production), *final(production), spec_default_production_unit(kind, level)->0),
        !r ==> spec_unchanged(*old(production), *final(production)),
        spec_production_wf(*old(production)) ==> spec_production_wf(*final(production)),
{
    if production.current.is_some() || production.status != BuildingProductionStatus::Select {
        return false;
    }
    let unit = match default_production_unit(kind, level) {
        Some(u) => u,
        None => return false,
    };
    start_production_from_source(production, unit, settings)
}

/// The unit a building object starts producing at `level`.
pub open spec fn spec_default_production_unit(kind: ObjectKind, level: ProductionLevel) -> Option<ObjectKind> {
    match kind {
        ObjectKind::Building(building) => buildings::spec_default_production_unit(building, level),
        _ => None,
    }
}

/// The unit a building object starts producing at `level`, if it produces.
pub fn default_production_unit(kind: ObjectKind, level: ProductionLevel) -> (r: Option<ObjectKind>)
    ensures
        r == spec_default_production_unit(kind, level),
{
    match kind {
        ObjectKind::Building(building) => buildings::default_production_unit(building, level),
        _ => None,
    }
}

/// Whether `unit` is on a building's build list at `level`.
pub fn unit_in_default_build_list(building: BuildingType, level: ProductionLevel, unit: ObjectKind) -> (r: bool)
    ensures
        r == buildings::spec_default_build_list(building, level).contains(unit),
{
    buildings::unit_in_default_build_list(building, level, unit)
}

/// The production a newly owned building begins with: its default unit
/// under way with built-in build times. Neutral buildings and buildings
/// that do not produce have none.
pub fn initial_production_for_building(kind: ObjectKind, level: ProductionLevel, owner: TeamType) -> (r: Option<BuildingProduction>)
    ensures
        r is Some <==> (owner != TeamType::Null && spec_default_production_unit(kind, level) is Some
            && spec_has_default_build_time(spec_default_production_unit(kind, level)->0)),
        r matches Some(p) ==> ({
            let unit = spec_default_production_unit(kind, level)->0;
            &&& p.current == Some(unit)
            &&& p.status == BuildingProductionStatus::Building
            &&& p.queue@ == seq![unit]
            &&& p.stored_cannons@.len() == 0
            &&& !p.unit_limit_reached
        }),
{
    if owner == TeamType::Null {
        return None;
    }
    let unit = default_production_unit(kind, level)?;
    let mut production = BuildingProduction::idle();
    if start_production(&mut production, unit) {
        Some(production)
    } else {
        None
    }
}

/// The production a newly owned building begins with, with server build times.
pub fn initial_production_for_building_from_source(
    kind: ObjectKind,
    level: ProductionLevel,
    owner: TeamType,
    settings: &SourceSettingsState,
) -> (r: Option<BuildingProduction>)
    ensures
        r is Some <==> (owner != TeamType::Null && spec_default_production_unit(kind, level) is Some
            && spec_has_source_build_time(settings@, spec_default_production_unit(kind, level)->0)),
        r matches Some(p) ==> ({
            let unit = spec_default_production_unit(kind, level)->0;
            &&& p.current == Some(unit)
            &&& p.status == BuildingProductionStatus::Building
            &&& p.queue@ == seq![unit]
            &&& p.stored_cannons@.len() == 0
            &&& !p.unit_limit_reached
        }),
{
    if owner == TeamType::Null {
        return None;
    }
    let unit = default_production_unit(kind, level)?;
    let mut production = BuildingProduction::idle();
    if start_production_from_source(&mut production, unit, settings) {
        Some(production)
    } else {
        None
    }
}

/// Whether a finished unit is a cannon, which is stored for placement
/// instead of spawned.
pub open spec fn spec_is_stored_cannon(unit: ObjectKind) -> bool {
    unit is Cannon
}

/// Whether a finished unit is a cannon, stored for placement.
pub fn is_stored_cannon(unit: ObjectKind) -> (r: bool)
    ensures
        r == spec_is_stored_cannon(unit),
{
    match unit {
        ObjectKind::Cannon(_) => true,
        _ => false,
    }
}

/// Stores a built cannon for placement, if `unit` is a cannon and fewer
/// than `MAX_STORED_CANNONS` wait; the building then waits for placement.
pub fn store_built_cannon(production: &mut BuildingProduction, unit: ObjectKind) -> (r: bool)
    ensures
        r == (spec_is_stored_cannon(unit) && old(production).stored_cannons@.len() < MAX_STORED_CANNONS),
        r ==> final(production).stored_cannons@ == old(production).stored_cannons@.push(unit)
            && final(production).status == BuildingProductionStatus::Place,
        !r ==> final(production).stored_cannons@ == old(production).stored_cannons@
            && final(production).status == old(production).status,
        final(production).current == old(production).current,
        final(production).queue@ == old(production).queue@,
        final(production).unit_limit_reached == old(production).unit_limit_reached,
        spec_production_wf(*old(production)) ==> spec_production_wf(*final(production)),
{
    if !is_stored_cannon(unit) || production.stored_cannons.len() >= MAX_STORED_CANNONS {
        return false;
    }
    production.stored_cannons.push(unit);
    production.status = BuildingProductionStatus::Place;
    true
}

/// Whether a zone with `stored_or_placed_count` cannons takes one more.
pub fn can_store_cannon_in_zone(stored_or_placed_count: usize) -> (r: bool)
    ensures
        r == (stored_or_placed_count < MAX_STORED_CANNONS),
{
    stored_or_placed_count < MAX_STORED_CANNONS
}

/// Sum of the counts of the snapshots taken in `zone`.
pub open spec fn spec_cannon_count_in_zone(snapshots: Seq<CannonZoneSnapshot>, zone: Option<usize>) -> int
    decreases snapshots.len(),
{
    if snapshots.len() == 0 {
        0
    } else {
        spec_cannon_count_in_zone(snapshots.drop_last(), zone)
            + if snapshots.last().zone == zone { snapshots.last().count as int } else { 0 }
    }
}

proof fn lemma_cannon_count_prefix(snapshots: Seq<CannonZoneSnapshot>, zone: Option<usize>, i: int)
    requires
        0 <= i <= snapshots.len(),
    ensures
        0 <= spec_cannon_count_in_zone(snapshots.subrange(0, i), zone) <= spec_cannon_count_in_zone(snapshots, zone),
    decreases snapshots.len() - i,
{
    if i < snapshots.len() {
        lemma_cannon_count_prefix(snapshots, zone, i + 1);
        assert(snapshots.subrange(0, i + 1).drop_last() =~= snapshots.subrange(0, i));
        lemma_cannon_count_nonneg(snapshots.subrange(0, i), zone);
        assert(spec_cannon_count_in_zone(snapshots.subrange(0, i + 1), zone)
            >= spec_cannon_count_in_zone(snapshots.subrange(0, i), zone));
    } else {
        assert(snapshots.subrange(0, i) =~= snapshots);
        lemma_cannon_count_nonneg(snapshots, zone);
    }
}

proof fn lemma_cannon_count_nonneg(snapshots: Seq<CannonZoneSnapshot>, zone: Option<usize>)
    ensures
        spec_cannon_count_in_zone(snapshots, zone) >= 0,
    decreases snapshots.len(),
{
    if snapshots.len() > 0 {
        lemma_cannon_count_nonneg(snapshots.drop_last(), zone);
    }
}

/// Cannons counted against `zone`: the sum over its snapshots.
pub fn cannon_count_in_zone(snapshots: &[CannonZoneSnapshot], zone: Option<usize>) -> (r: usize)
    requires
        spec_cannon_count_in_zone(snapshots@, zone) <= usize::MAX,
    ensures
        r == spec_cannon_count_in_zone(snapshots@, zone),
{
    let mut total: usize = 0;
    let mut i: usize = 0;
    while i < snapshots.len()
        invariant
            i <= snapshots@.len(),
            spec_cannon_count_in_zone(snapshots@, zone) <= usize::MAX,
            total == spec_cannon_count_in_zone(snapshots@.subrange(0, i as int), zone),
        decreases snapshots@.len() - i,
    {
        proof {
            assert(snapshots@.subrange(0, i + 1).drop_last() =~= snapshots@.subrange(0, i as int));
            lemma_cannon_count_prefix(snapshots@, zone, i + 1);
        }
        if snapshots[i].zone == zone {
            total = total + snapshots[i].count;
        }
        i = i + 1;
    }
    proof {
        assert(snapshots@.subrange(0, snapshots@.len() as int) =~= snapshots@);
    }
    total
}

/// Stores a built cannon if the zone has room and the building can store
/// it; the zone then counts one more cannon.
pub fn store_built_cannon_in_zone(
    production: &mut BuildingProduction,
    unit: ObjectKind,
    zone: Option<usize>,
    snapshots: &mut Vec<CannonZoneSnapshot>,
) -> (r: bool)
    requires
        spec_cannon_count_in_zone(old(snapshots)@, zone) <= usize::MAX,
    ensures
        r == (spec_is_stored_cannon(unit) && spec_cannon_count_in_zone(old(snapshots)@, zone) < MAX_STORED_CANNONS
            && old(production).stored_cannons@.len() < MAX_STORED_CANNONS),
        r ==> final(production).stored_cannons@ == old(production).stored_cannons@.push(unit)
            && final(production).status == BuildingProductionStatus::Place
            && final(snapshots)@ == old(snapshots)@.push(CannonZoneSnapshot { zone, count: 1 })
            && spec_cannon_count_in_zone(final(snapshots)@, zone) == spec_cannon_count_in_zone(old(snapshots)@, zone) + 1,
        !r ==> final(production).stored_cannons@ == old(production).stored_cannons@
            && final(production).status == old(production).status
            && final(snapshots)@ == old(snapshots)@,
        final(production).current == old(production).current,
        final(production).queue@ == old(production).queue@,
        final(production).unit_limit_reached == old(production).unit_limit_reached,
        spec_production_wf(*old(production)) ==> spec_production_wf(*final(production)),
{
    if !is_stored_cannon(unit) || !can_store_cannon_in_zone(cannon_count_in_zone(snapshots.as_slice(), zone)) {
        return false;
    }
    if !store_built_cannon(production, unit) {
        return false;
    }
    snapshots.push(CannonZoneSnapshot { zone, count: 1 });
    proof {
        assert(snapshots@.drop_last() =~= old(snapshots)@);
    }
    true
}

/// What becomes of a finished unit: cannons are stored when the zone and
/// the building have room and dropped otherwise; other units spawn as many
/// objects as one production run creates under the server settings.
pub fn building_create_unit_outcome_from_source(
    production: &mut BuildingProduction,
    unit: ObjectKind,
    zone: Option<usize>,
    snapshots: &mut Vec<CannonZoneSnapshot>,
    settings: &SourceSettingsState,
) -> (r: BuildingCreateUnitOutcome)
    requires
        spec_cannon_count_in_zone(old(snapshots)@, zone) <= usize::MAX,
    ensures
        spec_is_stored_cannon(unit) ==> {
            let stored = spec_cannon_count_in_zone(old(snapshots)@, zone) < MAX_STORED_CANNONS
                && old(production).stored_cannons@.len() < MAX_STORED_CANNONS;
            &&& r == (if stored { BuildingCreateUnitOutcome::StoredCannon } else { BuildingCreateUnitOutcome::DroppedCannon })
            &&& stored ==> final(production).stored_cannons@ == old(production).stored_cannons@.push(unit)
                && final(production).status == BuildingProductionStatus::Place
                && final(snapshots)@ == old(snapshots)@.push(CannonZoneSnapshot { zone, count: 1 })
            &&& !stored ==> final(production).stored_cannons@ == old(production).stored_cannons@
                && final(production).status == old(production).status
                && final(snapshots)@ == old(snapshots)@
        },
        !spec_is_stored_cannon(unit) ==> r == (BuildingCreateUnitOutcome::SpawnObjects {
            unit,
            count: spec_produced_object_count(settings@, unit),
        }) && final(production).stored_cannons@ == old(production).stored_cannons@
            && final(production).status == old(production).status && final(snapshots)@ == old(snapshots)@,
        final(production).current == old(production).current,
        final(production).queue@ == old(production).queue@,
        spec_production_wf(*old(production)) ==> spec_production_wf(*final(production)),
{
    if is_stored_cannon(unit) {
        return if store_built_cannon_in_zone(production, unit, zone, snapshots) {
            BuildingCreateUnitOutcome::StoredCannon
        } else {
            BuildingCreateUnitOutcome::DroppedCannon
        };
    }
    BuildingCreateUnitOutcome::SpawnObjects { unit, count: settings.produced_object_count(unit) }
}

/// Buildings whose finished units can be sent on to rally points: forts and factories.
pub open spec fn spec_can_set_rallypoints(kind: ObjectKind) -> bool {
    match kind {
        ObjectKind::Building(BuildingType::FortFront) => true,
        ObjectKind::Building(BuildingType::FortBack) => true,
        ObjectKind::Building(BuildingType::RobotFactory) => true,
        ObjectKind::Building(BuildingType::VehicleFactory) => true,
        _ => false,
    }
}

/// Whether rally points can be set on an object of `kind`.
pub fn can_set_rallypoints(kind: ObjectKind) -> (r: bool)
    ensures
        r == spec_can_set_rallypoints(kind),
{
    match kind {
        ObjectKind::Building(BuildingType::FortFront) => true,
        ObjectKind::Building(BuildingType::FortBack) => true,
        ObjectKind::Building(BuildingType::RobotFactory) => true,
        ObjectKind::Building(BuildingType::VehicleFactory) => true,
        _ => false,
    }
}

/// Whether a team with `unit_count` units may not build more.
pub fn team_unit_limit_reached(unit_count: usize) -> (r: bool)
    ensures
        r == (unit_count >= DEFAULT_MAX_UNITS_PER_TEAM),
{
    unit_count >= DEFAULT_MAX_UNITS_PER_TEAM
}

/// Status after the stored cannons change: a building that waited for
/// placement and has none left goes back to building, or to selecting when
/// nothing is current.
pub open spec fn spec_status_after_stored_change(old_status: BuildingProductionStatus, stored: Seq<ObjectKind>, current: Option<ObjectKind>) -> BuildingProductionStatus {
    if stored.len() == 0 && old_status == BuildingProductionStatus::Place {
        if current.is_some() { BuildingProductionStatus::Building } else { BuildingProductionStatus::Select }
    } else {
        old_status
    }
}

/// Index of the first stored cannon equal to `unit`.
fn find_stored(stored: &Vec<ObjectKind>, unit: ObjectKind) -> (r: Option<usize>)
    ensures
        r is None <==> !stored@.contains(unit),
        r matches Some(i) ==> i < stored@.len() && stored@[i as int] == unit
            && forall|j: int| 0 <= j < i ==> stored@[j] != unit,
{
    let mut i: usize = 0;
    while i < stored.len()
        invariant
            i <= stored@.len(),
            forall|j: int| 0 <= j < i ==> stored@[j] != unit,
        decreases stored@.len() - i,
    {
        if stored[i] == unit {
            return Some(i);
        }
        i = i + 1;
    }
    None
}

/// Removes the first stored cannon equal to `unit`, once it is placed.
pub fn remove_stored_cannon(production: &mut BuildingProduction, unit: ObjectKind) -> (r: bool)
    ensures
        r == old(production).stored_cannons@.contains(unit),
        r ==> exists|i: int| 0 <= i < old(production).stored_cannons@.len()
            && old(production).stored_cannons@[i] == unit
            && (forall|j: int| 0 <= j < i ==> old(production).stored_cannons@[j] != unit)
            && final(production).stored_cannons@ == old(production).stored_cannons@.remove(i),
        r ==> final(production).status == spec_status_after_stored_change(
            old(production).status, final(production).stored_cannons@, old(production).current),
        !r ==> final(production).stored_cannons@ == old(production).stored_cannons@
            && final(production).status == old(production).status,
        final(production).current == old(production).current,
        final(production).queue@ == old(production).queue@,
        final(production).unit_limit_reached == old(production).unit_limit_reached,
        spec_production_wf(*old(production)) ==> spec_production_wf(*final(production)),
{
    let index = match find_stored(&production.stored_cannons, unit) {
        Some(i) => i,
        None => return false,
    };
    production.stored_cannons.remove(index);
    if production.stored_cannons.len() == 0 && production.status == BuildingProductionStatus::Place {
        production.status = if production.current.is_some() {
            BuildingProductionStatus::Building
        } else {
            BuildingProductionStatus::Select
        };
    }
    true
}

/// Replaces the stored cannons with the server's list, leaving placement
/// when none remain.
pub fn apply_stored_cannon_list(production: &mut BuildingProduction, stored_cannons: Vec<ObjectKind>)
    ensures
        final(production).stored_cannons@ == stored_cannons@,
        final(production).status == spec_status_after_stored_change(
            old(production).status, stored_cannons@, old(production).current),
        final(production).current == old(production).current,
        final(production).queue@ == old(production).queue@,
        final(production).unit_limit_reached == old(production).unit_limit_reached,
{
    production.stored_cannons = stored_cannons;
    if production.stored_cannons.len() == 0 && production.status == BuildingProductionStatus::Place {
        production.status = if production.current.is_some() {
            BuildingProductionStatus::Building
        } else {
            BuildingProductionStatus::Select
        };
    }
}

/// Sets a building's rally points to `point` alone, or appends `point` to
/// them when `append` (a shift-click).
pub fn apply_building_rally_point<P>(rally_points: &mut Vec<P>, point: P, append: bool)
    ensures
        final(rally_points)@ == (if append { old(rally_points)@.push(point) } else { seq![point] }),
{
    if !append {
        rally_points.clear();
    }
    rally_points.push(point);
    proof {
        if !append {
            assert(rally_points@ =~= seq![point]);
        }
    }
}

/// The route of a freshly built unit: out of the factory to `move_target`,
/// then along the building's rally points, in order.
pub open spec fn spec_production_spawn_route<P>(move_target: P, rally_points: Option<Seq<P>>) -> Seq<P> {
    match rally_points {
        Some(points) => seq![move_target] + points,
        None => seq![move_target],
    }
}

/// The points a freshly built unit walks: the factory exit, then the rally points.
pub fn production_spawn_route<P: Copy>(move_target: P, rally_points: Option<&Vec<P>>) -> (r: Vec<P>)
    ensures
        r@ == spec_production_spawn_route(move_target, match rally_points {
            Some(points) => Some(points@),
            None => None,
        }),
{
    let mut route: Vec<P> = Vec::new();
    route.push(move_target);
    match rally_points {
        Some(points) => {
            let mut i: usize = 0;
            while i < points.len()
                invariant
                    i <= points@.len(),
                    route@ == seq![move_target] + points@.take(i as int),
                decreases points@.len() - i,
            {
                route.push(points[i]);
                proof {
                    assert(points@.take(i + 1) =~= points@.take(i as int).push(points@[i as int]));
                    assert(route@ =~= seq![move_target] + points@.take(i + 1));
                }
                i = i + 1;
            }
            proof {
                assert(points@.take(i as int) =~= points@);
            }
        },
        None => {
            proof {
                assert(route@ =~= seq![move_target]);
            }
        },
    }
    route
}

/// The route of one member of a freshly built group: the group leader
/// follows the rally points, the others only leave the factory (they follow
/// their leader).
pub fn production_spawn_route_for_member<P: Copy>(move_target: P, rally_points: Option<&Vec<P>>, is_group_leader: bool) -> (r: Vec<P>)
    ensures
        r@ == (if is_group_leader {
            spec_production_spawn_route(move_target, match rally_points {
                Some(points) => Some(points@),
                None => None,
            })
        } else {
            seq![move_target]
        }),
{
    if is_group_leader {
        production_spawn_route(move_target, rally_points)
    } else {
        let mut route: Vec<P> = Vec::new();
        route.push(move_target);
        proof {
            assert(route@ =~= seq![move_target]);
        }
        route
    }
}

/// The waypoints of a freshly built unit: a forced move out of the factory
/// to `move_target`, then a rally move to each rally point, in order.
pub open spec fn spec_production_spawn_waypoints<P>(move_target: P, rally_points: Option<Seq<P>>) -> Seq<
    MovementWaypoint<P>,
> {
    match rally_points {
        Some(points) => seq![spec_force_move(move_target)] + points.map_values(|p: P| spec_rally_move(p)),
        None => seq![spec_force_move(move_target)],
    }
}

/// The waypoints a freshly built unit follows: out of the factory, then
/// along the rally points.
pub fn production_spawn_waypoints<P: Copy>(move_target: P, rally_points: Option<&Vec<P>>) -> (r: Vec<
    MovementWaypoint<P>,
>)
    ensures
        r@ == spec_production_spawn_waypoints(
            move_target,
            match rally_points {
                Some(points) => Some(points@),
                None => None,
            },
        ),
{
    let mut route: Vec<MovementWaypoint<P>> = Vec::new();
    route.push(MovementWaypoint::force_move(move_target));
    match rally_points {
        Some(points) => {
            let ghost start = seq![spec_force_move(move_target)];
            let mut i: usize = 0;
            while i < points.len()
                invariant
                    i <= points@.len(),
                    start == seq![spec_force_move(move_target)],
                    route@ == start + points@.take(i as int).map_values(|p: P| spec_rally_move(p)),
                decreases points@.len() - i,
            {
                route.push(MovementWaypoint::rally_move(points[i]));
                proof {
                    assert(points@.take(i + 1).map_values(|p: P| spec_rally_move(p)) =~= points@.take(
                        i as int,
                    ).map_values(|p: P| spec_rally_move(p)).push(spec_rally_move(points@[i as int])));
                    assert(route@ =~= start + points@.take(i + 1).map_values(|p: P| spec_rally_move(p)));
                }
                i = i + 1;
            }
            proof {
                assert(points@.take(i as int) =~= points@);
            }
        },
        None => {
            proof {
                assert(route@ =~= seq![spec_force_move(move_target)]);
            }
        },
    }
    route
}

/// The waypoints of one member of a freshly built group: the group leader
/// follows the rally points, the others only leave the factory.
pub fn production_spawn_waypoints_for_member<P: Copy>(
    move_target: P,
    rally_points: Option<&Vec<P>>,
    is_group_leader: bool,
) -> (r: Vec<MovementWaypoint<P>>)
    ensures
        r@ == (if is_group_leader {
            spec_production_spawn_waypoints(
                move_target,
                match rally_points {
                    Some(points) => Some(points@),
                    None => None,
                },
            )
        } else {
            seq![spec_force_move(move_target)]
        }),
{
    if is_group_leader {
        production_spawn_waypoints(move_target, rally_points)
    } else {
        let mut route: Vec<MovementWaypoint<P>> = Vec::new();
        route.push(MovementWaypoint::force_move(move_target));
        proof {
            assert(route@ =~= seq![spec_force_move(move_target)]);
        }
        route
    }
}

} // verus!
