//! Plain game-state values that the unit and building rules read and update.

use std::collections::VecDeque;
use vstd::prelude::*;

use crate::network_commands::SourceWaypointMode;
use crate::original::objects::ObjectKind;

verus! {

/// Tech level of a producing building; higher levels unlock longer build lists.
#[derive(Clone, Copy, Debug, PartialEq, Eq, Structural)]
pub enum ProductionLevel {
    Level0,
    Level1,
    Level2,
    Level3,
    Level4,
    Level5,
}

/// Which production window a building opens.
#[derive(Clone, Copy, Debug, PartialEq, Eq, Structural)]
pub enum ProductionWindowKind {
    Robot,
    Vehicle,
    Fort,
}

/// Health and combat capabilities of an object, in whole health points.
#[derive(Clone, Copy, Debug, PartialEq, Eq, Structural)]
pub struct ObjectStats {
    pub health: i32,
    pub max_health: i32,
    /// The object has a weapon it can fire.
    pub attack_capable: bool,
    /// The object's weapon deals explosive damage.
    pub explosive_damage: bool,
    /// Only explosive attacks can damage the object.
    pub attacked_only_by_explosives: bool,
}

/// Full health of `ObjectStats::from_kind`, which measures health in percent.
pub const PERCENT_MAX_HEALTH: i32 = 100;

impl ObjectStats {
    /// Whether the object has no health left.
    pub open spec fn spec_destroyed(self) -> bool {
        self.health <= 0
    }

    /// Whether the object has no health left.
    #[verifier::when_used_as_spec(spec_destroyed)]
    pub fn destroyed(self) -> (r: bool)
        ensures
            r == self.spec_destroyed(),
    {
        self.health <= 0
    }

    /// Whether the object can fire at all.
    pub fn can_attack(self) -> (r: bool)
        ensures
            r == self.attack_capable,
    {
        self.attack_capable
    }

    /// Whether the object's own weapon deals explosive damage.
    pub fn has_explosive_damage(self) -> (r: bool)
        ensures
            r == self.explosive_damage,
    {
        self.explosive_damage
    }

    /// Stats of an object of `kind` at `health_percent` of its full health, on a
    /// scale where full health is `PERCENT_MAX_HEALTH`; the percent is clamped
    /// to `0..=100` and no combat capability is set.
    pub fn from_kind(kind: ObjectKind, health_percent: i32) -> (r: ObjectStats)
        ensures
            r.max_health == PERCENT_MAX_HEALTH,
            r.health == (if health_percent < 0 { 0 } else if health_percent > 100 { 100 } else { health_percent }),
            !r.attack_capable,
            !r.explosive_damage,
            !r.attacked_only_by_explosives,
    {
        let health = if health_percent < 0 {
            0
        } else if health_percent > 100 {
            100
        } else {
            health_percent
        };
        ObjectStats {
            health,
            max_health: PERCENT_MAX_HEALTH,
            attack_capable: false,
            explosive_damage: false,
            attacked_only_by_explosives: false,
        }
    }
}

/// The number of a production level, from 0 to 5.
pub open spec fn spec_level_number(level: ProductionLevel) -> int {
    match level {
        ProductionLevel::Level0 => 0,
        ProductionLevel::Level1 => 1,
        ProductionLevel::Level2 => 2,
        ProductionLevel::Level3 => 3,
        ProductionLevel::Level4 => 4,
        ProductionLevel::Level5 => 5,
    }
}

/// Phase of a producing building.
#[derive(Clone, Copy, Debug, PartialEq, Eq, Structural)]
pub enum BuildingProductionStatus {
    /// Nothing is being built.
    Select,
    /// A unit is being built.
    Building,
    /// Building is held back.
    Paused,
    /// Built cannons wait to be placed.
    Place,
}

/// Production state of a factory or fort: the unit being built, the queue of
/// units to build next and the cannons that wait for placement. The build
/// timer itself is kept by the caller beside this state.
#[derive(Clone, Debug)]
pub struct BuildingProduction {
    pub status: BuildingProductionStatus,
    pub current: Option<ObjectKind>,
    pub queue: VecDeque<ObjectKind>,
    pub unit_limit_reached: bool,
    pub stored_cannons: Vec<ObjectKind>,
}

impl BuildingProduction {
    /// An idle production with an empty queue and no stored cannons.
    pub fn idle() -> (r: BuildingProduction)
        ensures
            r.status == BuildingProductionStatus::Select,
            r.current.is_none(),
            r.queue@.len() == 0,
            !r.unit_limit_reached,
            r.stored_cannons@.len() == 0,
    {
        BuildingProduction {
            status: BuildingProductionStatus::Select,
            current: None,
            queue: VecDeque::new(),
            unit_limit_reached: false,
            stored_cannons: Vec::new(),
        }
    }
}

/// A waypoint of a unit's movement path: where to go, what to do there,
/// the object it is about, whether to attack on the way and whether a
/// player gave it. `P` is the position type of the caller's map.
#[derive(Clone, Copy, Debug, PartialEq)]
pub struct MovementWaypoint<P> {
    pub position: P,
    pub mode: SourceWaypointMode,
    pub ref_id: Option<u32>,
    pub attack_to: bool,
    pub player_given: bool,
}

/// A forced move to `position`: no object, no attacking, not a player's.
pub open spec fn spec_force_move<P>(position: P) -> MovementWaypoint<P> {
    MovementWaypoint {
        position,
        mode: SourceWaypointMode::ForceMove,
        ref_id: None,
        attack_to: false,
        player_given: false,
    }
}

/// A move to a rally point: no object, attacking on the way, as a player's.
pub open spec fn spec_rally_move<P>(position: P) -> MovementWaypoint<P> {
    MovementWaypoint { position, mode: SourceWaypointMode::Move, ref_id: None, attack_to: true, player_given: true }
}

impl<P> MovementWaypoint<P> {
    /// A forced move to `position`, as a unit leaving its factory gets.
    pub fn force_move(position: P) -> (r: MovementWaypoint<P>)
        ensures
            r == spec_force_move(position),
    {
        MovementWaypoint {
            position,
            mode: SourceWaypointMode::ForceMove,
            ref_id: None,
            attack_to: false,
            player_given: false,
        }
    }

    /// A move to a rally point, attacking on the way, as a player's order.
    pub fn rally_move(position: P) -> (r: MovementWaypoint<P>)
        ensures
            r == spec_rally_move(position),
    {
        MovementWaypoint { position, mode: SourceWaypointMode::Move, ref_id: None, attack_to: true, player_given: true }
    }
}

} // verus!
