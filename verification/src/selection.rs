//! Selection and orders: cycling the selection through a player's units,
//! and the server's checks on the waypoints and rally points a player sends.

use vstd::prelude::*;

pub mod activation;
pub mod pending;
pub mod waypoint_rules;

use crate::components::ObjectStats;
use crate::network_commands::{SendRallypointsPacket, SendWaypointsPacket, SourceWaypoint, SourceWaypointMode};
use crate::original::objects::{ObjectKind, VehicleType};
use crate::original::types::TeamType;
use crate::units::attack::{
    can_attack_target_identity, spec_can_attack_target_identity, spec_unit_rating_will_die, unit_rating_will_die,
};
use crate::units::buildings::production_logic::{can_set_rallypoints, spec_can_set_rallypoints};
use crate::units::buildings::repair::repair_logic::{
    can_repair_target_unit, can_repair_unit, spec_can_repair_target_unit, spec_can_repair_unit,
};

verus! {

/// The kinds of unit the selection hotkeys cycle through.
#[derive(Clone, Copy, Debug, PartialEq, Eq, Structural)]
pub enum ObjectSelectionGroup {
    Robot,
    Vehicle,
    Cannon,
}

/// What selection cycling needs to know of an object on the map.
#[derive(Clone, Copy, Debug, PartialEq, Eq, Structural)]
pub struct SelectionCandidate {
    pub ref_id: u32,
    pub kind: ObjectKind,
    pub team: TeamType,
    pub destroyed: bool,
    pub leader_ref_id: Option<u32>,
}

/// Whether an object of `kind` belongs to a selection group.
pub open spec fn spec_object_matches_selection_group(kind: ObjectKind, group: ObjectSelectionGroup) -> bool {
    match group {
        ObjectSelectionGroup::Robot => kind is Robot,
        ObjectSelectionGroup::Vehicle => kind is Vehicle,
        ObjectSelectionGroup::Cannon => kind is Cannon,
    }
}

/// Whether an object of `kind` belongs to a selection group.
pub fn object_matches_selection_group(kind: ObjectKind, group: ObjectSelectionGroup) -> (r: bool)
    ensures
        r == spec_object_matches_selection_group(kind, group),
{
    match (group, kind) {
        (ObjectSelectionGroup::Robot, ObjectKind::Robot(_)) => true,
        (ObjectSelectionGroup::Vehicle, ObjectKind::Vehicle(_)) => true,
        (ObjectSelectionGroup::Cannon, ObjectKind::Cannon(_)) => true,
        _ => false,
    }
}

/// A candidate the hotkey can select: a standing object of `team` in
/// `group` that leads its group or has none.
pub open spec fn spec_selection_eligible(c: SelectionCandidate, group: ObjectSelectionGroup, team: TeamType) -> bool {
    &&& c.team == team
    &&& !c.destroyed
    &&& spec_object_matches_selection_group(c.kind, group)
    &&& (c.leader_ref_id is None || c.leader_ref_id == Some(c.ref_id))
}

/// Whether `candidates` hold an eligible candidate numbered `ref_id`
/// (above `floor`, when there is one).
pub open spec fn spec_eligible_ref(
    candidates: Seq<SelectionCandidate>,
    group: ObjectSelectionGroup,
    team: TeamType,
    floor: Option<u32>,
    ref_id: u32,
) -> bool {
    &&& exists|i: int| 0 <= i < candidates.len() && spec_selection_eligible(candidates[i], group, team) && candidates[i].ref_id == ref_id
    &&& match floor {
        Some(f) => ref_id > f,
        None => true,
    }
}

/// `ref_id` is the lowest eligible number (above `floor`, when there is one).
pub open spec fn spec_lowest_eligible_ref(
    candidates: Seq<SelectionCandidate>,
    group: ObjectSelectionGroup,
    team: TeamType,
    floor: Option<u32>,
    ref_id: u32,
) -> bool {
    &&& spec_eligible_ref(candidates, group, team, floor, ref_id)
    &&& forall|other: u32| #[trigger] spec_eligible_ref(candidates, group, team, floor, other) ==> ref_id <= other
}

/// Whether `r` is what the group hotkey selects after `last_ref`: nothing
/// when no candidate is eligible; otherwise the lowest eligible number above
/// `last_ref`, wrapping to the lowest eligible number when there is none
/// above it or no `last_ref`.
pub open spec fn spec_is_next_selection(
    candidates: Seq<SelectionCandidate>,
    group: ObjectSelectionGroup,
    team: TeamType,
    last_ref: Option<u32>,
    r: Option<u32>,
) -> bool {
    &&& r is None <==> !(exists|x: u32| spec_eligible_ref(candidates, group, team, None, x))
    &&& r matches Some(x) ==> {
        if last_ref is Some && exists|y: u32| spec_eligible_ref(candidates, group, team, last_ref, y) {
            spec_lowest_eligible_ref(candidates, group, team, last_ref, x)
        } else {
            spec_lowest_eligible_ref(candidates, group, team, None, x)
        }
    }
}

/// The object the hotkey selects next: the eligible candidates are taken in
/// order of their numbers, and the next one after `last_ref` is chosen,
/// wrapping to the lowest; with no `last_ref` the lowest is chosen; `None`
/// when no candidate is eligible.
pub fn next_ordered_selection_ref(
    candidates: &[SelectionCandidate],
    group: ObjectSelectionGroup,
    team: TeamType,
    last_ref: Option<u32>,
) -> (r: Option<u32>)
    ensures
        spec_is_next_selection(candidates@, group, team, last_ref, r),
{
    let mut lowest: Option<u32> = None;
    let mut lowest_above: Option<u32> = None;
    let mut i: usize = 0;
    while i < candidates.len()
        invariant
            i <= candidates@.len(),
            forall|x: u32| #[trigger] spec_eligible_ref(candidates@.take(i as int), group, team, None, x) ==> lowest is Some && lowest->0 <= x,
            lowest matches Some(m) ==> spec_eligible_ref(candidates@.take(i as int), group, team, None, m),
            last_ref is Some ==> (forall|x: u32| #[trigger] spec_eligible_ref(candidates@.take(i as int), group, team, last_ref, x) ==> lowest_above is Some && lowest_above->0 <= x),
            last_ref is Some ==> (lowest_above matches Some(m) ==> spec_eligible_ref(candidates@.take(i as int), group, team, last_ref, m)),
        decreases candidates@.len() - i,
    {
        let c = candidates[i];
        let matches_group = object_matches_selection_group(c.kind, group);
        let leads = match c.leader_ref_id {
            None => true,
            Some(leader) => leader == c.ref_id,
        };
        let eligible = c.team == team && !c.destroyed && matches_group && leads;
        let ghost before = candidates@.take(i as int);
        let ghost after = candidates@.take(i + 1);
        proof {
            assert(after =~= before.push(c));
            assert forall|floor: Option<u32>, x: u32| spec_eligible_ref(after, group, team, floor, x)
                implies spec_eligible_ref(before, group, team, floor, x) || (eligible && x == c.ref_id) by {
                let k = choose|k: int| 0 <= k < after.len() && spec_selection_eligible(after[k], group, team) && after[k].ref_id == x;
                if k < i {
                    assert(before[k] == after[k]);
                }
            }
            assert forall|floor: Option<u32>, x: u32| spec_eligible_ref(before, group, team, floor, x)
                implies spec_eligible_ref(after, group, team, floor, x) by {
                let k = choose|k: int| 0 <= k < before.len() && spec_selection_eligible(before[k], group, team) && before[k].ref_id == x;
                assert(after[k] == before[k]);
            }
            if eligible {
                assert(after[i as int] == c);
                assert(spec_eligible_ref(after, group, team, None, c.ref_id));
            }
        }
        if eligible {
            match lowest {
                None => lowest = Some(c.ref_id),
                Some(m) => if c.ref_id < m {
                    lowest = Some(c.ref_id);
                },
            }
            match last_ref {
                Some(l) => if c.ref_id > l {
                    proof {
                        assert(spec_eligible_ref(after, group, team, last_ref, c.ref_id));
                    }
                    match lowest_above {
                        None => lowest_above = Some(c.ref_id),
                        Some(m) => if c.ref_id < m {
                            lowest_above = Some(c.ref_id);
                        },
                    }
                },
                None => {},
            }
        }
        i = i + 1;
    }
    proof {
        assert(candidates@.take(i as int) =~= candidates@);
        assert forall|x: u32| spec_eligible_ref(candidates@, group, team, None, x) implies lowest is Some && lowest->0 <= x by {
            assert(spec_eligible_ref(candidates@.take(i as int), group, team, None, x));
        }
        assert forall|x: u32| last_ref is Some && spec_eligible_ref(candidates@, group, team, last_ref, x)
            implies lowest_above is Some && lowest_above->0 <= x by {
            assert(spec_eligible_ref(candidates@.take(i as int), group, team, last_ref, x));
        }
        if lowest is Some {
            assert(spec_eligible_ref(candidates@, group, team, None, lowest->0));
        } else {
            assert(!(exists|x: u32| spec_eligible_ref(candidates@, group, team, None, x)));
        }
        if last_ref is Some && lowest_above is Some {
            assert(spec_eligible_ref(candidates@, group, team, last_ref, lowest_above->0));
            assert(spec_eligible_ref(candidates@, group, team, None, lowest_above->0));
        }
    }
    let r = match last_ref {
        None => lowest,
        Some(_) => match lowest_above {
            Some(m) => Some(m),
            None => lowest,
        },
    };
    r
}

/// What the server's order checks know of an object on the map. Besides its
/// state it carries what the rules of entering, fort entry, crane repair and
/// grenade pickup say of it, worked out for the team that gives the order.
#[derive(Clone, Copy, Debug, PartialEq, Eq, Structural)]
pub struct MouseCommandObjectSnapshot {
    pub ref_id: u32,
    pub kind: ObjectKind,
    pub team: TeamType,
    pub stats: ObjectStats,
    /// The object can move at all.
    pub mobile: bool,
    /// Its move speed is above zero.
    pub has_move_speed: bool,
    pub group_leader_ref_id: Option<u32>,
    pub grenade_amount: Option<u8>,
    /// A robot may climb into it.
    pub can_be_entered: bool,
    /// Units of the ordering team may enter it as a fort.
    pub can_enter_fort: bool,
    /// A crane of the ordering team may repair it.
    pub crane_can_repair: bool,
    /// It may pick up grenades now.
    pub can_pickup_grenades: bool,
    /// It is a grenade box.
    pub is_grenade_box: bool,
}

/// An object can move when it is mobile, has speed and stands.
pub open spec fn spec_source_can_move(o: MouseCommandObjectSnapshot) -> bool {
    o.mobile && o.has_move_speed && !o.stats.spec_destroyed()
}

/// Whether an object can move.
pub fn source_can_move(o: &MouseCommandObjectSnapshot) -> (r: bool)
    ensures
        r == spec_source_can_move(*o),
{
    o.mobile && o.has_move_speed && !o.stats.destroyed()
}

/// Standing robots, vehicles and cannons take waypoints.
pub open spec fn spec_source_can_set_waypoints(o: MouseCommandObjectSnapshot) -> bool {
    !o.stats.spec_destroyed() && (o.kind is Robot || o.kind is Vehicle || o.kind is Cannon)
}

/// Whether an object takes waypoints.
pub fn source_can_set_waypoints(o: &MouseCommandObjectSnapshot) -> (r: bool)
    ensures
        r == spec_source_can_set_waypoints(*o),
{
    let unit = match o.kind {
        ObjectKind::Robot(_) | ObjectKind::Vehicle(_) | ObjectKind::Cannon(_) => true,
        _ => false,
    };
    !o.stats.destroyed() && unit
}

/// A minion is a group member that is not its group's leader.
pub open spec fn spec_source_is_minion(o: MouseCommandObjectSnapshot) -> bool {
    match o.group_leader_ref_id {
        Some(leader) => leader != o.ref_id,
        None => false,
    }
}

/// Whether an object follows another unit as a group member.
pub fn source_is_minion(o: &MouseCommandObjectSnapshot) -> (r: bool)
    ensures
        r == spec_source_is_minion(*o),
{
    match o.group_leader_ref_id {
        Some(leader) => leader != o.ref_id,
        None => false,
    }
}

/// The first snapshot of object `ref_id`.
pub open spec fn spec_snapshot_for_ref(ref_id: u32, snapshots: Seq<MouseCommandObjectSnapshot>) -> Option<MouseCommandObjectSnapshot>
    decreases snapshots.len(),
{
    if snapshots.len() == 0 {
        None
    } else if snapshots[0].ref_id == ref_id {
        Some(snapshots[0])
    } else {
        spec_snapshot_for_ref(ref_id, snapshots.drop_first())
    }
}

/// The first snapshot of object `ref_id`, if there is one.
pub fn source_snapshot_for_ref(ref_id: u32, snapshots: &[MouseCommandObjectSnapshot]) -> (r: Option<MouseCommandObjectSnapshot>)
    ensures
        r == spec_snapshot_for_ref(ref_id, snapshots@),
{
    let mut i: usize = 0;
    proof {
        assert(snapshots@.subrange(0, snapshots@.len() as int) =~= snapshots@);
    }
    while i < snapshots.len()
        invariant
            i <= snapshots@.len(),
            spec_snapshot_for_ref(ref_id, snapshots@) == spec_snapshot_for_ref(ref_id, snapshots@.subrange(i as int, snapshots@.len() as int)),
        decreases snapshots@.len() - i,
    {
        proof {
            let rest = snapshots@.subrange(i as int, snapshots@.len() as int);
            assert(rest[0] == snapshots@[i as int]);
            assert(rest.drop_first() =~= snapshots@.subrange(i + 1, snapshots@.len() as int));
        }
        if snapshots[i].ref_id == ref_id {
            return Some(snapshots[i]);
        }
        i = i + 1;
    }
    proof {
        assert(snapshots@.subrange(i as int, snapshots@.len() as int).len() == 0);
    }
    None
}

/// The object a waypoint is about: none for a negative number.
pub open spec fn spec_waypoint_target(w: SourceWaypoint, snapshots: Seq<MouseCommandObjectSnapshot>) -> Option<MouseCommandObjectSnapshot> {
    if w.ref_id < 0 {
        None
    } else {
        spec_snapshot_for_ref(w.ref_id as u32, snapshots)
    }
}

fn source_waypoint_target(w: SourceWaypoint, snapshots: &[MouseCommandObjectSnapshot]) -> (r: Option<MouseCommandObjectSnapshot>)
    ensures
        r == spec_waypoint_target(w, snapshots@),
{
    if w.ref_id < 0 {
        None
    } else {
        source_snapshot_for_ref(w.ref_id as u32, snapshots)
    }
}

/// An attack waypoint stands when the object may attack its target.
pub open spec fn spec_source_can_attack_object(attacker: MouseCommandObjectSnapshot, target: MouseCommandObjectSnapshot) -> bool {
    spec_can_attack_target_identity(
        attacker.team,
        attacker.stats,
        match attacker.grenade_amount { Some(amount) => amount, None => 0 },
        target.team,
        target.stats,
    )
}

/// Whether `attacker` may attack `target`: by team, health and explosives,
/// counting an attacker without a grenade inventory as holding none.
pub fn source_can_attack_object(attacker: &MouseCommandObjectSnapshot, target: &MouseCommandObjectSnapshot) -> (r: bool)
    ensures
        r == spec_source_can_attack_object(*attacker, *target),
{
    let grenades = match attacker.grenade_amount {
        Some(amount) => amount,
        None => 0,
    };
    can_attack_target_identity(attacker.team, attacker.stats, grenades, target.team, target.stats)
}

/// The server's check of one waypoint for object `o`: it drops the attack
/// flag of an object that cannot attack, turns forced moves and dodges into
/// moves and aggression into attacks, and refuses the waypoint (`None`)
/// when the object cannot carry it out: it cannot move where moving is
/// needed, the target is missing, or the target's rules refuse.
pub open spec fn spec_source_check_waypoint(
    o: MouseCommandObjectSnapshot,
    w: SourceWaypoint,
    snapshots: Seq<MouseCommandObjectSnapshot>,
) -> Option<SourceWaypoint> {
    let w1 = if o.stats.attack_capable { w } else { SourceWaypoint { attack_to: false, ..w } };
    let target = spec_waypoint_target(w, snapshots);
    let moves = spec_source_can_move(o);
    match w.mode {
        SourceWaypointMode::Move => if moves { Some(w1) } else { None },
        SourceWaypointMode::ForceMove | SourceWaypointMode::Dodge => if moves {
            Some(SourceWaypoint { mode: SourceWaypointMode::Move, ..w1 })
        } else {
            None
        },
        SourceWaypointMode::Agro => Some(SourceWaypoint { mode: SourceWaypointMode::Attack, ..w1 }),
        SourceWaypointMode::Attack => match target {
            Some(t) => if spec_source_can_attack_object(o, t) { Some(w1) } else { None },
            None => None,
        },
        SourceWaypointMode::Enter => match target {
            Some(t) => if moves && o.kind is Robot && t.can_be_entered { Some(w1) } else { None },
            None => None,
        },
        SourceWaypointMode::CraneRepair => match target {
            Some(t) => if moves && o.kind == ObjectKind::Vehicle(VehicleType::Crane) && t.crane_can_repair { Some(w1) } else { None },
            None => None,
        },
        SourceWaypointMode::UnitRepair => match target {
            Some(t) => if moves && spec_can_repair_target_unit(o.kind, o.team, o.stats)
                && spec_can_repair_unit(t.kind, t.team, o.team, t.stats) {
                Some(w1)
            } else {
                None
            },
            None => None,
        },
        SourceWaypointMode::EnterFort => match target {
            Some(t) => if moves && t.can_enter_fort { Some(w1) } else { None },
            None => None,
        },
        SourceWaypointMode::PickupGrenades => match target {
            Some(t) => if moves && o.can_pickup_grenades && !t.stats.spec_destroyed() && t.is_grenade_box { Some(w1) } else { None },
            None => None,
        },
    }
}

/// Checks one waypoint for object `o`.
pub fn source_check_waypoint(
    o: &MouseCommandObjectSnapshot,
    waypoint: SourceWaypoint,
    snapshots: &[MouseCommandObjectSnapshot],
) -> (r: Option<SourceWaypoint>)
    ensures
        r == spec_source_check_waypoint(*o, waypoint, snapshots@),
{
    let mut w = waypoint;
    if !o.stats.can_attack() {
        w.attack_to = false;
    }
    match waypoint.mode {
        SourceWaypointMode::Move => {
            if !source_can_move(o) {
                return None;
            }
        },
        SourceWaypointMode::ForceMove | SourceWaypointMode::Dodge => {
            if !source_can_move(o) {
                return None;
            }
            w.mode = SourceWaypointMode::Move;
        },
        SourceWaypointMode::Agro => {
            w.mode = SourceWaypointMode::Attack;
        },
        SourceWaypointMode::Attack => {
            let target = match source_waypoint_target(waypoint, snapshots) {
                Some(t) => t,
                None => return None,
            };
            if !source_can_attack_object(o, &target) {
                return None;
            }
        },
        SourceWaypointMode::Enter => {
            let robot = match o.kind {
                ObjectKind::Robot(_) => true,
                _ => false,
            };
            if !source_can_move(o) || !robot {
                return None;
            }
            let target = match source_waypoint_target(waypoint, snapshots) {
                Some(t) => t,
                None => return None,
            };
            if !target.can_be_entered {
                return None;
            }
        },
        SourceWaypointMode::CraneRepair => {
            let crane = match o.kind {
                ObjectKind::Vehicle(VehicleType::Crane) => true,
                _ => false,
            };
            if !source_can_move(o) || !crane {
                return None;
            }
            let target = match source_waypoint_target(waypoint, snapshots) {
                Some(t) => t,
                None => return None,
            };
            if !target.crane_can_repair {
                return None;
            }
        },
        SourceWaypointMode::UnitRepair => {
            if !source_can_move(o) || !can_repair_target_unit(o.kind, o.team, o.stats) {
                return None;
            }
            let target = match source_waypoint_target(waypoint, snapshots) {
                Some(t) => t,
                None => return None,
            };
            if !can_repair_unit(target.kind, target.team, o.team, target.stats) {
                return None;
            }
        },
        SourceWaypointMode::EnterFort => {
            if !source_can_move(o) {
                return None;
            }
            let target = match source_waypoint_target(waypoint, snapshots) {
                Some(t) => t,
                None => return None,
            };
            if !target.can_enter_fort {
                return None;
            }
        },
        SourceWaypointMode::PickupGrenades => {
            if !source_can_move(o) || !o.can_pickup_grenades {
                return None;
            }
            let target = match source_waypoint_target(waypoint, snapshots) {
                Some(t) => t,
                None => return None,
            };
            if target.stats.destroyed() || !target.is_grenade_box {
                return None;
            }
        },
    }
    Some(w)
}

/// A waypoint the server may replace: anything but a forced move.
pub open spec fn spec_source_can_overwrite_waypoint(w: SourceWaypoint) -> bool {
    w.mode != SourceWaypointMode::ForceMove
}

/// The current first waypoint of an object when a new order may not replace it.
pub open spec fn spec_source_preserved_existing_waypoint(existing: Seq<SourceWaypoint>) -> Option<SourceWaypoint> {
    if existing.len() > 0 && !spec_source_can_overwrite_waypoint(existing[0]) {
        Some(existing[0])
    } else {
        None
    }
}

/// The current first waypoint, kept when it is a forced move.
pub fn source_preserved_existing_waypoint(existing: &[SourceWaypoint]) -> (r: Option<SourceWaypoint>)
    ensures
        r == spec_source_preserved_existing_waypoint(existing@),
{
    if existing.len() > 0 && existing[0].mode == SourceWaypointMode::ForceMove {
        Some(existing[0])
    } else {
        None
    }
}

/// Whether two waypoints are the same in every field.
pub fn source_waypoint_matches_preserved(left: SourceWaypoint, right: SourceWaypoint) -> (r: bool)
    ensures
        r == (left == right),
{
    left.mode == right.mode && left.ref_id == right.ref_id && left.x == right.x && left.y == right.y
        && left.attack_to == right.attack_to && left.player_given == right.player_given
}

/// The waypoints that pass the check, in order, leaving out the first one
/// when `skip_first`.
pub open spec fn spec_accepted_waypoints(
    o: MouseCommandObjectSnapshot,
    waypoints: Seq<SourceWaypoint>,
    snapshots: Seq<MouseCommandObjectSnapshot>,
    skip_first: bool,
) -> Seq<SourceWaypoint>
    decreases waypoints.len(),
{
    if waypoints.len() == 0 {
        Seq::empty()
    } else {
        let before = spec_accepted_waypoints(o, waypoints.drop_last(), snapshots, skip_first);
        if skip_first && waypoints.len() == 1 {
            before
        } else {
            match spec_source_check_waypoint(o, waypoints.last(), snapshots) {
                Some(w) => before.push(w),
                None => before,
            }
        }
    }
}

/// What the server keeps of a waypoint order for object `ref_id` of team
/// `ok_team`: nothing (`None`) when the object is unknown, unowned, of
/// another team, cannot take waypoints or follows a group leader; otherwise
/// the forced move it is carrying out, if any, followed by the sent
/// waypoints that pass the check (a copy of that forced move at the front of
/// the order is not taken twice).
pub open spec fn spec_source_process_waypoint_data(
    ref_id: i32,
    waypoints: Seq<SourceWaypoint>,
    ok_team: TeamType,
    snapshots: Seq<MouseCommandObjectSnapshot>,
    existing: Seq<SourceWaypoint>,
) -> Option<Seq<SourceWaypoint>> {
    if ref_id < 0 {
        None
    } else {
        match spec_snapshot_for_ref(ref_id as u32, snapshots) {
            None => None,
            Some(o) => if o.team == TeamType::Null || o.team != ok_team || !spec_source_can_set_waypoints(o) || spec_source_is_minion(o) {
                None
            } else {
                let preserved = spec_source_preserved_existing_waypoint(existing);
                match preserved {
                    Some(first) => Some(seq![first] + spec_accepted_waypoints(
                        o,
                        waypoints,
                        snapshots,
                        waypoints.len() > 0 && waypoints[0] == first,
                    )),
                    None => Some(spec_accepted_waypoints(o, waypoints, snapshots, false)),
                }
            },
        }
    }
}

/// The server's handling of a waypoint order.
pub fn source_process_waypoint_data(
    packet: &SendWaypointsPacket,
    ok_team: TeamType,
    snapshots: &[MouseCommandObjectSnapshot],
    existing_waypoints: &[SourceWaypoint],
) -> (r: Option<Vec<SourceWaypoint>>)
    ensures
        match spec_source_process_waypoint_data(packet.ref_id, packet.waypoints@, ok_team, snapshots@, existing_waypoints@) {
            Some(accepted) => r is Some && r->0@ == accepted,
            None => r is None,
        },
{
    if packet.ref_id < 0 {
        return None;
    }
    let o = match source_snapshot_for_ref(packet.ref_id as u32, snapshots) {
        Some(o) => o,
        None => return None,
    };
    if o.team == TeamType::Null || o.team != ok_team {
        return None;
    }
    if !source_can_set_waypoints(&o) || source_is_minion(&o) {
        return None;
    }
    let mut accepted: Vec<SourceWaypoint> = Vec::new();
    let preserved = source_preserved_existing_waypoint(existing_waypoints);
    let skip_first = match preserved {
        Some(first) => {
            accepted.push(first);
            packet.waypoints.len() > 0 && source_waypoint_matches_preserved(first, packet.waypoints[0])
        },
        None => false,
    };
    let ghost base = accepted@;
    let ws = &packet.waypoints;
    let mut i: usize = 0;
    while i < ws.len()
        invariant
            i <= ws@.len(),
            accepted@ == base + spec_accepted_waypoints(o, ws@.take(i as int), snapshots@, skip_first),
        decreases ws@.len() - i,
    {
        proof {
            assert(ws@.take(i + 1).drop_last() =~= ws@.take(i as int));
            assert(ws@.take(i + 1).last() == ws@[i as int]);
        }
        if !(skip_first && i == 0) {
            match source_check_waypoint(&o, ws[i], snapshots) {
                Some(w) => {
                    accepted.push(w);
                },
                None => {},
            }
        }
        proof {
            assert(accepted@ =~= base + spec_accepted_waypoints(o, ws@.take(i + 1), snapshots@, skip_first));
        }
        i = i + 1;
    }
    proof {
        assert(ws@.take(i as int) =~= ws@);
        match preserved {
            Some(first) => {
                assert(base =~= seq![first]);
            },
            None => {
                assert(base =~= Seq::<SourceWaypoint>::empty());
            },
        }
    }
    Some(accepted)
}

/// The move waypoints of a rally point order.
pub open spec fn spec_move_waypoints(waypoints: Seq<SourceWaypoint>) -> Seq<SourceWaypoint> {
    waypoints.filter(|w: SourceWaypoint| w.mode == SourceWaypointMode::Move)
}

/// What the server keeps of a rally point order for building `ref_id` of
/// team `ok_team`: nothing (`None`) when the building is unknown, unowned,
/// of another team, destroyed or does not take rally points; otherwise its
/// move waypoints, in order.
pub open spec fn spec_source_process_rallypoint_data(
    ref_id: i32,
    waypoints: Seq<SourceWaypoint>,
    ok_team: TeamType,
    snapshots: Seq<MouseCommandObjectSnapshot>,
) -> Option<Seq<SourceWaypoint>> {
    if ref_id < 0 {
        None
    } else {
        match spec_snapshot_for_ref(ref_id as u32, snapshots) {
            None => None,
            Some(o) => if o.team == TeamType::Null || o.team != ok_team || o.stats.spec_destroyed() || !spec_can_set_rallypoints(o.kind) {
                None
            } else {
                Some(spec_move_waypoints(waypoints))
            },
        }
    }
}

/// A rally point must be a move.
pub fn source_check_rallypoint(waypoint: SourceWaypoint) -> (r: Option<SourceWaypoint>)
    ensures
        r == (if waypoint.mode == SourceWaypointMode::Move { Some(waypoint) } else { None::<SourceWaypoint> }),
{
    if waypoint.mode == SourceWaypointMode::Move {
        Some(waypoint)
    } else {
        None
    }
}

/// The server's handling of a rally point order.
pub fn source_process_rallypoint_data(
    packet: &SendRallypointsPacket,
    ok_team: TeamType,
    snapshots: &[MouseCommandObjectSnapshot],
) -> (r: Option<Vec<SourceWaypoint>>)
    ensures
        match spec_source_process_rallypoint_data(packet.ref_id, packet.waypoints@, ok_team, snapshots@) {
            Some(accepted) => r is Some && r->0@ == accepted,
            None => r is None,
        },
{
    if packet.ref_id < 0 {
        return None;
    }
    let o = match source_snapshot_for_ref(packet.ref_id as u32, snapshots) {
        Some(o) => o,
        None => return None,
    };
    if o.team == TeamType::Null || o.team != ok_team {
        return None;
    }
    if o.stats.destroyed() || !can_set_rallypoints(o.kind) {
        return None;
    }
    let ws = &packet.waypoints;
    let mut accepted: Vec<SourceWaypoint> = Vec::new();
    let mut i: usize = 0;
    while i < ws.len()
        invariant
            i <= ws@.len(),
            accepted@ == spec_move_waypoints(ws@.take(i as int)),
        decreases ws@.len() - i,
    {
        proof {
            reveal(Seq::filter);
            assert(ws@.take(i + 1).drop_last() =~= ws@.take(i as int));
            assert(ws@.take(i + 1).last() == ws@[i as int]);
        }
        match source_check_rallypoint(ws[i]) {
            Some(w) => {
                accepted.push(w);
            },
            None => {},
        }
        i = i + 1;
    }
    proof {
        assert(ws@.take(i as int) =~= ws@);
    }
    Some(accepted)
}

/// A waypoint the check lets through asks for a move, an attack or one of
/// the special orders, never a forced move, a dodge or aggression: forced
/// moves and dodges become moves, aggression becomes an attack, and every
/// other order keeps its mode. It keeps the sent target, position and player
/// flag, and it keeps the sent attack-on-the-way flag exactly when the object
/// can attack (an object that cannot attack loses it).
pub proof fn lemma_checked_waypoint_shape(o: MouseCommandObjectSnapshot, w: SourceWaypoint, snapshots: Seq<MouseCommandObjectSnapshot>)
    requires
        spec_source_check_waypoint(o, w, snapshots) is Some,
    ensures
        ({
            let c = spec_source_check_waypoint(o, w, snapshots)->0;
            &&& c.mode != SourceWaypointMode::ForceMove
            &&& c.mode != SourceWaypointMode::Dodge
            &&& c.mode != SourceWaypointMode::Agro
            &&& c.ref_id == w.ref_id && c.x == w.x && c.y == w.y && c.player_given == w.player_given
            &&& c.attack_to == (w.attack_to && o.stats.attack_capable)
            &&& c.mode == (match w.mode {
                SourceWaypointMode::ForceMove | SourceWaypointMode::Dodge => SourceWaypointMode::Move,
                SourceWaypointMode::Agro => SourceWaypointMode::Attack,
                _ => w.mode,
            })
        }),
{
}

/// Checking a waypoint the check has let through lets it through unchanged,
/// so relaying an accepted order again changes nothing; aggression is left
/// out, because it becomes an attack without its target being checked.
pub proof fn lemma_check_waypoint_idempotent(o: MouseCommandObjectSnapshot, w: SourceWaypoint, snapshots: Seq<MouseCommandObjectSnapshot>)
    requires
        w.mode != SourceWaypointMode::Agro,
        spec_source_check_waypoint(o, w, snapshots) is Some,
    ensures
        spec_source_check_waypoint(o, spec_source_check_waypoint(o, w, snapshots)->0, snapshots)
            == spec_source_check_waypoint(o, w, snapshots),
{
}

/// The last object each group hotkey selected.
#[derive(Clone, Copy, Debug, PartialEq, Eq, Structural)]
pub struct HudCommandState {
    pub last_robot_ref: Option<u32>,
    pub last_vehicle_ref: Option<u32>,
    pub last_cannon_ref: Option<u32>,
}

/// The last object a group hotkey selected.
pub open spec fn spec_last_selected_group_ref(state: HudCommandState, group: ObjectSelectionGroup) -> Option<u32> {
    match group {
        ObjectSelectionGroup::Robot => state.last_robot_ref,
        ObjectSelectionGroup::Vehicle => state.last_vehicle_ref,
        ObjectSelectionGroup::Cannon => state.last_cannon_ref,
    }
}

/// The state with the last selection of `group` set to `ref_id`.
pub open spec fn spec_with_last_selected_group_ref(state: HudCommandState, group: ObjectSelectionGroup, ref_id: Option<u32>) -> HudCommandState {
    match group {
        ObjectSelectionGroup::Robot => HudCommandState { last_robot_ref: ref_id, ..state },
        ObjectSelectionGroup::Vehicle => HudCommandState { last_vehicle_ref: ref_id, ..state },
        ObjectSelectionGroup::Cannon => HudCommandState { last_cannon_ref: ref_id, ..state },
    }
}

/// The last object a group hotkey selected.
pub fn last_selected_group_ref(state: &HudCommandState, group: ObjectSelectionGroup) -> (r: Option<u32>)
    ensures
        r == spec_last_selected_group_ref(*state, group),
{
    match group {
        ObjectSelectionGroup::Robot => state.last_robot_ref,
        ObjectSelectionGroup::Vehicle => state.last_vehicle_ref,
        ObjectSelectionGroup::Cannon => state.last_cannon_ref,
    }
}

/// Records the last object a group hotkey selected.
pub fn set_last_selected_group_ref(state: &mut HudCommandState, group: ObjectSelectionGroup, ref_id: Option<u32>)
    ensures
        *final(state) == spec_with_last_selected_group_ref(*old(state), group, ref_id),
{
    match group {
        ObjectSelectionGroup::Robot => state.last_robot_ref = ref_id,
        ObjectSelectionGroup::Vehicle => state.last_vehicle_ref = ref_id,
        ObjectSelectionGroup::Cannon => state.last_cannon_ref = ref_id,
    }
}

/// One press of a group hotkey: the object it selects, if any, which it
/// records as the group's last selection; with nothing to select the state
/// stays as it was.
pub fn select_next_group_ref(
    state: &mut HudCommandState,
    candidates: &[SelectionCandidate],
    group: ObjectSelectionGroup,
    team: TeamType,
) -> (r: Option<u32>)
    ensures
        spec_is_next_selection(candidates@, group, team, spec_last_selected_group_ref(*old(state), group), r),
        r is Some ==> *final(state) == spec_with_last_selected_group_ref(*old(state), group, r),
        r is None ==> *final(state) == *old(state),
{
    let last_ref = last_selected_group_ref(state, group);
    let next = next_ordered_selection_ref(candidates, group, team, last_ref);
    if next.is_some() {
        set_last_selected_group_ref(state, group, next);
    }
    next
}

/// Pressing one group hotkey leaves the memory of the other groups alone.
pub proof fn lemma_group_memory_is_separate(state: HudCommandState, group: ObjectSelectionGroup, other: ObjectSelectionGroup, ref_id: Option<u32>)
    requires
        group != other,
    ensures
        spec_last_selected_group_ref(spec_with_last_selected_group_ref(state, group, ref_id), other)
            == spec_last_selected_group_ref(state, other),
        spec_last_selected_group_ref(spec_with_last_selected_group_ref(state, group, ref_id), group) == ref_id,
{
}

/// Whether `refs` hold `ref_id`.
pub fn refs_contain(refs: &[u32], ref_id: u32) -> (r: bool)
    ensures
        r == refs@.contains(ref_id),
{
    let mut i: usize = 0;
    while i < refs.len()
        invariant
            i <= refs@.len(),
            forall|j: int| 0 <= j < i ==> refs@[j] != ref_id,
        decreases refs@.len() - i,
    {
        if refs[i] == ref_id {
            return true;
        }
        i = i + 1;
    }
    false
}

/// An object an order reaches: a standing object that is selected itself or
/// whose group leader is selected.
pub open spec fn spec_order_reaches(selected_refs: Seq<u32>, o: MouseCommandObjectSnapshot) -> bool {
    &&& !o.stats.spec_destroyed()
    &&& (match o.group_leader_ref_id {
        Some(leader) => selected_refs.contains(leader),
        None => false,
    } || selected_refs.contains(o.ref_id))
}

/// The objects an order reaches, in snapshot order, each once.
pub open spec fn spec_expand_selected_refs(selected_refs: Seq<u32>, snapshots: Seq<MouseCommandObjectSnapshot>) -> Seq<u32>
    decreases snapshots.len(),
{
    if snapshots.len() == 0 {
        Seq::empty()
    } else {
        let before = spec_expand_selected_refs(selected_refs, snapshots.drop_last());
        let o = snapshots.last();
        if spec_order_reaches(selected_refs, o) && !before.contains(o.ref_id) {
            before.push(o.ref_id)
        } else {
            before
        }
    }
}

/// The objects an order given to the selection reaches: the selected
/// objects and the members of selected groups, standing ones only, each
/// once, in snapshot order.
pub fn expand_selected_refs_for_orders_from_snapshots(
    selected_refs: &[u32],
    snapshots: &[MouseCommandObjectSnapshot],
) -> (r: Vec<u32>)
    ensures
        r@ == spec_expand_selected_refs(selected_refs@, snapshots@),
        r@.no_duplicates(),
{
    let mut refs: Vec<u32> = Vec::new();
    let mut i: usize = 0;
    while i < snapshots.len()
        invariant
            i <= snapshots@.len(),
            refs@ == spec_expand_selected_refs(selected_refs@, snapshots@.take(i as int)),
            refs@.no_duplicates(),
        decreases snapshots@.len() - i,
    {
        let o = snapshots[i];
        proof {
            assert(snapshots@.take(i + 1).drop_last() =~= snapshots@.take(i as int));
            assert(snapshots@.take(i + 1).last() == o);
        }
        if !o.stats.destroyed() {
            let by_leader = match o.group_leader_ref_id {
                Some(leader) => refs_contain(selected_refs, leader),
                None => false,
            };
            let selected = by_leader || refs_contain(selected_refs, o.ref_id);
            if selected && !refs_contain(refs.as_slice(), o.ref_id) {
                refs.push(o.ref_id);
            }
        }
        i = i + 1;
    }
    proof {
        assert(snapshots@.take(i as int) =~= snapshots@);
    }
    refs
}

/// The kind last listed for object `ref_id`.
pub open spec fn spec_last_kind_of(ref_id: u32, kinds: Seq<(u32, ObjectKind)>) -> Option<ObjectKind>
    decreases kinds.len(),
{
    if kinds.len() == 0 {
        None
    } else if kinds.last().0 == ref_id {
        Some(kinds.last().1)
    } else {
        spec_last_kind_of(ref_id, kinds.drop_last())
    }
}

/// An attack order is hopeless when one unit alone is sent against a target
/// the rating rules expect it to die against.
pub open spec fn spec_attack_command_no_way(selected_refs: Seq<u32>, target_ref_id: u32, kinds: Seq<(u32, ObjectKind)>) -> bool {
    &&& selected_refs.len() == 1
    &&& match (spec_last_kind_of(selected_refs[0], kinds), spec_last_kind_of(target_ref_id, kinds)) {
        (Some(attacker), Some(victim)) => spec_unit_rating_will_die(attacker, victim),
        _ => false,
    }
}

/// Whether an attack order of the selection against `target_ref_id` is
/// hopeless; `object_kinds` lists the objects on the map.
pub fn attack_command_no_way(selected_refs: &[u32], target_ref_id: u32, object_kinds: &[(u32, ObjectKind)]) -> (r: bool)
    ensures
        r == spec_attack_command_no_way(selected_refs@, target_ref_id, object_kinds@),
{
    if selected_refs.len() != 1 {
        return false;
    }
    let selected_ref = selected_refs[0];
    let mut attacker: Option<ObjectKind> = None;
    let mut victim: Option<ObjectKind> = None;
    let mut i: usize = 0;
    while i < object_kinds.len()
        invariant
            i <= object_kinds@.len(),
            attacker == spec_last_kind_of(selected_ref, object_kinds@.take(i as int)),
            victim == spec_last_kind_of(target_ref_id, object_kinds@.take(i as int)),
        decreases object_kinds@.len() - i,
    {
        let (ref_id, kind) = object_kinds[i];
        proof {
            assert(object_kinds@.take(i + 1).drop_last() =~= object_kinds@.take(i as int));
            assert(object_kinds@.take(i + 1).last() == object_kinds@[i as int]);
        }
        if ref_id == selected_ref {
            attacker = Some(kind);
        }
        if ref_id == target_ref_id {
            victim = Some(kind);
        }
        i = i + 1;
    }
    proof {
        assert(object_kinds@.take(i as int) =~= object_kinds@);
    }
    match (attacker, victim) {
        (Some(a), Some(v)) => unit_rating_will_die(a, v),
        _ => false,
    }
}

/// The first standing candidate numbered `ref_id`.
pub open spec fn spec_first_standing(ref_id: u32, candidates: Seq<SelectionCandidate>) -> Option<SelectionCandidate>
    decreases candidates.len(),
{
    if candidates.len() == 0 {
        None
    } else if candidates[0].ref_id == ref_id && !candidates[0].destroyed {
        Some(candidates[0])
    } else {
        spec_first_standing(ref_id, candidates.drop_first())
    }
}

fn first_standing(ref_id: u32, candidates: &[SelectionCandidate]) -> (r: Option<SelectionCandidate>)
    ensures
        r == spec_first_standing(ref_id, candidates@),
{
    let mut i: usize = 0;
    proof {
        assert(candidates@.subrange(0, candidates@.len() as int) =~= candidates@);
    }
    while i < candidates.len()
        invariant
            i <= candidates@.len(),
            spec_first_standing(ref_id, candidates@) == spec_first_standing(ref_id, candidates@.subrange(i as int, candidates@.len() as int)),
        decreases candidates@.len() - i,
    {
        proof {
            let rest = candidates@.subrange(i as int, candidates@.len() as int);
            assert(rest[0] == candidates@[i as int]);
            assert(rest.drop_first() =~= candidates@.subrange(i + 1, candidates@.len() as int));
        }
        if candidates[i].ref_id == ref_id && !candidates[i].destroyed {
            return Some(candidates[i]);
        }
        i = i + 1;
    }
    proof {
        assert(candidates@.subrange(i as int, candidates@.len() as int).len() == 0);
    }
    None
}

/// The object a click on `ref_id` selects: the leader of its group when the
/// object stands, has a group and the leader stands too; otherwise the object.
pub open spec fn spec_normalized_selection_ref(ref_id: u32, candidates: Seq<SelectionCandidate>) -> u32 {
    match spec_first_standing(ref_id, candidates) {
        Some(c) => match c.leader_ref_id {
            Some(leader) => if spec_first_standing(leader, candidates) is Some { leader } else { ref_id },
            None => ref_id,
        },
        None => ref_id,
    }
}

/// The object a click on `ref_id` selects.
pub fn normalized_selection_ref(ref_id: u32, candidates: &[SelectionCandidate]) -> (r: u32)
    ensures
        r == spec_normalized_selection_ref(ref_id, candidates@),
{
    match first_standing(ref_id, candidates) {
        Some(c) => match c.leader_ref_id {
            Some(leader) => if first_standing(leader, candidates).is_some() {
                leader
            } else {
                ref_id
            },
            None => ref_id,
        },
        None => ref_id,
    }
}

} // verus!
