//! Who may attack whom, with what, and which matchups the rating rules
//! count as lost for the victim.

use vstd::prelude::*;

use crate::components::ObjectStats;
use crate::original::objects::{CannonType, ObjectKind, RobotType, VehicleType};
use crate::original::types::TeamType;
use crate::units::buildings::list_contains;

verus! {

/// Where a unit's grenades come from: its own pouch, or its group leader's.
#[derive(Clone, Copy, Debug, PartialEq, Eq, Structural)]
pub enum GrenadeAttackSource {
    Own,
    GroupLeader(u32),
}

/// A unit that can carry grenades throws its own while it has any;
/// otherwise it throws its group leader's, when the leader is another unit
/// and has some.
pub open spec fn spec_grenade_attack_source(
    can_have_grenades: bool,
    ref_id: u32,
    own_amount: Option<u8>,
    leader_ref_id: Option<u32>,
    leader_amount: Option<u8>,
) -> Option<GrenadeAttackSource> {
    let own = match own_amount { Some(amount) => amount, None => 0 };
    let leader = match leader_amount { Some(amount) => amount, None => 0 };
    if !can_have_grenades {
        None
    } else if own > 0 {
        Some(GrenadeAttackSource::Own)
    } else {
        match leader_ref_id {
            Some(leader_id) => if leader_id != ref_id && leader > 0 {
                Some(GrenadeAttackSource::GroupLeader(leader_id))
            } else {
                None
            },
            None => None,
        }
    }
}

/// Where the grenades of unit `ref_id` come from, if it can throw any.
/// `can_have_grenades` tells whether the unit's type carries grenades at all.
pub fn grenade_attack_source(
    can_have_grenades: bool,
    ref_id: u32,
    own_amount: Option<u8>,
    leader_ref_id: Option<u32>,
    leader_amount: Option<u8>,
) -> (r: Option<GrenadeAttackSource>)
    ensures
        r == spec_grenade_attack_source(can_have_grenades, ref_id, own_amount, leader_ref_id, leader_amount),
{
    if !can_have_grenades {
        return None;
    }
    let own = match own_amount {
        Some(amount) => amount,
        None => 0,
    };
    if own > 0 {
        return Some(GrenadeAttackSource::Own);
    }
    let leader_id = match leader_ref_id {
        Some(leader_id) => leader_id,
        None => return None,
    };
    if leader_id == ref_id {
        return None;
    }
    let leader = match leader_amount {
        Some(amount) => amount,
        None => 0,
    };
    if leader > 0 {
        Some(GrenadeAttackSource::GroupLeader(leader_id))
    } else {
        None
    }
}

/// Grenades an attack can use: one when there is a source, none otherwise.
pub fn grenade_attack_amount_for_source(source: Option<GrenadeAttackSource>) -> (r: u8)
    ensures
        r == (if source is Some { 1u8 } else { 0u8 }),
{
    match source {
        Some(_) => 1,
        None => 0,
    }
}

/// An attacker has explosives when its weapon is explosive or it holds grenades.
pub open spec fn spec_attacker_has_explosives(stats: ObjectStats, grenade_amount: u8) -> bool {
    stats.explosive_damage || grenade_amount > 0
}

/// Whether an attacker has explosives.
pub fn attacker_has_explosives(stats: ObjectStats, grenade_amount: u8) -> (r: bool)
    ensures
        r == spec_attacker_has_explosives(stats, grenade_amount),
{
    stats.has_explosive_damage() || grenade_amount > 0
}

/// An attacker may target an object when it can fire, the target stands,
/// they are on different teams, and a target that only explosives hurt
/// meets explosives.
pub open spec fn spec_can_attack_target_identity(
    attacker_team: TeamType,
    attacker_stats: ObjectStats,
    attacker_grenade_amount: u8,
    target_team: TeamType,
    target_stats: ObjectStats,
) -> bool {
    &&& attacker_stats.attack_capable
    &&& !target_stats.spec_destroyed()
    &&& attacker_team != target_team
    &&& target_stats.attacked_only_by_explosives ==> spec_attacker_has_explosives(attacker_stats, attacker_grenade_amount)
}

/// Whether an attacker may target an object, range aside.
pub fn can_attack_target_identity(
    attacker_team: TeamType,
    attacker_stats: ObjectStats,
    attacker_grenade_amount: u8,
    target_team: TeamType,
    target_stats: ObjectStats,
) -> (r: bool)
    ensures
        r == spec_can_attack_target_identity(attacker_team, attacker_stats, attacker_grenade_amount, target_team, target_stats),
{
    if !attacker_stats.can_attack() || target_stats.destroyed() {
        return false;
    }
    if attacker_team == target_team {
        return false;
    }
    if target_stats.attacked_only_by_explosives && !attacker_has_explosives(attacker_stats, attacker_grenade_amount) {
        return false;
    }
    true
}

/// Unit types whose weapon can pick off a driver.
pub open spec fn spec_can_snipe_flag(kind: ObjectKind) -> bool {
    match kind {
        ObjectKind::Robot(RobotType::Grunt) => true,
        ObjectKind::Robot(RobotType::Psycho) => true,
        ObjectKind::Robot(RobotType::Sniper) => true,
        ObjectKind::Robot(RobotType::Pyro) => true,
        ObjectKind::Robot(RobotType::Laser) => true,
        ObjectKind::Vehicle(VehicleType::Jeep) => true,
        ObjectKind::Cannon(CannonType::Gatling) => true,
        _ => false,
    }
}

/// Whether a unit type's weapon can pick off a driver.
pub fn can_snipe_flag(kind: ObjectKind) -> (r: bool)
    ensures
        r == spec_can_snipe_flag(kind),
{
    match kind {
        ObjectKind::Robot(RobotType::Grunt)
        | ObjectKind::Robot(RobotType::Psycho)
        | ObjectKind::Robot(RobotType::Sniper)
        | ObjectKind::Robot(RobotType::Pyro)
        | ObjectKind::Robot(RobotType::Laser)
        | ObjectKind::Vehicle(VehicleType::Jeep)
        | ObjectKind::Cannon(CannonType::Gatling) => true,
        _ => false,
    }
}

/// Cannons and jeeps always expose their driver; light, medium and heavy
/// tanks only with the lid open; nothing else has a driver to snipe.
pub open spec fn spec_target_kind_can_be_sniped(target_kind: ObjectKind, lid_open: bool) -> bool {
    match target_kind {
        ObjectKind::Cannon(_) => true,
        ObjectKind::Vehicle(VehicleType::Jeep) => true,
        ObjectKind::Vehicle(VehicleType::Light) => lid_open,
        ObjectKind::Vehicle(VehicleType::Medium) => lid_open,
        ObjectKind::Vehicle(VehicleType::Heavy) => lid_open,
        _ => false,
    }
}

/// Whether the driver of a target is exposed to snipers.
pub fn target_kind_can_be_sniped(target_kind: ObjectKind, lid_open: bool) -> (r: bool)
    ensures
        r == spec_target_kind_can_be_sniped(target_kind, lid_open),
{
    match target_kind {
        ObjectKind::Cannon(_) | ObjectKind::Vehicle(VehicleType::Jeep) => true,
        ObjectKind::Vehicle(VehicleType::Light) | ObjectKind::Vehicle(VehicleType::Medium) | ObjectKind::Vehicle(VehicleType::Heavy) => {
            lid_open
        },
        _ => false,
    }
}

/// The units that an attacker of type `attacker` is rated as doomed
/// against: attacking one of them, the attacker is expected to die.
pub open spec fn spec_will_die_victims(attacker: ObjectKind) -> Seq<ObjectKind> {
    let psycho = ObjectKind::Robot(RobotType::Psycho);
    let sniper = ObjectKind::Robot(RobotType::Sniper);
    let tough = ObjectKind::Robot(RobotType::Tough);
    let pyro = ObjectKind::Robot(RobotType::Pyro);
    let laser = ObjectKind::Robot(RobotType::Laser);
    let gatling = ObjectKind::Cannon(CannonType::Gatling);
    let gun = ObjectKind::Cannon(CannonType::Gun);
    let howitzer = ObjectKind::Cannon(CannonType::Howitzer);
    let missile = ObjectKind::Cannon(CannonType::MissileCannon);
    let jeep = ObjectKind::Vehicle(VehicleType::Jeep);
    let light = ObjectKind::Vehicle(VehicleType::Light);
    let medium = ObjectKind::Vehicle(VehicleType::Medium);
    let heavy = ObjectKind::Vehicle(VehicleType::Heavy);
    let launcher = ObjectKind::Vehicle(VehicleType::MissileLauncher);
    match attacker {
        ObjectKind::Robot(RobotType::Grunt) => seq![
            psycho, sniper, tough, pyro, laser, gatling, gun, howitzer, missile, jeep, light, medium, heavy, launcher,
        ],
        ObjectKind::Robot(RobotType::Psycho) => seq![tough, pyro, laser, missile, medium, heavy, launcher],
        ObjectKind::Robot(RobotType::Sniper) => seq![tough, pyro, laser, missile, launcher],
        ObjectKind::Robot(RobotType::Tough) => seq![missile, launcher],
        ObjectKind::Robot(RobotType::Pyro) => seq![missile, launcher],
        ObjectKind::Robot(RobotType::Laser) => seq![missile, launcher],
        ObjectKind::Vehicle(VehicleType::Jeep) => seq![tough, pyro, laser, gun, howitzer, missile, light, medium, heavy, launcher],
        ObjectKind::Vehicle(VehicleType::Light) => seq![missile, launcher],
        ObjectKind::Vehicle(VehicleType::Medium) => seq![launcher],
        ObjectKind::Vehicle(VehicleType::MissileLauncher) => seq![howitzer],
        _ => Seq::empty(),
    }
}

fn will_die_victims(attacker: ObjectKind) -> (r: Vec<ObjectKind>)
    ensures
        r@ == spec_will_die_victims(attacker),
{
    let psycho = ObjectKind::Robot(RobotType::Psycho);
    let sniper = ObjectKind::Robot(RobotType::Sniper);
    let tough = ObjectKind::Robot(RobotType::Tough);
    let pyro = ObjectKind::Robot(RobotType::Pyro);
    let laser = ObjectKind::Robot(RobotType::Laser);
    let gatling = ObjectKind::Cannon(CannonType::Gatling);
    let gun = ObjectKind::Cannon(CannonType::Gun);
    let howitzer = ObjectKind::Cannon(CannonType::Howitzer);
    let missile = ObjectKind::Cannon(CannonType::MissileCannon);
    let jeep = ObjectKind::Vehicle(VehicleType::Jeep);
    let light = ObjectKind::Vehicle(VehicleType::Light);
    let medium = ObjectKind::Vehicle(VehicleType::Medium);
    let heavy = ObjectKind::Vehicle(VehicleType::Heavy);
    let launcher = ObjectKind::Vehicle(VehicleType::MissileLauncher);
    let r = match attacker {
        ObjectKind::Robot(RobotType::Grunt) => vec![
            psycho, sniper, tough, pyro, laser, gatling, gun, howitzer, missile, jeep, light, medium, heavy, launcher,
        ],
        ObjectKind::Robot(RobotType::Psycho) => vec![tough, pyro, laser, missile, medium, heavy, launcher],
        ObjectKind::Robot(RobotType::Sniper) => vec![tough, pyro, laser, missile, launcher],
        ObjectKind::Robot(RobotType::Tough) => vec![missile, launcher],
        ObjectKind::Robot(RobotType::Pyro) => vec![missile, launcher],
        ObjectKind::Robot(RobotType::Laser) => vec![missile, launcher],
        ObjectKind::Vehicle(VehicleType::Jeep) => vec![tough, pyro, laser, gun, howitzer, missile, light, medium, heavy, launcher],
        ObjectKind::Vehicle(VehicleType::Light) => vec![missile, launcher],
        ObjectKind::Vehicle(VehicleType::Medium) => vec![launcher],
        ObjectKind::Vehicle(VehicleType::MissileLauncher) => vec![howitzer],
        _ => Vec::new(),
    };
    proof {
        assert(r@ =~= spec_will_die_victims(attacker));
    }
    r
}

/// Whether the rating rules expect an `attacker` to die attacking a `victim`.
pub open spec fn spec_unit_rating_will_die(attacker: ObjectKind, victim: ObjectKind) -> bool {
    spec_will_die_victims(attacker).contains(victim)
}

/// Whether the rating rules expect an `attacker` to die attacking a `victim`.
pub fn unit_rating_will_die(attacker: ObjectKind, victim: ObjectKind) -> (r: bool)
    ensures
        r == spec_unit_rating_will_die(attacker, victim),
{
    let victims = will_die_victims(attacker);
    list_contains(&victims, victim)
}

/// The rating rules never expect both sides of a matchup to die: no unit is
/// doomed against its own type, and when `attacker` is doomed against
/// `victim`, `victim` is not doomed against `attacker`.
pub proof fn lemma_unit_rating_will_die_one_way(attacker: ObjectKind, victim: ObjectKind)
    ensures
        !spec_unit_rating_will_die(attacker, attacker),
        spec_unit_rating_will_die(attacker, victim) ==> !spec_unit_rating_will_die(victim, attacker),
{
    let victims = spec_will_die_victims(attacker);
    if victims.contains(attacker) {
        let i = choose|i: int| 0 <= i < victims.len() && victims[i] == attacker;
        assert(victims[i] == attacker);
    }
    if victims.contains(victim) {
        let i = choose|i: int| 0 <= i < victims.len() && victims[i] == victim;
        let back = spec_will_die_victims(victim);
        if back.contains(attacker) {
            let j = choose|j: int| 0 <= j < back.len() && back[j] == attacker;
            assert(victims[i] == victim && back[j] == attacker);
        }
    }
}

/// A driver can be sniped out of a cannon or a jeep, light, medium or heavy
/// tank while the driver has health and the target's hatch exposes them.
pub open spec fn spec_can_be_sniped(kind: ObjectKind, driver_has_health: bool, target_can_be_sniped: bool) -> bool {
    &&& driver_has_health
    &&& target_can_be_sniped
    &&& match kind {
        ObjectKind::Cannon(_) => true,
        ObjectKind::Vehicle(VehicleType::Jeep) => true,
        ObjectKind::Vehicle(VehicleType::Light) => true,
        ObjectKind::Vehicle(VehicleType::Medium) => true,
        ObjectKind::Vehicle(VehicleType::Heavy) => true,
        _ => false,
    }
}

/// Whether the driver of a target can be sniped; `driver_has_health` tells
/// whether the leading driver has health left.
pub fn can_be_sniped(kind: ObjectKind, driver_has_health: bool, target_can_be_sniped: bool) -> (r: bool)
    ensures
        r == spec_can_be_sniped(kind, driver_has_health, target_can_be_sniped),
{
    let snipable = match kind {
        ObjectKind::Cannon(_)
        | ObjectKind::Vehicle(VehicleType::Jeep)
        | ObjectKind::Vehicle(VehicleType::Light)
        | ObjectKind::Vehicle(VehicleType::Medium)
        | ObjectKind::Vehicle(VehicleType::Heavy) => true,
        _ => false,
    };
    driver_has_health && target_can_be_sniped && snipable
}

/// The kind an attack is made as: an APC attacks as the robot driving it,
/// everything else as itself.
pub fn effective_attack_kind(kind: ObjectKind, driver_kind: Option<RobotType>) -> (r: ObjectKind)
    ensures
        r == (match (kind, driver_kind) {
            (ObjectKind::Vehicle(VehicleType::Apc), Some(robot)) => ObjectKind::Robot(robot),
            _ => kind,
        }),
{
    match (kind, driver_kind) {
        (ObjectKind::Vehicle(VehicleType::Apc), Some(robot)) => ObjectKind::Robot(robot),
        _ => kind,
    }
}

/// The weapons that can pick off a driver: every robot but the tough, the
/// jeep among the vehicles and the gatling among the cannons; nothing else.
pub proof fn lemma_sniping_weapons(kind: ObjectKind)
    ensures
        kind matches ObjectKind::Robot(r) ==> (spec_can_snipe_flag(kind) <==> r != RobotType::Tough),
        kind matches ObjectKind::Vehicle(v) ==> (spec_can_snipe_flag(kind) <==> v == VehicleType::Jeep),
        kind matches ObjectKind::Cannon(c) ==> (spec_can_snipe_flag(kind) <==> c == CannonType::Gatling),
        !(kind is Robot || kind is Vehicle || kind is Cannon) ==> !spec_can_snipe_flag(kind),
{
}

/// Which targets expose their driver to a sniper: every cannon and the jeep
/// always, light, medium and heavy tanks only with the lid open, and no other
/// kind; opening the lid never hides a driver.
pub proof fn lemma_exposed_drivers(kind: ObjectKind, lid_open: bool)
    ensures
        kind is Cannon ==> spec_target_kind_can_be_sniped(kind, lid_open),
        kind matches ObjectKind::Vehicle(v) ==> (spec_target_kind_can_be_sniped(kind, lid_open) <==> (v
            == VehicleType::Jeep || (lid_open && (v == VehicleType::Light || v == VehicleType::Medium || v
            == VehicleType::Heavy)))),
        !(kind is Cannon || kind is Vehicle) ==> !spec_target_kind_can_be_sniped(kind, lid_open),
        spec_target_kind_can_be_sniped(kind, false) ==> spec_target_kind_can_be_sniped(kind, true),
{
}

/// The rating table, attacker by attacker: a grunt expects to die attacking
/// any other robot, any cannon and any vehicle but the APC and the crane; a
/// psycho attacking a tough, pyro, laser, missile cannon, medium or heavy
/// tank or missile launcher; a sniper attacking a tough, pyro, laser,
/// missile cannon or missile launcher; a tough, pyro, laser or light tank
/// attacking a missile cannon or missile launcher; a jeep attacking a tough,
/// pyro, laser, gun, howitzer, missile cannon, light, medium or heavy tank or
/// missile launcher; a medium tank attacking a missile launcher; a missile
/// launcher attacking a howitzer. Heavy tanks, APCs, cranes, cannons and
/// everything that is not a unit never expect to die.
pub proof fn lemma_unit_rating_table()
    ensures
        forall|v: ObjectKind| #[trigger] spec_unit_rating_will_die(ObjectKind::Robot(RobotType::Grunt), v) <==> (v == ObjectKind::Robot(RobotType::Psycho) || v == ObjectKind::Robot(RobotType::Sniper) || v == ObjectKind::Robot(RobotType::Tough) || v == ObjectKind::Robot(RobotType::Pyro) || v == ObjectKind::Robot(RobotType::Laser) || v == ObjectKind::Cannon(CannonType::Gatling) || v == ObjectKind::Cannon(CannonType::Gun) || v == ObjectKind::Cannon(CannonType::Howitzer) || v == ObjectKind::Cannon(CannonType::MissileCannon) || v == ObjectKind::Vehicle(VehicleType::Jeep) || v == ObjectKind::Vehicle(VehicleType::Light) || v == ObjectKind::Vehicle(VehicleType::Medium) || v == ObjectKind::Vehicle(VehicleType::Heavy) || v == ObjectKind::Vehicle(VehicleType::MissileLauncher)),
        forall|v: ObjectKind| #[trigger] spec_unit_rating_will_die(ObjectKind::Robot(RobotType::Psycho), v) <==> (v == ObjectKind::Robot(RobotType::Tough) || v == ObjectKind::Robot(RobotType::Pyro) || v == ObjectKind::Robot(RobotType::Laser) || v == ObjectKind::Cannon(CannonType::MissileCannon) || v == ObjectKind::Vehicle(VehicleType::Medium) || v == ObjectKind::Vehicle(VehicleType::Heavy) || v == ObjectKind::Vehicle(VehicleType::MissileLauncher)),
        forall|v: ObjectKind| #[trigger] spec_unit_rating_will_die(ObjectKind::Robot(RobotType::Sniper), v) <==> (v == ObjectKind::Robot(RobotType::Tough) || v == ObjectKind::Robot(RobotType::Pyro) || v == ObjectKind::Robot(RobotType::Laser) || v == ObjectKind::Cannon(CannonType::MissileCannon) || v == ObjectKind::Vehicle(VehicleType::MissileLauncher)),
        forall|v: ObjectKind| #[trigger] spec_unit_rating_will_die(ObjectKind::Vehicle(VehicleType::Jeep), v) <==> (v == ObjectKind::Robot(RobotType::Tough) || v == ObjectKind::Robot(RobotType::Pyro) || v == ObjectKind::Robot(RobotType::Laser) || v == ObjectKind::Cannon(CannonType::Gun) || v == ObjectKind::Cannon(CannonType::Howitzer) || v == ObjectKind::Cannon(CannonType::MissileCannon) || v == ObjectKind::Vehicle(VehicleType::Light) || v == ObjectKind::Vehicle(VehicleType::Medium) || v == ObjectKind::Vehicle(VehicleType::Heavy) || v == ObjectKind::Vehicle(VehicleType::MissileLauncher)),
        forall|v: ObjectKind| #[trigger] spec_unit_rating_will_die(ObjectKind::Vehicle(VehicleType::Medium), v) <==> (v == ObjectKind::Vehicle(VehicleType::MissileLauncher)),
        forall|v: ObjectKind| #[trigger] spec_unit_rating_will_die(ObjectKind::Vehicle(VehicleType::MissileLauncher), v) <==> (v == ObjectKind::Cannon(CannonType::Howitzer)),
        forall|a: ObjectKind, v: ObjectKind|
            (a == ObjectKind::Robot(RobotType::Tough) || a == ObjectKind::Robot(RobotType::Pyro) || a == ObjectKind::Robot(RobotType::Laser) || a == ObjectKind::Vehicle(VehicleType::Light))
                ==> (#[trigger] spec_unit_rating_will_die(a, v) <==> (v == ObjectKind::Cannon(CannonType::MissileCannon) || v == ObjectKind::Vehicle(VehicleType::MissileLauncher))),
        forall|a: ObjectKind, v: ObjectKind|
            (a is Cannon || a is Building || a is Bridge || a is MapItem || a is Rock || a is Animal
                || a == ObjectKind::Vehicle(VehicleType::Heavy) || a == ObjectKind::Vehicle(VehicleType::Apc) || a == ObjectKind::Vehicle(VehicleType::Crane))
                ==> !#[trigger] spec_unit_rating_will_die(a, v),
{
    assert(spec_will_die_victims(ObjectKind::Vehicle(VehicleType::Medium))[0] == ObjectKind::Vehicle(
        VehicleType::MissileLauncher,
    ));
    assert(spec_will_die_victims(ObjectKind::Vehicle(VehicleType::MissileLauncher))[0] == ObjectKind::Cannon(
        CannonType::Howitzer,
    ));
}

/// The weaker the attacker, the more it expects to lose: whatever a sniper
/// expects to die against, so does a psycho, and whatever a psycho expects
/// to die against, so does a grunt; likewise a light tank loses at least
/// where a medium tank does, and a jeep at least where a light tank does.
pub proof fn lemma_unit_rating_weaker_lose_more(v: ObjectKind)
    ensures
        spec_unit_rating_will_die(ObjectKind::Robot(RobotType::Sniper), v) ==> spec_unit_rating_will_die(ObjectKind::Robot(RobotType::Psycho), v),
        spec_unit_rating_will_die(ObjectKind::Robot(RobotType::Psycho), v) ==> spec_unit_rating_will_die(ObjectKind::Robot(RobotType::Grunt), v),
        spec_unit_rating_will_die(ObjectKind::Robot(RobotType::Tough), v) ==> spec_unit_rating_will_die(ObjectKind::Robot(RobotType::Sniper), v),
        spec_unit_rating_will_die(ObjectKind::Vehicle(VehicleType::Medium), v) ==> spec_unit_rating_will_die(ObjectKind::Vehicle(VehicleType::Light), v),
        spec_unit_rating_will_die(ObjectKind::Vehicle(VehicleType::Light), v) ==> spec_unit_rating_will_die(ObjectKind::Vehicle(VehicleType::Jeep), v),
{
    lemma_unit_rating_table();
}

} // verus!
