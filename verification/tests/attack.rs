use zod_units::components::ObjectStats;
use zod_units::original::objects::{BuildingType, CannonType, ObjectKind, RobotType, VehicleType};
use zod_units::original::types::TeamType;
use zod_units::units::attack::{
    attacker_has_explosives, can_attack_target_identity, can_snipe_flag, grenade_attack_amount_for_source,
    grenade_attack_source, target_kind_can_be_sniped, unit_rating_will_die, GrenadeAttackSource,
};

fn armed(explosive: bool) -> ObjectStats {
    ObjectStats { health: 100, max_health: 100, attack_capable: true, explosive_damage: explosive, attacked_only_by_explosives: false }
}

#[test]
fn target_sniping_policy_matches_original_driver_windows() {
    assert!(target_kind_can_be_sniped(ObjectKind::Cannon(CannonType::Gun), false));
    assert!(target_kind_can_be_sniped(ObjectKind::Vehicle(VehicleType::Jeep), false));
    assert!(!target_kind_can_be_sniped(ObjectKind::Vehicle(VehicleType::Heavy), false));
    assert!(target_kind_can_be_sniped(ObjectKind::Vehicle(VehicleType::Heavy), true));
    assert!(!target_kind_can_be_sniped(ObjectKind::Robot(RobotType::Grunt), true));
    assert!(!target_kind_can_be_sniped(ObjectKind::Vehicle(VehicleType::Apc), true));
}

#[test]
fn unit_rating_will_die_matches_original_cross_reference_direction() {
    assert!(unit_rating_will_die(ObjectKind::Robot(RobotType::Grunt), ObjectKind::Vehicle(VehicleType::Heavy)));
    assert!(!unit_rating_will_die(ObjectKind::Vehicle(VehicleType::Heavy), ObjectKind::Robot(RobotType::Grunt)));
    assert!(unit_rating_will_die(ObjectKind::Vehicle(VehicleType::Jeep), ObjectKind::Cannon(CannonType::Howitzer)));
    assert!(!unit_rating_will_die(ObjectKind::Vehicle(VehicleType::MissileLauncher), ObjectKind::Vehicle(VehicleType::Jeep)));
    assert!(!unit_rating_will_die(ObjectKind::Robot(RobotType::Grunt), ObjectKind::Robot(RobotType::Grunt)));
    assert!(!unit_rating_will_die(ObjectKind::Building(BuildingType::Radar), ObjectKind::Robot(RobotType::Grunt)));
}

#[test]
fn grenade_attack_source_matches_original_leader_fallback() {
    // Grunts carry grenades, toughs do not.
    assert_eq!(grenade_attack_source(true, 11, Some(3), Some(10), Some(9)), Some(GrenadeAttackSource::Own));
    assert_eq!(grenade_attack_source(true, 11, Some(0), Some(10), Some(9)), Some(GrenadeAttackSource::GroupLeader(10)));
    assert_eq!(grenade_attack_source(true, 10, Some(0), Some(10), Some(9)), None);
    assert_eq!(grenade_attack_source(false, 11, Some(0), Some(10), Some(9)), None);
    assert_eq!(grenade_attack_source(true, 11, None, Some(10), Some(0)), None);
    assert_eq!(grenade_attack_amount_for_source(Some(GrenadeAttackSource::GroupLeader(10))), 1);
    assert_eq!(grenade_attack_amount_for_source(None), 0);
}

#[test]
fn attack_identity_rules_match_checks() {
    let target = ObjectStats::from_kind(ObjectKind::Robot(RobotType::Tough), 100);
    assert!(can_attack_target_identity(TeamType::Red, armed(false), 0, TeamType::Blue, target));
    assert!(!can_attack_target_identity(TeamType::Red, armed(false), 0, TeamType::Red, target));
    let unarmed = ObjectStats::from_kind(ObjectKind::Robot(RobotType::Grunt), 100);
    assert!(!can_attack_target_identity(TeamType::Red, unarmed, 0, TeamType::Blue, target));
    let wreck = ObjectStats::from_kind(ObjectKind::Robot(RobotType::Tough), 0);
    assert!(!can_attack_target_identity(TeamType::Red, armed(false), 0, TeamType::Blue, wreck));
    let bunker = ObjectStats { attacked_only_by_explosives: true, ..target };
    assert!(!can_attack_target_identity(TeamType::Red, armed(false), 0, TeamType::Blue, bunker));
    assert!(can_attack_target_identity(TeamType::Red, armed(false), 2, TeamType::Blue, bunker));
    assert!(can_attack_target_identity(TeamType::Red, armed(true), 0, TeamType::Blue, bunker));
    assert!(attacker_has_explosives(armed(true), 0));
    assert!(!attacker_has_explosives(armed(false), 0));
}

#[test]
fn sniping_weapons_match_flags() {
    assert!(can_snipe_flag(ObjectKind::Robot(RobotType::Sniper)));
    assert!(can_snipe_flag(ObjectKind::Cannon(CannonType::Gatling)));
    assert!(!can_snipe_flag(ObjectKind::Robot(RobotType::Tough)));
    assert!(!can_snipe_flag(ObjectKind::Cannon(CannonType::Gun)));
}
