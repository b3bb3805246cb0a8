use vstd::prelude::*;

use crate::components::{spec_level_number, ProductionLevel};
use crate::original::objects::{CannonType, ObjectKind, RobotType, VehicleType};

verus! {

/// Health of a fort as a ratio of the unit health scale, in 1/240ths.
pub const HEALTH_RATIO_240THS: u32 = 10000;

/// The unit a fort starts building.
pub open spec fn spec_default_production_unit() -> ObjectKind {
    ObjectKind::Robot(RobotType::Grunt)
}

/// The unit a fort starts building.
pub fn default_production_unit() -> (r: ObjectKind)
    ensures
        r == spec_default_production_unit(),
{
    ObjectKind::Robot(RobotType::Grunt)
}

/// Units a fort can build at each level; every level extends the one before.
pub open spec fn spec_default_build_list(level: ProductionLevel) -> Seq<ObjectKind> {
    let grunt = ObjectKind::Robot(RobotType::Grunt);
    let jeep = ObjectKind::Vehicle(VehicleType::Jeep);
    let crane = ObjectKind::Vehicle(VehicleType::Crane);
    let gatling = ObjectKind::Cannon(CannonType::Gatling);
    let psycho = ObjectKind::Robot(RobotType::Psycho);
    let light = ObjectKind::Vehicle(VehicleType::Light);
    let gun = ObjectKind::Cannon(CannonType::Gun);
    let sniper = ObjectKind::Robot(RobotType::Sniper);
    let tough = ObjectKind::Robot(RobotType::Tough);
    let medium = ObjectKind::Vehicle(VehicleType::Medium);
    let howitzer = ObjectKind::Cannon(CannonType::Howitzer);
    let pyro = ObjectKind::Robot(RobotType::Pyro);
    let apc = ObjectKind::Vehicle(VehicleType::Apc);
    let laser = ObjectKind::Robot(RobotType::Laser);
    let heavy = ObjectKind::Vehicle(VehicleType::Heavy);
    let missile = ObjectKind::Cannon(CannonType::MissileCannon);
    let launcher = ObjectKind::Vehicle(VehicleType::MissileLauncher);
    match level {
        ProductionLevel::Level0 => seq![grunt, jeep, crane, gatling],
        ProductionLevel::Level1 => seq![grunt, jeep, crane, gatling, psycho, light, gun],
        ProductionLevel::Level2 => seq![grunt, jeep, crane, gatling, psycho, light, gun, sniper, tough, medium, howitzer],
        ProductionLevel::Level3 => seq![grunt, jeep, crane, gatling, psycho, light, gun, sniper, tough, medium, howitzer, pyro, apc],
        ProductionLevel::Level4 => seq![grunt, jeep, crane, gatling, psycho, light, gun, sniper, tough, medium, howitzer, pyro, apc, laser, heavy, missile],
        ProductionLevel::Level5 => seq![grunt, jeep, crane, gatling, psycho, light, gun, sniper, tough, medium, howitzer, pyro, apc, laser, heavy, missile, launcher],
    }
}

/// Units a fort can build at each level; every level extends the one before.
pub fn default_build_list(level: ProductionLevel) -> (r: Vec<ObjectKind>)
    ensures
        r@ == spec_default_build_list(level),
{
    let grunt = ObjectKind::Robot(RobotType::Grunt);
    let jeep = ObjectKind::Vehicle(VehicleType::Jeep);
    let crane = ObjectKind::Vehicle(VehicleType::Crane);
    let gatling = ObjectKind::Cannon(CannonType::Gatling);
    let psycho = ObjectKind::Robot(RobotType::Psycho);
    let light = ObjectKind::Vehicle(VehicleType::Light);
    let gun = ObjectKind::Cannon(CannonType::Gun);
    let sniper = ObjectKind::Robot(RobotType::Sniper);
    let tough = ObjectKind::Robot(RobotType::Tough);
    let medium = ObjectKind::Vehicle(VehicleType::Medium);
    let howitzer = ObjectKind::Cannon(CannonType::Howitzer);
    let pyro = ObjectKind::Robot(RobotType::Pyro);
    let apc = ObjectKind::Vehicle(VehicleType::Apc);
    let laser = ObjectKind::Robot(RobotType::Laser);
    let heavy = ObjectKind::Vehicle(VehicleType::Heavy);
    let missile = ObjectKind::Cannon(CannonType::MissileCannon);
    let launcher = ObjectKind::Vehicle(VehicleType::MissileLauncher);
    let r = match level {
        ProductionLevel::Level0 => vec![grunt, jeep, crane, gatling],
        ProductionLevel::Level1 => vec![grunt, jeep, crane, gatling, psycho, light, gun],
        ProductionLevel::Level2 => vec![grunt, jeep, crane, gatling, psycho, light, gun, sniper, tough, medium, howitzer],
        ProductionLevel::Level3 => vec![grunt, jeep, crane, gatling, psycho, light, gun, sniper, tough, medium, howitzer, pyro, apc],
        ProductionLevel::Level4 => vec![grunt, jeep, crane, gatling, psycho, light, gun, sniper, tough, medium, howitzer, pyro, apc, laser, heavy, missile],
        ProductionLevel::Level5 => vec![grunt, jeep, crane, gatling, psycho, light, gun, sniper, tough, medium, howitzer, pyro, apc, laser, heavy, missile, launcher],
    };
    proof {
        assert(r@ =~= spec_default_build_list(level));
    }
    r
}

/// What each level of a fort unlocks: grunts, jeeps, cranes and gatlings from
/// the start; psychos, light tanks and guns from level 1; snipers, toughs,
/// medium tanks and howitzers from level 2; pyros and APCs from level 3;
/// lasers, heavy tanks and missile cannons from level 4; missile launchers
/// at level 5; nothing else. Every unit appears once, so the lists hold 4,
/// 7, 11, 13, 16 and 17 units.
pub proof fn lemma_fort_unlocks(level: ProductionLevel, unit: ObjectKind)
    ensures
        spec_default_build_list(level).contains(unit) <==> {
            let n = spec_level_number(level);
            ||| unit == ObjectKind::Robot(RobotType::Grunt)
            ||| unit == ObjectKind::Vehicle(VehicleType::Jeep)
            ||| unit == ObjectKind::Vehicle(VehicleType::Crane)
            ||| unit == ObjectKind::Cannon(CannonType::Gatling)
            ||| (unit == ObjectKind::Robot(RobotType::Psycho) && n >= 1)
            ||| (unit == ObjectKind::Vehicle(VehicleType::Light) && n >= 1)
            ||| (unit == ObjectKind::Cannon(CannonType::Gun) && n >= 1)
            ||| (unit == ObjectKind::Robot(RobotType::Sniper) && n >= 2)
            ||| (unit == ObjectKind::Robot(RobotType::Tough) && n >= 2)
            ||| (unit == ObjectKind::Vehicle(VehicleType::Medium) && n >= 2)
            ||| (unit == ObjectKind::Cannon(CannonType::Howitzer) && n >= 2)
            ||| (unit == ObjectKind::Robot(RobotType::Pyro) && n >= 3)
            ||| (unit == ObjectKind::Vehicle(VehicleType::Apc) && n >= 3)
            ||| (unit == ObjectKind::Robot(RobotType::Laser) && n >= 4)
            ||| (unit == ObjectKind::Vehicle(VehicleType::Heavy) && n >= 4)
            ||| (unit == ObjectKind::Cannon(CannonType::MissileCannon) && n >= 4)
            ||| (unit == ObjectKind::Vehicle(VehicleType::MissileLauncher) && n >= 5)
        },
        spec_default_build_list(level).no_duplicates(),
        spec_default_build_list(level).len() == (match level {
            ProductionLevel::Level0 => 4int,
            ProductionLevel::Level1 => 7,
            ProductionLevel::Level2 => 11,
            ProductionLevel::Level3 => 13,
            ProductionLevel::Level4 => 16,
            ProductionLevel::Level5 => 17,
        }),
{
    let list = spec_default_build_list(level);
    if list.contains(unit) {
        let i = choose|i: int| 0 <= i < list.len() && list[i] == unit;
        assert(list[i] == unit);
    } else {
        assert forall|i: int| 0 <= i < list.len() implies list[i] != unit by {}
    }
    assert forall|i: int, j: int| 0 <= i < list.len() && 0 <= j < list.len() && i != j implies list[i] != list[j] by {}
}

/// A fort's full list at level 5 holds every robot, vehicle and cannon in
/// unlock order; each lower level offers the start of that list.
pub proof fn lemma_fort_lists_extend(level: ProductionLevel)
    ensures
        spec_default_build_list(ProductionLevel::Level5) == seq![ObjectKind::Robot(RobotType::Grunt), ObjectKind::Vehicle(VehicleType::Jeep), ObjectKind::Vehicle(VehicleType::Crane), ObjectKind::Cannon(CannonType::Gatling), ObjectKind::Robot(RobotType::Psycho), ObjectKind::Vehicle(VehicleType::Light), ObjectKind::Cannon(CannonType::Gun), ObjectKind::Robot(RobotType::Sniper), ObjectKind::Robot(RobotType::Tough), ObjectKind::Vehicle(VehicleType::Medium), ObjectKind::Cannon(CannonType::Howitzer), ObjectKind::Robot(RobotType::Pyro), ObjectKind::Vehicle(VehicleType::Apc), ObjectKind::Robot(RobotType::Laser), ObjectKind::Vehicle(VehicleType::Heavy), ObjectKind::Cannon(CannonType::MissileCannon), ObjectKind::Vehicle(VehicleType::MissileLauncher)],
        spec_default_build_list(level) == spec_default_build_list(ProductionLevel::Level5).take(
            spec_default_build_list(level).len() as int,
        ),
{
    let top = spec_default_build_list(ProductionLevel::Level5);
    assert(spec_default_build_list(level) =~= top.take(spec_default_build_list(level).len() as int));
}

} // verus!
