use vstd::prelude::*;

use crate::components::{spec_level_number, ProductionLevel};
use crate::original::objects::{CannonType, ObjectKind, VehicleType};

verus! {

/// Health of a vehicle factory as a ratio of the unit health scale, in 1/240ths.
pub const HEALTH_RATIO_240THS: u32 = 2000;

/// The unit a vehicle factory starts building.
pub open spec fn spec_default_production_unit() -> ObjectKind {
    ObjectKind::Vehicle(VehicleType::Jeep)
}

/// The unit a vehicle factory starts building.
pub fn default_production_unit() -> (r: ObjectKind)
    ensures
        r == spec_default_production_unit(),
{
    ObjectKind::Vehicle(VehicleType::Jeep)
}

/// Units a vehicle factory can build at each level; every level extends the one before.
pub open spec fn spec_default_build_list(level: ProductionLevel) -> Seq<ObjectKind> {
    let jeep = ObjectKind::Vehicle(VehicleType::Jeep);
    let gatling = ObjectKind::Cannon(CannonType::Gatling);
    let light = ObjectKind::Vehicle(VehicleType::Light);
    let gun = ObjectKind::Cannon(CannonType::Gun);
    let medium = ObjectKind::Vehicle(VehicleType::Medium);
    let apc = ObjectKind::Vehicle(VehicleType::Apc);
    let howitzer = ObjectKind::Cannon(CannonType::Howitzer);
    let heavy = ObjectKind::Vehicle(VehicleType::Heavy);
    let launcher = ObjectKind::Vehicle(VehicleType::MissileLauncher);
    let missile = ObjectKind::Cannon(CannonType::MissileCannon);
    match level {
        ProductionLevel::Level0 => seq![jeep, gatling],
        ProductionLevel::Level1 => seq![jeep, gatling, light, gun],
        ProductionLevel::Level2 => seq![jeep, gatling, light, gun, medium],
        ProductionLevel::Level3 => seq![jeep, gatling, light, gun, medium, apc, howitzer],
        ProductionLevel::Level4 => seq![jeep, gatling, light, gun, medium, apc, howitzer, heavy],
        ProductionLevel::Level5 => seq![jeep, gatling, light, gun, medium, apc, howitzer, heavy, launcher, missile],
    }
}

/// Units a vehicle factory can build at each level; every level extends the one before.
pub fn default_build_list(level: ProductionLevel) -> (r: Vec<ObjectKind>)
    ensures
        r@ == spec_default_build_list(level),
{
    let jeep = ObjectKind::Vehicle(VehicleType::Jeep);
    let gatling = ObjectKind::Cannon(CannonType::Gatling);
    let light = ObjectKind::Vehicle(VehicleType::Light);
    let gun = ObjectKind::Cannon(CannonType::Gun);
    let medium = ObjectKind::Vehicle(VehicleType::Medium);
    let apc = ObjectKind::Vehicle(VehicleType::Apc);
    let howitzer = ObjectKind::Cannon(CannonType::Howitzer);
    let heavy = ObjectKind::Vehicle(VehicleType::Heavy);
    let launcher = ObjectKind::Vehicle(VehicleType::MissileLauncher);
    let missile = ObjectKind::Cannon(CannonType::MissileCannon);
    let r = match level {
        ProductionLevel::Level0 => vec![jeep, gatling],
        ProductionLevel::Level1 => vec![jeep, gatling, light, gun],
        ProductionLevel::Level2 => vec![jeep, gatling, light, gun, medium],
        ProductionLevel::Level3 => vec![jeep, gatling, light, gun, medium, apc, howitzer],
        ProductionLevel::Level4 => vec![jeep, gatling, light, gun, medium, apc, howitzer, heavy],
        ProductionLevel::Level5 => vec![jeep, gatling, light, gun, medium, apc, howitzer, heavy, launcher, missile],
    };
    proof {
        assert(r@ =~= spec_default_build_list(level));
    }
    r
}

/// What each level of a vehicle factory unlocks: a factory at `level` can
/// build jeeps and gatlings from the start, light tanks and guns from level
/// 1, medium tanks from level 2, APCs and howitzers from level 3, heavy tanks
/// from level 4 and missile launchers and missile cannons at level 5, and
/// nothing else (no robots, cranes or buildings). Every unit appears once,
/// so the lists hold 2, 4, 5, 7, 8 and 10 units.
pub proof fn lemma_vehicle_factory_unlocks(level: ProductionLevel, unit: ObjectKind)
    ensures
        spec_default_build_list(level).contains(unit) <==> {
            let n = spec_level_number(level);
            ||| unit == ObjectKind::Vehicle(VehicleType::Jeep)
            ||| unit == ObjectKind::Cannon(CannonType::Gatling)
            ||| (unit == ObjectKind::Vehicle(VehicleType::Light) && n >= 1)
            ||| (unit == ObjectKind::Cannon(CannonType::Gun) && n >= 1)
            ||| (unit == ObjectKind::Vehicle(VehicleType::Medium) && n >= 2)
            ||| (unit == ObjectKind::Vehicle(VehicleType::Apc) && n >= 3)
            ||| (unit == ObjectKind::Cannon(CannonType::Howitzer) && n >= 3)
            ||| (unit == ObjectKind::Vehicle(VehicleType::Heavy) && n >= 4)
            ||| (unit == ObjectKind::Vehicle(VehicleType::MissileLauncher) && n >= 5)
            ||| (unit == ObjectKind::Cannon(CannonType::MissileCannon) && n >= 5)
        },
        spec_default_build_list(level).no_duplicates(),
        spec_default_build_list(level).len() == (match level {
            ProductionLevel::Level0 => 2int,
            ProductionLevel::Level1 => 4,
            ProductionLevel::Level2 => 5,
            ProductionLevel::Level3 => 7,
            ProductionLevel::Level4 => 8,
            ProductionLevel::Level5 => 10,
        }),
{
    let list = spec_default_build_list(level);
    if list.contains(unit) {
        let i = choose|i: int| 0 <= i < list.len() && list[i] == unit;
        assert(list[i] == unit);
    } else {
        assert forall|i: int| 0 <= i < list.len() implies list[i] != unit by {}
    }
    assert forall|i: int, j: int| 0 <= i < list.len() && 0 <= j < list.len() && i != j implies list[i] != list[j] by {}
}

/// A vehicle factory's full list at level 5 is jeep, gatling, light tank, gun,
/// medium tank, APC, howitzer, heavy tank, missile launcher, missile cannon;
/// every lower level offers the start of that list.
pub proof fn lemma_vehicle_factory_lists_extend(level: ProductionLevel)
    ensures
        spec_default_build_list(ProductionLevel::Level5) == seq![ObjectKind::Vehicle(VehicleType::Jeep), ObjectKind::Cannon(CannonType::Gatling), ObjectKind::Vehicle(VehicleType::Light), ObjectKind::Cannon(CannonType::Gun), ObjectKind::Vehicle(VehicleType::Medium), ObjectKind::Vehicle(VehicleType::Apc), ObjectKind::Cannon(CannonType::Howitzer), ObjectKind::Vehicle(VehicleType::Heavy), ObjectKind::Vehicle(VehicleType::MissileLauncher), ObjectKind::Cannon(CannonType::MissileCannon)],
        spec_default_build_list(level) == spec_default_build_list(ProductionLevel::Level5).take(
            spec_default_build_list(level).len() as int,
        ),
{
    let top = spec_default_build_list(ProductionLevel::Level5);
    assert(spec_default_build_list(level) =~= top.take(spec_default_build_list(level).len() as int));
}

} // verus!
