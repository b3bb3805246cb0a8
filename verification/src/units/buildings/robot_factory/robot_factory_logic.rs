use vstd::prelude::*;

use crate::components::{spec_level_number, ProductionLevel};
use crate::original::objects::{CannonType, ObjectKind, RobotType};

verus! {

/// The unit a robot factory starts building.
pub open spec fn spec_default_production_unit() -> ObjectKind {
    ObjectKind::Robot(RobotType::Grunt)
}

/// The unit a robot factory starts building.
pub fn default_production_unit() -> (r: ObjectKind)
    ensures
        r == spec_default_production_unit(),
{
    ObjectKind::Robot(RobotType::Grunt)
}

/// Units a robot factory can build at each level, robots before cannons.
pub open spec fn spec_default_build_list(level: ProductionLevel) -> Seq<ObjectKind> {
    let grunt = ObjectKind::Robot(RobotType::Grunt);
    let psycho = ObjectKind::Robot(RobotType::Psycho);
    let sniper = ObjectKind::Robot(RobotType::Sniper);
    let tough = ObjectKind::Robot(RobotType::Tough);
    let pyro = ObjectKind::Robot(RobotType::Pyro);
    let laser = ObjectKind::Robot(RobotType::Laser);
    let gatling = ObjectKind::Cannon(CannonType::Gatling);
    let gun = ObjectKind::Cannon(CannonType::Gun);
    let howitzer = ObjectKind::Cannon(CannonType::Howitzer);
    let missile = ObjectKind::Cannon(CannonType::MissileCannon);
    match level {
        ProductionLevel::Level0 => seq![grunt, gatling],
        ProductionLevel::Level1 => seq![grunt, psycho, gatling],
        ProductionLevel::Level2 => seq![grunt, psycho, sniper, tough, gatling, gun],
        ProductionLevel::Level3 => seq![grunt, psycho, sniper, tough, pyro, gatling, gun, howitzer],
        ProductionLevel::Level4 => seq![grunt, psycho, sniper, tough, pyro, laser, gatling, gun, howitzer],
        ProductionLevel::Level5 => seq![grunt, psycho, sniper, tough, pyro, laser, gatling, gun, howitzer, missile],
    }
}

/// Units a robot factory can build at `level`.
pub fn default_build_list(level: ProductionLevel) -> (r: Vec<ObjectKind>)
    ensures
        r@ == spec_default_build_list(level),
{
    let grunt = ObjectKind::Robot(RobotType::Grunt);
    let psycho = ObjectKind::Robot(RobotType::Psycho);
    let sniper = ObjectKind::Robot(RobotType::Sniper);
    let tough = ObjectKind::Robot(RobotType::Tough);
    let pyro = ObjectKind::Robot(RobotType::Pyro);
    let laser = ObjectKind::Robot(RobotType::Laser);
    let gatling = ObjectKind::Cannon(CannonType::Gatling);
    let gun = ObjectKind::Cannon(CannonType::Gun);
    let howitzer = ObjectKind::Cannon(CannonType::Howitzer);
    let missile = ObjectKind::Cannon(CannonType::MissileCannon);
    let r = match level {
        ProductionLevel::Level0 => vec![grunt, gatling],
        ProductionLevel::Level1 => vec![grunt, psycho, gatling],
        ProductionLevel::Level2 => vec![grunt, psycho, sniper, tough, gatling, gun],
        ProductionLevel::Level3 => vec![grunt, psycho, sniper, tough, pyro, gatling, gun, howitzer],
        ProductionLevel::Level4 => vec![grunt, psycho, sniper, tough, pyro, laser, gatling, gun, howitzer],
        ProductionLevel::Level5 => vec![grunt, psycho, sniper, tough, pyro, laser, gatling, gun, howitzer, missile],
    };
    proof {
        assert(r@ =~= spec_default_build_list(level));
    }
    r
}

/// What each level of a robot factory unlocks: grunts and gatlings from the
/// start, psychos from level 1, snipers, toughs and guns from level 2, pyros
/// and howitzers from level 3, lasers from level 4 and missile cannons at
/// level 5, and nothing else (no vehicles or buildings). Every unit appears
/// once, so the lists hold 2, 3, 6, 8, 9 and 10 units.
pub proof fn lemma_robot_factory_unlocks(level: ProductionLevel, unit: ObjectKind)
    ensures
        spec_default_build_list(level).contains(unit) <==> {
            let n = spec_level_number(level);
            ||| unit == ObjectKind::Robot(RobotType::Grunt)
            ||| unit == ObjectKind::Cannon(CannonType::Gatling)
            ||| (unit == ObjectKind::Robot(RobotType::Psycho) && n >= 1)
            ||| (unit == ObjectKind::Robot(RobotType::Sniper) && n >= 2)
            ||| (unit == ObjectKind::Robot(RobotType::Tough) && n >= 2)
            ||| (unit == ObjectKind::Cannon(CannonType::Gun) && n >= 2)
            ||| (unit == ObjectKind::Robot(RobotType::Pyro) && n >= 3)
            ||| (unit == ObjectKind::Cannon(CannonType::Howitzer) && n >= 3)
            ||| (unit == ObjectKind::Robot(RobotType::Laser) && n >= 4)
            ||| (unit == ObjectKind::Cannon(CannonType::MissileCannon) && n >= 5)
        },
        spec_default_build_list(level).no_duplicates(),
        spec_default_build_list(level).len() == (match level {
            ProductionLevel::Level0 => 2int,
            ProductionLevel::Level1 => 3,
            ProductionLevel::Level2 => 6,
            ProductionLevel::Level3 => 8,
            ProductionLevel::Level4 => 9,
            ProductionLevel::Level5 => 10,
        }),
{
    let list = spec_default_build_list(level);
    if list.contains(unit) {
        let i = choose|i: int| 0 <= i < list.len() && list[i] == unit;
        assert(list[i] == unit);
    } else {
        assert forall|i: int| 0 <= i < list.len() implies list[i] != unit by {}
    }
    assert forall|i: int, j: int| 0 <= i < list.len() && 0 <= j < list.len() && i != j implies list[i] != list[j] by {}
}

/// A robot factory lists the robots it has unlocked, in the order grunt,
/// psycho, sniper, tough, pyro, laser, and after them the cannons it has
/// unlocked, in the order gatling, gun, howitzer, missile cannon.
pub proof fn lemma_robot_factory_lists_robots_then_cannons(level: ProductionLevel)
    ensures
        spec_default_build_list(level) == seq![ObjectKind::Robot(RobotType::Grunt), ObjectKind::Robot(RobotType::Psycho), ObjectKind::Robot(RobotType::Sniper), ObjectKind::Robot(RobotType::Tough), ObjectKind::Robot(RobotType::Pyro), ObjectKind::Robot(RobotType::Laser)].take(
            match level {
                ProductionLevel::Level0 => 1int,
                ProductionLevel::Level1 => 2,
                ProductionLevel::Level2 => 4,
                ProductionLevel::Level3 => 5,
                ProductionLevel::Level4 => 6,
                ProductionLevel::Level5 => 6,
            },
        ) + seq![ObjectKind::Cannon(CannonType::Gatling), ObjectKind::Cannon(CannonType::Gun), ObjectKind::Cannon(CannonType::Howitzer), ObjectKind::Cannon(CannonType::MissileCannon)].take(
            match level {
                ProductionLevel::Level0 => 1int,
                ProductionLevel::Level1 => 1,
                ProductionLevel::Level2 => 2,
                ProductionLevel::Level3 => 3,
                ProductionLevel::Level4 => 3,
                ProductionLevel::Level5 => 4,
            },
        ),
{
    let robots = seq![ObjectKind::Robot(RobotType::Grunt), ObjectKind::Robot(RobotType::Psycho), ObjectKind::Robot(RobotType::Sniper), ObjectKind::Robot(RobotType::Tough), ObjectKind::Robot(RobotType::Pyro), ObjectKind::Robot(RobotType::Laser)];
    let cannons = seq![ObjectKind::Cannon(CannonType::Gatling), ObjectKind::Cannon(CannonType::Gun), ObjectKind::Cannon(CannonType::Howitzer), ObjectKind::Cannon(CannonType::MissileCannon)];
    match level {
        ProductionLevel::Level0 => assert(spec_default_build_list(level) =~= robots.take(1) + cannons.take(1)),
        ProductionLevel::Level1 => assert(spec_default_build_list(level) =~= robots.take(2) + cannons.take(1)),
        ProductionLevel::Level2 => assert(spec_default_build_list(level) =~= robots.take(4) + cannons.take(2)),
        ProductionLevel::Level3 => assert(spec_default_build_list(level) =~= robots.take(5) + cannons.take(3)),
        ProductionLevel::Level4 => assert(spec_default_build_list(level) =~= robots.take(6) + cannons.take(3)),
        ProductionLevel::Level5 => assert(spec_default_build_list(level) =~= robots.take(6) + cannons.take(4)),
    }
}

} // verus!
