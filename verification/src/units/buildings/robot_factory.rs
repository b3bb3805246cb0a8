//! The robot factory.

use std::collections::HashMap;
use vstd::prelude::*;

use crate::components::{spec_level_number, ObjectStats, ProductionLevel};
use crate::original::objects::{CannonType, ObjectKind, RobotType};
use crate::original::types::{PlanetType, TeamType};
use crate::render::atlas::FactoryOverlayKind;

pub mod robot_factory_logic;
pub mod robot_factory_ui;

verus! {

/// Asset path of a destroyed robot factory on `planet`.
pub fn destroyed_asset_path(planet: PlanetType) -> (r: String)
    ensures
        r@ == robot_factory_ui::spec_destroyed_asset_path(planet),
{
    robot_factory_ui::destroyed_asset_path(planet)
}

/// Units the robot factory lists at each level, robots and cannons interleaved
/// in unlock order.
pub open spec fn spec_default_build_list(level: ProductionLevel) -> Seq<ObjectKind> {
    let grunt = ObjectKind::Robot(RobotType::Grunt);
    let gatling = ObjectKind::Cannon(CannonType::Gatling);
    let psycho = ObjectKind::Robot(RobotType::Psycho);
    let sniper = ObjectKind::Robot(RobotType::Sniper);
    let tough = ObjectKind::Robot(RobotType::Tough);
    let gun = ObjectKind::Cannon(CannonType::Gun);
    let pyro = ObjectKind::Robot(RobotType::Pyro);
    let howitzer = ObjectKind::Cannon(CannonType::Howitzer);
    let laser = ObjectKind::Robot(RobotType::Laser);
    let missile = ObjectKind::Cannon(CannonType::MissileCannon);
    match level {
        ProductionLevel::Level0 => seq![grunt, gatling],
        ProductionLevel::Level1 => seq![grunt, gatling, psycho],
        ProductionLevel::Level2 => seq![grunt, gatling, psycho, sniper, tough, gun],
        ProductionLevel::Level3 => seq![grunt, gatling, psycho, sniper, tough, gun, pyro, howitzer],
        ProductionLevel::Level4 => seq![grunt, gatling, psycho, sniper, tough, gun, pyro, howitzer, laser],
        ProductionLevel::Level5 => seq![grunt, gatling, psycho, sniper, tough, gun, pyro, howitzer, laser, missile],
    }
}

/// In unlock order the robot factory offers grunts and gatlings from the
/// start, psychos from level 1, snipers, toughs and guns from level 2, pyros
/// and howitzers from level 3, lasers from level 4 and missile cannons at
/// level 5, each once; every level offers the start of the level-5 list.
pub proof fn lemma_robot_factory_unlock_order(level: ProductionLevel, unit: ObjectKind)
    ensures
        spec_default_build_list(level).contains(unit) <==> {
            let n = spec_level_number(level);
            ||| unit == ObjectKind::Robot(RobotType::Grunt)
            ||| unit == ObjectKind::Cannon(CannonType::Gatling)
            ||| (unit == ObjectKind::Robot(RobotType::Psycho) && n >= 1)
            ||| (unit == ObjectKind::Robot(RobotType::Sniper) && n >= 2)
            ||| (unit == ObjectKind::Robot(RobotType::Tough) && n >= 2)
            ||| (unit == ObjectKind::Cannon(CannonType::Gun) && n >= 2)
            ||| (unit == ObjectKind::Robot(RobotType::Pyro) && n >= 3)
            ||| (unit == ObjectKind::Cannon(CannonType::Howitzer) && n >= 3)
            ||| (unit == ObjectKind::Robot(RobotType::Laser) && n >= 4)
            ||| (unit == ObjectKind::Cannon(CannonType::MissileCannon) && n >= 5)
        },
        spec_default_build_list(level).no_duplicates(),
        spec_default_build_list(ProductionLevel::Level5) == seq![ObjectKind::Robot(RobotType::Grunt), ObjectKind::Cannon(CannonType::Gatling), ObjectKind::Robot(RobotType::Psycho), ObjectKind::Robot(RobotType::Sniper), ObjectKind::Robot(RobotType::Tough), ObjectKind::Cannon(CannonType::Gun), ObjectKind::Robot(RobotType::Pyro), ObjectKind::Cannon(CannonType::Howitzer), ObjectKind::Robot(RobotType::Laser), ObjectKind::Cannon(CannonType::MissileCannon)],
        spec_default_build_list(level) == spec_default_build_list(ProductionLevel::Level5).take(
            spec_default_build_list(level).len() as int,
        ),
{
    let list = spec_default_build_list(level);
    if list.contains(unit) {
        let i = choose|i: int| 0 <= i < list.len() && list[i] == unit;
        assert(list[i] == unit);
    } else {
        assert forall|i: int| 0 <= i < list.len() implies list[i] != unit by {}
    }
    assert forall|i: int, j: int| 0 <= i < list.len() && 0 <= j < list.len() && i != j implies list[i] != list[j] by {}
    let top = spec_default_build_list(ProductionLevel::Level5);
    assert(list =~= top.take(list.len() as int));
}

/// Units the robot factory lists at each level, in unlock order.
pub fn default_build_list(level: ProductionLevel) -> (r: Vec<ObjectKind>)
    ensures
        r@ == spec_default_build_list(level),
{
    let grunt = ObjectKind::Robot(RobotType::Grunt);
    let gatling = ObjectKind::Cannon(CannonType::Gatling);
    let psycho = ObjectKind::Robot(RobotType::Psycho);
    let sniper = ObjectKind::Robot(RobotType::Sniper);
    let tough = ObjectKind::Robot(RobotType::Tough);
    let gun = ObjectKind::Cannon(CannonType::Gun);
    let pyro = ObjectKind::Robot(RobotType::Pyro);
    let howitzer = ObjectKind::Cannon(CannonType::Howitzer);
    let laser = ObjectKind::Robot(RobotType::Laser);
    let missile = ObjectKind::Cannon(CannonType::MissileCannon);
    let r = match level {
        ProductionLevel::Level0 => vec![grunt, gatling],
        ProductionLevel::Level1 => vec![grunt, gatling, psycho],
        ProductionLevel::Level2 => vec![grunt, gatling, psycho, sniper, tough, gun],
        ProductionLevel::Level3 => vec![grunt, gatling, psycho, sniper, tough, gun, pyro, howitzer],
        ProductionLevel::Level4 => vec![grunt, gatling, psycho, sniper, tough, gun, pyro, howitzer, laser],
        ProductionLevel::Level5 => vec![grunt, gatling, psycho, sniper, tough, gun, pyro, howitzer, laser, missile],
    };
    proof {
        assert(r@ =~= spec_default_build_list(level));
    }
    r
}

/// The unit a robot factory starts building.
pub fn default_production_unit() -> (r: ObjectKind)
    ensures
        r == robot_factory_logic::spec_default_production_unit(),
{
    robot_factory_logic::default_production_unit()
}

/// Whether an overlay belongs to the robot factory.
pub fn overlay_kind_is_robot(kind: FactoryOverlayKind) -> (r: bool)
    ensures
        r == robot_factory_ui::spec_overlay_kind_is_robot(kind),
{
    robot_factory_ui::overlay_kind_is_robot(kind)
}

/// Whether a robot factory overlay at frame `current` is drawn.
pub fn overlay_should_be_visible(
    kind: FactoryOverlayKind,
    owner: TeamType,
    stats: ObjectStats,
    production_active: bool,
    current: usize,
) -> (r: bool)
    ensures
        r == robot_factory_ui::spec_overlay_should_be_visible(kind, owner, stats, production_active, current),
{
    robot_factory_ui::overlay_should_be_visible(kind, owner, stats, production_active, current)
}

/// The next frame of a robot factory overlay.
pub fn overlay_next_frame<F: FnOnce() -> Option<[usize; 3]>>(
    ref_id: u32,
    kind: FactoryOverlayKind,
    current: usize,
    frame_count: usize,
    draw: F,
    robot_light_updates: &mut HashMap<u32, Option<[usize; 3]>>,
) -> (r: usize)
    requires
        robot_factory_ui::spec_overlay_single_light_index(kind) is None ==> frame_count > 0,
        call_requires(draw, ()),
    ensures
        match robot_factory_ui::spec_overlay_single_light_index(kind) {
            None => r == (current + 1) % (frame_count as int) && final(robot_light_updates)@ == old(robot_light_updates)@,
            Some(light) => {
                let update = robot_factory_ui::spec_recorded_light_update(old(robot_light_updates)@, final(robot_light_updates)@, ref_id);
                &&& final(robot_light_updates)@ == old(robot_light_updates)@.insert(ref_id, update)
                &&& !old(robot_light_updates)@.contains_key(ref_id) ==> call_ensures(draw, (), update)
                &&& r == (match update {
                    Some(states) => states@[light as int],
                    None => current,
                })
            },
        },
{
    robot_factory_ui::overlay_next_frame(ref_id, kind, current, frame_count, draw, robot_light_updates)
}

/// States of the three single lights after a flicker.
pub fn robot_single_light_update(reroll: usize, lights: [usize; 3]) -> (r: Option<[usize; 3]>)
    requires
        reroll < 3,
        lights@[0] < 2,
        lights@[1] < 2,
        lights@[2] < 2,
    ensures
        r == (if reroll == 0 { Some(lights) } else { None::<[usize; 3]> }),
{
    robot_factory_ui::robot_single_light_update(reroll, lights)
}

/// Whether an overlay is one of the single lights.
pub fn overlay_is_single_light(kind: FactoryOverlayKind) -> (r: bool)
    ensures
        r == robot_factory_ui::spec_overlay_single_light_index(kind) is Some,
{
    robot_factory_ui::overlay_is_single_light(kind)
}

/// Which of the three single lights an overlay is, if it is one.
pub fn overlay_single_light_index(kind: FactoryOverlayKind) -> (r: Option<usize>)
    ensures
        r == robot_factory_ui::spec_overlay_single_light_index(kind),
{
    robot_factory_ui::overlay_single_light_index(kind)
}

} // verus!
