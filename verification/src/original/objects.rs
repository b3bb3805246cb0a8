use vstd::prelude::*;

verus! {

/// Robot unit types.
#[derive(Clone, Copy, Debug, PartialEq, Eq, Structural)]
pub enum RobotType {
    Grunt,
    Psycho,
    Sniper,
    Tough,
    Pyro,
    Laser,
}

/// Vehicle unit types.
#[derive(Clone, Copy, Debug, PartialEq, Eq, Structural)]
pub enum VehicleType {
    Jeep,
    Light,
    Medium,
    Heavy,
    Apc,
    MissileLauncher,
    Crane,
}

/// Cannon (gun turret) types.
#[derive(Clone, Copy, Debug, PartialEq, Eq, Structural)]
pub enum CannonType {
    Gatling,
    Gun,
    Howitzer,
    MissileCannon,
}

/// Building types; the two bridge types are placed as `ObjectKind::Bridge`.
#[derive(Clone, Copy, Debug, PartialEq, Eq, Structural)]
pub enum BuildingType {
    FortFront,
    FortBack,
    Radar,
    Repair,
    RobotFactory,
    VehicleFactory,
    BridgeVert,
    BridgeHorz,
}

/// Map item types, carried on the wire as a byte (see `item_code`).
#[derive(Clone, Copy, Debug, PartialEq, Eq, Structural)]
pub enum ItemType {
    Rock,
    Grenades,
    Rockets,
    Hut,
    MapObjectStart,
}

/// Every kind of object that can stand on a map.
#[derive(Clone, Copy, Debug, PartialEq, Eq, Structural)]
pub enum ObjectKind {
    Robot(RobotType),
    Vehicle(VehicleType),
    Cannon(CannonType),
    Building(BuildingType),
    Bridge(BuildingType),
    Animal(u8),
    MapItem(u8),
    Rock,
}

/// Byte code of a map item type, in declaration order.
pub open spec fn spec_item_code(item: ItemType) -> u8 {
    match item {
        ItemType::Rock => 0,
        ItemType::Grenades => 1,
        ItemType::Rockets => 2,
        ItemType::Hut => 3,
        ItemType::MapObjectStart => 4,
    }
}

/// Byte code of a map item type, as `ObjectKind::MapItem` carries it.
pub fn item_code(item: ItemType) -> (r: u8)
    ensures
        r == spec_item_code(item),
{
    match item {
        ItemType::Rock => 0,
        ItemType::Grenades => 1,
        ItemType::Rockets => 2,
        ItemType::Hut => 3,
        ItemType::MapObjectStart => 4,
    }
}

} // verus!
