//! The server's settings packet: its byte layout, how a client reads unit
//! settings and health ratios out of it, and how a packet replaces the
//! client's copy. Integers are little-endian `i32`; fractional values are
//! little-endian `f64` bit patterns, read back only when finite.

use vstd::prelude::*;

use crate::network_commands::{
    copy_tail, push_u32_le, spec_u32_le_bytes, spec_wire_packet, RequestSettingsCommand, SetSettingsPacket, PACKET_HEADER_SIZE,
    SET_SETTINGS_PACKET_ID, SOURCE_ZSETTINGS_PACKET_SIZE,
};
use crate::original::objects::{
    item_code, spec_item_code, BuildingType, CannonType, ItemType, ObjectKind, RobotType,
    VehicleType,
};

verus! {

pub const SOURCE_UNIT_SETTINGS_SIZE: usize = 72;
pub const SOURCE_ROBOT_COUNT: usize = 6;
pub const SOURCE_VEHICLE_COUNT: usize = 7;
pub const SOURCE_CANNON_COUNT: usize = 4;
pub const SOURCE_UNIT_COUNT: usize = 17;
pub const SOURCE_HEALTH_RATIOS_OFFSET: usize = 1224;
pub const SOURCE_HEALTH_RATIO_COUNT: usize = 11;
pub const SOURCE_GLOBALS_OFFSET: usize = 1312;

/// Unsigned value of the four little-endian bytes at `off`.
pub open spec fn spec_le_u32_at(b: Seq<u8>, off: int) -> int {
    b[off] + 256 * b[off + 1] + 65536 * b[off + 2] + 16777216 * b[off + 3]
}

/// Unsigned value of the eight little-endian bytes at `off`.
pub open spec fn spec_le_u64_at(b: Seq<u8>, off: int) -> int {
    spec_le_u32_at(b, off) + 4294967296 * spec_le_u32_at(b, off + 4)
}

/// The `i32` stored at `off`, if four bytes are there.
pub open spec fn spec_read_i32(b: Seq<u8>, off: int) -> Option<i32> {
    if 0 <= off && off + 4 <= b.len() {
        Some((spec_le_u32_at(b, off) as u32) as i32)
    } else {
        None
    }
}

/// Whether an `f64` bit pattern is finite (its exponent is not all ones).
pub open spec fn spec_f64_bits_finite(bits: u64) -> bool {
    (bits / 0x10_0000_0000_0000u64) % 2048 != 2047
}

/// The finite `f64` bit pattern stored at `off`, if eight bytes are there.
pub open spec fn spec_read_f64_bits(b: Seq<u8>, off: int) -> Option<u64> {
    if 0 <= off && off + 8 <= b.len() && spec_f64_bits_finite(spec_le_u64_at(b, off) as u64) {
        Some(spec_le_u64_at(b, off) as u64)
    } else {
        None
    }
}

/// Settings of one unit type as the packet carries them: counts and
/// distances as integers, fractional values as `f64` bit patterns.
#[derive(Clone, Copy, Debug, PartialEq, Eq, Structural)]
pub struct SourceUnitSettings {
    pub group_amount: u8,
    pub move_speed: i32,
    pub attack_radius: i32,
    pub attack_damage_bits: u64,
    pub attack_damage_chance_bits: u64,
    pub attack_damage_radius: i32,
    pub attack_missile_speed: i32,
    pub attack_speed_bits: u64,
    pub attack_snipe_chance_bits: u64,
    pub health_ratio_bits: u64,
    pub build_time: i32,
    pub max_run_time_bits: u64,
}

/// A read integer, raised to zero when negative.
pub open spec fn spec_non_negative(v: i32) -> i32 {
    if v < 0 { 0 } else { v }
}

/// A read group size: negative becomes zero, above `u8::MAX` becomes `u8::MAX`.
pub open spec fn spec_group_amount(v: i32) -> u8 {
    if v < 0 { 0 } else if v > 255 { 255 } else { v as u8 }
}

/// The unit settings block at `o`, if every field of it can be read.
pub open spec fn spec_unit_settings_at(b: Seq<u8>, o: int) -> Option<SourceUnitSettings> {
    let group = spec_read_i32(b, o);
    let move_speed = spec_read_i32(b, o + 4);
    let radius = spec_read_i32(b, o + 8);
    let damage = spec_read_f64_bits(b, o + 12);
    let chance = spec_read_f64_bits(b, o + 20);
    let damage_radius = spec_read_i32(b, o + 28);
    let missile_speed = spec_read_i32(b, o + 32);
    let speed = spec_read_f64_bits(b, o + 36);
    let snipe = spec_read_f64_bits(b, o + 44);
    let health = spec_read_f64_bits(b, o + 52);
    let build = spec_read_i32(b, o + 60);
    let run = spec_read_f64_bits(b, o + 64);
    if group is Some && move_speed is Some && radius is Some && damage is Some && chance is Some
        && damage_radius is Some && missile_speed is Some && speed is Some && snipe is Some
        && health is Some && build is Some && run is Some {
        Some(SourceUnitSettings {
            group_amount: spec_group_amount(group->0),
            move_speed: spec_non_negative(move_speed->0),
            attack_radius: spec_non_negative(radius->0),
            attack_damage_bits: damage->0,
            attack_damage_chance_bits: chance->0,
            attack_damage_radius: spec_non_negative(damage_radius->0),
            attack_missile_speed: spec_non_negative(missile_speed->0),
            attack_speed_bits: speed->0,
            attack_snipe_chance_bits: snipe->0,
            health_ratio_bits: health->0,
            build_time: spec_non_negative(build->0),
            max_run_time_bits: run->0,
        })
    } else {
        None
    }
}

/// Position of a robot type in the packet's unit blocks.
pub open spec fn spec_robot_index(robot: RobotType) -> nat {
    match robot {
        RobotType::Grunt => 0,
        RobotType::Psycho => 1,
        RobotType::Sniper => 2,
        RobotType::Tough => 3,
        RobotType::Pyro => 4,
        RobotType::Laser => 5,
    }
}

/// Position of a vehicle type among the vehicle blocks.
pub open spec fn spec_vehicle_index(vehicle: VehicleType) -> nat {
    match vehicle {
        VehicleType::Jeep => 0,
        VehicleType::Light => 1,
        VehicleType::Medium => 2,
        VehicleType::Heavy => 3,
        VehicleType::Apc => 4,
        VehicleType::MissileLauncher => 5,
        VehicleType::Crane => 6,
    }
}

/// Position of a cannon type among the cannon blocks.
pub open spec fn spec_cannon_index(cannon: CannonType) -> nat {
    match cannon {
        CannonType::Gatling => 0,
        CannonType::Gun => 1,
        CannonType::Howitzer => 2,
        CannonType::MissileCannon => 3,
    }
}

/// Block index of a unit kind: robots, then vehicles, then cannons; other
/// kinds have no unit block.
pub open spec fn spec_source_unit_settings_index(kind: ObjectKind) -> Option<nat> {
    match kind {
        ObjectKind::Robot(r) => Some(spec_robot_index(r)),
        ObjectKind::Vehicle(v) => Some(6 + spec_vehicle_index(v)),
        ObjectKind::Cannon(c) => Some(13 + spec_cannon_index(c)),
        _ => None,
    }
}

/// The settings packet holds one unit block per unit type, in this order:
/// the robots grunt, psycho, sniper, tough, pyro and laser, then the
/// vehicles jeep, light, medium and heavy tank, APC, missile launcher and
/// crane, then the cannons gatling, gun, howitzer and missile cannon. The
/// block of `kind` is its place in that order; every place belongs to one
/// unit type, and kinds that are not units (buildings, items, animals) have
/// no block.
pub proof fn lemma_unit_block_layout(kind: ObjectKind, other: ObjectKind)
    ensures
        ({
            let order: Seq<ObjectKind> = seq![
            ObjectKind::Robot(RobotType::Grunt),
            ObjectKind::Robot(RobotType::Psycho),
            ObjectKind::Robot(RobotType::Sniper),
            ObjectKind::Robot(RobotType::Tough),
            ObjectKind::Robot(RobotType::Pyro),
            ObjectKind::Robot(RobotType::Laser),
            ObjectKind::Vehicle(VehicleType::Jeep),
            ObjectKind::Vehicle(VehicleType::Light),
            ObjectKind::Vehicle(VehicleType::Medium),
            ObjectKind::Vehicle(VehicleType::Heavy),
            ObjectKind::Vehicle(VehicleType::Apc),
            ObjectKind::Vehicle(VehicleType::MissileLauncher),
            ObjectKind::Vehicle(VehicleType::Crane),
            ObjectKind::Cannon(CannonType::Gatling),
            ObjectKind::Cannon(CannonType::Gun),
            ObjectKind::Cannon(CannonType::Howitzer),
            ObjectKind::Cannon(CannonType::MissileCannon),
        ];
            &&& order.len() == SOURCE_UNIT_COUNT
            &&& forall|i: int| 0 <= i < order.len() ==> spec_source_unit_settings_index(#[trigger] order[i]) == Some(i as nat)
            &&& match spec_source_unit_settings_index(kind) {
                Some(i) => i < order.len() && order[i as int] == kind,
                None => !(kind is Robot || kind is Vehicle || kind is Cannon),
            }
        }),
        spec_source_unit_settings_index(kind) is Some && spec_source_unit_settings_index(kind)
            == spec_source_unit_settings_index(other) ==> kind == other,
{
    let order: Seq<ObjectKind> = seq![
            ObjectKind::Robot(RobotType::Grunt),
            ObjectKind::Robot(RobotType::Psycho),
            ObjectKind::Robot(RobotType::Sniper),
            ObjectKind::Robot(RobotType::Tough),
            ObjectKind::Robot(RobotType::Pyro),
            ObjectKind::Robot(RobotType::Laser),
            ObjectKind::Vehicle(VehicleType::Jeep),
            ObjectKind::Vehicle(VehicleType::Light),
            ObjectKind::Vehicle(VehicleType::Medium),
            ObjectKind::Vehicle(VehicleType::Heavy),
            ObjectKind::Vehicle(VehicleType::Apc),
            ObjectKind::Vehicle(VehicleType::MissileLauncher),
            ObjectKind::Vehicle(VehicleType::Crane),
            ObjectKind::Cannon(CannonType::Gatling),
            ObjectKind::Cannon(CannonType::Gun),
            ObjectKind::Cannon(CannonType::Howitzer),
            ObjectKind::Cannon(CannonType::MissileCannon),
        ];
    assert forall|i: int| 0 <= i < order.len() implies spec_source_unit_settings_index(#[trigger] order[i]) == Some(
        i as nat,
    ) by {
        assert(0 <= i < 17);
    }
}

/// Block index of a unit kind in the settings packet.
pub fn source_unit_settings_index(kind: ObjectKind) -> (r: Option<usize>)
    ensures
        r matches Some(i) ==> spec_source_unit_settings_index(kind) == Some(i as nat),
        r is None <==> spec_source_unit_settings_index(kind) is None,
{
    match kind {
        ObjectKind::Robot(robot) => Some(
            match robot {
                RobotType::Grunt => 0,
                RobotType::Psycho => 1,
                RobotType::Sniper => 2,
                RobotType::Tough => 3,
                RobotType::Pyro => 4,
                RobotType::Laser => 5,
            },
        ),
        ObjectKind::Vehicle(vehicle) => Some(
            SOURCE_ROBOT_COUNT + match vehicle {
                VehicleType::Jeep => 0,
                VehicleType::Light => 1,
                VehicleType::Medium => 2,
                VehicleType::Heavy => 3,
                VehicleType::Apc => 4,
                VehicleType::MissileLauncher => 5,
                VehicleType::Crane => 6,
            },
        ),
        ObjectKind::Cannon(cannon) => Some(
            SOURCE_ROBOT_COUNT + SOURCE_VEHICLE_COUNT + match cannon {
                CannonType::Gatling => 0,
                CannonType::Gun => 1,
                CannonType::Howitzer => 2,
                CannonType::MissileCannon => 3,
            },
        ),
        _ => None,
    }
}

/// Health ratio slot of a non-unit kind: forts, robot factory, vehicle
/// factory, repair, radar, bridges, rocks, grenade boxes, rocket boxes, huts,
/// and then every other map item or animal.
pub open spec fn spec_source_health_ratio_index(kind: ObjectKind) -> Option<nat> {
    match kind {
        ObjectKind::Building(BuildingType::FortFront) => Some(0),
        ObjectKind::Building(BuildingType::FortBack) => Some(0),
        ObjectKind::Building(BuildingType::RobotFactory) => Some(1),
        ObjectKind::Building(BuildingType::VehicleFactory) => Some(2),
        ObjectKind::Building(BuildingType::Repair) => Some(3),
        ObjectKind::Building(BuildingType::Radar) => Some(4),
        ObjectKind::Bridge(BuildingType::BridgeVert) => Some(5),
        ObjectKind::Bridge(BuildingType::BridgeHorz) => Some(5),
        ObjectKind::Rock => Some(6),
        ObjectKind::MapItem(item) => if item == spec_item_code(ItemType::Rock) {
            Some(6)
        } else if item == spec_item_code(ItemType::Grenades) {
            Some(7)
        } else if item == spec_item_code(ItemType::Rockets) {
            Some(8)
        } else if item == spec_item_code(ItemType::Hut) {
            Some(9)
        } else {
            Some(10)
        },
        ObjectKind::Animal(_) => Some(10),
        _ => None,
    }
}

/// The health ratio slots of the settings packet, one per kind of non-unit
/// object: both halves of a fort share slot 0, then the robot factory (1),
/// the vehicle factory (2), the repair building (3) and the radar (4); both
/// bridges share slot 5; rocks, standing or as map items, share slot 6; then
/// grenade boxes (7), rocket boxes (8) and huts (9), and every other map item
/// and every animal share the last slot, 10. Units have no slot. Two kinds
/// share a slot only in those shared cases.
pub proof fn lemma_health_ratio_slots(kind: ObjectKind, other: ObjectKind)
    ensures
        spec_source_health_ratio_index(ObjectKind::Building(BuildingType::FortFront)) == Some(0nat),
        spec_source_health_ratio_index(ObjectKind::Building(BuildingType::FortBack)) == Some(0nat),
        spec_source_health_ratio_index(ObjectKind::Building(BuildingType::RobotFactory)) == Some(1nat),
        spec_source_health_ratio_index(ObjectKind::Building(BuildingType::VehicleFactory)) == Some(2nat),
        spec_source_health_ratio_index(ObjectKind::Building(BuildingType::Repair)) == Some(3nat),
        spec_source_health_ratio_index(ObjectKind::Building(BuildingType::Radar)) == Some(4nat),
        spec_source_health_ratio_index(ObjectKind::Bridge(BuildingType::BridgeVert)) == Some(5nat),
        spec_source_health_ratio_index(ObjectKind::Bridge(BuildingType::BridgeHorz)) == Some(5nat),
        spec_source_health_ratio_index(ObjectKind::Rock) == Some(6nat),
        spec_source_health_ratio_index(ObjectKind::MapItem(spec_item_code(ItemType::Rock))) == Some(6nat),
        spec_source_health_ratio_index(ObjectKind::MapItem(spec_item_code(ItemType::Grenades))) == Some(7nat),
        spec_source_health_ratio_index(ObjectKind::MapItem(spec_item_code(ItemType::Rockets))) == Some(8nat),
        spec_source_health_ratio_index(ObjectKind::MapItem(spec_item_code(ItemType::Hut))) == Some(9nat),
        kind is Animal ==> spec_source_health_ratio_index(kind) == Some(10nat),
        (kind is Robot || kind is Vehicle || kind is Cannon) ==> spec_source_health_ratio_index(kind) is None,
        spec_source_health_ratio_index(kind) matches Some(i) ==> i <= 10,
        spec_source_health_ratio_index(kind) is Some && spec_source_health_ratio_index(kind)
            == spec_source_health_ratio_index(other) && spec_source_health_ratio_index(kind) != Some(0nat)
            && spec_source_health_ratio_index(kind) != Some(5nat) && spec_source_health_ratio_index(kind) != Some(6nat)
            && spec_source_health_ratio_index(kind) != Some(10nat) ==> kind == other,
{
}

/// Health ratio slot of a non-unit kind in the settings packet.
pub fn source_health_ratio_index(kind: ObjectKind) -> (r: Option<usize>)
    ensures
        r matches Some(i) ==> spec_source_health_ratio_index(kind) == Some(i as nat),
        r is None <==> spec_source_health_ratio_index(kind) is None,
{
    match kind {
        ObjectKind::Building(BuildingType::FortFront) => Some(0),
        ObjectKind::Building(BuildingType::FortBack) => Some(0),
        ObjectKind::Building(BuildingType::RobotFactory) => Some(1),
        ObjectKind::Building(BuildingType::VehicleFactory) => Some(2),
        ObjectKind::Building(BuildingType::Repair) => Some(3),
        ObjectKind::Building(BuildingType::Radar) => Some(4),
        ObjectKind::Bridge(BuildingType::BridgeVert) => Some(5),
        ObjectKind::Bridge(BuildingType::BridgeHorz) => Some(5),
        ObjectKind::Rock => Some(6),
        ObjectKind::MapItem(item) => {
            if item == item_code(ItemType::Rock) {
                Some(6)
            } else if item == item_code(ItemType::Grenades) {
                Some(7)
            } else if item == item_code(ItemType::Rockets) {
                Some(8)
            } else if item == item_code(ItemType::Hut) {
                Some(9)
            } else {
                Some(10)
            }
        },
        ObjectKind::Animal(_) => Some(10),
        _ => None,
    }
}

/// Settings of a unit kind held in the packet `b`, if it has a unit block
/// whose fields can all be read.
pub open spec fn spec_unit_settings(b: Seq<u8>, kind: ObjectKind) -> Option<SourceUnitSettings> {
    match spec_source_unit_settings_index(kind) {
        Some(i) => spec_unit_settings_at(b, (i * 72) as int),
        None => None,
    }
}

/// Units of `kind` that one production run creates: a robot group of the
/// configured size (none if unreadable), one vehicle, and no free-standing
/// object for anything else.
pub open spec fn spec_produced_object_count(b: Seq<u8>, kind: ObjectKind) -> u8 {
    match kind {
        ObjectKind::Robot(_) => match spec_unit_settings(b, kind) {
            Some(s) => s.group_amount,
            None => 0,
        },
        ObjectKind::Vehicle(_) => 1,
        _ => 0,
    }
}

/// Objects spawned for a new unit of `kind`: a robot group, or a single object.
pub open spec fn spec_initial_spawn_count(b: Seq<u8>, kind: ObjectKind) -> u32 {
    match kind {
        ObjectKind::Robot(_) => spec_produced_object_count(b, kind) as u32,
        _ => 1,
    }
}

/// Health ratio of a kind: its unit block's ratio when it has a readable unit
/// block, otherwise its health ratio slot.
pub open spec fn spec_object_health_ratio_bits(b: Seq<u8>, kind: ObjectKind) -> Option<u64> {
    match spec_unit_settings(b, kind) {
        Some(s) => Some(s.health_ratio_bits),
        None => match spec_source_health_ratio_index(kind) {
            Some(i) => spec_read_f64_bits(b, (1224 + 8 * i) as int),
            None => None,
        },
    }
}

/// The client's copy of the server settings packet.
#[derive(Clone, Debug)]
pub struct SourceSettingsState {
    packet_bytes: Vec<u8>,
}

impl View for SourceSettingsState {
    type V = Seq<u8>;

    closed spec fn view(&self) -> Seq<u8> {
        self.packet_bytes@
    }
}

impl SourceSettingsState {
    /// Settings held as the given packet bytes.
    pub fn new(packet_bytes: Vec<u8>) -> (r: SourceSettingsState)
        ensures
            r@ == packet_bytes@,
    {
        SourceSettingsState { packet_bytes }
    }

    /// The packet bytes.
    pub fn packet_bytes(&self) -> (r: &[u8])
        ensures
            r@ == self@,
    {
        self.packet_bytes.as_slice()
    }

    /// The `i32` at `offset`, if four bytes are there.
    pub fn read_i32(&self, offset: usize) -> (r: Option<i32>)
        ensures
            r == spec_read_i32(self@, offset as int),
    {
        if offset > self.packet_bytes.len() || self.packet_bytes.len() - offset < 4 {
            return None;
        }
        let b = &self.packet_bytes;
        let v: u32 = b[offset] as u32 + 256 * (b[offset + 1] as u32) + 65536 * (b[offset + 2] as u32)
            + 16777216 * (b[offset + 3] as u32);
        Some(v as i32)
    }

    /// The finite `f64` bit pattern at `offset`, if eight bytes are there.
    pub fn read_f64_bits(&self, offset: usize) -> (r: Option<u64>)
        ensures
            r == spec_read_f64_bits(self@, offset as int),
    {
        if offset > self.packet_bytes.len() || self.packet_bytes.len() - offset < 8 {
            return None;
        }
        let b = &self.packet_bytes;
        let lo: u64 = b[offset] as u64 + 256 * (b[offset + 1] as u64) + 65536 * (b[offset + 2] as u64)
            + 16777216 * (b[offset + 3] as u64);
        let hi: u64 = b[offset + 4] as u64 + 256 * (b[offset + 5] as u64) + 65536 * (b[offset + 6] as u64)
            + 16777216 * (b[offset + 7] as u64);
        let bits: u64 = lo + 4294967296 * hi;
        if (bits / 0x10_0000_0000_0000u64) % 2048 == 2047 {
            return None;
        }
        Some(bits)
    }

    /// Settings of a unit kind, if it has a unit block and every field of the
    /// block can be read.
    pub fn unit_settings(&self, kind: ObjectKind) -> (r: Option<SourceUnitSettings>)
        ensures
            r == spec_unit_settings(self@, kind),
    {
        let index = source_unit_settings_index(kind)?;
        let offset = index.checked_mul(SOURCE_UNIT_SETTINGS_SIZE)?;
        let group = self.read_i32(offset)?;
        let move_speed = self.read_i32(offset + 4)?;
        let radius = self.read_i32(offset + 8)?;
        let damage = self.read_f64_bits(offset + 12)?;
        let chance = self.read_f64_bits(offset + 20)?;
        let damage_radius = self.read_i32(offset + 28)?;
        let missile_speed = self.read_i32(offset + 32)?;
        let speed = self.read_f64_bits(offset + 36)?;
        let snipe = self.read_f64_bits(offset + 44)?;
        let health = self.read_f64_bits(offset + 52)?;
        let build = self.read_i32(offset + 60)?;
        let run = self.read_f64_bits(offset + 64)?;
        Some(SourceUnitSettings {
            group_amount: if group < 0 { 0 } else if group > 255 { 255 } else { group as u8 },
            move_speed: if move_speed < 0 { 0 } else { move_speed },
            attack_radius: if radius < 0 { 0 } else { radius },
            attack_damage_bits: damage,
            attack_damage_chance_bits: chance,
            attack_damage_radius: if damage_radius < 0 { 0 } else { damage_radius },
            attack_missile_speed: if missile_speed < 0 { 0 } else { missile_speed },
            attack_speed_bits: speed,
            attack_snipe_chance_bits: snipe,
            health_ratio_bits: health,
            build_time: if build < 0 { 0 } else { build },
            max_run_time_bits: run,
        })
    }
}

impl SourceSettingsState {
    /// Health ratio of a kind as an `f64` bit pattern, from its unit block or
    /// its health ratio slot.
    pub fn object_health_ratio_bits(&self, kind: ObjectKind) -> (r: Option<u64>)
        ensures
            r == spec_object_health_ratio_bits(self@, kind),
    {
        if let Some(settings) = self.unit_settings(kind) {
            return Some(settings.health_ratio_bits);
        }
        let index = source_health_ratio_index(kind)?;
        self.read_f64_bits(SOURCE_HEALTH_RATIOS_OFFSET + index * 8)
    }

    /// Units of `kind` that one production run creates.
    pub fn produced_object_count(&self, kind: ObjectKind) -> (r: u8)
        ensures
            r == spec_produced_object_count(self@, kind),
    {
        match kind {
            ObjectKind::Robot(_) => match self.unit_settings(kind) {
                Some(settings) => settings.group_amount,
                None => 0,
            },
            ObjectKind::Vehicle(_) => 1,
            ObjectKind::Cannon(_) => 0,
            _ => 0,
        }
    }

    /// Objects spawned for a new unit of `kind`.
    pub fn initial_spawn_count(&self, kind: ObjectKind) -> (r: u32)
        ensures
            r == spec_initial_spawn_count(self@, kind),
    {
        match kind {
            ObjectKind::Robot(_) => self.produced_object_count(kind) as u32,
            _ => 1,
        }
    }
}

/// Little-endian bytes of an `i32`.
#[verifier::opaque]
pub open spec fn spec_i32_le_bytes(v: i32) -> Seq<u8> {
    spec_u32_le_bytes(v as u32)
}

/// Little-endian bytes of a 64-bit pattern.
#[verifier::opaque]
pub open spec fn spec_u64_le_bytes(v: u64) -> Seq<u8> {
    spec_u32_le_bytes((v % 4294967296) as u32) + spec_u32_le_bytes((v / 4294967296) as u32)
}

/// Appends an `i32` in little-endian order.
pub fn push_i32(payload: &mut Vec<u8>, value: i32)
    ensures
        final(payload)@ == old(payload)@ + spec_i32_le_bytes(value),
{
    push_u32_le(payload, value as u32);
    proof {
        reveal(spec_i32_le_bytes);
    }
}

proof fn lemma_le_bytes_len(v: i32, w: u64)
    ensures
        spec_i32_le_bytes(v).len() == 4,
        spec_u64_le_bytes(w).len() == 8,
{
    reveal(spec_i32_le_bytes);
    reveal(spec_u64_le_bytes);
}

/// Appends a 64-bit pattern in little-endian order.
pub fn push_f64_bits(payload: &mut Vec<u8>, bits: u64)
    ensures
        final(payload)@ == old(payload)@ + spec_u64_le_bytes(bits),
{
    push_u32_le(payload, (bits % 4294967296) as u32);
    push_u32_le(payload, (bits / 4294967296) as u32);
    proof {
        reveal(spec_u64_le_bytes);
        assert(payload@ =~= old(payload)@ + spec_u64_le_bytes(bits));
    }
}

/// The 72-byte block of one unit's settings.
#[verifier::opaque]
pub open spec fn spec_unit_settings_bytes(s: SourceUnitSettings) -> Seq<u8> {
    spec_i32_le_bytes(s.group_amount as i32) + spec_i32_le_bytes(s.move_speed)
        + spec_i32_le_bytes(s.attack_radius) + spec_u64_le_bytes(s.attack_damage_bits)
        + spec_u64_le_bytes(s.attack_damage_chance_bits) + spec_i32_le_bytes(s.attack_damage_radius)
        + spec_i32_le_bytes(s.attack_missile_speed) + spec_u64_le_bytes(s.attack_speed_bits)
        + spec_u64_le_bytes(s.attack_snipe_chance_bits) + spec_u64_le_bytes(s.health_ratio_bits)
        + spec_i32_le_bytes(s.build_time) + spec_u64_le_bytes(s.max_run_time_bits)
}

/// Appends the block of one unit's settings.
pub fn push_unit_settings(payload: &mut Vec<u8>, settings: SourceUnitSettings)
    ensures
        final(payload)@ == old(payload)@ + spec_unit_settings_bytes(settings),
{
    let ghost start = old(payload)@;
    let ghost b0 = spec_i32_le_bytes(settings.group_amount as i32);
    let ghost b1 = b0 + spec_i32_le_bytes(settings.move_speed);
    let ghost b2 = b1 + spec_i32_le_bytes(settings.attack_radius);
    let ghost b3 = b2 + spec_u64_le_bytes(settings.attack_damage_bits);
    let ghost b4 = b3 + spec_u64_le_bytes(settings.attack_damage_chance_bits);
    let ghost b5 = b4 + spec_i32_le_bytes(settings.attack_damage_radius);
    let ghost b6 = b5 + spec_i32_le_bytes(settings.attack_missile_speed);
    let ghost b7 = b6 + spec_u64_le_bytes(settings.attack_speed_bits);
    let ghost b8 = b7 + spec_u64_le_bytes(settings.attack_snipe_chance_bits);
    let ghost b9 = b8 + spec_u64_le_bytes(settings.health_ratio_bits);
    let ghost b10 = b9 + spec_i32_le_bytes(settings.build_time);
    let ghost b11 = b10 + spec_u64_le_bytes(settings.max_run_time_bits);
    push_i32(payload, settings.group_amount as i32);
    assert(payload@ =~= start + b0);
    push_i32(payload, settings.move_speed);
    assert(payload@ =~= start + b1);
    push_i32(payload, settings.attack_radius);
    assert(payload@ =~= start + b2);
    push_f64_bits(payload, settings.attack_damage_bits);
    assert(payload@ =~= start + b3);
    push_f64_bits(payload, settings.attack_damage_chance_bits);
    assert(payload@ =~= start + b4);
    push_i32(payload, settings.attack_damage_radius);
    assert(payload@ =~= start + b5);
    push_i32(payload, settings.attack_missile_speed);
    assert(payload@ =~= start + b6);
    push_f64_bits(payload, settings.attack_speed_bits);
    assert(payload@ =~= start + b7);
    push_f64_bits(payload, settings.attack_snipe_chance_bits);
    assert(payload@ =~= start + b8);
    push_f64_bits(payload, settings.health_ratio_bits);
    assert(payload@ =~= start + b9);
    push_i32(payload, settings.build_time);
    assert(payload@ =~= start + b10);
    push_f64_bits(payload, settings.max_run_time_bits);
    assert(payload@ =~= start + b11);
    assert(b11 == spec_unit_settings_bytes(settings)) by {
        reveal(spec_unit_settings_bytes);
    }
}

proof fn lemma_unit_settings_bytes_len(s: SourceUnitSettings)
    ensures
        spec_unit_settings_bytes(s).len() == 72,
{
    reveal(spec_unit_settings_bytes);
    lemma_le_bytes_len(s.group_amount as i32, s.attack_damage_bits);
    lemma_le_bytes_len(s.move_speed, s.attack_damage_chance_bits);
    lemma_le_bytes_len(s.attack_radius, s.attack_speed_bits);
    lemma_le_bytes_len(s.attack_damage_radius, s.attack_snipe_chance_bits);
    lemma_le_bytes_len(s.attack_missile_speed, s.health_ratio_bits);
    lemma_le_bytes_len(s.build_time, s.max_run_time_bits);
}

/// Every value that the settings packet carries, in packet order.
#[derive(Clone, Copy, Debug)]
pub struct SourceSettingsTable {
    /// Unit blocks: six robots, seven vehicles, four cannons.
    pub units: [SourceUnitSettings; 17],
    /// Health ratio slots (see `source_health_ratio_index`).
    pub health_ratio_bits: [u64; 11],
    pub grenade_damage_ratio_bits: u64,
    pub grenade_damage_radius: i32,
    pub grenade_missile_speed: i32,
    pub grenade_attack_speed_bits: u64,
    pub rocket_damage_ratio_bits: u64,
    /// Distances, delays and counts of unit behaviour, in packet order.
    pub behavior_values: [i32; 8],
    /// Speed factors of damaged and running units, in packet order.
    pub speed_factor_bits: [u64; 4],
    pub hut_animal_max: i32,
    pub hut_animal_min: i32,
    pub hut_spawn_distance: i32,
}

/// Blocks of a sequence of unit settings, in order.
pub open spec fn spec_units_bytes(units: Seq<SourceUnitSettings>) -> Seq<u8>
    decreases units.len(),
{
    if units.len() == 0 {
        Seq::empty()
    } else {
        spec_units_bytes(units.drop_last()) + spec_unit_settings_bytes(units.last())
    }
}

/// Eight-byte patterns of a sequence, in order.
pub open spec fn spec_u64_list_bytes(values: Seq<u64>) -> Seq<u8>
    decreases values.len(),
{
    if values.len() == 0 {
        Seq::empty()
    } else {
        spec_u64_list_bytes(values.drop_last()) + spec_u64_le_bytes(values.last())
    }
}

/// Four-byte integers of a sequence, in order.
pub open spec fn spec_i32_list_bytes(values: Seq<i32>) -> Seq<u8>
    decreases values.len(),
{
    if values.len() == 0 {
        Seq::empty()
    } else {
        spec_i32_list_bytes(values.drop_last()) + spec_i32_le_bytes(values.last())
    }
}

/// The packed settings payload of a table.
pub open spec fn spec_zsettings_payload(t: SourceSettingsTable) -> Seq<u8> {
    spec_units_bytes(t.units@) + spec_u64_list_bytes(t.health_ratio_bits@)
        + spec_u64_le_bytes(t.grenade_damage_ratio_bits) + spec_i32_le_bytes(t.grenade_damage_radius)
        + spec_i32_le_bytes(t.grenade_missile_speed) + spec_u64_le_bytes(t.grenade_attack_speed_bits)
        + spec_u64_le_bytes(t.rocket_damage_ratio_bits) + spec_i32_list_bytes(t.behavior_values@)
        + spec_u64_list_bytes(t.speed_factor_bits@) + spec_i32_le_bytes(t.hut_animal_max)
        + spec_i32_le_bytes(t.hut_animal_min) + spec_i32_le_bytes(t.hut_spawn_distance)
}

proof fn lemma_units_bytes_len(units: Seq<SourceUnitSettings>)
    ensures
        spec_units_bytes(units).len() == 72 * units.len(),
    decreases units.len(),
{
    if units.len() > 0 {
        lemma_units_bytes_len(units.drop_last());
        lemma_unit_settings_bytes_len(units.last());
    }
}

proof fn lemma_u64_list_bytes_len(values: Seq<u64>)
    ensures
        spec_u64_list_bytes(values).len() == 8 * values.len(),
    decreases values.len(),
{
    if values.len() > 0 {
        lemma_u64_list_bytes_len(values.drop_last());
        lemma_le_bytes_len(0, values.last());
    }
}

proof fn lemma_i32_list_bytes_len(values: Seq<i32>)
    ensures
        spec_i32_list_bytes(values).len() == 4 * values.len(),
    decreases values.len(),
{
    if values.len() > 0 {
        lemma_i32_list_bytes_len(values.drop_last());
        lemma_le_bytes_len(values.last(), 0);
    }
}

/// The packed settings payload of a table: unit blocks, health ratios, then
/// the global values.
pub fn source_zsettings_payload(table: &SourceSettingsTable) -> (r: Vec<u8>)
    ensures
        r@ == spec_zsettings_payload(*table),
        r@.len() == SOURCE_ZSETTINGS_PACKET_SIZE,
{
    let mut payload: Vec<u8> = Vec::new();
    let mut i: usize = 0;
    while i < 17
        invariant
            i <= 17,
            payload@ == spec_units_bytes(table.units@.subrange(0, i as int)),
        decreases 17 - i,
    {
        push_unit_settings(&mut payload, table.units[i]);
        proof {
            assert(table.units@.subrange(0, i + 1).drop_last() =~= table.units@.subrange(0, i as int));
        }
        i = i + 1;
    }
    proof {
        assert(table.units@.subrange(0, 17) =~= table.units@);
    }
    let ghost after_units = payload@;
    let mut k: usize = 0;
    while k < 11
        invariant
            k <= 11,
            payload@ == after_units + spec_u64_list_bytes(table.health_ratio_bits@.subrange(0, k as int)),
        decreases 11 - k,
    {
        push_f64_bits(&mut payload, table.health_ratio_bits[k]);
        proof {
            assert(table.health_ratio_bits@.subrange(0, k + 1).drop_last()
                =~= table.health_ratio_bits@.subrange(0, k as int));
            assert(payload@ =~= after_units + spec_u64_list_bytes(table.health_ratio_bits@.subrange(0, k + 1)));
        }
        k = k + 1;
    }
    proof {
        assert(table.health_ratio_bits@.subrange(0, 11) =~= table.health_ratio_bits@);
    }
    push_f64_bits(&mut payload, table.grenade_damage_ratio_bits);
    push_i32(&mut payload, table.grenade_damage_radius);
    push_i32(&mut payload, table.grenade_missile_speed);
    push_f64_bits(&mut payload, table.grenade_attack_speed_bits);
    push_f64_bits(&mut payload, table.rocket_damage_ratio_bits);
    let ghost before_behavior = payload@;
    let mut j: usize = 0;
    while j < 8
        invariant
            j <= 8,
            payload@ == before_behavior + spec_i32_list_bytes(table.behavior_values@.subrange(0, j as int)),
        decreases 8 - j,
    {
        push_i32(&mut payload, table.behavior_values[j]);
        proof {
            assert(table.behavior_values@.subrange(0, j + 1).drop_last()
                =~= table.behavior_values@.subrange(0, j as int));
            assert(payload@ =~= before_behavior + spec_i32_list_bytes(table.behavior_values@.subrange(0, j + 1)));
        }
        j = j + 1;
    }
    proof {
        assert(table.behavior_values@.subrange(0, 8) =~= table.behavior_values@);
    }
    let ghost before_speeds = payload@;
    let mut m: usize = 0;
    while m < 4
        invariant
            m <= 4,
            payload@ == before_speeds + spec_u64_list_bytes(table.speed_factor_bits@.subrange(0, m as int)),
        decreases 4 - m,
    {
        push_f64_bits(&mut payload, table.speed_factor_bits[m]);
        proof {
            assert(table.speed_factor_bits@.subrange(0, m + 1).drop_last()
                =~= table.speed_factor_bits@.subrange(0, m as int));
            assert(payload@ =~= before_speeds + spec_u64_list_bytes(table.speed_factor_bits@.subrange(0, m + 1)));
        }
        m = m + 1;
    }
    proof {
        assert(table.speed_factor_bits@.subrange(0, 4) =~= table.speed_factor_bits@);
    }
    push_i32(&mut payload, table.hut_animal_max);
    push_i32(&mut payload, table.hut_animal_min);
    push_i32(&mut payload, table.hut_spawn_distance);
    proof {
        assert(payload@ =~= spec_zsettings_payload(*table));
        lemma_units_bytes_len(table.units@);
        lemma_le_bytes_len(table.grenade_damage_radius, table.grenade_damage_ratio_bits);
        lemma_le_bytes_len(table.grenade_missile_speed, table.grenade_attack_speed_bits);
        lemma_le_bytes_len(table.hut_animal_max, table.rocket_damage_ratio_bits);
        lemma_le_bytes_len(table.hut_animal_min, 0);
        lemma_le_bytes_len(table.hut_spawn_distance, 0);
        lemma_u64_list_bytes_len(table.health_ratio_bits@);
        lemma_i32_list_bytes_len(table.behavior_values@);
        lemma_u64_list_bytes_len(table.speed_factor_bits@);
    }
    payload
}

/// The payload carried by a wire packet: everything after its header.
pub proof fn lemma_wire_packet_payload(id: u32, payload: Seq<u8>)
    ensures
        spec_wire_packet(id, payload).len() == 8 + payload.len(),
        spec_wire_packet(id, payload).subrange(8, 8 + payload.len() as int) == payload,
{
    assert(spec_wire_packet(id, payload).subrange(8, 8 + payload.len() as int) =~= payload);
}

/// Replaces the client's settings with the packet's bytes.
pub fn apply_set_settings(settings: &mut SourceSettingsState, packet: SetSettingsPacket) -> (r: bool)
    ensures
        r,
        final(settings)@ == packet.bytes@,
{
    settings.packet_bytes = packet.bytes;
    true
}

/// Sends a settings packet through its wire form and applies what arrives:
/// the client's settings become the packet's bytes exactly when they have
/// the packed settings size, and stay as they were otherwise.
pub fn relay_set_settings(settings: &mut SourceSettingsState, packet: SetSettingsPacket) -> (r: bool)
    ensures
        r == (packet.bytes@.len() == SOURCE_ZSETTINGS_PACKET_SIZE),
        r ==> final(settings)@ == packet.bytes@,
        !r ==> final(settings)@ == old(settings)@,
{
    if packet.bytes.len() > 0xffff_ffff {
        return false;
    }
    let wire_packet = packet.encode_packet();
    if wire_packet.len() < PACKET_HEADER_SIZE {
        return false;
    }
    let payload = copy_tail(wire_packet.as_slice(), PACKET_HEADER_SIZE);
    proof {
        lemma_wire_packet_payload(SET_SETTINGS_PACKET_ID, packet.bytes@);
    }
    let decoded_packet = match SetSettingsPacket::decode_payload(payload.as_slice()) {
        Some(p) => p,
        None => return false,
    };
    apply_set_settings(settings, decoded_packet)
}

/// Requests the settings and relays the server's answer, the packed payload
/// of `table`; the client's settings become that payload.
pub fn relay_request_settings(settings: &mut SourceSettingsState, table: &SourceSettingsTable) -> (r: bool)
    ensures
        r,
        final(settings)@ == spec_zsettings_payload(*table),
{
    let wire_packet = RequestSettingsCommand.encode_packet();
    let payload = copy_tail(wire_packet.as_slice(), PACKET_HEADER_SIZE);
    proof {
        lemma_wire_packet_payload(crate::network_commands::REQUEST_SETTINGS_PACKET_ID, Seq::<u8>::empty());
    }
    let request = RequestSettingsCommand::decode_payload(payload.as_slice());
    if request.is_none() {
        return false;
    }
    let packet = match SetSettingsPacket::new(source_zsettings_payload(table)) {
        Some(p) => p,
        None => return false,
    };
    relay_set_settings(settings, packet)
}

proof fn lemma_u32_le_value(u: u32)
    ensures
        spec_le_u32_at(spec_u32_le_bytes(u), 0) == u,
{
    let b = spec_u32_le_bytes(u);
    assert(b[0] == u % 256);
    assert(b[1] == (u / 256) % 256);
    assert(b[2] == (u / 65536) % 256);
    assert(b[3] == (u / 16777216) % 256);
    assert(u % 256 + 256 * ((u / 256) % 256) + 65536 * ((u / 65536) % 256) + 16777216 * ((u / 16777216) % 256) == u) by (bit_vector);
}

proof fn lemma_i32_le_value(v: i32)
    ensures
        ((spec_le_u32_at(spec_i32_le_bytes(v), 0) as u32) as i32) == v,
{
    reveal(spec_i32_le_bytes);
    lemma_u32_le_value(v as u32);
    assert(((v as u32) as i32) == v) by (bit_vector);
}

proof fn lemma_u64_le_value(w: u64)
    ensures
        spec_le_u64_at(spec_u64_le_bytes(w), 0) == w,
{
    reveal(spec_u64_le_bytes);
    let lo = (w % 4294967296) as u32;
    let hi = (w / 4294967296) as u32;
    lemma_u32_le_value(lo);
    lemma_u32_le_value(hi);
    let b = spec_u64_le_bytes(w);
    assert(b.subrange(0, 4) =~= spec_u32_le_bytes(lo));
    assert(b.subrange(4, 8) =~= spec_u32_le_bytes(hi));
    assert(spec_le_u32_at(b, 0) == spec_le_u32_at(spec_u32_le_bytes(lo), 0));
    assert(spec_le_u32_at(b, 4) == spec_le_u32_at(spec_u32_le_bytes(hi), 0));
    assert(w % 4294967296 + 4294967296 * (w / 4294967296) == w) by (nonlinear_arith);
}

proof fn lemma_read_i32_at(b: Seq<u8>, off: int, v: i32)
    requires
        0 <= off,
        off + 4 <= b.len(),
        b.subrange(off, off + 4) == spec_i32_le_bytes(v),
    ensures
        spec_read_i32(b, off) == Some(v),
{
    let sub = b.subrange(off, off + 4);
    assert(spec_le_u32_at(b, off) == spec_le_u32_at(sub, 0));
    lemma_i32_le_value(v);
}

proof fn lemma_read_f64_bits_at(b: Seq<u8>, off: int, w: u64)
    requires
        0 <= off,
        off + 8 <= b.len(),
        b.subrange(off, off + 8) == spec_u64_le_bytes(w),
        spec_f64_bits_finite(w),
    ensures
        spec_read_f64_bits(b, off) == Some(w),
{
    let sub = b.subrange(off, off + 8);
    assert(spec_le_u64_at(b, off) == spec_le_u64_at(sub, 0));
    lemma_u64_le_value(w);
}

/// Settings that a read gives back unchanged: non-negative integers and
/// finite fractional values.
pub open spec fn spec_unit_settings_normalized(s: SourceUnitSettings) -> bool {
    &&& s.move_speed >= 0
    &&& s.attack_radius >= 0
    &&& s.attack_damage_radius >= 0
    &&& s.attack_missile_speed >= 0
    &&& s.build_time >= 0
    &&& spec_f64_bits_finite(s.attack_damage_bits)
    &&& spec_f64_bits_finite(s.attack_damage_chance_bits)
    &&& spec_f64_bits_finite(s.attack_speed_bits)
    &&& spec_f64_bits_finite(s.attack_snipe_chance_bits)
    &&& spec_f64_bits_finite(s.health_ratio_bits)
    &&& spec_f64_bits_finite(s.max_run_time_bits)
}

#[verifier::rlimit(40)]
proof fn lemma_unit_block_fields(s: SourceUnitSettings)
    ensures
        ({
            let block = spec_unit_settings_bytes(s);
            &&& block.len() == 72
            &&& block.subrange(0, 4) == spec_i32_le_bytes(s.group_amount as i32)
            &&& block.subrange(4, 8) == spec_i32_le_bytes(s.move_speed)
            &&& block.subrange(8, 12) == spec_i32_le_bytes(s.attack_radius)
            &&& block.subrange(12, 20) == spec_u64_le_bytes(s.attack_damage_bits)
            &&& block.subrange(20, 28) == spec_u64_le_bytes(s.attack_damage_chance_bits)
            &&& block.subrange(28, 32) == spec_i32_le_bytes(s.attack_damage_radius)
            &&& block.subrange(32, 36) == spec_i32_le_bytes(s.attack_missile_speed)
            &&& block.subrange(36, 44) == spec_u64_le_bytes(s.attack_speed_bits)
            &&& block.subrange(44, 52) == spec_u64_le_bytes(s.attack_snipe_chance_bits)
            &&& block.subrange(52, 60) == spec_u64_le_bytes(s.health_ratio_bits)
            &&& block.subrange(60, 64) == spec_i32_le_bytes(s.build_time)
            &&& block.subrange(64, 72) == spec_u64_le_bytes(s.max_run_time_bits)
        }),
{
    reveal(spec_unit_settings_bytes);
    lemma_le_bytes_len(s.group_amount as i32, s.attack_damage_bits);
    lemma_le_bytes_len(s.move_speed, s.attack_damage_chance_bits);
    lemma_le_bytes_len(s.attack_radius, s.attack_speed_bits);
    lemma_le_bytes_len(s.attack_damage_radius, s.attack_snipe_chance_bits);
    lemma_le_bytes_len(s.attack_missile_speed, s.health_ratio_bits);
    lemma_le_bytes_len(s.build_time, s.max_run_time_bits);
    let block = spec_unit_settings_bytes(s);
    assert(block.subrange(0, 4) =~= spec_i32_le_bytes(s.group_amount as i32));
    assert(block.subrange(4, 8) =~= spec_i32_le_bytes(s.move_speed));
    assert(block.subrange(8, 12) =~= spec_i32_le_bytes(s.attack_radius));
    assert(block.subrange(12, 20) =~= spec_u64_le_bytes(s.attack_damage_bits));
    assert(block.subrange(20, 28) =~= spec_u64_le_bytes(s.attack_damage_chance_bits));
    assert(block.subrange(28, 32) =~= spec_i32_le_bytes(s.attack_damage_radius));
    assert(block.subrange(32, 36) =~= spec_i32_le_bytes(s.attack_missile_speed));
    assert(block.subrange(36, 44) =~= spec_u64_le_bytes(s.attack_speed_bits));
    assert(block.subrange(44, 52) =~= spec_u64_le_bytes(s.attack_snipe_chance_bits));
    assert(block.subrange(52, 60) =~= spec_u64_le_bytes(s.health_ratio_bits));
    assert(block.subrange(60, 64) =~= spec_i32_le_bytes(s.build_time));
    assert(block.subrange(64, 72) =~= spec_u64_le_bytes(s.max_run_time_bits));
}

proof fn lemma_block_field(b: Seq<u8>, o: int, k: int, w: int)
    requires
        0 <= o,
        0 <= k,
        0 <= w,
        k + w <= 72,
        o + 72 <= b.len(),
    ensures
        b.subrange(o + k, o + k + w) == b.subrange(o, o + 72).subrange(k, k + w),
{
    assert(b.subrange(o + k, o + k + w) =~= b.subrange(o, o + 72).subrange(k, k + w));
}

proof fn lemma_read_unit_block(b: Seq<u8>, o: int, s: SourceUnitSettings)
    requires
        0 <= o,
        o + 72 <= b.len(),
        b.subrange(o, o + 72) == spec_unit_settings_bytes(s),
        spec_unit_settings_normalized(s),
    ensures
        spec_unit_settings_at(b, o) == Some(s),
{
    lemma_unit_block_fields(s);
    lemma_block_field(b, o, 0, 4);
    lemma_block_field(b, o, 4, 4);
    lemma_block_field(b, o, 8, 4);
    lemma_block_field(b, o, 12, 8);
    lemma_block_field(b, o, 20, 8);
    lemma_block_field(b, o, 28, 4);
    lemma_block_field(b, o, 32, 4);
    lemma_block_field(b, o, 36, 8);
    lemma_block_field(b, o, 44, 8);
    lemma_block_field(b, o, 52, 8);
    lemma_block_field(b, o, 60, 4);
    lemma_block_field(b, o, 64, 8);
    lemma_read_i32_at(b, o, s.group_amount as i32);
    lemma_read_i32_at(b, o + 4, s.move_speed);
    lemma_read_i32_at(b, o + 8, s.attack_radius);
    lemma_read_f64_bits_at(b, o + 12, s.attack_damage_bits);
    lemma_read_f64_bits_at(b, o + 20, s.attack_damage_chance_bits);
    lemma_read_i32_at(b, o + 28, s.attack_damage_radius);
    lemma_read_i32_at(b, o + 32, s.attack_missile_speed);
    lemma_read_f64_bits_at(b, o + 36, s.attack_speed_bits);
    lemma_read_f64_bits_at(b, o + 44, s.attack_snipe_chance_bits);
    lemma_read_f64_bits_at(b, o + 52, s.health_ratio_bits);
    lemma_read_i32_at(b, o + 60, s.build_time);
    lemma_read_f64_bits_at(b, o + 64, s.max_run_time_bits);
}

proof fn lemma_units_bytes_block(units: Seq<SourceUnitSettings>, i: int)
    requires
        0 <= i < units.len(),
    ensures
        spec_units_bytes(units).subrange(72 * i, 72 * i + 72) == spec_unit_settings_bytes(units[i]),
    decreases units.len(),
{
    let prefix = units.drop_last();
    lemma_units_bytes_len(prefix);
    lemma_unit_settings_bytes_len(units.last());
    let whole = spec_units_bytes(units);
    assert(whole == spec_units_bytes(prefix) + spec_unit_settings_bytes(units.last()));
    if i == units.len() - 1 {
        assert(whole.subrange(72 * i, 72 * i + 72) =~= spec_unit_settings_bytes(units.last()));
    } else {
        lemma_units_bytes_block(prefix, i);
        assert(whole.subrange(72 * i, 72 * i + 72) =~= spec_units_bytes(prefix).subrange(72 * i, 72 * i + 72));
    }
}

/// What a client reads back from a packed settings payload is what was
/// packed: for every unit kind whose settings are non-negative and finite,
/// the unit settings read from `source_zsettings_payload(table)` are the
/// table's entry for that kind.
pub proof fn lemma_settings_payload_unit_round_trip(table: SourceSettingsTable, kind: ObjectKind)
    requires
        spec_source_unit_settings_index(kind) is Some,
        spec_unit_settings_normalized(table.units@[spec_source_unit_settings_index(kind)->0 as int]),
    ensures
        spec_unit_settings(spec_zsettings_payload(table), kind)
            == Some(table.units@[spec_source_unit_settings_index(kind)->0 as int]),
{
    let i = spec_source_unit_settings_index(kind)->0 as int;
    let payload = spec_zsettings_payload(table);
    let units_part = spec_units_bytes(table.units@);
    lemma_units_bytes_len(table.units@);
    lemma_units_bytes_block(table.units@, i);
    assert(payload.subrange(72 * i, 72 * i + 72) =~= units_part.subrange(72 * i, 72 * i + 72));
    lemma_read_unit_block(payload, 72 * i, table.units@[i]);
}

proof fn lemma_u64_list_bytes_block(values: Seq<u64>, j: int)
    requires
        0 <= j < values.len(),
    ensures
        spec_u64_list_bytes(values).subrange(8 * j, 8 * j + 8) == spec_u64_le_bytes(values[j]),
    decreases values.len(),
{
    let prefix = values.drop_last();
    lemma_u64_list_bytes_len(prefix);
    lemma_le_bytes_len(0, values.last());
    let whole = spec_u64_list_bytes(values);
    if j == values.len() - 1 {
        assert(whole.subrange(8 * j, 8 * j + 8) =~= spec_u64_le_bytes(values.last()));
    } else {
        lemma_u64_list_bytes_block(prefix, j);
        assert(whole.subrange(8 * j, 8 * j + 8) =~= spec_u64_list_bytes(prefix).subrange(8 * j, 8 * j + 8));
    }
}

/// A client reads back each packed health ratio: for every kind without a
/// unit block that has a health ratio slot holding a finite value, the
/// health ratio read from `source_zsettings_payload(table)` is the table's
/// value for that slot.
pub proof fn lemma_settings_payload_health_ratio_round_trip(table: SourceSettingsTable, kind: ObjectKind)
    requires
        spec_source_unit_settings_index(kind) is None,
        spec_source_health_ratio_index(kind) is Some,
        spec_f64_bits_finite(table.health_ratio_bits@[spec_source_health_ratio_index(kind)->0 as int]),
    ensures
        spec_object_health_ratio_bits(spec_zsettings_payload(table), kind)
            == Some(table.health_ratio_bits@[spec_source_health_ratio_index(kind)->0 as int]),
{
    let j = spec_source_health_ratio_index(kind)->0 as int;
    let payload = spec_zsettings_payload(table);
    let units_part = spec_units_bytes(table.units@);
    let ratios_part = spec_u64_list_bytes(table.health_ratio_bits@);
    lemma_units_bytes_len(table.units@);
    lemma_u64_list_bytes_len(table.health_ratio_bits@);
    lemma_u64_list_bytes_block(table.health_ratio_bits@, j);
    assert(payload.subrange(1224 + 8 * j, 1224 + 8 * j + 8) =~= ratios_part.subrange(8 * j, 8 * j + 8));
    lemma_read_f64_bits_at(payload, 1224 + 8 * j, table.health_ratio_bits@[j]);
}

} // verus!
