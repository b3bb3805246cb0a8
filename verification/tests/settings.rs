use zod_units::network_commands::{SetSettingsPacket, SOURCE_ZSETTINGS_PACKET_SIZE};
use zod_units::original::objects::{ObjectKind, RobotType, VehicleType};
use zod_units::settings_sync::{
    relay_request_settings, relay_set_settings, source_zsettings_payload, SourceSettingsState, SourceSettingsTable,
    SourceUnitSettings, SOURCE_GLOBALS_OFFSET,
};

fn unit(group_amount: u8, move_speed: i32, build_time: i32) -> SourceUnitSettings {
    SourceUnitSettings {
        group_amount,
        move_speed,
        attack_radius: 120,
        attack_damage_bits: 0.0011046f64.to_bits(),
        attack_damage_chance_bits: 0.5f64.to_bits(),
        attack_damage_radius: 0,
        attack_missile_speed: 0,
        attack_speed_bits: 0.25f64.to_bits(),
        attack_snipe_chance_bits: 0.0f64.to_bits(),
        health_ratio_bits: 0.5f64.to_bits(),
        build_time,
        max_run_time_bits: 1.0f64.to_bits(),
    }
}

fn table() -> SourceSettingsTable {
    let mut units = [unit(1, 10, 60); 17];
    units[0] = unit(3, 14, 72);
    SourceSettingsTable {
        units,
        health_ratio_bits: [0.25f64.to_bits(); 11],
        grenade_damage_ratio_bits: 0.2f64.to_bits(),
        grenade_damage_radius: 77,
        grenade_missile_speed: 88,
        grenade_attack_speed_bits: 1.75f64.to_bits(),
        rocket_damage_ratio_bits: 0.3f64.to_bits(),
        behavior_values: [1, 2, 3, 4, 5, 6, 7, 8],
        speed_factor_bits: [0.5f64.to_bits(); 4],
        hut_animal_max: 9,
        hut_animal_min: 2,
        hut_spawn_distance: 40,
    }
}

fn read_i32(payload: &[u8], offset: usize) -> i32 {
    i32::from_le_bytes(payload[offset..offset + 4].try_into().unwrap())
}

fn read_f64(payload: &[u8], offset: usize) -> f64 {
    f64::from_le_bytes(payload[offset..offset + 8].try_into().unwrap())
}

#[test]
fn settings_request_round_trips_source_default_payload() {
    let table = table();
    let mut settings = SourceSettingsState::new(vec![0; SOURCE_ZSETTINGS_PACKET_SIZE]);
    assert!(relay_request_settings(&mut settings, &table));
    assert_eq!(settings.packet_bytes(), source_zsettings_payload(&table).as_slice());
}

#[test]
fn source_zsettings_payload_matches_packed_source_size() {
    let payload = source_zsettings_payload(&table());
    assert_eq!(payload.len(), SOURCE_ZSETTINGS_PACKET_SIZE);
    assert_eq!(read_i32(&payload, 0), 3);
    assert_eq!(read_i32(&payload, 4), 14);
    assert_eq!(read_i32(&payload, 8), 120);
    assert!((read_f64(&payload, 12) - 0.0011046).abs() < 0.000000001);
    assert_eq!(read_i32(&payload, 60), 72);
    assert_eq!(read_i32(&payload, SOURCE_GLOBALS_OFFSET + 8), 77);
    assert_eq!(read_i32(&payload, SOURCE_ZSETTINGS_PACKET_SIZE - 4), 40);
}

#[test]
fn set_settings_packet_replaces_client_settings_bytes() {
    let mut settings = SourceSettingsState::new(Vec::new());
    let packet = SetSettingsPacket::new(vec![3; SOURCE_ZSETTINGS_PACKET_SIZE]).unwrap();
    assert!(relay_set_settings(&mut settings, packet));
    assert!(settings.packet_bytes().iter().all(|byte| *byte == 3));
}

#[test]
fn decoded_settings_drive_groups_and_spawn_counts() {
    let mut settings = SourceSettingsState::new(Vec::new());
    assert!(relay_set_settings(&mut settings, SetSettingsPacket::new(source_zsettings_payload(&table())).unwrap()));
    let grunt = ObjectKind::Robot(RobotType::Grunt);
    let read = settings.unit_settings(grunt).unwrap();
    assert_eq!(read.group_amount, 3);
    assert_eq!(read.move_speed, 14);
    assert_eq!(read.build_time, 72);
    assert_eq!(settings.produced_object_count(grunt), 3);
    assert_eq!(settings.initial_spawn_count(grunt), 3);
    assert_eq!(settings.produced_object_count(ObjectKind::Vehicle(VehicleType::Jeep)), 1);
    assert_eq!(settings.read_i32(SOURCE_GLOBALS_OFFSET + 12), Some(88));
    assert_eq!(settings.read_f64_bits(SOURCE_GLOBALS_OFFSET), Some(0.2f64.to_bits()));
    assert_eq!(settings.read_i32(SOURCE_ZSETTINGS_PACKET_SIZE - 2), None);
}

#[test]
fn short_settings_packets_are_refused() {
    assert!(SetSettingsPacket::new(vec![0; 10]).is_none());
    let mut settings = SourceSettingsState::new(vec![7; SOURCE_ZSETTINGS_PACKET_SIZE]);
    assert!(!relay_set_settings(&mut settings, SetSettingsPacket { bytes: vec![1; 10] }));
    assert!(settings.packet_bytes().iter().all(|byte| *byte == 7));
}
