use zod_units::components::ObjectStats;
use zod_units::original::objects::{ObjectKind, RobotType, VehicleType};
use zod_units::original::types::TeamType;
use zod_units::selection::activation::SourceCommandActivationAccess;
use zod_units::selection::pending::{
    pending_attack_no_way, pending_command_selected_refs, source_filter_pending_activation, CraneRepairTargetInfo,
    EnterFortTargetInfo, EnterTargetInfo, PendingMouseAttackCommand, PendingMouseCommand, PendingMouseCraneRepairCommand,
    PendingMouseEnterCommand, PendingMouseEnterFortCommand, PendingMouseMoveCommand, PendingMousePickupGrenadesCommand,
    PendingMouseUnitRepairCommand, UnitRepairTargetInfo,
};
use zod_units::selection::MouseCommandObjectSnapshot;

type Point = (f32, f32);

fn snapshot(ref_id: u32, kind: ObjectKind, team: TeamType) -> MouseCommandObjectSnapshot {
    MouseCommandObjectSnapshot {
        ref_id,
        kind,
        team,
        stats: ObjectStats::from_kind(kind, 100),
        mobile: true,
        has_move_speed: true,
        group_leader_ref_id: None,
        grenade_amount: None,
        can_be_entered: false,
        can_enter_fort: false,
        crane_can_repair: false,
        can_pickup_grenades: false,
        is_grenade_box: false,
    }
}

#[test]
fn pending_command_selected_refs_preserves_enter_selection_owner() {
    let enter: PendingMouseCommand<Point> = PendingMouseCommand::Enter(PendingMouseEnterCommand {
        world_pos: (16.0, -16.0),
        selected_refs: vec![3, 4],
        robot_refs: vec![4],
        target: EnterTargetInfo { ref_id: 9, position: (32.0, -32.0), waypoint: (34.0, -34.0) },
    });
    let enter_fort: PendingMouseCommand<Point> = PendingMouseCommand::EnterFort(PendingMouseEnterFortCommand {
        world_pos: (48.0, -48.0),
        selected_refs: vec![7],
        robot_refs: vec![7],
        target: EnterFortTargetInfo {
            ref_id: 10,
            position: (64.0, -64.0),
            inside_point: (72.0, -72.0),
            exit_point: (80.0, -80.0),
        },
    });

    assert_eq!(pending_command_selected_refs(&enter), &[3, 4]);
    assert_eq!(pending_command_selected_refs(&enter_fort), &[7]);
}

#[test]
fn pending_command_selected_refs_preserves_repair_selection_owner() {
    let unit_repair: PendingMouseCommand<Point> = PendingMouseCommand::UnitRepair(PendingMouseUnitRepairCommand {
        world_pos: (16.0, -16.0),
        selected_refs: vec![3, 4],
        unit_refs: vec![3],
        target: UnitRepairTargetInfo { ref_id: 9, entrance_point: (32.0, -32.0), center_point: (40.0, -40.0) },
    });
    let crane_repair: PendingMouseCommand<Point> = PendingMouseCommand::CraneRepair(PendingMouseCraneRepairCommand {
        world_pos: (48.0, -48.0),
        selected_refs: vec![7],
        crane_refs: vec![7],
        target: CraneRepairTargetInfo { ref_id: 10, entrance_point: (64.0, -64.0), center_point: (72.0, -72.0) },
    });

    assert_eq!(pending_command_selected_refs(&unit_repair), &[3, 4]);
    assert_eq!(pending_command_selected_refs(&crane_repair), &[7]);
}

#[test]
fn pending_command_selected_refs_preserves_pickup_selection_owner() {
    let command: PendingMouseCommand<Point> = PendingMouseCommand::PickupGrenades(PendingMousePickupGrenadesCommand {
        world_pos: (16.0, -16.0),
        selected_refs: vec![3, 4],
        robot_refs: vec![4],
        target_ref_id: 9,
        target_position: (32.0, -32.0),
    });

    assert_eq!(pending_command_selected_refs(&command), &[3, 4]);
}

#[test]
fn pending_attack_no_way_uses_source_first_attack_waypoint_gate() {
    let grunt = ObjectKind::Robot(RobotType::Grunt);
    let heavy = ObjectKind::Vehicle(VehicleType::Heavy);
    let snapshots = [snapshot(7, grunt, TeamType::Red), snapshot(8, heavy, TeamType::Blue)];

    assert!(pending_attack_no_way(
        &PendingMouseCommand::Attack(PendingMouseAttackCommand {
            world_pos: (64.0f32, 0.0f32),
            selected_refs: vec![7],
            target_ref_id: 8,
        }),
        &snapshots,
    ));
    assert!(!pending_attack_no_way(
        &PendingMouseCommand::Move(PendingMouseMoveCommand {
            world_pos: (64.0f32, 0.0f32),
            selected_refs: vec![7],
            ctrl_down: false,
            alt_down: false,
        }),
        &snapshots,
    ));
}

#[test]
fn waiting_orders_lose_only_refused_units_and_report_each_once() {
    // Ref 1 is a laser (needs activation), 2 a jeep, 3 a pyro (needs it too).
    let needs = [(1, true), (2, false), (3, true)];
    let mut pending: Vec<PendingMouseCommand<Point>> = vec![
        PendingMouseCommand::Move(PendingMouseMoveCommand {
            world_pos: (1.0, 2.0),
            selected_refs: vec![1, 2],
            ctrl_down: true,
            alt_down: false,
        }),
        PendingMouseCommand::Enter(PendingMouseEnterCommand {
            world_pos: (3.0, 4.0),
            selected_refs: vec![2, 1, 3],
            robot_refs: vec![1, 3],
            target: EnterTargetInfo { ref_id: 9, position: (5.0, 6.0), waypoint: (7.0, 8.0) },
        }),
    ];
    let news = source_filter_pending_activation(
        &mut pending,
        &needs,
        SourceCommandActivationAccess { registered: true, server_activation_passed: false },
    );
    assert_eq!(news.len(), 2);
    assert!(news.iter().all(|line| line.contains("activation required")));
    match &pending[0] {
        PendingMouseCommand::Move(c) => {
            assert_eq!(c.selected_refs, vec![2]);
            assert!(c.ctrl_down);
            assert_eq!(c.world_pos, (1.0, 2.0));
        },
        _ => panic!("the move order changed kind"),
    }
    match &pending[1] {
        PendingMouseCommand::Enter(c) => {
            assert_eq!(c.selected_refs, vec![2]);
            assert!(c.robot_refs.is_empty());
            assert_eq!(c.target.ref_id, 9);
        },
        _ => panic!("the enter order changed kind"),
    }
    // With full access nothing is lost.
    let mut pending: Vec<PendingMouseCommand<Point>> = vec![PendingMouseCommand::Attack(PendingMouseAttackCommand {
        world_pos: (0.0, 0.0),
        selected_refs: vec![3, 1],
        target_ref_id: 4,
    })];
    let news = source_filter_pending_activation(
        &mut pending,
        &needs,
        SourceCommandActivationAccess { registered: true, server_activation_passed: true },
    );
    assert!(news.is_empty());
    assert_eq!(pending_command_selected_refs(&pending[0]), &[3, 1]);
}
