use zod_units::original::objects::{CannonType, ObjectKind, RobotType, VehicleType};
use zod_units::original::types::TeamType;
use zod_units::selection::{
    attack_command_no_way, last_selected_group_ref, next_ordered_selection_ref, normalized_selection_ref, select_next_group_ref, HudCommandState, ObjectSelectionGroup,
    SelectionCandidate,
};

fn robot(ref_id: u32, team: TeamType, leader: Option<u32>) -> SelectionCandidate {
    SelectionCandidate { ref_id, kind: ObjectKind::Robot(RobotType::Grunt), team, destroyed: false, leader_ref_id: leader }
}

#[test]
fn selection_cycles_through_own_group_leaders_in_number_order() {
    let candidates = vec![
        robot(30, TeamType::Red, None),
        robot(10, TeamType::Red, Some(10)),
        robot(11, TeamType::Red, Some(10)),
        robot(20, TeamType::Blue, None),
        SelectionCandidate { destroyed: true, ..robot(5, TeamType::Red, None) },
        SelectionCandidate { kind: ObjectKind::Vehicle(VehicleType::Jeep), ..robot(15, TeamType::Red, None) },
    ];
    let group = ObjectSelectionGroup::Robot;
    assert_eq!(next_ordered_selection_ref(&candidates, group, TeamType::Red, None), Some(10));
    assert_eq!(next_ordered_selection_ref(&candidates, group, TeamType::Red, Some(10)), Some(30));
    assert_eq!(next_ordered_selection_ref(&candidates, group, TeamType::Red, Some(30)), Some(10));
    assert_eq!(next_ordered_selection_ref(&candidates, group, TeamType::Red, Some(12)), Some(30));
    assert_eq!(next_ordered_selection_ref(&candidates, ObjectSelectionGroup::Vehicle, TeamType::Red, Some(15)), Some(15));
    assert_eq!(next_ordered_selection_ref(&candidates, ObjectSelectionGroup::Cannon, TeamType::Red, None), None);
    let cannon = SelectionCandidate { kind: ObjectKind::Cannon(CannonType::Gun), ..robot(7, TeamType::Blue, None) };
    assert_eq!(next_ordered_selection_ref(&[cannon], ObjectSelectionGroup::Cannon, TeamType::Blue, Some(99)), Some(7));
}

#[test]
fn group_hotkey_remembers_its_last_selection_per_group() {
    let candidates = vec![robot(3, TeamType::Red, None), robot(1, TeamType::Red, None), robot(2, TeamType::Blue, None)];
    let mut state = HudCommandState { last_robot_ref: None, last_vehicle_ref: Some(40), last_cannon_ref: None };
    assert_eq!(select_next_group_ref(&mut state, &candidates, ObjectSelectionGroup::Robot, TeamType::Red), Some(1));
    assert_eq!(select_next_group_ref(&mut state, &candidates, ObjectSelectionGroup::Robot, TeamType::Red), Some(3));
    assert_eq!(select_next_group_ref(&mut state, &candidates, ObjectSelectionGroup::Robot, TeamType::Red), Some(1));
    assert_eq!(last_selected_group_ref(&state, ObjectSelectionGroup::Robot), Some(1));
    assert_eq!(last_selected_group_ref(&state, ObjectSelectionGroup::Vehicle), Some(40));
    // Nothing to select: the memory stays.
    assert_eq!(select_next_group_ref(&mut state, &candidates, ObjectSelectionGroup::Vehicle, TeamType::Red), None);
    assert_eq!(state.last_vehicle_ref, Some(40));
}

#[test]
fn attack_command_no_way_uses_rating_for_lone_attackers() {
    let grunt = ObjectKind::Robot(RobotType::Grunt);
    let heavy = ObjectKind::Vehicle(VehicleType::Heavy);
    let kinds = [(7, grunt), (8, heavy)];
    assert!(attack_command_no_way(&[7], 8, &kinds));
    assert!(!attack_command_no_way(&[8], 7, &kinds));
    assert!(!attack_command_no_way(&[7, 9], 8, &kinds));
    assert!(!attack_command_no_way(&[7], 99, &kinds));
}

#[test]
fn clicks_on_group_members_select_their_standing_leader() {
    let leader = robot(10, TeamType::Red, Some(10));
    let member = robot(11, TeamType::Red, Some(10));
    let orphan = robot(12, TeamType::Red, Some(13));
    let dead_leader = SelectionCandidate { destroyed: true, ..robot(13, TeamType::Red, Some(13)) };
    let candidates = [leader, member, orphan, dead_leader];
    assert_eq!(normalized_selection_ref(11, &candidates), 10);
    assert_eq!(normalized_selection_ref(12, &candidates), 12);
    assert_eq!(normalized_selection_ref(10, &candidates), 10);
    assert_eq!(normalized_selection_ref(99, &candidates), 99);
}
