use std::collections::VecDeque;

use exploration_movement::cardinal::CardinalDirection;
use exploration_movement::executor::execute_movement_queue;
use exploration_movement::intent::ExplorationMovements;
use exploration_movement::pose::Pose;
use exploration_movement::state::{
    clear_movement_queue, enqueue_movement, AlignmentState, ExplorationMovementState,
    MovementConfig,
};

fn config() -> MovementConfig {
    MovementConfig { step_duration_ms: 300, step_distance: 5000, input_cooldown_ms: 80 }
}

#[test]
fn first_enqueue_injects_alignment() {
    // avatar facing 35 degrees clockwise of North
    let pose = Pose { x: 0, y: 0, z: 0, yaw_degrees: -35 };
    let mut state = ExplorationMovementState::new();
    enqueue_movement(ExplorationMovements::WalkForward, &mut state, &pose);
    assert_eq!(
        state.command_queue,
        VecDeque::from(vec![ExplorationMovements::FaceNorth, ExplorationMovements::WalkForward])
    );
    assert_eq!(state.alignment, AlignmentState::AligningTo(CardinalDirection::North));
}

#[test]
fn first_enqueue_alignment_tie_breaks_to_north() {
    // exactly 45 degrees between North and East: North wins the tie
    let pose = Pose { x: 0, y: 0, z: 0, yaw_degrees: -45 };
    let mut state = ExplorationMovementState::new();
    enqueue_movement(ExplorationMovements::WalkForward, &mut state, &pose);
    assert_eq!(
        state.command_queue,
        VecDeque::from(vec![ExplorationMovements::FaceNorth, ExplorationMovements::WalkForward])
    );
    assert_eq!(state.alignment, AlignmentState::AligningTo(CardinalDirection::North));
}

#[test]
fn later_enqueues_skip_the_gate() {
    let pose = Pose { x: 0, y: 0, z: 0, yaw_degrees: -35 };
    let mut state = ExplorationMovementState::new();
    enqueue_movement(ExplorationMovements::WalkForward, &mut state, &pose);
    enqueue_movement(ExplorationMovements::TurnClockwise, &mut state, &pose);
    assert_eq!(state.command_queue.len(), 3);
    assert_eq!(
        state.command_queue.back(),
        Some(&ExplorationMovements::TurnClockwise)
    );
    assert_eq!(state.alignment, AlignmentState::AligningTo(CardinalDirection::North));
}

#[test]
fn clear_mid_interpolation_keeps_partial_pose() {
    // a translation cancelled halfway leaves the pose exactly where it was
    let cfg = config();
    let mut pose = Pose { x: 0, y: 0, z: 0, yaw_degrees: 0 };
    let mut state = ExplorationMovementState::new();
    state.alignment = AlignmentState::Aligned(CardinalDirection::North);
    state.command_queue.push_back(ExplorationMovements::WalkForward);
    execute_movement_queue(&mut state, &mut pose, &cfg, 150);
    assert_eq!(pose.z, -2500);
    assert!(state.in_progress.is_some());
    clear_movement_queue(&mut state);
    assert!(state.command_queue.is_empty());
    assert!(state.in_progress.is_none());
    assert_eq!(pose.z, -2500);
    assert_eq!(pose.x, 0);
    assert_eq!(state.alignment, AlignmentState::Aligned(CardinalDirection::North));
}

#[test]
fn clear_does_not_touch_alignment_or_cooldown_flags() {
    let mut state = ExplorationMovementState::new();
    state.alignment = AlignmentState::AligningTo(CardinalDirection::East);
    state.command_queue.push_back(ExplorationMovements::FaceEast);
    clear_movement_queue(&mut state);
    assert!(state.command_queue.is_empty());
    assert_eq!(state.alignment, AlignmentState::AligningTo(CardinalDirection::East));
}
