use exploration_movement::cardinal::CardinalDirection;
use exploration_movement::input::{explore_movement_controls, InputEdges};
use exploration_movement::intent::ExplorationMovements;
use exploration_movement::pose::Pose;
use exploration_movement::state::{
    AlignmentState, ExplorationMovementState, MovementConfig, MovementTimer,
};

fn config() -> MovementConfig {
    MovementConfig { step_duration_ms: 300, step_distance: 5000, input_cooldown_ms: 80 }
}

fn press(intent: ExplorationMovements) -> InputEdges {
    let mut e = InputEdges::none();
    match intent {
        ExplorationMovements::WalkForward => e.walk_forward = true,
        ExplorationMovements::WalkBackward => e.walk_backward = true,
        ExplorationMovements::StrafeLeft => e.strafe_left = true,
        ExplorationMovements::StrafeRight => e.strafe_right = true,
        ExplorationMovements::TurnCounterclockwise => e.turn_counterclockwise = true,
        ExplorationMovements::TurnClockwise => e.turn_clockwise = true,
        _ => panic!("no binding produces {:?}", intent),
    }
    e
}

#[test]
fn no_press_changes_nothing() {
    let cfg = config();
    let pose = Pose { x: 0, y: 0, z: 0, yaw_degrees: 0 };
    let mut state = ExplorationMovementState::new();
    explore_movement_controls(&InputEdges::none(), &mut state, &pose, &cfg, 16);
    assert!(state.command_queue.is_empty());
    assert!(state.between_inputs.is_none());
}

#[test]
fn accepted_press_enqueues_and_arms_the_cooldown() {
    let cfg = config();
    let pose = Pose { x: 0, y: 0, z: 0, yaw_degrees: -35 };
    let mut state = ExplorationMovementState::new();
    explore_movement_controls(&press(ExplorationMovements::WalkForward), &mut state, &pose, &cfg, 16);
    // alignment injected plus the walk itself
    assert_eq!(state.command_queue.len(), 2);
    assert_eq!(state.between_inputs, Some(MovementTimer { elapsed_ms: 0, duration_ms: 80 }));
    assert_eq!(state.alignment, AlignmentState::AligningTo(CardinalDirection::North));
}

#[test]
fn debounce_swallows_the_second_press() {
    // two qualifying press edges 50 ms apart with an 80 ms cooldown give
    // exactly one enqueue; a third edge after the window gives a second
    let cfg = config();
    let pose = Pose { x: 0, y: 0, z: 0, yaw_degrees: -35 };
    let mut state = ExplorationMovementState::new();
    let edge = press(ExplorationMovements::WalkForward);
    explore_movement_controls(&edge, &mut state, &pose, &cfg, 16);
    assert_eq!(state.command_queue.len(), 2);
    // 50 ms later: the cooldown is live, the press is ignored
    explore_movement_controls(&edge, &mut state, &pose, &cfg, 50);
    assert_eq!(state.command_queue.len(), 2);
    assert_eq!(state.between_inputs, Some(MovementTimer { elapsed_ms: 50, duration_ms: 80 }));
    // 50 more ms: the cooldown fills this tick, input is still ignored
    explore_movement_controls(&edge, &mut state, &pose, &cfg, 50);
    assert_eq!(state.command_queue.len(), 2);
    assert_eq!(state.between_inputs, Some(MovementTimer { elapsed_ms: 80, duration_ms: 80 }));
    // next tick the finished cooldown is cleared and the press is accepted
    explore_movement_controls(&edge, &mut state, &pose, &cfg, 16);
    assert_eq!(state.command_queue.len(), 3);
    assert_eq!(state.between_inputs, Some(MovementTimer { elapsed_ms: 0, duration_ms: 80 }));
}

#[test]
fn finished_cooldown_clears_even_without_a_press() {
    let cfg = config();
    let pose = Pose { x: 0, y: 0, z: 0, yaw_degrees: 0 };
    let mut state = ExplorationMovementState::new();
    state.between_inputs = Some(MovementTimer { elapsed_ms: 80, duration_ms: 80 });
    explore_movement_controls(&InputEdges::none(), &mut state, &pose, &cfg, 16);
    assert!(state.between_inputs.is_none());
    assert!(state.command_queue.is_empty());
}

#[test]
fn priority_order_picks_the_first_binding() {
    let cfg = config();
    let pose = Pose { x: 0, y: 0, z: 0, yaw_degrees: 0 };

    // everything pressed at once: walk forward wins
    let mut state = ExplorationMovementState::new();
    state.alignment = AlignmentState::Aligned(CardinalDirection::North);
    let all = InputEdges {
        walk_forward: true,
        walk_backward: true,
        strafe_left: true,
        strafe_right: true,
        turn_counterclockwise: true,
        turn_clockwise: true,
    };
    explore_movement_controls(&all, &mut state, &pose, &cfg, 16);
    assert_eq!(state.command_queue.len(), 1);
    assert_eq!(state.command_queue.front(), Some(&ExplorationMovements::WalkForward));

    // both turns pressed: counterclockwise enumerates before clockwise
    let mut state = ExplorationMovementState::new();
    state.alignment = AlignmentState::Aligned(CardinalDirection::North);
    let turns = InputEdges {
        walk_forward: false,
        walk_backward: false,
        strafe_left: false,
        strafe_right: false,
        turn_counterclockwise: true,
        turn_clockwise: true,
    };
    explore_movement_controls(&turns, &mut state, &pose, &cfg, 16);
    assert_eq!(state.command_queue.len(), 1);
    assert_eq!(
        state.command_queue.front(),
        Some(&ExplorationMovements::TurnCounterclockwise)
    );
}

#[test]
fn at_most_one_intent_per_tick() {
    let cfg = config();
    let pose = Pose { x: 0, y: 0, z: 0, yaw_degrees: 0 };
    let mut state = ExplorationMovementState::new();
    state.alignment = AlignmentState::Aligned(CardinalDirection::North);
    let two = InputEdges {
        walk_forward: false,
        walk_backward: true,
        strafe_left: true,
        strafe_right: false,
        turn_counterclockwise: false,
        turn_clockwise: false,
    };
    explore_movement_controls(&two, &mut state, &pose, &cfg, 16);
    assert_eq!(state.command_queue.len(), 1);
    assert_eq!(state.command_queue.front(), Some(&ExplorationMovements::WalkBackward));
}
