use exploration_movement::cardinal::CardinalDirection;
use exploration_movement::input::{explore_movement_controls, InputEdges};
use exploration_movement::intent::ExplorationMovements;
use exploration_movement::plugin::{ExplorationMovementPlugin, ExplorePlugin};
use exploration_movement::pose::Pose;
use exploration_movement::state::{AlignmentState, MovementConfig};

fn config() -> MovementConfig {
    MovementConfig { step_duration_ms: 300, step_distance: 5000, input_cooldown_ms: 80 }
}

#[test]
fn plugins_install_an_empty_resource() {
    let s = ExplorationMovementPlugin.initial_state();
    assert!(s.command_queue.is_empty());
    assert!(s.in_progress.is_none());
    assert!(s.between_inputs.is_none());
    assert_eq!(s.alignment, AlignmentState::Unaligned);

    let s = ExplorePlugin.initial_state();
    assert!(s.command_queue.is_empty());
    assert!(s.in_progress.is_none());
    assert!(s.between_inputs.is_none());
    assert_eq!(s.alignment, AlignmentState::Unaligned);
}

#[test]
fn fixed_update_runs_executor_then_controller() {
    let cfg = config();
    let plugin = ExplorePlugin;
    let mut pose = Pose { x: 0, y: 0, z: 0, yaw_degrees: -35 };
    let mut state = plugin.initial_state();

    let mut forward = InputEdges::none();
    forward.walk_forward = true;

    // pass 1: nothing to execute yet; the press is enqueued afterwards
    plugin.fixed_update(&mut state, &mut pose, &forward, &cfg, 100);
    assert_eq!(state.command_queue.len(), 2);
    assert!(state.in_progress.is_none());
    assert_eq!(pose.yaw_degrees, -35);

    // passes 2..4: the alignment rotation runs, no further input
    plugin.fixed_update(&mut state, &mut pose, &InputEdges::none(), &cfg, 100);
    plugin.fixed_update(&mut state, &mut pose, &InputEdges::none(), &cfg, 100);
    plugin.fixed_update(&mut state, &mut pose, &InputEdges::none(), &cfg, 100);
    assert_eq!(pose.yaw_degrees, 0);
    assert_eq!(state.alignment, AlignmentState::Aligned(CardinalDirection::North));
    // the walk was contextualized the moment the alignment finished
    assert!(state.in_progress.is_some());

    // three more passes complete the walk
    plugin.fixed_update(&mut state, &mut pose, &InputEdges::none(), &cfg, 100);
    plugin.fixed_update(&mut state, &mut pose, &InputEdges::none(), &cfg, 100);
    plugin.fixed_update(&mut state, &mut pose, &InputEdges::none(), &cfg, 100);
    assert_eq!(pose.z, -5000);
    assert!(state.in_progress.is_none());
}

#[test]
fn exit_clears_movement_but_keeps_the_facing() {
    let cfg = config();
    let plugin = ExplorePlugin;
    let mut pose = Pose { x: 0, y: 0, z: 0, yaw_degrees: -35 };
    let mut state = plugin.initial_state();

    let mut forward = InputEdges::none();
    forward.walk_forward = true;
    explore_movement_controls(&forward, &mut state, &pose, &cfg, 16);
    // run the alignment to completion, then cancel mid-walk
    plugin.fixed_update(&mut state, &mut pose, &InputEdges::none(), &cfg, 300);
    plugin.fixed_update(&mut state, &mut pose, &InputEdges::none(), &cfg, 150);
    assert_eq!(pose.z, -2500);

    plugin.on_exit_explore(&mut state);
    assert!(state.command_queue.is_empty());
    assert!(state.in_progress.is_none());
    assert_eq!(pose.z, -2500);
    // re-entering resumes with the same logical facing
    assert_eq!(state.alignment, AlignmentState::Aligned(CardinalDirection::North));

    // a fresh walk after re-entry goes through without a new alignment
    let mut state2 = state;
    state2.command_queue.push_back(ExplorationMovements::WalkForward);
    plugin.fixed_update(&mut state2, &mut pose, &InputEdges::none(), &cfg, 300);
    assert_eq!(pose.z, -7500);
}
