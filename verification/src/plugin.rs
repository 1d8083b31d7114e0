//! The plugins that wire the movement subsystem into the game loop.  Each
//! exposes what its build step installs and schedules: the initial movement
//! resource, the fixed-update pass, and the cleanup on leaving the
//! exploration mode.

use vstd::prelude::*;

use crate::executor::{execute_movement_queue, spec_execute};
use crate::input::{explore_movement_controls, spec_controls, InputEdges};
use crate::pose::{pose_in_world, wf_pose, Pose};
use crate::state::{
    clear_movement_queue, initial_state_view, spec_clear, state_in_world, wf_config, wf_state,
    ExplorationMovementState, MovementConfig,
};

verus! {

/// The basic movement plugin: it installs the movement resource, runs the
/// executor every update while exploring, and clears the queue on exit.
pub struct ExplorationMovementPlugin;

impl ExplorationMovementPlugin {
    /// The movement resource as installed at build time: nothing queued,
    /// nothing in progress, grid alignment not yet injected.
    pub fn initial_state(&self) -> (s: ExplorationMovementState)
        ensures
            s@ == initial_state_view(),
    {
        ExplorationMovementState::new()
    }
}

/// The full exploration plugin: besides the executor it schedules the input
/// controller, ordered after the executor within the same fixed-update pass.
pub struct ExplorePlugin;

impl ExplorePlugin {
    /// The movement resource as installed at build time.
    pub fn initial_state(&self) -> (s: ExplorationMovementState)
        ensures
            s@ == initial_state_view(),
    {
        ExplorationMovementState::new()
    }

    /// One whole fixed-update pass in this plugin's schedule order: the
    /// movement executor first, then the input controller.  The controller
    /// reads the pose the executor left behind.
    pub fn fixed_update(
        &self,
        movement_data: &mut ExplorationMovementState,
        pose: &mut Pose,
        edges: &InputEdges,
        config: &MovementConfig,
        delta_ms: u64,
    )
        requires
            wf_state(old(movement_data)@),
            state_in_world(old(movement_data)@),
            wf_config(*config),
            wf_pose(old(pose)@),
            pose_in_world(old(pose)@),
        ensures
            ({
                let mid = spec_execute(old(movement_data)@, old(pose)@, *config, delta_ms as int);
                &&& final(pose)@ == mid.1
                &&& final(movement_data)@ == spec_controls(
                    mid.0,
                    mid.1,
                    *config,
                    *edges,
                    delta_ms as int,
                )
            }),
            wf_state(final(movement_data)@),
            wf_pose(final(pose)@),
    {
        execute_movement_queue(movement_data, pose, config, delta_ms);
        explore_movement_controls(edges, movement_data, pose, config, delta_ms);
    }

    /// Leaving the exploration mode cancels all movement: the queue empties
    /// and any in-flight motion is dropped where it stands; the alignment
    /// flag and the logical facing persist, so re-entering resumes with the
    /// same facing.
    pub fn on_exit_explore(&self, movement_data: &mut ExplorationMovementState)
        ensures
            final(movement_data)@ == spec_clear(old(movement_data)@),
    {
        clear_movement_queue(movement_data);
    }
}

} // verus!
