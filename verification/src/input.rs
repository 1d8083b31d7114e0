//! The input controller: once per tick it turns newly-pressed movement keys
//! into at most one enqueued intent, gated by a debounce cooldown.

use vstd::prelude::*;

use crate::intent::ExplorationMovements;
use crate::pose::{wf_pose, Pose, PoseV};
use crate::state::{
    enqueue_movement, spec_enqueue, timer_finished, wf_config, wf_state,
    ExplorationMovementState, MovementConfig, MovementTimer, StateV, TimerV,
};

verus! {

/// Which movement bindings saw a fresh press edge this tick: a key must have
/// gone from not pressed to pressed, not merely be held.  Reading the raw
/// device and the key-binding table is the caller's concern.
#[derive(Clone, Copy, Debug, PartialEq, Eq, Structural)]
pub struct InputEdges {
    pub walk_forward: bool,
    pub walk_backward: bool,
    pub strafe_left: bool,
    pub strafe_right: bool,
    pub turn_counterclockwise: bool,
    pub turn_clockwise: bool,
}

impl InputEdges {
    /// A tick on which no movement key was newly pressed.
    pub fn none() -> (e: InputEdges)
        ensures
            first_pressed(e) is None,
    {
        InputEdges {
            walk_forward: false,
            walk_backward: false,
            strafe_left: false,
            strafe_right: false,
            turn_counterclockwise: false,
            turn_clockwise: false,
        }
    }
}

/// The single binding the controller acts on: the first pressed edge in the
/// fixed priority order walk forward, walk backward, strafe left, strafe
/// right, turn counterclockwise, turn clockwise.
pub open spec fn first_pressed(e: InputEdges) -> Option<ExplorationMovements> {
    if e.walk_forward {
        Some(ExplorationMovements::WalkForward)
    } else if e.walk_backward {
        Some(ExplorationMovements::WalkBackward)
    } else if e.strafe_left {
        Some(ExplorationMovements::StrafeLeft)
    } else if e.strafe_right {
        Some(ExplorationMovements::StrafeRight)
    } else if e.turn_counterclockwise {
        Some(ExplorationMovements::TurnCounterclockwise)
    } else if e.turn_clockwise {
        Some(ExplorationMovements::TurnClockwise)
    } else {
        None
    }
}

/// The scan-and-enqueue half of the controller, reached only when no cooldown
/// is in the way: the first pressed binding is enqueued through the
/// orientation gate and the cooldown is re-armed; with no fresh press the
/// aggregate is left alone.
pub open spec fn spec_controls_scan(
    s: StateV,
    pose: PoseV,
    cfg: MovementConfig,
    edges: InputEdges,
) -> StateV {
    match first_pressed(edges) {
        None => s,
        Some(intent) => {
            let enqueued = spec_enqueue(s, intent, pose);
            StateV {
                cooldown: Some(TimerV { elapsed: 0, duration: cfg.input_cooldown_ms as int }),
                ..enqueued
            }
        },
    }
}

/// One tick of the input controller.  A live, unfinished cooldown only
/// advances (clamped at its duration) and blocks all input this tick; a
/// finished cooldown is cleared and the key scan proceeds.
pub open spec fn spec_controls(
    s: StateV,
    pose: PoseV,
    cfg: MovementConfig,
    edges: InputEdges,
    delta: int,
) -> StateV {
    match s.cooldown {
        Some(t) => {
            if !timer_finished(t) {
                let advanced = if delta >= t.duration - t.elapsed {
                    t.duration
                } else {
                    t.elapsed + delta
                };
                StateV {
                    cooldown: Some(TimerV { elapsed: advanced, duration: t.duration }),
                    ..s
                }
            } else {
                spec_controls_scan(StateV { cooldown: None, ..s }, pose, cfg, edges)
            }
        },
        None => spec_controls_scan(s, pose, cfg, edges),
    }
}

fn first_pressed_binding(edges: &InputEdges) -> (r: Option<ExplorationMovements>)
    ensures
        r == first_pressed(*edges),
{
    if edges.walk_forward {
        Some(ExplorationMovements::WalkForward)
    } else if edges.walk_backward {
        Some(ExplorationMovements::WalkBackward)
    } else if edges.strafe_left {
        Some(ExplorationMovements::StrafeLeft)
    } else if edges.strafe_right {
        Some(ExplorationMovements::StrafeRight)
    } else if edges.turn_counterclockwise {
        Some(ExplorationMovements::TurnCounterclockwise)
    } else if edges.turn_clockwise {
        Some(ExplorationMovements::TurnClockwise)
    } else {
        None
    }
}

/// One tick of the input controller.  While the debounce cooldown runs, input
/// is ignored and the cooldown only advances; once it has finished it is
/// cleared, the newly-pressed bindings are scanned in fixed priority order,
/// and at most one intent is enqueued through the orientation gate, re-arming
/// the cooldown.
pub fn explore_movement_controls(
    edges: &InputEdges,
    movement_data: &mut ExplorationMovementState,
    pose: &Pose,
    config: &MovementConfig,
    delta_ms: u64,
)
    requires
        wf_state(old(movement_data)@),
        wf_config(*config),
        wf_pose(pose@),
    ensures
        final(movement_data)@ == spec_controls(
            old(movement_data)@,
            pose@,
            *config,
            *edges,
            delta_ms as int,
        ),
        wf_state(final(movement_data)@),
{
    if let Some(timer) = movement_data.between_inputs {
        if timer.elapsed_ms < timer.duration_ms {
            let advanced = if delta_ms >= timer.duration_ms - timer.elapsed_ms {
                timer.duration_ms
            } else {
                timer.elapsed_ms + delta_ms
            };
            movement_data.between_inputs = Some(
                MovementTimer { elapsed_ms: advanced, duration_ms: timer.duration_ms },
            );
            return;
        }
        movement_data.between_inputs = None;
    }
    match first_pressed_binding(edges) {
        None => {},
        Some(intent) => {
            enqueue_movement(intent, movement_data, pose);
            movement_data.between_inputs = Some(
                MovementTimer { elapsed_ms: 0, duration_ms: config.input_cooldown_ms },
            );
        },
    }
}

} // verus!
