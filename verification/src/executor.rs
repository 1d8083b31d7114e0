//! The per-tick movement executor.  Each tick it contextualizes the head of
//! the queue into an active movement if none is running, advances the active
//! progress timer by the tick's elapsed time, applies the interpolated
//! motion to the avatar's pose, and on completion immediately contextualizes
//! the next queued intent so no tick is spent idle between commands.

use vstd::prelude::*;

use crate::cardinal::{
    abs_angle, clockwise_of, counterclockwise_of, forward_of, forward_x, forward_z,
    nearest_cardinal, nearest_cardinal_spec, norm_yaw, normalize_yaw, rotate_clockwise,
    rotate_counterclockwise, yaw_of, CardinalDirection,
};
use crate::intent::ExplorationMovements;
use crate::pose::{pose_in_world, wf_pose, Pose, PoseV};
use crate::state::{
    facing_of, motion_in_world, state_in_world, wf_config, wf_motion, wf_state, ActiveMovement,
    ActiveV, AlignmentState, ExplorationMovementState, Motion, MotionV, MovementConfig, StateV,
    MAX_DURATION_MS, MAX_STEP_DISTANCE,
};

verus! {

/// Grid direction of a translation intent, as (x, z) unit components,
/// relative to the avatar's local axes resolved onto the grid: forward and
/// backward along the heading's axis, strafing along its right-hand axis.
pub open spec fn translation_dir(
    intent: ExplorationMovements,
    heading: CardinalDirection,
) -> (int, int) {
    match intent {
        ExplorationMovements::WalkForward => (forward_x(heading), forward_z(heading)),
        ExplorationMovements::WalkBackward => (-forward_x(heading), -forward_z(heading)),
        ExplorationMovements::StrafeRight => (
            forward_x(clockwise_of(heading)),
            forward_z(clockwise_of(heading)),
        ),
        ExplorationMovements::StrafeLeft => (
            -forward_x(clockwise_of(heading)),
            -forward_z(clockwise_of(heading)),
        ),
        _ => (0, 0),
    }
}

/// Contextualization: resolving an abstract intent into a concrete,
/// time-bounded motion given the pose at this instant.
///
/// A translation freezes its direction from the avatar's local axes resolved
/// onto the grid (the nearest cardinal heading of the current yaw; exact
/// whenever the avatar is grid-aligned) and its start from the current
/// position.  A turn resolves the logical facing's clockwise or
/// counterclockwise neighbour; if the facing is still undefined the nearest
/// cardinal heading is resolved on the fly rather than relied upon.  An
/// alignment intent rotates to its fixed heading.  Every rotation updates the
/// logical facing at the moment it begins, since its destination is already
/// determined.
pub open spec fn spec_contextualize(
    intent: ExplorationMovements,
    pose: PoseV,
    alignment: AlignmentState,
    cfg: MovementConfig,
) -> (ActiveV, AlignmentState) {
    match intent {
        ExplorationMovements::WalkForward
        | ExplorationMovements::WalkBackward
        | ExplorationMovements::StrafeRight
        | ExplorationMovements::StrafeLeft => {
            let heading = nearest_cardinal_spec(pose.yaw);
            let dir = translation_dir(intent, heading);
            (
                ActiveV {
                    motion: MotionV::Translation {
                        start_x: pose.x,
                        start_z: pose.z,
                        dir_x: dir.0,
                        dir_z: dir.1,
                        distance: cfg.step_distance as int,
                    },
                    elapsed: 0,
                    duration: cfg.step_duration_ms as int,
                },
                alignment,
            )
        },
        ExplorationMovements::TurnClockwise | ExplorationMovements::TurnCounterclockwise => {
            let facing = match facing_of(alignment) {
                Some(d) => d,
                None => nearest_cardinal_spec(pose.yaw),
            };
            let next = if intent is TurnClockwise {
                clockwise_of(facing)
            } else {
                counterclockwise_of(facing)
            };
            (
                ActiveV {
                    motion: MotionV::Rotation { start_yaw: pose.yaw, target_yaw: yaw_of(next) },
                    elapsed: 0,
                    duration: cfg.step_duration_ms as int,
                },
                AlignmentState::Aligned(next),
            )
        },
        ExplorationMovements::FaceNorth => spec_contextualize_face(
            CardinalDirection::North,
            pose,
            cfg,
        ),
        ExplorationMovements::FaceEast => spec_contextualize_face(CardinalDirection::East, pose, cfg),
        ExplorationMovements::FaceSouth => spec_contextualize_face(
            CardinalDirection::South,
            pose,
            cfg,
        ),
        ExplorationMovements::FaceWest => spec_contextualize_face(CardinalDirection::West, pose, cfg),
    }
}

pub open spec fn spec_contextualize_face(
    d: CardinalDirection,
    pose: PoseV,
    cfg: MovementConfig,
) -> (ActiveV, AlignmentState) {
    (
        ActiveV {
            motion: MotionV::Rotation { start_yaw: pose.yaw, target_yaw: yaw_of(d) },
            elapsed: 0,
            duration: cfg.step_duration_ms as int,
        },
        AlignmentState::Aligned(d),
    )
}

/// Advancing the progress timer by a tick's elapsed time, clamped at the
/// duration.
pub open spec fn spec_advance(a: ActiveV, delta: int) -> ActiveV {
    if delta >= a.duration - a.elapsed {
        ActiveV { elapsed: a.duration, ..a }
    } else {
        ActiveV { elapsed: a.elapsed + delta, ..a }
    }
}

/// The numerator of the interpolation fraction, clamped so the fraction
/// saturates at 1 and never overshoots.
pub open spec fn progress_num(a: ActiveV) -> int {
    if a.elapsed >= a.duration {
        a.duration
    } else if a.elapsed <= 0 {
        0
    } else {
        a.elapsed
    }
}

/// The pose an active movement dictates at its current progress.
///
/// A translation places the avatar on the straight segment from its captured
/// start towards start + direction * distance, by endpoint interpolation, so
/// the full configured step distance is covered exactly when the timer
/// completes, whatever the duration.  A rotation turns the yaw along the
/// shortest arc from the captured start to the exact target; the fraction
/// saturates at 1, so the pose arrives at the target yaw exactly.
pub open spec fn spec_apply(a: ActiveV, pose: PoseV) -> PoseV {
    match a.motion {
        MotionV::Translation { start_x, start_z, dir_x, dir_z, distance } => {
            let moved = distance * progress_num(a) / a.duration;
            PoseV { x: start_x + dir_x * moved, y: pose.y, z: start_z + dir_z * moved, yaw: pose.yaw }
        },
        MotionV::Rotation { start_yaw, target_yaw } => {
            let arc = norm_yaw(target_yaw - start_yaw);
            let mag = abs_angle(arc) * progress_num(a) / a.duration;
            let turned = if arc < 0 {
                -mag
            } else {
                mag
            };
            PoseV { x: pose.x, y: pose.y, z: pose.z, yaw: norm_yaw(start_yaw + turned) }
        },
    }
}

/// Whether the aggregate owes any work: something queued or something in
/// flight.
pub open spec fn has_work(s: StateV) -> bool {
    s.active is Some || s.queue.len() > 0
}

/// One tick of the movement executor, as a function of the aggregate, the
/// pose, the configuration and the tick's elapsed time.
pub open spec fn spec_execute(
    s: StateV,
    pose: PoseV,
    cfg: MovementConfig,
    delta: int,
) -> (StateV, PoseV) {
    if !has_work(s) {
        (s, pose)
    } else {
        let step2 = match s.active {
            Some(a) => (a, s.alignment, s.queue),
            None => {
                let ctx = spec_contextualize(s.queue[0], pose, s.alignment, cfg);
                (ctx.0, ctx.1, s.queue.drop_first())
            },
        };
        let a1 = spec_advance(step2.0, delta);
        let align1 = step2.1;
        let queue1 = step2.2;
        let pose1 = spec_apply(a1, pose);
        if a1.elapsed >= a1.duration {
            if queue1.len() > 0 {
                let ctx = spec_contextualize(queue1[0], pose1, align1, cfg);
                (
                    StateV {
                        queue: queue1.drop_first(),
                        active: Some(ctx.0),
                        cooldown: s.cooldown,
                        alignment: ctx.1,
                    },
                    pose1,
                )
            } else {
                (
                    StateV { queue: queue1, active: None, cooldown: s.cooldown, alignment: align1 },
                    pose1,
                )
            }
        } else {
            (
                StateV { queue: queue1, active: Some(a1), cooldown: s.cooldown, alignment: align1 },
                pose1,
            )
        }
    }
}

/// Whether this tick completes a movement: there is work, and the tick's
/// elapsed time covers what is left of the movement that runs this tick —
/// the active one, or the freshly contextualized head of the queue, whose
/// duration is the configured step duration.
pub open spec fn spec_tick_completes(s: StateV, cfg: MovementConfig, delta: int) -> bool {
    has_work(s) && delta >= match s.active {
        Some(a) => a.duration - a.elapsed,
        None => cfg.step_duration_ms as int,
    }
}

/// Resolves an intent into a concrete motion and the facing it commits to.
fn contextualize_intent(
    intent: ExplorationMovements,
    pose: &Pose,
    alignment: AlignmentState,
    config: &MovementConfig,
) -> (r: (ActiveMovement, AlignmentState))
    requires
        wf_pose(pose@),
        wf_config(*config),
    ensures
        (r.0@, r.1) == spec_contextualize(intent, pose@, alignment, *config),
        r.0@.elapsed == 0,
{
    match intent {
        ExplorationMovements::WalkForward
        | ExplorationMovements::WalkBackward
        | ExplorationMovements::StrafeRight
        | ExplorationMovements::StrafeLeft => {
            let heading = nearest_cardinal(pose.yaw_degrees);
            let axis = match intent {
                ExplorationMovements::WalkForward | ExplorationMovements::WalkBackward => {
                    forward_of(heading)
                },
                _ => forward_of(rotate_clockwise(heading).0),
            };
            let backwards = match intent {
                ExplorationMovements::WalkBackward | ExplorationMovements::StrafeLeft => true,
                _ => false,
            };
            let dir_x = if backwards {
                -axis.0
            } else {
                axis.0
            };
            let dir_z = if backwards {
                -axis.1
            } else {
                axis.1
            };
            (
                ActiveMovement {
                    motion: Motion::Translation {
                        start_x: pose.x,
                        start_z: pose.z,
                        dir_x,
                        dir_z,
                        distance: config.step_distance,
                    },
                    elapsed_ms: 0,
                    duration_ms: config.step_duration_ms,
                },
                alignment,
            )
        },
        ExplorationMovements::TurnClockwise | ExplorationMovements::TurnCounterclockwise => {
            let facing = match alignment {
                AlignmentState::Aligned(d) => d,
                _ => nearest_cardinal(pose.yaw_degrees),
            };
            let turn = match intent {
                ExplorationMovements::TurnClockwise => rotate_clockwise(facing),
                _ => rotate_counterclockwise(facing),
            };
            (
                ActiveMovement {
                    motion: Motion::Rotation { start_yaw: pose.yaw_degrees, target_yaw: turn.1 },
                    elapsed_ms: 0,
                    duration_ms: config.step_duration_ms,
                },
                AlignmentState::Aligned(turn.0),
            )
        },
        ExplorationMovements::FaceNorth => contextualize_face(
            CardinalDirection::North,
            pose,
            config,
        ),
        ExplorationMovements::FaceEast => contextualize_face(CardinalDirection::East, pose, config),
        ExplorationMovements::FaceSouth => contextualize_face(
            CardinalDirection::South,
            pose,
            config,
        ),
        ExplorationMovements::FaceWest => contextualize_face(CardinalDirection::West, pose, config),
    }
}

fn contextualize_face(
    d: CardinalDirection,
    pose: &Pose,
    config: &MovementConfig,
) -> (r: (ActiveMovement, AlignmentState))
    requires
        wf_config(*config),
    ensures
        (r.0@, r.1) == spec_contextualize_face(d, pose@, *config),
{
    let target = match d {
        CardinalDirection::North => crate::cardinal::NORTH_YAW,
        CardinalDirection::East => crate::cardinal::EAST_YAW,
        CardinalDirection::South => crate::cardinal::SOUTH_YAW,
        CardinalDirection::West => crate::cardinal::WEST_YAW,
    };
    (
        ActiveMovement {
            motion: Motion::Rotation { start_yaw: pose.yaw_degrees, target_yaw: target },
            elapsed_ms: 0,
            duration_ms: config.step_duration_ms,
        },
        AlignmentState::Aligned(d),
    )
}

/// A clamped interpolation step: scaling a nonnegative magnitude by a
/// fraction at most one keeps it between zero and the magnitude.
pub proof fn lemma_scaled_progress_bounds(m: int, e: int, dur: int)
    requires
        0 <= m,
        0 <= e <= dur,
        1 <= dur,
    ensures
        0 <= m * e / dur <= m,
{
    vstd::arithmetic::mul::lemma_mul_inequality(e, dur, m);
    vstd::arithmetic::div_mod::lemma_div_is_ordered(m * e, m * dur, dur);
    vstd::arithmetic::div_mod::lemma_div_by_multiple(m, dur);
    vstd::arithmetic::div_mod::lemma_div_pos_is_pos(m * e, dur);
    vstd::arithmetic::mul::lemma_mul_nonnegative(m, e);
}

/// Applies the motion's interpolated pose for the current progress.
fn apply_motion(active: &ActiveMovement, pose: &mut Pose)
    requires
        wf_motion(active@.motion),
        motion_in_world(active@.motion),
        0 <= active@.elapsed <= active@.duration,
        1 <= active@.duration <= MAX_DURATION_MS,
        wf_pose(old(pose)@),
    ensures
        final(pose)@ == spec_apply(active@, old(pose)@),
        wf_pose(final(pose)@),
{
    match active.motion {
        Motion::Translation { start_x, start_z, dir_x, dir_z, distance } => {
            proof {
                lemma_scaled_progress_bounds(
                    distance as int,
                    active.elapsed_ms as int,
                    active.duration_ms as int,
                );
                vstd::arithmetic::mul::lemma_mul_upper_bound(
                    distance as int,
                    MAX_STEP_DISTANCE as int,
                    active.elapsed_ms as int,
                    MAX_DURATION_MS as int,
                );
            }
            let moved_u = (distance as u64) * active.elapsed_ms / active.duration_ms;
            let moved = moved_u as i64;
            let step_x = if dir_x == 1 {
                moved
            } else if dir_x == -1 {
                -moved
            } else {
                0
            };
            let step_z = if dir_z == 1 {
                moved
            } else if dir_z == -1 {
                -moved
            } else {
                0
            };
            proof {
                let a = active@;
                assert(progress_num(a) == a.elapsed);
                assert(moved_u as int == (distance as int) * progress_num(a) / a.duration);
                assert((dir_x as int) * (moved as int) == step_x as int) by {
                    if dir_x == 1 {
                        assert(1 * (moved as int) == moved as int) by (nonlinear_arith);
                    } else if dir_x == -1 {
                        assert((-1) * (moved as int) == -(moved as int)) by (nonlinear_arith);
                    } else {
                        assert(0 * (moved as int) == 0) by (nonlinear_arith);
                    }
                }
                assert((dir_z as int) * (moved as int) == step_z as int) by {
                    if dir_z == 1 {
                        assert(1 * (moved as int) == moved as int) by (nonlinear_arith);
                    } else if dir_z == -1 {
                        assert((-1) * (moved as int) == -(moved as int)) by (nonlinear_arith);
                    } else {
                        assert(0 * (moved as int) == 0) by (nonlinear_arith);
                    }
                }
            }
            pose.x = start_x + step_x;
            pose.z = start_z + step_z;
        },
        Motion::Rotation { start_yaw, target_yaw } => {
            let arc = normalize_yaw(target_yaw - start_yaw);
            let abs_arc: i32 = if arc < 0 {
                -arc
            } else {
                arc
            };
            proof {
                lemma_scaled_progress_bounds(
                    abs_arc as int,
                    active.elapsed_ms as int,
                    active.duration_ms as int,
                );
                vstd::arithmetic::mul::lemma_mul_upper_bound(
                    abs_arc as int,
                    180,
                    active.elapsed_ms as int,
                    MAX_DURATION_MS as int,
                );
            }
            let mag_u = (abs_arc as u64) * active.elapsed_ms / active.duration_ms;
            let mag = mag_u as i32;
            let turned = if arc < 0 {
                -mag
            } else {
                mag
            };
            pose.yaw_degrees = normalize_yaw(start_yaw + turned);
        },
    }
}

/// One tick of the movement executor.  If the queue is empty and nothing is
/// active this is a no-op; otherwise the head of the queue is contextualized
/// when no movement is active, the active movement advances by `delta_ms`
/// and moves the pose, and a movement whose timer has just filled is retired
/// — replaced at once by the next queued intent, or by nothing.
#[verifier::rlimit(50)]
pub fn execute_movement_queue(
    movement_data: &mut ExplorationMovementState,
    pose: &mut Pose,
    config: &MovementConfig,
    delta_ms: u64,
)
    requires
        wf_state(old(movement_data)@),
        state_in_world(old(movement_data)@),
        wf_config(*config),
        wf_pose(old(pose)@),
        pose_in_world(old(pose)@),
    ensures
        final(movement_data)@ == spec_execute(
            old(movement_data)@,
            old(pose)@,
            *config,
            delta_ms as int,
        ).0,
        final(pose)@ == spec_execute(old(movement_data)@, old(pose)@, *config, delta_ms as int).1,
        wf_state(final(movement_data)@),
        wf_pose(final(pose)@),
{
    let (mut active, align0): (ActiveMovement, AlignmentState) = match movement_data.in_progress {
        Some(a) => (a, movement_data.alignment),
        None => {
            let intent_opt = movement_data.command_queue.pop_front();
            match intent_opt {
                None => {
                    return;
                },
                Some(intent) => contextualize_intent(
                    intent,
                    pose,
                    movement_data.alignment,
                    config,
                ),
            }
        },
    };
    // Advance the progress timer, clamped at the duration.
    if delta_ms >= active.duration_ms - active.elapsed_ms {
        active.elapsed_ms = active.duration_ms;
    } else {
        active.elapsed_ms = active.elapsed_ms + delta_ms;
    }
    apply_motion(&active, pose);
    if active.elapsed_ms >= active.duration_ms {
        // Just finished: retire it and contextualize the next intent at once.
        let next = movement_data.command_queue.pop_front();
        match next {
            Some(intent) => {
                let (fresh, align2) = contextualize_intent(intent, pose, align0, config);
                movement_data.in_progress = Some(fresh);
                movement_data.alignment = align2;
            },
            None => {
                movement_data.in_progress = None;
                movement_data.alignment = align0;
            },
        }
    } else {
        movement_data.in_progress = Some(active);
        movement_data.alignment = align0;
    }
}

} // verus!
