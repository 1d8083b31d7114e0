//! The laws the movement engine obeys across whole ticks and runs of ticks:
//! conservation of owed work, drain liveness, and rotation exactness.

use vstd::prelude::*;

use crate::cardinal::{
    abs_angle, lemma_norm_yaw_in_range, lemma_shortest_arc_lands, norm_yaw,
};
use crate::executor::{
    has_work, progress_num, spec_advance, spec_apply, spec_contextualize, spec_execute,
    spec_tick_completes,
};
use crate::input::{first_pressed, spec_controls, InputEdges};
use crate::intent::ExplorationMovements;
use crate::pose::{wf_pose, PoseV};
use crate::state::{
    load, spec_clear, spec_enqueue, wf_config, wf_motion, wf_state, ActiveV,
    AlignmentState, MotionV, MovementConfig, StateV,
};

verus! {

// ---------------------------------------------------------------------------
// Exclusivity and conservation of owed work.
//
// At most one movement is ever active, by the shape of the aggregate itself:
// it holds an `Option` of one active movement.  The lemmas below account for
// the owed work (queued intents plus the active movement) across every
// operation: a tick shrinks it exactly at a completion and never otherwise,
// an enqueue only grows it, and only an explicit clear empties it.
// ---------------------------------------------------------------------------

/// One executor tick leaves the owed work unchanged, except that a completed
/// movement retires exactly one unit of it.
pub proof fn lemma_tick_load(s: StateV, pose: PoseV, cfg: MovementConfig, delta: int)
    requires
        wf_state(s),
        wf_pose(pose),
        wf_config(cfg),
        delta >= 0,
    ensures
        load(spec_execute(s, pose, cfg, delta).0) == if spec_tick_completes(s, cfg, delta) {
            load(s) - 1
        } else {
            load(s)
        },
{
}

/// An enqueue grows the owed work by the intent itself, plus the injected
/// alignment command the first time.
pub proof fn lemma_enqueue_load(s: StateV, intent: ExplorationMovements, pose: PoseV)
    ensures
        load(spec_enqueue(s, intent, pose)) == load(s) + if s.alignment is Unaligned {
            2int
        } else {
            1int
        },
{
}

/// An explicit clear is the one operation that drops the owed work wholesale.
pub proof fn lemma_clear_load(s: StateV)
    ensures
        load(spec_clear(s)) == 0,
{
}

/// The input controller changes the owed work only through the orientation
/// gate's enqueue: by one or two commands when it accepts a press, and not at
/// all when the cooldown blocks the tick or no key was pressed.
pub proof fn lemma_controls_load(
    s: StateV,
    pose: PoseV,
    cfg: MovementConfig,
    edges: InputEdges,
    delta: int,
)
    ensures
        load(spec_controls(s, pose, cfg, edges, delta)) >= load(s),
{
    if (s.cooldown is None || !(s.cooldown matches Some(t) && t.elapsed < t.duration))
        && first_pressed(edges) is Some {
        lemma_enqueue_load(
            StateV { cooldown: None, ..s },
            first_pressed(edges).unwrap(),
            pose,
        );
    }
}

// ---------------------------------------------------------------------------
// Well-formedness is an invariant of the engine.
// ---------------------------------------------------------------------------

/// Contextualization always yields a well-formed movement, started at zero
/// with the configured step duration.
pub proof fn lemma_contextualize_wf(
    intent: ExplorationMovements,
    pose: PoseV,
    alignment: AlignmentState,
    cfg: MovementConfig,
)
    requires
        wf_pose(pose),
        wf_config(cfg),
    ensures
        ({
            let fresh = spec_contextualize(intent, pose, alignment, cfg).0;
            &&& wf_motion(fresh.motion)
            &&& fresh.elapsed == 0
            &&& fresh.duration == cfg.step_duration_ms
        }),
{
}

/// Applying a motion keeps the pose well formed: a translation leaves the
/// yaw alone, and a rotation lands on a normalized angle.
pub proof fn lemma_apply_wf(a: ActiveV, pose: PoseV)
    requires
        wf_pose(pose),
    ensures
        wf_pose(spec_apply(a, pose)),
{
    match a.motion {
        MotionV::Translation { .. } => {},
        MotionV::Rotation { start_yaw, target_yaw } => {
            let arc = norm_yaw(target_yaw - start_yaw);
            let mag = abs_angle(arc) * progress_num(a) / a.duration;
            let turned = if arc < 0 {
                -mag
            } else {
                mag
            };
            lemma_norm_yaw_in_range(start_yaw + turned);
        },
    }
}

/// One executor tick preserves well-formedness of the aggregate and the pose.
pub proof fn lemma_tick_preserves_wf(s: StateV, pose: PoseV, cfg: MovementConfig, delta: int)
    requires
        wf_state(s),
        wf_pose(pose),
        wf_config(cfg),
        delta >= 0,
    ensures
        wf_state(spec_execute(s, pose, cfg, delta).0),
        wf_pose(spec_execute(s, pose, cfg, delta).1),
{
    if has_work(s) {
        let step2 = if s.active is Some {
            (s.active.unwrap(), s.alignment, s.queue)
        } else {
            let ctx = spec_contextualize(s.queue[0], pose, s.alignment, cfg);
            (ctx.0, ctx.1, s.queue.drop_first())
        };
        if s.active is None {
            lemma_contextualize_wf(s.queue[0], pose, s.alignment, cfg);
        }
        let a1 = spec_advance(step2.0, delta);
        let pose1 = spec_apply(a1, pose);
        lemma_apply_wf(a1, pose);
        if a1.elapsed >= a1.duration && step2.2.len() > 0 {
            lemma_contextualize_wf(step2.2[0], pose1, step2.1, cfg);
        }
    }
}

// ---------------------------------------------------------------------------
// Drain liveness.
// ---------------------------------------------------------------------------

/// Milliseconds of work outstanding: one step duration per queued intent,
/// plus the active movement's time left.
pub open spec fn remaining_ms(s: StateV, cfg: MovementConfig) -> int {
    (s.queue.len() as int) * (cfg.step_duration_ms as int) + match s.active {
        Some(a) => a.duration - a.elapsed,
        None => 0,
    }
}

/// Nothing queued and nothing in flight.
pub open spec fn drained(s: StateV) -> bool {
    !has_work(s)
}

/// Outstanding work is never negative, and it is zero exactly on a drained
/// aggregate.
pub proof fn lemma_remaining_zero_iff_drained(s: StateV, cfg: MovementConfig)
    requires
        wf_state(s),
        wf_config(cfg),
    ensures
        remaining_ms(s, cfg) >= 0,
        remaining_ms(s, cfg) == 0 <==> drained(s),
{
    vstd::arithmetic::mul::lemma_mul_basics(cfg.step_duration_ms as int);
    vstd::arithmetic::mul::lemma_mul_nonnegative(
        s.queue.len() as int,
        cfg.step_duration_ms as int,
    );
    if s.queue.len() > 0 {
        vstd::arithmetic::mul::lemma_mul_strictly_positive(
            s.queue.len() as int,
            cfg.step_duration_ms as int,
        );
    }
}

/// Every tick of positive elapsed time pays off at least one millisecond of
/// outstanding work, as long as any is owed.
pub proof fn lemma_tick_progress(s: StateV, pose: PoseV, cfg: MovementConfig, delta: int)
    requires
        wf_state(s),
        wf_pose(pose),
        wf_config(cfg),
        delta >= 1,
        has_work(s),
    ensures
        remaining_ms(spec_execute(s, pose, cfg, delta).0, cfg) <= remaining_ms(s, cfg) - 1,
{
    let d = cfg.step_duration_ms as int;
    let qlen = s.queue.len() as int;
    assert((qlen - 1) * d == qlen * d - d) by (nonlinear_arith);
    assert((qlen - 2) * d == qlen * d - 2 * d) by (nonlinear_arith);
}

/// The aggregate and pose after a whole run of executor ticks.
pub open spec fn run_ticks(
    s: StateV,
    pose: PoseV,
    cfg: MovementConfig,
    deltas: Seq<int>,
) -> (StateV, PoseV)
    decreases deltas.len(),
{
    if deltas.len() == 0 {
        (s, pose)
    } else {
        let step = spec_execute(s, pose, cfg, deltas[0]);
        run_ticks(step.0, step.1, cfg, deltas.drop_first())
    }
}

/// A drained aggregate stays drained: every further tick is a no-op.
pub proof fn lemma_run_ticks_drained(s: StateV, pose: PoseV, cfg: MovementConfig, deltas: Seq<int>)
    requires
        drained(s),
    ensures
        run_ticks(s, pose, cfg, deltas) == (s, pose),
    decreases deltas.len(),
{
    if deltas.len() > 0 {
        lemma_run_ticks_drained(s, pose, cfg, deltas.drop_first());
    }
}

/// Drain liveness: any finite backlog is gone after enough ticks.  Ticks of
/// at least one millisecond each, as many as the outstanding milliseconds,
/// leave the queue empty and nothing active.
pub proof fn lemma_drain(s: StateV, pose: PoseV, cfg: MovementConfig, deltas: Seq<int>)
    requires
        wf_state(s),
        wf_pose(pose),
        wf_config(cfg),
        forall|i: int| 0 <= i < deltas.len() ==> deltas[i] >= 1,
        deltas.len() >= remaining_ms(s, cfg),
    ensures
        drained(run_ticks(s, pose, cfg, deltas).0),
    decreases deltas.len(),
{
    lemma_remaining_zero_iff_drained(s, cfg);
    if deltas.len() == 0 {
    } else if drained(s) {
        lemma_run_ticks_drained(s, pose, cfg, deltas);
    } else {
        let step = spec_execute(s, pose, cfg, deltas[0]);
        lemma_tick_progress(s, pose, cfg, deltas[0]);
        lemma_tick_preserves_wf(s, pose, cfg, deltas[0]);
        assert(forall|i: int|
            0 <= i < deltas.drop_first().len() ==> #[trigger] deltas.drop_first()[i] >= 1);
        lemma_drain(step.0, step.1, cfg, deltas.drop_first());
    }
}

// ---------------------------------------------------------------------------
// Rotation exactness.
// ---------------------------------------------------------------------------

/// A tick that covers what is left of an active rotation leaves the pose's
/// yaw exactly at the rotation's target: the interpolation fraction
/// saturates at one and cannot overshoot.
pub proof fn lemma_rotation_completes_exactly(
    s: StateV,
    pose: PoseV,
    cfg: MovementConfig,
    delta: int,
    a: ActiveV,
    start_yaw: int,
    target_yaw: int,
)
    requires
        wf_state(s),
        wf_pose(pose),
        wf_config(cfg),
        s.active == Some(a),
        a.motion == (MotionV::Rotation { start_yaw, target_yaw }),
        delta >= a.duration - a.elapsed,
    ensures
        spec_execute(s, pose, cfg, delta).1.yaw == target_yaw,
{
    let a1 = spec_advance(a, delta);
    let arc = norm_yaw(target_yaw - start_yaw);
    lemma_norm_yaw_in_range(target_yaw - start_yaw);
    vstd::arithmetic::div_mod::lemma_div_by_multiple(abs_angle(arc), a.duration);
    lemma_shortest_arc_lands(start_yaw, target_yaw);
}

/// Translation exactness: a tick that covers what is left of an active
/// translation leaves the position exactly one configured step from the
/// captured start, whatever the duration — the motion interpolates towards a
/// fixed endpoint rather than integrating a rate.
pub proof fn lemma_translation_completes_exactly(
    s: StateV,
    pose: PoseV,
    cfg: MovementConfig,
    delta: int,
    a: ActiveV,
    start_x: int,
    start_z: int,
    dir_x: int,
    dir_z: int,
    distance: int,
)
    requires
        wf_state(s),
        wf_pose(pose),
        wf_config(cfg),
        s.active == Some(a),
        a.motion == (MotionV::Translation { start_x, start_z, dir_x, dir_z, distance }),
        delta >= a.duration - a.elapsed,
    ensures
        spec_execute(s, pose, cfg, delta).1.x == start_x + dir_x * distance,
        spec_execute(s, pose, cfg, delta).1.z == start_z + dir_z * distance,
{
    vstd::arithmetic::div_mod::lemma_div_by_multiple(distance, a.duration);
}

/// Rotation exactness over whole runs: with nothing else queued, once the
/// ticks' elapsed times add up to the rotation's remaining duration, the
/// yaw stands exactly at the target and the engine is idle.
pub proof fn lemma_rotation_runs_to_target(
    s: StateV,
    pose: PoseV,
    cfg: MovementConfig,
    deltas: Seq<int>,
    a: ActiveV,
    start_yaw: int,
    target_yaw: int,
)
    requires
        wf_state(s),
        wf_pose(pose),
        wf_config(cfg),
        s.queue.len() == 0,
        s.active == Some(a),
        a.motion == (MotionV::Rotation { start_yaw, target_yaw }),
        forall|i: int| 0 <= i < deltas.len() ==> deltas[i] >= 0,
        sum_of(deltas) >= a.duration - a.elapsed,
    ensures
        run_ticks(s, pose, cfg, deltas).1.yaw == target_yaw,
        drained(run_ticks(s, pose, cfg, deltas).0),
    decreases deltas.len(),
{
    if deltas.len() == 0 {
        assert(false);
    } else {
        let d0 = deltas[0];
        let step = spec_execute(s, pose, cfg, d0);
        assert(sum_of(deltas) == d0 + sum_of(deltas.drop_first()));
        if d0 >= a.duration - a.elapsed {
            lemma_rotation_completes_exactly(s, pose, cfg, d0, a, start_yaw, target_yaw);
            lemma_run_ticks_drained(step.0, step.1, cfg, deltas.drop_first());
        } else {
            let a1 = spec_advance(a, d0);
            lemma_apply_wf(a1, pose);
            assert(forall|i: int|
                0 <= i < deltas.drop_first().len() ==> #[trigger] deltas.drop_first()[i] >= 0);
            lemma_sum_nonneg(deltas.drop_first());
            lemma_rotation_runs_to_target(
                step.0,
                step.1,
                cfg,
                deltas.drop_first(),
                a1,
                start_yaw,
                target_yaw,
            );
        }
    }
}

/// Total elapsed time of a run of ticks.
pub open spec fn sum_of(deltas: Seq<int>) -> int
    decreases deltas.len(),
{
    if deltas.len() == 0 {
        0
    } else {
        deltas[0] + sum_of(deltas.drop_first())
    }
}

pub proof fn lemma_sum_nonneg(deltas: Seq<int>)
    requires
        forall|i: int| 0 <= i < deltas.len() ==> deltas[i] >= 0,
    ensures
        sum_of(deltas) >= 0,
    decreases deltas.len(),
{
    if deltas.len() > 0 {
        assert(forall|i: int|
            0 <= i < deltas.drop_first().len() ==> #[trigger] deltas.drop_first()[i] >= 0);
        lemma_sum_nonneg(deltas.drop_first());
    }
}

} // verus!
