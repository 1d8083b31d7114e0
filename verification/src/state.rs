//! The movement aggregate: the FIFO intent queue, the optional active
//! movement with its progress timer, the input cooldown, and the grid
//! alignment state.  The orientation gate (`enqueue_movement`) and the
//! cancellation operation (`clear_movement_queue`) live here.

use std::collections::VecDeque;

use vstd::prelude::*;

use crate::cardinal::{nearest_cardinal, nearest_cardinal_spec, yaw_in_range, CardinalDirection};
use crate::intent::{face_intent, face_intent_of, ExplorationMovements};
use crate::pose::{wf_pose, Pose, PoseV, WORLD_LIMIT};

verus! {

/// Longest step distance a configuration may ask for, in world units.
pub const MAX_STEP_DISTANCE: i64 = 1_000_000;

/// Longest duration a configuration may ask for, in milliseconds.
pub const MAX_DURATION_MS: u64 = 1_000_000;

/// The recognized configuration options: seconds-per-move and units-per-move
/// for discrete steps, and the input debounce window, all as integers.
#[derive(Clone, Copy, Debug, PartialEq, Eq, Structural)]
pub struct MovementConfig {
    /// How long one discrete move or turn takes, in milliseconds.
    pub step_duration_ms: u64,
    /// How far one translation step moves, in world units.
    pub step_distance: i64,
    /// How long new input is ignored after an accepted press, in milliseconds.
    pub input_cooldown_ms: u64,
}

pub open spec fn wf_config(c: MovementConfig) -> bool {
    &&& 1 <= c.step_duration_ms <= MAX_DURATION_MS
    &&& 1 <= c.step_distance <= MAX_STEP_DISTANCE
    &&& c.input_cooldown_ms <= MAX_DURATION_MS
}

/// Mathematical model of a one-shot timer.
pub struct TimerV {
    pub elapsed: int,
    pub duration: int,
}

/// A one-shot timer, resumed in place across ticks.  It is finished once
/// `elapsed_ms` has reached `duration_ms`; advancing clamps at the duration.
#[derive(Clone, Copy, Debug, PartialEq, Eq, Structural)]
pub struct MovementTimer {
    pub elapsed_ms: u64,
    pub duration_ms: u64,
}

impl View for MovementTimer {
    type V = TimerV;

    open spec fn view(&self) -> TimerV {
        TimerV { elapsed: self.elapsed_ms as int, duration: self.duration_ms as int }
    }
}

pub open spec fn wf_timer(t: TimerV) -> bool {
    0 <= t.elapsed <= t.duration <= MAX_DURATION_MS
}

pub open spec fn timer_finished(t: TimerV) -> bool {
    t.elapsed >= t.duration
}

/// Whether the one-time grid alignment has been injected and executed.
/// `AligningTo` covers the window where the alignment command sits in the
/// queue but has not begun; the logical facing is defined only in `Aligned`.
#[derive(Clone, Copy, Debug, PartialEq, Eq, Structural)]
pub enum AlignmentState {
    Unaligned,
    AligningTo(CardinalDirection),
    Aligned(CardinalDirection),
}

/// Whether the one-time alignment command has been injected.
pub open spec fn grid_aligned(a: AlignmentState) -> bool {
    !(a is Unaligned)
}

/// The avatar's logical facing, defined once an alignment has begun
/// executing.
pub open spec fn facing_of(a: AlignmentState) -> Option<CardinalDirection> {
    match a {
        AlignmentState::Aligned(d) => Some(d),
        _ => None,
    }
}

/// Mathematical model of a contextualized motion.
pub enum MotionV {
    Translation { start_x: int, start_z: int, dir_x: int, dir_z: int, distance: int },
    Rotation { start_yaw: int, target_yaw: int },
}

/// The concrete motion of the currently executing command.  A translation
/// freezes its direction and starting position when contextualized; a
/// rotation freezes its starting yaw and exact target yaw.
#[derive(Clone, Copy, Debug, PartialEq, Eq, Structural)]
pub enum Motion {
    Translation { start_x: i64, start_z: i64, dir_x: i32, dir_z: i32, distance: i64 },
    Rotation { start_yaw: i32, target_yaw: i32 },
}

impl View for Motion {
    type V = MotionV;

    open spec fn view(&self) -> MotionV {
        match *self {
            Motion::Translation { start_x, start_z, dir_x, dir_z, distance } => {
                MotionV::Translation {
                    start_x: start_x as int,
                    start_z: start_z as int,
                    dir_x: dir_x as int,
                    dir_z: dir_z as int,
                    distance: distance as int,
                }
            },
            Motion::Rotation { start_yaw, target_yaw } => {
                MotionV::Rotation { start_yaw: start_yaw as int, target_yaw: target_yaw as int }
            },
        }
    }
}

/// Mathematical model of the active movement and its progress timer.
pub struct ActiveV {
    pub motion: MotionV,
    pub elapsed: int,
    pub duration: int,
}

/// The currently executing command together with its progress timer.
#[derive(Clone, Copy, Debug, PartialEq, Eq, Structural)]
pub struct ActiveMovement {
    pub motion: Motion,
    pub elapsed_ms: u64,
    pub duration_ms: u64,
}

impl View for ActiveMovement {
    type V = ActiveV;

    open spec fn view(&self) -> ActiveV {
        ActiveV { motion: self.motion@, elapsed: self.elapsed_ms as int, duration: self.duration_ms as int }
    }
}

/// A grid-axis unit direction.
pub open spec fn unit_dir(dx: int, dz: int) -> bool {
    ||| dx == 0 && (dz == 1 || dz == -1)
    ||| dz == 0 && (dx == 1 || dx == -1)
}

pub open spec fn wf_motion(m: MotionV) -> bool {
    match m {
        MotionV::Translation { start_x, start_z, dir_x, dir_z, distance } => {
            unit_dir(dir_x, dir_z) && 1 <= distance <= MAX_STEP_DISTANCE
        },
        MotionV::Rotation { start_yaw, target_yaw } => {
            yaw_in_range(start_yaw) && yaw_in_range(target_yaw)
        },
    }
}

/// At rest between ticks an active movement has strictly positive time left;
/// the executor retires it the moment its timer fills.
pub open spec fn wf_active(a: ActiveV) -> bool {
    &&& wf_motion(a.motion)
    &&& 0 <= a.elapsed < a.duration
    &&& a.duration <= MAX_DURATION_MS
}

/// Machine bound on a translation's captured start, required for the
/// executor's position arithmetic.
pub open spec fn motion_in_world(m: MotionV) -> bool {
    match m {
        MotionV::Translation { start_x, start_z, dir_x, dir_z, distance } => {
            &&& -WORLD_LIMIT <= start_x <= WORLD_LIMIT
            &&& -WORLD_LIMIT <= start_z <= WORLD_LIMIT
        },
        MotionV::Rotation { .. } => true,
    }
}

/// Mathematical model of the whole aggregate.
pub struct StateV {
    pub queue: Seq<ExplorationMovements>,
    pub active: Option<ActiveV>,
    pub cooldown: Option<TimerV>,
    pub alignment: AlignmentState,
}

/// The movement aggregate, owned for the lifetime of the exploration mode.
/// Insertion order of `command_queue` is execution order.
pub struct ExplorationMovementState {
    pub command_queue: VecDeque<ExplorationMovements>,
    pub in_progress: Option<ActiveMovement>,
    pub between_inputs: Option<MovementTimer>,
    pub alignment: AlignmentState,
}

impl View for ExplorationMovementState {
    type V = StateV;

    open spec fn view(&self) -> StateV {
        StateV {
            queue: self.command_queue@,
            active: match self.in_progress {
                Some(a) => Some(a@),
                None => None,
            },
            cooldown: match self.between_inputs {
                Some(t) => Some(t@),
                None => None,
            },
            alignment: self.alignment,
        }
    }
}

pub open spec fn wf_state(s: StateV) -> bool {
    &&& match s.active {
        Some(a) => wf_active(a),
        None => true,
    }
    &&& match s.cooldown {
        Some(t) => wf_timer(t),
        None => true,
    }
}

/// Machine bound on the aggregate, required for the executor's position
/// arithmetic.
pub open spec fn state_in_world(s: StateV) -> bool {
    match s.active {
        Some(a) => motion_in_world(a.motion),
        None => true,
    }
}

/// The aggregate as created on entering the exploration mode.
pub open spec fn initial_state_view() -> StateV {
    StateV {
        queue: Seq::empty(),
        active: None,
        cooldown: None,
        alignment: AlignmentState::Unaligned,
    }
}

/// How many commands the aggregate still owes work for: queued intents plus
/// the active movement.
pub open spec fn load(s: StateV) -> int {
    s.queue.len() + if s.active is Some {
        1int
    } else {
        0int
    }
}

impl ExplorationMovementState {
    /// An empty aggregate: nothing queued, nothing running, grid alignment
    /// not yet injected.
    pub fn new() -> (s: ExplorationMovementState)
        ensures
            s@ == initial_state_view(),
    {
        let s = ExplorationMovementState {
            command_queue: VecDeque::new(),
            in_progress: None,
            between_inputs: None,
            alignment: AlignmentState::Unaligned,
        };
        proof {
            assert(s@.queue =~= initial_state_view().queue);
        }
        s
    }
}

/// What the orientation gate does to the aggregate: before the first-ever
/// intent it injects an alignment command that snaps to the cardinal
/// direction nearest the avatar's current yaw, marking the grid aligned at
/// injection time; then it pushes the intent to the back of the queue.
pub open spec fn spec_enqueue(s: StateV, intent: ExplorationMovements, pose: PoseV) -> StateV {
    if !grid_aligned(s.alignment) {
        let d = nearest_cardinal_spec(pose.yaw);
        StateV {
            queue: s.queue.push(face_intent_of(d)).push(intent),
            alignment: AlignmentState::AligningTo(d),
            ..s
        }
    } else {
        StateV { queue: s.queue.push(intent), ..s }
    }
}

/// Enqueues a movement intent behind the orientation gate.  Never blocks and
/// never fails; it mutates only the queue and the alignment flag.
pub fn enqueue_movement(
    movement: ExplorationMovements,
    movement_data: &mut ExplorationMovementState,
    pose: &Pose,
)
    requires
        wf_pose(pose@),
    ensures
        final(movement_data)@ == spec_enqueue(old(movement_data)@, movement, pose@),
{
    if let AlignmentState::Unaligned = movement_data.alignment {
        let d = nearest_cardinal(pose.yaw_degrees);
        movement_data.command_queue.push_back(face_intent(d));
        movement_data.alignment = AlignmentState::AligningTo(d);
    }
    movement_data.command_queue.push_back(movement);
}

/// What cancellation does: the queue empties and the active movement is
/// discarded mid-interpolation; the cooldown, the alignment flag and the
/// logical facing are untouched, and the pose stays wherever the cancelled
/// motion left it.
pub open spec fn spec_clear(s: StateV) -> StateV {
    StateV { queue: Seq::empty(), active: None, ..s }
}

/// Cancels all movement, queued and in flight.
pub fn clear_movement_queue(movement_data: &mut ExplorationMovementState)
    ensures
        final(movement_data)@ == spec_clear(old(movement_data)@),
{
    movement_data.in_progress = None;
    movement_data.command_queue.clear();
    proof {
        assert(movement_data@.queue =~= spec_clear(old(movement_data)@).queue);
    }
}

} // verus!
