//! Movement intents: abstract, unresolved requests for one discrete move or
//! turn, owned by the command queue until the executor consumes them.

use vstd::prelude::*;

use crate::cardinal::CardinalDirection;

verus! {

/// A queued movement intent.  The `Face*` variants are never produced by
/// input; the orientation gate injects them to snap the avatar to the grid
/// before its first real movement.
#[derive(Clone, Copy, Debug, PartialEq, Eq, Structural)]
pub enum ExplorationMovements {
    WalkForward,
    WalkBackward,
    StrafeRight,
    StrafeLeft,
    TurnClockwise,
    TurnCounterclockwise,
    FaceNorth,
    FaceEast,
    FaceSouth,
    FaceWest,
}

/// The alignment intent that snaps the avatar to the given heading.
pub open spec fn face_intent_of(d: CardinalDirection) -> ExplorationMovements {
    match d {
        CardinalDirection::North => ExplorationMovements::FaceNorth,
        CardinalDirection::East => ExplorationMovements::FaceEast,
        CardinalDirection::South => ExplorationMovements::FaceSouth,
        CardinalDirection::West => ExplorationMovements::FaceWest,
    }
}

pub fn face_intent(d: CardinalDirection) -> (m: ExplorationMovements)
    ensures
        m == face_intent_of(d),
{
    match d {
        CardinalDirection::North => ExplorationMovements::FaceNorth,
        CardinalDirection::East => ExplorationMovements::FaceEast,
        CardinalDirection::South => ExplorationMovements::FaceSouth,
        CardinalDirection::West => ExplorationMovements::FaceWest,
    }
}

} // verus!
