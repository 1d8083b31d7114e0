//! Cardinal direction math: yaw normalization, angular distance,
//! nearest-direction resolution and the clockwise/counterclockwise
//! transition tables.

use vstd::prelude::*;

verus! {

/// One of the four orthogonal headings that define the movement grid.
#[derive(Clone, Copy, Debug, PartialEq, Eq, Structural)]
pub enum CardinalDirection {
    North,
    East,
    South,
    West,
}

/// Fixed world yaw of each heading, in degrees.  Clockwise turns (seen from
/// above, with the vertical axis pointing up) decrease the yaw.
pub const NORTH_YAW: i32 = 0;
pub const EAST_YAW: i32 = -90;
pub const SOUTH_YAW: i32 = 180;
pub const WEST_YAW: i32 = 90;

/// World yaw of a heading, in degrees.
pub open spec fn yaw_of(d: CardinalDirection) -> int {
    match d {
        CardinalDirection::North => 0,
        CardinalDirection::East => -90,
        CardinalDirection::South => 180,
        CardinalDirection::West => 90,
    }
}

/// Yaw angles are kept in the half-open range (-180, 180].
pub open spec fn yaw_in_range(a: int) -> bool {
    -179 <= a <= 180
}

/// Termination measure for `norm_yaw`: how far an angle is from (-180, 180].
pub open spec fn norm_measure(a: int) -> int {
    if a > 180 {
        a
    } else if a <= -180 {
        1 - a
    } else {
        0
    }
}

/// An angle in degrees reduced into (-180, 180].
pub open spec fn norm_yaw(a: int) -> int
    decreases norm_measure(a),
{
    if a > 180 {
        norm_yaw(a - 360)
    } else if a <= -180 {
        norm_yaw(a + 360)
    } else {
        a
    }
}

pub proof fn lemma_norm_yaw_in_range(a: int)
    ensures
        yaw_in_range(norm_yaw(a)),
    decreases norm_measure(a),
{
    if a > 180 {
        lemma_norm_yaw_in_range(a - 360);
    } else if a <= -180 {
        lemma_norm_yaw_in_range(a + 360);
    }
}

/// Normalization moves an angle by whole turns only.
pub proof fn lemma_norm_yaw_shift(a: int)
    ensures
        norm_yaw(a + 360) == norm_yaw(a),
        norm_yaw(a - 360) == norm_yaw(a),
{
}

/// Normalizing one summand does not change the normalized sum.
pub proof fn lemma_norm_yaw_add_norm(x: int, y: int)
    ensures
        norm_yaw(x + norm_yaw(y)) == norm_yaw(x + y),
    decreases norm_measure(y),
{
    if y > 180 {
        lemma_norm_yaw_add_norm(x, y - 360);
        lemma_norm_yaw_shift(x + y - 360);
    } else if y <= -180 {
        lemma_norm_yaw_add_norm(x, y + 360);
        lemma_norm_yaw_shift(x + y);
    }
}

/// Normalizes an angle into (-180, 180].  One adjustment suffices for the
/// angles the library forms, which are sums or differences of two angles
/// already in range.
pub fn normalize_yaw(a: i32) -> (r: i32)
    requires
        -360 <= a <= 360,
    ensures
        r == norm_yaw(a as int),
        yaw_in_range(r as int),
{
    proof {
        reveal_with_fuel(norm_yaw, 2);
        lemma_norm_yaw_in_range(a as int);
    }
    if a > 180 {
        a - 360
    } else if a <= -180 {
        a + 360
    } else {
        a
    }
}

/// Magnitude of an angle.
pub open spec fn abs_angle(a: int) -> int {
    if a < 0 {
        -a
    } else {
        a
    }
}

/// Angular distance between two yaws: the magnitude of the shortest arc,
/// in [0, 180].
pub open spec fn ang_dist(a: int, b: int) -> int {
    abs_angle(norm_yaw(a - b))
}

pub fn angular_distance(a: i32, b: i32) -> (d: i32)
    requires
        yaw_in_range(a as int),
        yaw_in_range(b as int),
    ensures
        d == ang_dist(a as int, b as int),
        0 <= d <= 180,
{
    let n = normalize_yaw(a - b);
    if n < 0 {
        -n
    } else {
        n
    }
}

/// The cardinal direction whose fixed yaw is angularly closest to the given
/// yaw.  Candidates are scanned in the order North, East, South, West and a
/// later candidate replaces an earlier one only when it is strictly closer,
/// so the earlier direction wins ties.
pub open spec fn nearest_cardinal_spec(yaw: int) -> CardinalDirection {
    let dn = ang_dist(yaw, yaw_of(CardinalDirection::North));
    let de = ang_dist(yaw, yaw_of(CardinalDirection::East));
    let ds = ang_dist(yaw, yaw_of(CardinalDirection::South));
    let dw = ang_dist(yaw, yaw_of(CardinalDirection::West));
    let b1 = if de < dn {
        CardinalDirection::East
    } else {
        CardinalDirection::North
    };
    let d1 = if de < dn {
        de
    } else {
        dn
    };
    let b2 = if ds < d1 {
        CardinalDirection::South
    } else {
        b1
    };
    let d2 = if ds < d1 {
        ds
    } else {
        d1
    };
    if dw < d2 {
        CardinalDirection::West
    } else {
        b2
    }
}

pub fn nearest_cardinal(yaw: i32) -> (d: CardinalDirection)
    requires
        yaw_in_range(yaw as int),
    ensures
        d == nearest_cardinal_spec(yaw as int),
{
    let dn = angular_distance(yaw, NORTH_YAW);
    let de = angular_distance(yaw, EAST_YAW);
    let ds = angular_distance(yaw, SOUTH_YAW);
    let dw = angular_distance(yaw, WEST_YAW);
    let mut best = CardinalDirection::North;
    let mut best_d = dn;
    if de < best_d {
        best = CardinalDirection::East;
        best_d = de;
    }
    if ds < best_d {
        best = CardinalDirection::South;
        best_d = ds;
    }
    if dw < best_d {
        best = CardinalDirection::West;
        best_d = dw;
    }
    best
}

/// Transition table for a quarter turn clockwise.
pub open spec fn clockwise_of(d: CardinalDirection) -> CardinalDirection {
    match d {
        CardinalDirection::North => CardinalDirection::East,
        CardinalDirection::East => CardinalDirection::South,
        CardinalDirection::South => CardinalDirection::West,
        CardinalDirection::West => CardinalDirection::North,
    }
}

/// Transition table for a quarter turn counterclockwise.
pub open spec fn counterclockwise_of(d: CardinalDirection) -> CardinalDirection {
    match d {
        CardinalDirection::North => CardinalDirection::West,
        CardinalDirection::West => CardinalDirection::South,
        CardinalDirection::South => CardinalDirection::East,
        CardinalDirection::East => CardinalDirection::North,
    }
}

/// Destination heading and its fixed world yaw after a quarter turn
/// clockwise.
pub fn rotate_clockwise(facing: CardinalDirection) -> (r: (CardinalDirection, i32))
    ensures
        r.0 == clockwise_of(facing),
        r.1 == yaw_of(clockwise_of(facing)),
{
    match facing {
        CardinalDirection::North => (CardinalDirection::East, EAST_YAW),
        CardinalDirection::East => (CardinalDirection::South, SOUTH_YAW),
        CardinalDirection::South => (CardinalDirection::West, WEST_YAW),
        CardinalDirection::West => (CardinalDirection::North, NORTH_YAW),
    }
}

/// Destination heading and its fixed world yaw after a quarter turn
/// counterclockwise.
pub fn rotate_counterclockwise(facing: CardinalDirection) -> (r: (CardinalDirection, i32))
    ensures
        r.0 == counterclockwise_of(facing),
        r.1 == yaw_of(counterclockwise_of(facing)),
{
    match facing {
        CardinalDirection::North => (CardinalDirection::West, WEST_YAW),
        CardinalDirection::West => (CardinalDirection::South, SOUTH_YAW),
        CardinalDirection::South => (CardinalDirection::East, EAST_YAW),
        CardinalDirection::East => (CardinalDirection::North, NORTH_YAW),
    }
}

/// Four quarter turns in the same sense return to the origin, in either
/// sense.
pub proof fn lemma_quarter_turn_cycle(d: CardinalDirection)
    ensures
        clockwise_of(clockwise_of(clockwise_of(clockwise_of(d)))) == d,
        counterclockwise_of(
            counterclockwise_of(counterclockwise_of(counterclockwise_of(d))),
        ) == d,
{
}

/// Following the shortest arc from a normalized start to a normalized target
/// lands exactly on the target.
pub proof fn lemma_shortest_arc_lands(start: int, target: int)
    requires
        yaw_in_range(start),
        yaw_in_range(target),
    ensures
        norm_yaw(start + norm_yaw(target - start)) == target,
{
    lemma_norm_yaw_add_norm(start, target - start);
}

/// Horizontal component of a heading's unit forward vector.  North looks
/// along the negative z axis, East along the positive x axis.
pub open spec fn forward_x(d: CardinalDirection) -> int {
    match d {
        CardinalDirection::North => 0,
        CardinalDirection::East => 1,
        CardinalDirection::South => 0,
        CardinalDirection::West => -1,
    }
}

/// Depth component of a heading's unit forward vector.
pub open spec fn forward_z(d: CardinalDirection) -> int {
    match d {
        CardinalDirection::North => -1,
        CardinalDirection::East => 0,
        CardinalDirection::South => 1,
        CardinalDirection::West => 0,
    }
}

/// Unit forward vector of a heading, as (x, z) components.
pub fn forward_of(d: CardinalDirection) -> (v: (i32, i32))
    ensures
        v.0 == forward_x(d),
        v.1 == forward_z(d),
{
    match d {
        CardinalDirection::North => (0, -1),
        CardinalDirection::East => (1, 0),
        CardinalDirection::South => (0, 1),
        CardinalDirection::West => (-1, 0),
    }
}

} // verus!
