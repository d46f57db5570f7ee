//! Absolute and relative headings, and the turns between them.

use vstd::prelude::*;

verus! {

/// Absolute compass heading on the map.
#[derive(Debug, Clone, Copy, PartialEq, Eq, Structural)]
pub enum CardinalDirection {
    North,
    East,
    South,
    West,
}

/// Heading relative to the way the player faces.
#[derive(Debug, Clone, Copy, PartialEq, Eq, Structural)]
pub enum RelativeDirection {
    Front,
    Right,
    Back,
    Left,
}

/// Compass heading used for movement vectors in `(x, y)` screen coordinates.
#[derive(Debug, Clone, Copy, PartialEq, Eq, Structural)]
pub enum Orientation {
    North,
    East,
    South,
    West,
}

/// Clockwise quarter turns from North: North 0, East 1, South 2, West 3.
pub open spec fn cardinal_index(d: CardinalDirection) -> int {
    match d {
        CardinalDirection::North => 0,
        CardinalDirection::East => 1,
        CardinalDirection::South => 2,
        CardinalDirection::West => 3,
    }
}

/// The heading that is `k` clockwise quarter turns from North (`k` in 0..4).
pub open spec fn cardinal_of_index(k: int) -> CardinalDirection {
    if k == 0 {
        CardinalDirection::North
    } else if k == 1 {
        CardinalDirection::East
    } else if k == 2 {
        CardinalDirection::South
    } else {
        CardinalDirection::West
    }
}

/// Clockwise quarter turns from Front: Front 0, Right 1, Back 2, Left 3.
pub open spec fn relative_index(r: RelativeDirection) -> int {
    match r {
        RelativeDirection::Front => 0,
        RelativeDirection::Right => 1,
        RelativeDirection::Back => 2,
        RelativeDirection::Left => 3,
    }
}

/// Row offset of one step on the map grid (rows grow southwards).
pub open spec fn row_step(d: CardinalDirection) -> int {
    match d {
        CardinalDirection::North => -1,
        CardinalDirection::South => 1,
        _ => 0,
    }
}

/// Column offset of one step on the map grid (columns grow eastwards).
pub open spec fn col_step(d: CardinalDirection) -> int {
    match d {
        CardinalDirection::East => 1,
        CardinalDirection::West => -1,
        _ => 0,
    }
}

/// The relative direction that turns a player facing `facing` towards `target`.
pub open spec fn relative_between(facing: CardinalDirection, target: CardinalDirection) -> RelativeDirection {
    let k = (cardinal_index(target) - cardinal_index(facing) + 4) % 4;
    if k == 0 {
        RelativeDirection::Front
    } else if k == 1 {
        RelativeDirection::Right
    } else if k == 2 {
        RelativeDirection::Back
    } else {
        RelativeDirection::Left
    }
}

/// Converts an absolute target heading into the move to send for a player
/// facing `player_orientation`: same heading is Front, a quarter turn
/// clockwise is Right, counter-clockwise is Left, the opposite is Back.
pub fn absolute_to_relative_direction(
    player_orientation: &CardinalDirection,
    target_direction: &CardinalDirection,
) -> (r: RelativeDirection)
    ensures
        r == relative_between(*player_orientation, *target_direction),
{
    match (player_orientation, target_direction) {
        (CardinalDirection::North, CardinalDirection::North)
        | (CardinalDirection::East, CardinalDirection::East)
        | (CardinalDirection::South, CardinalDirection::South)
        | (CardinalDirection::West, CardinalDirection::West) => RelativeDirection::Front,
        (CardinalDirection::North, CardinalDirection::East)
        | (CardinalDirection::East, CardinalDirection::South)
        | (CardinalDirection::South, CardinalDirection::West)
        | (CardinalDirection::West, CardinalDirection::North) => RelativeDirection::Right,
        (CardinalDirection::North, CardinalDirection::West)
        | (CardinalDirection::West, CardinalDirection::South)
        | (CardinalDirection::South, CardinalDirection::East)
        | (CardinalDirection::East, CardinalDirection::North) => RelativeDirection::Left,
        (CardinalDirection::North, CardinalDirection::South)
        | (CardinalDirection::South, CardinalDirection::North)
        | (CardinalDirection::East, CardinalDirection::West)
        | (CardinalDirection::West, CardinalDirection::East) => RelativeDirection::Back,
    }
}

/// Clockwise quarter turns from North for an orientation.
pub open spec fn orientation_index(o: Orientation) -> int {
    match o {
        Orientation::North => 0,
        Orientation::East => 1,
        Orientation::South => 2,
        Orientation::West => 3,
    }
}

/// The orientation `k` clockwise quarter turns from North (`k` in 0..4).
pub open spec fn orientation_of_index(k: int) -> Orientation {
    if k == 0 {
        Orientation::North
    } else if k == 1 {
        Orientation::East
    } else if k == 2 {
        Orientation::South
    } else {
        Orientation::West
    }
}

/// The orientation reached from `o` after `k` clockwise quarter turns.
pub open spec fn turned(o: Orientation, k: int) -> Orientation {
    orientation_of_index((orientation_index(o) + k) % 4)
}

/// Unit step `(dx, dy)` straight ahead for an orientation; `y` grows southwards.
pub open spec fn forward_vector(o: Orientation) -> (int, int) {
    match o {
        Orientation::North => (0, -1),
        Orientation::East => (1, 0),
        Orientation::South => (0, 1),
        Orientation::West => (-1, 0),
    }
}

impl Orientation {
    /// A quarter turn clockwise.
    pub fn turn_right(self) -> (r: Self)
        ensures
            r == turned(self, 1),
    {
        match self {
            Orientation::North => Orientation::East,
            Orientation::East => Orientation::South,
            Orientation::South => Orientation::West,
            Orientation::West => Orientation::North,
        }
    }

    /// A quarter turn counter-clockwise.
    pub fn turn_left(self) -> (r: Self)
        ensures
            r == turned(self, 3),
    {
        match self {
            Orientation::North => Orientation::West,
            Orientation::West => Orientation::South,
            Orientation::South => Orientation::East,
            Orientation::East => Orientation::North,
        }
    }

    /// A half turn.
    pub fn turn_back(self) -> (r: Self)
        ensures
            r == turned(self, 2),
    {
        match self {
            Orientation::North => Orientation::South,
            Orientation::South => Orientation::North,
            Orientation::East => Orientation::West,
            Orientation::West => Orientation::East,
        }
    }

    /// The unit step taken when moving in relative direction `dir` while
    /// facing `self`: the forward step of the orientation turned by `dir`.
    pub fn to_movement(self, dir: RelativeDirection) -> (r: (isize, isize))
        ensures
            (r.0 as int, r.1 as int) == forward_vector(turned(self, relative_index(dir))),
    {
        match (self, dir) {
            (Orientation::North, RelativeDirection::Front) => (0, -1),
            (Orientation::North, RelativeDirection::Right) => (1, 0),
            (Orientation::North, RelativeDirection::Back) => (0, 1),
            (Orientation::North, RelativeDirection::Left) => (-1, 0),
            (Orientation::East, RelativeDirection::Front) => (1, 0),
            (Orientation::East, RelativeDirection::Right) => (0, 1),
            (Orientation::East, RelativeDirection::Back) => (-1, 0),
            (Orientation::East, RelativeDirection::Left) => (0, -1),
            (Orientation::South, RelativeDirection::Front) => (0, 1),
            (Orientation::South, RelativeDirection::Right) => (-1, 0),
            (Orientation::South, RelativeDirection::Back) => (0, -1),
            (Orientation::South, RelativeDirection::Left) => (1, 0),
            (Orientation::West, RelativeDirection::Front) => (-1, 0),
            (Orientation::West, RelativeDirection::Right) => (0, -1),
            (Orientation::West, RelativeDirection::Back) => (1, 0),
            (Orientation::West, RelativeDirection::Left) => (0, 1),
        }
    }
}

} // verus!
