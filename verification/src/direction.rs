//! The two ways a walker can face.

use vstd::prelude::*;

verus! {

/// The horizontal direction in which a walker moves.
#[derive(Clone, Copy, Debug, PartialEq, Eq, Structural)]
pub enum Direction {
    Left,
    Right,
}

impl Direction {
    /// The opposite direction.
    pub open spec fn spec_reversed(self) -> Direction {
        match self {
            Direction::Left => Direction::Right,
            Direction::Right => Direction::Left,
        }
    }

    /// The sign of a horizontal movement in this direction: -1 to the left,
    /// 1 to the right.
    pub open spec fn spec_sign(self) -> int {
        match self {
            Direction::Left => -1,
            Direction::Right => 1,
        }
    }

    /// Turns around.
    #[verifier::when_used_as_spec(spec_reversed)]
    pub fn reversed(self) -> (r: Direction)
        ensures
            r == self.spec_reversed(),
    {
        match self {
            Direction::Left => Direction::Right,
            Direction::Right => Direction::Left,
        }
    }

    /// The sign of a horizontal movement in this direction.
    pub fn sign(self) -> (s: i64)
        ensures
            s == self.spec_sign(),
    {
        match self {
            Direction::Left => -1,
            Direction::Right => 1,
        }
    }
}

/// Turning around twice gives the direction one started with.
pub proof fn lemma_reversed_twice(d: Direction)
    ensures
        d.spec_reversed().spec_reversed() == d,
{
}

} // verus!
