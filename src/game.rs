use vstd::prelude::*;

verus! {

/// Shape of a tetrimino, also the content of a playfield cell.
///
/// `NONE` stands for an empty cell, or for no piece at all.
#[derive(Clone, Copy, Debug, PartialEq, Eq, Structural)]
pub enum TetriminoType {
    NONE,
    O,
    I,
    T,
    L,
    J,
    S,
    Z,
}

impl Default for TetriminoType {
    fn default() -> (r: TetriminoType)
        ensures
            r == TetriminoType::NONE,
    {
        TetriminoType::NONE
    }
}

/// Orientation of a tetrimino, in the clockwise order
/// `NORTH`, `EAST`, `SOUTH`, `WEST`, and back to `NORTH`.
#[derive(Clone, Copy, Debug, PartialEq, Eq, Structural)]
pub enum TetriminoFacing {
    NORTH,
    EAST,
    SOUTH,
    WEST,
}

impl TetriminoFacing {
    /// Position of the facing in the clockwise cycle, starting from `NORTH`.
    pub open spec fn step(self) -> int {
        match self {
            TetriminoFacing::NORTH => 0,
            TetriminoFacing::EAST => 1,
            TetriminoFacing::SOUTH => 2,
            TetriminoFacing::WEST => 3,
        }
    }

    /// The facing at position `k` (taken modulo 4) of the clockwise cycle.
    pub open spec fn at_step(k: int) -> TetriminoFacing {
        let m = k % 4;
        if m == 0 {
            TetriminoFacing::NORTH
        } else if m == 1 {
            TetriminoFacing::EAST
        } else if m == 2 {
            TetriminoFacing::SOUTH
        } else {
            TetriminoFacing::WEST
        }
    }

    pub open spec fn spec_rotate_cw(self) -> TetriminoFacing {
        Self::at_step(self.step() + 1)
    }

    pub open spec fn spec_rotate_ccw(self) -> TetriminoFacing {
        Self::at_step(self.step() + 3)
    }

    /// The facing one quarter turn clockwise from this one.
    pub fn rotate_cw(self) -> (r: TetriminoFacing)
        ensures
            r == self.spec_rotate_cw(),
            r.step() == (self.step() + 1) % 4,
    {
        match self {
            TetriminoFacing::NORTH => TetriminoFacing::EAST,
            TetriminoFacing::EAST => TetriminoFacing::SOUTH,
            TetriminoFacing::SOUTH => TetriminoFacing::WEST,
            TetriminoFacing::WEST => TetriminoFacing::NORTH,
        }
    }

    /// The facing one quarter turn counter-clockwise from this one.
    pub fn rotate_ccw(self) -> (r: TetriminoFacing)
        ensures
            r == self.spec_rotate_ccw(),
            r.step() == (self.step() + 3) % 4,
    {
        match self {
            TetriminoFacing::NORTH => TetriminoFacing::WEST,
            TetriminoFacing::EAST => TetriminoFacing::NORTH,
            TetriminoFacing::SOUTH => TetriminoFacing::EAST,
            TetriminoFacing::WEST => TetriminoFacing::SOUTH,
        }
    }
}

/// Four clockwise quarter turns bring a facing back to where it started.
pub proof fn lemma_four_cw_turns_are_identity(f: TetriminoFacing)
    ensures
        f.spec_rotate_cw().spec_rotate_cw().spec_rotate_cw().spec_rotate_cw() == f,
{
}

/// A clockwise turn followed by a counter-clockwise turn changes nothing,
/// and so does the reverse order.
pub proof fn lemma_cw_ccw_cancel(f: TetriminoFacing)
    ensures
        f.spec_rotate_cw().spec_rotate_ccw() == f,
        f.spec_rotate_ccw().spec_rotate_cw() == f,
{
}

} // verus!
