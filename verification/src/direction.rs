//! Compass directions, grid positions and the rule against reversing.

use vstd::prelude::*;

verus! {

/// A cell of the grid: `(x, y)`, counted from zero.
pub type Pos = (i32, i32);

/// One of the four ways a segment can face.
#[derive(Copy, Clone, Debug, PartialEq, Eq, Structural)]
pub enum Dir {
    N,
    S,
    E,
    W,
}

impl Dir {
    /// The direction that points the other way.
    pub open spec fn reverse(self) -> Dir {
        match self {
            Dir::N => Dir::S,
            Dir::S => Dir::N,
            Dir::E => Dir::W,
            Dir::W => Dir::E,
        }
    }

    /// The direction actually taken by a snake that faces `self` when `wanted`
    /// is asked for: a request to reverse is ignored, any other is honoured.
    pub open spec fn turned(self, wanted: Dir) -> Dir {
        if wanted == self.reverse() {
            self
        } else {
            wanted
        }
    }

    /// Change of `x` made by one move in this direction.
    pub open spec fn dx(self) -> int {
        match self {
            Dir::E => 1,
            Dir::W => -1,
            _ => 0,
        }
    }

    /// Change of `y` made by one move in this direction. North is up the
    /// screen, towards smaller `y`.
    pub open spec fn dy(self) -> int {
        match self {
            Dir::S => 1,
            Dir::N => -1,
            _ => 0,
        }
    }

    /// True if a move in this direction goes up or down.
    pub open spec fn vertical(self) -> bool {
        self == Dir::N || self == Dir::S
    }

    pub fn opposite(self) -> (r: Dir)
        ensures
            r == self.reverse(),
    {
        match self {
            Dir::N => Dir::S,
            Dir::S => Dir::N,
            Dir::E => Dir::W,
            Dir::W => Dir::E,
        }
    }

    /// Turn suppression: the direction to move in when `wanted` is requested
    /// while facing `self`.
    pub fn turn(self, wanted: Dir) -> (r: Dir)
        ensures
            r == self.turned(wanted),
            r != self.reverse(),
            wanted != self.reverse() ==> r == wanted,
            wanted == self.reverse() ==> r == self,
    {
        match (self, wanted) {
            (Dir::N, Dir::S) => Dir::N,
            (Dir::S, Dir::N) => Dir::S,
            (Dir::W, Dir::E) => Dir::W,
            (Dir::E, Dir::W) => Dir::E,
            _ => wanted,
        }
    }

    pub fn is_vertical(self) -> (r: bool)
        ensures
            r == self.vertical(),
    {
        match self {
            Dir::N | Dir::S => true,
            Dir::E | Dir::W => false,
        }
    }
}

/// The cell one move away from `pos` in direction `dir`, as unbounded
/// integers: it may lie off the grid.
pub open spec fn moved(pos: Pos, dir: Dir) -> (int, int) {
    (pos.0 + dir.dx(), pos.1 + dir.dy())
}

/// True if `p` lies on a board whose far corner is `bounds`; both edges count.
pub open spec fn on_board(p: (int, int), bounds: Pos) -> bool {
    0 <= p.0 <= bounds.0 && 0 <= p.1 <= bounds.1
}

/// Asking a snake to reverse moves it exactly as asking it to go on does.
pub proof fn lemma_reversal_suppressed(facing: Dir)
    ensures
        facing.turned(facing.reverse()) == facing.turned(facing),
        facing.turned(facing) == facing,
{
}

} // verus!
