//! How new items come onto the board: whether one appears, of which kind,
//! and on which cell.

use rand::rngs::ThreadRng;
use vstd::prelude::*;
use crate::direction::Pos;
use crate::items::Fruit;
use crate::random::gen_range;
use crate::snake::{occupies, Segment, Snake};

verus! {

/// Faces of the die that picks the kind of a new item.
pub const KIND_FACES: u128 = 10;

/// True if a new item may be put at `p`: the cell lies on the part of the
/// board that items fall on, which stops short of the far edges, and no
/// segment of the snake lies there.
pub open spec fn spawnable(body: Seq<Segment>, bounds: Pos, p: Pos) -> bool {
    &&& 0 <= p.0 < bounds.0
    &&& 0 <= p.1 < bounds.1
    &&& !occupies(body, p)
}

/// The number of faces of the die that decides whether an item appears on a
/// board that holds `count` items already. An item appears on one face only,
/// so the more items there are, the rarer a new one is.
pub open spec fn spawn_faces(count: nat) -> nat {
    10 * (count + 1)
}

/// The item that appears when the die that decides whether one appears shows
/// `trial`, the die that picks its kind shows `kind`, and `cell` is the free
/// cell found for it: an item appears only on the face `0` of the first die,
/// and only if there is a cell for it.
pub open spec fn spawn_given(trial: u128, kind: u128, cell: Option<Pos>) -> Option<(Pos, Fruit)> {
    match cell {
        Some(pos) if trial == 0 => Some((pos, Fruit::of_roll(kind))),
        _ => None,
    }
}

/// The number of faces of the die that decides whether an item appears.
pub fn faces_for(count: usize) -> (faces: u128)
    ensures
        faces == spawn_faces(count as nat),
        faces > 0,
{
    10 * (count as u128 + 1)
}

/// The item that appears, given what the dice showed: `trial` of the die
/// that decides whether one appears at all, which it does on the face `0`;
/// `kind` of the die that picks its kind; and the free cell found for it, if
/// one was found.
pub fn spawn_from(trial: u128, kind: u128, cell: Option<Pos>) -> (spawn: Option<(Pos, Fruit)>)
    ensures
        spawn == spawn_given(trial, kind, cell),
{
    if trial != 0 {
        return None;
    }
    match cell {
        Some(pos) => Some((pos, Fruit::from_roll(kind))),
        None => None,
    }
}

impl Snake {
    /// Draws cells from the part of the board that items fall on until one
    /// is free of the snake, and returns it; gives up after `max_draws`
    /// cells.
    pub fn free_cell(&self, rng: &mut ThreadRng, bounds: Pos, max_draws: u64) -> (cell: Option<Pos>)
        requires
            bounds.0 > 0,
            bounds.1 > 0,
        ensures
            cell matches Some(p) ==> spawnable(self@, bounds, p),
            max_draws == 0 ==> cell is None,
            max_draws > 0 && (forall|p: Pos| 0 <= p.0 < bounds.0 && 0 <= p.1 < bounds.1
                ==> !occupies(self@, p)) ==> cell is Some,
    {
        let mut drawn: u64 = 0;
        while drawn < max_draws
            invariant
                bounds.0 > 0,
                bounds.1 > 0,
                drawn <= max_draws,
                drawn > 0 ==> exists|p: Pos|
                    0 <= p.0 < bounds.0 && 0 <= p.1 < bounds.1 && occupies(self@, p),
            decreases max_draws - drawn,
        {
            let x: i32 = gen_range(rng, 0, bounds.0 as u128) as i32;
            let y: i32 = gen_range(rng, 0, bounds.1 as u128) as i32;
            if !self.contains((x, y)) {
                return Some((x, y));
            }
            drawn += 1;
        }
        None
    }
}

} // verus!
