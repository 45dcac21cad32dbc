//! The items that lie on the board, and the map from cells to items.

use std::collections::HashMap;
use vstd::prelude::*;
use crate::direction::Pos;
use crate::render::{Draw, Tint};

verus! {

/// Glyphs of the four items.
pub const GLYPH_GROWTH: char = '\u{1F34F}';
pub const GLYPH_DEATH: char = '\u{1F480}';
pub const GLYPH_SPEED: char = '\u{1F352}';
pub const GLYPH_SLOW: char = '\u{1F34D}';

/// An item that the snake can eat.
#[derive(Copy, Clone, Debug, PartialEq, Eq, Structural)]
pub enum Fruit {
    /// Lengthens the snake by one segment and scores.
    Growth,
    /// Ends the session.
    Death,
    /// Shortens the delay between ticks.
    Speed,
    /// Lengthens the delay between ticks.
    Slow,
}

impl Fruit {
    pub open spec fn mark(self) -> char {
        match self {
            Fruit::Growth => GLYPH_GROWTH,
            Fruit::Death => GLYPH_DEATH,
            Fruit::Speed => GLYPH_SPEED,
            Fruit::Slow => GLYPH_SLOW,
        }
    }

    pub open spec fn shade(self) -> Tint {
        match self {
            Fruit::Growth => Tint::Green,
            Fruit::Death => Tint::Red,
            Fruit::Speed => Tint::LightRed,
            Fruit::Slow => Tint::Blue,
        }
    }

    /// The item chosen by a roll of a ten-sided die: one face each for
    /// `Death`, `Speed` and `Slow`, every other face for `Growth`.
    pub open spec fn of_roll(roll: u128) -> Fruit {
        if roll == 0 {
            Fruit::Death
        } else if roll == 1 {
            Fruit::Speed
        } else if roll == 2 {
            Fruit::Slow
        } else {
            Fruit::Growth
        }
    }

    /// The draw that shows this item at `pos`.
    pub open spec fn shown_at(self, pos: Pos) -> Draw {
        Draw { pos, glyph: self.mark(), tint: self.shade() }
    }

    pub fn glyph(self) -> (glyph: char)
        ensures
            glyph == self.mark(),
    {
        match self {
            Fruit::Growth => GLYPH_GROWTH,
            Fruit::Death => GLYPH_DEATH,
            Fruit::Speed => GLYPH_SPEED,
            Fruit::Slow => GLYPH_SLOW,
        }
    }

    pub fn tint(self) -> (tint: Tint)
        ensures
            tint == self.shade(),
    {
        match self {
            Fruit::Growth => Tint::Green,
            Fruit::Death => Tint::Red,
            Fruit::Speed => Tint::LightRed,
            Fruit::Slow => Tint::Blue,
        }
    }

    pub fn from_roll(roll: u128) -> (fruit: Fruit)
        ensures
            fruit == Fruit::of_roll(roll),
    {
        if roll == 0 {
            Fruit::Death
        } else if roll == 1 {
            Fruit::Speed
        } else if roll == 2 {
            Fruit::Slow
        } else {
            Fruit::Growth
        }
    }

    pub fn draw_at(self, pos: Pos) -> (draw: Draw)
        ensures
            draw == self.shown_at(pos),
    {
        Draw { pos, glyph: self.glyph(), tint: self.tint() }
    }
}

/// The number under which a cell is filed in the hash map: the two
/// coordinates, each shifted to be non-negative, side by side.
pub closed spec fn cell_key(p: Pos) -> u64 {
    ((p.0 + 0x8000_0000) * 0x1_0000_0000 + (p.1 + 0x8000_0000)) as u64
}

/// The cell that is filed under `k`.
closed spec fn cell_of(k: u64) -> Pos {
    ((k / 0x1_0000_0000 - 0x8000_0000) as i32, (k % 0x1_0000_0000 - 0x8000_0000) as i32)
}

/// A cell is found again under its key.
proof fn lemma_cell_of_key(p: Pos)
    ensures
        cell_of(cell_key(p)) == p,
{
}

/// Every key is the key of the cell filed under it.
proof fn lemma_key_of_cell(k: u64)
    ensures
        cell_key(cell_of(k)) == k,
{
}

fn key_of(p: Pos) -> (k: u64)
    ensures
        k == cell_key(p),
{
    let x: u64 = (p.0 as i64 + 0x8000_0000) as u64;
    let y: u64 = (p.1 as i64 + 0x8000_0000) as u64;
    x * 0x1_0000_0000 + y
}

/// The items on the board: at most one to a cell.
pub struct Fruits {
    cells: HashMap<u64, Fruit>,
}

impl View for Fruits {
    type V = Map<Pos, Fruit>;

    closed spec fn view(&self) -> Map<Pos, Fruit> {
        Map::new(
            |p: Pos| self.cells@.contains_key(cell_key(p)),
            |p: Pos| self.cells@[cell_key(p)],
        )
    }
}

impl Fruits {
    pub fn new() -> (fruits: Fruits)
        ensures
            fruits@ == Map::<Pos, Fruit>::empty(),
    {
        let fruits = Fruits { cells: HashMap::new() };
        proof {
            assert(fruits@ =~= Map::<Pos, Fruit>::empty());
        }
        fruits
    }

    /// The board holds finitely many items.
    pub proof fn lemma_finite(&self)
        ensures
            self@.dom().finite(),
    {
        self.lemma_count();
    }

    /// The board holds as many items as the hash map has entries.
    proof fn lemma_count(&self)
        ensures
            self@.dom().finite(),
            self@.len() == self.cells@.len(),
    {
        let keys = self.cells@.dom();
        let unfile = |k: u64| cell_of(k);
        assert forall|j: u64, k: u64| #[trigger] unfile(j) == #[trigger] unfile(k) implies j
            == k by {
            lemma_key_of_cell(j);
            lemma_key_of_cell(k);
        }
        assert forall|p: Pos| self@.dom().contains(p) <==> keys.map(unfile).contains(p) by {
            lemma_cell_of_key(p);
            if self@.dom().contains(p) {
                assert(keys.contains(cell_key(p)) && unfile(cell_key(p)) == p);
            }
            if keys.map(unfile).contains(p) {
                let k = choose|k: u64| keys.contains(k) && unfile(k) == p;
                lemma_key_of_cell(k);
            }
        }
        assert(keys.map(unfile) =~= self@.dom());
        vstd::set_lib::lemma_map_size(keys, self@.dom(), unfile);
    }

    /// The number of items on the board.
    pub fn len(&self) -> (n: usize)
        ensures
            n == self@.len(),
    {
        proof {
            self.lemma_count();
        }
        self.cells.len()
    }

    /// The item at `pos`, if there is one. The item stays where it is.
    pub fn get(&self, pos: Pos) -> (found: Option<Fruit>)
        ensures
            found == (if self@.contains_key(pos) {
                Some(self@[pos])
            } else {
                None
            }),
    {
        let key: u64 = key_of(pos);
        match self.cells.get(&key) {
            Some(fruit) => Some(*fruit),
            None => None,
        }
    }

    /// Puts `fruit` at `pos`, over whatever lay there, and returns what lay
    /// there.
    pub fn insert(&mut self, pos: Pos, fruit: Fruit) -> (before: Option<Fruit>)
        ensures
            final(self)@ == old(self)@.insert(pos, fruit),
            before == (if old(self)@.contains_key(pos) {
                Some(old(self)@[pos])
            } else {
                None
            }),
    {
        let key: u64 = key_of(pos);
        let before: Option<Fruit> = self.cells.insert(key, fruit);
        proof {
            assert forall|q: Pos| cell_key(q) == key <==> q == pos by {
                lemma_cell_of_key(q);
                lemma_cell_of_key(pos);
            }
            assert(self@ =~= old(self)@.insert(pos, fruit));
        }
        before
    }

    /// Takes the item at `pos` off the board and returns it.
    pub fn remove(&mut self, pos: Pos) -> (taken: Option<Fruit>)
        ensures
            final(self)@ == old(self)@.remove(pos),
            taken == (if old(self)@.contains_key(pos) {
                Some(old(self)@[pos])
            } else {
                None
            }),
    {
        let key: u64 = key_of(pos);
        let taken: Option<Fruit> = self.cells.remove(&key);
        proof {
            assert forall|q: Pos| cell_key(q) == key <==> q == pos by {
                lemma_cell_of_key(q);
                lemma_cell_of_key(pos);
            }
            assert(self@ =~= old(self)@.remove(pos));
        }
        taken
    }
}

} // verus!
