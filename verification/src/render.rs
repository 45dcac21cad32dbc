//! What a front end has to draw: single glyphs at grid cells, each with a
//! colour class. The library decides which cells change and to what; how a
//! glyph reaches the screen is the caller's business.

use vstd::prelude::*;
use crate::direction::{Dir, Pos};

verus! {

/// Box-drawing glyphs of the snake's body.
pub const BAR_VERTICAL: char = '\u{2502}';
pub const BAR_HORIZONTAL: char = '\u{2500}';
pub const ARC_UP_LEFT: char = '\u{256F}';
pub const ARC_UP_RIGHT: char = '\u{2570}';
pub const ARC_DOWN_LEFT: char = '\u{256E}';
pub const ARC_DOWN_RIGHT: char = '\u{256D}';

/// What is written over a cell that the tail has left.
pub const BLANK: char = ' ';

/// Colour class of a glyph.
#[derive(Copy, Clone, Debug, PartialEq, Eq, Structural)]
pub enum Tint {
    /// The terminal's current colour.
    Plain,
    White,
    Green,
    Red,
    LightRed,
    Blue,
}

/// One glyph to be placed at one cell.
#[derive(Copy, Clone, Debug, PartialEq, Eq)]
pub struct Draw {
    pub pos: Pos,
    pub glyph: char,
    pub tint: Tint,
}

/// The glyph that joins two sides of a cell. `a` and `b` name the sides the
/// line leaves the cell by; the order of the two does not matter.
pub open spec fn joining(a: Dir, b: Dir) -> char {
    if a.vertical() && b.vertical() {
        BAR_VERTICAL
    } else if !a.vertical() && !b.vertical() {
        BAR_HORIZONTAL
    } else {
        let up = a == Dir::N || b == Dir::N;
        let left = a == Dir::W || b == Dir::W;
        if up && left {
            ARC_UP_LEFT
        } else if up {
            ARC_UP_RIGHT
        } else if left {
            ARC_DOWN_LEFT
        } else {
            ARC_DOWN_RIGHT
        }
    }
}

/// The glyph for the cell of a segment that faces `older`, once a segment
/// facing `newer` has been put in front of it: the snake came into the cell
/// from behind, against `older`, and leaves it towards `newer`.
pub open spec fn joint(newer: Dir, older: Dir) -> char {
    joining(older.reverse(), newer)
}

/// The glyph of a head that faces `dir`.
pub open spec fn head_mark(dir: Dir) -> char {
    if dir.vertical() {
        BAR_VERTICAL
    } else {
        BAR_HORIZONTAL
    }
}

/// The draw that blanks the cell `pos`.
pub open spec fn erasure(pos: Pos) -> Draw {
    Draw { pos, glyph: BLANK, tint: Tint::Plain }
}

/// The draw that puts a piece of the snake, `glyph`, at `pos`.
pub open spec fn body_mark(pos: Pos, glyph: char) -> Draw {
    Draw { pos, glyph, tint: Tint::White }
}

/// Connector glyph for the joint between a new head facing `newer` and the
/// segment behind it, which faces `older`. The head never faces against the
/// segment behind it, so that pair has no glyph.
pub fn connector(newer: Dir, older: Dir) -> (glyph: char)
    requires
        newer != older.reverse(),
    ensures
        glyph == joint(newer, older),
{
    match (newer, older) {
        (Dir::N, Dir::E) | (Dir::W, Dir::S) => ARC_UP_LEFT,
        (Dir::N, Dir::W) | (Dir::E, Dir::S) => ARC_UP_RIGHT,
        (Dir::S, Dir::E) | (Dir::W, Dir::N) => ARC_DOWN_LEFT,
        (Dir::S, Dir::W) | (Dir::E, Dir::N) => ARC_DOWN_RIGHT,
        (Dir::W, _) | (Dir::E, _) => BAR_HORIZONTAL,
        (Dir::N, _) | (Dir::S, _) => BAR_VERTICAL,
    }
}

/// Glyph of a head that faces `dir`.
pub fn head_glyph(dir: Dir) -> (glyph: char)
    ensures
        glyph == head_mark(dir),
{
    if dir.is_vertical() {
        BAR_VERTICAL
    } else {
        BAR_HORIZONTAL
    }
}

/// A joint between two segments that face the same way is a straight bar, and
/// a joint between two that face across each other is an arc.
pub proof fn lemma_joint_shape(newer: Dir, older: Dir)
    requires
        newer != older.reverse(),
    ensures
        newer == older ==> joint(newer, older) == head_mark(newer),
        newer != older ==> joint(newer, older) != BAR_VERTICAL && joint(newer, older)
            != BAR_HORIZONTAL,
        joint(newer, older) == joint(older.reverse(), newer.reverse()),
{
}

} // verus!
