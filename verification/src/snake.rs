//! The snake: an ordered body of segments, head first, and the rules by
//! which it moves, grows and dies.

use vstd::prelude::*;
use crate::direction::{moved, on_board, Dir, Pos};
use crate::items::{Fruit, Fruits};
use crate::render::{
    body_mark, connector, erasure, head_glyph, head_mark, joint, Draw, Tint, BLANK,
};

verus! {

/// How a session ends.
#[derive(Copy, Clone, Debug, PartialEq, Eq, Structural)]
pub enum Ending {
    /// The head left the board.
    OutOfBounds,
    /// The head ran into the body.
    SelfCollision,
    /// The snake ate a deadly item.
    FruitDeath,
    /// The player asked to stop.
    Quit,
}

impl Ending {
    /// The name of this ending, as shown to the player.
    pub open spec fn label(self) -> Seq<char> {
        match self {
            Ending::OutOfBounds => "OutOfBounds"@,
            Ending::SelfCollision => "SelfCollision"@,
            Ending::FruitDeath => "FruitDeath"@,
            Ending::Quit => "Quit"@,
        }
    }

    pub fn tag(self) -> (tag: &'static str)
        ensures
            tag@ == self.label(),
    {
        match self {
            Ending::OutOfBounds => "OutOfBounds",
            Ending::SelfCollision => "SelfCollision",
            Ending::FruitDeath => "FruitDeath",
            Ending::Quit => "Quit",
        }
    }
}

/// One cell of the snake's body, and the direction the head moved in when it
/// entered that cell.
#[derive(Copy, Clone, Debug, PartialEq, Eq)]
pub struct Segment {
    pub dir: Dir,
    pub pos: Pos,
}

/// The body of the snake: the head is the first segment, the tail the last.
pub struct Snake(pub Vec<Segment>);

impl View for Snake {
    type V = Seq<Segment>;

    open spec fn view(&self) -> Seq<Segment> {
        self.0@
    }
}

/// True if some segment of `body` lies on the cell `p`.
pub open spec fn occupies(body: Seq<Segment>, p: Pos) -> bool {
    exists|i: int| 0 <= i < body.len() && (#[trigger] body[i]).pos == p
}

/// True if every segment of `body` lies on the board.
pub open spec fn within(body: Seq<Segment>, bounds: Pos) -> bool {
    forall|i: int|
        0 <= i < body.len() ==> on_board(
            ((#[trigger] body[i]).pos.0 as int, body[i].pos.1 as int),
            bounds,
        )
}

/// True if no two segments of `body` share a cell.
pub open spec fn distinct(body: Seq<Segment>) -> bool {
    forall|i: int, j: int|
        0 <= i < j < body.len() ==> (#[trigger] body[i]).pos != (#[trigger] body[j]).pos
}

/// True if `a` and `b` are side by side in a row or in a column.
pub open spec fn neighbours(a: Pos, b: Pos) -> bool {
    ||| a.0 == b.0 && (a.1 - b.1 == 1 || b.1 - a.1 == 1)
    ||| a.1 == b.1 && (a.0 - b.0 == 1 || b.0 - a.0 == 1)
}

/// True if each segment of `body` is a neighbour of the one behind it.
pub open spec fn contiguous(body: Seq<Segment>) -> bool {
    forall|i: int, j: int|
        0 <= i && j == i + 1 && j < body.len() ==> neighbours(
            (#[trigger] body[i]).pos,
            (#[trigger] body[j]).pos,
        )
}

/// A snake in play: it has a head, lies on the board, does not cross itself
/// and is in one piece.
pub open spec fn alive(body: Seq<Segment>, bounds: Pos) -> bool {
    &&& body.len() >= 1
    &&& within(body, bounds)
    &&& distinct(body)
    &&& contiguous(body)
}

/// The outcome of one move, with everything the move leaves behind.
pub struct Stepped {
    /// The item eaten, or why the move failed.
    pub result: Result<Option<Fruit>, Ending>,
    /// The body after the move.
    pub body: Seq<Segment>,
    /// The items after the move.
    pub fruits: Map<Pos, Fruit>,
    /// What the move draws, in order.
    pub drawn: Seq<Draw>,
}

/// True if a growth item lies at `at`.
pub open spec fn feeds(fruits: Map<Pos, Fruit>, at: Pos) -> bool {
    fruits.contains_key(at) && fruits[at] == Fruit::Growth
}

/// One move of a snake with body `body` on a board with far corner `bounds`
/// and items `fruits`, when the direction `wanted` is asked for.
///
/// The snake moves one cell in the direction it takes after turn
/// suppression. A move off the board fails and changes nothing. Otherwise
/// the tail is dropped and blanked, unless a growth item lies where the head
/// is going; a move into what then remains of the body fails, with the tail
/// already gone; any other move puts a new head in front, draws the joint
/// behind it and the head itself, and takes the item under the new head off
/// the board.
pub open spec fn step_of(
    body: Seq<Segment>,
    fruits: Map<Pos, Fruit>,
    bounds: Pos,
    wanted: Dir,
) -> Stepped
    recommends
        body.len() > 0,
{
    let dir = heading(body, wanted);
    let to = moved(body[0].pos, dir);
    if !on_board(to, bounds) {
        Stepped { result: Err(Ending::OutOfBounds), body, fruits, drawn: Seq::empty() }
    } else {
        let at: Pos = (to.0 as i32, to.1 as i32);
        let rest = remaining(body, feeds(fruits, at));
        let blanked = blanking(body, feeds(fruits, at));
        if occupies(rest, at) {
            Stepped { result: Err(Ending::SelfCollision), body: rest, fruits, drawn: blanked }
        } else {
            Stepped {
                result: Ok(
                    if fruits.contains_key(at) {
                        Some(fruits[at])
                    } else {
                        None
                    },
                ),
                body: seq![Segment { dir, pos: at }] + rest,
                fruits: fruits.remove(at),
                drawn: blanked + joining_marks(rest, dir) + seq![body_mark(at, head_mark(dir))],
            }
        }
    }
}

/// The direction a snake with body `body` takes when `wanted` is asked for.
pub open spec fn heading(body: Seq<Segment>, wanted: Dir) -> Dir
    recommends
        body.len() > 0,
{
    body[0].dir.turned(wanted)
}

/// What is left of `body` before the new head is put on: all of it if the
/// snake is about to grow, all but the tail if not.
pub open spec fn remaining(body: Seq<Segment>, grows: bool) -> Seq<Segment>
    recommends
        body.len() > 0,
{
    if grows {
        body
    } else {
        body.drop_last()
    }
}

/// The draws that blank the tail's cell: none if the snake is about to grow.
pub open spec fn blanking(body: Seq<Segment>, grows: bool) -> Seq<Draw>
    recommends
        body.len() > 0,
{
    if grows {
        Seq::empty()
    } else {
        seq![erasure(body.last().pos)]
    }
}

/// The draws that turn the first segment of `rest` into a joint behind a new
/// head facing `dir`: none if nothing is left behind the head.
pub open spec fn joining_marks(rest: Seq<Segment>, dir: Dir) -> Seq<Draw> {
    if rest.len() > 0 {
        seq![body_mark(rest[0].pos, joint(dir, rest[0].dir))]
    } else {
        Seq::empty()
    }
}

impl Snake {
    /// A snake of one segment in the middle of a board with far corner
    /// `(max_x, max_y)`, facing north.
    pub fn new(max_x: u16, max_y: u16) -> (snake: Snake)
        ensures
            snake@ == seq![Segment { dir: Dir::N, pos: ((max_x / 2) as i32, (max_y / 2) as i32) }],
            alive(snake@, (max_x as i32, max_y as i32)),
    {
        let mut body: Vec<Segment> = Vec::new();
        body.push(Segment { dir: Dir::N, pos: ((max_x / 2) as i32, (max_y / 2) as i32) });
        Snake(body)
    }

    /// True if some segment lies on the cell `pos`.
    pub fn contains(&self, pos: Pos) -> (found: bool)
        ensures
            found == occupies(self@, pos),
    {
        let mut i: usize = 0;
        while i < self.0.len()
            invariant
                i <= self@.len(),
                forall|j: int| 0 <= j < i ==> (#[trigger] self@[j]).pos != pos,
            decreases self@.len() - i,
        {
            if self.0[i].pos.0 == pos.0 && self.0[i].pos.1 == pos.1 {
                return true;
            }
            i += 1;
        }
        false
    }

    /// Moves the snake one cell, towards `wanted` unless that would reverse
    /// it. Returns the item eaten on the way, or the reason the move failed.
    /// What has to be redrawn is appended to `draws`.
    pub fn step(
        &mut self,
        fruits: &mut Fruits,
        bounds: Pos,
        wanted: Dir,
        draws: &mut Vec<Draw>,
    ) -> (result: Result<Option<Fruit>, Ending>)
        requires
            old(self)@.len() > 0,
        ensures
            result == step_of(old(self)@, old(fruits)@, bounds, wanted).result,
            final(self)@ == step_of(old(self)@, old(fruits)@, bounds, wanted).body,
            final(fruits)@ == step_of(old(self)@, old(fruits)@, bounds, wanted).fruits,
            final(draws)@ == old(draws)@ + step_of(old(self)@, old(fruits)@, bounds, wanted).drawn,
            result is Ok ==> final(self)@.len() >= 1,
            result is Ok && within(old(self)@, bounds) ==> within(final(self)@, bounds),
            result is Ok && distinct(old(self)@) ==> distinct(final(self)@),
            result is Ok && contiguous(old(self)@) ==> contiguous(final(self)@),
            result == Ok::<Option<Fruit>, Ending>(Some(Fruit::Growth)) ==> final(self)@.len()
                == old(self)@.len() + 1,
            result is Ok && result != Ok::<Option<Fruit>, Ending>(Some(Fruit::Growth))
                ==> final(self)@.len() == old(self)@.len(),
    {
        let head: Segment = self.0[0];
        let dir: Dir = head.dir.turn(wanted);
        let x: i64 = match dir {
            Dir::E => head.pos.0 as i64 + 1,
            Dir::W => head.pos.0 as i64 - 1,
            _ => head.pos.0 as i64,
        };
        let y: i64 = match dir {
            Dir::S => head.pos.1 as i64 + 1,
            Dir::N => head.pos.1 as i64 - 1,
            _ => head.pos.1 as i64,
        };
        if x < 0 || y < 0 || x > bounds.0 as i64 || y > bounds.1 as i64 {
            assert(draws@ =~= old(draws)@ + Seq::<Draw>::empty());
            return Err(Ending::OutOfBounds);
        }
        let at: Pos = (x as i32, y as i32);
        let grows: bool = match fruits.get(at) {
            Some(Fruit::Growth) => true,
            _ => false,
        };
        if !grows {
            if let Some(tail) = self.0.pop() {
                draws.push(Draw { pos: tail.pos, glyph: BLANK, tint: Tint::Plain });
            }
        }
        if self.contains(at) {
            assert(draws@ =~= old(draws)@ + blanking(old(self)@, grows));
            return Err(Ending::SelfCollision);
        }
        self.0.insert(0, Segment { dir, pos: at });
        let ghost rest = remaining(old(self)@, grows);
        assert(self@ =~= seq![Segment { dir, pos: at }] + rest);
        if self.0.len() > 1 {
            let behind: Segment = self.0[1];
            assert(behind == rest[0]);
            draws.push(Draw { pos: behind.pos, glyph: connector(dir, behind.dir), tint: Tint::White });
        }
        draws.push(Draw { pos: at, glyph: head_glyph(dir), tint: Tint::White });
        let eaten: Option<Fruit> = fruits.remove(at);
        proof {
            assert(draws@ =~= old(draws)@ + (blanking(old(self)@, grows) + joining_marks(rest, dir)
                + seq![body_mark(at, head_mark(dir))]));
            if within(old(self)@, bounds) {
                lemma_step_keeps_within(old(self)@, old(fruits)@, bounds, wanted);
            }
            if distinct(old(self)@) {
                lemma_step_keeps_distinct(old(self)@, old(fruits)@, bounds, wanted);
            }
            if contiguous(old(self)@) {
                lemma_step_keeps_contiguous(old(self)@, old(fruits)@, bounds, wanted);
            }
        }
        Ok(eaten)
    }
}

/// The body after a move that succeeds: the new head lies on the board, one
/// cell from the old head and on no cell of what was kept of the old body,
/// and behind it follow the old segments in their old order, all of them or
/// all but the tail.
proof fn lemma_step_body(body: Seq<Segment>, fruits: Map<Pos, Fruit>, bounds: Pos, wanted: Dir)
    requires
        body.len() > 0,
        step_of(body, fruits, bounds, wanted).result is Ok,
    ensures
        ({
            let next = step_of(body, fruits, bounds, wanted).body;
            &&& 1 <= next.len() <= body.len() + 1
            &&& on_board((next[0].pos.0 as int, next[0].pos.1 as int), bounds)
            &&& neighbours(next[0].pos, body[0].pos)
            &&& forall|i: int|
                0 < i < next.len() ==> #[trigger] next[i] == body[i - 1] && next[i].pos
                    != next[0].pos
        }),
{
    let dir = heading(body, wanted);
    let to = moved(body[0].pos, dir);
    let at: Pos = (to.0 as i32, to.1 as i32);
    let rest = remaining(body, feeds(fruits, at));
    let next = step_of(body, fruits, bounds, wanted).body;
    assert(next == seq![Segment { dir, pos: at }] + rest);
    assert(next[0].pos == at);
    assert forall|i: int| 0 < i < next.len() implies #[trigger] next[i] == body[i - 1]
        && next[i].pos != at by {
        assert(next[i] == rest[i - 1]);
        assert(rest[i - 1] == body[i - 1]);
    }
}

/// A move that succeeds leaves a snake that has a head and lies on the
/// board, if it lay on the board before.
pub proof fn lemma_step_keeps_within(
    body: Seq<Segment>,
    fruits: Map<Pos, Fruit>,
    bounds: Pos,
    wanted: Dir,
)
    requires
        body.len() > 0,
        within(body, bounds),
    ensures
        step_of(body, fruits, bounds, wanted).result is Ok ==> step_of(
            body,
            fruits,
            bounds,
            wanted,
        ).body.len() >= 1 && within(step_of(body, fruits, bounds, wanted).body, bounds),
{
    if step_of(body, fruits, bounds, wanted).result is Ok {
        let next = step_of(body, fruits, bounds, wanted).body;
        lemma_step_body(body, fruits, bounds, wanted);
        assert forall|i: int| 0 <= i < next.len() implies on_board(
            ((#[trigger] next[i]).pos.0 as int, next[i].pos.1 as int),
            bounds,
        ) by {
            if i > 0 {
                assert(next[i] == body[i - 1]);
            }
        }
    }
}

/// A move that succeeds leaves no two segments on one cell, if there were no
/// two on one cell before.
pub proof fn lemma_step_keeps_distinct(
    body: Seq<Segment>,
    fruits: Map<Pos, Fruit>,
    bounds: Pos,
    wanted: Dir,
)
    requires
        body.len() > 0,
        distinct(body),
    ensures
        step_of(body, fruits, bounds, wanted).result is Ok ==> distinct(
            step_of(body, fruits, bounds, wanted).body,
        ),
{
    if step_of(body, fruits, bounds, wanted).result is Ok {
        let next = step_of(body, fruits, bounds, wanted).body;
        lemma_step_body(body, fruits, bounds, wanted);
        assert forall|i: int, j: int| 0 <= i < j < next.len() implies (#[trigger] next[i]).pos
            != (#[trigger] next[j]).pos by {
            assert(next[j] == body[j - 1]);
            if i > 0 {
                assert(next[i] == body[i - 1]);
            }
        }
    }
}

/// A move that succeeds leaves the snake in one piece, if it was in one piece
/// before.
pub proof fn lemma_step_keeps_contiguous(
    body: Seq<Segment>,
    fruits: Map<Pos, Fruit>,
    bounds: Pos,
    wanted: Dir,
)
    requires
        body.len() > 0,
        contiguous(body),
    ensures
        step_of(body, fruits, bounds, wanted).result is Ok ==> contiguous(
            step_of(body, fruits, bounds, wanted).body,
        ),
{
    if step_of(body, fruits, bounds, wanted).result is Ok {
        let next = step_of(body, fruits, bounds, wanted).body;
        lemma_step_body(body, fruits, bounds, wanted);
        assert forall|i: int, j: int| 0 <= i && j == i + 1 && j < next.len() implies neighbours(
            (#[trigger] next[i]).pos,
            (#[trigger] next[j]).pos,
        ) by {
            assert(next[j] == body[j - 1]);
            if i > 0 {
                assert(next[i] == body[i - 1]);
            }
        }
    }
}

/// A move that succeeds leaves a snake in play: it still has a head, lies on
/// the board, does not cross itself and is in one piece.
pub proof fn lemma_step_keeps_alive(
    body: Seq<Segment>,
    fruits: Map<Pos, Fruit>,
    bounds: Pos,
    wanted: Dir,
)
    requires
        alive(body, bounds),
    ensures
        step_of(body, fruits, bounds, wanted).result is Ok ==> alive(
            step_of(body, fruits, bounds, wanted).body,
            bounds,
        ),
{
    lemma_step_keeps_within(body, fruits, bounds, wanted);
    lemma_step_keeps_distinct(body, fruits, bounds, wanted);
    lemma_step_keeps_contiguous(body, fruits, bounds, wanted);
}

/// A move that eats a growth item lengthens the body by one segment; any
/// other move that succeeds leaves its length as it was.
pub proof fn lemma_step_length(
    body: Seq<Segment>,
    fruits: Map<Pos, Fruit>,
    bounds: Pos,
    wanted: Dir,
)
    requires
        body.len() > 0,
    ensures
        ({
            let s = step_of(body, fruits, bounds, wanted);
            &&& s.result == Ok::<Option<Fruit>, Ending>(Some(Fruit::Growth)) ==> s.body.len()
                == body.len() + 1
            &&& s.result is Ok && s.result != Ok::<Option<Fruit>, Ending>(Some(Fruit::Growth))
                ==> s.body.len() == body.len()
        }),
{
}

/// A snake asked to reverse moves exactly as one asked to go straight on.
pub proof fn lemma_step_never_reverses(
    body: Seq<Segment>,
    fruits: Map<Pos, Fruit>,
    bounds: Pos,
)
    requires
        body.len() > 0,
    ensures
        step_of(body, fruits, bounds, body[0].dir.reverse()) == step_of(
            body,
            fruits,
            bounds,
            body[0].dir,
        ),
{
}

/// A move that leaves the board changes neither the snake nor the items and
/// draws nothing.
pub proof fn lemma_step_off_board(
    body: Seq<Segment>,
    fruits: Map<Pos, Fruit>,
    bounds: Pos,
    wanted: Dir,
)
    requires
        body.len() > 0,
    ensures
        ({
            let s = step_of(body, fruits, bounds, wanted);
            s.result == Err::<Option<Fruit>, Ending>(Ending::OutOfBounds) ==> s.body == body
                && s.fruits == fruits && s.drawn.len() == 0
        }),
{
}

} // verus!
