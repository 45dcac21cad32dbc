//! One play session: the snake, the items, the score and the pace, and the
//! tick that moves them on.

use rand::rngs::ThreadRng;
use vstd::prelude::*;
use crate::direction::{Dir, Pos};
use crate::input::{latest, pending, Command, Key};
use crate::items::{Fruit, Fruits};
use crate::random::gen_range;
use crate::spawn::{faces_for, spawn_from, spawnable, KIND_FACES};
use crate::render::Draw;
use crate::snake::{alive, step_of, Ending, Segment, Snake};

verus! {

/// Delay between ticks at the start of a session, in milliseconds.
pub const START_DELAY: u64 = 50;

/// By how much one item changes the delay, in milliseconds.
pub const DELAY_STEP: u64 = 10;

/// The shortest delay between ticks, in milliseconds.
pub const MIN_DELAY: u64 = 10;

/// Points scored by one growth item.
pub const GROWTH_POINTS: i32 = 10;

/// A session in play.
pub struct Game {
    /// Far corner of the board.
    pub bounds: Pos,
    pub snake: Snake,
    /// The direction last asked for.
    pub dir: Dir,
    /// Items on the board.
    pub fruits: Fruits,
    /// Delay between ticks, in milliseconds.
    pub delay: u64,
    /// Points scored.
    pub points: i32,
}

/// A session as plain values.
pub struct State {
    pub bounds: Pos,
    pub body: Seq<Segment>,
    pub dir: Dir,
    pub fruits: Map<Pos, Fruit>,
    pub delay: u64,
    pub points: i32,
}

/// What one tick leaves behind.
pub struct Ticked {
    /// The session after the tick.
    pub state: State,
    /// How the session ended, if the tick ended it.
    pub ending: Option<Ending>,
    /// What the tick draws, in order.
    pub drawn: Seq<Draw>,
}

impl View for Game {
    type V = State;

    open spec fn view(&self) -> State {
        State {
            bounds: self.bounds,
            body: self.snake@,
            dir: self.dir,
            fruits: self.fruits@,
            delay: self.delay,
            points: self.points,
        }
    }
}

/// The score after a move that ate `eaten`, capped at the largest number
/// the score can hold.
pub open spec fn points_after(points: i32, eaten: Option<Fruit>) -> i32 {
    if eaten == Some(Fruit::Growth) {
        if points + GROWTH_POINTS > i32::MAX {
            i32::MAX
        } else {
            (points + GROWTH_POINTS) as i32
        }
    } else {
        points
    }
}

/// The delay after a move that ate `eaten`. A speed item shortens it by one
/// step, but never below `MIN_DELAY`; a slow item lengthens it by one step,
/// capped at the largest number the delay can hold.
pub open spec fn delay_after(delay: u64, eaten: Option<Fruit>) -> u64 {
    if eaten == Some(Fruit::Speed) {
        if delay - DELAY_STEP < MIN_DELAY {
            MIN_DELAY
        } else {
            (delay - DELAY_STEP) as u64
        }
    } else if eaten == Some(Fruit::Slow) {
        if delay + DELAY_STEP > u64::MAX {
            u64::MAX
        } else {
            (delay + DELAY_STEP) as u64
        }
    } else {
        delay
    }
}

/// How a move ends the session, if it does: a failed move ends it for the
/// reason it failed, a move that ate a deadly item ends it too.
pub open spec fn ending_of(result: Result<Option<Fruit>, Ending>) -> Option<Ending> {
    match result {
        Err(ending) => Some(ending),
        Ok(Some(Fruit::Death)) => Some(Ending::FruitDeath),
        Ok(_) => None,
    }
}

/// The item that a successful move ate, if any.
pub open spec fn eaten_of(result: Result<Option<Fruit>, Ending>) -> Option<Fruit> {
    match result {
        Ok(eaten) => eaten,
        Err(_) => None,
    }
}

impl State {
    /// The session at its start on a board with far corner `(max_x, max_y)`.
    pub open spec fn initial(max_x: u16, max_y: u16) -> State {
        State {
            bounds: (max_x as i32, max_y as i32),
            body: seq![Segment { dir: Dir::N, pos: ((max_x / 2) as i32, (max_y / 2) as i32) }],
            dir: Dir::N,
            fruits: Map::empty(),
            delay: START_DELAY,
            points: 0,
        }
    }

    /// The session once `command` has been taken in: a turn replaces the
    /// direction asked for, anything else leaves it.
    pub open spec fn steered(self, command: Command) -> State {
        match command {
            Command::Turn(dir) => State { dir, ..self },
            _ => self,
        }
    }

    /// The session once the item `spawn`, if any, has been put on the board.
    pub open spec fn stocked(self, spawn: Option<(Pos, Fruit)>) -> State {
        match spawn {
            Some((pos, fruit)) => State { fruits: self.fruits.insert(pos, fruit), ..self },
            None => self,
        }
    }

    /// True if `spawn` is an item that may appear in this session: none at
    /// all, or one on a cell that is free of the snake.
    pub open spec fn admits(self, spawn: Option<(Pos, Fruit)>) -> bool {
        match spawn {
            Some((pos, _)) => spawnable(self.body, self.bounds, pos),
            None => true,
        }
    }

    /// True while the session can go on: the snake is in play.
    pub open spec fn playable(self) -> bool {
        alive(self.body, self.bounds)
    }
}

/// The draws that show a new item.
pub open spec fn spawn_marks(spawn: Option<(Pos, Fruit)>) -> Seq<Draw> {
    match spawn {
        Some((pos, fruit)) => seq![fruit.shown_at(pos)],
        None => Seq::empty(),
    }
}

/// One tick of a session `state`, given the command of the keys pressed
/// since the last tick and the item that appears in this tick, if any.
///
/// A request to quit ends the session before anything else happens.
/// Otherwise the command is taken in, the new item is put on the board and
/// shown, and the snake moves in the direction last asked for. A failed move
/// ends the session, and so does a deadly item; a growth item scores, a
/// speed or slow item changes the delay.
pub open spec fn tick_of(state: State, command: Command, spawn: Option<(Pos, Fruit)>) -> Ticked {
    if command == Command::Quit {
        Ticked { state, ending: Some(Ending::Quit), drawn: Seq::empty() }
    } else {
        let before = state.steered(command).stocked(spawn);
        let step = step_of(before.body, before.fruits, before.bounds, before.dir);
        Ticked {
            state: State {
                body: step.body,
                fruits: step.fruits,
                delay: delay_after(before.delay, eaten_of(step.result)),
                points: points_after(before.points, eaten_of(step.result)),
                ..before
            },
            ending: ending_of(step.result),
            drawn: spawn_marks(spawn) + step.drawn,
        }
    }
}

impl Game {
    /// A session at its start: one segment in the middle of the board, facing
    /// north, no items, no points.
    pub fn new(max_x: u16, max_y: u16) -> (game: Game)
        ensures
            game@ == State::initial(max_x, max_y),
            game@.playable(),
    {
        Game {
            bounds: (max_x as i32, max_y as i32),
            snake: Snake::new(max_x, max_y),
            dir: Dir::N,
            fruits: Fruits::new(),
            delay: START_DELAY,
            points: 0,
        }
    }

    /// Decides by chance whether an item appears in this tick, which, and
    /// where. An item that appears lies on a cell free of the snake. At most
    /// `max_draws` cells are tried for it.
    pub fn roll_spawn(&self, rng: &mut ThreadRng, max_draws: u64) -> (spawn: Option<(Pos, Fruit)>)
        requires
            self.bounds.0 > 0,
            self.bounds.1 > 0,
        ensures
            self@.admits(spawn),
            max_draws == 0 ==> spawn is None,
    {
        let trial: u128 = gen_range(rng, 0, faces_for(self.fruits.len()));
        if trial != 0 {
            return None;
        }
        let kind: u128 = gen_range(rng, 0, KIND_FACES);
        let cell: Option<Pos> = self.snake.free_cell(rng, self.bounds, max_draws);
        spawn_from(trial, kind, cell)
    }

    /// One tick with everything given: the command of the keys pressed and
    /// the item that appears, if any. What has to be redrawn is appended to
    /// `draws`. Returns how the session ended, if this tick ended it.
    pub fn play(
        &mut self,
        command: Command,
        spawn: Option<(Pos, Fruit)>,
        draws: &mut Vec<Draw>,
    ) -> (ending: Option<Ending>)
        requires
            old(self).snake@.len() > 0,
        ensures
            final(self)@ == tick_of(old(self)@, command, spawn).state,
            ending == tick_of(old(self)@, command, spawn).ending,
            final(draws)@ == old(draws)@ + tick_of(old(self)@, command, spawn).drawn,
            ending is None ==> final(self).snake@.len() > 0,
            ending is None && old(self)@.playable() ==> final(self)@.playable(),
    {
        match command {
            Command::Quit => {
                assert(draws@ =~= old(draws)@ + Seq::<Draw>::empty());
                return Some(Ending::Quit);
            },
            Command::Turn(dir) => {
                self.dir = dir;
            },
            Command::Nothing => {},
        }
        if let Some((pos, fruit)) = spawn {
            self.fruits.insert(pos, fruit);
            draws.push(fruit.draw_at(pos));
        }
        let ghost before = self@;
        assert(draws@ =~= old(draws)@ + spawn_marks(spawn));
        let result = self.snake.step(&mut self.fruits, self.bounds, self.dir, draws);
        assert(draws@ =~= old(draws)@ + (spawn_marks(spawn) + step_of(
            before.body,
            before.fruits,
            before.bounds,
            before.dir,
        ).drawn));
        match result {
            Err(ending) => Some(ending),
            Ok(Some(Fruit::Death)) => Some(Ending::FruitDeath),
            Ok(Some(Fruit::Growth)) => {
                self.points = if self.points > i32::MAX - GROWTH_POINTS {
                    i32::MAX
                } else {
                    self.points + GROWTH_POINTS
                };
                None
            },
            Ok(Some(Fruit::Speed)) => {
                self.delay = if self.delay < MIN_DELAY + DELAY_STEP {
                    MIN_DELAY
                } else {
                    self.delay - DELAY_STEP
                };
                None
            },
            Ok(Some(Fruit::Slow)) => {
                self.delay = if self.delay > u64::MAX - DELAY_STEP {
                    u64::MAX
                } else {
                    self.delay + DELAY_STEP
                };
                None
            },
            Ok(None) => None,
        }
    }

    /// One tick of the session. `keys` are the keys pressed since the last
    /// tick, in order; `rng` decides whether an item appears, and where,
    /// trying at most `max_draws` cells for it. What has to be redrawn is
    /// appended to `draws`. Returns how the session ended, if this tick ended
    /// it.
    ///
    /// Which item appears is left to chance; for the item that did appear,
    /// the tick is the one that `tick_of` describes.
    pub fn tick(
        &mut self,
        keys: &Vec<Key>,
        rng: &mut ThreadRng,
        max_draws: u64,
        draws: &mut Vec<Draw>,
    ) -> (ending: Option<Ending>)
        requires
            old(self).snake@.len() > 0,
            old(self).bounds.0 > 0,
            old(self).bounds.1 > 0,
        ensures
            exists|spawn: Option<(Pos, Fruit)>|
                {
                    &&& old(self)@.admits(spawn)
                    &&& max_draws == 0 ==> spawn is None
                    &&& final(self)@ == (#[trigger] tick_of(old(self)@, latest(keys@), spawn)).state
                    &&& ending == tick_of(old(self)@, latest(keys@), spawn).ending
                    &&& final(draws)@ == old(draws)@ + tick_of(
                        old(self)@,
                        latest(keys@),
                        spawn,
                    ).drawn
                },
            latest(keys@) == Command::Quit ==> ending == Some(Ending::Quit) && final(self)@ == old(
                self,
            )@ && final(draws)@ == old(draws)@,
            ending is None ==> final(self).snake@.len() > 0,
            ending is None && old(self)@.playable() ==> final(self)@.playable(),
            final(self).bounds == old(self).bounds,
    {
        let command: Command = pending(keys);
        let spawn: Option<(Pos, Fruit)> = match command {
            Command::Quit => None,
            _ => self.roll_spawn(rng, max_draws),
        };
        let ending = self.play(command, spawn, draws);
        proof {
            assert(self@ == tick_of(old(self)@, latest(keys@), spawn).state);
            if command == Command::Quit {
                assert(draws@ =~= old(draws)@);
            }
        }
        ending
    }
}

/// Within one tick only the last key pressed counts: a tick given several
/// keys is the tick given the last of them alone.
pub proof fn lemma_tick_latest_key(state: State, keys: Seq<Key>, spawn: Option<(Pos, Fruit)>)
    requires
        keys.len() > 0,
    ensures
        tick_of(state, latest(keys), spawn) == tick_of(state, latest(seq![keys.last()]), spawn),
{
    assert(seq![keys.last()].last() == keys.last());
}

/// A tick that does not end the session leaves the snake in play: it has a
/// head, lies on the board, does not cross itself and is in one piece.
pub proof fn lemma_tick_keeps_playable(
    state: State,
    command: Command,
    spawn: Option<(Pos, Fruit)>,
)
    requires
        state.playable(),
    ensures
        tick_of(state, command, spawn).ending is None ==> tick_of(
            state,
            command,
            spawn,
        ).state.playable(),
{
    if command != Command::Quit {
        let before = state.steered(command).stocked(spawn);
        crate::snake::lemma_step_keeps_alive(before.body, before.fruits, before.bounds, before.dir);
    }
}

/// A tick that eats a growth item lengthens the snake by one segment; any
/// other tick that does not end the session leaves its length as it was.
pub proof fn lemma_tick_length(state: State, command: Command, spawn: Option<(Pos, Fruit)>)
    requires
        state.body.len() > 0,
    ensures
        ({
            let before = state.steered(command).stocked(spawn);
            let ate = eaten_of(step_of(before.body, before.fruits, before.bounds, before.dir).result);
            let after = tick_of(state, command, spawn);
            &&& after.ending is None && ate == Some(Fruit::Growth) ==> after.state.body.len()
                == state.body.len() + 1
            &&& after.ending is None && ate != Some(Fruit::Growth) ==> after.state.body.len()
                == state.body.len()
        }),
{
}

} // verus!
