//! Key presses and what they ask of the game.

use vstd::prelude::*;
use crate::direction::Dir;

verus! {

/// A key press, as far as the game tells keys apart.
#[derive(Copy, Clone, Debug, PartialEq, Eq, Structural)]
pub enum Key {
    /// A printing character.
    Char(char),
    Up,
    Down,
    Left,
    Right,
    Esc,
    /// Any other key.
    Other,
}

/// What a key press asks for.
#[derive(Copy, Clone, Debug, PartialEq, Eq, Structural)]
pub enum Command {
    /// Head in this direction from now on.
    Turn(Dir),
    /// End the session.
    Quit,
    /// Go on as before.
    Nothing,
}

impl Key {
    /// The binding of keys: the arrows and `w`, `a`, `s`, `d` steer, `q` and
    /// escape quit, every other key does nothing.
    pub open spec fn meaning(self) -> Command {
        match self {
            Key::Up => Command::Turn(Dir::N),
            Key::Left => Command::Turn(Dir::W),
            Key::Down => Command::Turn(Dir::S),
            Key::Right => Command::Turn(Dir::E),
            Key::Esc => Command::Quit,
            Key::Char(c) => if c == 'w' {
                Command::Turn(Dir::N)
            } else if c == 'a' {
                Command::Turn(Dir::W)
            } else if c == 's' {
                Command::Turn(Dir::S)
            } else if c == 'd' {
                Command::Turn(Dir::E)
            } else if c == 'q' {
                Command::Quit
            } else {
                Command::Nothing
            },
            Key::Other => Command::Nothing,
        }
    }

    pub fn command(self) -> (command: Command)
        ensures
            command == self.meaning(),
    {
        match self {
            Key::Char('w') | Key::Up => Command::Turn(Dir::N),
            Key::Char('a') | Key::Left => Command::Turn(Dir::W),
            Key::Char('s') | Key::Down => Command::Turn(Dir::S),
            Key::Char('d') | Key::Right => Command::Turn(Dir::E),
            Key::Char('q') | Key::Esc => Command::Quit,
            _ => Command::Nothing,
        }
    }
}

/// What the keys pressed since the last tick ask for, `keys` being in the
/// order they were pressed: the last key decides, the earlier ones are
/// dropped, and no key at all asks for nothing.
pub open spec fn latest(keys: Seq<Key>) -> Command {
    if keys.len() == 0 {
        Command::Nothing
    } else {
        keys.last().meaning()
    }
}

/// The command that the keys pressed since the last tick amount to.
pub fn pending(keys: &Vec<Key>) -> (command: Command)
    ensures
        command == latest(keys@),
{
    if keys.len() == 0 {
        Command::Nothing
    } else {
        keys[keys.len() - 1].command()
    }
}

/// Several keys pressed within one tick ask for what the last of them asks
/// for alone.
pub proof fn lemma_latest_wins(keys: Seq<Key>)
    requires
        keys.len() > 0,
    ensures
        latest(keys) == latest(seq![keys.last()]),
        latest(keys) == keys.last().meaning(),
{
    assert(seq![keys.last()].last() == keys.last());
}

} // verus!
