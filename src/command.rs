use vstd::prelude::*;

use crate::direction::Direction;

verus! {

/// What the player asks for.
#[derive(Debug, Clone, Copy, PartialEq, Eq, Structural)]
pub enum Command {
    Quit,
    Turn(Direction),
}

/// The key of a key press, as far as the game tells keys apart.
#[derive(Debug, Clone, Copy, PartialEq, Eq, Structural)]
pub enum Key {
    Char(char),
    Esc,
    Up,
    Right,
    Down,
    Left,
    Other,
}

/// A key press; `control_only` holds when Control, and no other modifier,
/// was held down.
#[derive(Debug, Clone, Copy, PartialEq, Eq, Structural)]
pub struct KeyPress {
    pub key: Key,
    pub control_only: bool,
}

/// The command a key press stands for: `q`, `Q` and Escape quit, as does
/// Control-C; the arrow keys turn; every other key means nothing.
pub open spec fn spec_command_for(press: KeyPress) -> Option<Command> {
    match press.key {
        Key::Char(c) => if c == 'q' || c == 'Q' {
            Some(Command::Quit)
        } else if (c == 'c' || c == 'C') && press.control_only {
            Some(Command::Quit)
        } else {
            None
        },
        Key::Esc => Some(Command::Quit),
        Key::Up => Some(Command::Turn(Direction::Up)),
        Key::Right => Some(Command::Turn(Direction::Right)),
        Key::Down => Some(Command::Turn(Direction::Down)),
        Key::Left => Some(Command::Turn(Direction::Left)),
        Key::Other => None,
    }
}

pub fn command_for_key(press: KeyPress) -> (r: Option<Command>)
    ensures
        r == spec_command_for(press),
{
    match press.key {
        Key::Char(c) => {
            if c == 'q' || c == 'Q' {
                Some(Command::Quit)
            } else if (c == 'c' || c == 'C') && press.control_only {
                Some(Command::Quit)
            } else {
                None
            }
        },
        Key::Esc => Some(Command::Quit),
        Key::Up => Some(Command::Turn(Direction::Up)),
        Key::Right => Some(Command::Turn(Direction::Right)),
        Key::Down => Some(Command::Turn(Direction::Down)),
        Key::Left => Some(Command::Turn(Direction::Left)),
        Key::Other => None,
    }
}

} // verus!
