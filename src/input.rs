use vstd::prelude::*;

use crate::game::Input;

verus! {

/// A key press, as far as the game tells keys apart.
#[derive(Clone, Copy, Debug, PartialEq, Eq, Structural)]
pub enum Key {
    Char(char),
    Up,
    Esc,
    Other,
}

/// The input a key stands for: space or the up arrow jump, escape or `q` quit,
/// every other key is ignored.
pub open spec fn input_of(k: Key) -> Input {
    match k {
        Key::Char(' ') | Key::Up => Input::Jump,
        Key::Char('q') | Key::Esc => Input::Quit,
        _ => Input::Idle,
    }
}

/// Decodes a key press into the game's input.
pub fn decode_key(k: Key) -> (r: Input)
    ensures
        r == input_of(k),
{
    match k {
        Key::Char(' ') | Key::Up => Input::Jump,
        Key::Char('q') | Key::Esc => Input::Quit,
        _ => Input::Idle,
    }
}

} // verus!
