//! Decoding of plain key presses into viewer actions.

use vstd::prelude::*;

use crate::cursor::MoveCommand;

verus! {

/// What one unmodified key press asks of the viewer.
#[derive(Debug, Clone, Copy, PartialEq, Eq, Structural)]
pub enum KeyAction {
    /// End the session.
    Quit,
    /// Move the cursor.
    Move(MoveCommand),
    /// No effect.
    Ignore,
}

/// The action commanded by the character `c` typed with no modifier key held:
/// `q` quits and `h`/`j`/`k`/`l` move left/down/up/right; any other key has no
/// effect.
pub open spec fn spec_key_action(c: char) -> KeyAction {
    if c == 'q' {
        KeyAction::Quit
    } else if c == 'h' {
        KeyAction::Move(MoveCommand::Left)
    } else if c == 'j' {
        KeyAction::Move(MoveCommand::Down)
    } else if c == 'k' {
        KeyAction::Move(MoveCommand::Up)
    } else if c == 'l' {
        KeyAction::Move(MoveCommand::Right)
    } else {
        KeyAction::Ignore
    }
}

/// Decode one unmodified key press.
pub fn key_action(c: char) -> (a: KeyAction)
    ensures
        a == spec_key_action(c),
{
    match c {
        'q' => KeyAction::Quit,
        'h' => KeyAction::Move(MoveCommand::Left),
        'j' => KeyAction::Move(MoveCommand::Down),
        'k' => KeyAction::Move(MoveCommand::Up),
        'l' => KeyAction::Move(MoveCommand::Right),
        _ => KeyAction::Ignore,
    }
}

} // verus!
