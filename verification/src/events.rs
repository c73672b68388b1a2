//! The event-loop dispatch: a two-state machine, RUNNING and STOPPED, that
//! turns each key event into a quit, a bounded movement of the entity, or
//! nothing. Polling the terminal and performing paint operations stay with
//! the caller; this module holds every decision the loop makes.

use crate::rect::apply_command;
use crate::rect::Command;
use crate::rect::Rectangle;
use vstd::prelude::*;

verus! {

/// A key event, as the loop distinguishes them.
#[derive(Clone, Copy, PartialEq, Eq, Structural, Debug)]
pub enum Key {
    Esc,
    Char(char),
    Up,
    Down,
    Left,
    Right,
    /// Any other key: ignored.
    Other,
}

/// The loop's state: it iterates while `Running` and exits on `Stopped`.
#[derive(Clone, Copy, PartialEq, Eq, Structural, Debug)]
pub enum LoopState {
    Running,
    Stopped,
}

/// The key quits the loop: Escape, `Q`, or `q`.
pub open spec fn is_quit_key(k: Key) -> bool {
    k == Key::Esc || k == (Key::Char('Q')) || k == (Key::Char('q'))
}

/// The movement command an arrow key dispatches to, if any. Quit keys and
/// ignored keys map to `None`.
pub open spec fn key_command(k: Key) -> Option<Command> {
    match k {
        Key::Up => Some(Command::Up),
        Key::Down => Some(Command::Down),
        Key::Left => Some(Command::Left),
        Key::Right => Some(Command::Right),
        _ => None,
    }
}

/// One dispatch step of the running loop. A quit key stops the loop and
/// leaves the entity alone, whatever came before; an arrow key applies the
/// bounded movement it names; any other key changes nothing.
pub fn step(rect: &mut Rectangle, key: Key, width: u16, height: u16) -> (state: LoopState)
    requires
        width >= 1,
        height >= 1,
    ensures
        state == (if is_quit_key(key) {
            LoopState::Stopped
        } else {
            LoopState::Running
        }),
        *final(rect) == (match key_command(key) {
            Some(c) => apply_command(*old(rect), c, width, height),
            None => *old(rect),
        }),
{
    match key {
        Key::Esc => LoopState::Stopped,
        Key::Char('Q') => LoopState::Stopped,
        Key::Char('q') => LoopState::Stopped,
        Key::Up => {
            rect.move_up();
            LoopState::Running
        },
        Key::Down => {
            rect.move_down(height);
            LoopState::Running
        },
        Key::Left => {
            rect.move_left();
            LoopState::Running
        },
        Key::Right => {
            rect.move_right(width);
            LoopState::Running
        },
        _ => LoopState::Running,
    }
}

} // verus!
