use vstd::prelude::*;

use crate::editor::{Action, Direction, Mode};

verus! {

/// The named keys that the resolvers consume. Every other key arrives as
/// `Other` and resolves to no action.
#[derive(Clone, Copy, Debug)]
pub enum Key {
    Char(char),
    Esc,
    Enter,
    Backspace,
    Other,
}

/// A raw key event: the key plus whether the control modifier was held.
#[derive(Clone, Copy, Debug)]
pub struct KeyEvent {
    pub key: Key,
    pub ctrl: bool,
}

/// The `Normal`-mode resolution table: `h j k l` move the cursor, `i` and
/// `a` enter `Insert` (with `a` nudging right first), `O`/`o` open a line
/// above/below, `D` deletes the row, `q` quits; everything else is ignored.
pub open spec fn spec_resolve_normal(event: KeyEvent) -> Option<Action> {
    match event.key {
        Key::Char(c) => if c == 'j' {
            Some(Action::Move(Direction::Down))
        } else if c == 'k' {
            Some(Action::Move(Direction::Up))
        } else if c == 'h' {
            Some(Action::Move(Direction::Left))
        } else if c == 'l' {
            Some(Action::Move(Direction::Right))
        } else if c == 'i' {
            Some(Action::Change(Mode::Insert, None))
        } else if c == 'a' {
            Some(Action::Change(Mode::Insert, Some(Direction::Right)))
        } else if c == 'O' {
            Some(Action::Line(Direction::Up))
        } else if c == 'o' {
            Some(Action::Line(Direction::Down))
        } else if c == 'q' {
            Some(Action::Quit)
        } else if c == 'D' {
            Some(Action::DeleteLine)
        } else {
            None
        },
        _ => None,
    }
}

/// The `Insert`-mode resolution table: `Esc` (or control-`[`) steps back to
/// `Normal` with a leftward nudge, `Enter` breaks the line and descends,
/// `Backspace` deletes, and any other character is inserted literally.
pub open spec fn spec_resolve_insert(event: KeyEvent) -> Option<Action> {
    match event.key {
        Key::Esc => Some(Action::Change(Mode::Normal, Some(Direction::Left))),
        Key::Char(c) => if c == '[' && event.ctrl {
            Some(Action::Change(Mode::Normal, Some(Direction::Left)))
        } else {
            Some(Action::Input(c))
        },
        Key::Enter => Some(Action::Line(Direction::Down)),
        Key::Backspace => Some(Action::Delete),
        Key::Other => None,
    }
}

/// The resolution table for the given mode.
pub open spec fn spec_resolve(mode: Mode, event: KeyEvent) -> Option<Action> {
    match mode {
        Mode::Normal => spec_resolve_normal(event),
        Mode::Insert => spec_resolve_insert(event),
    }
}

/// The `Normal`-mode resolver.
pub struct Normal;

/// The `Insert`-mode resolver.
pub struct Insert;

impl Normal {
    /// Resolve a raw key event against the `Normal` table. Never produces
    /// `Action::Input`.
    pub fn handle(event: KeyEvent) -> (r: Option<Action>)
        ensures
            r == spec_resolve_normal(event),
            r matches Some(a) ==> !(a is Input),
    {
        match event.key {
            Key::Char(c) => match c {
                'j' => Some(Action::Move(Direction::Down)),
                'k' => Some(Action::Move(Direction::Up)),
                'h' => Some(Action::Move(Direction::Left)),
                'l' => Some(Action::Move(Direction::Right)),
                'i' => Some(Action::Change(Mode::Insert, None)),
                'a' => Some(Action::Change(Mode::Insert, Some(Direction::Right))),
                'O' => Some(Action::Line(Direction::Up)),
                'o' => Some(Action::Line(Direction::Down)),
                'q' => Some(Action::Quit),
                'D' => Some(Action::DeleteLine),
                _ => None,
            },
            _ => None,
        }
    }
}

impl Insert {
    /// Resolve a raw key event against the `Insert` table.
    pub fn handle(event: KeyEvent) -> (r: Option<Action>)
        ensures
            r == spec_resolve_insert(event),
    {
        match event.key {
            Key::Esc => Some(Action::Change(Mode::Normal, Some(Direction::Left))),
            Key::Char(c) => if c == '[' && event.ctrl {
                Some(Action::Change(Mode::Normal, Some(Direction::Left)))
            } else {
                Some(Action::Input(c))
            },
            Key::Enter => Some(Action::Line(Direction::Down)),
            Key::Backspace => Some(Action::Delete),
            Key::Other => None,
        }
    }
}

} // verus!
