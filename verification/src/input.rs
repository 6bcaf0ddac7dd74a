//! Input handling: a pure mapping from a received key event to a control
//! action. The event loop alone interprets the action; handling stays free
//! of state and side effects so new actions can be added without touching
//! the loop's structure.

use vstd::prelude::*;

verus! {

/// A key event, reduced to what the dashboard reacts to.
#[derive(Clone, Copy, Debug, PartialEq, Eq)]
pub enum Key {
    Char(char),
    Other,
}

/// The control action a key maps to.
#[derive(Clone, Copy, Debug, PartialEq, Eq)]
pub enum Action {
    Quit,
    NoOp,
}

/// The one key that requests shutdown.
pub open spec fn is_quit_key(key: Key) -> bool {
    key == Key::Char('q')
}

/// Whether a polled input, if any arrived, requests shutdown.
pub open spec fn quit_requested(input: Option<Key>) -> bool {
    match input {
        Some(key) => is_quit_key(key),
        None => false,
    }
}

/// Maps one key event to its control action: `q` quits, everything else is
/// ignored.
pub fn action_for(key: Key) -> (action: Action)
    ensures
        action is Quit <==> is_quit_key(key),
{
    match key {
        Key::Char(c) => if c == 'q' {
            Action::Quit
        } else {
            Action::NoOp
        },
        Key::Other => Action::NoOp,
    }
}

} // verus!
