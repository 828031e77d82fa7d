use vstd::prelude::*;

use crate::session::{
    enter_edit_spec, next_row_spec, previous_row_spec, SessionView, TerminalInteractor,
};

verus! {

/// A key, as far as the session tells keys apart.
#[derive(Debug, Clone, Copy, PartialEq, Eq, Structural)]
pub enum Key {
    Char(char),
    Esc,
    Up,
    Down,
    Other,
}

/// One input event: a key with whether it was pressed (rather than released
/// or repeated), or anything else.
#[derive(Debug, Clone, Copy, PartialEq, Eq, Structural)]
pub enum InputEvent {
    Key { code: Key, pressed: bool },
    Other,
}

/// What an input event asks of the session.
#[derive(Debug, Clone, Copy, PartialEq, Eq, Structural)]
pub enum Action {
    Quit,
    EnterEdit,
    NextRow,
    PreviousRow,
    Ignore,
}

/// The key bindings: `q` or escape quit, `l` enters edit mode, `j` or down
/// moves down, `k` or up moves up; only presses count.
pub open spec fn action_of(e: InputEvent) -> Action {
    match e {
        InputEvent::Key { code, pressed: true } => match code {
            Key::Char('q') | Key::Esc => Action::Quit,
            Key::Char('l') => Action::EnterEdit,
            Key::Char('j') | Key::Down => Action::NextRow,
            Key::Char('k') | Key::Up => Action::PreviousRow,
            _ => Action::Ignore,
        },
        _ => Action::Ignore,
    }
}

/// The session after an action.
pub open spec fn apply_action(s: SessionView, a: Action) -> SessionView {
    match a {
        Action::EnterEdit => enter_edit_spec(s),
        Action::NextRow => next_row_spec(s),
        Action::PreviousRow => previous_row_spec(s),
        _ => s,
    }
}

/// What an input event asks of the session.
pub fn action_for(e: InputEvent) -> (r: Action)
    ensures
        r == action_of(e),
{
    match e {
        InputEvent::Key { code, pressed } => {
            if !pressed {
                return Action::Ignore;
            }
            match code {
                Key::Char('q') | Key::Esc => Action::Quit,
                Key::Char('l') => Action::EnterEdit,
                Key::Char('j') | Key::Down => Action::NextRow,
                Key::Char('k') | Key::Up => Action::PreviousRow,
                _ => Action::Ignore,
            }
        },
        InputEvent::Other => Action::Ignore,
    }
}

/// Dispatches input events to a session.
pub struct TerminalController {
    input_port: TerminalInteractor,
}

impl View for TerminalController {
    type V = SessionView;

    closed spec fn view(&self) -> SessionView {
        self.input_port@
    }
}

impl TerminalController {
    /// A controller over a session.
    pub fn new(input_port: TerminalInteractor) -> (r: TerminalController)
        ensures
            r@ == input_port@,
    {
        TerminalController { input_port }
    }

    /// The session, for drawing.
    pub fn input_port(&self) -> (r: &TerminalInteractor)
        ensures
            r@ == self@,
    {
        &self.input_port
    }

    /// Handles one event; returns whether it asks to quit.
    pub fn handle_event(&mut self, event: InputEvent) -> (quit: bool)
        ensures
            quit == (action_of(event) == Action::Quit),
            final(self)@ == apply_action(old(self)@, action_of(event)),
    {
        match action_for(event) {
            Action::Quit => return true,
            Action::EnterEdit => self.input_port.enter_edit_mode(),
            Action::NextRow => self.input_port.next_row(),
            Action::PreviousRow => self.input_port.previous_row(),
            Action::Ignore => {},
        }
        false
    }
}

} // verus!
