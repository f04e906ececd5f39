//! The state of the minimal terminal window: log text, input line and the
//! chosen port. Messages do not change it yet.
use vstd::prelude::*;
use crate::text::opt_text;

verus! {

/// What the window tells the terminal.
#[derive(Clone, Debug)]
pub enum Message {
    NoOp,
}

/// The terminal's state.
pub struct App {
    pub terminal: String,
    pub input: String,
    /// Whether the application holds an open port.
    pub port_open: bool,
    pub selected_port: Option<String>,
}

impl App {
    /// Empty log and input, no port open, none chosen.
    pub fn new() -> (r: App)
        ensures
            r.terminal@ == Seq::<char>::empty(),
            r.input@ == Seq::<char>::empty(),
            !r.port_open,
            r.selected_port is None,
    {
        App { terminal: String::new(), input: String::new(), port_open: false, selected_port: None }
    }

    /// Applies a message; none changes the state.
    pub fn update(&mut self, message: Message)
        ensures
            final(self).terminal@ == old(self).terminal@,
            final(self).input@ == old(self).input@,
            final(self).port_open == old(self).port_open,
            opt_text(final(self).selected_port) == opt_text(old(self).selected_port),
    {
        match message {
            Message::NoOp => {},
        }
    }
}

} // verus!
