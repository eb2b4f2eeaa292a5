//! The session's decisions: what each input event leads to.
//!
//! The caller reads input, performs the effects returned, and asks again
//! while the session is running.
use vstd::prelude::*;

use crate::command::{classify, command_of, Command};
use crate::handlers::unknown_command;

verus! {

/// The two states of a session.
#[derive(Clone, Copy, Debug, PartialEq, Eq)]
pub enum SessionState {
    Running,
    Terminated,
}

/// The outcome of one attempt to read a line.
#[derive(Clone, Debug, PartialEq, Eq)]
pub enum InputEvent {
    /// A line was read.
    Line(String),
    /// The user interrupted input.
    Interrupted,
    /// The input stream ended.
    Eof,
    /// Reading failed; the line editor's diagnostic.
    Failed(String),
}

/// Work the caller performs, in the order given.
#[derive(Clone, Debug, PartialEq, Eq)]
pub enum Effect {
    /// Append the line to the input history.
    RecordHistory(String),
    /// Show the help text.
    ShowHelp,
    /// Fetch the tasks and list them.
    FetchItems,
    /// Fetch the projects and list them.
    FetchProjects,
    /// Print one line.
    Print(String),
    /// Write the whole history to the history file.
    SaveHistory,
}

/// The interactive session.
#[derive(Debug)]
pub struct Todr {
    /// Whether the session still reads input.
    pub state: SessionState,
}

/// What a line leads to after it has been recorded.
pub open spec fn line_effect_is(e: Effect, line: Seq<char>) -> bool {
    match command_of(line) {
        Command::Help => e == Effect::ShowHelp,
        Command::Items => e == Effect::FetchItems,
        Command::Projects => e == Effect::FetchProjects,
        Command::Quit => e == Effect::SaveHistory,
        Command::Unknown => e is Print && e->Print_0@ == "Unknown Command: "@ + line,
    }
}

/// The state after a line.
pub open spec fn state_after_line(line: Seq<char>) -> SessionState {
    if command_of(line) == Command::Quit {
        SessionState::Terminated
    } else {
        SessionState::Running
    }
}

/// The acknowledgment printed when input ends without a command.
pub open spec fn closing_message(ev: InputEvent) -> Seq<char> {
    match ev {
        InputEvent::Interrupted => "CTRL-C"@,
        InputEvent::Eof => "CTRL-D"@,
        InputEvent::Failed(m) => "Error: "@ + m@,
        InputEvent::Line(_) => Seq::empty(),
    }
}

impl Todr {
    /// A session that is running.
    pub fn new() -> (r: Self)
        ensures
            r.state == SessionState::Running,
    {
        Todr { state: SessionState::Running }
    }

    /// Whether the session still reads input.
    pub fn is_running(&self) -> (r: bool)
        ensures
            r == (self.state == SessionState::Running),
    {
        match self.state {
            SessionState::Running => true,
            SessionState::Terminated => false,
        }
    }

    /// Handles one line of a running session: records it, then runs the
    /// command that the whole line names. Quitting saves the history and
    /// ends the session; every other line keeps it running.
    pub fn process_line(&mut self, line: String) -> (r: Vec<Effect>)
        requires
            old(self).state == SessionState::Running,
        ensures
            r@.len() == 2,
            r@[0] == Effect::RecordHistory(line),
            line_effect_is(r@[1], line@),
            final(self).state == state_after_line(line@),
    {
        let command = classify(line.as_str());
        let next = match command {
            Command::Help => Effect::ShowHelp,
            Command::Items => Effect::FetchItems,
            Command::Projects => Effect::FetchProjects,
            Command::Quit => {
                self.state = SessionState::Terminated;
                Effect::SaveHistory
            },
            Command::Unknown => Effect::Print(unknown_command(line.as_str())),
        };
        let mut r: Vec<Effect> = Vec::new();
        r.push(Effect::RecordHistory(line));
        r.push(next);
        r
    }

    /// Handles one input event. A running session handles a line as
    /// `process_line` does; an interrupt, the end of input or a read failure
    /// prints an acknowledgment, saves the history and ends the session. A
    /// session that has ended does nothing.
    pub fn process_event(&mut self, event: InputEvent) -> (r: Vec<Effect>)
        ensures
            old(self).state == SessionState::Terminated ==> r@.len() == 0 && final(self).state
                == SessionState::Terminated,
            old(self).state == SessionState::Running ==> match event {
                InputEvent::Line(line) => {
                    &&& r@.len() == 2
                    &&& r@[0] == Effect::RecordHistory(line)
                    &&& line_effect_is(r@[1], line@)
                    &&& final(self).state == state_after_line(line@)
                },
                _ => {
                    &&& r@.len() == 2
                    &&& r@[0] is Print && r@[0]->Print_0@ == closing_message(event)
                    &&& r@[1] == Effect::SaveHistory
                    &&& final(self).state == SessionState::Terminated
                },
            },
    {
        if !self.is_running() {
            return Vec::new();
        }
        let message = match event {
            InputEvent::Line(line) => {
                return self.process_line(line);
            },
            InputEvent::Interrupted => String::from_str("CTRL-C"),
            InputEvent::Eof => String::from_str("CTRL-D"),
            InputEvent::Failed(m) => {
                let mut s = String::from_str("Error: ");
                s.append(m.as_str());
                s
            },
        };
        self.state = SessionState::Terminated;
        let mut r: Vec<Effect> = Vec::new();
        r.push(Effect::Print(message));
        r.push(Effect::SaveHistory);
        r
    }
}

} // verus!
