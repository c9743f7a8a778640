//! The lines that the dashboard writes to its event log.

use vstd::prelude::*;
use vstd::string::*;

use crate::app::App;
use crate::key::{Event, Key};
use crate::mode::InputMode;
use crate::state::AppState;
use crate::tabs::MenuTabs;

verus! {

/// A line of the event log.
#[derive(Debug, Clone, Copy, PartialEq, Eq, Structural)]
pub enum LogLine {
    /// The selected tab got its primary action.
    EnterKey,
    /// A text that is not empty was submitted.
    TextWasInput,
    /// The About tab got F1.
    F1,
    /// The About tab was asked for its next page.
    NextPage,
}

impl LogLine {
    /// The words of the line.
    pub open spec fn message(self) -> Seq<char> {
        match self {
            LogLine::EnterKey => "enter key"@,
            LogLine::TextWasInput => "Text was input"@,
            LogLine::F1 => "F1"@,
            LogLine::NextPage => "next page"@,
        }
    }

    /// The words of the line.
    pub fn text(self) -> (text: String)
        ensures
            text@ == self.message(),
    {
        match self {
            LogLine::EnterKey => String::from_str("enter key"),
            LogLine::TextWasInput => String::from_str("Text was input"),
            LogLine::F1 => String::from_str("F1"),
            LogLine::NextPage => String::from_str("next page"),
        }
    }
}

impl AppState {
    /// The lines that the primary action writes: one of the selected tab,
    /// and behind it one for the text where the action submits a text that
    /// is not empty.
    pub open spec fn enter_key_lines(self) -> Seq<LogLine> {
        if self.input_mode == InputMode::Editing && self.buffer.text.len() > 0 {
            seq![LogLine::EnterKey, LogLine::TextWasInput]
        } else {
            seq![LogLine::EnterKey]
        }
    }

    /// The lines that a key press writes, in the order in which they are
    /// written. In `Normal` input mode Enter, F1 and PageDown write;
    /// in `Editing` input mode only Enter does.
    pub open spec fn lines_for_key(self, key: Key) -> Seq<LogLine> {
        match self.input_mode {
            InputMode::Normal => match key {
                Key::Enter => self.enter_key_lines(),
                Key::F(n) => match self.tab {
                    MenuTabs::About => if n == 1 {
                        seq![LogLine::F1]
                    } else {
                        Seq::empty()
                    },
                },
                Key::PageDown => match self.tab {
                    MenuTabs::About => seq![LogLine::NextPage],
                },
                _ => Seq::empty(),
            },
            InputMode::Editing => match key {
                Key::Enter => self.enter_key_lines(),
                _ => Seq::empty(),
            },
        }
    }

    /// The lines that an event writes. Only key presses write any.
    pub open spec fn lines_for_event(self, event: Event) -> Seq<LogLine> {
        match event {
            Event::Key(key) => self.lines_for_key(key),
            _ => Seq::empty(),
        }
    }
}

impl App {
    /// The lines that the primary action writes in this state.
    pub fn enter_key_lines(&self) -> (lines: Vec<LogLine>)
        ensures
            lines@ == self@.enter_key_lines(),
    {
        let mut lines: Vec<LogLine> = Vec::new();
        match self.tab {
            MenuTabs::About => lines.push(LogLine::EnterKey),
        }
        match self.input_mode {
            InputMode::Normal => {},
            InputMode::Editing => {
                if !self.input.as_str().is_empty() {
                    lines.push(LogLine::TextWasInput);
                }
            },
        }
        assert(lines@ =~= self@.enter_key_lines());
        lines
    }

    /// The lines that `key` writes to the event log when it is pressed in
    /// this state, in the order in which they are written.
    pub fn lines_for_key(&self, key: Key) -> (lines: Vec<LogLine>)
        ensures
            lines@ == self@.lines_for_key(key),
    {
        let mut lines: Vec<LogLine> = Vec::new();
        match self.input_mode {
            InputMode::Normal => match key {
                Key::Enter => {
                    lines = self.enter_key_lines();
                },
                Key::F(n) => match self.tab {
                    MenuTabs::About => {
                        if n == 1 {
                            lines.push(LogLine::F1);
                        }
                    },
                },
                Key::PageDown => match self.tab {
                    MenuTabs::About => lines.push(LogLine::NextPage),
                },
                _ => {},
            },
            InputMode::Editing => match key {
                Key::Enter => {
                    lines = self.enter_key_lines();
                },
                _ => {},
            },
        }
        assert(lines@ =~= self@.lines_for_key(key));
        lines
    }

    /// The lines that `event` writes to the event log when it arrives in
    /// this state.
    pub fn lines_for_event(&self, event: Event) -> (lines: Vec<LogLine>)
        ensures
            lines@ == self@.lines_for_event(event),
    {
        match event {
            Event::Key(key) => self.lines_for_key(key),
            _ => Vec::new(),
        }
    }
}

} // verus!
