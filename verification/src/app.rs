//! The dashboard's state and the actions that change it.

use vstd::prelude::*;
use vstd::string::*;

use crate::about::AboutTab;
use crate::editor::InputBuffer;
use crate::key::{Event, Key};
use crate::mode::{InputMode, Mode};
use crate::state::AppState;
use crate::tabs::MenuTabs;
use crate::text::{insert_char, remove_char};

verus! {

/// Settings handed to the dashboard when it is built. The state machine
/// carries them along and never changes them.
#[derive(Debug, Clone)]
pub struct Preferences {
    /// Empty until the settings have been filled in.
    pub initialized: String,
    pub show_mqtt: bool,
}

impl Default for Preferences {
    fn default() -> (prefs: Self)
        ensures
            prefs.initialized@ == Seq::<char>::empty(),
            !prefs.show_mqtt,
    {
        Preferences { initialized: String::new(), show_mqtt: false }
    }
}

/// How the dashboard reaches its device.
#[derive(Debug, Clone)]
pub enum Connection {
    /// A host name and a port.
    TCP(String, u16),
    /// The path of a serial device.
    Serial(String),
    /// No device is set.
    Disconnected,
}

impl Default for Connection {
    fn default() -> (connection: Self)
        ensures
            connection is Disconnected,
    {
        Connection::Disconnected
    }
}

/// The dashboard: run mode, selected tab, the tabs' own states, input mode
/// and the input editor (`input` with `cursor_position`, counted in
/// characters).
#[derive(Debug, Clone)]
pub struct App {
    pub mode: Mode,
    pub tab: MenuTabs,
    pub about_tab: AboutTab,
    pub input_mode: InputMode,
    pub cursor_position: usize,
    pub input: String,
    pub prefs: Preferences,
}

impl View for App {
    type V = AppState;

    open spec fn view(&self) -> AppState {
        AppState {
            mode: self.mode,
            tab: self.tab,
            about_row: self.about_tab@,
            input_mode: self.input_mode,
            buffer: self.buffer(),
        }
    }
}

impl Default for App {
    fn default() -> (app: Self)
        ensures
            app@ == AppState::initial(),
            app.wf(),
            app.prefs.initialized@ == Seq::<char>::empty(),
            !app.prefs.show_mqtt,
    {
        App {
            mode: Mode::default(),
            tab: MenuTabs::default(),
            about_tab: AboutTab::default(),
            input_mode: InputMode::default(),
            cursor_position: 0,
            input: String::new(),
            prefs: Preferences::default(),
        }
    }
}

impl App {
    /// The input editor: the text and the cursor in it.
    pub open spec fn buffer(&self) -> InputBuffer {
        InputBuffer { text: self.input@, cursor: self.cursor_position as nat }
    }

    /// The cursor stands within the input text.
    pub open spec fn wf(&self) -> bool {
        self.cursor_position <= self.input@.len()
    }

    /// Whether the cursor stands within the input text.
    pub fn is_well_formed(&self) -> (ok: bool)
        ensures
            ok == self.wf(),
    {
        self.cursor_position <= self.input.as_str().unicode_len()
    }

    /// Whether the event loop goes on: in every run mode but `Exiting`.
    pub fn is_running(&self) -> (running: bool)
        ensures
            running == self@.is_running(),
            running == (self.mode != Mode::Exiting),
    {
        self.mode != Mode::Exiting
    }

    /// Leaves the selected tab; the tab says what that means for the run
    /// mode.
    pub fn escape(&mut self)
        ensures
            final(self)@ == old(self)@.escape(),
            final(self).prefs == old(self).prefs,
    {
        self.mode = match self.tab {
            MenuTabs::About => self.about_tab.escape(),
        }
    }

    /// Handles function key `num`: F12 sets the run mode to `RestartComms`,
    /// whatever tab is selected, and then the selected tab gets the key. No
    /// other function key changes the run mode.
    pub fn function_key(&mut self, num: u8)
        ensures
            final(self)@ == old(self)@.function_key(num),
            final(self).mode == if num == 12 {
                Mode::RestartComms
            } else {
                old(self).mode
            },
            final(self).prefs == old(self).prefs,
    {
        if num == 12 {
            self.mode = Mode::RestartComms;
        }
        match self.tab {
            MenuTabs::About => self.about_tab.function_key(num),
        }
    }

    /// Selects the tab to the left; stays on the first tab.
    pub fn prev_tab(&mut self)
        ensures
            final(self)@ == old(self)@.prev_tab(),
            final(self).prefs == old(self).prefs,
    {
        self.tab = self.tab.prev();
    }

    /// Selects the tab to the right; stays on the last tab.
    pub fn next_tab(&mut self)
        ensures
            final(self)@ == old(self)@.next_tab(),
            final(self).prefs == old(self).prefs,
    {
        self.tab = self.tab.next();
    }

    /// The selected tab's horizontal action to the left.
    pub fn left(&mut self)
        ensures
            final(self)@ == old(self)@.left(),
            final(self).prefs == old(self).prefs,
    {
        match self.tab {
            MenuTabs::About => {},
        }
    }

    /// The selected tab's horizontal action to the right.
    pub fn right(&mut self)
        ensures
            final(self)@ == old(self)@.right(),
            final(self).prefs == old(self).prefs,
    {
        match self.tab {
            MenuTabs::About => {},
        }
    }

    /// Scrolls the selected tab one row up.
    pub fn prev(&mut self)
        ensures
            final(self)@ == old(self)@.prev(),
            final(self).prefs == old(self).prefs,
    {
        match self.tab {
            MenuTabs::About => self.about_tab.prev_row(),
        }
    }

    /// Scrolls the selected tab one page up.
    pub fn prev_page(&mut self)
        ensures
            final(self)@ == old(self)@.prev_page(),
            final(self).prefs == old(self).prefs,
    {
        match self.tab {
            MenuTabs::About => self.about_tab.prev_page(),
        }
    }

    /// Scrolls the selected tab one row down.
    pub fn next(&mut self)
        ensures
            final(self)@ == old(self)@.next(),
            final(self).prefs == old(self).prefs,
    {
        match self.tab {
            MenuTabs::About => self.about_tab.next_row(),
        }
    }

    /// Scrolls the selected tab one page down.
    pub fn next_page(&mut self)
        ensures
            final(self)@ == old(self)@.next_page(),
            final(self).prefs == old(self).prefs,
    {
        match self.tab {
            MenuTabs::About => self.about_tab.next_page(),
        }
    }

    /// Opens the editor from `Normal` input mode. From `Editing` it submits
    /// the text: the editor is emptied, the cursor goes to 0 and the input
    /// mode returns to `Normal`.
    pub fn enter_key_messages(&mut self)
        ensures
            final(self)@ == old(self)@.enter_key(),
            old(self).wf() ==> final(self).wf(),
            final(self).prefs == old(self).prefs,
    {
        match self.input_mode {
            InputMode::Normal => {
                self.input_mode = InputMode::Editing;
            },
            InputMode::Editing => {
                self.input = String::new();
                self.cursor_position = 0;
                self.input_mode = InputMode::Normal;
            },
        }
    }

    /// The primary action of the selected tab. On the About tab it opens
    /// the editor or submits its text.
    pub fn enter_key(&mut self)
        ensures
            final(self)@ == old(self)@.enter_key(),
            old(self).wf() ==> final(self).wf(),
            final(self).prefs == old(self).prefs,
    {
        match self.tab {
            MenuTabs::About => {
                self.about_tab.enter_key();
                self.enter_key_messages();
            },
        }
    }

    /// `new_cursor_pos`, or the end of the input where it lies behind it.
    pub fn clamp_cursor(&self, new_cursor_pos: usize) -> (pos: usize)
        ensures
            pos == self.buffer().clamp(new_cursor_pos as nat),
            pos <= self.input@.len() <= usize::MAX,
    {
        let len = self.input.as_str().unicode_len();
        if new_cursor_pos > len {
            len
        } else {
            new_cursor_pos
        }
    }

    /// Moves the cursor one character to the left; it stays at 0.
    pub fn move_cursor_left(&mut self)
        ensures
            final(self).buffer() == old(self).buffer().left(),
            final(self)@ == old(self)@.with_buffer(old(self).buffer().left()),
            final(self).wf(),
            final(self).prefs == old(self).prefs,
    {
        let cursor_moved_left = self.cursor_position.saturating_sub(1);
        self.cursor_position = self.clamp_cursor(cursor_moved_left);
    }

    /// Moves the cursor one character to the right; it stays at the end of
    /// the input.
    pub fn move_cursor_right(&mut self)
        ensures
            final(self).buffer() == old(self).buffer().right(),
            final(self)@ == old(self)@.with_buffer(old(self).buffer().right()),
            final(self).wf(),
            final(self).prefs == old(self).prefs,
    {
        let cursor_moved_right = self.cursor_position.saturating_add(1);
        self.cursor_position = self.clamp_cursor(cursor_moved_right);
    }

    /// Puts `new_char` into the input at the cursor and moves the cursor
    /// behind it.
    pub fn enter_char(&mut self, new_char: char)
        requires
            old(self).wf(),
        ensures
            final(self).buffer() == old(self).buffer().insert(new_char),
            final(self)@ == old(self)@.with_buffer(old(self).buffer().insert(new_char)),
            final(self).wf(),
            final(self).prefs == old(self).prefs,
    {
        self.input = insert_char(self.input.as_str(), self.cursor_position, new_char);
        self.move_cursor_right();
    }

    /// Deletes the character left of the cursor and moves the cursor onto
    /// its place. With the cursor at 0 nothing changes.
    pub fn delete_char(&mut self)
        ensures
            final(self).buffer() == old(self).buffer().delete(),
            final(self)@ == old(self)@.with_buffer(old(self).buffer().delete()),
            final(self).wf(),
            final(self).prefs == old(self).prefs,
    {
        let is_not_cursor_leftmost = self.cursor_position != 0;
        if is_not_cursor_leftmost {
            let current_index = self.cursor_position;
            if current_index <= self.input.as_str().unicode_len() {
                self.input = remove_char(self.input.as_str(), current_index - 1);
            }
            self.move_cursor_left();
        }
    }

    /// Dispatches a key press by the table of the input mode.
    pub fn handle_key(&mut self, key: Key)
        requires
            old(self).wf(),
        ensures
            final(self)@ == old(self)@.on_key(key),
            final(self).wf(),
            final(self).prefs == old(self).prefs,
    {
        match self.input_mode {
            InputMode::Normal => match key {
                Key::Char('q') | Key::Esc => self.escape(),
                Key::Char('h') | Key::Left => self.left(),
                Key::Char('l') | Key::Right => self.right(),
                Key::Char('k') | Key::Up => self.prev(),
                Key::Char('j') | Key::Down => self.next(),
                Key::PageUp => self.prev_page(),
                Key::PageDown => self.next_page(),
                Key::Enter => self.enter_key(),
                Key::BackTab => self.prev_tab(),
                Key::Tab => self.next_tab(),
                Key::F(n) => self.function_key(n),
                _ => {},
            },
            InputMode::Editing => match key {
                Key::Enter => self.enter_key(),
                Key::Char(to_insert) => self.enter_char(to_insert),
                Key::Backspace => {
                    self.delete_char();
                },
                Key::Left => {
                    self.move_cursor_left();
                },
                Key::Right => {
                    self.move_cursor_right();
                },
                Key::Esc => {
                    self.input_mode = InputMode::Normal;
                },
                _ => {},
            },
        }
    }

    /// Takes one event of the stream. Key presses are dispatched; resize,
    /// tick and render events leave the state as it is.
    pub fn handle_event(&mut self, event: Event)
        requires
            old(self).wf(),
        ensures
            final(self)@ == old(self)@.on_event(event),
            final(self).wf(),
            final(self).prefs == old(self).prefs,
    {
        match event {
            Event::Key(key) => self.handle_key(key),
            _ => {},
        }
    }

    /// Runs the event loop over `events`: as long as the dashboard is
    /// running, the selected tab's per-frame hook runs and the next event is
    /// dispatched. Returns how many events were taken; the loop ends early
    /// only when the run mode has become `Exiting`.
    pub fn run(&mut self, events: &Vec<Event>) -> (taken: usize)
        requires
            old(self).wf(),
        ensures
            final(self)@ == old(self)@.run(events@),
            taken == old(self)@.consumed(events@),
            taken <= events@.len(),
            taken < events@.len() ==> !final(self)@.is_running(),
            final(self).wf(),
            final(self).prefs == old(self).prefs,
    {
        let ghost start = self@;
        let mut taken: usize = 0;
        proof {
            assert(events@.skip(0) =~= events@);
        }
        while taken < events.len() && self.is_running()
            invariant
                taken <= events@.len(),
                self.wf(),
                self.prefs == old(self).prefs,
                start == old(self)@,
                self@.run(events@.skip(taken as int)) == start.run(events@),
                taken + self@.consumed(events@.skip(taken as int)) == start.consumed(events@),
            decreases events@.len() - taken,
        {
            proof {
                let rest = events@.skip(taken as int);
                assert(rest[0] == events@[taken as int]);
                assert(rest.drop_first() =~= events@.skip(taken + 1));
            }
            match self.tab {
                MenuTabs::About => self.about_tab.run(),
            }
            self.handle_event(events[taken]);
            taken = taken + 1;
        }
        taken
    }
}

} // verus!
