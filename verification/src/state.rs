//! The mathematical model of the dashboard's state machine.
//!
//! [`AppState`] is what the executable [`crate::app::App`] stands for, and
//! the functions here say what each action and each key press does to it.

use vstd::prelude::*;

use crate::about::AboutTab;
use crate::editor::InputBuffer;
use crate::key::{Event, Key};
use crate::mode::{InputMode, Mode};
use crate::tabs::MenuTabs;

verus! {

/// The state of the dashboard: the run mode, the selected tab, the row the
/// About tab is scrolled to, the input mode and the input editor.
pub struct AppState {
    pub mode: Mode,
    pub tab: MenuTabs,
    pub about_row: nat,
    pub input_mode: InputMode,
    pub buffer: InputBuffer,
}

impl AppState {
    /// The state a dashboard starts in.
    pub open spec fn initial() -> AppState {
        AppState {
            mode: Mode::Running,
            tab: MenuTabs::About,
            about_row: 0,
            input_mode: InputMode::Normal,
            buffer: InputBuffer::empty(),
        }
    }

    /// The cursor of the input editor stands within its text.
    pub open spec fn wf(self) -> bool {
        self.buffer.wf()
    }

    /// The event loop goes on: the run mode is not `Exiting`.
    pub open spec fn is_running(self) -> bool {
        self.mode != Mode::Exiting
    }

    /// Leaving the selected tab. On the About tab the dashboard exits.
    pub open spec fn escape(self) -> AppState {
        match self.tab {
            MenuTabs::About => AppState { mode: Mode::Exiting, ..self },
        }
    }

    /// Function key `num`: F12 asks for a restart of the connections, and
    /// the selected tab binds no function key of its own.
    pub open spec fn function_key(self, num: u8) -> AppState {
        if num == 12 {
            AppState { mode: Mode::RestartComms, ..self }
        } else {
            self
        }
    }

    /// The selection moved one tab to the left.
    pub open spec fn prev_tab(self) -> AppState {
        AppState { tab: self.tab.predecessor(), ..self }
    }

    /// The selection moved one tab to the right.
    pub open spec fn next_tab(self) -> AppState {
        AppState { tab: self.tab.successor(), ..self }
    }

    /// The horizontal action to the left. The About tab has none.
    pub open spec fn left(self) -> AppState {
        match self.tab {
            MenuTabs::About => self,
        }
    }

    /// The horizontal action to the right. The About tab has none.
    pub open spec fn right(self) -> AppState {
        match self.tab {
            MenuTabs::About => self,
        }
    }

    /// The selected tab scrolled one page up. The About tab has one page.
    pub open spec fn prev_page(self) -> AppState {
        match self.tab {
            MenuTabs::About => self,
        }
    }

    /// The selected tab scrolled one page down. The About tab has one page.
    pub open spec fn next_page(self) -> AppState {
        match self.tab {
            MenuTabs::About => self,
        }
    }

    /// The selected tab scrolled one row up.
    pub open spec fn prev(self) -> AppState {
        match self.tab {
            MenuTabs::About => AppState { about_row: AboutTab::row_above(self.about_row), ..self },
        }
    }

    /// The selected tab scrolled one row down.
    pub open spec fn next(self) -> AppState {
        match self.tab {
            MenuTabs::About => AppState { about_row: AboutTab::row_below(self.about_row), ..self },
        }
    }

    /// The primary action: from `Normal` it opens the editor; from `Editing`
    /// it submits, which empties the editor and returns to `Normal`.
    pub open spec fn enter_key(self) -> AppState {
        match self.input_mode {
            InputMode::Normal => AppState { input_mode: InputMode::Editing, ..self },
            InputMode::Editing => AppState {
                input_mode: InputMode::Normal,
                buffer: InputBuffer::empty(),
                ..self
            },
        }
    }

    /// The state with another editor content.
    pub open spec fn with_buffer(self, buffer: InputBuffer) -> AppState {
        AppState { buffer, ..self }
    }

    /// What a key does in `Normal` input mode.
    pub open spec fn on_normal_key(self, key: Key) -> AppState {
        match key {
            Key::Char('q') | Key::Esc => self.escape(),
            Key::Char('h') | Key::Left => self.left(),
            Key::Char('l') | Key::Right => self.right(),
            Key::Char('k') | Key::Up => self.prev(),
            Key::Char('j') | Key::Down => self.next(),
            Key::PageUp => self.prev_page(),
            Key::PageDown => self.next_page(),
            Key::Enter => self.enter_key(),
            Key::BackTab => self.prev_tab(),
            Key::Tab => self.next_tab(),
            Key::F(n) => self.function_key(n),
            _ => self,
        }
    }

    /// What a key does in `Editing` input mode.
    pub open spec fn on_editing_key(self, key: Key) -> AppState {
        match key {
            Key::Enter => self.enter_key(),
            Key::Char(c) => self.with_buffer(self.buffer.insert(c)),
            Key::Backspace => self.with_buffer(self.buffer.delete()),
            Key::Left => self.with_buffer(self.buffer.left()),
            Key::Right => self.with_buffer(self.buffer.right()),
            Key::Esc => AppState { input_mode: InputMode::Normal, ..self },
            _ => self,
        }
    }

    /// The state after a key press.
    pub open spec fn on_key(self, key: Key) -> AppState {
        match self.input_mode {
            InputMode::Normal => self.on_normal_key(key),
            InputMode::Editing => self.on_editing_key(key),
        }
    }

    /// The state after an event. Only key presses change it.
    pub open spec fn on_event(self, event: Event) -> AppState {
        match event {
            Event::Key(key) => self.on_key(key),
            _ => self,
        }
    }

    /// The state after a sequence of key presses, first key first.
    pub open spec fn after_keys(self, keys: Seq<Key>) -> AppState
        decreases keys.len(),
    {
        if keys.len() == 0 {
            self
        } else {
            self.on_key(keys[0]).after_keys(keys.drop_first())
        }
    }

    /// How many of `events` the event loop takes before it ends: all of
    /// them, or those up to the one that sets the run mode to `Exiting`.
    pub open spec fn consumed(self, events: Seq<Event>) -> nat
        decreases events.len(),
    {
        if events.len() == 0 || !self.is_running() {
            0
        } else {
            1 + self.on_event(events[0]).consumed(events.drop_first())
        }
    }

    /// The state in which the event loop leaves the dashboard when it is fed
    /// `events`.
    pub open spec fn run(self, events: Seq<Event>) -> AppState
        decreases events.len(),
    {
        if events.len() == 0 || !self.is_running() {
            self
        } else {
            self.on_event(events[0]).run(events.drop_first())
        }
    }
    /// The keys that type `text`, one `Char` key for each character.
    pub open spec fn typing(text: Seq<char>) -> Seq<Key> {
        Seq::new(text.len(), |i: int| Key::of_char(text[i]))
    }

    /// Pressing a sequence of keys is pressing a first part of it and then
    /// the rest.
    pub proof fn lemma_after_keys_concat(self, first: Seq<Key>, rest: Seq<Key>)
        ensures
            self.after_keys(first + rest) == self.after_keys(first).after_keys(rest),
        decreases first.len(),
    {
        if first.len() == 0 {
            assert(first + rest =~= rest);
        } else {
            assert((first + rest)[0] == first[0]);
            assert((first + rest).drop_first() =~= first.drop_first() + rest);
            self.on_key(first[0]).lemma_after_keys_concat(first.drop_first(), rest);
        }
    }

    /// A key press leaves the cursor of the editor within its text.
    pub proof fn lemma_on_key_keeps_wf(self, key: Key)
        requires
            self.wf(),
        ensures
            self.on_key(key).wf(),
    {
    }

    /// Any sequence of key presses leaves the cursor of the editor within
    /// its text.
    pub proof fn lemma_after_keys_keeps_wf(self, keys: Seq<Key>)
        requires
            self.wf(),
        ensures
            self.after_keys(keys).wf(),
        decreases keys.len(),
    {
        if keys.len() > 0 {
            self.lemma_on_key_keeps_wf(keys[0]);
            self.on_key(keys[0]).lemma_after_keys_keeps_wf(keys.drop_first());
        }
    }

    /// Typing in `Editing` input mode puts the typed characters into the
    /// text at the cursor, moves the cursor behind them and changes nothing
    /// else.
    pub proof fn lemma_typing_inserts(self, text: Seq<char>)
        requires
            self.wf(),
            self.input_mode == InputMode::Editing,
        ensures
            self.after_keys(Self::typing(text)) == self.with_buffer(
                InputBuffer {
                    text: self.buffer.text.take(self.buffer.cursor as int) + text
                        + self.buffer.text.skip(self.buffer.cursor as int),
                    cursor: self.buffer.cursor + text.len(),
                },
            ),
        decreases text.len(),
    {
        let keys = Self::typing(text);
        let old_text = self.buffer.text;
        let cursor = self.buffer.cursor as int;
        if text.len() == 0 {
            assert(old_text.take(cursor) + text + old_text.skip(cursor) =~= old_text);
        } else {
            assert(keys.len() == text.len());
            assert(keys[0] == Key::Char(text[0]));
            let step = self.on_key(keys[0]);
            assert(keys.drop_first() =~= Self::typing(text.drop_first()));
            step.lemma_typing_inserts(text.drop_first());
            let new_text = step.buffer.text;
            assert(new_text == old_text.insert(cursor, text[0]));
            assert(new_text.take(cursor + 1) + text.drop_first() + new_text.skip(cursor + 1)
                =~= old_text.take(cursor) + text + old_text.skip(cursor));
        }
    }

    /// The editing round trip: from `Normal` input mode, Enter opens the
    /// editor, typing changes the text, and Escape returns to `Normal` and
    /// leaves the text and the cursor as the typing left them. The run mode,
    /// the selected tab and its row are the same at the end.
    pub proof fn lemma_edit_then_escape(self, text: Seq<char>)
        requires
            self.wf(),
            self.input_mode == InputMode::Normal,
        ensures
            self.on_key(Key::Enter).input_mode == InputMode::Editing,
            self.on_key(Key::Enter).after_keys(Self::typing(text)).input_mode
                == InputMode::Editing,
            self.after_keys(seq![Key::Enter] + Self::typing(text) + seq![Key::Esc]) == (AppState {
                input_mode: InputMode::Normal,
                ..self.on_key(Key::Enter).after_keys(Self::typing(text))
            }),
            self.after_keys(seq![Key::Enter] + Self::typing(text) + seq![Key::Esc])
                == self.with_buffer(
                InputBuffer {
                    text: self.buffer.text.take(self.buffer.cursor as int) + text
                        + self.buffer.text.skip(self.buffer.cursor as int),
                    cursor: self.buffer.cursor + text.len(),
                },
            ),
    {
        let opened = self.on_key(Key::Enter);
        let typed = opened.after_keys(Self::typing(text));
        opened.lemma_typing_inserts(text);
        let enter = seq![Key::Enter];
        let esc = seq![Key::Esc];
        assert(self.after_keys(enter) == opened) by {
            assert(enter.drop_first().len() == 0);
            assert(opened.after_keys(enter.drop_first()) == opened);
        }
        assert(typed.after_keys(esc) == typed.on_key(Key::Esc)) by {
            assert(esc.drop_first().len() == 0);
            assert(typed.on_key(esc[0]).after_keys(esc.drop_first()) == typed.on_key(Key::Esc));
        }
        self.lemma_after_keys_concat(enter, Self::typing(text));
        self.lemma_after_keys_concat(enter + Self::typing(text), esc);
    }

    /// Submit and clear: in `Editing` input mode Enter returns to `Normal`,
    /// empties the text and puts the cursor at 0, whatever the text was.
    pub proof fn lemma_submit_clears(self)
        requires
            self.input_mode == InputMode::Editing,
        ensures
            self.on_key(Key::Enter).input_mode == InputMode::Normal,
            self.on_key(Key::Enter).buffer.text == Seq::<char>::empty(),
            self.on_key(Key::Enter).buffer.cursor == 0,
            self.on_key(Key::Enter) == (AppState {
                input_mode: InputMode::Normal,
                buffer: InputBuffer::empty(),
                ..self
            }),
    {
    }

    /// F12 sets the run mode to `RestartComms` whatever tab is selected, and
    /// no other function key changes the run mode.
    pub proof fn lemma_function_keys(self, num: u8)
        ensures
            self.function_key(12).mode == Mode::RestartComms,
            num != 12 ==> self.function_key(num).mode == self.mode,
            self.function_key(num).tab == self.tab,
    {
    }

    /// The function keys as key presses: in `Normal` input mode F12 sets the
    /// run mode to `RestartComms`; in `Editing` input mode function keys are
    /// not bound; and in either mode a function key other than F12 leaves
    /// the run mode as it is.
    pub proof fn lemma_function_key_presses(self, num: u8)
        ensures
            self.input_mode == InputMode::Normal ==> self.on_key(Key::F(12)).mode
                == Mode::RestartComms,
            self.input_mode == InputMode::Editing ==> self.on_key(Key::F(num)) == self,
            num != 12 ==> self.on_key(Key::F(num)).mode == self.mode,
            self.input_mode == InputMode::Normal ==> self.on_key(Key::F(12)).is_running(),
    {
    }

    /// Leaving the default tab sets the run mode to `Exiting`, and the
    /// dashboard is running exactly when the run mode is not `Exiting`:
    /// `Running` and `RestartComms` both keep the loop going.
    pub proof fn lemma_escape_exits(self)
        ensures
            self.tab == MenuTabs::About ==> self.escape().mode == Mode::Exiting,
            self.tab == MenuTabs::About ==> !self.escape().is_running(),
            self.is_running() <==> self.mode != Mode::Exiting,
            self.mode == Mode::Running ==> self.is_running(),
            self.mode == Mode::RestartComms ==> self.is_running(),
            self.mode == Mode::Exiting ==> !self.is_running(),
            self.input_mode == InputMode::Normal && self.tab == MenuTabs::About ==> self.on_key(
                Key::Esc,
            ).mode == Mode::Exiting,
    {
    }

    /// Once the run mode is `Exiting` the event loop takes no further event.
    pub proof fn lemma_exiting_stops_the_loop(self, events: Seq<Event>)
        requires
            !self.is_running(),
        ensures
            self.run(events) == self,
            self.consumed(events) == 0,
    {
    }

    /// The event loop ends with the events used up or the run mode
    /// `Exiting`, and never takes more events than there are.
    pub proof fn lemma_run_ends(self, events: Seq<Event>)
        ensures
            self.consumed(events) <= events.len(),
            self.consumed(events) < events.len() ==> !self.run(events).is_running(),
        decreases events.len(),
    {
        if events.len() > 0 && self.is_running() {
            self.on_event(events[0]).lemma_run_ends(events.drop_first());
        }
    }
}

} // verus!
