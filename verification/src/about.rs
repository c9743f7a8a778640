//! The About tab.

use vstd::prelude::*;
use vstd::string::*;

use crate::mode::Mode;

verus! {

/// State of the About tab: the row its content is scrolled to.
#[derive(Debug, Clone, Copy, PartialEq, Eq, Structural)]
pub struct AboutTab {
    row_index: usize,
}

impl View for AboutTab {
    type V = nat;

    /// The row the tab is scrolled to.
    closed spec fn view(&self) -> nat {
        self.row_index as nat
    }
}

impl Default for AboutTab {
    fn default() -> (tab: Self)
        ensures
            tab@ == 0,
    {
        AboutTab { row_index: 0 }
    }
}

impl AboutTab {
    /// The row above `row`, or row 0 itself.
    pub open spec fn row_above(row: nat) -> nat {
        if row == 0 {
            0
        } else {
            (row - 1) as nat
        }
    }

    /// The row below `row`, or the last row a `usize` can count.
    pub open spec fn row_below(row: nat) -> nat {
        if row < usize::MAX {
            row + 1
        } else {
            row
        }
    }

    /// The row the tab is scrolled to.
    pub fn row_index(&self) -> (row: usize)
        ensures
            row == self@,
    {
        self.row_index
    }

    /// The per-frame hook of the tab. The About tab has nothing to refresh.
    pub fn run(&mut self)
        ensures
            *final(self) == *old(self),
    {
    }

    /// Scrolls one page up. The About tab has a single page.
    pub fn prev_page(&mut self)
        ensures
            *final(self) == *old(self),
    {
    }

    /// Scrolls one page down. The About tab has a single page.
    pub fn next_page(&mut self)
        ensures
            *final(self) == *old(self),
    {
    }

    /// What leaving the tab means for the process: the dashboard exits.
    pub fn escape(&mut self) -> (mode: Mode)
        ensures
            mode == Mode::Exiting,
            *final(self) == *old(self),
    {
        Mode::Exiting
    }

    /// Handles function key `num`. The About tab binds none of them.
    pub fn function_key(&mut self, num: u8)
        ensures
            *final(self) == *old(self),
    {
    }

    /// The tab's own part of the primary action. The About tab keeps no
    /// state for it.
    pub fn enter_key(&mut self)
        ensures
            *final(self) == *old(self),
    {
    }

    /// Scrolls one row up and stays on row 0.
    pub fn prev_row(&mut self)
        ensures
            final(self)@ == Self::row_above(old(self)@),
    {
        self.row_index = self.row_index.saturating_sub(1);
    }

    /// Scrolls one row down and stays on the last row a `usize` can count.
    pub fn next_row(&mut self)
        ensures
            final(self)@ == Self::row_below(old(self)@),
    {
        self.row_index = self.row_index.saturating_add(1);
    }

    /// The title of the tab's frame.
    pub fn heading(&self) -> (heading: String)
        ensures
            heading@ == "About"@,
    {
        String::from_str("About")
    }
}

} // verus!
