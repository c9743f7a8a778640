//! The ordered set of tabs and how the selection moves through it.

use vstd::prelude::*;
use vstd::string::*;

use crate::text::padded;

verus! {

/// The tabs of the dashboard, in the order of the tab bar.
#[derive(Debug, Clone, Copy, PartialEq, Eq, Structural)]
pub enum MenuTabs {
    About,
}

impl Default for MenuTabs {
    fn default() -> (tab: Self)
        ensures
            tab == MenuTabs::About,
    {
        MenuTabs::About
    }
}

impl MenuTabs {
    /// Number of tabs.
    pub open spec fn count() -> nat {
        1
    }

    /// The first tab of the bar.
    pub open spec fn first() -> MenuTabs {
        MenuTabs::About
    }

    /// The last tab of the bar.
    pub open spec fn last() -> MenuTabs {
        MenuTabs::About
    }

    /// Position of the tab in the bar, counted from 0.
    pub open spec fn position(self) -> nat {
        match self {
            MenuTabs::About => 0,
        }
    }

    /// The tab at a position, if there is one.
    pub open spec fn at(index: int) -> Option<MenuTabs> {
        if index == 0 {
            Some(MenuTabs::About)
        } else {
            None
        }
    }

    /// The tab one to the right, or the same tab at the right end.
    pub open spec fn successor(self) -> MenuTabs {
        match Self::at(self.position() as int + 1) {
            Some(tab) => tab,
            None => self,
        }
    }

    /// The tab one to the left, or the same tab at the left end.
    pub open spec fn predecessor(self) -> MenuTabs {
        if self.position() == 0 {
            self
        } else {
            match Self::at(self.position() - 1) {
                Some(tab) => tab,
                None => self,
            }
        }
    }

    /// The tab reached by moving right `n` times.
    pub open spec fn successor_n(self, n: nat) -> MenuTabs
        decreases n,
    {
        if n == 0 {
            self
        } else {
            self.successor().successor_n((n - 1) as nat)
        }
    }

    /// The tab reached by moving left `n` times.
    pub open spec fn predecessor_n(self, n: nat) -> MenuTabs
        decreases n,
    {
        if n == 0 {
            self
        } else {
            self.predecessor().predecessor_n((n - 1) as nat)
        }
    }

    /// The name shown for the tab.
    pub open spec fn label(self) -> Seq<char> {
        match self {
            MenuTabs::About => "About"@,
        }
    }

    /// Position of the tab in the bar, counted from 0.
    pub fn index(self) -> (index: usize)
        ensures
            index == self.position(),
            index < Self::count(),
    {
        match self {
            MenuTabs::About => 0,
        }
    }

    /// The tab at a position; `None` past the end of the bar.
    pub fn from_repr(index: usize) -> (tab: Option<Self>)
        ensures
            tab == Self::at(index as int),
            tab is Some <==> index < Self::count(),
            tab matches Some(t) ==> t.position() == index,
    {
        if index == 0 {
            Some(MenuTabs::About)
        } else {
            None
        }
    }

    /// Every tab, in the order of the bar.
    pub fn all() -> (tabs: Vec<Self>)
        ensures
            tabs@.len() == Self::count(),
            forall|i: int| 0 <= i < tabs@.len() ==> Self::at(i) == Some(#[trigger] tabs@[i]),
    {
        let mut tabs: Vec<Self> = Vec::new();
        tabs.push(MenuTabs::About);
        tabs
    }

    /// Moves one tab to the right and stays on the last tab.
    pub fn next(self) -> (tab: Self)
        ensures
            tab == self.successor(),
            tab.position() == if self.position() + 1 < Self::count() {
                self.position() + 1
            } else {
                self.position()
            },
    {
        let current_index = self.index();
        let next_index = current_index.saturating_add(1);
        match Self::from_repr(next_index) {
            Some(tab) => tab,
            None => self,
        }
    }

    /// Moves one tab to the left and stays on the first tab.
    pub fn prev(self) -> (tab: Self)
        ensures
            tab == self.predecessor(),
            tab.position() == if self.position() > 0 {
                self.position() - 1
            } else {
                0
            },
    {
        let current_index = self.index();
        let prev_index = current_index.saturating_sub(1);
        match Self::from_repr(prev_index) {
            Some(tab) => tab,
            None => self,
        }
    }

    /// The tab's name as the tab bar prints it.
    pub fn name(self) -> (name: String)
        ensures
            name@ == self.label(),
    {
        match self {
            MenuTabs::About => String::from_str("About"),
        }
    }

    /// The tab's name with one blank on either side.
    pub fn title(self) -> (title: String)
        ensures
            title@ == " "@ + self.label() + " "@,
    {
        let name = self.name();
        padded(name.as_str())
    }

    /// Moving left from the first tab, any number of times, stays on the
    /// first tab: the position never falls below 0.
    pub proof fn lemma_prev_stays_on_first(n: nat)
        ensures
            Self::first().predecessor_n(n) == Self::first(),
            Self::first().predecessor_n(n).position() == 0,
        decreases n,
    {
        if n > 0 {
            Self::lemma_prev_stays_on_first((n - 1) as nat);
        }
    }

    /// Moving right from the last tab, any number of times, stays on the
    /// last tab: the position never passes the last valid one.
    pub proof fn lemma_next_stays_on_last(n: nat)
        ensures
            Self::last().successor_n(n) == Self::last(),
            Self::last().successor_n(n).position() == Self::count() - 1,
        decreases n,
    {
        if n > 0 {
            Self::lemma_next_stays_on_last((n - 1) as nat);
        }
    }

    /// From any tab, any number of moves in either direction ends on a
    /// position of the bar.
    pub proof fn lemma_moves_stay_in_bar(self, n: nat)
        ensures
            self.successor_n(n).position() < Self::count(),
            self.predecessor_n(n).position() < Self::count(),
            self.position() <= self.successor_n(n).position(),
            self.predecessor_n(n).position() <= self.position(),
        decreases n,
    {
        if n > 0 {
            self.successor().lemma_moves_stay_in_bar((n - 1) as nat);
            self.predecessor().lemma_moves_stay_in_bar((n - 1) as nat);
        }
    }
}

} // verus!
