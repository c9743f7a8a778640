//! Frame composition: which regions a frame has and what each one shows.
//!
//! A [`Frame`] is a plan of one screen: rectangles and texts. Painting it
//! into terminal cells, with colours, is left to the program.

use vstd::prelude::*;
use vstd::string::*;

use crate::about::AboutTab;
use crate::app::App;
use crate::clock::{utc_date_text, ClockError};
use crate::layout::{
    centered_rect, lengths_that_fit, split, stacked, total, Constraint, Direction, Rect,
};
use crate::mode::InputMode;
use crate::tabs::MenuTabs;
use crate::text::padded;

verus! {

/// The tab bar: the titles of all tabs and which of them is highlighted.
#[derive(Debug, Clone)]
pub struct TabBar {
    pub area: Rect,
    pub titles: Vec<String>,
    pub selected: usize,
}

/// A bordered box with a title and a text in it.
#[derive(Debug, Clone)]
pub struct Panel {
    pub area: Rect,
    pub title: String,
    pub text: String,
}

/// The text-entry popup of `Editing` input mode.
#[derive(Debug, Clone)]
pub struct Popup {
    /// The region that is wiped before the popup is drawn.
    pub cleared: Rect,
    /// The bordered box of the popup.
    pub frame: Rect,
    pub title: String,
    /// Where the text under edit is written.
    pub field: Rect,
    pub text: String,
}

/// The region of the event log. Its lines come from the logger when the
/// frame is painted.
#[derive(Debug, Clone)]
pub struct LogRegion {
    pub area: Rect,
    pub title: String,
}

/// What a piece of the status bar is, which decides its colours.
#[derive(Debug, Clone, Copy, PartialEq, Eq, Structural)]
pub enum SpanRole {
    Key,
    Description,
    Date,
}

/// One piece of text of the status bar.
#[derive(Debug, Clone)]
pub struct Span {
    pub text: String,
    pub role: SpanRole,
}

/// A [`Span`] as a mathematical value.
pub struct SpanView {
    pub text: Seq<char>,
    pub role: SpanRole,
}

impl View for Span {
    type V = SpanView;

    open spec fn view(&self) -> SpanView {
        SpanView { text: self.text@, role: self.role }
    }
}

/// The status bar: its pieces from left to right, shown centered.
#[derive(Debug, Clone)]
pub struct StatusBar {
    pub area: Rect,
    pub spans: Vec<Span>,
}

/// What the main region shows.
#[derive(Debug, Clone)]
pub enum Content {
    /// The selected tab.
    Tab(Panel),
    /// The text-entry popup.
    Popup(Popup),
}

/// The four regions of a frame, from top to bottom.
#[derive(Debug, Clone, Copy, PartialEq, Eq, Structural)]
pub struct FrameLayout {
    pub tabs: Rect,
    pub middle: Rect,
    pub event_log: Rect,
    pub bottom_bar: Rect,
}

/// The plan of one screen.
#[derive(Debug, Clone)]
pub struct Frame {
    pub area: Rect,
    pub layout: FrameLayout,
    pub tabs: TabBar,
    pub content: Content,
    pub event_log: LogRegion,
    pub bottom_bar: StatusBar,
}

/// The key bindings that the status bar lists, each with what it does.
pub open spec fn legend() -> Seq<(Seq<char>, Seq<char>)> {
    seq![
        ("H/←"@, "Left"@),
        ("L/→"@, "Right"@),
        ("K/↑"@, "Up"@),
        ("J/↓"@, "Down"@),
        ("Enter"@, "Interact/Send"@),
        ("Q/Esc"@, "Quit"@),
    ]
}

/// `inner` between two blanks.
pub open spec fn padded_text(inner: Seq<char>) -> Seq<char> {
    " "@ + inner + " "@
}

/// The pieces of the status bar when the clock reads `date`: for each key
/// binding the key and then its description, each between two blanks, and
/// at the end a bar, a blank and the date.
pub open spec fn status_spans(date: Seq<char>) -> Seq<SpanView> {
    Seq::new(
        2 * legend().len() + 1,
        |i: int|
            if i == 2 * legend().len() {
                SpanView { text: "| "@ + date, role: SpanRole::Date }
            } else if i % 2 == 0 {
                SpanView { text: padded_text(legend()[i / 2].0), role: SpanRole::Key }
            } else {
                SpanView { text: padded_text(legend()[i / 2].1), role: SpanRole::Description }
            },
    )
}

/// The title that the tab bar shows at position `index`: the tab's name
/// between two blanks.
pub open spec fn title_at(index: int) -> Seq<char> {
    match MenuTabs::at(index) {
        Some(tab) => padded_text(tab.label()),
        None => Seq::empty(),
    }
}

/// The pieces of a status bar as mathematical values.
pub open spec fn span_views(spans: Seq<Span>) -> Seq<SpanView> {
    Seq::new(spans.len(), |i: int| spans[i]@)
}

impl TabBar {
    /// The bar fills `area`, lists the title of every tab in the order of
    /// the tabs, and highlights `selected`.
    pub open spec fn shows(&self, area: Rect, selected: MenuTabs) -> bool {
        &&& self.area == area
        &&& self.selected == selected.position()
        &&& self.titles@.len() == MenuTabs::count()
        &&& forall|i: int|
            0 <= i < self.titles@.len() ==> (#[trigger] self.titles@[i])@ == title_at(i)
    }
}

impl Panel {
    /// The panel fills `area` and shows the About tab.
    pub open spec fn shows_about(&self, area: Rect) -> bool {
        &&& self.area == area
        &&& self.title@ == "About"@
        &&& self.text@ == "term_dashboard"@
    }

    /// The panel fills `area` and shows tab `tab`.
    pub open spec fn shows_tab(&self, area: Rect, tab: MenuTabs) -> bool {
        match tab {
            MenuTabs::About => self.shows_about(area),
        }
    }
}

impl Popup {
    /// The popup wipes `area`, lies within it with its text field within
    /// its box, and shows `text`. On an area that ends where a `u16` can
    /// count, the box takes 60 hundredths of the width and 25 of the height
    /// of the area, in its middle, and the text field 75 hundredths of the
    /// width and 25 of the height of the box, in its middle.
    pub open spec fn edits(&self, area: Rect, text: Seq<char>) -> bool {
        &&& self.cleared == area
        &&& area.contains(self.frame)
        &&& self.frame.contains(self.field)
        &&& area.on_screen() ==> self.frame == area.centered(60, 25) && self.field
            == self.frame.centered(75, 25)
        &&& self.title@ == "Enter message"@
        &&& self.text@ == text
    }
}

impl LogRegion {
    /// The event log fills `area`.
    pub open spec fn fills(&self, area: Rect) -> bool {
        &&& self.area == area
        &&& self.title@ == "Event Log"@
    }
}

impl StatusBar {
    /// The bar fills `area` and shows the key bindings and `date`.
    pub open spec fn shows(&self, area: Rect, date: Seq<char>) -> bool {
        &&& self.area == area
        &&& span_views(self.spans@) == status_spans(date)
    }
}

impl FrameLayout {
    /// What is asked of the four regions: one row for the tab bar, no row
    /// at least for the main region, twelve rows for the event log and one
    /// row for the status bar.
    pub open spec fn constraints() -> Seq<Constraint> {
        seq![
            Constraint::Length(1),
            Constraint::Min(0),
            Constraint::Length(12),
            Constraint::Length(1),
        ]
    }

    /// The regions on an area of at least fourteen rows: the tab bar on the
    /// first row, the status bar on the last row, the event log on the
    /// twelve rows above the status bar, and the main region on all rows
    /// between the tab bar and the event log.
    pub open spec fn rows(area: Rect) -> FrameLayout {
        FrameLayout {
            tabs: Rect { x: area.x, y: area.y, width: area.width, height: 1 },
            middle: Rect {
                x: area.x,
                y: (area.y + 1) as u16,
                width: area.width,
                height: (area.height - 14) as u16,
            },
            event_log: Rect {
                x: area.x,
                y: (area.y + area.height - 13) as u16,
                width: area.width,
                height: 12,
            },
            bottom_bar: Rect {
                x: area.x,
                y: (area.y + area.height - 1) as u16,
                width: area.width,
                height: 1,
            },
        }
    }

    /// Each of the four regions is a band of `area` from its left edge to
    /// its right edge, and on an area of at least fourteen rows that ends
    /// where a `u16` can count they are the regions of [`Self::rows`].
    pub open spec fn splits(&self, area: Rect) -> bool {
        &&& area.has_part(self.tabs, Direction::Vertical)
        &&& area.has_part(self.middle, Direction::Vertical)
        &&& area.has_part(self.event_log, Direction::Vertical)
        &&& area.has_part(self.bottom_bar, Direction::Vertical)
        &&& area.height >= 14 && area.fits(Direction::Vertical) ==> *self == Self::rows(area)
    }

    /// The regions of a frame from the four parts of a split, in order.
    pub fn from_parts(parts: &Vec<Rect>) -> (layout: FrameLayout)
        requires
            parts@.len() == 4,
        ensures
            layout == (FrameLayout {
                tabs: parts@[0],
                middle: parts@[1],
                event_log: parts@[2],
                bottom_bar: parts@[3],
            }),
    {
        FrameLayout { tabs: parts[0], middle: parts[1], event_log: parts[2], bottom_bar: parts[3] }
    }

    /// Splits `area` into the regions of a frame: one row is asked for the
    /// tab bar, twelve rows for the event log, one row for the status bar,
    /// and what is left for the main region. On an area of at least
    /// fourteen rows that ends where a `u16` can count, each region gets
    /// what is asked for it.
    pub fn of(area: Rect) -> (layout: FrameLayout)
        ensures
            layout.splits(area),
            area.height >= 14 && area.y + area.height <= u16::MAX ==> layout == (FrameLayout {
                tabs: Rect { x: area.x, y: area.y, width: area.width, height: 1 },
                middle: Rect {
                    x: area.x,
                    y: (area.y + 1) as u16,
                    width: area.width,
                    height: (area.height - 14) as u16,
                },
                event_log: Rect {
                    x: area.x,
                    y: (area.y + area.height - 13) as u16,
                    width: area.width,
                    height: 12,
                },
                bottom_bar: Rect {
                    x: area.x,
                    y: (area.y + area.height - 1) as u16,
                    width: area.width,
                    height: 1,
                },
            }),
    {
        let mut constraints: Vec<Constraint> = Vec::new();
        constraints.push(Constraint::Length(1));
        constraints.push(Constraint::Min(0));
        constraints.push(Constraint::Length(12));
        constraints.push(Constraint::Length(1));
        let parts = split(Direction::Vertical, &constraints, area);
        proof {
            reveal_with_fuel(total, 5);
            assert(constraints@ =~= Self::constraints());
            if area.height >= 14 && area.fits(Direction::Vertical) {
                assert(lengths_that_fit(constraints@, 1, area.extent(Direction::Vertical)));
                assert(stacked(area, Direction::Vertical, constraints@, 1, parts@));
                assert(parts@[0].start(Direction::Vertical) == area.y);
                assert(parts@[1].start(Direction::Vertical) == area.y + 1);
                assert(parts@[2].start(Direction::Vertical) == area.y + area.height - 13);
                assert(parts@[3].start(Direction::Vertical) == area.y + area.height - 1);
            }
        }
        Self::from_parts(&parts)
    }
}

impl Frame {
    /// The frame is a plan of `app` on `area`: the regions are bands of the
    /// area; the tab bar highlights the selected tab; the main region shows
    /// the selected tab in `Normal` input mode and the popup with the text
    /// under edit in `Editing` input mode; and the status bar shows the key
    /// bindings and `date`.
    pub open spec fn shows(&self, app: &App, area: Rect, date: Seq<char>) -> bool {
        &&& self.area == area
        &&& self.layout.splits(area)
        &&& self.tabs.shows(self.layout.tabs, app.tab)
        &&& match app.input_mode {
            InputMode::Normal => self.content matches Content::Tab(panel) && panel.shows_tab(
                self.layout.middle,
                app.tab,
            ),
            InputMode::Editing => self.content matches Content::Popup(popup) && popup.edits(
                self.layout.middle,
                app.input@,
            ),
        }
        &&& self.event_log.fills(self.layout.event_log)
        &&& self.bottom_bar.shows(self.layout.bottom_bar, date)
    }
}

/// The key bindings that the status bar lists, each with what it does.
pub fn legend_entries() -> (entries: Vec<(&'static str, &'static str)>)
    ensures
        entries@.len() == legend().len(),
        forall|i: int|
            0 <= i < entries@.len() ==> (#[trigger] entries@[i]).0@ == legend()[i].0
                && entries@[i].1@ == legend()[i].1,
{
    let mut entries: Vec<(&'static str, &'static str)> = Vec::new();
    entries.push(("H/←", "Left"));
    entries.push(("L/→", "Right"));
    entries.push(("K/↑", "Up"));
    entries.push(("J/↓", "Down"));
    entries.push(("Enter", "Interact/Send"));
    entries.push(("Q/Esc", "Quit"));
    entries
}

/// The pieces of the status bar when the clock reads `date`.
pub fn status_line(date: &str) -> (spans: Vec<Span>)
    ensures
        span_views(spans@) == status_spans(date@),
{
    let entries = legend_entries();
    let mut spans: Vec<Span> = Vec::new();
    let mut i: usize = 0;
    while i < entries.len()
        invariant
            i <= entries@.len(),
            entries@.len() == legend().len(),
            forall|k: int|
                0 <= k < entries@.len() ==> (#[trigger] entries@[k]).0@ == legend()[k].0
                    && entries@[k].1@ == legend()[k].1,
            spans@.len() == 2 * i,
            forall|j: int| 0 <= j < spans@.len() ==> (#[trigger] spans@[j])@ == status_spans(date@)[j],
        decreases entries@.len() - i,
    {
        let (key, description) = entries[i];
        spans.push(Span { text: padded(key), role: SpanRole::Key });
        spans.push(Span { text: padded(description), role: SpanRole::Description });
        i = i + 1;
    }
    let mut text = String::from_str("| ");
    text.append(date);
    spans.push(Span { text, role: SpanRole::Date });
    assert(span_views(spans@) =~= status_spans(date@));
    spans
}

impl AboutTab {
    /// The About tab as a panel on `area`.
    pub fn render(self, area: Rect) -> (panel: Panel)
        ensures
            panel.shows_about(area),
    {
        Panel { area, title: self.heading(), text: String::from_str("term_dashboard") }
    }
}

impl App {
    /// The tab bar on `area`: every tab's title, the selected one
    /// highlighted.
    pub fn render_tabs(&self, area: Rect) -> (bar: TabBar)
        ensures
            bar.shows(area, self.tab),
    {
        let tabs = MenuTabs::all();
        let mut titles: Vec<String> = Vec::new();
        let mut i: usize = 0;
        while i < tabs.len()
            invariant
                i <= tabs@.len(),
                tabs@.len() == MenuTabs::count(),
                forall|k: int| 0 <= k < tabs@.len() ==> MenuTabs::at(k) == Some(#[trigger] tabs@[k]),
                titles@.len() == i,
                forall|j: int| 0 <= j < titles@.len() ==> (#[trigger] titles@[j])@ == title_at(j),
            decreases tabs@.len() - i,
        {
            assert(MenuTabs::at(i as int) == Some(tabs@[i as int]));
            titles.push(tabs[i].title());
            i = i + 1;
        }
        TabBar { area, titles, selected: self.tab.index() }
    }

    /// The selected tab as a panel on `area`.
    pub fn render_selected_tab(&self, area: Rect) -> (panel: Panel)
        ensures
            panel.shows_tab(area, self.tab),
    {
        match self.tab {
            MenuTabs::About => self.about_tab.render(area),
        }
    }

    /// The text-entry popup on `area`. Its box is asked to take 60
    /// hundredths of the width and 25 of the height of `area`, in the
    /// middle; its text field 75 hundredths of the width and 25 of the
    /// height of the box, in the middle. It shows the input text.
    pub fn render_send_message_popup(&self, area: Rect) -> (popup: Popup)
        ensures
            popup.edits(area, self.input@),
            area.contains(popup.field),
    {
        let popup_area = centered_rect(area, 60, 25);
        let field = centered_rect(popup_area, 75, 25);
        Popup {
            cleared: area,
            frame: popup_area,
            title: String::from_str("Enter message"),
            field,
            text: self.input.clone(),
        }
    }

    /// The event log on `area`.
    pub fn render_event_log(&self, area: Rect) -> (log: LogRegion)
        ensures
            log.fills(area),
    {
        LogRegion { area, title: String::from_str("Event Log") }
    }

    /// The status bar on `area` for what the clock gave: the key bindings
    /// and the date where the clock gave one, and the clock's error where
    /// it gave none.
    pub fn bottom_bar_for(area: Rect, clock: Result<String, ClockError>) -> (bar: Result<
        StatusBar,
        ClockError,
    >)
        ensures
            match clock {
                Ok(date) => bar is Ok && bar->Ok_0.shows(area, date@),
                Err(e) => bar == Err::<StatusBar, ClockError>(e),
            },
    {
        match clock {
            Ok(date) => Ok(StatusBar { area, spans: status_line(date.as_str()) }),
            Err(e) => Err(e),
        }
    }

    /// The status bar on `area`, with the clock read now: what
    /// [`App::bottom_bar_for`] makes of the clock's text. Fails when the
    /// date cannot be written.
    pub fn render_bottom_bar(area: Rect) -> (bar: Result<StatusBar, ClockError>)
        ensures
            match bar {
                Ok(shown) => exists|date: Seq<char>| #[trigger] shown.shows(area, date),
                Err(_) => true,
            },
    {
        let clock = utc_date_text();
        let ghost given = clock;
        let bar = Self::bottom_bar_for(area, clock);
        assert(bar is Ok ==> bar->Ok_0.shows(area, given->Ok_0@));
        bar
    }

    /// The plan of a frame on `area` for what the clock gave: the four
    /// regions, the tab bar, the selected tab or the popup, the event log
    /// and the status bar with the date where the clock gave one, and the
    /// clock's error where it gave none.
    pub fn compose(&self, area: Rect, clock: Result<String, ClockError>) -> (frame: Result<
        Frame,
        ClockError,
    >)
        ensures
            match clock {
                Ok(date) => frame is Ok && frame->Ok_0.shows(self, area, date@),
                Err(e) => frame == Err::<Frame, ClockError>(e),
            },
    {
        let layout = FrameLayout::of(area);
        let tabs = self.render_tabs(layout.tabs);
        let content = match self.input_mode {
            InputMode::Editing => Content::Popup(self.render_send_message_popup(layout.middle)),
            InputMode::Normal => Content::Tab(self.render_selected_tab(layout.middle)),
        };
        let event_log = self.render_event_log(layout.event_log);
        match Self::bottom_bar_for(layout.bottom_bar, clock) {
            Ok(bottom_bar) => Ok(Frame { area, layout, tabs, content, event_log, bottom_bar }),
            Err(e) => Err(e),
        }
    }

    /// The plan of a frame on `area`, with the clock read now: what
    /// [`App::compose`] makes of the clock's text. Fails when the date
    /// cannot be written.
    pub fn render(&self, area: Rect) -> (frame: Result<Frame, ClockError>)
        ensures
            match frame {
                Ok(shown) => exists|date: Seq<char>| #[trigger] shown.shows(self, area, date),
                Err(_) => true,
            },
    {
        let clock = utc_date_text();
        let ghost given = clock;
        let frame = self.compose(area, clock);
        assert(frame is Ok ==> frame->Ok_0.shows(self, area, given->Ok_0@));
        frame
    }
}

} // verus!
