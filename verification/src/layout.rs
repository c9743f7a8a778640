//! Rectangles of terminal cells and how an area is split into parts.

use ratatui::layout as grid;
use vstd::prelude::*;

verus! {

/// A rectangle of terminal cells: the column and row of its top left cell,
/// and its size.
#[derive(Debug, Clone, Copy, PartialEq, Eq, Structural)]
pub struct Rect {
    pub x: u16,
    pub y: u16,
    pub width: u16,
    pub height: u16,
}

/// The axis along which an area is split.
#[derive(Debug, Clone, Copy, PartialEq, Eq, Structural)]
pub enum Direction {
    /// Parts stand side by side.
    Horizontal,
    /// Parts stand one above the other.
    Vertical,
}

/// What is asked of one part of a split.
#[derive(Debug, Clone, Copy, PartialEq, Eq, Structural)]
pub enum Constraint {
    /// This many cells.
    Length(u16),
    /// At least this many cells.
    Min(u16),
    /// This many hundredths of the area.
    Percentage(u16),
}

impl Rect {
    /// The column behind the last column of the rectangle.
    pub open spec fn right(self) -> int {
        self.x + self.width
    }

    /// The row below the last row of the rectangle.
    pub open spec fn bottom(self) -> int {
        self.y + self.height
    }

    /// `inner` has no cell outside of this rectangle.
    pub open spec fn contains(self, inner: Rect) -> bool {
        &&& self.x <= inner.x
        &&& inner.right() <= self.right()
        &&& self.y <= inner.y
        &&& inner.bottom() <= self.bottom()
    }

    /// Where the rectangle starts along `direction`: its row for a vertical
    /// direction, its column for a horizontal one.
    pub open spec fn start(self, direction: Direction) -> int {
        match direction {
            Direction::Vertical => self.y as int,
            Direction::Horizontal => self.x as int,
        }
    }

    /// How many cells the rectangle takes along `direction`.
    pub open spec fn extent(self, direction: Direction) -> int {
        match direction {
            Direction::Vertical => self.height as int,
            Direction::Horizontal => self.width as int,
        }
    }

    /// The cell behind the last cell of the rectangle along `direction`.
    pub open spec fn end(self, direction: Direction) -> int {
        self.start(direction) + self.extent(direction)
    }

    /// The rectangle ends, along `direction`, at a cell that a `u16` can
    /// count.
    pub open spec fn fits(self, direction: Direction) -> bool {
        self.end(direction) <= u16::MAX
    }

    /// The rectangle ends at a cell that a `u16` can count along both
    /// directions.
    pub open spec fn on_screen(self) -> bool {
        self.fits(Direction::Vertical) && self.fits(Direction::Horizontal)
    }

    /// The band of this rectangle along `direction` that runs from cell
    /// `from` to cell `to`, both counted from the start of the rectangle.
    pub open spec fn band(self, direction: Direction, from: int, to: int) -> Rect {
        match direction {
            Direction::Vertical => Rect {
                x: self.x,
                y: (self.y + from) as u16,
                width: self.width,
                height: (to - from) as u16,
            },
            Direction::Horizontal => Rect {
                x: (self.x + from) as u16,
                y: self.y,
                width: (to - from) as u16,
                height: self.height,
            },
        }
    }

    /// The middle band of this rectangle along `direction` that takes
    /// `percent` hundredths of it: it runs from the share of half of the
    /// other hundredths, rounded down, to the share of those and `percent`.
    pub open spec fn middle(self, direction: Direction, percent: u16) -> Rect {
        let side = (100 - percent) / 2;
        self.band(
            direction,
            share(self.extent(direction), side),
            share(self.extent(direction), side + percent),
        )
    }

    /// The rectangle in the middle of this one that takes `percent_x`
    /// hundredths of its width and `percent_y` hundredths of its height.
    pub open spec fn centered(self, percent_x: u16, percent_y: u16) -> Rect {
        self.middle(Direction::Vertical, percent_y).middle(Direction::Horizontal, percent_x)
    }

    /// `part` is a band of this rectangle along `direction`: it lies within
    /// the rectangle and spans it from side to side across the direction.
    pub open spec fn has_part(self, part: Rect, direction: Direction) -> bool {
        match direction {
            Direction::Vertical => {
                &&& part.x == self.x
                &&& part.width == self.width
                &&& self.y <= part.y
                &&& part.bottom() <= self.bottom()
            },
            Direction::Horizontal => {
                &&& part.y == self.y
                &&& part.height == self.height
                &&& self.x <= part.x
                &&& part.right() <= self.right()
            },
        }
    }
}

impl Constraint {
    /// The number that the constraint carries.
    pub open spec fn amount(self) -> int {
        match self {
            Constraint::Length(n) => n as int,
            Constraint::Min(n) => n as int,
            Constraint::Percentage(n) => n as int,
        }
    }
}

/// `percent` hundredths of `len` cells, rounded to the nearest whole cell
/// and upwards from a half.
pub open spec fn share(len: int, percent: int) -> int {
    (len * percent + 50) / 100
}

/// The sum of the numbers that the first `n` of `constraints` carry.
pub open spec fn total(constraints: Seq<Constraint>, n: int) -> int
    decreases n,
{
    if n <= 0 {
        0
    } else {
        total(constraints, n - 1) + constraints[n - 1].amount()
    }
}

/// Every one of `constraints` is a percentage, and together they ask for no
/// more than the whole.
pub open spec fn percentages_that_fit(constraints: Seq<Constraint>) -> bool {
    &&& forall|i: int| 0 <= i < constraints.len() ==> #[trigger] constraints[i] is Percentage
    &&& total(constraints, constraints.len() as int) <= 100
}

/// The constraint at `at` is a minimum and every other one of `constraints`
/// is a length, and together they ask for no more than `extent` cells.
pub open spec fn lengths_that_fit(constraints: Seq<Constraint>, at: int, extent: int) -> bool {
    &&& 0 <= at < constraints.len()
    &&& constraints[at] is Min
    &&& forall|i: int|
        0 <= i < constraints.len() && i != at ==> #[trigger] constraints[i] is Length
    &&& total(constraints, constraints.len() as int) <= extent
}

/// `parts` cut `area` along `direction` by percentages: each part runs from
/// the share of the percentages before it to the share of those and its
/// own.
pub open spec fn cut_by_percentages(
    area: Rect,
    direction: Direction,
    constraints: Seq<Constraint>,
    parts: Seq<Rect>,
) -> bool {
    forall|i: int|
        0 <= i < parts.len() ==> (#[trigger] parts[i]).start(direction) == area.start(direction)
            + share(area.extent(direction), total(constraints, i)) && parts[i].end(direction)
            == area.start(direction) + share(area.extent(direction), total(constraints, i + 1))
}

/// `parts` stack in `area` along `direction` without gaps from its start:
/// each length has its size, and the minimum at `at` has its own size and
/// the cells that are left over.
pub open spec fn stacked(
    area: Rect,
    direction: Direction,
    constraints: Seq<Constraint>,
    at: int,
    parts: Seq<Rect>,
) -> bool {
    let spare = area.extent(direction) - total(constraints, constraints.len() as int);
    forall|i: int|
        0 <= i < parts.len() ==> (#[trigger] parts[i]).start(direction) == area.start(direction)
            + total(constraints, i) + (if i > at {
            spare
        } else {
            0
        }) && parts[i].extent(direction) == constraints[i].amount() + (if i == at {
            spare
        } else {
            0
        })
}

/// `ratatui::layout::Layout::split` on a layout made by `Layout::new` from
/// `direction` and `constraints`, with no margin and no spacing.
///
/// The split comes from a constraint solver. Where what is asked cannot
/// all be had, its choice among equally good answers is not fixed, and the
/// contract states what holds of every answer: there is one part for each
/// constraint; each part keeps the area's position and size across the
/// direction; and along the direction each part starts and ends within the
/// area, which the solver is given as required bounds of every edge.
///
/// Where all that is asked can be had at once there is one answer, and the
/// contract states it for two kinds of constraints, on an area that ends
/// where a `u16` can count. The layout asks for parts without gaps from the
/// start of the area, and turns every edge into a cell by rounding to the
/// nearest, upwards from a half. Percentages that sum to at most 100 are
/// each taken of the whole area, so a part runs between the rounded shares
/// of the sums of percentages before and through it. Lengths with one
/// minimum among them, which fit into the area, each get their size, and
/// the minimum grows by the cells that are left.
#[verifier::external_body]
pub(crate) fn split(direction: Direction, constraints: &Vec<Constraint>, area: Rect) -> (parts:
    Vec<Rect>)
    ensures
        parts@.len() == constraints@.len(),
        forall|i: int| 0 <= i < parts@.len() ==> area.has_part(#[trigger] parts@[i], direction),
        percentages_that_fit(constraints@) && area.fits(direction) ==> cut_by_percentages(
            area,
            direction,
            constraints@,
            parts@,
        ),
        forall|at: int| #[trigger]
            lengths_that_fit(constraints@, at, area.extent(direction)) && area.fits(direction)
                ==> stacked(area, direction, constraints@, at, parts@),
{
    let direction = match direction {
        Direction::Horizontal => grid::Direction::Horizontal,
        Direction::Vertical => grid::Direction::Vertical,
    };
    let constraints = constraints.iter().map(|c| match *c {
        Constraint::Length(n) => grid::Constraint::Length(n),
        Constraint::Min(n) => grid::Constraint::Min(n),
        Constraint::Percentage(n) => grid::Constraint::Percentage(n),
    });
    let area = grid::Rect { x: area.x, y: area.y, width: area.width, height: area.height };
    let parts = grid::Layout::new(direction, constraints).split(area);
    parts.iter().map(|r| Rect { x: r.x, y: r.y, width: r.width, height: r.height }).collect()
}

/// What is asked of the three parts that put `percent` hundredths of an
/// area in its middle: `percent` hundredths for the middle part and half of
/// the rest, rounded down, for the part on either side.
pub open spec fn centering(percent: u16) -> Seq<Constraint> {
    let side = ((100 - percent) / 2) as u16;
    seq![
        Constraint::Percentage(side),
        Constraint::Percentage(percent),
        Constraint::Percentage(side),
    ]
}

/// The constraints of [`centering`] for `percent`.
pub fn centering_constraints(percent: u16) -> (constraints: Vec<Constraint>)
    requires
        percent <= 100,
    ensures
        constraints@ == centering(percent),
{
    let side: u16 = (100 - percent) / 2;
    let mut constraints: Vec<Constraint> = Vec::new();
    constraints.push(Constraint::Percentage(side));
    constraints.push(Constraint::Percentage(percent));
    constraints.push(Constraint::Percentage(side));
    assert(constraints@ =~= centering(percent));
    constraints
}

/// The middle one of the three parts of a split.
pub fn middle_of(parts: &Vec<Rect>) -> (part: Rect)
    requires
        parts@.len() == 3,
    ensures
        part == parts@[1],
{
    parts[1]
}

/// The middle one of three parts of `area` along `direction`: the area is
/// split by the constraints of [`centering`] for `percent`, and
/// [`middle_of`] picks the part. On an area that ends where a `u16` can
/// count, the part is the middle band of `percent` hundredths.
pub fn middle_part(direction: Direction, area: Rect, percent: u16) -> (part: Rect)
    requires
        percent <= 100,
    ensures
        area.has_part(part, direction),
        area.fits(direction) ==> {
            &&& part.start(direction) == area.start(direction) + share(
                area.extent(direction),
                (100 - percent) / 2,
            )
            &&& part.end(direction) == area.start(direction) + share(
                area.extent(direction),
                (100 - percent) / 2 + percent,
            )
            &&& part == area.middle(direction, percent)
        },
{
    let constraints = centering_constraints(percent);
    let parts = split(direction, &constraints, area);
    let part = middle_of(&parts);
    proof {
        reveal_with_fuel(total, 4);
        assert(percentages_that_fit(constraints@));
        if area.fits(direction) {
            assert(cut_by_percentages(area, direction, constraints@, parts@));
            assert(parts@[1].start(direction) == area.start(direction) + share(
                area.extent(direction),
                total(constraints@, 1),
            ));
        }
    }
    part
}

/// A rectangle in the middle of `r` for which `percent_x` hundredths of the
/// width and `percent_y` hundredths of the height of `r` are asked. On an
/// `r` that ends where a `u16` can count, it runs from the rounded share of
/// half of the other hundredths to the rounded share of those and the
/// asked ones, in either direction.
pub fn centered_rect(r: Rect, percent_x: u16, percent_y: u16) -> (inner: Rect)
    requires
        percent_x <= 100,
        percent_y <= 100,
    ensures
        r.contains(inner),
        r.on_screen() ==> inner == r.centered(percent_x, percent_y),
        r.on_screen() ==> {
            &&& inner.x == r.x + share(r.width as int, (100 - percent_x) / 2)
            &&& inner.x + inner.width == r.x + share(
                r.width as int,
                (100 - percent_x) / 2 + percent_x,
            )
            &&& inner.y == r.y + share(r.height as int, (100 - percent_y) / 2)
            &&& inner.y + inner.height == r.y + share(
                r.height as int,
                (100 - percent_y) / 2 + percent_y,
            )
        },
{
    let band = middle_part(Direction::Vertical, r, percent_y);
    let cell = middle_part(Direction::Horizontal, band, percent_x);
    cell
}

} // verus!
