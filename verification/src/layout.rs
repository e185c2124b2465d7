//! Screen geometry: rectangles of terminal cells, the inside of a
//! bordered box, and splitting an area by constraints (done by ratatui's
//! layout solver).
use vstd::prelude::*;
use ratatui::layout::{Constraint as TC, Direction as TD, Layout, Rect as TR};

verus! {

/// A rectangle of terminal cells.
#[derive(Debug, Clone, Copy, PartialEq, Eq, Structural)]
pub struct Rect {
    pub x: u16,
    pub y: u16,
    pub width: u16,
    pub height: u16,
}

/// `a + b`, capped at the largest cell coordinate.
pub open spec fn sat_add16(a: int, b: int) -> int {
    if a + b > u16::MAX {
        u16::MAX as int
    } else {
        a + b
    }
}

/// The first column right of the rectangle.
pub open spec fn right_of(r: Rect) -> int {
    sat_add16(r.x as int, r.width as int)
}

/// The first row below the rectangle.
pub open spec fn bottom_of(r: Rect) -> int {
    sat_add16(r.y as int, r.height as int)
}

/// The cell (`column`, `row`) lies in the rectangle.
pub open spec fn inside(r: Rect, column: int, row: int) -> bool {
    r.x <= column < right_of(r) && r.y <= row < bottom_of(r)
}

/// The area inside a one-cell border on every side.
pub open spec fn inner_of(r: Rect) -> Rect {
    Rect {
        x: if r.x as int + 1 <= right_of(r) {
            (r.x + 1) as u16
        } else {
            right_of(r) as u16
        },
        y: if r.y as int + 1 <= bottom_of(r) {
            (r.y + 1) as u16
        } else {
            bottom_of(r) as u16
        },
        width: crate::listnav::sat_sub(r.width as int, 2) as u16,
        height: crate::listnav::sat_sub(r.height as int, 2) as u16,
    }
}

/// The rectangle at (`x`, `y`) of the given size, cut to end at the last
/// cell of the grid.
pub open spec fn clamped_rect(x: u16, y: u16, width: u16, height: u16) -> Rect {
    Rect {
        x,
        y,
        width: if width > u16::MAX - x {
            (u16::MAX - x) as u16
        } else {
            width
        },
        height: if height > u16::MAX - y {
            (u16::MAX - y) as u16
        } else {
            height
        },
    }
}

impl Rect {
    /// A rectangle at (`x`, `y`); a size reaching past the last cell is
    /// cut to end there.
    pub fn new(x: u16, y: u16, width: u16, height: u16) -> (r: Rect)
        ensures
            r == clamped_rect(x, y, width, height),
            r.x == x,
            r.y == y,
            r.width == if width > u16::MAX - x {
                (u16::MAX - x) as u16
            } else {
                width
            },
            r.height == if height > u16::MAX - y {
                (u16::MAX - y) as u16
            } else {
                height
            },
    {
        let max_width = u16::MAX - x;
        let max_height = u16::MAX - y;
        Rect {
            x,
            y,
            width: if width > max_width {
                max_width
            } else {
                width
            },
            height: if height > max_height {
                max_height
            } else {
                height
            },
        }
    }

    /// The first column right of the rectangle.
    pub fn right(self) -> (r: u16)
        ensures
            r == right_of(self),
    {
        self.x.saturating_add(self.width)
    }

    /// The first row below the rectangle.
    pub fn bottom(self) -> (r: u16)
        ensures
            r == bottom_of(self),
    {
        self.y.saturating_add(self.height)
    }

    /// Whether the cell (`column`, `row`) lies in the rectangle.
    pub fn contains(self, column: u16, row: u16) -> (r: bool)
        ensures
            r == inside(self, column as int, row as int),
    {
        column >= self.x && column < self.right() && row >= self.y && row < self.bottom()
    }
}

/// The area inside a box drawn with a border on all four sides.
pub fn bordered_inner(area: Rect) -> (r: Rect)
    ensures
        r == inner_of(area),
{
    let right = area.right();
    let bottom = area.bottom();
    let x1 = area.x.saturating_add(1);
    let y1 = area.y.saturating_add(1);
    Rect {
        x: if x1 < right {
            x1
        } else {
            right
        },
        y: if y1 < bottom {
            y1
        } else {
            bottom
        },
        width: area.width.saturating_sub(2),
        height: area.height.saturating_sub(2),
    }
}

/// Which way an area is split.
#[derive(Debug, Clone, Copy, PartialEq, Eq, Structural)]
pub enum Direction {
    Horizontal,
    Vertical,
}

/// How large one part of a split should be.
#[derive(Debug, Clone, Copy, PartialEq, Eq, Structural)]
pub enum Constraint {
    Length(u16),
    Min(u16),
    Percentage(u16),
    Ratio(u32, u32),
}

/// `area` cut, as ratatui's `Rect::new` cuts it, to end at the last cell
/// of the grid.
pub open spec fn fitted(area: Rect) -> Rect {
    clamped_rect(area.x, area.y, area.width, area.height)
}

/// `part` lies across the whole of `area` at right angles to a split
/// along `direction`: as high as the area and on its rows for a
/// horizontal split, as wide as it and on its columns for a vertical one.
pub open spec fn spans(direction: Direction, area: Rect, part: Rect) -> bool {
    match direction {
        Direction::Horizontal => part.y == area.y && part.height == area.height,
        Direction::Vertical => part.x == area.x && part.width == area.width,
    }
}

/// Where `r` starts along a split in `direction`.
pub open spec fn start_along(direction: Direction, r: Rect) -> int {
    match direction {
        Direction::Horizontal => r.x as int,
        Direction::Vertical => r.y as int,
    }
}

/// Where `r` ends along a split in `direction`: the first cell after it.
pub open spec fn end_along(direction: Direction, r: Rect) -> int {
    match direction {
        Direction::Horizontal => r.x + r.width,
        Direction::Vertical => r.y + r.height,
    }
}

/// `parts` are laid out as a split of `area` along `direction` lays them
/// out, whatever sizes the solver chose: each lies across the whole of
/// the area (cut to the grid) and within it along the split, and each
/// ends where or before the next one starts.
pub open spec fn laid_out(direction: Direction, area: Rect, parts: Seq<Rect>) -> bool {
    let a = fitted(area);
    &&& forall|i: int|
        0 <= i < parts.len() ==> {
            &&& spans(direction, a, #[trigger] parts[i])
            &&& start_along(direction, a) <= start_along(direction, parts[i])
            &&& end_along(direction, parts[i]) <= end_along(direction, a)
        }
    &&& forall|i: int, j: int|
        0 <= i < j < parts.len() ==> end_along(direction, #[trigger] parts[i]) <= start_along(
            direction,
            #[trigger] parts[j],
        )
}

/// Calls ratatui's `Layout::split` with the given direction and
/// constraints (default margin, spacing and flex) on `area`, which
/// ratatui's `Rect::new` first cuts to end at the last cell.  The solver
/// makes one part per constraint.  Its required constraints keep every
/// boundary within the area and the boundaries in order, and each part
/// is given the area's extent across the split; so the parts are
/// `laid_out`.  The sizes along the split are the solver's answer and
/// are left unsaid: ratatui's cassowary solver walks a hash map whose
/// order differs between runs, and its documentation calls some answers
/// indeterminate.
#[verifier::external_body]
pub(crate) fn split(direction: Direction, constraints: &Vec<Constraint>, area: Rect) -> (r: Vec<Rect>)
    ensures
        r@.len() == constraints@.len(),
        laid_out(direction, area, r@),
{
    let d = match direction { Direction::Horizontal => TD::Horizontal, Direction::Vertical => TD::Vertical };
    let cs = constraints.iter().map(|c| match *c {
        Constraint::Length(n) => TC::Length(n),
        Constraint::Min(n) => TC::Min(n),
        Constraint::Percentage(n) => TC::Percentage(n),
        Constraint::Ratio(a, b) => TC::Ratio(a, b),
    });
    let parts = Layout::default().direction(d).constraints(cs).split(TR::new(area.x, area.y, area.width, area.height));
    parts.iter().map(|p| Rect { x: p.x, y: p.y, width: p.width, height: p.height }).collect()
}

/// `count` equal shares, as ratios.
pub open spec fn equal_shares(count: nat) -> Seq<Constraint> {
    Seq::new(count, |i: int| Constraint::Ratio(1, count as u32))
}

/// The constraints of `count` equal shares: a ratio of one in `count`
/// each.
pub fn equal_ratios(count: u32) -> (r: Vec<Constraint>)
    ensures
        r@ == equal_shares(count as nat),
{
    let mut constraints: Vec<Constraint> = Vec::new();
    let mut i: u32 = 0;
    while i < count
        invariant
            i <= count,
            constraints@ == Seq::new(i as nat, |k: int| Constraint::Ratio(1, count)),
        decreases count - i,
    {
        constraints.push(Constraint::Ratio(1, count));
        i = i + 1;
        assert(constraints@ =~= Seq::new(i as nat, |k: int| Constraint::Ratio(1, count)));
    }
    assert(constraints@ =~= equal_shares(count as nat));
    constraints
}

/// Splits `area` side by side into `count` equal shares
/// (`equal_ratios`).
pub fn equal_columns(area: Rect, count: u32) -> (r: Vec<Rect>)
    ensures
        r@.len() == count,
        laid_out(Direction::Horizontal, area, r@),
{
    let constraints = equal_ratios(count);
    split(Direction::Horizontal, &constraints, area)
}

/// The three parts of a page with a tab row: the tabs, a list box, and
/// the box of songs of the opened list.
#[derive(Debug, Clone, Copy, PartialEq, Eq, Structural)]
pub struct PageChunks {
    pub tabs: Rect,
    pub list: Rect,
    pub songs: Rect,
}

/// Rows given to the list box above the songs on a narrow page: two more
/// than the lists, from five to eleven.
pub open spec fn list_box_rows(count: int) -> int {
    let wanted = (count as u16) as int + 2;
    if wanted < 5 {
        5
    } else if wanted > 11 {
        11
    } else {
        wanted
    }
}

/// A page narrower than 82 columns stacks its list box above the songs;
/// a wider one sets them side by side.
pub open spec fn content_direction(width: u16) -> Direction {
    if width < 82 {
        Direction::Vertical
    } else {
        Direction::Horizontal
    }
}

/// The sizes asked for the list box and the song box: on a narrow page
/// the list box gets `list_box_rows` rows, on a wide one `list_width`
/// columns; the songs take the rest.
pub open spec fn content_constraints(width: u16, count: int, list_width: u16) -> Seq<Constraint> {
    if width < 82 {
        seq![Constraint::Length(list_box_rows(count) as u16), Constraint::Min(0)]
    } else {
        seq![Constraint::Length(list_width), Constraint::Min(0)]
    }
}

/// How the part of a page `width` columns wide below its tab row is
/// split for `count` lists: the direction and the two sizes.
pub fn content_layout(width: u16, count: usize, list_width: u16) -> (r: (Direction, Vec<Constraint>))
    ensures
        r.0 == content_direction(width),
        r.1@ == content_constraints(width, count as int, list_width),
{
    if width < 82 {
        let wanted = (count as u16) as u32 + 2;
        let height: u16 = if wanted < 5 {
            5
        } else if wanted > 11 {
            11
        } else {
            wanted as u16
        };
        let constraints = vec![Constraint::Length(height), Constraint::Min(0)];
        assert(constraints@ =~= content_constraints(width, count as int, list_width));
        (Direction::Vertical, constraints)
    } else {
        let constraints = vec![Constraint::Length(list_width), Constraint::Min(0)];
        assert(constraints@ =~= content_constraints(width, count as int, list_width));
        (Direction::Horizontal, constraints)
    }
}

/// The sizes asked for the tab row of a page and the rest: one row, and
/// the others.
pub open spec fn page_row_constraints() -> Seq<Constraint> {
    seq![Constraint::Length(1), Constraint::Min(0)]
}

/// The constraints of `page_row_constraints`.
pub fn page_rows() -> (r: Vec<Constraint>)
    ensures
        r@ == page_row_constraints(),
{
    let r = vec![Constraint::Length(1), Constraint::Min(0)];
    assert(r@ =~= page_row_constraints());
    r
}

/// `page` is laid out as `split_page` lays out `area`, whatever sizes
/// the solver chose: the page split into rows (the tab row and the
/// rest), and the rest split in `content_direction` into the list box
/// and the song box.
pub open spec fn page_placed(area: Rect, page: PageChunks) -> bool {
    exists|rows: Seq<Rect>, content: Seq<Rect>|
        #![trigger laid_out(Direction::Vertical, area, rows), laid_out(content_direction(area.width), rows[1], content)]
        {
            &&& rows.len() == 2
            &&& laid_out(Direction::Vertical, area, rows)
            &&& content.len() == 2
            &&& laid_out(content_direction(area.width), rows[1], content)
            &&& page == (PageChunks { tabs: rows[0], list: content[0], songs: content[1] })
        }
}

/// Splits a page showing `count` lists into its tab row, list box and
/// song box (`page_rows`, then `content_layout`).
pub fn split_page(area: Rect, count: usize, list_width: u16) -> (r: PageChunks)
    ensures
        page_placed(area, r),
{
    let rows_constraints = page_rows();
    let rows = split(Direction::Vertical, &rows_constraints, area);
    let (direction, constraints) = content_layout(area.width, count, list_width);
    let content = split(direction, &constraints, rows[1]);
    let r = PageChunks { tabs: rows[0], list: content[0], songs: content[1] };
    assert(laid_out(content_direction(area.width), rows@[1], content@));
    r
}

/// `tabs` are `count` tabs laid out across the tab row `row`: none when
/// there are no tabs.
pub open spec fn tabs_placed(row: Rect, count: int, tabs: Seq<Rect>) -> bool {
    tabs.len() == count && laid_out(Direction::Horizontal, row, tabs)
}

/// Splits a tab row into `count` equal tabs.
pub fn tab_rects(row: Rect, count: usize) -> (r: Vec<Rect>)
    requires
        count <= u32::MAX,
    ensures
        tabs_placed(row, count as int, r@),
{
    if count == 0 {
        return Vec::new();
    }
    equal_columns(row, count as u32)
}

/// The index of the first rectangle holding the cell, if any.
pub open spec fn first_hit(parts: Seq<Rect>, column: int, row: int) -> Option<int>
    decreases parts.len(),
{
    if parts.len() == 0 {
        None
    } else {
        match first_hit(parts.drop_last(), column, row) {
            Some(i) => Some(i),
            None => if inside(parts.last(), column, row) {
                Some(parts.len() - 1)
            } else {
                None
            },
        }
    }
}

/// The index of the first of `parts` that holds the cell.
pub fn hit_index(parts: &Vec<Rect>, column: u16, row: u16) -> (r: Option<usize>)
    ensures
        match r {
            Some(i) => first_hit(parts@, column as int, row as int) == Some(i as int),
            None => first_hit(parts@, column as int, row as int) is None,
        },
{
    let mut i: usize = 0;
    while i < parts.len()
        invariant
            i <= parts@.len(),
            first_hit(parts@.take(i as int), column as int, row as int) is None,
        decreases parts.len() - i,
    {
        assert(parts@.take(i + 1).drop_last() =~= parts@.take(i as int));
        if parts[i].contains(column, row) {
            proof {
                lemma_first_hit_prefix(parts@, i as int + 1, column as int, row as int);
            }
            return Some(i);
        }
        i = i + 1;
    }
    assert(parts@.take(parts@.len() as int) =~= parts@);
    None
}

/// No part of a horizontal split of `area` holds a cell off the rows of
/// `area`.
pub proof fn lemma_first_hit_off_rows(parts: Seq<Rect>, area: Rect, column: int, row: int)
    requires
        laid_out(Direction::Horizontal, area, parts),
        !(area.y <= row < bottom_of(area)),
    ensures
        first_hit(parts, column, row) is None,
    decreases parts.len(),
{
    if parts.len() > 0 {
        assert(spans(Direction::Horizontal, fitted(area), parts[parts.len() - 1]));
        assert(laid_out(Direction::Horizontal, area, parts.drop_last())) by {
            assert forall|i: int| 0 <= i < parts.drop_last().len() implies spans(
                Direction::Horizontal,
                fitted(area),
                #[trigger] parts.drop_last()[i],
            ) by {
                assert(parts.drop_last()[i] == parts[i]);
            }
            assert forall|i: int, j: int| 0 <= i < j < parts.drop_last().len() implies end_along(
                Direction::Horizontal,
                #[trigger] parts.drop_last()[i],
            ) <= start_along(Direction::Horizontal, #[trigger] parts.drop_last()[j]) by {
                assert(parts.drop_last()[i] == parts[i] && parts.drop_last()[j] == parts[j]);
            }
        }
        lemma_first_hit_off_rows(parts.drop_last(), area, column, row);
    }
}

/// A hit within a prefix is the hit of the whole list.
proof fn lemma_first_hit_prefix(parts: Seq<Rect>, n: int, column: int, row: int)
    requires
        0 <= n <= parts.len(),
        first_hit(parts.take(n), column, row) is Some,
    ensures
        first_hit(parts, column, row) == first_hit(parts.take(n), column, row),
    decreases parts.len() - n,
{
    if n < parts.len() {
        assert(parts.take(n + 1).drop_last() =~= parts.take(n));
        lemma_first_hit_prefix(parts, n + 1, column, row);
    } else {
        assert(parts.take(n) =~= parts);
    }
}

} // verus!
