//! Where things stand on the screen.

use ratatui::layout::{Constraint, Layout};
use vstd::prelude::*;

verus! {

/// A rectangle of cells. Columns count from the left, rows from the top.
#[derive(Clone, Copy, Debug, PartialEq, Eq, Structural)]
pub struct Rect {
    pub x: u16,
    pub y: u16,
    pub width: u16,
    pub height: u16,
}

/// The edges of the rectangle are columns and rows of a screen.
pub open spec fn on_screen(r: Rect) -> bool {
    r.x + r.width <= u16::MAX && r.y + r.height <= u16::MAX
}

/// Every cell of `inner` is a cell of `outer`, and its edges are within those of
/// `outer`.
pub open spec fn inside(inner: Rect, outer: Rect) -> bool {
    &&& outer.x <= inner.x
    &&& inner.x + inner.width <= outer.x + outer.width
    &&& outer.y <= inner.y
    &&& inner.y + inner.height <= outer.y + outer.height
}

/// The rows of `area` from `from` on, `n` of them.
pub open spec fn rows_of(area: Rect, from: int, n: int) -> Rect {
    Rect { y: (area.y + from) as u16, height: n as u16, ..area }
}

/// The columns of `area` from `from` on, `n` of them.
pub open spec fn columns_of(area: Rect, from: int, n: int) -> Rect {
    Rect { x: (area.x + from) as u16, width: n as u16, ..area }
}

/// What two rectangles have in common. Where they are apart, nothing: a width or a
/// height of 0.
pub open spec fn common(a: Rect, b: Rect) -> Rect {
    let x1 = if a.x < b.x { b.x } else { a.x };
    let y1 = if a.y < b.y { b.y } else { a.y };
    let x2 = if a.x + a.width < b.x + b.width { a.x + a.width } else { b.x + b.width };
    let y2 = if a.y + a.height < b.y + b.height { a.y + a.height } else { b.y + b.height };
    Rect {
        x: x1,
        y: y1,
        width: if x1 < x2 { (x2 - x1) as u16 } else { 0 },
        height: if y1 < y2 { (y2 - y1) as u16 } else { 0 },
    }
}

/// The rectangle within a border of one cell on each side.
pub open spec fn within_border(r: Rect) -> Rect {
    Rect {
        x: if r.width == 0 { r.x } else { (r.x + 1) as u16 },
        y: if r.height == 0 { r.y } else { (r.y + 1) as u16 },
        width: if r.width < 2 { 0 } else { (r.width - 2) as u16 },
        height: if r.height < 2 { 0 } else { (r.height - 2) as u16 },
    }
}

/// The rows of `r` but the first and the last; nothing where it has fewer than two.
pub open spec fn between_corners(r: Rect) -> Rect {
    if r.height < 2 {
        Rect { x: 0, y: 0, width: 0, height: 0 }
    } else {
        rows_of(r, 1, r.height - 2)
    }
}

impl Rect {
    /// What two rectangles have in common.
    pub fn intersection(self, other: Rect) -> (r: Rect)
        requires
            on_screen(self),
            on_screen(other),
        ensures
            r == common(self, other),
    {
        let x1: u16 = if self.x < other.x { other.x } else { self.x };
        let y1: u16 = if self.y < other.y { other.y } else { self.y };
        let right: u16 = self.x + self.width;
        let bottom: u16 = self.y + self.height;
        let other_right: u16 = other.x + other.width;
        let other_bottom: u16 = other.y + other.height;
        let x2: u16 = if right < other_right { right } else { other_right };
        let y2: u16 = if bottom < other_bottom { bottom } else { other_bottom };
        Rect {
            x: x1,
            y: y1,
            width: if x1 < x2 { x2 - x1 } else { 0 },
            height: if y1 < y2 { y2 - y1 } else { 0 },
        }
    }

    /// The rectangle within a border of one cell on each side.
    pub fn bordered(self) -> (r: Rect)
        requires
            on_screen(self),
        ensures
            r == within_border(self),
    {
        Rect {
            x: if self.width == 0 { self.x } else { self.x + 1 },
            y: if self.height == 0 { self.y } else { self.y + 1 },
            width: if self.width < 2 { 0 } else { self.width - 2 },
            height: if self.height < 2 { 0 } else { self.height - 2 },
        }
    }

    /// The rows but the first and the last.
    pub fn middle_rows(self) -> (r: Rect)
        requires
            on_screen(self),
        ensures
            r == between_corners(self),
    {
        if self.height < 2 {
            Rect { x: 0, y: 0, width: 0, height: 0 }
        } else {
            Rect { x: self.x, y: self.y + 1, width: self.width, height: self.height - 2 }
        }
    }
}

// --- dividing an area ------------------------------------------------------------------

/// Along which axis an area is divided.
#[derive(Clone, Copy, Debug, PartialEq, Eq, Structural)]
pub enum Direction {
    Horizontal,
    Vertical,
}

/// What a part of an area is to have: a number of cells, at least a number of cells
/// and all that is left over, or a percentage of the area.
#[derive(Clone, Copy, Debug, PartialEq, Eq, Structural)]
pub enum Rule {
    Length(u16),
    Min(u16),
    Percentage(u16),
}

/// The first cell of an area along an axis.
pub open spec fn start_along(r: Rect, d: Direction) -> int {
    match d {
        Direction::Horizontal => r.x as int,
        Direction::Vertical => r.y as int,
    }
}

/// The number of cells of an area along an axis.
pub open spec fn size_along(r: Rect, d: Direction) -> int {
    match d {
        Direction::Horizontal => r.width as int,
        Direction::Vertical => r.height as int,
    }
}

/// The part of an area from the cell `from` on, `n` cells long.
pub open spec fn part_along(r: Rect, d: Direction, from: int, n: int) -> Rect {
    match d {
        Direction::Horizontal => columns_of(r, from, n),
        Direction::Vertical => rows_of(r, from, n),
    }
}

/// `part` spans `area` across the axis and lies within it along the axis.
pub open spec fn is_part(part: Rect, area: Rect, d: Direction) -> bool {
    &&& inside(part, area)
    &&& match d {
        Direction::Horizontal => part.y == area.y && part.height == area.height,
        Direction::Vertical => part.x == area.x && part.width == area.width,
    }
}

/// The cells that the first `n` rules ask for by number: what is left over is not
/// counted.
pub open spec fn lengths(rules: Seq<Rule>, n: int) -> int
    decreases n,
{
    if n <= 0 {
        0
    } else {
        lengths(rules, n - 1) + match rules[n - 1] {
            Rule::Length(l) => l as int,
            _ => 0,
        }
    }
}

/// All rules but the rule `rest` ask for a number of cells, and that one for what they
/// leave over.
pub open spec fn one_rest(rules: Seq<Rule>, rest: int) -> bool {
    &&& 0 <= rest < rules.len()
    &&& rules[rest] matches Rule::Min(m) && m <= i16::MAX
    &&& forall|i: int| 0 <= i < rules.len() && i != rest ==> #[trigger] rules[i] is Length
}

/// How many of `size` cells a part has that asks for at least `min` cells and for what
/// is left over, next to others that ask for `others` cells: what is left over, but not
/// less than it asks for while there are as many.
pub open spec fn rest_size(size: int, others: int, min: int) -> int {
    if others + min <= size {
        size - others
    } else if min <= size {
        min
    } else {
        size
    }
}

/// The parts follow one another without gaps, from one end of the area to the other.
pub open spec fn tile(parts: Seq<Rect>, area: Rect, d: Direction) -> bool {
    &&& parts.len() > 0
    &&& start_along(parts[0], d) == start_along(area, d)
    &&& forall|i: int|
        #![trigger parts[i]]
        0 <= i < parts.len() ==> start_along(parts[i], d) + size_along(parts[i], d) == (if i + 1
            < parts.len() {
            start_along(parts[i + 1], d)
        } else {
            start_along(area, d) + size_along(area, d)
        })
}

/// The parts fill the area in order, the part `rest` has what the others leave over but
/// what it asks for first, and none of the others has more than it asks for.
pub open spec fn shared_out(
    parts: Seq<Rect>,
    rules: Seq<Rule>,
    rest: int,
    area: Rect,
    d: Direction,
) -> bool {
    &&& tile(parts, area, d)
    &&& size_along(parts[rest], d) == rest_size(
        size_along(area, d),
        lengths(rules, rules.len() as int),
        rules[rest]->Min_0 as int,
    )
    &&& forall|i: int|
        #![trigger parts[i]]
        0 <= i < parts.len() && i != rest ==> size_along(parts[i], d) <= rules[i]->Length_0
}

/// The percentages that the first `n` rules ask for, added up.
pub open spec fn percent(rules: Seq<Rule>, n: int) -> int
    decreases n,
{
    if n <= 0 {
        0
    } else {
        percent(rules, n - 1) + match rules[n - 1] {
            Rule::Percentage(p) => p as int,
            _ => 0,
        }
    }
}

/// All rules ask for percentages, which are no more than the whole.
pub open spec fn all_shares(rules: Seq<Rule>) -> bool {
    &&& forall|i: int| 0 <= i < rules.len() ==> #[trigger] rules[i] is Percentage
    &&& percent(rules, rules.len() as int) <= 100
}

/// Where the part `i` begins when the rules are shares: the exact place, rounded to
/// the nearest cell, halves upwards.
pub open spec fn share_from(rules: Seq<Rule>, size: int, i: int) -> int {
    (percent(rules, i) * size + 50) / 100
}

/// `ratatui::layout::Layout::split`, with the constraints `Length`, `Min` and
/// `Percentage`. There is one part for each rule. Every part spans the area across
/// the axis and lies within it. Where one rule is a minimum and the others are lengths,
/// the parts fill the area in order and without gaps; the minimum is met first, then
/// the lengths, none of which is exceeded, and what is left over goes to the minimum.
/// Where all rules ask for percentages that are no more than the whole, the parts follow
/// one another without gaps, and each border between them is the exact one, rounded to
/// the nearest cell. Lists of more than three rules are left out.
///
/// Which of two lengths yields where there is no room for both is not stated: they are
/// of equal strength, and the solver picks one by walking hash maps with seeds that
/// differ from process to process.
#[verifier::external_body]
fn split(area: Rect, direction: Direction, rules: &Vec<Rule>) -> (parts: Vec<Rect>)
    requires
        on_screen(area),
        rules@.len() <= 3,
    ensures
        parts@.len() == rules@.len(),
        forall|i: int|
            0 <= i < parts@.len() ==> #[trigger] is_part(parts@[i], area, direction),
        forall|rest: int|
            #[trigger] one_rest(rules@, rest) ==> shared_out(
                parts@,
                rules@,
                rest,
                area,
                direction,
            ),
        all_shares(rules@) ==> forall|i: int|
            0 <= i < parts@.len() ==> #[trigger] parts@[i] == part_along(
                area,
                direction,
                share_from(rules@, size_along(area, direction), i),
                share_from(rules@, size_along(area, direction), i + 1) - share_from(
                    rules@,
                    size_along(area, direction),
                    i,
                ),
            ),
{
    let whole = ratatui::layout::Rect { x: area.x, y: area.y, width: area.width, height: area.height };
    let asked = rules.iter().map(|r| match r {
        Rule::Length(n) => Constraint::Length(*n),
        Rule::Min(n) => Constraint::Min(*n),
        Rule::Percentage(n) => Constraint::Percentage(*n),
    });
    let layout = match direction {
        Direction::Horizontal => Layout::horizontal(asked),
        Direction::Vertical => Layout::vertical(asked),
    };
    let parts = layout.split(whole);
    parts.iter().map(|p| Rect { x: p.x, y: p.y, width: p.width, height: p.height }).collect()
}

// --- the parts of the screen ---------------------------------------------------------------

/// How many columns the filter sidebar has.
pub const SIDEBAR_WIDTH: u16 = 30;

/// The parts of the screen, from top to bottom.
#[derive(Clone, Copy, Debug, PartialEq, Eq, Structural)]
pub struct ScreenAreas {
    pub tabs: Rect,
    pub body: Rect,
    pub status: Rect,
}

/// The tabs, the body and the status line fill the screen in this order. The tabs and
/// the status line take one row each, the body takes the rows between them, and three
/// before the others have any. Where there is no room for both of the others, one of
/// them yields.
pub open spec fn screen_placed(r: ScreenAreas, frame: Rect) -> bool {
    &&& tile(seq![r.tabs, r.body, r.status], frame, Direction::Vertical)
    &&& is_part(r.tabs, frame, Direction::Vertical)
    &&& is_part(r.body, frame, Direction::Vertical)
    &&& is_part(r.status, frame, Direction::Vertical)
    &&& r.tabs.height <= 1
    &&& r.body.height == rest_size(frame.height as int, 2, 3)
    &&& r.status.height <= 1
    &&& frame.height >= 5 ==> r == (ScreenAreas {
        tabs: rows_of(frame, 0, 1),
        body: rows_of(frame, 1, frame.height - 2),
        status: rows_of(frame, frame.height - 1, 1),
    })
    &&& frame.height <= 3 ==> r == (ScreenAreas {
        tabs: rows_of(frame, 0, 0),
        body: frame,
        status: rows_of(frame, frame.height as int, 0),
    })
}

/// The places of the tabs, the body and the status line.
pub fn screen_areas(frame: Rect) -> (r: ScreenAreas)
    requires
        on_screen(frame),
    ensures
        screen_placed(r, frame),
{
    let rules = vec![Rule::Length(1), Rule::Min(3), Rule::Length(1)];
    let parts = split(frame, Direction::Vertical, &rules);
    proof {
        lemma_three(rules@);
        assert(is_part(parts@[0], frame, Direction::Vertical));
        assert(is_part(parts@[1], frame, Direction::Vertical));
        assert(is_part(parts@[2], frame, Direction::Vertical));
        assert(one_rest(rules@, 1));
    }
    assert(parts@ =~= seq![parts@[0], parts@[1], parts@[2]]);
    ScreenAreas { tabs: parts[0], body: parts[1], status: parts[2] }
}

proof fn lemma_three(rules: Seq<Rule>)
    requires
        rules.len() == 3,
    ensures
        lengths(rules, 0) == 0,
        lengths(rules, 1) == lengths(rules, 0) + match rules[0] {
            Rule::Length(l) => l as int,
            _ => 0,
        },
        lengths(rules, 2) == lengths(rules, 1) + match rules[1] {
            Rule::Length(l) => l as int,
            _ => 0,
        },
        lengths(rules, 3) == lengths(rules, 2) + match rules[2] {
            Rule::Length(l) => l as int,
            _ => 0,
        },
{
}

/// The parts of the tab line, from left to right.
#[derive(Clone, Copy, Debug, PartialEq, Eq, Structural)]
pub struct TabBarAreas {
    pub title: Rect,
    pub tabs: Rect,
    pub updated: Rect,
}

/// The title, the tabs and the time of the last update fill the line in this order. The
/// title takes eight columns, the time those that it asks for, the tabs take the columns
/// between them. Where there is no room for both of the others, the tabs have none, and
/// the others share the line.
pub open spec fn tab_bar_placed(r: TabBarAreas, area: Rect, updated: u16) -> bool {
    &&& tile(seq![r.title, r.tabs, r.updated], area, Direction::Horizontal)
    &&& is_part(r.title, area, Direction::Horizontal)
    &&& is_part(r.tabs, area, Direction::Horizontal)
    &&& is_part(r.updated, area, Direction::Horizontal)
    &&& r.title.width <= 8
    &&& r.tabs.width == rest_size(area.width as int, 8 + updated, 0)
    &&& r.updated.width <= updated
    &&& area.width >= 8 + updated ==> r == (TabBarAreas {
        title: columns_of(area, 0, 8),
        tabs: columns_of(area, 8, area.width - 8 - updated),
        updated: columns_of(area, area.width - updated, updated as int),
    })
}

/// The places of the title, the tabs and the time of the last update.
pub fn tab_bar_areas(area: Rect, updated: u16) -> (r: TabBarAreas)
    requires
        on_screen(area),
    ensures
        tab_bar_placed(r, area, updated),
{
    let rules = vec![Rule::Length(8), Rule::Min(0), Rule::Length(updated)];
    let parts = split(area, Direction::Horizontal, &rules);
    proof {
        lemma_three(rules@);
        assert(is_part(parts@[0], area, Direction::Horizontal));
        assert(is_part(parts@[1], area, Direction::Horizontal));
        assert(is_part(parts@[2], area, Direction::Horizontal));
        assert(one_rest(rules@, 1));
    }
    assert(parts@ =~= seq![parts@[0], parts@[1], parts@[2]]);
    TabBarAreas { title: parts[0], tabs: parts[1], updated: parts[2] }
}

proof fn lemma_two(rules: Seq<Rule>)
    requires
        rules.len() == 2,
    ensures
        lengths(rules, 0) == 0,
        lengths(rules, 1) == lengths(rules, 0) + match rules[0] {
            Rule::Length(l) => l as int,
            _ => 0,
        },
        lengths(rules, 2) == lengths(rules, 1) + match rules[1] {
            Rule::Length(l) => l as int,
            _ => 0,
        },
{
}

/// The parts of the Search tab. A sidebar that is collapsed has none.
#[derive(Clone, Copy, Debug, PartialEq, Eq, Structural)]
pub struct SearchAreas {
    pub sidebar: Option<Rect>,
    pub results: Rect,
}

/// The results take the whole area while the sidebar is collapsed. Else they take the
/// columns to the right of it, and three before it has any.
pub open spec fn search_places(area: Rect, collapsed: bool) -> SearchAreas {
    let results = rest_size(area.width as int, SIDEBAR_WIDTH as int, 3);
    if collapsed {
        SearchAreas { sidebar: None, results: area }
    } else {
        SearchAreas {
            sidebar: Some(columns_of(area, 0, area.width - results)),
            results: columns_of(area, area.width - results, results),
        }
    }
}

/// The places of the filter sidebar and the results.
pub fn search_areas(area: Rect, collapsed: bool) -> (r: SearchAreas)
    requires
        on_screen(area),
    ensures
        r == search_places(area, collapsed),
{
    if collapsed {
        return SearchAreas { sidebar: None, results: area };
    }
    let rules = vec![Rule::Length(SIDEBAR_WIDTH), Rule::Min(3)];
    let parts = split(area, Direction::Horizontal, &rules);
    proof {
        lemma_two(rules@);
        assert(is_part(parts@[0], area, Direction::Horizontal));
        assert(is_part(parts@[1], area, Direction::Horizontal));
        assert(one_rest(rules@, 1));
    }
    SearchAreas { sidebar: Some(parts[0]), results: parts[1] }
}

/// The parts of the Lookup tab, from top to bottom.
#[derive(Clone, Copy, Debug, PartialEq, Eq, Structural)]
pub struct LookupAreas {
    pub input: Rect,
    pub help: Rect,
}

/// The input takes three rows with its border, or as many as there are; the text below
/// it takes the others.
pub open spec fn lookup_places(area: Rect) -> LookupAreas {
    let help = rest_size(area.height as int, 3, 0);
    LookupAreas {
        input: rows_of(area, 0, area.height - help),
        help: rows_of(area, area.height - help, help),
    }
}

/// The places of the input and of the text below it.
pub fn lookup_areas(area: Rect) -> (r: LookupAreas)
    requires
        on_screen(area),
    ensures
        r == lookup_places(area),
{
    let rules = vec![Rule::Length(3), Rule::Min(0)];
    let parts = split(area, Direction::Vertical, &rules);
    proof {
        lemma_two(rules@);
        assert(is_part(parts@[0], area, Direction::Vertical));
        assert(is_part(parts@[1], area, Direction::Vertical));
        assert(one_rest(rules@, 1));
    }
    LookupAreas { input: parts[0], help: parts[1] }
}

/// The parts of the status line, from left to right.
#[derive(Clone, Copy, Debug, PartialEq, Eq, Structural)]
pub struct StatusAreas {
    pub left: Rect,
    pub right: Rect,
}

/// The message on the right takes the columns that it asks for, or as many as there
/// are; the hints take the others.
pub open spec fn status_places(area: Rect, message: u16) -> StatusAreas {
    let hints = rest_size(area.width as int, message as int, 0);
    StatusAreas {
        left: columns_of(area, 0, hints),
        right: columns_of(area, hints, area.width - hints),
    }
}

/// The places of the hints and of the message.
pub fn status_areas(area: Rect, message: u16) -> (r: StatusAreas)
    requires
        on_screen(area),
    ensures
        r == status_places(area, message),
{
    let rules = vec![Rule::Min(0), Rule::Length(message)];
    let parts = split(area, Direction::Horizontal, &rules);
    proof {
        lemma_two(rules@);
        assert(is_part(parts@[0], area, Direction::Horizontal));
        assert(is_part(parts@[1], area, Direction::Horizontal));
        assert(one_rest(rules@, 0));
    }
    StatusAreas { left: parts[0], right: parts[1] }
}

// --- overlays --------------------------------------------------------------------------------

/// `percent` percent of `size` cells in the middle of them: the first cell and the
/// first one behind, each rounded to the nearest cell, halves upwards. What an odd
/// remainder has too much is left at the end.
pub open spec fn middle(size: int, percent: int) -> (int, int) {
    let margin = (100 - percent) / 2;
    ((margin * size + 50) / 100, ((margin + percent) * size + 50) / 100)
}

/// The rectangle in the middle of `area` that has the given percentages of its width
/// and its height.
pub open spec fn center_of(area: Rect, percent_x: int, percent_y: int) -> Rect {
    let (left, right) = middle(area.width as int, percent_x);
    let (top, bottom) = middle(area.height as int, percent_y);
    Rect {
        x: (area.x + left) as u16,
        y: (area.y + top) as u16,
        width: (right - left) as u16,
        height: (bottom - top) as u16,
    }
}

/// The middle one of three parts, where the outer ones have half of what is left each.
fn middle_part(area: Rect, direction: Direction, share: u16) -> (r: Rect)
    requires
        on_screen(area),
        share <= 100,
    ensures
        r == ({
            let (from, to) = middle(size_along(area, direction), share as int);
            part_along(area, direction, from, to - from)
        }),
        is_part(r, area, direction),
{
    let margin: u16 = (100 - share) / 2;
    let rules = vec![
        Rule::Percentage(margin),
        Rule::Percentage(share),
        Rule::Percentage(margin),
    ];
    let parts = split(area, direction, &rules);
    proof {
        assert(percent(rules@, 0) == 0);
        assert(percent(rules@, 1) == margin);
        assert(percent(rules@, 2) == margin + share);
        assert(percent(rules@, 3) == margin + share + margin);
        assert(all_shares(rules@));
        assert(is_part(parts@[1], area, direction));
    }
    parts[1]
}

/// The rectangle in the middle of `area` that has the given percentages of its width
/// and its height.
pub fn centered(area: Rect, percent_x: u16, percent_y: u16) -> (r: Rect)
    requires
        on_screen(area),
        percent_x <= 100,
        percent_y <= 100,
    ensures
        r == center_of(area, percent_x as int, percent_y as int),
        inside(r, area),
{
    let rows = middle_part(area, Direction::Vertical, percent_y);
    middle_part(rows, Direction::Horizontal, percent_x)
}

/// How many rows a popup with `lines` lines has: two more for its border, at least
/// three and no more than there are.
pub open spec fn popup_height(lines: int, rows: int) -> int {
    if lines + 2 < 3 {
        3
    } else if lines + 2 > rows {
        rows
    } else {
        lines + 2
    }
}

/// The place of a popup with `lines` lines: 40 columns wide where there are as many,
/// in the middle of the screen. The number of lines counts up to 65,535 and starts at
/// 0 again.
pub open spec fn popup_of(frame: Rect, lines: nat) -> Rect {
    let width = if frame.width < 40 { frame.width as int } else { 40 };
    let height = popup_height((lines % 65536) as int, frame.height as int);
    Rect {
        x: ((frame.width - width) / 2) as u16,
        y: ((frame.height - height) / 2) as u16,
        width: width as u16,
        height: height as u16,
    }
}

/// A popup with `lines` lines has a place: the screen has three rows, and the lines
/// with the border can be counted.
pub open spec fn popup_fits(frame: Rect, lines: nat) -> bool {
    frame.height >= 3 && lines % 65536 <= 65533
}

/// The place of a popup with `lines` lines.
pub fn popup_area(frame: Rect, lines: usize) -> (r: Rect)
    requires
        popup_fits(frame, lines as nat),
    ensures
        r == popup_of(frame, lines as nat),
{
    let count: u16 = (lines % 65536) as u16;
    let wanted: u16 = count + 2;
    let height: u16 = if wanted < 3 {
        3
    } else if wanted > frame.height {
        frame.height
    } else {
        wanted
    };
    let width: u16 = if frame.width < 40 { frame.width } else { 40 };
    Rect { x: (frame.width - width) / 2, y: (frame.height - height) / 2, width, height }
}

} // verus!
