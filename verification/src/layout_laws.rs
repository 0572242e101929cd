//! Laws of where the parts of the screen are.

use vstd::prelude::*;

use crate::layout::{
    center_of, common, inside, lookup_places, on_screen, popup_fits, popup_of, screen_placed,
    search_places, status_places, tab_bar_placed, within_border, Rect, ScreenAreas, TabBarAreas,
};
use crate::state::{AppModel, OverlayModel};
use crate::ui::{
    body_placed, drawable, picker_lines_of, popup_shown, scrollbar_of, text_width, total_rows, Body,
};

verus! {

/// The cell in this column and this row is one of the rectangle.
pub open spec fn has_cell(r: Rect, x: int, y: int) -> bool {
    r.x <= x < r.x + r.width && r.y <= y < r.y + r.height
}

/// The columns of the part are those of the area from `from` on, `n` of them, in all rows.
pub open spec fn takes_columns(part: Rect, area: Rect, from: int, n: int) -> bool {
    part.x == area.x + from && part.width == n && part.y == area.y && part.height == area.height
}

/// The rows of the part are those of the area from `from` on, `n` of them, in all columns.
pub open spec fn takes_rows(part: Rect, area: Rect, from: int, n: int) -> bool {
    part.y == area.y + from && part.height == n && part.x == area.x && part.width == area.width
}

// --- rectangles --------------------------------------------------------------------------

/// What two rectangles have in common are the cells that are in both. What is within the
/// border of a rectangle are its cells that have others of it on all sides.
pub proof fn rectangles_are_sets_of_cells(a: Rect, b: Rect, x: int, y: int)
    requires
        on_screen(a),
        on_screen(b),
    ensures
        has_cell(common(a, b), x, y) <==> has_cell(a, x, y) && has_cell(b, x, y),
        has_cell(within_border(a), x, y) <==> has_cell(a, x - 1, y) && has_cell(a, x + 1, y)
            && has_cell(a, x, y - 1) && has_cell(a, x, y + 1),
{
}

/// The cells within the border: one fewer on each side.
pub proof fn borders_take_a_cell_on_each_side(r: Rect)
    requires
        on_screen(r),
    ensures
        r.width >= 2 ==> within_border(r).x == r.x + 1 && within_border(r).width == r.width - 2,
        r.width < 2 ==> within_border(r).width == 0,
        r.height >= 2 ==> within_border(r).y == r.y + 1 && within_border(r).height == r.height - 2,
        r.height < 2 ==> within_border(r).height == 0,
{
}

// --- the screen --------------------------------------------------------------------------

/// The tabs take the first row of the screen, the status line the last one, and the body
/// all rows between them. On a screen of three rows or fewer the body takes them all, and
/// on one of four it takes three.
pub proof fn the_body_fills_the_screen(r: ScreenAreas, frame: Rect)
    requires
        on_screen(frame),
        screen_placed(r, frame),
    ensures
        frame.height >= 5 ==> {
            &&& takes_rows(r.tabs, frame, 0, 1)
            &&& takes_rows(r.body, frame, 1, frame.height - 2)
            &&& takes_rows(r.status, frame, frame.height - 1, 1)
        },
        frame.height == 4 ==> r.body.height == 3 && r.tabs.height + r.status.height == 1,
        frame.height <= 3 ==> r.body == frame && r.tabs.height == 0 && r.status.height == 0,
        r.tabs.y == frame.y,
        r.body.y == r.tabs.y + r.tabs.height,
        r.status.y == r.body.y + r.body.height,
        r.status.y + r.status.height == frame.y + frame.height,
{
    let parts = seq![r.tabs, r.body, r.status];
    assert(parts[0] == r.tabs && parts[1] == r.body && parts[2] == r.status);
}

/// In the tab line, the title takes the first eight columns, the time of the update the
/// last ones, as many as it asks for, and the tabs all between them.
pub proof fn the_tabs_fill_their_line(r: TabBarAreas, area: Rect, updated: u16)
    requires
        on_screen(area),
        tab_bar_placed(r, area, updated),
    ensures
        area.width >= 8 + updated ==> {
            &&& takes_columns(r.title, area, 0, 8)
            &&& takes_columns(r.tabs, area, 8, area.width - 8 - updated)
            &&& takes_columns(r.updated, area, area.width - updated, updated as int)
        },
        area.width < 8 + updated ==> r.tabs.width == 0 && r.title.width + r.updated.width
            == area.width,
        r.title.width <= 8 && r.updated.width <= updated,
        r.title.x == area.x,
        r.tabs.x == r.title.x + r.title.width,
        r.updated.x == r.tabs.x + r.tabs.width,
{
    let parts = seq![r.title, r.tabs, r.updated];
    assert(parts[0] == r.title && parts[1] == r.tabs && parts[2] == r.updated);
}

/// On the Search tab the sidebar takes thirty columns at the left and the results all
/// others, but three of them before the sidebar has any. Without the sidebar the results
/// take the whole tab.
pub proof fn the_results_fill_the_search_tab(area: Rect)
    requires
        on_screen(area),
    ensures
        search_places(area, true).sidebar is None && search_places(area, true).results == area,
        ({
            let places = search_places(area, false);
            let left = if area.width >= 33 {
                30
            } else if area.width >= 3 {
                area.width - 3
            } else {
                0
            };
            &&& places.sidebar is Some
            &&& takes_columns(places.sidebar->0, area, 0, left)
            &&& takes_columns(places.results, area, left, area.width - left)
        }),
{
}

/// On the Lookup tab the input takes the first three rows and its help all others. In the
/// status line the message takes the last columns, as many as it asks for, and the hints
/// all others.
pub proof fn inputs_and_messages_take_what_they_ask_for(area: Rect, message: u16)
    requires
        on_screen(area),
    ensures
        ({
            let places = lookup_places(area);
            let top = if area.height >= 3 {
                3
            } else {
                area.height as int
            };
            &&& takes_rows(places.input, area, 0, top)
            &&& takes_rows(places.help, area, top, area.height - top)
        }),
        ({
            let places = status_places(area, message);
            let right = if area.width >= message {
                message as int
            } else {
                area.width as int
            };
            &&& takes_columns(places.left, area, 0, area.width - right)
            &&& takes_columns(places.right, area, area.width - right, right)
        }),
{
}

// --- popups ------------------------------------------------------------------------------

/// `n` is so many percent of `size`, to the nearest whole number; of two that are as near,
/// the larger one.
pub open spec fn nearest_share(n: int, percent: int, size: int) -> bool {
    -50 <= percent * size - 100 * n < 50
}

/// A centred rectangle has its percentages of the area, and half of what is left over before
/// it. Its ends are rounded to the nearest cell. Where what is left over is odd, there is one
/// percent more behind it.
pub proof fn centred_rectangles_leave_equal_margins(
    area: Rect,
    percent_x: int,
    percent_y: int,
    margin_x: int,
    margin_y: int,
)
    requires
        on_screen(area),
        0 <= percent_x <= 100,
        0 <= percent_y <= 100,
        2 * margin_x <= 100 - percent_x <= 2 * margin_x + 1,
        2 * margin_y <= 100 - percent_y <= 2 * margin_y + 1,
    ensures
        ({
            let r = center_of(area, percent_x, percent_y);
            &&& inside(r, area)
            &&& nearest_share(r.x - area.x, margin_x, area.width as int)
            &&& nearest_share(r.x + r.width - area.x, margin_x + percent_x, area.width as int)
            &&& nearest_share(r.y - area.y, margin_y, area.height as int)
            &&& nearest_share(r.y + r.height - area.y, margin_y + percent_y, area.height as int)
        }),
{
    let w = area.width as int;
    let h = area.height as int;
    assert(0 <= margin_x * w <= (margin_x + percent_x) * w <= 100 * w) by (nonlinear_arith)
        requires
            0 <= margin_x,
            0 <= percent_x,
            margin_x + percent_x <= 100,
            w >= 0,
    ;
    assert(0 <= margin_y * h <= (margin_y + percent_y) * h <= 100 * h) by (nonlinear_arith)
        requires
            0 <= margin_y,
            0 <= percent_y,
            margin_y + percent_y <= 100,
            h >= 0,
    ;
}

/// There is a scrollbar where rows are shown but not all of them. It stands between the
/// corners of the border.
pub proof fn scrollbars_show_what_is_hidden(area: Rect, total: nat, visible: nat, offset: usize)
    requires
        on_screen(area),
        total <= u128::MAX,
    ensures
        scrollbar_of(area, total, visible, offset) is Some <==> 0 < visible < total,
        scrollbar_of(area, total, visible, offset) matches Some(bar) ==> {
            &&& bar.position == offset
            &&& bar.length == total - visible
            &&& area.height >= 2 ==> takes_rows(bar.area, area, 1, area.height - 2)
            &&& area.height < 2 ==> bar.area.width == 0 && bar.area.height == 0
        },
{
}

/// The screen can be drawn wherever it has columns and rows that can be counted; the picker
/// also needs three rows, and two more for its border than it has lines.
pub proof fn screens_can_be_drawn(m: AppModel, frame: Rect)
    ensures
        m.overlay !is AssignerPicker ==> (drawable(m, frame) <==> frame.x + frame.width <= 0xffff
            && frame.y + frame.height <= 0xffff),
        m.overlay matches OverlayModel::AssignerPicker { cursor } ==> (drawable(m, frame) <==> frame.x
            + frame.width <= 0xffff && frame.y + frame.height <= 0xffff && frame.height >= 3
            && picker_lines_of(m, cursor).len() % 65536 + 2 <= 0xffff),
{
}

/// The parts of a tab are placed in the body of the screen: a feed takes all of it, the
/// others are divided.
pub proof fn tabs_are_placed_in_the_body(b: Body, area: Rect)
    ensures
        body_placed(b, area) <==> match b {
            Body::Search { screen, areas } => areas == search_places(area, screen.sidebar is None),
            Body::Feed { area: whole, .. } => whole == area,
            Body::Lookup { areas, .. } => areas == lookup_places(area),
        },
{
}

/// A popup that has as many rows as its lines and its border, if there are as many, and
/// forty columns, if there are as many, is in the middle of the screen: what is left over
/// at its sides is the same, or one more behind it.
pub proof fn popups_are_in_the_middle(frame: Rect, lines: nat)
    requires
        popup_fits(frame, lines),
        lines < 65536,
    ensures
        ({
            let r = popup_of(frame, lines);
            &&& r.width == if frame.width < 40 {
                frame.width
            } else {
                40
            }
            &&& lines == 0 ==> r.height == 3
            &&& 0 < lines && lines + 2 <= frame.height ==> r.height == lines + 2
            &&& 0 < lines && lines + 2 > frame.height ==> r.height == frame.height
            &&& 0 <= (frame.width - r.width - r.x) - r.x <= 1
            &&& 0 <= (frame.height - r.height - r.y) - r.y <= 1
        }),
{
}

/// The help takes the middle of the screen, and so do the details, which are larger. They
/// are scrolled as far as is asked for, but not past the end of their text. The details
/// have a scrollbar at their right border where they do not fit.
pub proof fn popups_have_their_places(m: AppModel, frame: Rect)
    requires
        on_screen(frame),
    ensures
        m.overlay matches OverlayModel::Help { scroll } ==> ({
            let p = popup_shown(m, frame)->0;
            let r = center_of(frame, 60, 70);
            let rows = within_border(p.area).height as int;
            &&& p.area == common(r, frame)
            &&& p.scroll == if p.lines.len() <= rows {
                0
            } else if scroll < p.lines.len() - rows {
                scroll as int
            } else {
                p.lines.len() - rows
            }
        }),
        m.overlay matches OverlayModel::Detail(d) ==> ({
            let p = popup_shown(m, frame)->0;
            let rows = within_border(p.area).height as int;
            let total = total_rows(p.lines, text_width(p.area)) as int;
            &&& p.area == center_of(frame, 94, 92)
            &&& p.scroll == if total <= rows {
                0
            } else if d.scroll < total - rows {
                d.scroll as int
            } else if total - rows <= 0xffff {
                total - rows
            } else {
                0xffff
            }
            &&& p.scrollbar is Some <==> total > rows && rows > 0
            &&& p.scrollbar matches Some(bar) ==> {
                &&& bar.position == p.scroll
                &&& bar.length == total - rows
                &&& bar.area.x == p.area.x && bar.area.width == p.area.width
                &&& bar.area.y == p.area.y + 1 && bar.area.height == p.area.height - 2
            }
        }),
        m.overlay matches OverlayModel::AssignerPicker { .. } ==> ({
            let p = popup_shown(m, frame)->0;
            p.area == popup_of(frame, p.lines.len())
        }),
{
    centred_rectangles_leave_equal_margins(frame, 94, 92, 3, 4);
    if let OverlayModel::Detail(d) = m.overlay {
        let p = popup_shown(m, frame)->0;
        lemma_rows_are_counted(p.lines, text_width(p.area));
    }
}

proof fn lemma_rows_are_counted(rows: Seq<crate::lines::LineView>, width: nat)
    ensures
        total_rows(rows, width) <= u128::MAX,
{
}

/// The text of a popup is as wide as the popup within its border, and at least one column.
pub proof fn texts_are_as_wide_as_their_popup(area: Rect)
    ensures
        text_width(area) == if area.width <= 3 {
            1
        } else {
            (area.width - 2) as nat
        },
{
}

} // verus!
