//! Laws of what the screen shows, part by part.

use vstd::prelude::*;

use crate::api::{first_cve, Vulnerability, VulnerabilityView};
use crate::clock::ClockTime;
use crate::dates::before_second_comma;
use crate::edit::byte_len;
use crate::key_laws::text_of_filter;
use crate::lines::{lines_of_advisory, lines_of_help, lines_of_vuln, score_style_of, LineView};
use crate::number::{decimal, pad_right};
use crate::pieces::{comma_entries, join, nonblank_lines, words};
use crate::record_laws::{as_it_is, one_if, shows_text};
use crate::search::{pages, SearchFocus, SearchModel};
use crate::state::{
    well_formed, AppModel, DetailContentView, DetailModel, FeedModel, LookupModel, OverlayModel,
};
use crate::style::{cell_width, line_width, Color, SpanView, Style};
use crate::steps::loading;
use crate::text::same_ignoring_case;
use crate::ui::{
    body_of, detail_title_of, drawn, feed_title_of, hints_of, lookup_screen_of, picker_lines_of,
    popup_shown, results_title_of, row_of, rows_of_items, rows_taken, search_screen_of, sidebar_of,
    spinner_at, status_bar_of, tab_bar_of, total_rows, with_cursor, BodyModel, APP_TITLE,
    HIGHLIGHT_SYMBOL, SIDEBAR_TITLE, TABLE_HEADER,
};

verus! {

/// A span of this text as the terminal has it.
pub open spec fn bare(text: Seq<char>) -> SpanView {
    SpanView { text, style: as_it_is() }
}

/// A dim span of this text.
pub open spec fn faint(text: Seq<char>) -> SpanView {
    SpanView { text, style: Style { dim: true, ..as_it_is() } }
}

/// A span of this text in this colour.
pub open spec fn in_color(text: Seq<char>, c: Color) -> SpanView {
    SpanView { text, style: Style { fg: Some(c), ..as_it_is() } }
}

/// The border is the one of what has the focus, or of what has not.
pub open spec fn bordered(border: Style, focused: bool) -> bool {
    border == if focused {
        Style { fg: Some(Color::Cyan), ..as_it_is() }
    } else {
        Style { dim: true, ..as_it_is() }
    }
}

// --- the line at the top -----------------------------------------------------------------

/// A time of the day is shown as hours, minutes and seconds, with two digits each and
/// colons between them. In a leap second the seconds are sixty.
pub proof fn times_are_shown_by_the_second(t: ClockTime)
    requires
        t.valid(),
    ensures
        ({
            let s = t.shown();
            let number = |i: int| (s[i] as int - '0' as int) * 10 + (s[i + 1] as int - '0' as int);
            &&& s.len() == 8
            &&& s[2] == ':' && s[5] == ':'
            &&& number(0) == t.hour
            &&& number(3) == t.minute
            &&& number(6) == if t.nano >= 1_000_000_000 {
                60
            } else {
                t.second as int
            }
            &&& '0' <= s[0] <= '9' && '0' <= s[1] <= '9' && '0' <= s[3] <= '9'
            &&& '0' <= s[4] <= '9' && '0' <= s[6] <= '9' && '0' <= s[7] <= '9'
        }),
{
    reveal_strlit(":");
}

/// The line at the top names the tabs with their numbers, marks the active one, and tells
/// when the data of the active tab was fetched, if it was.
pub proof fn the_top_line_names_the_tabs(m: AppModel)
    requires
        well_formed(m),
    ensures
        ({
            let bar = tab_bar_of(m);
            let time = if m.tab == 3 {
                m.search.last_updated
            } else if m.tab == 4 {
                m.lookup.last_updated
            } else {
                m.feeds[m.tab].last_updated
            };
            &&& APP_TITLE@ == " EUVD "@
            &&& bar.titles == seq![
                "1 Latest"@,
                "2 Latest Exploited"@,
                "3 Latest Critical"@,
                "4 Search"@,
                "5 Lookup"@,
            ]
            &&& bar.selected == m.tab
            &&& time matches Some(t) ==> bar.updated == "last updated at "@ + t.shown() + " "@
            &&& time is None ==> bar.updated.len() == 0
            &&& bar.updated_width == byte_len(bar.updated) as int % 65536
        }),
{
    reveal_strlit(" ");
    reveal_strlit("Latest");
    reveal_strlit("Latest Exploited");
    reveal_strlit("Latest Critical");
    reveal_strlit("Search");
    reveal_strlit("Lookup");
    reveal_strlit("1 Latest");
    reveal_strlit("2 Latest Exploited");
    reveal_strlit("3 Latest Critical");
    reveal_strlit("4 Search");
    reveal_strlit("5 Lookup");
    let bar = tab_bar_of(m);
    assert(bar.titles[0] =~= "1 Latest"@);
    assert(bar.titles[1] =~= "2 Latest Exploited"@);
    assert(bar.titles[2] =~= "3 Latest Critical"@);
    assert(bar.titles[3] =~= "4 Search"@);
    assert(bar.titles[4] =~= "5 Lookup"@);
}

// --- the filters -------------------------------------------------------------------------

/// The cursor is drawn on the character that it stands on, or on a space behind the text,
/// with the colours exchanged there and only there. Before it stands what comes before it
/// in the text, and behind it what comes behind it, filled up with spaces.
pub proof fn cursors_stand_on_their_character(
    a: Seq<char>,
    c: char,
    b: Seq<char>,
    min_w: nat,
    style: Style,
)
    ensures
        ({
            let spans = with_cursor(a + seq![c] + b, a.len() as int, min_w, style);
            &&& spans.len() == 3
            &&& spans[0] == (SpanView { text: a, style })
            &&& spans[1] == (SpanView { text: seq![c], style: Style { reversed: true, ..style } })
            &&& spans[2] == (SpanView {
                text: if a.len() + 1 < min_w {
                    pad_right(b, (min_w - a.len() - 1) as nat)
                } else {
                    b
                },
                style,
            })
        }),
        ({
            let spans = with_cursor(a, a.len() as int, min_w, style);
            &&& spans.len() == 3
            &&& spans[0] == (SpanView { text: a, style })
            &&& spans[1] == (SpanView { text: seq![' '], style: Style { reversed: true, ..style } })
            &&& spans[2] == (SpanView {
                text: if a.len() + 1 < min_w {
                    pad_right(seq![], (min_w - a.len() - 1) as nat)
                } else {
                    seq![]
                },
                style,
            })
        }),
{
    reveal_strlit(" ");
    let value = a + seq![c] + b;
    let spans = with_cursor(value, a.len() as int, min_w, style);
    assert(spans[0].text =~= a);
    assert(spans[1].text =~= seq![c]);
    if a.len() + 1 < min_w {
        assert(spans[2].text =~= pad_right(b, (min_w - a.len() - 1) as nat));
    } else {
        assert(spans[2].text =~= b);
    }
    let ends = with_cursor(a, a.len() as int, min_w, style);
    assert(ends[1].text =~= seq![' ']);
    if a.len() + 1 < min_w {
        assert(ends[2].text =~= pad_right(seq![], (min_w - a.len() - 1) as nat));
    } else {
        assert(ends[2].text =~= Seq::<char>::empty());
    }
}

/// The labels of the filters.
pub open spec fn labels() -> Seq<Seq<char>> {
    seq![
        "Text"@,
        "Vendor"@,
        "Product"@,
        "Assigner"@,
        "From date"@,
        "To date"@,
        "Exploited"@,
        "CVSS min"@,
        "CVSS max"@,
        "EPSS% min"@,
        "EPSS% max"@,
    ]
}

/// The widths of the filters.
pub open spec fn widths() -> Seq<nat> {
    seq![18, 14, 14, 10, 10, 10, 3, 4, 4, 4, 4]
}

/// What the sidebar shows in a filter: its text, or the word for the exploited one.
pub open spec fn value_of_filter(s: SearchModel, filter: int) -> Seq<char> {
    match text_of_filter(s, filter) {
        Some(t) => t,
        None => if s.exploited == Some(true) {
            "Yes"@
        } else if s.exploited == Some(false) {
            "No"@
        } else {
            "Any"@
        },
    }
}

/// The sidebar has a row for each filter, with its label and its value. The text of the
/// one that has the focus is black on cyan and shows the cursor; the exploited one never
/// shows it. The others are white. An empty filter is filled with spaces, or shows how a
/// date is written.
pub proof fn the_sidebar_shows_every_filter(s: SearchModel, filter: int)
    requires
        s.fields.len() == 10,
        0 <= filter < 11,
    ensures
        ({
            let rows = sidebar_of(s);
            let row = rows[filter];
            let focused = s.focus == SearchFocus::Filters(filter as usize);
            let value = value_of_filter(s, filter);
            let width = widths()[filter];
            let field = Style { fg: Some(Color::Black), bg: Some(Color::Cyan), ..as_it_is() };
            let empty = if filter == 4 || filter == 5 {
                "YYYY-MM-DD"@
            } else {
                Seq::<char>::empty()
            };
            &&& rows.len() == 11
            &&& SIDEBAR_TITLE@ == " Filters "@
            &&& row[0] == bare(" "@)
            &&& row[1] == faint(labels()[filter] + ": "@)
            &&& focused && filter != 6 ==> {
                &&& row.len() == 6
                &&& row.subrange(2, 5) == with_cursor(value, s.cursor, width, field)
                &&& row[5] == bare("  "@)
            }
            &&& !(focused && filter != 6) ==> {
                &&& row.len() == 4
                &&& row[2].text == pad_right(
                    if value.len() == 0 {
                        empty
                    } else {
                        value
                    },
                    width,
                )
                &&& focused ==> row[2].style == field
                &&& !focused && value.len() == 0 ==> row[2].style == (Style {
                    dim: true,
                    ..as_it_is()
                })
                &&& !focused && value.len() > 0 ==> row[2].style == (Style {
                    fg: Some(Color::White),
                    ..as_it_is()
                })
                &&& row[3] == bare("  "@)
            }
        }),
{
    let row = sidebar_of(s)[filter];
    let width = widths()[filter];
    let focused = s.focus == SearchFocus::Filters(filter as usize);
    assert(crate::ui::FIELD_WIDTHS@[filter] == width);
    assert(crate::search::FILTER_LABELS@[filter]@ == labels()[filter]);
    reveal_strlit("Any");
    reveal_strlit("Yes");
    reveal_strlit("No");
    let value = value_of_filter(s, filter);
    assert(value == crate::ui::filter_value(s, filter));
    if focused && filter != 6 {
        let field = Style { fg: Some(Color::Black), bg: Some(Color::Cyan), ..as_it_is() };
        assert(row.subrange(2, 5) =~= with_cursor(value, s.cursor, width, field));
    } else if value.len() == 0 && filter != 4 && filter != 5 {
        assert(row[2].text =~= pad_right(Seq::<char>::empty(), width));
    }
}

/// The sidebar is hidden where it is collapsed and no filter has the focus, and only
/// there. Either the filters or the results have the border of the focus. The results are
/// listed below their title.
pub proof fn the_search_tab_shows_filters_and_results(s: SearchModel, tick: usize)
    ensures
        ({
            let screen = search_screen_of(s, tick);
            &&& screen.sidebar is None <==> s.filters_collapsed && s.focus is Results
            &&& screen.sidebar is Some ==> screen.sidebar->0 == sidebar_of(s)
            &&& bordered(screen.sidebar_border, s.focus is Filters)
            &&& bordered(screen.table.border, s.focus is Results)
            &&& screen.table.title == results_title_of(s, tick)
            &&& screen.table.rows == rows_of_items(s.items)
        }),
{
}

// --- lists -------------------------------------------------------------------------------

/// A row shows the id, the first CVE among the aliases, the two scores, the date and the
/// description on one line. A dash stands for what there is not. The first score has the
/// colour of its severity, the id stands out.
pub proof fn rows_show_their_records(v: VulnerabilityView)
    ensures
        ({
            let row = row_of(v);
            let cve = first_cve(nonblank_lines(v.aliases));
            &&& row.len() == 6
            &&& row[0] == in_color(v.id, Color::Cyan)
            &&& cve is Some ==> row[1] == bare(cve->0)
            &&& cve is None ==> row[1] == bare("—"@)
            &&& v.base_score matches Some(s) ==> row[2] == (SpanView {
                text: s.tenths,
                style: score_style_of(s.bits),
            })
            &&& v.base_score is None ==> row[2] == bare("—"@)
            &&& v.epss matches Some(s) ==> row[3] == bare(s.tenths + "%"@)
            &&& v.epss is None ==> row[3] == bare("—"@)
            &&& row[4] == bare(before_second_comma(v.date_published))
            &&& row[5] == bare(join(words(v.description), " "@))
        }),
{
}

/// A list has a row for each of its records, in their order.
pub proof fn lists_show_every_record(items: Seq<Vulnerability>, i: int)
    ensures
        rows_of_items(items).len() == items.len(),
        0 <= i < items.len() ==> rows_of_items(items)[i] == row_of(items[i]@),
        TABLE_HEADER@.len() == 6,
        TABLE_HEADER@[0]@ == "EUVD ID"@,
        TABLE_HEADER@[1]@ == "CVE"@,
        TABLE_HEADER@[2]@ == "CVSS"@,
        TABLE_HEADER@[3]@ == "EPSS"@,
        TABLE_HEADER@[4]@ == "Published"@,
        TABLE_HEADER@[5]@ == "Description"@,
        HIGHLIGHT_SYMBOL@ == "▶ "@,
{
}

/// The spinner has ten pictures, which follow one another from tick to tick and begin
/// again.
pub proof fn the_spinner_turns(tick: usize)
    ensures
        ({
            let pictures = seq![
                "⠋"@,
                "⠙"@,
                "⠹"@,
                "⠸"@,
                "⠼"@,
                "⠴"@,
                "⠦"@,
                "⠧"@,
                "⠇"@,
                "⠏"@,
            ];
            spinner_at(tick) == pictures[tick as int % 10]
        }),
{
}

/// The title of the results tells that a search is under way, or how many records were
/// found and which page is shown, or what to do before the first search.
pub proof fn the_results_have_a_title(s: SearchModel, tick: usize)
    ensures
        s.loading ==> results_title_of(s, tick) == " Results · "@ + spinner_at(tick)
            + " searching… "@,
        !s.loading && !s.searched ==> results_title_of(s, tick)
            == " Results · set filters and press Enter "@,
        !s.loading && s.searched ==> results_title_of(s, tick) == " Results · "@ + decimal(
            s.total as nat,
        ) + " total · page "@ + decimal((s.page + 1) as nat) + "/"@ + decimal(pages(s.total))
            + " "@,
{
}

/// The title of a feed names it and tells that it is being fetched, that it has no
/// records, or how many it has.
pub proof fn feeds_have_a_title(name: Seq<char>, f: FeedModel, tick: usize)
    ensures
        f.loading ==> feed_title_of(name, f, tick) == " "@ + name + " · "@ + spinner_at(tick)
            + " loading… "@,
        !f.loading && f.loaded && f.items.len() == 0 && f.error is None ==> feed_title_of(
            name,
            f,
            tick,
        ) == " "@ + name + " · no records "@,
        !f.loading && !(f.loaded && f.items.len() == 0 && f.error is None) ==> feed_title_of(
            name,
            f,
            tick,
        ) == " "@ + name + " · "@ + decimal(f.items.len())
            + " records (API returns at most 8 I think) "@,
{
}

/// Each tab shows its own part of the state; a feed under its name.
pub proof fn tabs_show_their_parts(m: AppModel)
    requires
        well_formed(m),
    ensures
        m.tab == 3 ==> body_of(m) == BodyModel::Search(search_screen_of(m.search, m.tick)),
        m.tab == 4 ==> body_of(m) == BodyModel::Lookup(lookup_screen_of(m.lookup, m.tick)),
        m.tab < 3 ==> ({
            let name = if m.tab == 0 {
                "Latest"@
            } else if m.tab == 1 {
                "Latest Exploited"@
            } else {
                "Latest Critical"@
            };
            let feed = m.feeds[m.tab];
            match body_of(m) {
                BodyModel::Feed(table) => {
                    &&& table.title == feed_title_of(name, feed, m.tick)
                    &&& bordered(table.border, true)
                    &&& table.rows == rows_of_items(feed.items)
                },
                _ => false,
            }
        }),
{
}

// --- the Lookup tab ----------------------------------------------------------------------

/// The Lookup tab shows its input, with the cursor while it is edited, and what can be
/// entered there. Below that it shows why the last lookup failed, if it did.
pub proof fn the_lookup_tab_shows_its_input(l: LookupModel, tick: usize)
    ensures
        ({
            let screen = lookup_screen_of(l, tick);
            &&& l.loading ==> screen.title == " Lookup id · "@ + spinner_at(tick) + " fetching… "@
            &&& !l.loading ==> screen.title == " Lookup id "@
            &&& bordered(screen.border, l.editing)
            &&& l.editing ==> screen.input == with_cursor(l.input, l.cursor, 0, as_it_is())
            &&& !l.editing ==> shows_text(screen.input, l.input)
            &&& screen.help.len() == 5 + 2 * one_if(l.error is Some)
            &&& screen.help[0].len() == 0
            &&& screen.help[1] == seq![
                bare("  Ids starting with "@),
                in_color("EUVD-"@, Color::Cyan),
                bare(" are fetched from /api/enisaid, e.g. "@),
                in_color("EUVD-2026-41256"@, Color::Cyan),
            ]
            &&& screen.help[2] == seq![
                bare("  Anything else is treated as an advisory id for /api/advisory, e.g. "@),
                in_color("oxas-adv-2024-0002"@, Color::Cyan),
            ]
            &&& screen.help[3].len() == 0
            &&& screen.help[4] == seq![
                faint("  Enter fetches and opens the record; Esc leaves the input."@),
            ]
            &&& l.error matches Some(e) ==> screen.help[5].len() == 0 && screen.help[6] == seq![
                in_color("  ✗ "@ + e, Color::Red),
            ]
        }),
{
}

// --- popups ------------------------------------------------------------------------------

/// The picker shows a row for each name, in their order, ticked where the name is among
/// the entries of the assigner filter, in whatever case, and highlighted where the cursor
/// is. Above them it shows why the names could not be fetched, or that they are being
/// fetched.
pub proof fn the_picker_shows_every_name(m: AppModel, cursor: usize, i: int)
    requires
        m.search.fields.len() == 10,
        0 <= i < m.assigner_opts.names.len(),
    ensures
        ({
            let rows = picker_lines_of(m, cursor);
            let opts = m.assigner_opts;
            let above = one_if(opts.error is Some || opts.loading);
            let name = opts.names[i];
            let entries = comma_entries(m.search.fields[3]);
            let ticked = exists|k: int|
                0 <= k < entries.len() && same_ignoring_case(#[trigger] entries[k], name);
            let span = rows[above + i][0];
            &&& rows.len() == above + opts.names.len()
            &&& rows[above + i].len() == 1
            &&& ticked ==> span.text == " "@ + "[x]"@ + " "@ + name + " "@
            &&& !ticked ==> span.text == " "@ + "[ ]"@ + " "@ + name + " "@
            &&& span.style == (Style {
                fg: if ticked {
                    Some(Color::Cyan)
                } else {
                    None
                },
                reversed: i == cursor,
                ..as_it_is()
            })
        }),
{
}

/// What the picker shows above the names.
pub proof fn the_picker_tells_what_became_of_the_names(m: AppModel, cursor: usize)
    ensures
        ({
            let rows = picker_lines_of(m, cursor);
            let opts = m.assigner_opts;
            &&& opts.error matches Some(e) ==> rows.len() > 0 && rows[0] == seq![
                in_color(" ✗ "@ + e, Color::Red),
            ]
            &&& opts.error is None && opts.loading ==> rows.len() > 0 && rows[0] == seq![
                in_color(" "@ + spinner_at(m.tick) + " fetching assigners…"@, Color::Yellow),
            ]
            &&& opts.error is None && !opts.loading ==> rows.len() == opts.names.len()
        }),
{
}

/// The popup that is open is shown: the picker, the help or the record with its id.
pub proof fn open_popups_are_shown(m: AppModel, frame: crate::layout::Rect)
    ensures
        m.overlay is Hidden <==> popup_shown(m, frame) is None,
        m.overlay matches OverlayModel::AssignerPicker { cursor } ==> ({
            let p = popup_shown(m, frame)->0;
            &&& p.title == " Assigners "@
            &&& p.lines == picker_lines_of(m, cursor)
            &&& !p.wrapped && p.scroll == 0 && p.scrollbar is None
        }),
        m.overlay matches OverlayModel::Help { scroll } ==> ({
            let p = popup_shown(m, frame)->0;
            &&& p.title == " Help "@
            &&& p.lines == lines_of_help()
            &&& !p.wrapped && p.scrollbar is None
        }),
        m.overlay matches OverlayModel::Detail(d) ==> ({
            let p = popup_shown(m, frame)->0;
            &&& p.title == detail_title_of(d, m.tick)
            &&& d.content matches DetailContentView::Vuln(v) ==> p.lines == lines_of_vuln(v)
            &&& d.content matches DetailContentView::Advisory(a) ==> p.lines == lines_of_advisory(a)
            &&& p.wrapped
        }),
{
}

/// The title of the details is the id of the record, and tells while its full form is
/// being fetched.
pub proof fn details_are_titled_by_their_id(d: DetailModel, tick: usize)
    ensures
        ({
            let id = match d.content {
                DetailContentView::Vuln(v) => v.id,
                DetailContentView::Advisory(a) => a.id,
            };
            &&& !d.enriching ==> detail_title_of(d, tick) == " "@ + id + " "@
            &&& d.enriching ==> detail_title_of(d, tick) == " "@ + id + " · "@ + spinner_at(tick)
                + " fetching details… "@
        }),
{
}

/// A line takes as many rows as it needs for its cells: a row more only where the others
/// are full, and one at least. A text takes the rows of its lines together.
pub proof fn lines_take_the_rows_they_need(rows: Seq<LineView>, line: LineView, width: nat)
    requires
        width > 0,
    ensures
        rows_taken(line, width) >= 1,
        line_width(line) <= rows_taken(line, width) * width,
        rows_taken(line, width) > 1 ==> (rows_taken(line, width) - 1) * width < line_width(line),
        total_rows(Seq::<LineView>::empty(), width) == 0,
        total_rows(rows, width) + rows_taken(line, width) <= u128::MAX ==> total_rows(
            rows.push(line),
            width,
        ) == total_rows(rows, width) + rows_taken(line, width),
        total_rows(rows, width) + rows_taken(line, width) > u128::MAX ==> total_rows(
            rows.push(line),
            width,
        ) == u128::MAX,
{
    assert(rows.push(line).drop_last() =~= rows);
    let n = line_width(line) as int;
    if n > 0 {
        let w = width as int;
        let q = (n - 1) / w;
        vstd::arithmetic::div_mod::lemma_fundamental_div_mod(n - 1, w);
        assert(w * q == q * w) by (nonlinear_arith);
        assert((q + 1) * w == q * w + w) by (nonlinear_arith);
        assert(0 <= (n - 1) % w < w);
        assert(q >= 0) by (nonlinear_arith)
            requires
                q == (n - 1) / w,
                n > 0,
                w > 0,
        ;
    } else {
        assert(1 * width >= 0) by (nonlinear_arith);
    }
}

/// The width of a line is that of its spans together.
pub proof fn spans_add_up(line: LineView, span: SpanView)
    ensures
        line_width(Seq::<SpanView>::empty()) == 0,
        line_width(line.push(span)) == line_width(line) + cell_width(span.text),
{
    assert(line.push(span).drop_last() =~= line);
}

/// The help names the keys and what they do, in four sections.
pub proof fn the_help_names_the_keys()
    ensures
        ({
            let entry = |key: Seq<char>, what: Seq<char>|
                seq![in_color("  "@ + pad_right(key, 12), Color::Cyan), bare(what)];
            let heading = |name: Seq<char>|
                seq![
                    SpanView {
                        text: name,
                        style: Style { bold: true, fg: Some(Color::Cyan), ..as_it_is() },
                    },
                ];
            let none = Seq::<SpanView>::empty();
            lines_of_help() == seq![
                none,
                heading(" Navigation"@),
                entry("1-5, Tab"@, "switch tabs"@),
                entry("j/k, ↑↓"@, "move selection / scroll"@),
                entry("g/G"@, "jump to top / bottom"@),
                entry("Enter"@, "open details / run search"@),
                entry("Esc"@, "back / leave input"@),
                none,
                heading(" Search"@),
                entry("/"@, "focus filters"@),
                entry("n/p"@, "next / previous page"@),
                entry("Space"@, "cycle exploited / pick assigners"@),
                entry("←/→"@, "move cursor in a text input"@),
                entry("Ctrl-U"@, "clear focused field"@),
                entry("r"@, "re-run search / refresh feed"@),
                none,
                heading(" Details"@),
                entry("1-9"@, "open n-th reference in browser"@),
                entry("o"@, "open first reference"@),
                none,
                heading(" General"@),
                entry("?"@, "toggle this help"@),
                entry("q, Ctrl-C"@, "quit"@),
                entry("Ctrl+"@, "zoom in"@),
                entry("Ctrl-"@, "zoom out"@),
            ]
        }),
{
}

// --- the line at the bottom --------------------------------------------------------------

/// The line at the bottom names the keys of the popup that is open, or else of the tab and
/// of what has the focus there.
pub proof fn hints_name_the_keys_of_use(m: AppModel)
    requires
        well_formed(m),
    ensures
        status_bar_of(m).hints == faint(" "@ + hints_of(m)),
        m.overlay is Help ==> hints_of(m) == "Esc close"@,
        m.overlay is Detail ==> hints_of(m)
            == "j/k scroll · g/G top/bottom · 1-9/o open reference · Esc/q back"@,
        m.overlay is AssignerPicker ==> hints_of(m)
            == "j/k move · Space toggle · Ctrl-U clear · Enter/Esc done"@,
        m.overlay is Hidden && m.tab < 3 ==> hints_of(m)
            == "j/k move · Enter details · r refresh · 1-5/Tab tabs · ? help · q quit"@,
        m.overlay is Hidden && m.tab == 4 && m.lookup.editing ==> hints_of(m)
            == "type an id · Enter fetch · Esc leave input"@,
        m.overlay is Hidden && m.tab == 4 && !m.lookup.editing ==> hints_of(m)
            == "i edit · Enter fetch · 1-5/Tab tabs · ? help · q quit"@,
        m.overlay is Hidden && m.tab == 3 && m.search.focus is Results ==> hints_of(m)
            == "j/k move · Enter details · n/p page · / filters · 1-5/Tab tabs · r rerun · ? help · q quit"@,
        m.overlay is Hidden && m.tab == 3 && m.search.focus == SearchFocus::Filters(6) ==> hints_of(
            m,
        ) == "Space toggle · Tab/↑↓ move · Enter search · Ctrl-U reset · Esc results"@,
        m.overlay is Hidden && m.tab == 3 && m.search.focus == SearchFocus::Filters(3) ==> hints_of(
            m,
        ) == "Space pick from list · or type names, comma-separated · Enter search · Esc results"@,
        m.overlay is Hidden && m.tab == 3 && m.search.focus is Filters && m.search.focus
            != SearchFocus::Filters(3) && m.search.focus != SearchFocus::Filters(6) ==> hints_of(m)
            == "type to edit · Tab/↑↓ move · Enter search · Ctrl-U clear · Esc results"@,
{
}

/// At its right the line shows the error of the active tab, or else that something is being
/// fetched, or else nothing; and it sets aside as many columns as that takes.
pub proof fn errors_of_the_tab_are_shown(m: AppModel)
    requires
        well_formed(m),
    ensures
        ({
            let bar = status_bar_of(m);
            let error = if m.tab == 3 {
                m.search.error
            } else if m.tab == 4 {
                m.lookup.error
            } else {
                m.feeds[m.tab].error
            };
            &&& error matches Some(e) ==> bar.message == in_color("✗ "@ + e + " "@, Color::Red)
            &&& error is None && loading(m) ==> bar.message == in_color(
                spinner_at(m.tick) + " loading… "@,
                Color::Yellow,
            )
            &&& error is None && !loading(m) ==> bar.message.text.len() == 0
            &&& bar.message_width == cell_width(bar.message.text) as int % 65536
        }),
{
    reveal_strlit("");
}

/// Drawing changes nothing of the state but how far a popup is scrolled, and that only
/// where it was scrolled too far.
pub proof fn drawing_changes_scrolls_only(m: AppModel, frame: crate::layout::Rect)
    ensures
        ({
            let after = drawn(m, frame);
            &&& after == (AppModel { overlay: after.overlay, ..m })
            &&& match m.overlay {
                OverlayModel::Help { scroll } => after.overlay matches OverlayModel::Help {
                    scroll: shown,
                } && shown <= scroll && shown == popup_shown(m, frame)->0.scroll,
                OverlayModel::Detail(d) => after.overlay matches OverlayModel::Detail(shown)
                    && shown.content == d.content && shown.enriching == d.enriching && shown.scroll
                    <= d.scroll && shown.scroll == popup_shown(m, frame)->0.scroll,
                _ => after.overlay == m.overlay,
            }
        }),
{
}

} // verus!
