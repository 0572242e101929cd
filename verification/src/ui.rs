//! What the screen shows.

use vstd::prelude::*;
use vstd::string::*;

use crate::api::{first_cve, Vulnerability, VulnerabilityView};
use crate::clock::ClockTime;
use crate::dates::{before_second_comma, short_date};
use crate::edit::{byte_idx, byte_len};
use crate::layout::{
    between_corners, center_of, centered, common, lookup_areas, lookup_places, on_screen,
    popup_area, popup_fits, popup_of, screen_areas, screen_placed, search_areas, search_places,
    status_areas, status_places, tab_bar_areas, tab_bar_placed, within_border, LookupAreas, Rect,
    Rule, ScreenAreas, SearchAreas, StatusAreas, TabBarAreas,
};
use crate::lines::{
    advisory_lines, help_lines, lines_of_advisory, lines_of_help, lines_of_vuln, score_style,
    score_style_of, text_line, text_row, vuln_lines, LineView,
};
use crate::number::{blanks, decimal, decimal_text, pad_right, padded_right, spaces};
use crate::pieces::{join, join_slices, nonblank_lines, split_words, words};
use crate::score::{Score, ScoreView};
use crate::search::{
    assigners_of, field_of, pages, position, SearchFocus, SearchModel, SearchState, FILTER_ASSIGNER,
    FILTER_EXPLOITED, FILTER_FROM_DATE, FILTER_LABELS, FILTER_TO_DATE, N_FILTERS,
};
use crate::state::{
    well_formed, App, AppModel, AssignerModel, DetailContent, DetailContentView, DetailModel,
    DetailState, FeedModel, FeedState, LookupModel, LookupState, Overlay, OverlayModel, N_TABS,
    TABS, TAB_LOOKUP, TAB_SEARCH,
};
use crate::steps::loading;
use crate::style::{
    border_of, border_style, cell_width, colored, dimmed, focused_field, inverted, line_views,
    line_width, plain, push_line, raw, span_views, styled, text_of, width_of, Color, Line, Span,
    SpanView, Style, ACCENT,
};
use crate::text::{eq_ignore_ascii_case, opt_view, same_ignoring_case, views};

verus! {

/// The title of the program.
pub const APP_TITLE: &'static str = " EUVD ";

/// The title of the filter sidebar.
pub const SIDEBAR_TITLE: &'static str = " Filters ";

pub const SPINNER: [&'static str; 10] = ["⠋", "⠙", "⠹", "⠸", "⠼", "⠴", "⠦", "⠧", "⠇", "⠏"];

/// The picture of the spinner at a tick.
pub open spec fn spinner_at(tick: usize) -> Seq<char> {
    SPINNER@[tick as int % 10]@
}

/// The picture of the spinner at a tick.
pub fn spinner(tick: usize) -> (r: &'static str)
    ensures
        r@ == spinner_at(tick),
{
    let frames: [&'static str; 10] = SPINNER;
    frames[tick % 10]
}

/// Puts three texts behind one another.
fn joined(a: &str, b: &str, c: &str) -> (r: String)
    ensures
        r@ == a@ + b@ + c@,
{
    let mut r = a.to_owned();
    r.append(b);
    r.append(c);
    r
}

// --- tab line ------------------------------------------------------------------------------

/// The line at the top.
#[derive(Debug)]
pub struct TabBar {
    /// The names of the tabs, numbered from 1 on.
    pub titles: Vec<String>,
    pub selected: usize,
    /// When the data of the tab was fetched; empty where it was not.
    pub updated: String,
    /// How many columns are set aside for `updated`.
    pub updated_width: u16,
}

/// The model of a [`TabBar`].
#[verifier::ext_equal]
pub struct TabBarModel {
    pub titles: Seq<Seq<char>>,
    pub selected: int,
    pub updated: Seq<char>,
    pub updated_width: int,
}

impl View for TabBar {
    type V = TabBarModel;

    open spec fn view(&self) -> TabBarModel {
        TabBarModel {
            titles: views(self.titles@),
            selected: self.selected as int,
            updated: self.updated@,
            updated_width: self.updated_width as int,
        }
    }
}

/// When the data behind the active tab was fetched.
pub open spec fn last_updated_of(m: AppModel) -> Option<ClockTime> {
    if m.tab == TAB_SEARCH {
        m.search.last_updated
    } else if m.tab == TAB_LOOKUP {
        m.lookup.last_updated
    } else {
        m.feeds[m.tab].last_updated
    }
}

/// How the time of the last update is shown.
pub open spec fn updated_text(t: Option<ClockTime>) -> Seq<char> {
    match t {
        Some(c) => "last updated at "@ + c.shown() + " "@,
        None => seq![],
    }
}

/// The name of a tab, numbered from 1 on.
pub open spec fn tab_title(i: int) -> Seq<char> {
    decimal((i + 1) as nat) + " "@ + TABS@[i]@
}

/// The line at the top.
pub open spec fn tab_bar_of(m: AppModel) -> TabBarModel {
    let updated = updated_text(last_updated_of(m));
    TabBarModel {
        titles: Seq::new(N_TABS as nat, |i: int| tab_title(i)),
        selected: m.tab,
        updated,
        updated_width: byte_len(updated) as int % 65536,
    }
}

/// The line at the top.
pub fn tab_bar(app: &App) -> (r: TabBar)
    requires
        well_formed(app@),
    ensures
        r@ == tab_bar_of(app@),
{
    let time = if app.tab == TAB_SEARCH {
        app.search.last_updated
    } else if app.tab == TAB_LOOKUP {
        app.lookup.last_updated
    } else {
        assert(app@.feeds[app.tab as int] == app.feeds@[app.tab as int]@);
        app.feeds[app.tab].last_updated
    };
    let updated = match time {
        Some(t) => joined("last updated at ", t.text().as_str(), " "),
        None => String::new(),
    };
    assert(updated@ =~= updated_text(last_updated_of(app@)));
    let bytes: usize = byte_idx(updated.as_str(), updated.as_str().unicode_len());
    assert(updated@.take(updated@.len() as int) =~= updated@);
    let names: [&'static str; 5] = TABS;
    let mut titles: Vec<String> = Vec::new();
    let mut i: usize = 0;
    while i < N_TABS
        invariant
            i <= N_TABS,
            names@ == TABS@,
            views(titles@) == Seq::new(i as nat, |k: int| tab_title(k)),
        decreases N_TABS - i,
    {
        let ghost before = views(titles@);
        let title = joined(decimal_text(i as u64 + 1).as_str(), " ", names[i]);
        titles.push(title);
        assert(views(titles@) =~= before.push(title@));
        assert(views(titles@) =~= Seq::new((i + 1) as nat, |k: int| tab_title(k)));
        i = i + 1;
    }
    TabBar { titles, selected: app.tab, updated, updated_width: (bytes % 65536) as u16 }
}

// --- fields ----------------------------------------------------------------------------------

/// A text with a block cursor on the character at `cursor`, or behind the last one,
/// with spaces behind it up to `min_w` cells.
pub open spec fn with_cursor(value: Seq<char>, cursor: int, min_w: nat, style: Style) -> LineView {
    if cursor < value.len() {
        seq![
            styled(value.take(cursor), style),
            styled(seq![value[cursor]], inverted(style)),
            styled(pad_right(value, min_w).skip(cursor + 1), style),
        ]
    } else {
        seq![
            styled(value, style),
            styled(" "@, inverted(style)),
            styled(pad_right(value + " "@, min_w).skip(value.len() as int + 1), style),
        ]
    }
}

/// A text with a block cursor on the character at `cursor`, or behind the last one,
/// with spaces behind it up to `min_w` cells.
pub fn cursor_spans(value: &str, cursor: usize, min_w: usize, style: Style) -> (r: Vec<Span>)
    ensures
        span_views(r@) == with_cursor(value@, cursor as int, min_w as nat, style),
{
    let len: usize = value.unicode_len();
    let r = if cursor < len {
        let before = value.substring_char(0, cursor);
        let at = value.substring_char(cursor, cursor + 1);
        let mut after = value.substring_char(cursor + 1, len).to_owned();
        if len < min_w {
            after.append(blanks(min_w - len).as_str());
        }
        assert(before@ =~= value@.take(cursor as int));
        assert(at@ =~= seq![value@[cursor as int]]);
        assert(after@ =~= pad_right(value@, min_w as nat).skip(cursor + 1));
        vec![
            Span::styled(before.to_owned(), style),
            Span::styled(at.to_owned(), style.inverse()),
            Span::styled(after, style),
        ]
    } else {
        proof {
            reveal_strlit(" ");
        }
        // The cursor takes a cell of its own behind the text.
        let pad: String = if len < min_w {
            blanks(min_w - len - 1)
        } else {
            String::new()
        };
        assert(pad@ =~= pad_right(value@ + " "@, min_w as nat).skip(len as int + 1));
        vec![
            Span::styled(value.to_owned(), style),
            Span::styled(" ".to_owned(), style.inverse()),
            Span::styled(pad, style),
        ]
    };
    assert(span_views(r@) =~= with_cursor(value@, cursor as int, min_w as nat, style));
    r
}

/// A cursor that is drawn changes nothing of the text: what is shown is the text, a
/// space for a cursor behind it, and the spaces that fill up the field.
pub proof fn cursor_keeps_the_text(value: Seq<char>, cursor: int, min_w: nat, style: Style)
    requires
        0 <= cursor,
    ensures
        text_of(with_cursor(value, cursor, min_w, style)) == pad_right(
            if cursor < value.len() {
                value
            } else {
                value + " "@
            },
            min_w,
        ),
{
    reveal_strlit(" ");
    let spans = with_cursor(value, cursor, min_w, style);
    assert(text_of(spans.drop_last().drop_last().drop_last()) =~= Seq::<char>::empty());
    assert(text_of(spans.drop_last().drop_last()) =~= spans[0].text);
    assert(text_of(spans.drop_last()) =~= spans[0].text + spans[1].text);
    assert(text_of(spans) =~= spans[0].text + spans[1].text + spans[2].text);
}

/// How many cells the value of each filter has at least.
pub const FIELD_WIDTHS: [usize; 11] = [18, 14, 14, 10, 10, 10, 3, 4, 4, 4, 4];

/// How the value of a filter is shown.
pub open spec fn filter_value(m: SearchModel, filter: int) -> Seq<char> {
    match field_of(m, filter) {
        Some(text) => text,
        None => match m.exploited {
            None => "Any"@,
            Some(yes) => if yes {
                "Yes"@
            } else {
                "No"@
            },
        },
    }
}

/// What is shown in place of an empty value.
pub open spec fn placeholder(filter: int, min_w: nat) -> Seq<char> {
    if filter == FILTER_FROM_DATE || filter == FILTER_TO_DATE {
        "YYYY-MM-DD"@
    } else {
        spaces(min_w)
    }
}

/// The spans of a filter: its label, its value, and the space behind it. Only a text
/// has a cursor.
pub open spec fn field_spans_of(m: SearchModel, filter: int, min_w: nat) -> LineView {
    let focused = m.focus == SearchFocus::Filters(filter as usize);
    let value = filter_value(m, filter);
    let label = styled(FILTER_LABELS@[filter]@ + ": "@, dimmed());
    if focused && filter != FILTER_EXPLOITED {
        seq![label] + with_cursor(value, m.cursor, min_w, focused_field()) + seq![raw("  "@)]
    } else {
        let style = if focused {
            focused_field()
        } else if value.len() == 0 {
            dimmed()
        } else {
            colored(Color::White)
        };
        let shown = if value.len() == 0 {
            placeholder(filter, min_w)
        } else {
            value
        };
        seq![label, styled(pad_right(shown, min_w), style), raw("  "@)]
    }
}

/// The lines of the filter sidebar: one for each filter.
pub open spec fn sidebar_of(m: SearchModel) -> Seq<LineView> {
    Seq::new(
        N_FILTERS as nat,
        |i: int| seq![raw(" "@)] + field_spans_of(m, i, FIELD_WIDTHS@[i] as nat),
    )
}

fn push_spans(line: &mut Line, spans: Vec<Span>)
    ensures
        final(line)@ == old(line)@ + span_views(spans@),
{
    let mut more = spans;
    line.spans.append(&mut more);
    assert(line@ =~= old(line)@ + span_views(spans@));
}

fn field_row(s: &SearchState, filter: usize, min_w: usize) -> (r: Line)
    requires
        filter < N_FILTERS,
        s@.focus matches SearchFocus::Filters(i) ==> i < N_FILTERS,
    ensures
        r@ == seq![raw(" "@)] + field_spans_of(s@, filter as int, min_w as nat),
{
    let focused = match s.focus {
        SearchFocus::Filters(i) => i == filter,
        SearchFocus::Results => false,
    };
    let value = match s.field(filter) {
        Some(t) => t,
        None => match s.exploited {
            None => "Any",
            Some(yes) => if yes {
                "Yes"
            } else {
                "No"
            },
        },
    };
    assert(value@ == filter_value(s@, filter as int));
    let labels: [&'static str; 11] = FILTER_LABELS;
    let mut r = Line::of(Span::raw(" ".to_owned()));
    let mut label = labels[filter].to_owned();
    label.append(": ");
    r.push(Span::styled(label, Style::faint()));
    if focused && filter != FILTER_EXPLOITED {
        push_spans(&mut r, cursor_spans(value, s.cursor, min_w, Style::field()));
    } else {
        let style = if focused {
            Style::field()
        } else if value.is_empty() {
            Style::faint()
        } else {
            Style::color(Color::White)
        };
        let shown: String = if !value.is_empty() {
            value.to_owned()
        } else if filter == FILTER_FROM_DATE || filter == FILTER_TO_DATE {
            "YYYY-MM-DD".to_owned()
        } else {
            blanks(min_w)
        };
        r.push(Span::styled(padded_right(shown.as_str(), min_w), style));
    }
    r.push(Span::raw("  ".to_owned()));
    assert(r@ =~= seq![raw(" "@)] + field_spans_of(s@, filter as int, min_w as nat));
    r
}

/// The lines of the filter sidebar: one for each filter.
pub fn sidebar_lines(s: &SearchState) -> (r: Vec<Line>)
    requires
        s@.focus matches SearchFocus::Filters(i) ==> i < N_FILTERS,
    ensures
        line_views(r@) == sidebar_of(s@),
{
    let widths: [usize; 11] = FIELD_WIDTHS;
    let mut r: Vec<Line> = Vec::new();
    let mut i: usize = 0;
    while i < N_FILTERS
        invariant
            i <= N_FILTERS,
            widths@ == FIELD_WIDTHS@,
            s@.focus matches SearchFocus::Filters(i) ==> i < N_FILTERS,
            line_views(r@) == sidebar_of(s@).take(i as int),
        decreases N_FILTERS - i,
    {
        push_line(&mut r, field_row(s, i, widths[i]));
        assert(sidebar_of(s@).take(i + 1) =~= sidebar_of(s@).take(i as int).push(
            sidebar_of(s@)[i as int],
        ));
        i = i + 1;
    }
    assert(sidebar_of(s@).take(N_FILTERS as int) =~= sidebar_of(s@));
    r
}

// --- tables --------------------------------------------------------------------------------

/// A list of vulnerabilities.
#[derive(Debug)]
pub struct VulnTable {
    pub title: String,
    pub border: Style,
    /// The cells of each row, one span each.
    pub rows: Vec<Line>,
}

/// The model of a [`VulnTable`].
#[verifier::ext_equal]
pub struct VulnTableModel {
    pub title: Seq<char>,
    pub border: Style,
    pub rows: Seq<LineView>,
}

impl View for VulnTable {
    type V = VulnTableModel;

    open spec fn view(&self) -> VulnTableModel {
        VulnTableModel { title: self.title@, border: self.border, rows: line_views(self.rows@) }
    }
}

pub const TABLE_HEADER: [&'static str; 6] = [
    "EUVD ID",
    "CVE",
    "CVSS",
    "EPSS",
    "Published",
    "Description",
];

/// What stands before the selected row.
pub const HIGHLIGHT_SYMBOL: &'static str = "▶ ";

/// The style of the header.
pub fn header_style() -> (r: Style)
    ensures
        r == (Style { bold: true, underlined: true, ..plain() }),
{
    Style { bold: true, underlined: true, ..Style::new() }
}

/// The style of the selected row.
pub fn highlight_style() -> (r: Style)
    ensures
        r == (Style { bg: Some(Color::DarkGray), bold: true, ..plain() }),
{
    Style { bg: Some(Color::DarkGray), bold: true, ..Style::new() }
}

/// What the columns ask for.
pub fn column_rules() -> (r: Vec<Rule>)
    ensures
        r@ == seq![
            Rule::Length(17),
            Rule::Length(15),
            Rule::Length(5),
            Rule::Length(6),
            Rule::Length(12),
            Rule::Min(20),
        ],
{
    vec![
        Rule::Length(17),
        Rule::Length(15),
        Rule::Length(5),
        Rule::Length(6),
        Rule::Length(12),
        Rule::Min(20),
    ]
}

/// The value, or a dash.
pub open spec fn or_dash(value: Option<Seq<char>>) -> Seq<char> {
    match value {
        Some(v) => v,
        None => "—"@,
    }
}

/// The cell of a CVSS score.
pub open spec fn score_cell_of(score: Option<ScoreView>) -> SpanView {
    match score {
        Some(s) => styled(s.tenths, score_style_of(s.bits)),
        None => raw("—"@),
    }
}

/// The cell of an EPSS score.
pub open spec fn epss_cell_of(score: Option<ScoreView>) -> SpanView {
    match score {
        Some(s) => raw(s.tenths + "%"@),
        None => raw("—"@),
    }
}

/// The cells of a vulnerability. White space in the description counts as one space.
pub open spec fn row_of(v: VulnerabilityView) -> LineView {
    seq![
        styled(v.id, colored(ACCENT)),
        raw(or_dash(first_cve(nonblank_lines(v.aliases)))),
        score_cell_of(v.base_score),
        epss_cell_of(v.epss),
        raw(before_second_comma(v.date_published)),
        raw(join(words(v.description), " "@)),
    ]
}

/// The rows of a list.
pub open spec fn rows_of_items(items: Seq<Vulnerability>) -> Seq<LineView> {
    items.map_values(|v: Vulnerability| row_of(v@))
}

/// The cell of a CVSS score.
pub fn score_cell(score: &Option<Score>) -> (r: Span)
    ensures
        r@ == score_cell_of(crate::score::opt_score(*score)),
{
    match score {
        Some(s) => Span::styled(s.tenths.clone(), score_style(s)),
        None => Span::raw("—".to_owned()),
    }
}

fn vuln_row(v: &Vulnerability) -> (r: Line)
    ensures
        r@ == row_of(v@),
{
    let cve = match v.cve() {
        Some(c) => c,
        None => "—",
    };
    let epss = match &v.epss {
        Some(e) => {
            let mut text = e.tenths.clone();
            text.append("%");
            text
        },
        None => "—".to_owned(),
    };
    let mut r = Line::of(Span::styled(v.id.clone(), Style::color(ACCENT)));
    r.push(Span::raw(cve.to_owned()));
    r.push(score_cell(&v.base_score));
    r.push(Span::raw(epss));
    r.push(Span::raw(short_date(v.date_published.as_str())));
    r.push(Span::raw(join_slices(&split_words(v.description.as_str()), " ")));
    assert(r@ =~= row_of(v@));
    r
}

/// A list of vulnerabilities.
pub fn vuln_table(items: &Vec<Vulnerability>, title: String, focused: bool) -> (r: VulnTable)
    ensures
        r@ == (VulnTableModel {
            title: title@,
            border: border_of(focused),
            rows: rows_of_items(items@),
        }),
{
    let mut rows: Vec<Line> = Vec::new();
    let mut i: usize = 0;
    assert(line_views(rows@) =~= rows_of_items(items@).take(0));
    while i < items.len()
        invariant
            i <= items@.len(),
            line_views(rows@) == rows_of_items(items@).take(i as int),
        decreases items@.len() - i,
    {
        push_line(&mut rows, vuln_row(&items[i]));
        assert(rows_of_items(items@).take(i + 1) =~= rows_of_items(items@).take(i as int).push(
            row_of(items@[i as int]@),
        ));
        i = i + 1;
    }
    assert(rows_of_items(items@).take(items@.len() as int) =~= rows_of_items(items@));
    VulnTable { title, border: border_style(focused), rows }
}

// --- scrollbars ------------------------------------------------------------------------------

/// A bar on the right border that shows how far a text is scrolled.
#[derive(Clone, Copy, Debug, PartialEq, Eq, Structural)]
pub struct ScrollBar {
    pub area: Rect,
    /// How far the text can be scrolled.
    pub length: u128,
    pub position: usize,
}

/// The bar over the right border of `area`; none while everything fits.
pub open spec fn scrollbar_of(area: Rect, total: nat, visible: nat, offset: usize) -> Option<
    ScrollBar,
> {
    if total <= visible || visible == 0 {
        None
    } else {
        Some(
            ScrollBar {
                area: between_corners(area),
                length: (total - visible) as u128,
                position: offset,
            },
        )
    }
}

/// The bar over the right border of `area`; none while everything fits.
pub fn scrollbar(area: Rect, total: u128, visible: usize, offset: usize) -> (r: Option<ScrollBar>)
    requires
        on_screen(area),
    ensures
        r == scrollbar_of(area, total as nat, visible as nat, offset),
{
    if total <= visible as u128 || visible == 0 {
        None
    } else {
        Some(
            ScrollBar {
                area: area.middle_rows(),
                length: total - visible as u128,
                position: offset,
            },
        )
    }
}

/// The bar of a table: its border and its header take three rows.
pub fn table_scrollbar(area: Rect, items: usize, offset: usize) -> (r: Option<ScrollBar>)
    requires
        on_screen(area),
    ensures
        r == scrollbar_of(
            area,
            items as nat,
            if area.height < 3 {
                0
            } else {
                (area.height - 3) as nat
            },
            offset,
        ),
{
    let visible: usize = if area.height < 3 {
        0
    } else {
        area.height as usize - 3
    };
    scrollbar(area, items as u128, visible, offset)
}

// --- search tab --------------------------------------------------------------------------------

/// The title of the results.
pub open spec fn results_title_of(m: SearchModel, tick: usize) -> Seq<char> {
    if m.loading {
        " Results · "@ + spinner_at(tick) + " searching… "@
    } else if !m.searched {
        " Results · set filters and press Enter "@
    } else {
        " Results · "@ + decimal(m.total as nat) + " total · page "@ + decimal(
            (m.page + 1) as nat,
        ) + "/"@ + decimal(pages(m.total)) + " "@
    }
}

/// The title of the results.
pub fn results_title(s: &SearchState, tick: usize) -> (r: String)
    ensures
        r@ == results_title_of(s@, tick),
{
    if s.loading {
        joined(" Results · ", spinner(tick), " searching… ")
    } else if !s.searched {
        " Results · set filters and press Enter ".to_owned()
    } else {
        let mut r = joined(" Results · ", decimal_text(s.total).as_str(), " total · page ");
        r.append(decimal_text(s.page as u64 + 1).as_str());
        r.append("/");
        r.append(decimal_text(s.total_pages() as u64).as_str());
        r.append(" ");
        r
    }
}

/// The Search tab.
#[derive(Debug)]
pub struct SearchScreen {
    /// The filters; none while the sidebar is collapsed.
    pub sidebar: Option<Vec<Line>>,
    pub sidebar_border: Style,
    pub table: VulnTable,
}

/// The model of a [`SearchScreen`].
#[verifier::ext_equal]
pub struct SearchScreenModel {
    pub sidebar: Option<Seq<LineView>>,
    pub sidebar_border: Style,
    pub table: VulnTableModel,
}

impl View for SearchScreen {
    type V = SearchScreenModel;

    open spec fn view(&self) -> SearchScreenModel {
        SearchScreenModel {
            sidebar: match self.sidebar {
                Some(rows) => Some(line_views(rows@)),
                None => None,
            },
            sidebar_border: self.sidebar_border,
            table: self.table@,
        }
    }
}

/// The filters are not shown: the sidebar is collapsed, and they have no focus.
pub open spec fn sidebar_hidden(m: SearchModel) -> bool {
    m.filters_collapsed && m.focus is Results
}

/// The Search tab. Either the filters or the results have the focus.
pub open spec fn search_screen_of(m: SearchModel, tick: usize) -> SearchScreenModel {
    SearchScreenModel {
        sidebar: if sidebar_hidden(m) {
            None
        } else {
            Some(sidebar_of(m))
        },
        sidebar_border: border_of(m.focus is Filters),
        table: VulnTableModel {
            title: results_title_of(m, tick),
            border: border_of(m.focus is Results),
            rows: rows_of_items(m.items),
        },
    }
}

/// The Search tab.
pub fn search_screen(s: &SearchState, tick: usize) -> (r: SearchScreen)
    requires
        s@.focus matches SearchFocus::Filters(i) ==> i < N_FILTERS,
    ensures
        r@ == search_screen_of(s@, tick),
{
    let filters = match s.focus {
        SearchFocus::Filters(_) => true,
        SearchFocus::Results => false,
    };
    let sidebar = if s.filters_collapsed && !filters {
        None
    } else {
        Some(sidebar_lines(s))
    };
    SearchScreen {
        sidebar,
        sidebar_border: border_style(filters),
        table: vuln_table(&s.items, results_title(s, tick), !filters),
    }
}

// --- feed tabs -----------------------------------------------------------------------------------

/// The title of a feed.
pub open spec fn feed_title_of(name: Seq<char>, m: FeedModel, tick: usize) -> Seq<char> {
    if m.loading {
        " "@ + name + " · "@ + spinner_at(tick) + " loading… "@
    } else if m.loaded && m.items.len() == 0 && m.error is None {
        " "@ + name + " · no records "@
    } else {
        " "@ + name + " · "@ + decimal(m.items.len())
            + " records (API returns at most 8 I think) "@
    }
}

/// The title of a feed.
pub fn feed_title(name: &str, feed: &FeedState, tick: usize) -> (r: String)
    ensures
        r@ == feed_title_of(name@, feed@, tick),
{
    if feed.loading {
        let mut r = joined(" ", name, " · ");
        r.append(spinner(tick));
        r.append(" loading… ");
        r
    } else if feed.loaded && feed.items.len() == 0 && feed.error.is_none() {
        joined(" ", name, " · no records ")
    } else {
        let mut r = joined(" ", name, " · ");
        r.append(decimal_text(feed.items.len() as u64).as_str());
        r.append(" records (API returns at most 8 I think) ");
        r
    }
}

/// A feed.
pub open spec fn feed_screen_of(name: Seq<char>, m: FeedModel, tick: usize) -> VulnTableModel {
    VulnTableModel {
        title: feed_title_of(name, m, tick),
        border: border_of(true),
        rows: rows_of_items(m.items),
    }
}

/// A feed.
pub fn feed_screen(name: &str, feed: &FeedState, tick: usize) -> (r: VulnTable)
    ensures
        r@ == feed_screen_of(name@, feed@, tick),
{
    vuln_table(&feed.items, feed_title(name, feed, tick), true)
}

// --- lookup tab ------------------------------------------------------------------------------------

/// The Lookup tab.
#[derive(Debug)]
pub struct LookupScreen {
    pub title: String,
    pub border: Style,
    pub input: Line,
    pub help: Vec<Line>,
}

/// The model of a [`LookupScreen`].
#[verifier::ext_equal]
pub struct LookupScreenModel {
    pub title: Seq<char>,
    pub border: Style,
    pub input: LineView,
    pub help: Seq<LineView>,
}

impl View for LookupScreen {
    type V = LookupScreenModel;

    open spec fn view(&self) -> LookupScreenModel {
        LookupScreenModel {
            title: self.title@,
            border: self.border,
            input: self.input@,
            help: line_views(self.help@),
        }
    }
}

/// The text below the input, with the error of the last lookup if it failed.
pub open spec fn lookup_help_of(error: Option<Seq<char>>) -> Seq<LineView> {
    seq![
        Seq::<SpanView>::empty(),
        seq![
            raw("  Ids starting with "@),
            styled("EUVD-"@, colored(ACCENT)),
            raw(" are fetched from /api/enisaid, e.g. "@),
            styled("EUVD-2026-41256"@, colored(ACCENT)),
        ],
        seq![
            raw("  Anything else is treated as an advisory id for /api/advisory, e.g. "@),
            styled("oxas-adv-2024-0002"@, colored(ACCENT)),
        ],
        Seq::<SpanView>::empty(),
        seq![styled("  Enter fetches and opens the record; Esc leaves the input."@, dimmed())],
    ] + match error {
        Some(e) => seq![Seq::<SpanView>::empty(), seq![styled("  ✗ "@ + e, colored(Color::Red))]],
        None => seq![],
    }
}

/// The Lookup tab. The input shows its cursor while it is edited.
pub open spec fn lookup_screen_of(m: LookupModel, tick: usize) -> LookupScreenModel {
    LookupScreenModel {
        title: if m.loading {
            " Lookup id · "@ + spinner_at(tick) + " fetching… "@
        } else {
            " Lookup id "@
        },
        border: border_of(m.editing),
        input: if m.editing {
            with_cursor(m.input, m.cursor, 0, plain())
        } else {
            text_line(m.input)
        },
        help: lookup_help_of(m.error),
    }
}

fn lookup_help(error: &Option<String>) -> (r: Vec<Line>)
    ensures
        line_views(r@) == lookup_help_of(opt_view(*error)),
{
    let mut ids = Line::of(Span::raw("  Ids starting with ".to_owned()));
    ids.push(Span::styled("EUVD-".to_owned(), Style::color(ACCENT)));
    ids.push(Span::raw(" are fetched from /api/enisaid, e.g. ".to_owned()));
    ids.push(Span::styled("EUVD-2026-41256".to_owned(), Style::color(ACCENT)));
    let mut others = Line::of(
        Span::raw(
            "  Anything else is treated as an advisory id for /api/advisory, e.g. ".to_owned(),
        ),
    );
    others.push(Span::styled("oxas-adv-2024-0002".to_owned(), Style::color(ACCENT)));
    let keys = Line::of(
        Span::styled(
            "  Enter fetches and opens the record; Esc leaves the input.".to_owned(),
            Style::faint(),
        ),
    );
    assert(ids@ =~= lookup_help_of(None)[1]);
    assert(others@ =~= lookup_help_of(None)[2]);
    let mut r = vec![Line::empty(), ids, others, Line::empty(), keys];
    assert(line_views(r@) =~= lookup_help_of(None));
    if let Some(e) = error {
        let mut text = "  ✗ ".to_owned();
        text.append(e.as_str());
        push_line(&mut r, Line::empty());
        push_line(&mut r, Line::of(Span::styled(text, Style::color(Color::Red))));
    }
    assert(line_views(r@) =~= lookup_help_of(opt_view(*error)));
    r
}

/// The Lookup tab.
pub fn lookup_screen(s: &LookupState, tick: usize) -> (r: LookupScreen)
    ensures
        r@ == lookup_screen_of(s@, tick),
{
    let input = if s.editing {
        Line { spans: cursor_spans(s.input.as_str(), s.cursor, 0, Style::new()) }
    } else {
        text_row(s.input.as_str())
    };
    let title = if s.loading {
        joined(" Lookup id · ", spinner(tick), " fetching… ")
    } else {
        " Lookup id ".to_owned()
    };
    LookupScreen { title, border: border_style(s.editing), input, help: lookup_help(&s.error) }
}

// --- popups ----------------------------------------------------------------------------------------

/// What lies over the rest of the screen: a bordered text in the accent colour.
#[derive(Debug)]
pub struct Popup {
    pub area: Rect,
    pub title: String,
    pub lines: Vec<Line>,
    /// Lines that are too long go on in the next row.
    pub wrapped: bool,
    /// How many rows are scrolled out at the top.
    pub scroll: u16,
    pub scrollbar: Option<ScrollBar>,
}

/// The model of a [`Popup`].
#[verifier::ext_equal]
pub struct PopupModel {
    pub area: Rect,
    pub title: Seq<char>,
    pub lines: Seq<LineView>,
    pub wrapped: bool,
    pub scroll: u16,
    pub scrollbar: Option<ScrollBar>,
}

impl View for Popup {
    type V = PopupModel;

    open spec fn view(&self) -> PopupModel {
        PopupModel {
            area: self.area,
            title: self.title@,
            lines: line_views(self.lines@),
            wrapped: self.wrapped,
            scroll: self.scroll,
            scrollbar: self.scrollbar,
        }
    }
}

/// How far a text of `total` rows can be scrolled where `visible` rows are shown, as
/// far as 16 bits can count.
pub open spec fn max_scroll(total: nat, visible: nat) -> u16 {
    if total <= visible {
        0
    } else if total - visible <= u16::MAX {
        (total - visible) as u16
    } else {
        u16::MAX
    }
}

/// `scroll`, but no further than the text can be scrolled.
pub open spec fn clamped(scroll: u16, total: nat, visible: nat) -> u16 {
    if scroll < max_scroll(total, visible) {
        scroll
    } else {
        max_scroll(total, visible)
    }
}

/// `scroll`, but no further than the text can be scrolled.
fn clamp_scroll(scroll: u16, total: u128, visible: u16) -> (r: u16)
    ensures
        r == clamped(scroll, total as nat, visible as nat),
{
    let most: u16 = if total <= visible as u128 {
        0
    } else {
        let rows: u128 = total - visible as u128;
        if rows <= 65535 {
            rows as u16
        } else {
            u16::MAX
        }
    };
    if scroll < most {
        scroll
    } else {
        most
    }
}

/// A text that fits is not scrolled, and no text is scrolled past its end. Scrolled to
/// the end, it fills the rows that are shown, as long as the rows above them can be
/// counted.
pub proof fn scrolling_ends_at_the_bottom(scroll: u16, total: nat, visible: nat)
    ensures
        clamped(scroll, total, visible) <= scroll,
        clamped(scroll, total, visible) > 0 ==> clamped(scroll, total, visible) + visible <= total,
        total <= visible + u16::MAX ==> clamped(u16::MAX, total, visible) + visible == (if total
            < visible {
            visible
        } else {
            total
        }),
{
}

// --- assigner picker -------------------------------------------------------------------------------

/// The name is among the entries, in whatever case.
pub open spec fn is_picked(entries: Seq<Seq<char>>, name: Seq<char>) -> bool {
    exists|i: int| 0 <= i < entries.len() && same_ignoring_case(#[trigger] entries[i], name)
}

/// The line of an assigner.
pub open spec fn option_line(name: Seq<char>, picked: bool, at_cursor: bool) -> LineView {
    let style = if picked {
        colored(ACCENT)
    } else {
        plain()
    };
    seq![
        styled(
            " "@ + (if picked {
                "[x]"@
            } else {
                "[ ]"@
            }) + " "@ + name + " "@,
            if at_cursor {
                inverted(style)
            } else {
                style
            },
        ),
    ]
}

/// What has become of the list of assigners, where there is something to say.
pub open spec fn picker_notice_of(m: AssignerModel, tick: usize) -> Seq<LineView> {
    match m.error {
        Some(e) => seq![seq![styled(" ✗ "@ + e, colored(Color::Red))]],
        None => if m.loading {
            seq![
                seq![
                    styled(
                        " "@ + spinner_at(tick) + " fetching assigners…"@,
                        colored(Color::Yellow),
                    ),
                ],
            ]
        } else {
            seq![]
        },
    }
}

/// The lines of the assigners.
pub open spec fn option_lines(
    names: Seq<Seq<char>>,
    entries: Seq<Seq<char>>,
    cursor: usize,
) -> Seq<LineView> {
    names.map(|i: int, name: Seq<char>| option_line(name, is_picked(entries, name), i == cursor))
}

/// The lines of the assigner picker.
pub open spec fn picker_lines_of(m: AppModel, cursor: usize) -> Seq<LineView> {
    picker_notice_of(m.assigner_opts, m.tick) + option_lines(
        m.assigner_opts.names,
        assigners_of(m.search),
        cursor,
    )
}

/// The assigner picker.
pub open spec fn picker_of(m: AppModel, cursor: usize, frame: Rect) -> PopupModel {
    PopupModel {
        area: popup_of(frame, picker_lines_of(m, cursor).len()),
        title: " Assigners "@,
        lines: picker_lines_of(m, cursor),
        wrapped: false,
        scroll: 0,
        scrollbar: None,
    }
}

fn picked(entries: &Vec<String>, name: &str) -> (r: bool)
    ensures
        r == is_picked(views(entries@), name@),
{
    let mut i: usize = 0;
    while i < entries.len()
        invariant
            i <= entries@.len(),
            forall|k: int|
                0 <= k < i ==> !same_ignoring_case(#[trigger] views(entries@)[k], name@),
        decreases entries@.len() - i,
    {
        assert(views(entries@)[i as int] == entries@[i as int]@);
        if eq_ignore_ascii_case(entries[i].as_str(), name) {
            return true;
        }
        i = i + 1;
    }
    false
}

fn option_row(name: &str, is_picked: bool, at_cursor: bool) -> (r: Line)
    ensures
        r@ == option_line(name@, is_picked, at_cursor),
{
    let style = if is_picked {
        Style::color(ACCENT)
    } else {
        Style::new()
    };
    let marker = if is_picked {
        "[x]"
    } else {
        "[ ]"
    };
    let mut text = joined(" ", marker, " ");
    text.append(name);
    text.append(" ");
    Line::of(
        Span::styled(
            text,
            if at_cursor {
                style.inverse()
            } else {
                style
            },
        ),
    )
}

fn picker_rows(app: &App, cursor: usize) -> (r: Vec<Line>)
    ensures
        line_views(r@) == picker_lines_of(app@, cursor),
{
    let opts = &app.assigner_opts;
    let entries = app.search.assigner_entries();
    let mut rows: Vec<Line> = Vec::new();
    if let Some(e) = &opts.error {
        let mut text = " ✗ ".to_owned();
        text.append(e.as_str());
        push_line(&mut rows, Line::of(Span::styled(text, Style::color(Color::Red))));
    } else if opts.loading {
        let text = joined(" ", spinner(app.tick), " fetching assigners…");
        push_line(&mut rows, Line::of(Span::styled(text, Style::color(Color::Yellow))));
    }
    let ghost notice = picker_notice_of(app@.assigner_opts, app.tick);
    assert(line_views(rows@) =~= notice);
    let ghost names = app@.assigner_opts.names;
    let ghost shown = option_lines(names, assigners_of(app@.search), cursor);
    let mut i: usize = 0;
    assert(line_views(rows@) =~= notice + shown.take(0));
    while i < opts.names.len()
        invariant
            i <= opts.names@.len(),
            opts == &app.assigner_opts,
            views(entries@) == assigners_of(app@.search),
            names == views(opts.names@),
            shown == option_lines(names, assigners_of(app@.search), cursor),
            line_views(rows@) == notice + shown.take(i as int),
        decreases opts.names@.len() - i,
    {
        let ghost before = line_views(rows@);
        let name = opts.names[i].as_str();
        let row = option_row(name, picked(&entries, name), i == cursor);
        push_line(&mut rows, row);
        proof {
            assert(names[i as int] == name@);
            assert(shown.take(i + 1) =~= shown.take(i as int).push(row@));
            assert(notice + shown.take(i + 1) =~= before.push(row@));
        }
        i = i + 1;
    }
    assert(shown.take(opts.names@.len() as int) =~= shown);
    rows
}

/// The assigner picker.
pub fn assigner_picker(app: &App, cursor: usize, frame: Rect) -> (r: Popup)
    requires
        popup_fits(frame, picker_lines_of(app@, cursor).len()),
    ensures
        r@ == picker_of(app@, cursor, frame),
{
    let lines = picker_rows(app, cursor);
    assert(lines@.len() == line_views(lines@).len());
    let area = popup_area(frame, lines.len());
    Popup {
        area,
        title: " Assigners ".to_owned(),
        lines,
        wrapped: false,
        scroll: 0,
        scrollbar: None,
    }
}

// --- details -----------------------------------------------------------------------------------------

/// How many rows a line takes: one at least.
pub open spec fn rows_taken(line: LineView, width: nat) -> nat {
    if line_width(line) == 0 {
        1
    } else {
        ((line_width(line) - 1) as nat) / width + 1
    }
}

/// How many rows the lines take, as far as 128 bits can count them.
pub open spec fn total_rows(lines: Seq<LineView>, width: nat) -> nat
    decreases lines.len(),
{
    if lines.len() == 0 {
        0
    } else {
        let sum = total_rows(lines.drop_last(), width) + rows_taken(lines.last(), width);
        if sum <= u128::MAX {
            sum
        } else {
            u128::MAX as nat
        }
    }
}

/// The lines of a record.
pub open spec fn lines_of_record(c: DetailContentView) -> Seq<LineView> {
    match c {
        DetailContentView::Vuln(v) => lines_of_vuln(v),
        DetailContentView::Advisory(a) => lines_of_advisory(a),
    }
}

/// The id of a record.
pub open spec fn id_of_record(c: DetailContentView) -> Seq<char> {
    match c {
        DetailContentView::Vuln(v) => v.id,
        DetailContentView::Advisory(a) => a.id,
    }
}

/// The title of the detail view.
pub open spec fn detail_title_of(d: DetailModel, tick: usize) -> Seq<char> {
    if d.enriching {
        " "@ + id_of_record(d.content) + " · "@ + spinner_at(tick) + " fetching details… "@
    } else {
        " "@ + id_of_record(d.content) + " "@
    }
}

/// The width of the text in a popup.
pub open spec fn text_width(area: Rect) -> nat {
    if within_border(area).width == 0 {
        1
    } else {
        within_border(area).width as nat
    }
}

/// The detail view: how far it can be scrolled goes by the estimated height of the
/// wrapped text.
pub open spec fn detail_of(d: DetailModel, tick: usize, frame: Rect) -> PopupModel {
    let area = center_of(frame, 94, 92);
    let visible = within_border(area).height;
    let lines = lines_of_record(d.content);
    let total = total_rows(lines, text_width(area));
    let scroll = clamped(d.scroll, total, visible as nat);
    PopupModel {
        area,
        title: detail_title_of(d, tick),
        lines,
        wrapped: true,
        scroll,
        scrollbar: scrollbar_of(area, total, visible as nat, scroll as usize),
    }
}

fn count_rows(lines: &Vec<Line>, width: u16) -> (r: u128)
    requires
        width > 0,
    ensures
        r == total_rows(line_views(lines@), width as nat),
{
    let ghost all = line_views(lines@);
    let mut r: u128 = 0;
    let mut i: usize = 0;
    while i < lines.len()
        invariant
            i <= lines@.len(),
            width > 0,
            all == line_views(lines@),
            r == total_rows(all.take(i as int), width as nat),
        decreases lines@.len() - i,
    {
        let cells: u128 = lines[i].width();
        let more: u128 = if cells == 0 {
            0
        } else {
            (cells - 1) / width as u128
        };
        proof {
            let next = all.take(i + 1);
            assert(next.drop_last() =~= all.take(i as int));
            assert(next.last() == lines@[i as int]@);
            assert(rows_taken(next.last(), width as nat) == more + 1);
        }
        r = if more < u128::MAX - r {
            r + more + 1
        } else {
            u128::MAX
        };
        i = i + 1;
    }
    assert(all.take(lines@.len() as int) =~= all);
    r
}

/// The detail view, which keeps its scroll position within the text.
pub fn detail_view(d: &mut DetailState, tick: usize, frame: Rect) -> (r: Popup)
    requires
        on_screen(frame),
    ensures
        r@ == detail_of(old(d)@, tick, frame),
        final(d)@ == (DetailModel { scroll: r.scroll, ..old(d)@ }),
{
    let area = centered(frame, 94, 92);
    let (id, lines) = match &d.content {
        DetailContent::Vuln(v) => (v.id.as_str(), vuln_lines(v)),
        DetailContent::Advisory(a) => (a.id.as_str(), advisory_lines(a)),
    };
    let title = if d.enriching {
        let mut t = joined(" ", id, " · ");
        t.append(spinner(tick));
        t.append(" fetching details… ");
        t
    } else {
        joined(" ", id, " ")
    };
    let inner = area.bordered();
    let width: u16 = if inner.width == 0 {
        1
    } else {
        inner.width
    };
    let total: u128 = count_rows(&lines, width);
    let scroll: u16 = clamp_scroll(d.scroll, total, inner.height);
    d.scroll = scroll;
    Popup {
        area,
        title,
        lines,
        wrapped: true,
        scroll,
        scrollbar: scrollbar(area, total, inner.height as usize, scroll as usize),
    }
}

// --- help ----------------------------------------------------------------------------------------------

/// The help.
pub open spec fn help_of(scroll: u16, frame: Rect) -> PopupModel {
    let area = common(center_of(frame, 60, 70), frame);
    let visible = within_border(area).height;
    let total = lines_of_help().len();
    let shown = clamped(scroll, total, visible as nat);
    PopupModel {
        area,
        title: " Help "@,
        lines: lines_of_help(),
        wrapped: false,
        scroll: shown,
        scrollbar: None,
    }
}

/// The help, scrolled no further than to its end.
pub fn help_view(scroll: u16, frame: Rect) -> (r: Popup)
    requires
        on_screen(frame),
    ensures
        r@ == help_of(scroll, frame),
{
    let area = centered(frame, 60, 70).intersection(frame);
    let lines = help_lines();
    assert(lines@.len() == line_views(lines@).len());
    let inner = area.bordered();
    let total: u128 = lines.len() as u128;
    let shown: u16 = clamp_scroll(scroll, total, inner.height);
    Popup {
        area,
        title: " Help ".to_owned(),
        lines,
        wrapped: false,
        scroll: shown,
        scrollbar: None,
    }
}

// --- status line -----------------------------------------------------------------------------------------

/// The keys that are of use where the program is.
pub open spec fn hints_of(m: AppModel) -> Seq<char> {
    match m.overlay {
        OverlayModel::Help { .. } => "Esc close"@,
        OverlayModel::Detail(_) => {
            "j/k scroll · g/G top/bottom · 1-9/o open reference · Esc/q back"@
        },
        OverlayModel::AssignerPicker { .. } => {
            "j/k move · Space toggle · Ctrl-U clear · Enter/Esc done"@
        },
        OverlayModel::Hidden => if m.tab == TAB_SEARCH {
            match m.search.focus {
                SearchFocus::Filters(i) => if i == FILTER_EXPLOITED {
                    "Space toggle · Tab/↑↓ move · Enter search · Ctrl-U reset · Esc results"@
                } else if i == FILTER_ASSIGNER {
                    "Space pick from list · or type names, comma-separated · Enter search · Esc results"@
                } else {
                    "type to edit · Tab/↑↓ move · Enter search · Ctrl-U clear · Esc results"@
                },
                SearchFocus::Results => {
                    "j/k move · Enter details · n/p page · / filters · 1-5/Tab tabs · r rerun · ? help · q quit"@
                },
            }
        } else if m.tab == TAB_LOOKUP {
            if m.lookup.editing {
                "type an id · Enter fetch · Esc leave input"@
            } else {
                "i edit · Enter fetch · 1-5/Tab tabs · ? help · q quit"@
            }
        } else {
            "j/k move · Enter details · r refresh · 1-5/Tab tabs · ? help · q quit"@
        },
    }
}

/// The error of the active tab.
pub open spec fn error_of(m: AppModel) -> Option<Seq<char>> {
    if m.tab == TAB_SEARCH {
        m.search.error
    } else if m.tab == TAB_LOOKUP {
        m.lookup.error
    } else {
        m.feeds[m.tab].error
    }
}

/// The message at the right: the error of the active tab, or that something is being
/// fetched.
pub open spec fn message_of(m: AppModel) -> SpanView {
    match error_of(m) {
        Some(e) => styled("✗ "@ + e + " "@, colored(Color::Red)),
        None => if loading(m) {
            styled(spinner_at(m.tick) + " loading… "@, colored(Color::Yellow))
        } else {
            raw(""@)
        },
    }
}

/// The line at the bottom.
#[derive(Debug)]
pub struct StatusBar {
    pub hints: Span,
    pub message: Span,
    /// How many columns are set aside for `message`.
    pub message_width: u16,
}

/// The model of a [`StatusBar`].
#[verifier::ext_equal]
pub struct StatusBarModel {
    pub hints: SpanView,
    pub message: SpanView,
    pub message_width: int,
}

impl View for StatusBar {
    type V = StatusBarModel;

    open spec fn view(&self) -> StatusBarModel {
        StatusBarModel {
            hints: self.hints@,
            message: self.message@,
            message_width: self.message_width as int,
        }
    }
}

/// The line at the bottom.
pub open spec fn status_bar_of(m: AppModel) -> StatusBarModel {
    StatusBarModel {
        hints: styled(" "@ + hints_of(m), dimmed()),
        message: message_of(m),
        message_width: cell_width(message_of(m).text) as int % 65536,
    }
}

fn hints(app: &App) -> (r: &'static str)
    ensures
        r@ == hints_of(app@),
{
    match &app.overlay {
        Overlay::Help { .. } => "Esc close",
        Overlay::Detail(_) => "j/k scroll · g/G top/bottom · 1-9/o open reference · Esc/q back",
        Overlay::AssignerPicker { .. } => {
            "j/k move · Space toggle · Ctrl-U clear · Enter/Esc done"
        },
        Overlay::Hidden => if app.tab == TAB_SEARCH {
            match app.search.focus {
                SearchFocus::Filters(i) => if i == FILTER_EXPLOITED {
                    "Space toggle · Tab/↑↓ move · Enter search · Ctrl-U reset · Esc results"
                } else if i == FILTER_ASSIGNER {
                    "Space pick from list · or type names, comma-separated · Enter search · Esc results"
                } else {
                    "type to edit · Tab/↑↓ move · Enter search · Ctrl-U clear · Esc results"
                },
                SearchFocus::Results => {
                    "j/k move · Enter details · n/p page · / filters · 1-5/Tab tabs · r rerun · ? help · q quit"
                },
            }
        } else if app.tab == TAB_LOOKUP {
            if app.lookup.editing {
                "type an id · Enter fetch · Esc leave input"
            } else {
                "i edit · Enter fetch · 1-5/Tab tabs · ? help · q quit"
            }
        } else {
            "j/k move · Enter details · r refresh · 1-5/Tab tabs · ? help · q quit"
        },
    }
}

/// The line at the bottom.
pub fn status_bar(app: &App) -> (r: StatusBar)
    requires
        well_formed(app@),
    ensures
        r@ == status_bar_of(app@),
{
    let error = if app.tab == TAB_SEARCH {
        &app.search.error
    } else if app.tab == TAB_LOOKUP {
        &app.lookup.error
    } else {
        assert(app@.feeds[app.tab as int] == app.feeds@[app.tab as int]@);
        &app.feeds[app.tab].error
    };
    let message = match error {
        Some(e) => Span::styled(joined("✗ ", e.as_str(), " "), Style::color(Color::Red)),
        None => if app.anything_loading() {
            let mut text = spinner(app.tick).to_owned();
            text.append(" loading… ");
            Span::styled(text, Style::color(Color::Yellow))
        } else {
            Span::raw("".to_owned())
        },
    };
    let width: usize = width_of(message.text.as_str());
    let mut text = " ".to_owned();
    text.append(hints(app));
    StatusBar {
        hints: Span::styled(text, Style::faint()),
        message,
        message_width: (width % 65536) as u16,
    }
}

// --- the whole screen ------------------------------------------------------------------------------------

/// The active tab.
#[allow(inconsistent_fields)]
#[derive(Debug)]
pub enum Body {
    Search { screen: SearchScreen, areas: SearchAreas },
    Feed { table: VulnTable, area: Rect },
    Lookup { screen: LookupScreen, areas: LookupAreas },
}

/// The model of what a [`Body`] shows.
#[verifier::ext_equal]
pub enum BodyModel {
    Search(SearchScreenModel),
    Feed(VulnTableModel),
    Lookup(LookupScreenModel),
}

impl View for Body {
    type V = BodyModel;

    open spec fn view(&self) -> BodyModel {
        match self {
            Body::Search { screen, .. } => BodyModel::Search(screen@),
            Body::Feed { table, .. } => BodyModel::Feed(table@),
            Body::Lookup { screen, .. } => BodyModel::Lookup(screen@),
        }
    }
}

/// What the active tab shows.
pub open spec fn body_of(m: AppModel) -> BodyModel {
    if m.tab == TAB_SEARCH {
        BodyModel::Search(search_screen_of(m.search, m.tick))
    } else if m.tab == TAB_LOOKUP {
        BodyModel::Lookup(lookup_screen_of(m.lookup, m.tick))
    } else {
        BodyModel::Feed(feed_screen_of(TABS@[m.tab]@, m.feeds[m.tab], m.tick))
    }
}

/// The parts of the active tab have their places in `area`.
pub open spec fn body_placed(b: Body, area: Rect) -> bool {
    match b {
        Body::Search { screen, areas } => areas == search_places(area, screen.sidebar is None),
        Body::Feed { table, area: whole } => whole == area,
        Body::Lookup { screen, areas } => areas == lookup_places(area),
    }
}

fn body(app: &App, area: Rect) -> (r: Body)
    requires
        well_formed(app@),
        on_screen(area),
    ensures
        r@ == body_of(app@),
        body_placed(r, area),
{
    if app.tab == TAB_SEARCH {
        let screen = search_screen(&app.search, app.tick);
        let areas = search_areas(area, screen.sidebar.is_none());
        Body::Search { screen, areas }
    } else if app.tab == TAB_LOOKUP {
        Body::Lookup { screen: lookup_screen(&app.lookup, app.tick), areas: lookup_areas(area) }
    } else {
        assert(app@.feeds[app.tab as int] == app.feeds@[app.tab as int]@);
        let names: [&'static str; 5] = TABS;
        Body::Feed { table: feed_screen(names[app.tab], &app.feeds[app.tab], app.tick), area }
    }
}

/// The popup, if one is open.
pub open spec fn popup_shown(m: AppModel, frame: Rect) -> Option<PopupModel> {
    match m.overlay {
        OverlayModel::Hidden => None,
        OverlayModel::Help { scroll } => Some(help_of(scroll, frame)),
        OverlayModel::Detail(d) => Some(detail_of(d, m.tick, frame)),
        OverlayModel::AssignerPicker { cursor } => Some(picker_of(m, cursor, frame)),
    }
}

/// The state once the screen is drawn: popups are scrolled no further than to the end
/// of their texts.
pub open spec fn drawn(m: AppModel, frame: Rect) -> AppModel {
    AppModel {
        overlay: match m.overlay {
            OverlayModel::Help { scroll } => {
                OverlayModel::Help { scroll: help_of(scroll, frame).scroll }
            },
            OverlayModel::Detail(d) => {
                OverlayModel::Detail(
                    DetailModel { scroll: detail_of(d, m.tick, frame).scroll, ..d },
                )
            },
            other => other,
        },
        ..m
    }
}

/// The screen can show the state: there is room for the assigner picker if it is open.
pub open spec fn drawable(m: AppModel, frame: Rect) -> bool {
    &&& on_screen(frame)
    &&& m.overlay matches OverlayModel::AssignerPicker { cursor } ==> popup_fits(
        frame,
        picker_lines_of(m, cursor).len(),
    )
}

/// Whether the screen can show the state.
pub fn is_drawable(app: &App, frame: Rect) -> (r: bool)
    ensures
        r == drawable(app@, frame),
{
    let fits = match &app.overlay {
        Overlay::AssignerPicker { cursor } => {
            let rows = picker_rows(app, *cursor);
            assert(rows@.len() == line_views(rows@).len());
            frame.height >= 3 && rows.len() % 65536 <= 65533
        },
        _ => true,
    };
    fits && frame.x as u32 + frame.width as u32 <= 65535 && frame.y as u32 + frame.height as u32
        <= 65535
}

/// All that the screen shows, and where.
#[derive(Debug)]
pub struct Screen {
    pub areas: ScreenAreas,
    pub tabs: TabBar,
    pub tab_areas: TabBarAreas,
    pub body: Body,
    pub status: StatusBar,
    pub status_areas: StatusAreas,
    pub popup: Option<Popup>,
}

/// The view of an optional popup.
pub open spec fn opt_popup(p: Option<Popup>) -> Option<PopupModel> {
    match p {
        Some(q) => Some(q@),
        None => None,
    }
}

/// Lays out and fills the whole screen.
pub fn draw(app: &mut App, frame: Rect) -> (r: Screen)
    requires
        well_formed(old(app)@),
        drawable(old(app)@, frame),
    ensures
        screen_placed(r.areas, frame),
        r.tabs@ == tab_bar_of(old(app)@),
        tab_bar_placed(r.tab_areas, r.areas.tabs, r.tabs.updated_width),
        r.body@ == body_of(old(app)@),
        body_placed(r.body, r.areas.body),
        r.status@ == status_bar_of(old(app)@),
        r.status_areas == status_places(r.areas.status, r.status.message_width),
        opt_popup(r.popup) == popup_shown(old(app)@, frame),
        final(app)@ == drawn(old(app)@, frame),
{
    let areas = screen_areas(frame);
    let tabs = tab_bar(app);
    let tab_areas = tab_bar_areas(areas.tabs, tabs.updated_width);
    let shown = body(app, areas.body);
    let status = status_bar(app);
    let places = status_areas(areas.status, status.message_width);
    let tick: usize = app.tick;
    let popup: Option<Popup> = match &mut app.overlay {
        Overlay::Hidden => None,
        Overlay::Help { scroll } => {
            let p = help_view(*scroll, frame);
            *scroll = p.scroll;
            Some(p)
        },
        Overlay::Detail(d) => Some(detail_view(d, tick, frame)),
        Overlay::AssignerPicker { cursor } => {
            let at: usize = *cursor;
            Some(assigner_picker(app, at, frame))
        },
    };
    Screen { areas, tabs, tab_areas, body: shown, status, status_areas: places, popup }
}

/// Drawing changes the scroll positions of popups only, and changes nothing when
/// nothing has changed since.
pub proof fn drawing_settles(m: AppModel, frame: Rect)
    requires
        well_formed(m),
    ensures
        well_formed(drawn(m, frame)),
        drawn(drawn(m, frame), frame) == drawn(m, frame),
        popup_shown(drawn(m, frame), frame) == popup_shown(m, frame),
{
}

/// The bottom of the details is within reach: scrolled to the end, they fill the rows
/// that are shown, as long as the rows above them can be counted. Details that fit are
/// not scrolled.
pub proof fn details_reach_their_end(d: DetailModel, tick: usize, frame: Rect)
    requires
        d.scroll == u16::MAX,
    ensures
        ({
            let p = detail_of(d, tick, frame);
            let visible = within_border(p.area).height;
            let total = total_rows(p.lines, text_width(p.area));
            &&& visible <= total <= visible + u16::MAX ==> p.scroll + visible == total
            &&& total <= visible ==> p.scroll == 0 && p.scrollbar is None
        }),
{
}

} // verus!
