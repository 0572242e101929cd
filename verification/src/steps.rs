//! What keys and replies mean: each is a step from the state before it to the state
//! after it and to what the program then asks for.

use vstd::prelude::*;

use crate::api::{error_text, ApiError, SearchQueryView, Vulnerability, VulnerabilityView};
use crate::clock::ClockTime;
use crate::edit::edited;
use crate::keys::{KeyCode, KeyEvent, KeyEventKind};
use crate::search::{
    len_of, pages, query_of, slot_of, toggle_step, ScoreInputsView, SearchFocus, SearchModel,
    FILTER_ASSIGNER, FILTER_EXPLOITED, N_FILTERS,
};
use crate::state::{
    references_of, AppModel, AssignerModel, DetailContentView, DetailModel, FeedModel, Fetched,
    LookupModel, OverlayModel, Request, RequestView, N_FEEDS, N_TABS, TAB_LOOKUP, TAB_SEARCH,
};
use crate::table::{moved, moved_to, with_selected, TableState};
use crate::text::{ascii_upper_text, begins_with, trimmed, views};

verus! {

/// A state and what the program asks for in it.
pub type Step = (AppModel, Option<RequestView>);

// --- asking for data -------------------------------------------------------------------

/// A search is asked for. Replies to earlier searches are stale from then on.
pub open spec fn spawn_step(m: AppModel, query: SearchQueryView) -> Step {
    let seq = (m.search.seq + 1) as u64;
    let search = SearchModel { loading: true, error: None, seq, searched: true, ..m.search };
    (AppModel { search, ..m }, Some(RequestView::Search { seq, query }))
}

/// The search of the filters is asked for; where they are not filled in properly,
/// the complaint is shown instead and nothing is asked for.
pub open spec fn search_step(m: AppModel, page: u32, scores: ScoreInputsView) -> Step {
    match query_of(m.search, page, scores) {
        Ok(query) => spawn_step(m, query),
        Err(e) => (AppModel { search: SearchModel { error: Some(e), ..m.search }, ..m }, None),
    }
}

/// A feed is asked for, unless it is being fetched already.
pub open spec fn refresh_step(m: AppModel, idx: int) -> Step {
    let feed = m.feeds[idx];
    if feed.loading {
        (m, None)
    } else {
        let seq = (feed.seq + 1) as u64;
        let asked = FeedModel { loading: true, error: None, seq, ..feed };
        (
            AppModel { feeds: m.feeds.update(idx, asked), ..m },
            Some(RequestView::Feed { idx, seq }),
        )
    }
}

/// The record of a row is shown, and its full form is asked for.
pub open spec fn open_step(m: AppModel, v: VulnerabilityView) -> Step {
    let detail = DetailModel { content: DetailContentView::Vuln(v), scroll: 0, enriching: true };
    (
        AppModel { overlay: OverlayModel::Detail(detail), ..m },
        Some(RequestView::Enrich { id: v.id }),
    )
}

/// The selected row of a list is opened, if there is one.
pub open spec fn open_selected_step(
    m: AppModel,
    items: Seq<Vulnerability>,
    selected: Option<usize>,
) -> Step {
    match selected {
        Some(i) => if i < items.len() {
            open_step(m, items[i as int]@)
        } else {
            (m, None)
        },
        None => (m, None),
    }
}

/// The id is one of the EUVD, whatever the case of its letters.
pub open spec fn is_euvd_id(id: Seq<char>) -> bool {
    begins_with(ascii_upper_text(id), "EUVD-"@)
}

/// The id that was entered is looked up: an EUVD id, in upper case, as a
/// vulnerability, anything else as an advisory. Nothing happens where no id was
/// entered or a lookup is under way.
pub open spec fn lookup_step(m: AppModel) -> Step {
    let id = trimmed(m.lookup.input);
    if id.len() == 0 || m.lookup.loading {
        (m, None)
    } else {
        let seq = (m.lookup.seq + 1) as u64;
        let lookup = LookupModel { loading: true, error: None, seq, ..m.lookup };
        (
            AppModel { lookup, ..m },
            Some(
                if is_euvd_id(id) {
                    RequestView::LookupVuln { seq, id: ascii_upper_text(id) }
                } else {
                    RequestView::LookupAdvisory { seq, id }
                },
            ),
        )
    }
}

/// The assigner picker is opened. The names are asked for unless they are there or
/// on their way.
pub open spec fn picker_step(m: AppModel) -> Step {
    let overlay = OverlayModel::AssignerPicker { cursor: 0 };
    let opts = m.assigner_opts;
    if opts.loaded || opts.loading {
        (AppModel { overlay, ..m }, None)
    } else {
        let seq = (opts.seq + 1) as u64;
        let assigner_opts = AssignerModel { loading: true, error: None, seq, ..opts };
        (AppModel { overlay, assigner_opts, ..m }, Some(RequestView::Assigners { seq }))
    }
}

/// A tab is shown. A feed that was never fetched is then asked for.
pub open spec fn tab_step(m: AppModel, tab: int) -> Step {
    let shown = AppModel { tab, ..m };
    if tab < N_FEEDS && !m.feeds[tab].loaded {
        refresh_step(shown, tab)
    } else {
        (shown, None)
    }
}

/// The address can be opened in a browser.
pub open spec fn is_web_address(url: Seq<char>) -> bool {
    begins_with(url, "http://"@) || begins_with(url, "https://"@)
}

/// An address is opened in the browser, unless it is no web address.
pub open spec fn url_request(url: Seq<char>) -> Option<RequestView> {
    if is_web_address(url) {
        Some(RequestView::OpenUrl { url })
    } else {
        None
    }
}

// --- keys --------------------------------------------------------------------------------

/// The tab that a key leads to, if it is one that switches tabs.
pub open spec fn tab_of_key(tab: int, key: KeyEvent) -> Option<int> {
    match key.code {
        KeyCode::Tab => Some((tab + 1) % (N_TABS as int)),
        KeyCode::BackTab => Some((tab + N_TABS - 1) % (N_TABS as int)),
        KeyCode::Char(c) => if '1' <= c <= '5' {
            Some(c as int - '1' as int)
        } else {
            None
        },
        _ => None,
    }
}

/// The state with another selection on the Search tab.
pub open spec fn search_table(m: AppModel, table: TableState) -> AppModel {
    AppModel { search: SearchModel { table, ..m.search }, ..m }
}

/// The filter gets the focus, with the cursor at the end of its text.
pub open spec fn focus_filter(m: SearchModel, filter: int) -> SearchModel {
    SearchModel { cursor: len_of(m, filter), focus: SearchFocus::Filters(filter as usize), ..m }
}

/// A key on the results of the Search tab, other than one that switches tabs.
pub open spec fn results_key(m: AppModel, key: KeyEvent, scores: ScoreInputsView) -> Step {
    let s = m.search;
    let len = s.items.len();
    match key.code {
        KeyCode::Char('q') => (AppModel { quit: true, ..m }, None),
        KeyCode::Char('j') | KeyCode::Down => (search_table(m, moved(s.table, len, 1)), None),
        KeyCode::Char('k') | KeyCode::Up => (search_table(m, moved(s.table, len, -1)), None),
        KeyCode::Char('g') | KeyCode::Home => (search_table(m, moved_to(s.table, len, 0)), None),
        KeyCode::Char('G') | KeyCode::End => (
            search_table(m, moved_to(s.table, len, len)),
            None,
        ),
        KeyCode::Enter => open_selected_step(m, s.items, s.table.selected),
        KeyCode::Char('n') | KeyCode::Right => if s.searched && s.page + 1 < pages(s.total) {
            search_step(m, (s.page + 1) as u32, scores)
        } else {
            (m, None)
        },
        KeyCode::Char('p') | KeyCode::Left => if s.page > 0 {
            search_step(m, (s.page - 1) as u32, scores)
        } else {
            (m, None)
        },
        KeyCode::Char('r') => if s.searched {
            search_step(m, s.page, scores)
        } else {
            (m, None)
        },
        KeyCode::Char('c') => (
            AppModel {
                search: SearchModel { filters_collapsed: !s.filters_collapsed, ..s },
                ..m
            },
            None,
        ),
        KeyCode::Char('/') | KeyCode::Char('f') | KeyCode::Char('i') => (
            AppModel {
                search: focus_filter(SearchModel { filters_collapsed: false, ..s }, 0),
                ..m
            },
            None,
        ),
        _ => (m, None),
    }
}

/// The exploited tri-state after Space: any, yes, no, any.
pub open spec fn next_exploited(e: Option<bool>) -> Option<bool> {
    match e {
        None => Some(true),
        Some(true) => Some(false),
        Some(false) => None,
    }
}

/// A key that edits the filter `idx`. The exploited tri-state is reset by Ctrl-U.
pub open spec fn filter_edit(s: SearchModel, key: KeyEvent, idx: int) -> SearchModel {
    match slot_of(idx) {
        Some(slot) => {
            let (text, cursor) = edited(s.fields[slot], s.cursor, key);
            SearchModel { fields: s.fields.update(slot, text), cursor, ..s }
        },
        None => if key.control && key.code == KeyCode::Char('u') {
            SearchModel { exploited: None, cursor: 0, ..s }
        } else {
            s
        },
    }
}

/// A key while the filter `idx` has the focus.
pub open spec fn filters_key(m: AppModel, key: KeyEvent, idx: int, scores: ScoreInputsView) -> Step {
    let s = m.search;
    match key.code {
        KeyCode::Esc => (
            AppModel { search: SearchModel { focus: SearchFocus::Results, ..s }, ..m },
            None,
        ),
        KeyCode::Enter => {
            let (after, request) = search_step(m, 0, scores);
            if after.search.error is None {
                (
                    AppModel {
                        search: SearchModel { focus: SearchFocus::Results, ..after.search },
                        ..after
                    },
                    request,
                )
            } else {
                (after, request)
            }
        },
        KeyCode::Tab | KeyCode::Down => (
            AppModel { search: focus_filter(s, (idx + 1) % (N_FILTERS as int)), ..m },
            None,
        ),
        KeyCode::BackTab | KeyCode::Up => (
            AppModel { search: focus_filter(s, (idx + N_FILTERS - 1) % (N_FILTERS as int)), ..m },
            None,
        ),
        KeyCode::Char(' ') => if idx == FILTER_EXPLOITED {
            (
                AppModel {
                    search: SearchModel { exploited: next_exploited(s.exploited), ..s },
                    ..m
                },
                None,
            )
        } else if idx == FILTER_ASSIGNER {
            picker_step(m)
        } else {
            (AppModel { search: filter_edit(s, key, idx), ..m }, None)
        },
        _ => (AppModel { search: filter_edit(s, key, idx), ..m }, None),
    }
}

/// A key on the Search tab.
pub open spec fn search_key(m: AppModel, key: KeyEvent, scores: ScoreInputsView) -> Step {
    match m.search.focus {
        SearchFocus::Filters(idx) => filters_key(m, key, idx as int, scores),
        SearchFocus::Results => match tab_of_key(m.tab, key) {
            Some(tab) => tab_step(m, tab),
            None => results_key(m, key, scores),
        },
    }
}

/// The state with another selection in a feed.
pub open spec fn feed_table(m: AppModel, idx: int, table: TableState) -> AppModel {
    AppModel { feeds: m.feeds.update(idx, FeedModel { table, ..m.feeds[idx] }), ..m }
}

/// A key on the tab of a feed.
pub open spec fn feed_key(m: AppModel, key: KeyEvent, idx: int) -> Step {
    let f = m.feeds[idx];
    let len = f.items.len();
    match tab_of_key(m.tab, key) {
        Some(tab) => tab_step(m, tab),
        None => match key.code {
            KeyCode::Char('q') => (AppModel { quit: true, ..m }, None),
            KeyCode::Char('j') | KeyCode::Down => (
                feed_table(m, idx, moved(f.table, len, 1)),
                None,
            ),
            KeyCode::Char('k') | KeyCode::Up => (
                feed_table(m, idx, moved(f.table, len, -1)),
                None,
            ),
            KeyCode::Char('g') | KeyCode::Home => (
                feed_table(m, idx, moved_to(f.table, len, 0)),
                None,
            ),
            KeyCode::Char('G') | KeyCode::End => (
                feed_table(m, idx, moved_to(f.table, len, len)),
                None,
            ),
            KeyCode::Char('r') => refresh_step(m, idx),
            KeyCode::Enter => open_selected_step(m, f.items, f.table.selected),
            _ => (m, None),
        },
    }
}

/// A key on the Lookup tab.
pub open spec fn lookup_key(m: AppModel, key: KeyEvent) -> Step {
    let l = m.lookup;
    if l.editing {
        match key.code {
            KeyCode::Esc => (AppModel { lookup: LookupModel { editing: false, ..l }, ..m }, None),
            KeyCode::Enter => lookup_step(m),
            _ => {
                let (input, cursor) = edited(l.input, l.cursor, key);
                (AppModel { lookup: LookupModel { input, cursor, ..l }, ..m }, None)
            },
        }
    } else {
        match tab_of_key(m.tab, key) {
            Some(tab) => tab_step(m, tab),
            None => match key.code {
                KeyCode::Char('q') => (AppModel { quit: true, ..m }, None),
                KeyCode::Char('i') | KeyCode::Char('e') | KeyCode::Char('/') => (
                    AppModel {
                        lookup: LookupModel { cursor: l.input.len() as int, editing: true, ..l },
                        ..m
                    },
                    None,
                ),
                KeyCode::Enter => lookup_step(m),
                _ => (m, None),
            },
        }
    }
}

/// The state with another option highlighted in the assigner picker.
pub open spec fn picker_cursor(m: AppModel, cursor: int) -> AppModel {
    AppModel { overlay: OverlayModel::AssignerPicker { cursor: cursor as usize }, ..m }
}

/// A key in the assigner picker, where the option `cursor` is highlighted.
pub open spec fn picker_key(m: AppModel, key: KeyEvent, cursor: int) -> Step {
    let names = m.assigner_opts.names;
    let last: int = if names.len() > 0 {
        names.len() - 1
    } else {
        0
    };
    match key.code {
        KeyCode::Esc | KeyCode::Enter | KeyCode::Char('q') => (
            AppModel { overlay: OverlayModel::Hidden, ..m },
            None,
        ),
        KeyCode::Char('j') | KeyCode::Down => if names.len() == 0 {
            (m, None)
        } else if cursor + 1 <= last {
            (picker_cursor(m, cursor + 1), None)
        } else {
            (picker_cursor(m, last), None)
        },
        KeyCode::Char('k') | KeyCode::Up => if cursor > 0 {
            (picker_cursor(m, cursor - 1), None)
        } else {
            (m, None)
        },
        KeyCode::Char('g') | KeyCode::Home => (picker_cursor(m, 0), None),
        KeyCode::Char('G') | KeyCode::End => (picker_cursor(m, last), None),
        KeyCode::Char(' ') => if cursor < names.len() {
            (AppModel { search: toggle_step(m.search, names[cursor]), ..m }, None)
        } else {
            (m, None)
        },
        KeyCode::Char('u') => if key.control {
            (
                AppModel {
                    search: SearchModel {
                        fields: m.search.fields.update(FILTER_ASSIGNER as int, Seq::empty()),
                        cursor: 0,
                        ..m.search
                    },
                    ..m
                },
                None,
            )
        } else {
            (m, None)
        },
        _ => (m, None),
    }
}

/// `n` more, but no more than a scroll position can be.
pub open spec fn scroll_down(scroll: u16, n: int) -> u16 {
    if scroll + n > u16::MAX {
        u16::MAX
    } else {
        (scroll + n) as u16
    }
}

/// `n` less, but no less than zero.
pub open spec fn scroll_up(scroll: u16, n: int) -> u16 {
    if scroll < n {
        0
    } else {
        (scroll - n) as u16
    }
}

/// The scroll position after a key. The last position stands for the bottom.
pub open spec fn scrolled(scroll: u16, code: KeyCode) -> u16 {
    match code {
        KeyCode::Char('j') | KeyCode::Down => scroll_down(scroll, 1),
        KeyCode::Char('k') | KeyCode::Up => scroll_up(scroll, 1),
        KeyCode::PageDown => scroll_down(scroll, 10),
        KeyCode::PageUp => scroll_up(scroll, 10),
        KeyCode::Char('g') | KeyCode::Home => 0,
        KeyCode::Char('G') | KeyCode::End => u16::MAX,
        _ => scroll,
    }
}

/// A key in the help.
pub open spec fn help_key(m: AppModel, key: KeyEvent, scroll: u16) -> Step {
    match key.code {
        KeyCode::Esc | KeyCode::Char('?') | KeyCode::Char('q') | KeyCode::Enter => (
            AppModel { overlay: OverlayModel::Hidden, ..m },
            None,
        ),
        _ => (
            AppModel { overlay: OverlayModel::Help { scroll: scrolled(scroll, key.code) }, ..m },
            None,
        ),
    }
}

/// The reference that a key opens, counted from zero, if it is such a key.
pub open spec fn reference_of_key(code: KeyCode) -> Option<int> {
    match code {
        KeyCode::Char(c) => if c == 'o' {
            Some(0)
        } else if '1' <= c <= '9' {
            Some(c as int - '1' as int)
        } else {
            None
        },
        _ => None,
    }
}

/// A key while a record is shown.
pub open spec fn detail_key(m: AppModel, key: KeyEvent, d: DetailModel) -> Step {
    match key.code {
        KeyCode::Esc | KeyCode::Char('q') => (AppModel { overlay: OverlayModel::Hidden, ..m }, None),
        _ => match reference_of_key(key.code) {
            Some(n) => (
                m,
                if n < references_of(d.content).len() {
                    url_request(references_of(d.content)[n])
                } else {
                    None
                },
            ),
            None => (
                AppModel {
                    overlay: OverlayModel::Detail(
                        DetailModel { scroll: scrolled(d.scroll, key.code), ..d },
                    ),
                    ..m
                },
                None,
            ),
        },
    }
}

/// Keystrokes are being consumed by a text field.
pub open spec fn typing(m: AppModel) -> bool {
    if m.tab == TAB_SEARCH {
        m.search.focus is Filters
    } else {
        m.tab == TAB_LOOKUP && m.lookup.editing
    }
}

/// What a key does. Releases of keys do nothing; Ctrl-C always quits; an open
/// overlay gets the key before the tab below it does.
pub open spec fn key_step(m: AppModel, key: KeyEvent, scores: ScoreInputsView) -> Step {
    if key.kind == KeyEventKind::Release {
        (m, None)
    } else if key.control && key.code == KeyCode::Char('c') {
        (AppModel { quit: true, ..m }, None)
    } else {
        match m.overlay {
            OverlayModel::Help { scroll } => help_key(m, key, scroll),
            OverlayModel::Detail(d) => detail_key(m, key, d),
            OverlayModel::AssignerPicker { cursor } => picker_key(m, key, cursor as int),
            OverlayModel::Hidden => if key.code == KeyCode::Char('?') && !typing(m) {
                (AppModel { overlay: OverlayModel::Help { scroll: 0 }, ..m }, None)
            } else if m.tab == TAB_SEARCH {
                search_key(m, key, scores)
            } else if m.tab == TAB_LOOKUP {
                lookup_key(m, key)
            } else {
                feed_key(m, key, m.tab)
            },
        }
    }
}

// --- replies -----------------------------------------------------------------------------

/// The state with a record shown.
pub open spec fn showing(m: AppModel, content: DetailContentView) -> AppModel {
    AppModel {
        overlay: OverlayModel::Detail(DetailModel { content, scroll: 0, enriching: false }),
        ..m
    }
}

/// The first row of a list of `len` rows, if it has one.
pub open spec fn first_row(len: nat) -> Option<usize> {
    if len == 0 {
        None
    } else {
        Some(0)
    }
}

/// What a reply does. A reply to anything but the latest request of its kind is
/// stale and does nothing.
pub open spec fn reply_step(m: AppModel, msg: Fetched, now: ClockTime) -> AppModel {
    match msg {
        Fetched::Search { seq, page, result } => {
            let s = SearchModel { loading: false, ..m.search };
            if seq != s.seq {
                m
            } else {
                let search = match result {
                    Ok(resp) => SearchModel {
                        total: resp.total,
                        items: resp.items@,
                        page,
                        table: with_selected(s.table, first_row(resp.items@.len())),
                        last_updated: Some(now),
                        ..s
                    },
                    Err(ApiError::NotFound) => SearchModel {
                        total: 0,
                        items: seq![],
                        table: with_selected(s.table, None),
                        last_updated: Some(now),
                        ..s
                    },
                    Err(e) => SearchModel { error: Some(error_text(e@)), ..s },
                };
                AppModel { search, ..m }
            }
        },
        Fetched::Feed { idx, seq, result } => {
            let f = FeedModel { loading: false, loaded: true, ..m.feeds[idx as int] };
            if seq != f.seq {
                m
            } else {
                let feed = match result {
                    Ok(items) => FeedModel {
                        items: items@,
                        table: with_selected(f.table, first_row(items@.len())),
                        last_updated: Some(now),
                        ..f
                    },
                    Err(e) => FeedModel { error: Some(error_text(e@)), ..f },
                };
                AppModel { feeds: m.feeds.update(idx as int, feed), ..m }
            }
        },
        Fetched::Enrich { id, result } => match m.overlay {
            OverlayModel::Detail(d) => match d.content {
                DetailContentView::Vuln(v) => if v.id == id@ {
                    let content = match result {
                        Ok(full) => DetailContentView::Vuln(full@),
                        Err(e) => d.content,
                    };
                    AppModel {
                        overlay: OverlayModel::Detail(
                            DetailModel { content, enriching: false, ..d },
                        ),
                        ..m
                    }
                } else {
                    m
                },
                DetailContentView::Advisory(a) => m,
            },
            _ => m,
        },
        Fetched::LookupVuln { seq, result } => {
            let l = LookupModel { loading: false, ..m.lookup };
            if seq != l.seq {
                m
            } else {
                match result {
                    Ok(v) => showing(
                        AppModel { lookup: LookupModel { last_updated: Some(now), ..l }, ..m },
                        DetailContentView::Vuln(v@),
                    ),
                    Err(e) => AppModel {
                        lookup: LookupModel { error: Some(error_text(e@)), ..l },
                        ..m
                    },
                }
            }
        },
        Fetched::LookupAdvisory { seq, result } => {
            let l = LookupModel { loading: false, ..m.lookup };
            if seq != l.seq {
                m
            } else {
                match result {
                    Ok(a) => showing(
                        AppModel { lookup: LookupModel { last_updated: Some(now), ..l }, ..m },
                        DetailContentView::Advisory(a@),
                    ),
                    Err(e) => AppModel {
                        lookup: LookupModel { error: Some(error_text(e@)), ..l },
                        ..m
                    },
                }
            }
        },
        Fetched::Assigners { seq, result } => {
            let o = AssignerModel { loading: false, ..m.assigner_opts };
            if seq != o.seq {
                m
            } else {
                let assigner_opts = match result {
                    Ok(names) => AssignerModel { names: views(names@), loaded: true, ..o },
                    Err(e) => AssignerModel { error: Some(error_text(e@)), ..o },
                };
                AppModel { assigner_opts, ..m }
            }
        },
    }
}

/// The requests of a list.
pub open spec fn request_views(v: Seq<Request>) -> Seq<RequestView> {
    v.map_values(|r: Request| r@)
}

/// An optional request as a list.
pub open spec fn listed(r: Option<RequestView>) -> Seq<RequestView> {
    match r {
        Some(x) => seq![x],
        None => seq![],
    }
}

/// What the program asks for at its start: the search of the filters and the three
/// feeds, in this order.
pub open spec fn init_step(m: AppModel, scores: ScoreInputsView) -> (AppModel, Seq<RequestView>) {
    let (m1, r1) = search_step(m, 0, scores);
    let (m2, r2) = refresh_step(m1, 0);
    let (m3, r3) = refresh_step(m2, 1);
    let (m4, r4) = refresh_step(m3, 2);
    (m4, listed(r1) + listed(r2) + listed(r3) + listed(r4))
}

/// Something is being fetched.
pub open spec fn loading(m: AppModel) -> bool {
    ||| m.search.loading
    ||| m.lookup.loading
    ||| m.assigner_opts.loading
    ||| m.feeds[0].loading
    ||| m.feeds[1].loading
    ||| m.feeds[2].loading
    ||| m.overlay matches OverlayModel::Detail(d) && d.enriching
}

} // verus!
