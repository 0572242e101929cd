//! Laws of the keys: what each does on each screen, and that it does nothing else.

use vstd::prelude::*;

use crate::api::{GetView, Vulnerability};
use crate::edit::edited;
use crate::keys::{KeyCode, KeyEvent, KeyEventKind};
use crate::laws::lookup_finds_its_endpoint;
use crate::query_laws::euvd_ids_begin_with_euvd;
use crate::search::{
    entry, field_of, len_of, pages, query_of, slot_of, toggle_step, ScoreInputsView, SearchFocus,
    SearchModel,
};
use crate::state::{
    call_of, references_of, well_formed, AppModel, AssignerModel, DetailContentView, DetailModel,
    FeedModel, LookupModel, OverlayModel, RequestView,
};
use crate::steps::{key_step, search_step, url_request};
use crate::table::TableState;
use crate::text::{ascii_upper_text, trimmed};
use crate::text_laws::{all_white, blank_texts_are_white};

verus! {

/// The key with this code goes down or is held down. Control with `c` is a key of its own.
pub open spec fn strikes(key: KeyEvent, code: KeyCode) -> bool {
    &&& key.code == code
    &&& key.kind != KeyEventKind::Release
    &&& !(key.control && code == KeyCode::Char('c'))
}

/// The character key goes down or is held down.
pub open spec fn strikes_char(key: KeyEvent, c: char) -> bool {
    strikes(key, KeyCode::Char(c))
}

/// Nothing is open over the tab.
pub open spec fn on_tab(m: AppModel, tab: int) -> bool {
    m.tab == tab && m.overlay is Hidden
}

/// The step asks for nothing and leads to this state.
pub open spec fn leads_to(step: (AppModel, Option<RequestView>), after: AppModel) -> bool {
    step == (after, None::<RequestView>)
}

/// A key that does nothing on the results, the feeds and the Lookup tab outside its input.
pub open spec fn idle_key(key: KeyEvent) -> bool {
    &&& key.kind != KeyEventKind::Release
    &&& key.code == KeyCode::Esc || key.code == KeyCode::PageUp || key.code == KeyCode::PageDown
        || key.code == KeyCode::Backspace || key.code == KeyCode::Delete || key.code
        == KeyCode::Other
}

// --- every screen ------------------------------------------------------------------------

/// A key that is released does nothing. Control with `c` quits, whatever is shown. So do
/// `q` where nothing is typed and no popup is open, and `?` opens the help there.
pub proof fn keys_of_every_screen(m: AppModel, key: KeyEvent, scores: ScoreInputsView)
    requires
        well_formed(m),
    ensures
        key.kind == KeyEventKind::Release ==> leads_to(key_step(m, key, scores), m),
        key.kind != KeyEventKind::Release && key.control && key.code == KeyCode::Char('c')
            ==> leads_to(key_step(m, key, scores), AppModel { quit: true, ..m }),
        m.overlay is Hidden && !(m.tab == 3 && m.search.focus is Filters) && !(m.tab == 4
            && m.lookup.editing) ==> {
            &&& strikes_char(key, 'q') ==> leads_to(
                key_step(m, key, scores),
                AppModel { quit: true, ..m },
            )
            &&& strikes_char(key, '?') ==> leads_to(
                key_step(m, key, scores),
                AppModel { overlay: OverlayModel::Help { scroll: 0 }, ..m },
            )
        },
{
}

/// Where nothing is typed and no popup is open, Tab goes to the tab to the right and Shift
/// with Tab to the one to the left, round and round, and a number to the tab with it. A
/// feed that was neither fetched nor asked for is then asked for. Nothing else changes.
pub proof fn keys_switch_tabs(m: AppModel, key: KeyEvent, tab: int, scores: ScoreInputsView)
    requires
        well_formed(m),
        m.overlay is Hidden,
        !(m.tab == 3 && m.search.focus is Filters),
        !(m.tab == 4 && m.lookup.editing),
        0 <= tab < 5,
        tab < 3 ==> m.feeds[tab].seq < u64::MAX,
        ({
            ||| strikes(key, KeyCode::Tab) && tab == m.tab + 1
            ||| strikes(key, KeyCode::Tab) && tab == 0 && m.tab == 4
            ||| strikes(key, KeyCode::BackTab) && tab == m.tab - 1
            ||| strikes(key, KeyCode::BackTab) && tab == 4 && m.tab == 0
            ||| strikes_char(key, '1') && tab == 0
            ||| strikes_char(key, '2') && tab == 1
            ||| strikes_char(key, '3') && tab == 2
            ||| strikes_char(key, '4') && tab == 3
            ||| strikes_char(key, '5') && tab == 4
        }),
    ensures
        tab < 3 && !m.feeds[tab].loaded && !m.feeds[tab].loading ==> key_step(m, key, scores) == (
            AppModel {
                tab,
                feeds: m.feeds.update(
                    tab,
                    FeedModel {
                        loading: true,
                        error: None,
                        seq: (m.feeds[tab].seq + 1) as u64,
                        ..m.feeds[tab]
                    },
                ),
                ..m
            },
            Some(RequestView::Feed { idx: tab, seq: (m.feeds[tab].seq + 1) as u64 }),
        ),
        !(tab < 3 && !m.feeds[tab].loaded && !m.feeds[tab].loading) ==> leads_to(
            key_step(m, key, scores),
            AppModel { tab, ..m },
        ),
{
}

// --- lists -------------------------------------------------------------------------------

/// The row `row` of the list is selected and the list is not scrolled. In an empty list
/// nothing is selected anew.
pub open spec fn row_selected(before: TableState, rows: nat, row: int) -> TableState {
    if rows == 0 {
        before
    } else {
        TableState { selected: Some(row as usize), offset: before.offset }
    }
}

/// The row that a key leads to in a list of `rows` rows, from the row `at`.
pub open spec fn row_of_key(key: KeyEvent, at: int, rows: nat, row: int) -> bool {
    ||| (strikes_char(key, 'j') || strikes(key, KeyCode::Down)) && row == if at + 1 < rows {
        at + 1
    } else {
        rows - 1
    }
    ||| (strikes_char(key, 'k') || strikes(key, KeyCode::Up)) && row == if at > 0 {
        at - 1
    } else {
        0
    }
    ||| (strikes_char(key, 'g') || strikes(key, KeyCode::Home)) && row == 0
    ||| (strikes_char(key, 'G') || strikes(key, KeyCode::End)) && row == rows - 1
}

/// The row that counts as the selected one: the first one where none is.
pub open spec fn row_at(t: TableState, rows: nat, at: int) -> bool {
    match t.selected {
        Some(i) => at == i && i < rows,
        None => at == 0,
    }
}

/// On the results, the list keys select the row below or above, the first or the last one.
pub proof fn keys_select_results(
    m: AppModel,
    key: KeyEvent,
    at: int,
    row: int,
    scores: ScoreInputsView,
)
    requires
        well_formed(m),
        on_tab(m, 3),
        m.search.focus is Results,
        m.search.items.len() <= usize::MAX,
        row_at(m.search.table, m.search.items.len(), at),
        row_of_key(key, at, m.search.items.len(), row),
    ensures
        leads_to(
            key_step(m, key, scores),
            AppModel {
                search: SearchModel {
                    table: row_selected(m.search.table, m.search.items.len(), row),
                    ..m.search
                },
                ..m
            },
        ),
{
}

/// In a feed, the list keys select the row below or above, the first or the last one.
pub proof fn keys_select_feed_rows(
    m: AppModel,
    key: KeyEvent,
    at: int,
    row: int,
    scores: ScoreInputsView,
)
    requires
        well_formed(m),
        m.overlay is Hidden,
        m.tab < 3,
        m.feeds[m.tab].items.len() <= usize::MAX,
        row_at(m.feeds[m.tab].table, m.feeds[m.tab].items.len(), at),
        row_of_key(key, at, m.feeds[m.tab].items.len(), row),
    ensures
        ({
            let feed = m.feeds[m.tab];
            leads_to(
                key_step(m, key, scores),
                AppModel {
                    feeds: m.feeds.update(
                        m.tab,
                        FeedModel {
                            table: row_selected(feed.table, feed.items.len(), row),
                            ..feed
                        },
                    ),
                    ..m
                },
            )
        }),
{
    let feed = m.feeds[m.tab];
    assert(m.feeds.update(m.tab, feed) =~= m.feeds);
}

/// Enter shows the record of the selected row from its top and asks for its full form. It
/// does nothing where no row is selected.
pub proof fn enter_opens_the_selected_row(
    m: AppModel,
    key: KeyEvent,
    items: Seq<Vulnerability>,
    table: TableState,
    scores: ScoreInputsView,
)
    requires
        well_formed(m),
        m.overlay is Hidden,
        m.tab == 3 && m.search.focus is Results && items == m.search.items && table
            == m.search.table || m.tab < 3 && items == m.feeds[m.tab].items && table
            == m.feeds[m.tab].table,
        strikes(key, KeyCode::Enter),
    ensures
        match table.selected {
            Some(row) => if row < items.len() {
                key_step(m, key, scores) == (
                    AppModel {
                        overlay: OverlayModel::Detail(
                            DetailModel {
                                content: DetailContentView::Vuln(items[row as int]@),
                                scroll: 0,
                                enriching: true,
                            },
                        ),
                        ..m
                    },
                    Some(RequestView::Enrich { id: items[row as int]@.id }),
                )
            } else {
                leads_to(key_step(m, key, scores), m)
            },
            None => leads_to(key_step(m, key, scores), m),
        },
{
}

// --- the results -------------------------------------------------------------------------

/// On the results, `n` and the right arrow ask for the next page, if there is one and a
/// search was made; `p` and the left arrow for the one before; `r` for the same one again,
/// if a search was made.
pub proof fn keys_turn_pages(m: AppModel, key: KeyEvent, scores: ScoreInputsView)
    requires
        well_formed(m),
        on_tab(m, 3),
        m.search.focus is Results,
        m.search.page < u32::MAX,
    ensures
        strikes_char(key, 'n') || strikes(key, KeyCode::Right) ==> if m.search.searched
            && m.search.page + 1 < pages(m.search.total) {
            key_step(m, key, scores) == search_step(m, (m.search.page + 1) as u32, scores)
        } else {
            leads_to(key_step(m, key, scores), m)
        },
        strikes_char(key, 'p') || strikes(key, KeyCode::Left) ==> if m.search.page > 0 {
            key_step(m, key, scores) == search_step(m, (m.search.page - 1) as u32, scores)
        } else {
            leads_to(key_step(m, key, scores), m)
        },
        strikes_char(key, 'r') ==> if m.search.searched {
            key_step(m, key, scores) == search_step(m, m.search.page, scores)
        } else {
            leads_to(key_step(m, key, scores), m)
        },
{
}

/// On the results, `c` shows or hides the sidebar; `/`, `f` and `i` show it and go to the
/// end of its first filter.
pub proof fn keys_lead_to_the_filters(m: AppModel, key: KeyEvent, scores: ScoreInputsView)
    requires
        well_formed(m),
        on_tab(m, 3),
        m.search.focus is Results,
    ensures
        strikes_char(key, 'c') ==> leads_to(
            key_step(m, key, scores),
            AppModel {
                search: SearchModel {
                    filters_collapsed: !m.search.filters_collapsed,
                    ..m.search
                },
                ..m
            },
        ),
        strikes_char(key, '/') || strikes_char(key, 'f') || strikes_char(key, 'i') ==> leads_to(
            key_step(m, key, scores),
            AppModel {
                search: SearchModel {
                    filters_collapsed: false,
                    focus: SearchFocus::Filters(0),
                    cursor: m.search.fields[0].len() as int,
                    ..m.search
                },
                ..m
            },
        ),
{
}

/// On the results, every other key does nothing.
pub proof fn other_keys_leave_the_results(
    m: AppModel,
    key: KeyEvent,
    c: char,
    scores: ScoreInputsView,
)
    requires
        well_formed(m),
        on_tab(m, 3),
        m.search.focus is Results,
        ({
            ||| idle_key(key)
            ||| strikes_char(key, c) && !('1' <= c <= '5') && c != 'q' && c != '?' && c != 'j' && c
                != 'k' && c != 'g' && c != 'G' && c != 'n' && c != 'p' && c != 'r' && c != 'c' && c
                != '/' && c != 'f' && c != 'i'
        }),
    ensures
        leads_to(key_step(m, key, scores), m),
{
}

// --- the feeds ---------------------------------------------------------------------------

/// In a feed, `r` asks for the feed again, unless it is being fetched. The arrows to the
/// sides and every other key do nothing.
pub proof fn keys_of_the_feeds(m: AppModel, key: KeyEvent, c: char, scores: ScoreInputsView)
    requires
        well_formed(m),
        m.overlay is Hidden,
        m.tab < 3,
        m.feeds[m.tab].seq < u64::MAX,
    ensures
        ({
            let feed = m.feeds[m.tab];
            &&& strikes_char(key, 'r') && feed.loading ==> leads_to(key_step(m, key, scores), m)
            &&& strikes_char(key, 'r') && !feed.loading ==> key_step(m, key, scores) == (
                AppModel {
                    feeds: m.feeds.update(
                        m.tab,
                        FeedModel {
                            loading: true,
                            error: None,
                            seq: (feed.seq + 1) as u64,
                            ..feed
                        },
                    ),
                    ..m
                },
                Some(RequestView::Feed { idx: m.tab, seq: (feed.seq + 1) as u64 }),
            )
            &&& idle_key(key) || strikes(key, KeyCode::Left) || strikes(key, KeyCode::Right)
                ==> leads_to(key_step(m, key, scores), m)
            &&& strikes_char(key, c) && !('1' <= c <= '5') && c != 'q' && c != '?' && c != 'j' && c
                != 'k' && c != 'g' && c != 'G' && c != 'r' ==> leads_to(
                key_step(m, key, scores),
                m,
            )
        }),
{
}

// --- the filters -------------------------------------------------------------------------

/// The texts of the filters, in which the exploited one has none.
pub open spec fn text_of_filter(s: SearchModel, filter: int) -> Option<Seq<char>> {
    if filter < 6 {
        Some(s.fields[filter])
    } else if filter == 6 {
        None
    } else {
        Some(s.fields[filter - 1])
    }
}

/// The end of the text of a filter.
pub open spec fn end_of_filter(s: SearchModel, filter: int) -> int {
    match text_of_filter(s, filter) {
        Some(t) => t.len() as int,
        None => 0,
    }
}

/// The text of a filter, what is entered there and how long it is are those of its own
/// field: the exploited filter, which has none, is left out in the count of the fields.
pub proof fn filters_have_their_own_texts(s: SearchModel, filter: int)
    requires
        s.fields.len() == 10,
        0 <= filter < 11,
    ensures
        field_of(s, filter) == text_of_filter(s, filter),
        len_of(s, filter) == end_of_filter(s, filter),
        filter != 6 ==> entry(s, filter) == trimmed(text_of_filter(s, filter)->0),
        filter == 6 ==> entry(s, filter).len() == 0,
        filter < 6 ==> slot_of(filter) == Some(filter),
        filter == 6 ==> slot_of(filter) is None,
        filter > 6 ==> slot_of(filter) == Some(filter - 1),
{
}

/// The filter that a key leads to from the filter `idx`: the next or the one before.
pub open spec fn filter_of_key(key: KeyEvent, idx: int, to: int) -> bool {
    let next = if idx == 10 {
        0
    } else {
        idx + 1
    };
    let previous = if idx == 0 {
        10
    } else {
        idx - 1
    };
    ||| (strikes(key, KeyCode::Tab) || strikes(key, KeyCode::Down)) && to == next
    ||| (strikes(key, KeyCode::BackTab) || strikes(key, KeyCode::Up)) && to == previous
}

/// In a filter, Esc goes back to the results. Tab and the arrow down go to the end of the
/// next filter, Shift with Tab and the arrow up to the end of the one before, round and
/// round. Nothing else changes.
pub proof fn keys_move_between_filters(
    m: AppModel,
    key: KeyEvent,
    idx: int,
    to: int,
    scores: ScoreInputsView,
)
    requires
        well_formed(m),
        on_tab(m, 3),
        m.search.focus == SearchFocus::Filters(idx as usize),
        0 <= idx < 11,
        0 <= to < 11,
    ensures
        strikes(key, KeyCode::Esc) ==> leads_to(
            key_step(m, key, scores),
            AppModel { search: SearchModel { focus: SearchFocus::Results, ..m.search }, ..m },
        ),
        filter_of_key(key, idx, to) ==> leads_to(
            key_step(m, key, scores),
            AppModel {
                search: SearchModel {
                    focus: SearchFocus::Filters(to as usize),
                    cursor: end_of_filter(m.search, to),
                    ..m.search
                },
                ..m
            },
        ),
{
}

/// In a filter, Enter asks for the first page of the search of the filters and goes to the
/// results. Where a filter is not filled in properly it stays there and complains.
pub proof fn enter_searches_from_the_filters(
    m: AppModel,
    key: KeyEvent,
    idx: int,
    scores: ScoreInputsView,
)
    requires
        well_formed(m),
        on_tab(m, 3),
        m.search.focus == SearchFocus::Filters(idx as usize),
        0 <= idx < 11,
        m.search.seq < u64::MAX,
        strikes(key, KeyCode::Enter),
    ensures
        match query_of(m.search, 0, scores) {
            Ok(query) => key_step(m, key, scores) == (
                AppModel {
                    search: SearchModel {
                        focus: SearchFocus::Results,
                        loading: true,
                        searched: true,
                        error: None,
                        seq: (m.search.seq + 1) as u64,
                        ..m.search
                    },
                    ..m
                },
                Some(RequestView::Search { seq: (m.search.seq + 1) as u64, query }),
            ),
            Err(e) => leads_to(
                key_step(m, key, scores),
                AppModel { search: SearchModel { error: Some(e), ..m.search }, ..m },
            ),
        },
{
}

/// Space sets the exploited filter to yes, from there to no and from there back to any.
/// Control with `u` sets it to any. No other key that types does anything to it.
pub proof fn keys_set_the_exploited_filter(
    m: AppModel,
    key: KeyEvent,
    c: char,
    scores: ScoreInputsView,
)
    requires
        well_formed(m),
        on_tab(m, 3),
        m.search.focus == SearchFocus::Filters(6),
    ensures
        strikes_char(key, ' ') ==> leads_to(
            key_step(m, key, scores),
            AppModel {
                search: SearchModel {
                    exploited: if m.search.exploited is None {
                        Some(true)
                    } else if m.search.exploited == Some(true) {
                        Some(false)
                    } else {
                        None
                    },
                    ..m.search
                },
                ..m
            },
        ),
        strikes_char(key, 'u') && key.control ==> leads_to(
            key_step(m, key, scores),
            AppModel { search: SearchModel { exploited: None, cursor: 0, ..m.search }, ..m },
        ),
        strikes_char(key, c) && c != ' ' && !(c == 'u' && key.control) ==> leads_to(
            key_step(m, key, scores),
            m,
        ),
        idle_key(key) && key.code != KeyCode::Esc ==> leads_to(key_step(m, key, scores), m),
        strikes(key, KeyCode::Left) || strikes(key, KeyCode::Right) || strikes(key, KeyCode::Home)
            || strikes(key, KeyCode::End) ==> leads_to(key_step(m, key, scores), m),
{
}

/// In every other filter, the keys that edit a text edit the one of that filter, and
/// nothing else; but Space in the assigner filter opens the picker.
pub proof fn keys_edit_the_filter(
    m: AppModel,
    key: KeyEvent,
    idx: int,
    scores: ScoreInputsView,
)
    requires
        well_formed(m),
        on_tab(m, 3),
        m.search.focus == SearchFocus::Filters(idx as usize),
        0 <= idx < 11,
        idx != 6,
        strikes(key, key.code),
        key.code != KeyCode::Esc,
        key.code != KeyCode::Enter,
        key.code != KeyCode::Tab,
        key.code != KeyCode::BackTab,
        key.code != KeyCode::Up,
        key.code != KeyCode::Down,
        !(idx == 3 && key.code == KeyCode::Char(' ')),
    ensures
        ({
            let slot = if idx < 6 {
                idx
            } else {
                idx - 1
            };
            let (text, cursor) = edited(m.search.fields[slot], m.search.cursor, key);
            leads_to(
                key_step(m, key, scores),
                AppModel {
                    search: SearchModel {
                        fields: m.search.fields.update(slot, text),
                        cursor,
                        ..m.search
                    },
                    ..m
                },
            )
        }),
{
}

/// Space in the assigner filter opens the picker at its first name. The names are asked
/// for unless they are there or on their way.
pub proof fn space_opens_the_picker(m: AppModel, key: KeyEvent, scores: ScoreInputsView)
    requires
        well_formed(m),
        on_tab(m, 3),
        m.search.focus == SearchFocus::Filters(3),
        m.assigner_opts.seq < u64::MAX,
        strikes_char(key, ' '),
    ensures
        m.assigner_opts.loaded || m.assigner_opts.loading ==> leads_to(
            key_step(m, key, scores),
            AppModel { overlay: OverlayModel::AssignerPicker { cursor: 0 }, ..m },
        ),
        !m.assigner_opts.loaded && !m.assigner_opts.loading ==> key_step(m, key, scores) == (
            AppModel {
                overlay: OverlayModel::AssignerPicker { cursor: 0 },
                assigner_opts: AssignerModel {
                    loading: true,
                    error: None,
                    seq: (m.assigner_opts.seq + 1) as u64,
                    ..m.assigner_opts
                },
                ..m
            },
            Some(RequestView::Assigners { seq: (m.assigner_opts.seq + 1) as u64 }),
        ),
{
}

// --- the Lookup tab ----------------------------------------------------------------------

/// On the Lookup tab, whether or not its input is edited, Enter asks for the id that was
/// entered, without the white space around it and with the next number: an EUVD id, in
/// upper case, at its endpoint, anything else at that of the advisories. The tab then
/// waits, and nothing else changes. Nothing happens where no id was entered or a lookup is
/// under way.
pub proof fn enter_looks_up(m: AppModel, key: KeyEvent, scores: ScoreInputsView)
    requires
        well_formed(m),
        on_tab(m, 4),
        m.lookup.seq < u64::MAX,
        strikes(key, KeyCode::Enter),
    ensures
        ({
            let (after, asked) = key_step(m, key, scores);
            let id = trimmed(m.lookup.input);
            let seq = (m.lookup.seq + 1) as u64;
            let euvd = id.len() >= 5 && (id[0] == 'E' || id[0] == 'e') && (id[1] == 'U' || id[1]
                == 'u') && (id[2] == 'V' || id[2] == 'v') && (id[3] == 'D' || id[3] == 'd')
                && id[4] == '-';
            if all_white(m.lookup.input) || m.lookup.loading {
                after == m && asked is None
            } else {
                &&& after.lookup.loading
                &&& after.lookup.editing == m.lookup.editing
                &&& after.lookup.input == m.lookup.input
                &&& after == (AppModel {
                    lookup: LookupModel { loading: true, error: None, seq, ..m.lookup },
                    ..m
                })
                &&& euvd ==> asked == Some(RequestView::LookupVuln { seq, id: ascii_upper_text(id) })
                &&& !euvd ==> asked == Some(RequestView::LookupAdvisory { seq, id })
                &&& euvd ==> call_of(asked->0) == Some(
                    GetView { path: "/enisaid"@, params: seq![("id"@, ascii_upper_text(id))] },
                )
                &&& !euvd ==> call_of(asked->0) == Some(
                    GetView { path: "/advisory"@, params: seq![("id"@, id)] },
                )
            }
        }),
{
    blank_texts_are_white(m.lookup.input);
    euvd_ids_begin_with_euvd(trimmed(m.lookup.input));
    if !m.lookup.loading {
        lookup_finds_its_endpoint(m);
    }
}

/// While the input of the Lookup tab is edited, Esc ends that, and every other key but
/// Enter edits the input and nothing else.
pub proof fn keys_edit_the_lookup_input(m: AppModel, key: KeyEvent, scores: ScoreInputsView)
    requires
        well_formed(m),
        on_tab(m, 4),
        m.lookup.editing,
        strikes(key, key.code),
        key.code != KeyCode::Enter,
    ensures
        key.code == KeyCode::Esc ==> leads_to(
            key_step(m, key, scores),
            AppModel { lookup: LookupModel { editing: false, ..m.lookup }, ..m },
        ),
        key.code != KeyCode::Esc ==> leads_to(
            key_step(m, key, scores),
            AppModel {
                lookup: LookupModel {
                    input: edited(m.lookup.input, m.lookup.cursor, key).0,
                    cursor: edited(m.lookup.input, m.lookup.cursor, key).1,
                    ..m.lookup
                },
                ..m
            },
        ),
{
}

/// While the input is not edited, `i`, `e` and `/` go to its end to edit it. Every other
/// key does nothing.
pub proof fn keys_of_the_lookup_tab(m: AppModel, key: KeyEvent, c: char, scores: ScoreInputsView)
    requires
        well_formed(m),
        on_tab(m, 4),
        !m.lookup.editing,
    ensures
        strikes_char(key, 'i') || strikes_char(key, 'e') || strikes_char(key, '/') ==> leads_to(
            key_step(m, key, scores),
            AppModel {
                lookup: LookupModel {
                    editing: true,
                    cursor: m.lookup.input.len() as int,
                    ..m.lookup
                },
                ..m
            },
        ),
        strikes_char(key, c) && !('1' <= c <= '5') && c != 'q' && c != '?' && c != 'i' && c != 'e'
            && c != '/' ==> leads_to(key_step(m, key, scores), m),
        idle_key(key) ==> leads_to(key_step(m, key, scores), m),
        strikes(key, KeyCode::Up) || strikes(key, KeyCode::Down) || strikes(key, KeyCode::Left)
            || strikes(key, KeyCode::Right) || strikes(key, KeyCode::Home) || strikes(
            key,
            KeyCode::End,
        ) ==> leads_to(key_step(m, key, scores), m),
{
}

// --- the assigner picker -----------------------------------------------------------------

/// In the picker, the list keys highlight the name below or above, the first or the last
/// one. Nothing else changes.
pub proof fn keys_highlight_names(
    m: AppModel,
    key: KeyEvent,
    at: usize,
    row: int,
    scores: ScoreInputsView,
)
    requires
        well_formed(m),
        m.overlay == (OverlayModel::AssignerPicker { cursor: at }),
        at < m.assigner_opts.names.len() <= usize::MAX,
        row_of_key(key, at as int, m.assigner_opts.names.len(), row),
    ensures
        leads_to(
            key_step(m, key, scores),
            AppModel { overlay: OverlayModel::AssignerPicker { cursor: row as usize }, ..m },
        ),
{
}

/// In the picker, Space puts the highlighted name into the assigner filter, or takes it
/// out. Control with `u` empties the filter. Esc, Enter and `q` close the picker. Every
/// other key does nothing.
pub proof fn keys_of_the_picker(
    m: AppModel,
    key: KeyEvent,
    at: usize,
    c: char,
    scores: ScoreInputsView,
)
    requires
        well_formed(m),
        m.overlay == (OverlayModel::AssignerPicker { cursor: at }),
    ensures
        strikes_char(key, ' ') && at < m.assigner_opts.names.len() ==> leads_to(
            key_step(m, key, scores),
            AppModel { search: toggle_step(m.search, m.assigner_opts.names[at as int]), ..m },
        ),
        strikes_char(key, ' ') && at >= m.assigner_opts.names.len() ==> leads_to(
            key_step(m, key, scores),
            m,
        ),
        strikes_char(key, 'u') && key.control ==> leads_to(
            key_step(m, key, scores),
            AppModel {
                search: SearchModel {
                    fields: m.search.fields.update(3, seq![]),
                    cursor: 0,
                    ..m.search
                },
                ..m
            },
        ),
        strikes(key, KeyCode::Esc) || strikes(key, KeyCode::Enter) || strikes_char(key, 'q')
            ==> leads_to(
            key_step(m, key, scores),
            AppModel { overlay: OverlayModel::Hidden, ..m },
        ),
        strikes_char(key, c) && c != ' ' && !(c == 'u' && key.control) && c != 'q' && c != 'j' && c
            != 'k' && c != 'g' && c != 'G' ==> leads_to(key_step(m, key, scores), m),
        idle_key(key) && key.code != KeyCode::Esc ==> leads_to(key_step(m, key, scores), m),
        strikes(key, KeyCode::Left) || strikes(key, KeyCode::Right) || strikes(key, KeyCode::Tab)
            || strikes(key, KeyCode::BackTab) ==> leads_to(key_step(m, key, scores), m),
{
}

/// Where there are no names to choose from, the keys down and up leave the picker as it is,
/// and those to the first and the last name highlight the first place.
pub proof fn an_empty_picker_stays(
    m: AppModel,
    key: KeyEvent,
    scores: ScoreInputsView,
)
    requires
        well_formed(m),
        m.overlay == (OverlayModel::AssignerPicker { cursor: 0 }),
        m.assigner_opts.names.len() == 0,
        strikes_char(key, 'j') || strikes(key, KeyCode::Down) || strikes_char(key, 'k') || strikes(
            key,
            KeyCode::Up,
        ) || strikes_char(key, 'g') || strikes(key, KeyCode::Home) || strikes_char(key, 'G')
            || strikes(key, KeyCode::End),
    ensures
        leads_to(key_step(m, key, scores), m),
{
}

// --- the help and the details ------------------------------------------------------------

/// The place in the text that a key leads to. The last place that there can be stands for
/// the bottom.
pub open spec fn place_of_key(key: KeyEvent, at: int, to: int) -> bool {
    ||| (strikes_char(key, 'j') || strikes(key, KeyCode::Down)) && to == if at + 1 > 0xffff {
        0xffff
    } else {
        at + 1
    }
    ||| (strikes_char(key, 'k') || strikes(key, KeyCode::Up)) && to == if at < 1 {
        0
    } else {
        at - 1
    }
    ||| strikes(key, KeyCode::PageDown) && to == if at + 10 > 0xffff {
        0xffff
    } else {
        at + 10
    }
    ||| strikes(key, KeyCode::PageUp) && to == if at < 10 {
        0
    } else {
        at - 10
    }
    ||| (strikes_char(key, 'g') || strikes(key, KeyCode::Home)) && to == 0
    ||| (strikes_char(key, 'G') || strikes(key, KeyCode::End)) && to == 0xffff
}

/// In the help and in the details of a record, the keys down and up go by a line, those of
/// the pages by ten, and the others to the top and the bottom. Nothing else changes.
pub proof fn keys_scroll_popups(
    m: AppModel,
    key: KeyEvent,
    at: u16,
    to: int,
    d: DetailModel,
    scores: ScoreInputsView,
)
    requires
        well_formed(m),
        place_of_key(key, at as int, to),
    ensures
        m.overlay == (OverlayModel::Help { scroll: at }) ==> leads_to(
            key_step(m, key, scores),
            AppModel { overlay: OverlayModel::Help { scroll: to as u16 }, ..m },
        ),
        m.overlay == OverlayModel::Detail(d) && d.scroll == at ==> leads_to(
            key_step(m, key, scores),
            AppModel {
                overlay: OverlayModel::Detail(DetailModel { scroll: to as u16, ..d }),
                ..m
            },
        ),
        0 <= to <= 0xffff,
{
}

/// Esc and `q` close the help and the details; Enter and `?` close the help only. Every
/// key that is none of these, nor one that scrolls or opens a reference, does nothing.
pub proof fn keys_close_popups(
    m: AppModel,
    key: KeyEvent,
    c: char,
    scores: ScoreInputsView,
)
    requires
        well_formed(m),
        m.overlay is Help || m.overlay is Detail,
    ensures
        strikes(key, KeyCode::Esc) || strikes_char(key, 'q') || m.overlay is Help && (strikes(
            key,
            KeyCode::Enter,
        ) || strikes_char(key, '?')) ==> leads_to(
            key_step(m, key, scores),
            AppModel { overlay: OverlayModel::Hidden, ..m },
        ),
        strikes(key, KeyCode::Tab) || strikes(key, KeyCode::BackTab) || strikes(key, KeyCode::Left)
            || strikes(key, KeyCode::Right) || strikes(key, KeyCode::Backspace) || strikes(
            key,
            KeyCode::Delete,
        ) || strikes(key, KeyCode::Other) || m.overlay is Detail && strikes(key, KeyCode::Enter)
            ==> leads_to(key_step(m, key, scores), m),
        strikes_char(key, c) && c != 'q' && c != '?' && c != 'j' && c != 'k' && c != 'g' && c != 'G'
            && c != 'o' && !('1' <= c <= '9') ==> leads_to(key_step(m, key, scores), m),
        m.overlay is Detail && strikes_char(key, '?') ==> leads_to(key_step(m, key, scores), m),
        m.overlay is Help && strikes_char(key, c) && (c == 'o' || '1' <= c <= '9') ==> leads_to(
            key_step(m, key, scores),
            m,
        ),
{
}

/// In the details, `o` opens the first reference of the record and a number the reference
/// with that number, if there is one and it is a web address. Nothing changes.
pub proof fn keys_open_references(
    m: AppModel,
    key: KeyEvent,
    d: DetailModel,
    n: int,
    scores: ScoreInputsView,
)
    requires
        well_formed(m),
        m.overlay == OverlayModel::Detail(d),
        ({
            ||| strikes_char(key, 'o') && n == 1
            ||| strikes_char(key, '1') && n == 1
            ||| strikes_char(key, '2') && n == 2
            ||| strikes_char(key, '3') && n == 3
            ||| strikes_char(key, '4') && n == 4
            ||| strikes_char(key, '5') && n == 5
            ||| strikes_char(key, '6') && n == 6
            ||| strikes_char(key, '7') && n == 7
            ||| strikes_char(key, '8') && n == 8
            ||| strikes_char(key, '9') && n == 9
        }),
    ensures
        key_step(m, key, scores) == (
            m,
            if n <= references_of(d.content).len() {
                url_request(references_of(d.content)[n - 1])
            } else {
                None
            },
        ),
{
}

} // verus!
