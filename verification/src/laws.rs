//! Laws of the program as a whole.

use vstd::prelude::*;

use crate::api::{
    bool_param, error_text, number_param, params_of, score_param, sent_size, text_param, ApiError,
    Param, SearchQueryView, MAX_PAGE_SIZE,
};
use crate::clock::ClockTime;
use crate::edit::{backspace_undoes_typing, cursor_stays_within, press};
use crate::keys::{KeyCode, KeyEvent, KeyEventKind};
use crate::number::{decimal, decimal_reads_back};
use crate::pieces::{
    comma_entries, find, join, lemma_find, lemma_nonblank_fixed, nonblank, split, split_undoes_join,
};
use crate::score::zero_to;
use crate::search::{
    assigners_of, entry, initial_search, lemma_position, len_of, pages, position, query_of, slot_of,
    toggle_step, toggled, ScoreInputsView, SearchFocus, SearchModel, FILTER_ASSIGNER,
    FILTER_EXPLOITED, N_FILTERS, PAGE_SIZE,
};
use crate::state::{
    call_of, initial_app, references_of, selections_within, well_formed, AppModel, AssignerModel,
    DetailContentView, DetailModel, FeedModel, Fetched, LookupModel, OverlayModel, RequestView,
    FEED_PATHS, N_FEEDS, N_TABS, TAB_LOOKUP, TAB_SEARCH,
};
use crate::steps::{
    feed_key, filter_edit, filters_key, init_step, is_euvd_id, is_web_address, key_step, lookup_key,
    lookup_step, next_exploited, picker_key, picker_step, refresh_step, reply_step, results_key,
    search_step, tab_of_key, tab_step, typing, url_request,
};
use crate::table::moves_stay_within;
use crate::text::{
    ascii_upper_text, is_white_space, lemma_trimmed_fixed, lemma_trimmed_shape, same_ignoring_case,
    trimmed, views,
};

verus! {

// --- every state is in order -----------------------------------------------------------

/// The program starts in a state that is in order.
pub proof fn start_is_well_formed()
    ensures
        well_formed(initial_app()),
        selections_within(initial_app()),
{
}

proof fn filter_edit_keeps_cursor(s: SearchModel, key: KeyEvent, idx: int)
    requires
        s.fields.len() == N_FILTERS - 1,
        0 <= idx < N_FILTERS,
        0 <= s.cursor <= len_of(s, idx),
    ensures
        0 <= filter_edit(s, key, idx).cursor <= len_of(filter_edit(s, key, idx), idx),
        filter_edit(s, key, idx).fields.len() == s.fields.len(),
{
    if let Some(slot) = slot_of(idx) {
        cursor_stays_within(s.fields[slot], s.cursor, key);
    }
}

proof fn refresh_keeps(m: AppModel, idx: int)
    requires
        well_formed(m),
        0 <= idx < N_FEEDS,
    ensures
        well_formed(refresh_step(m, idx).0),
        selections_within(m) ==> selections_within(refresh_step(m, idx).0),
        same_lists(m, refresh_step(m, idx).0),
{
}

proof fn tab_keeps(m: AppModel, key: KeyEvent)
    requires
        well_formed(m),
        tab_of_key(m.tab, key) is Some,
    ensures
        ({
            let after = tab_step(m, tab_of_key(m.tab, key).unwrap()).0;
            &&& well_formed(after)
            &&& selections_within(m) ==> selections_within(after)
            &&& same_lists(m, after)
        }),
{
    let tab = tab_of_key(m.tab, key).unwrap();
    let shown = AppModel { tab, ..m };
    assert(well_formed(shown));
    if tab < N_FEEDS {
        refresh_keeps(shown, tab);
    }
}

/// The lists are the same.
spec fn same_lists(m: AppModel, n: AppModel) -> bool {
    &&& m.search.items == n.search.items
    &&& m.feeds.len() == n.feeds.len()
    &&& forall|i: int| 0 <= i < m.feeds.len() ==> (#[trigger] m.feeds[i]).items == n.feeds[i].items
}

/// The lists are no longer than a list can be.
pub open spec fn lists_fit(m: AppModel) -> bool {
    &&& m.search.items.len() <= usize::MAX
    &&& forall|i: int| 0 <= i < m.feeds.len() ==> (#[trigger] m.feeds[i]).items.len() <= usize::MAX
}

proof fn search_keeps(m: AppModel, page: u32, scores: ScoreInputsView)
    requires
        well_formed(m),
    ensures
        well_formed(search_step(m, page, scores).0),
        selections_within(m) ==> selections_within(search_step(m, page, scores).0),
        ({
            let after = search_step(m, page, scores).0;
            &&& same_lists(m, after)
            &&& after.search.table == m.search.table
            &&& after.overlay == m.overlay
            &&& after.search.focus == m.search.focus
            &&& after.search.cursor == m.search.cursor
            &&& after.search.fields == m.search.fields
        }),
{
}

proof fn filters_key_keeps(m: AppModel, key: KeyEvent, idx: usize, scores: ScoreInputsView)
    requires
        well_formed(m),
        m.search.focus == SearchFocus::Filters(idx),
        m.overlay is Hidden,
    ensures
        well_formed(filters_key(m, key, idx as int, scores).0),
        selections_within(m) ==> selections_within(filters_key(m, key, idx as int, scores).0),
{
    filter_edit_keeps_cursor(m.search, key, idx as int);
    search_keeps(m, 0, scores);
}

proof fn results_key_keeps(m: AppModel, key: KeyEvent, scores: ScoreInputsView)
    requires
        well_formed(m),
        m.search.focus is Results,
        m.overlay is Hidden,
    ensures
        well_formed(results_key(m, key, scores).0),
        selections_within(m) && lists_fit(m) ==> selections_within(results_key(m, key, scores).0),
{
    let s = m.search;
    search_keeps(m, s.page, scores);
    search_keeps(m, (s.page + 1) as u32, scores);
    search_keeps(m, (s.page - 1) as u32, scores);
    if selections_within(m) && lists_fit(m) {
        moves_stay_within(s.table, s.items.len(), 1, 0);
        moves_stay_within(s.table, s.items.len(), -1, s.items.len());
    }
}

proof fn feed_key_keeps(m: AppModel, key: KeyEvent, idx: int)
    requires
        well_formed(m),
        0 <= idx < N_FEEDS,
    ensures
        well_formed(feed_key(m, key, idx).0),
        selections_within(m) && lists_fit(m) ==> selections_within(feed_key(m, key, idx).0),
{
    let f = m.feeds[idx];
    if tab_of_key(m.tab, key) is Some {
        tab_keeps(m, key);
    } else {
        refresh_keeps(m, idx);
        if selections_within(m) && lists_fit(m) {
            moves_stay_within(f.table, f.items.len(), 1, 0);
            moves_stay_within(f.table, f.items.len(), -1, f.items.len());
        }
    }
}

proof fn lookup_key_keeps(m: AppModel, key: KeyEvent)
    requires
        well_formed(m),
    ensures
        well_formed(lookup_key(m, key).0),
        selections_within(m) ==> selections_within(lookup_key(m, key).0),
{
    cursor_stays_within(m.lookup.input, m.lookup.cursor, key);
    if !m.lookup.editing && tab_of_key(m.tab, key) is Some {
        tab_keeps(m, key);
    }
}

proof fn picker_key_keeps(m: AppModel, key: KeyEvent, cursor: int)
    requires
        well_formed(m),
        m.overlay is AssignerPicker,
    ensures
        well_formed(picker_key(m, key, cursor).0),
        selections_within(m) ==> selections_within(picker_key(m, key, cursor).0),
{
}

/// No key leads out of the states that are in order: there is always a tab, the
/// edit cursors stay within their texts, and every selection stays a row of its
/// list.
pub proof fn keys_keep_states_in_order(m: AppModel, key: KeyEvent, scores: ScoreInputsView)
    requires
        well_formed(m),
    ensures
        well_formed(key_step(m, key, scores).0),
        selections_within(m) && lists_fit(m) ==> selections_within(key_step(m, key, scores).0),
{
    match m.overlay {
        OverlayModel::Hidden => {
            if m.tab == TAB_SEARCH {
                match m.search.focus {
                    SearchFocus::Filters(i) => filters_key_keeps(m, key, i, scores),
                    SearchFocus::Results => {
                        if tab_of_key(m.tab, key) is Some {
                            tab_keeps(m, key);
                        } else {
                            results_key_keeps(m, key, scores);
                        }
                    },
                }
            } else if m.tab == TAB_LOOKUP {
                lookup_key_keeps(m, key);
            } else {
                feed_key_keeps(m, key, m.tab);
            }
        },
        OverlayModel::AssignerPicker { cursor } => picker_key_keeps(m, key, cursor as int),
        OverlayModel::Help { scroll } => {},
        OverlayModel::Detail(d) => {},
    }
}

/// No reply leads out of the states that are in order.
pub proof fn replies_keep_states_in_order(m: AppModel, msg: Fetched, now: ClockTime)
    requires
        well_formed(m),
        now.valid(),
        msg matches Fetched::Feed { idx, .. } ==> idx < N_FEEDS,
    ensures
        well_formed(reply_step(m, msg, now)),
        selections_within(m) ==> selections_within(reply_step(m, msg, now)),
{
}

// --- keys that work everywhere -----------------------------------------------------------

/// A press of the character key together with Control.
pub open spec fn press_ctrl(c: char) -> KeyEvent {
    KeyEvent { code: KeyCode::Char(c), control: true, kind: KeyEventKind::Press }
}

/// Ctrl-C quits, whatever is shown and wherever the focus is, and changes nothing
/// else.
pub proof fn ctrl_c_always_quits(m: AppModel, scores: ScoreInputsView)
    ensures
        key_step(m, press_ctrl('c'), scores) == (AppModel { quit: true, ..m }, None::<RequestView>),
{
}

/// The release of a key does nothing.
pub proof fn releases_do_nothing(m: AppModel, key: KeyEvent, scores: ScoreInputsView)
    requires
        key.kind == KeyEventKind::Release,
    ensures
        key_step(m, key, scores) == (m, None::<RequestView>),
{
}

/// Nothing that is typed into a text field quits the program, leaves the tab, opens
/// the help or asks for a search; the one thing that may be asked for are the names
/// of the assigner picker.
pub proof fn typing_only_edits(m: AppModel, c: char, scores: ScoreInputsView)
    requires
        well_formed(m),
        m.overlay is Hidden,
        typing(m),
    ensures
        ({
            let (after, request) = key_step(m, press(KeyCode::Char(c)), scores);
            &&& after.quit == m.quit
            &&& after.tab == m.tab
            &&& after.overlay is Hidden || after.overlay is AssignerPicker
            &&& request is None || request->0 is Assigners
        }),
{
}

/// A character typed into a text filter ends up before the cursor. (Space opens the
/// picker in the assigner field.)
pub proof fn typed_characters_arrive(m: AppModel, idx: usize, c: char, scores: ScoreInputsView)
    requires
        well_formed(m),
        m.overlay is Hidden,
        m.tab == TAB_SEARCH,
        m.search.focus == SearchFocus::Filters(idx),
        slot_of(idx as int) is Some,
        c == ' ' ==> idx != FILTER_ASSIGNER,
    ensures
        ({
            let slot = slot_of(idx as int).unwrap();
            let after = key_step(m, press(KeyCode::Char(c)), scores).0;
            &&& after.search.fields == m.search.fields.update(
                slot,
                m.search.fields[slot].insert(m.search.cursor, c),
            )
            &&& after.search.cursor == m.search.cursor + 1
        }),
{
}

/// `?` opens the help at its top, except where it is typed.
pub proof fn question_mark_opens_help(m: AppModel, scores: ScoreInputsView)
    requires
        m.overlay is Hidden,
    ensures
        !typing(m) ==> key_step(m, press(KeyCode::Char('?')), scores) == (
            AppModel { overlay: OverlayModel::Help { scroll: 0 }, ..m },
            None::<RequestView>,
        ),
        typing(m) ==> !(key_step(m, press(KeyCode::Char('?')), scores).0.overlay is Help),
{
}

/// Esc leads back: it closes every overlay, and leaves every text field.
pub proof fn esc_leads_back(m: AppModel, scores: ScoreInputsView)
    requires
        well_formed(m),
    ensures
        ({
            let (after, request) = key_step(m, press(KeyCode::Esc), scores);
            &&& request is None
            &&& after.overlay is Hidden
            &&& m.overlay is Hidden ==> !typing(after)
            &&& after.tab == m.tab
            &&& after.quit == m.quit
        }),
{
}

// --- tabs --------------------------------------------------------------------------------

/// Where nothing is typed and no overlay is open, `1` to `5` show the tab of that
/// number, and Tab and Shift-Tab the next and the previous one, round and round.
pub proof fn tab_keys_switch(m: AppModel, key: KeyEvent, scores: ScoreInputsView)
    requires
        well_formed(m),
        m.overlay is Hidden,
        !typing(m),
        key.kind != KeyEventKind::Release,
        tab_of_key(m.tab, key) is Some,
    ensures
        key_step(m, key, scores).0.tab == tab_of_key(m.tab, key).unwrap(),
        0 <= tab_of_key(m.tab, key).unwrap() < N_TABS,
        tab_of_key(tab_of_key(m.tab, press(KeyCode::Tab)).unwrap(), press(KeyCode::BackTab))
            == Some(m.tab),
        tab_of_key(tab_of_key(m.tab, press(KeyCode::BackTab)).unwrap(), press(KeyCode::Tab))
            == Some(m.tab),
{
}

/// Showing a feed that was fetched, or is being fetched, asks for nothing.
pub proof fn fetched_feeds_are_not_fetched_again(m: AppModel, tab: int)
    requires
        0 <= tab < N_TABS,
        m.feeds.len() == N_FEEDS,
        tab < N_FEEDS ==> m.feeds[tab].loaded || m.feeds[tab].loading,
    ensures
        tab_step(m, tab) == (AppModel { tab, ..m }, None::<RequestView>),
{
}

// --- the filter sidebar ------------------------------------------------------------------

/// The sidebar is hidden at first. `c` shows and hides it and changes nothing else;
/// twice, nothing has changed.
pub proof fn c_toggles_the_sidebar(m: AppModel, scores: ScoreInputsView)
    requires
        well_formed(m),
        m.overlay is Hidden,
        m.tab == TAB_SEARCH,
        !typing(m),
    ensures
        initial_app().search.filters_collapsed,
        ({
            let (once, request) = key_step(m, press(KeyCode::Char('c')), scores);
            &&& request is None
            &&& once == (AppModel {
                search: SearchModel {
                    filters_collapsed: !m.search.filters_collapsed,
                    ..m.search
                },
                ..m
            })
            &&& key_step(once, press(KeyCode::Char('c')), scores) == (m, None::<RequestView>)
        }),
{
}

/// Focusing the filters always shows the sidebar, and puts the cursor at the end of
/// the first filter.
pub proof fn slash_shows_the_sidebar(m: AppModel, scores: ScoreInputsView)
    requires
        well_formed(m),
        m.overlay is Hidden,
        m.tab == TAB_SEARCH,
        !typing(m),
    ensures
        ({
            let after = key_step(m, press(KeyCode::Char('/')), scores).0;
            &&& !after.search.filters_collapsed
            &&& after.search.focus == SearchFocus::Filters(0)
            &&& after.search.cursor == m.search.fields[0].len()
        }),
{
}

/// The filters are not hidden while they have the focus.
pub open spec fn focused_filters_shown(m: AppModel) -> bool {
    m.search.focus is Filters ==> !m.search.filters_collapsed
}

/// Filters that have the focus are never hidden: it is so at the start, and every key
/// and every reply keeps it so.
pub proof fn focused_filters_are_never_hidden(
    m: AppModel,
    key: KeyEvent,
    scores: ScoreInputsView,
    msg: Fetched,
    now: ClockTime,
)
    ensures
        focused_filters_shown(initial_app()),
        focused_filters_shown(m) ==> focused_filters_shown(init_step(m, scores).0),
        focused_filters_shown(m) ==> focused_filters_shown(key_step(m, key, scores).0),
        focused_filters_shown(m) ==> focused_filters_shown(reply_step(m, msg, now)),
{
}

/// Backspace takes back a character that was typed into a text filter: nothing is left
/// of the two keys, and nothing is asked for. (Space opens the picker in the assigner
/// field.)
pub proof fn backspace_takes_back_in_filters(
    m: AppModel,
    idx: usize,
    c: char,
    scores: ScoreInputsView,
)
    requires
        well_formed(m),
        m.overlay is Hidden,
        m.tab == TAB_SEARCH,
        m.search.focus == SearchFocus::Filters(idx),
        idx != FILTER_EXPLOITED,
        c == ' ' ==> idx != FILTER_ASSIGNER,
    ensures
        ({
            let (typed, first) = key_step(m, press(KeyCode::Char(c)), scores);
            let (after, second) = key_step(typed, press(KeyCode::Backspace), scores);
            &&& first is None
            &&& second is None
            &&& after == m
        }),
{
    let slot = slot_of(idx as int).unwrap();
    let text = m.search.fields[slot];
    backspace_undoes_typing(text, m.search.cursor, c);
    let typed = key_step(m, press(KeyCode::Char(c)), scores).0;
    let after = key_step(typed, press(KeyCode::Backspace), scores).0;
    assert(typed.search.fields[slot] == text.insert(m.search.cursor, c));
    assert(after.search.fields =~= m.search.fields);
}

/// Tab and Shift-Tab in the filters lead to the next and the previous one and back;
/// the cursor is then at the end of the text.
pub proof fn filter_focus_cycles(m: AppModel, idx: usize, scores: ScoreInputsView)
    requires
        well_formed(m),
        m.overlay is Hidden,
        m.tab == TAB_SEARCH,
        m.search.focus == SearchFocus::Filters(idx),
    ensures
        ({
            let next = key_step(m, press(KeyCode::Tab), scores).0;
            let back = key_step(next, press(KeyCode::BackTab), scores).0;
            &&& next.search.focus == SearchFocus::Filters(((idx + 1) % (N_FILTERS as int)) as usize)
            &&& next.search.cursor == len_of(m.search, (idx + 1) % (N_FILTERS as int))
            &&& back.search == (SearchModel { cursor: len_of(m.search, idx as int), ..m.search })
        }),
{
}

/// Space leads the exploited filter through its three values and back.
pub proof fn exploited_has_three_values(e: Option<bool>)
    ensures
        next_exploited(next_exploited(next_exploited(e))) == e,
        next_exploited(e) != e,
        next_exploited(next_exploited(e)) != e,
{
}

// --- assigners ---------------------------------------------------------------------------

/// A name that can stand in the assigner field as it is: not empty, no white space
/// around it, no comma in it.
pub open spec fn clean_name(name: Seq<char>) -> bool {
    &&& name.len() > 0
    &&& trimmed(name) == name
    &&& !name.contains(',')
}

/// The entries of the assigner field are clean.
pub proof fn entries_are_clean(text: Seq<char>)
    ensures
        forall|i: int|
            0 <= i < comma_entries(text).len() ==> clean_name(#[trigger] comma_entries(text)[i]),
{
    lemma_split_no_comma(text);
    lemma_nonblank_clean(split(text, ','));
}

proof fn lemma_split_no_comma(text: Seq<char>)
    ensures
        forall|i: int|
            0 <= i < split(text, ',').len() ==> !(#[trigger] split(text, ',')[i]).contains(','),
    decreases text.len(),
{
    let k = find(text, ',');
    lemma_find(text, ',');
    if k < text.len() {
        let rest = text.skip(k + 1);
        lemma_split_no_comma(rest);
        assert forall|i: int| 0 <= i < split(text, ',').len() implies !(#[trigger] split(
            text,
            ',',
        )[i]).contains(',') by {
            if i == 0 {
                let head = text.take(k);
                if head.contains(',') {
                    let j = choose|j: int| 0 <= j < head.len() && head[j] == ',';
                    assert(text[j] == ',');
                }
            } else {
                assert(split(text, ',')[i] == split(rest, ',')[i - 1]);
            }
        }
    }
}

proof fn lemma_nonblank_clean(pieces: Seq<Seq<char>>)
    requires
        forall|i: int| 0 <= i < pieces.len() ==> !(#[trigger] pieces[i]).contains(','),
    ensures
        forall|i: int| 0 <= i < nonblank(pieces).len() ==> clean_name(#[trigger] nonblank(pieces)[i]),
    decreases pieces.len(),
{
    if pieces.len() > 0 {
        let rest = pieces.drop_first();
        assert forall|i: int| 0 <= i < rest.len() implies !(#[trigger] rest[i]).contains(',') by {
            assert(rest[i] == pieces[i + 1]);
        }
        lemma_nonblank_clean(rest);
        let head = trimmed(pieces[0]);
        if head.len() > 0 {
            lemma_trimmed_shape(pieces[0]);
            lemma_trimmed_fixed(head);
            assert(!head.contains(',')) by {
                if head.contains(',') {
                    let j = choose|j: int| 0 <= j < head.len() && head[j] == ',';
                    assert(pieces[0].contains(trimmed(pieces[0])[j]));
                }
            }
            assert forall|i: int| 0 <= i < nonblank(pieces).len() implies clean_name(
                #[trigger] nonblank(pieces)[i],
            ) by {
                if i > 0 {
                    assert(nonblank(pieces)[i] == nonblank(rest)[i - 1]);
                }
            }
        }
    }
}

/// Clean names, written with commas between them, are read back one by one.
pub proof fn clean_names_read_back(names: Seq<Seq<char>>)
    requires
        forall|i: int| 0 <= i < names.len() ==> clean_name(#[trigger] names[i]),
    ensures
        comma_entries(join(names, ","@)) == names,
{
    reveal_strlit(",");
    assert(","@ =~= seq![',']);
    if names.len() > 0 {
        split_undoes_join(names, ',');
        lemma_nonblank_fixed(names);
    } else {
        let empty = Seq::<char>::empty();
        assert(join(names, ","@) == empty);
        assert(split(empty, ',') =~= seq![empty]);
        assert(seq![empty].drop_first() =~= Seq::<Seq<char>>::empty());
        assert(nonblank(seq![empty].drop_first()) =~= Seq::<Seq<char>>::empty());
        assert(trimmed(empty) == empty);
        assert(names =~= Seq::<Seq<char>>::empty());
    }
}

/// Toggling a name takes out its entry, or puts it in last; all other entries stay,
/// in their order, those that were typed by hand as well.
pub proof fn toggling_keeps_the_other_entries(s: SearchModel, name: Seq<char>)
    requires
        s.fields.len() == N_FILTERS - 1,
        clean_name(name),
    ensures
        assigners_of(toggle_step(s, name)) == toggled(assigners_of(s), name),
{
    let entries = assigners_of(s);
    entries_are_clean(s.fields[FILTER_ASSIGNER as int]);
    lemma_position(entries, name);
    let after = toggled(entries, name);
    assert forall|i: int| 0 <= i < after.len() implies clean_name(#[trigger] after[i]) by {
        let at = position(entries, name);
        if at < entries.len() {
            if i < at {
                assert(after[i] == entries[i]);
            } else {
                assert(after[i] == entries[i + 1]);
            }
        } else if i < entries.len() {
            assert(after[i] == entries[i]);
        }
    }
    clean_names_read_back(after);
}

/// A name that was not there is gone again after it was toggled twice.
pub proof fn toggling_twice_restores_the_entries(s: SearchModel, name: Seq<char>)
    requires
        s.fields.len() == N_FILTERS - 1,
        clean_name(name),
        position(assigners_of(s), name) == assigners_of(s).len(),
    ensures
        assigners_of(toggle_step(toggle_step(s, name), name)) == assigners_of(s),
{
    let entries = assigners_of(s);
    let once = toggle_step(s, name);
    toggling_keeps_the_other_entries(s, name);
    toggling_keeps_the_other_entries(once, name);
    lemma_position(entries, name);
    let added = entries.push(name);
    assert(assigners_of(once) == added);
    lemma_position(added, name);
    let at = position(added, name);
    assert(at == entries.len()) by {
        if at < entries.len() {
            assert(same_ignoring_case(entries[at], name));
        }
        if at == added.len() {
            assert(!same_ignoring_case(added[entries.len() as int], name));
        }
    }
    assert(added.remove(at) =~= entries);
}

// --- queries -----------------------------------------------------------------------------

/// A query that is sent holds proper values only: dates of the shape `YYYY-MM-DD`,
/// scores from 0 to 10, percentages from 0 to 100, clean assigner names. Its page is
/// the one asked for, its size that of a results page.
pub proof fn queries_hold_proper_values(s: SearchModel, page: u32, scores: ScoreInputsView)
    requires
        query_of(s, page, scores) is Ok,
    ensures
        ({
            let q = query_of(s, page, scores)->Ok_0;
            &&& q.from_date.len() > 0 ==> crate::dates::iso_date(q.from_date)
            &&& q.to_date.len() > 0 ==> crate::dates::iso_date(q.to_date)
            &&& q.from_score is Some ==> zero_to(q.from_score->0.bits, 10)
            &&& q.to_score is Some ==> zero_to(q.to_score->0.bits, 10)
            &&& q.from_epss is Some ==> q.from_epss->0 <= 100
            &&& q.to_epss is Some ==> q.to_epss->0 <= 100
            &&& forall|i: int| 0 <= i < q.assigners.len() ==> clean_name(#[trigger] q.assigners[i])
            &&& q.page == page
            &&& q.size == PAGE_SIZE
        }),
{
    entries_are_clean(s.fields[FILTER_ASSIGNER as int]);
}

/// Filters that are blank are no obstacle: the query without any filter is accepted
/// and asks for the page and its size only.
pub proof fn no_filters_no_parameters(page: u32, scores: ScoreInputsView)
    ensures
        query_of(initial_search(), page, scores) is Ok,
        params_of(query_of(initial_search(), page, scores)->Ok_0) == seq![
            ("page"@, decimal(page as nat)),
            ("size"@, decimal(50)),
        ],
{
    let s = initial_search();
    let empty = Seq::<char>::empty();
    assert(trimmed(empty) == empty);
    assert(forall|i: int| 0 <= i < 10 ==> #[trigger] s.fields[i] == empty);
    assert(entry(s, 0) == empty && entry(s, 1) == empty && entry(s, 2) == empty);
    assert(entry(s, 4) == empty && entry(s, 5) == empty && entry(s, 7) == empty);
    assert(entry(s, 8) == empty && entry(s, 9) == empty && entry(s, 10) == empty);
    let none = Seq::<Seq<char>>::empty();
    assert(assigners_of(s) == none) by {
        clean_names_read_back(none);
        assert(join(none, ","@) == empty);
    }
    let q = query_of(s, page, scores)->Ok_0;
    assert(join(none, ","@) == empty);
    assert(params_of(q) =~= seq![("page"@, decimal(page as nat)), ("size"@, decimal(50))]);
}

/// The assigners of a query are sent in one parameter, from which they can be read
/// back one by one.
pub proof fn assigners_travel_in_one_parameter(s: SearchModel, page: u32, scores: ScoreInputsView)
    requires
        query_of(s, page, scores) is Ok,
    ensures
        ({
            let q = query_of(s, page, scores)->Ok_0;
            &&& q.assigners.len() == 0 ==> text_param("assigner"@, join(q.assigners, ","@)).len()
                == 0
            &&& q.assigners.len() > 0 ==> text_param("assigner"@, join(q.assigners, ","@)) == seq![
                ("assigner"@, join(q.assigners, ","@)),
            ]
            &&& comma_entries(join(q.assigners, ","@)) == q.assigners
        }),
{
    let q = query_of(s, page, scores)->Ok_0;
    entries_are_clean(s.fields[FILTER_ASSIGNER as int]);
    clean_names_read_back(q.assigners);
    if q.assigners.len() > 0 {
        lemma_join_ends(q.assigners);
        lemma_trimmed_fixed(join(q.assigners, ","@));
    }
}

proof fn lemma_join_ends(names: Seq<Seq<char>>)
    requires
        names.len() > 0,
        forall|i: int| 0 <= i < names.len() ==> clean_name(#[trigger] names[i]),
    ensures
        ({
            let t = join(names, ","@);
            t.len() > 0 && !is_white_space(t[0]) && !is_white_space(t.last())
        }),
    decreases names.len(),
{
    lemma_trimmed_shape(names[0]);
    lemma_trimmed_shape(names.last());
    assert(clean_name(names[0]) && clean_name(names.last()));
    if names.len() > 1 {
        lemma_join_ends(names.drop_last());
    }
}

/// Every parameter has a value.
pub open spec fn filled(params: Seq<Param>) -> bool {
    forall|i: int| 0 <= i < params.len() ==> (#[trigger] params[i]).1.len() > 0
}

/// No parameter of a search is sent without a value, as long as the scores have
/// texts.
pub proof fn no_parameter_is_empty(q: SearchQueryView)
    requires
        q.from_score is Some ==> q.from_score->0.text.len() > 0,
        q.to_score is Some ==> q.to_score->0.text.len() > 0,
    ensures
        filled(params_of(q)),
{
    let p0 = text_param("text"@, q.text);
    let p1 = p0 + text_param("vendor"@, q.vendor);
    let p2 = p1 + text_param("product"@, q.product);
    let p3 = p2 + text_param("assigner"@, join(q.assigners, ","@));
    let p4 = p3 + text_param("fromDate"@, q.from_date);
    let p5 = p4 + text_param("toDate"@, q.to_date);
    let p6 = p5 + score_param("fromScore"@, q.from_score);
    let p7 = p6 + score_param("toScore"@, q.to_score);
    let p8 = p7 + number_param("fromEpss"@, q.from_epss);
    let p9 = p8 + number_param("toEpss"@, q.to_epss);
    let p10 = p9 + bool_param("exploited"@, q.exploited);
    let p11 = p10 + seq![("page"@, decimal(q.page as nat))];
    lemma_filled_parts(q);
    lemma_filled_sum(p0, text_param("vendor"@, q.vendor));
    lemma_filled_sum(p1, text_param("product"@, q.product));
    lemma_filled_sum(p2, text_param("assigner"@, join(q.assigners, ","@)));
    lemma_filled_sum(p3, text_param("fromDate"@, q.from_date));
    lemma_filled_sum(p4, text_param("toDate"@, q.to_date));
    lemma_filled_sum(p5, score_param("fromScore"@, q.from_score));
    lemma_filled_sum(p6, score_param("toScore"@, q.to_score));
    lemma_filled_sum(p7, number_param("fromEpss"@, q.from_epss));
    lemma_filled_sum(p8, number_param("toEpss"@, q.to_epss));
    lemma_filled_sum(p9, bool_param("exploited"@, q.exploited));
    lemma_filled_sum(p10, seq![("page"@, decimal(q.page as nat))]);
    lemma_filled_sum(p11, seq![("size"@, decimal(sent_size(q.size)))]);
}

proof fn lemma_filled_sum(a: Seq<Param>, b: Seq<Param>)
    requires
        filled(a),
        filled(b),
    ensures
        filled(a + b),
{
    assert forall|i: int| 0 <= i < (a + b).len() implies (#[trigger] (a + b)[i]).1.len() > 0 by {
        if i < a.len() {
            assert((a + b)[i] == a[i]);
        } else {
            assert((a + b)[i] == b[i - a.len()]);
        }
    }
}

proof fn lemma_filled_parts(q: SearchQueryView)
    requires
        q.from_score is Some ==> q.from_score->0.text.len() > 0,
        q.to_score is Some ==> q.to_score->0.text.len() > 0,
    ensures
        forall|name: Seq<char>, text: Seq<char>| filled(#[trigger] text_param(name, text)),
        filled(score_param("fromScore"@, q.from_score)),
        filled(score_param("toScore"@, q.to_score)),
        filled(number_param("fromEpss"@, q.from_epss)),
        filled(number_param("toEpss"@, q.to_epss)),
        filled(bool_param("exploited"@, q.exploited)),
        filled(seq![("page"@, decimal(q.page as nat))]),
        filled(seq![("size"@, decimal(sent_size(q.size)))]),
{
    reveal_strlit("true");
    reveal_strlit("false");
    decimal_reads_back(q.page as nat);
    decimal_reads_back(sent_size(q.size));
    if let Some(n) = q.from_epss {
        decimal_reads_back(n as nat);
    }
    if let Some(n) = q.to_epss {
        decimal_reads_back(n as nat);
    }
}

/// The page size that is sent is one that the endpoint accepts.
pub proof fn sent_size_is_accepted(size: u32)
    ensures
        1 <= sent_size(size) <= MAX_PAGE_SIZE,
{
}

/// Enter in the filters either asks for the first page and goes to the results, or
/// shows a complaint, asks for nothing and keeps the focus and the results.
pub proof fn enter_searches_or_complains(m: AppModel, idx: usize, scores: ScoreInputsView)
    requires
        well_formed(m),
        m.overlay is Hidden,
        m.tab == TAB_SEARCH,
        m.search.focus == SearchFocus::Filters(idx),
    ensures
        ({
            let (after, request) = key_step(m, press(KeyCode::Enter), scores);
            match query_of(m.search, 0, scores) {
                Ok(query) => {
                    &&& request == Some(RequestView::Search { seq: after.search.seq, query })
                    &&& after.search.focus is Results
                    &&& after.search.loading
                    &&& after.search.error is None
                },
                Err(e) => {
                    &&& request is None
                    &&& after.search == (SearchModel { error: Some(e), ..m.search })
                },
            }
        }),
{
}

// --- paging ------------------------------------------------------------------------------

/// There is always a page, and the pages hold all records but no empty page.
pub proof fn pages_hold_all_records(total: u64)
    requires
        total <= u32::MAX,
    ensures
        pages(total) >= 1,
        pages(total) * PAGE_SIZE >= total,
        total > 0 ==> (pages(total) - 1) * PAGE_SIZE < total,
{
}

/// The pages that `n`, `p` and `r` ask for are pages of the results.
pub proof fn paging_stays_within(m: AppModel, key: KeyEvent, scores: ScoreInputsView)
    requires
        well_formed(m),
        m.overlay is Hidden,
        m.tab == TAB_SEARCH,
        !typing(m),
        m.search.page < pages(m.search.total),
    ensures
        key_step(m, key, scores).1 matches Some(RequestView::Search { seq, query }) ==> query.page
            < pages(m.search.total),
{
}

/// `n` asks for the next page and `p` for the previous one.
pub proof fn next_and_previous_page(m: AppModel, scores: ScoreInputsView)
    requires
        well_formed(m),
        m.overlay is Hidden,
        m.tab == TAB_SEARCH,
        !typing(m),
        m.search.searched,
    ensures
        m.search.page + 1 < pages(m.search.total) ==> key_step(m, press(KeyCode::Char('n')), scores)
            == search_step(m, (m.search.page + 1) as u32, scores),
        m.search.page + 1 >= pages(m.search.total) ==> key_step(
            m,
            press(KeyCode::Char('n')),
            scores,
        ) == (m, None::<RequestView>),
        m.search.page > 0 ==> key_step(m, press(KeyCode::Char('p')), scores) == search_step(
            m,
            (m.search.page - 1) as u32,
            scores,
        ),
        m.search.page == 0 ==> key_step(m, press(KeyCode::Char('p')), scores) == (
            m,
            None::<RequestView>,
        ),
{
}

// --- requests and replies ----------------------------------------------------------------

/// The reply is one to an earlier request than the latest of its kind.
pub open spec fn is_stale(m: AppModel, msg: Fetched) -> bool {
    match msg {
        Fetched::Search { seq, .. } => seq != m.search.seq,
        Fetched::Feed { idx, seq, .. } => seq != m.feeds[idx as int].seq,
        Fetched::LookupVuln { seq, .. } => seq != m.lookup.seq,
        Fetched::LookupAdvisory { seq, .. } => seq != m.lookup.seq,
        Fetched::Assigners { seq, .. } => seq != m.assigner_opts.seq,
        Fetched::Enrich { .. } => false,
    }
}

/// A stale reply changes nothing.
pub proof fn stale_replies_change_nothing(m: AppModel, msg: Fetched, now: ClockTime)
    requires
        is_stale(m, msg),
    ensures
        reply_step(m, msg, now) == m,
{
}

/// A search that is asked for has a number that no earlier one had; from then on
/// every reply to an earlier one is stale. It counts as under way until its reply
/// comes.
pub proof fn searches_supersede_earlier_ones(
    m: AppModel,
    page: u32,
    scores: ScoreInputsView,
    msg: Fetched,
    now: ClockTime,
)
    requires
        m.search.seq < u64::MAX,
        search_step(m, page, scores).1 is Some,
        msg is Search,
        msg->Search_seq <= m.search.seq + 1,
    ensures
        ({
            let after = search_step(m, page, scores).0;
            &&& search_step(m, page, scores).1->0->Search_seq == m.search.seq + 1
            &&& after.search.loading
            &&& msg->Search_seq <= m.search.seq ==> reply_step(after, msg, now) == after
            &&& msg->Search_seq == m.search.seq + 1 ==> !reply_step(after, msg, now).search.loading
        }),
{
}

/// A refresh asks for the feed and changes only that it is being fetched, its error
/// and its number. A second one changes nothing and asks for nothing.
pub proof fn a_second_refresh_does_nothing(m: AppModel, idx: usize)
    requires
        idx < N_FEEDS,
        m.feeds.len() == N_FEEDS,
        !m.feeds[idx as int].loading,
        m.feeds[idx as int].seq < u64::MAX,
    ensures
        ({
            let feed = m.feeds[idx as int];
            let seq = (feed.seq + 1) as u64;
            let (after, request) = refresh_step(m, idx as int);
            &&& after == (AppModel {
                feeds: m.feeds.update(
                    idx as int,
                    FeedModel { loading: true, error: None, seq, ..feed },
                ),
                ..m
            })
            &&& request == Some(RequestView::Feed { idx: idx as int, seq })
            &&& call_of(request->0) == Some(
                crate::api::GetView { path: FEED_PATHS@[idx as int]@, params: seq![] },
            )
            &&& refresh_step(after, idx as int) == (after, None::<RequestView>)
        }),
{
}

/// A feed that is being fetched is not asked for again; its reply ends the fetching,
/// whatever it holds.
pub proof fn feeds_are_fetched_one_at_a_time(m: AppModel, idx: usize, msg: Fetched, now: ClockTime)
    requires
        idx < N_FEEDS,
        m.feeds.len() == N_FEEDS,
        m.feeds[idx as int].seq < u64::MAX,
        !m.feeds[idx as int].loading,
        msg is Feed,
        msg->Feed_idx == idx,
        msg->Feed_seq == m.feeds[idx as int].seq + 1,
    ensures
        ({
            let (after, request) = refresh_step(m, idx as int);
            &&& request == Some(
                RequestView::Feed { idx: idx as int, seq: (m.feeds[idx as int].seq + 1) as u64 },
            )
            &&& refresh_step(after, idx as int) == (after, None::<RequestView>)
            &&& !reply_step(after, msg, now).feeds[idx as int].loading
            &&& reply_step(after, msg, now).feeds[idx as int].loaded
        }),
{
}

/// A failed search shows its error and keeps the results; a search that found
/// nothing clears them.
pub proof fn failures_keep_the_results(
    m: AppModel,
    page: u32,
    error: ApiError,
    msg: Fetched,
    now: ClockTime,
)
    requires
        msg == (Fetched::Search { seq: m.search.seq, page, result: Err(error) }),
    ensures
        ({
            let after = reply_step(m, msg, now).search;
            if error is NotFound {
                &&& after.items.len() == 0
                &&& after.total == 0
                &&& after.table.selected is None
                &&& after.last_updated == Some(now)
            } else {
                after == (SearchModel {
                    loading: false,
                    error: Some(error_text(error@)),
                    ..m.search
                })
            }
        }),
{
}

/// At the start the program asks for the first page of everything and for all three
/// feeds, so that every tab has its data.
pub proof fn start_asks_for_every_tab(scores: ScoreInputsView)
    ensures
        ({
            let (after, requests) = init_step(initial_app(), scores);
            let query = query_of(initial_search(), 0, scores)->Ok_0;
            &&& requests == seq![
                RequestView::Search { seq: 1, query },
                RequestView::Feed { idx: 0, seq: 1 },
                RequestView::Feed { idx: 1, seq: 1 },
                RequestView::Feed { idx: 2, seq: 1 },
            ]
            &&& after.search.loading
            &&& after.feeds[0].loading && after.feeds[1].loading && after.feeds[2].loading
            &&& well_formed(after)
        }),
{
    no_filters_no_parameters(0, scores);
    let m = initial_app();
    let (m1, r1) = search_step(m, 0, scores);
    let (m2, r2) = refresh_step(m1, 0);
    let (m3, r3) = refresh_step(m2, 1);
    let (m4, r4) = refresh_step(m3, 2);
    assert(r1 is Some);
    assert(r2 == Some(RequestView::Feed { idx: 0, seq: 1 }));
    assert(r3 == Some(RequestView::Feed { idx: 1, seq: 1 }));
    assert(r4 == Some(RequestView::Feed { idx: 2, seq: 1 }));
    assert(init_step(m, scores).1 =~= seq![r1->0, r2->0, r3->0, r4->0]);
    assert(m4.feeds[0].loading && m4.feeds[1].loading && m4.feeds[2].loading);
}

// --- records -----------------------------------------------------------------------------

/// Enter on a row shows it and asks for its full record. The full record then takes
/// its place, at the scroll position that was reached; a record with another id does
/// not.
pub proof fn rows_open_and_fill_up(
    m: AppModel,
    row: usize,
    scores: ScoreInputsView,
    msg: Fetched,
    now: ClockTime,
)
    requires
        well_formed(m),
        m.overlay is Hidden,
        m.tab == TAB_SEARCH,
        !typing(m),
        m.search.table.selected == Some(row),
        row < m.search.items.len(),
        msg is Enrich,
        msg->Enrich_result is Ok,
    ensures
        ({
            let item = m.search.items[row as int]@;
            let full = msg->Enrich_result->Ok_0@;
            let (after, request) = key_step(m, press(KeyCode::Enter), scores);
            let shown = DetailModel {
                content: DetailContentView::Vuln(item),
                scroll: 0,
                enriching: true,
            };
            &&& after.overlay == OverlayModel::Detail(shown)
            &&& request == Some(RequestView::Enrich { id: item.id })
            &&& msg->Enrich_id@ == item.id ==> reply_step(after, msg, now).overlay
                == OverlayModel::Detail(
                DetailModel {
                    content: DetailContentView::Vuln(full),
                    enriching: false,
                    ..shown
                },
            )
            &&& msg->Enrich_id@ != item.id ==> reply_step(after, msg, now) == after
        }),
{
}

/// What is opened in the browser is a reference of the shown record, and a web
/// address.
pub proof fn only_references_are_opened(m: AppModel, key: KeyEvent, scores: ScoreInputsView)
    requires
        well_formed(m),
    ensures
        key_step(m, key, scores).1 matches Some(RequestView::OpenUrl { url }) ==> {
            &&& is_web_address(url)
            &&& m.overlay matches OverlayModel::Detail(d) && references_of(d.content).contains(url)
        },
{
    if let OverlayModel::Detail(d) = m.overlay {
        if let Some(n) = crate::steps::reference_of_key(key.code) {
            let refs = references_of(d.content);
            if n < refs.len() {
                assert(refs.contains(refs[n]));
            }
        }
    }
}

/// A lookup asks for the vulnerability where the id begins with `EUVD-`, in whatever
/// case, and for the advisory otherwise; the white space around it does not count.
/// Without an id nothing is asked for.
pub proof fn lookup_finds_its_endpoint(m: AppModel)
    requires
        !m.lookup.loading,
    ensures
        ({
            let id = trimmed(m.lookup.input);
            match lookup_step(m).1 {
                Some(request) => {
                    &&& id.len() > 0
                    &&& is_euvd_id(id) ==> call_of(request) == Some(
                        crate::api::GetView {
                            path: "/enisaid"@,
                            params: seq![("id"@, ascii_upper_text(id))],
                        },
                    )
                    &&& !is_euvd_id(id) ==> call_of(request) == Some(
                        crate::api::GetView { path: "/advisory"@, params: seq![("id"@, id)] },
                    )
                },
                None => id.len() == 0,
            }
        }),
{
    let id = trimmed(m.lookup.input);
    let upper = ascii_upper_text(id);
    lemma_trimmed_shape(m.lookup.input);
    lemma_trimmed_fixed(id);
    if id.len() > 0 {
        assert(upper[0] == crate::text::ascii_upper(id[0]));
        assert(upper.last() == crate::text::ascii_upper(id.last()));
        lemma_trimmed_fixed(upper);
    }
}

// --- lists, fields and popups ------------------------------------------------------------

/// `j` and `k` move the selection of a feed by a row, `g` and `G` lead to the first
/// and the last row. The selection never leaves the list.
pub proof fn list_keys_move_the_selection(m: AppModel, row: usize, scores: ScoreInputsView)
    requires
        well_formed(m),
        m.overlay is Hidden,
        m.tab < N_FEEDS,
        m.feeds[m.tab].table.selected == Some(row),
        row < m.feeds[m.tab].items.len(),
        m.feeds[m.tab].items.len() <= usize::MAX,
    ensures
        ({
            let last = m.feeds[m.tab].items.len() - 1;
            let after = |c: char|
                key_step(m, press(KeyCode::Char(c)), scores).0.feeds[m.tab].table.selected;
            &&& after('j') == Some(if row < last { (row + 1) as usize } else { row })
            &&& after('k') == Some(if row > 0 { (row - 1) as usize } else { row })
            &&& after('g') == Some(0usize)
            &&& after('G') == Some(last as usize)
        }),
{
}

/// `r` fetches a feed again, or runs the search again on the page that is shown.
pub proof fn r_asks_again(m: AppModel, scores: ScoreInputsView)
    requires
        well_formed(m),
        m.overlay is Hidden,
        !typing(m),
    ensures
        m.tab < N_FEEDS ==> key_step(m, press(KeyCode::Char('r')), scores) == refresh_step(
            m,
            m.tab,
        ),
        m.tab == TAB_SEARCH && m.search.searched ==> key_step(
            m,
            press(KeyCode::Char('r')),
            scores,
        ) == search_step(m, m.search.page, scores),
{
}

/// `q` quits where nothing is typed, and closes the popup where one is open.
pub proof fn q_quits_or_closes(m: AppModel, scores: ScoreInputsView)
    requires
        well_formed(m),
    ensures
        m.overlay is Hidden && !typing(m) ==> key_step(m, press(KeyCode::Char('q')), scores) == (
            AppModel { quit: true, ..m },
            None::<RequestView>,
        ),
        m.overlay !is Hidden ==> key_step(m, press(KeyCode::Char('q')), scores) == (
            AppModel { overlay: OverlayModel::Hidden, ..m },
            None::<RequestView>,
        ),
{
}

/// Ctrl-U clears the field that is typed into, or resets the exploited filter, and
/// changes nothing else but the cursor.
pub proof fn ctrl_u_clears_the_field(m: AppModel, scores: ScoreInputsView)
    requires
        well_formed(m),
        m.overlay is Hidden,
        typing(m),
    ensures
        ({
            let (after, request) = key_step(m, press_ctrl('u'), scores);
            &&& request is None
            &&& m.tab == TAB_LOOKUP ==> after == (AppModel {
                lookup: LookupModel { input: seq![], cursor: 0, ..m.lookup },
                ..m
            })
            &&& m.tab == TAB_SEARCH ==> match slot_of(m.search.focus->Filters_0 as int) {
                Some(slot) => after == (AppModel {
                    search: SearchModel {
                        fields: m.search.fields.update(slot, seq![]),
                        cursor: 0,
                        ..m.search
                    },
                    ..m
                }),
                None => after == (AppModel {
                    search: SearchModel { exploited: None, cursor: 0, ..m.search },
                    ..m
                }),
            }
        }),
{
}

/// In the details, the keys from `1` to `9` open the reference with that number, if
/// there is one and it is a web address; `o` opens the first one.
pub proof fn numbers_open_references(m: AppModel, d: DetailModel, n: int, scores: ScoreInputsView)
    requires
        well_formed(m),
        m.overlay == OverlayModel::Detail(d),
        1 <= n <= 9,
    ensures
        ({
            let refs = references_of(d.content);
            let digit = KeyCode::Char(('0' as int + n) as char);
            &&& key_step(m, press(digit), scores) == (
                m,
                if n <= refs.len() {
                    url_request(refs[n - 1])
                } else {
                    None
                },
            )
            &&& key_step(m, press(KeyCode::Char('o')), scores) == key_step(
                m,
                press(KeyCode::Char('1')),
                scores,
            )
        }),
{
}

/// Opening the picker always shows it at its first name. It asks for the names unless
/// they are there or on their way, and else changes nothing of them. So they are not
/// asked for again while they are on their way, nor once they have come; after a
/// failure the next opening asks again.
pub proof fn names_are_fetched_once(m: AppModel, msg: Fetched, now: ClockTime)
    requires
        m.assigner_opts.seq < u64::MAX,
        msg is Assigners,
        msg->Assigners_seq == m.assigner_opts.seq + 1,
    ensures
        ({
            let (after, request) = picker_step(m);
            let later = reply_step(after, msg, now);
            let result = msg->Assigners_result;
            &&& after.overlay == OverlayModel::AssignerPicker { cursor: 0 }
            &&& request is Some <==> !m.assigner_opts.loaded && !m.assigner_opts.loading
            &&& request is Some ==> request == Some(
                RequestView::Assigners { seq: (m.assigner_opts.seq + 1) as u64 },
            )
            &&& request is Some ==> after.assigner_opts == (AssignerModel {
                loading: true,
                error: None,
                seq: (m.assigner_opts.seq + 1) as u64,
                ..m.assigner_opts
            })
            &&& request is None ==> after.assigner_opts == m.assigner_opts
            &&& picker_step(after).1 is None
            &&& request is Some && result is Ok ==> later.assigner_opts.names == views(
                result->Ok_0@,
            ) && picker_step(later).1 is None
            &&& request is Some && result is Err ==> picker_step(later).1 is Some
        }),
{
}

/// Enter on a row of a feed shows it and asks for its full record.
pub proof fn feed_rows_open(m: AppModel, row: usize, scores: ScoreInputsView)
    requires
        well_formed(m),
        m.overlay is Hidden,
        m.tab < N_FEEDS,
        m.feeds[m.tab].table.selected == Some(row),
        row < m.feeds[m.tab].items.len(),
    ensures
        ({
            let item = m.feeds[m.tab].items[row as int]@;
            let (after, request) = key_step(m, press(KeyCode::Enter), scores);
            &&& after.overlay == OverlayModel::Detail(
                DetailModel {
                    content: DetailContentView::Vuln(item),
                    scroll: 0,
                    enriching: true,
                },
            )
            &&& request == Some(RequestView::Enrich { id: item.id })
        }),
{
}

} // verus!
