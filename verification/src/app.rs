//! The program: what it does with keys and replies, and what it asks for.

use vstd::prelude::*;
use vstd::string::*;

use crate::api::{ApiError, SearchQuery, Vulnerability};
use crate::clock::ClockTime;
use crate::edit::edit;
use crate::keys::{KeyCode, KeyEvent, KeyEventKind};
use crate::laws::{keys_keep_states_in_order, replies_keep_states_in_order};
use crate::search::{
    field_slot, ScoreInputs, SearchFocus, SearchState, FILTER_ASSIGNER, FILTER_EXPLOITED, N_FILTERS,
};
use crate::state::{
    has_room, initial_app, request_view, valid_time, well_formed, App, AppModel, AssignerOptions,
    DetailContent, DetailState, FeedState, Fetched, LookupState, Overlay, Request, RequestView,
    DEFAULT_TAB, N_FEEDS, N_TABS, TAB_LOOKUP, TAB_SEARCH,
};
use crate::steps::{
    detail_key, feed_key, filters_key, help_key, init_step, key_step, listed, loading, lookup_key,
    lookup_step, open_step, picker_key, picker_step, reference_of_key, refresh_step, reply_step,
    request_views, results_key, scrolled, search_key, search_step, spawn_step, tab_of_key, tab_step,
    typing, url_request,
};
use crate::text::{starts_with, to_ascii_uppercase, trim};

verus! {

// --- the program ---------------------------------------------------------------------------

/// Asks for an address to be opened in the browser, unless it is no web address.
pub fn open_url(url: &str) -> (r: Option<Request>)
    ensures
        request_view(r) == url_request(url@),
{
    if starts_with(url, "http://") || starts_with(url, "https://") {
        Some(Request::OpenUrl { url: url.to_owned() })
    } else {
        None
    }
}

/// The scroll position after a key.
fn scroll_key(scroll: u16, code: KeyCode) -> (r: u16)
    ensures
        r == scrolled(scroll, code),
{
    match code {
        KeyCode::Char('j') | KeyCode::Down => scroll.saturating_add(1),
        KeyCode::Char('k') | KeyCode::Up => scroll.saturating_sub(1),
        KeyCode::PageDown => scroll.saturating_add(10),
        KeyCode::PageUp => scroll.saturating_sub(10),
        KeyCode::Char('g') | KeyCode::Home => 0,
        // Clamped to the real bottom during rendering.
        KeyCode::Char('G') | KeyCode::End => u16::MAX,
        _ => scroll,
    }
}

/// The reference that a key opens, counted from zero.
fn reference_key(code: KeyCode) -> (r: Option<usize>)
    ensures
        match reference_of_key(code) {
            Some(n) => r == Some(n as usize) && 0 <= n < 9,
            None => r is None,
        },
{
    match code {
        KeyCode::Char(c) => {
            if c == 'o' {
                Some(0)
            } else if '1' <= c && c <= '9' {
                Some(c as usize - 49)
            } else {
                None
            }
        },
        _ => None,
    }
}

impl App {
    pub fn new() -> (r: App)
        ensures
            r@ == initial_app(),
    {
        let r = App {
            tab: DEFAULT_TAB,
            search: SearchState::default(),
            feeds: [FeedState::default(), FeedState::default(), FeedState::default()],
            lookup: LookupState::default(),
            assigner_opts: AssignerOptions::default(),
            overlay: Overlay::Hidden,
            quit: false,
            tick: 0,
        };
        assert(r@.feeds =~= initial_app().feeds);
        r
    }

    // --- asking for data -----------------------------------------------------------------

    fn spawn_search(&mut self, query: SearchQuery) -> (r: Option<Request>)
        requires
            old(self).search.seq < u64::MAX,
        ensures
            (final(self)@, request_view(r)) == spawn_step(old(self)@, query@),
    {
        self.search.searched = true;
        self.search.loading = true;
        self.search.error = None;
        self.search.seq = self.search.seq + 1;
        Some(Request::Search { seq: self.search.seq, query })
    }

    /// Asks for the search of the filters, or shows what is wrong with them.
    pub fn run_search(&mut self, page: u32, scores: &ScoreInputs) -> (r: Option<Request>)
        requires
            old(self).search.seq < u64::MAX,
        ensures
            (final(self)@, request_view(r)) == search_step(old(self)@, page, scores@),
    {
        match self.search.build_query(page, scores) {
            Ok(query) => self.spawn_search(query),
            Err(e) => {
                self.search.error = Some(e);
                None
            },
        }
    }

    /// Asks for a feed, unless it is being fetched already.
    pub fn refresh_feed(&mut self, idx: usize) -> (r: Option<Request>)
        requires
            idx < N_FEEDS,
            old(self).feeds@[idx as int].loading || old(self).feeds@[idx as int].seq < u64::MAX,
        ensures
            (final(self)@, request_view(r)) == refresh_step(old(self)@, idx as int),
    {
        if self.feeds[idx].loading {
            return None;
        }
        self.feeds[idx].loading = true;
        self.feeds[idx].error = None;
        self.feeds[idx].seq = self.feeds[idx].seq + 1;
        assert(self@.feeds =~= refresh_step(old(self)@, idx as int).0.feeds);
        Some(Request::Feed { idx, seq: self.feeds[idx].seq })
    }

    /// Asks for the initial data of every tab: the search without filters and all
    /// three feeds.
    pub fn init(&mut self, scores: &ScoreInputs) -> (r: Vec<Request>)
        requires
            well_formed(old(self)@),
            has_room(old(self)@),
        ensures
            (final(self)@, request_views(r@)) == init_step(old(self)@, scores@),
    {
        let mut requests: Vec<Request> = Vec::new();
        let first = self.run_search(0, scores);
        push_request(&mut requests, first);
        assert(request_views(requests@) =~= listed(search_step(old(self)@, 0, scores@).1));
        assert(self@.feeds[0] == self.feeds@[0]@ && self@.feeds[1] == self.feeds@[1]@
            && self@.feeds[2] == self.feeds@[2]@);
        let second = self.refresh_feed(0);
        push_request(&mut requests, second);
        assert(self@.feeds[1] == self.feeds@[1]@ && self@.feeds[2] == self.feeds@[2]@);
        let third = self.refresh_feed(1);
        push_request(&mut requests, third);
        assert(self@.feeds[2] == self.feeds@[2]@);
        let fourth = self.refresh_feed(2);
        push_request(&mut requests, fourth);
        requests
    }

    /// Shows the record of a row and asks for its full form.
    fn open_detail(&mut self, vuln: Vulnerability) -> (r: Option<Request>)
        ensures
            (final(self)@, request_view(r)) == open_step(old(self)@, vuln@),
    {
        let id = vuln.id.clone();
        self.overlay =
        Overlay::Detail(
            Box::new(
                DetailState { content: DetailContent::Vuln(vuln), scroll: 0, enriching: true },
            ),
        );
        Some(Request::Enrich { id })
    }

    /// Looks up the id that was entered.
    fn run_lookup(&mut self) -> (r: Option<Request>)
        requires
            old(self).lookup.seq < u64::MAX,
        ensures
            (final(self)@, request_view(r)) == lookup_step(old(self)@),
    {
        let id = trim(self.lookup.input.as_str()).to_owned();
        if id.as_str().is_empty() || self.lookup.loading {
            return None;
        }
        self.lookup.loading = true;
        self.lookup.error = None;
        self.lookup.seq = self.lookup.seq + 1;
        let seq: u64 = self.lookup.seq;
        // EUVD-* ids resolve via /enisaid, anything else via /advisory.
        let upper = to_ascii_uppercase(id.as_str());
        if starts_with(upper.as_str(), "EUVD-") {
            Some(Request::LookupVuln { seq, id: upper })
        } else {
            Some(Request::LookupAdvisory { seq, id })
        }
    }

    /// Opens the assigner multiselect, asking for the options on first use.
    fn open_assigner_picker(&mut self) -> (r: Option<Request>)
        requires
            old(self).assigner_opts.seq < u64::MAX,
        ensures
            (final(self)@, request_view(r)) == picker_step(old(self)@),
    {
        self.overlay = Overlay::AssignerPicker { cursor: 0 };
        if self.assigner_opts.loaded || self.assigner_opts.loading {
            return None;
        }
        self.assigner_opts.loading = true;
        self.assigner_opts.error = None;
        self.assigner_opts.seq = self.assigner_opts.seq + 1;
        Some(Request::Assigners { seq: self.assigner_opts.seq })
    }

    /// Whether anything is being fetched.
    pub fn anything_loading(&self) -> (r: bool)
        ensures
            r == loading(self@),
    {
        let enriching: bool = match &self.overlay {
            Overlay::Detail(d) => d.enriching,
            _ => false,
        };
        assert(self@.feeds[0] == self.feeds@[0]@ && self@.feeds[1] == self.feeds@[1]@
            && self@.feeds[2] == self.feeds@[2]@);
        self.search.loading || self.lookup.loading || self.assigner_opts.loading
            || self.feeds[0].loading || self.feeds[1].loading || self.feeds[2].loading || enriching
    }

    /// Whether the state is one that the program can be in and has room to go on.
    pub fn is_ready(&self) -> (r: bool)
        ensures
            r == (well_formed(self@) && has_room(self@)),
    {
        let search_fine: bool = match self.search.focus {
            SearchFocus::Filters(i) => i < N_FILTERS && self.search.cursor
                <= self.search.char_len(i),
            SearchFocus::Results => true,
        };
        let picker_fine: bool = match (&self.overlay, self.search.focus) {
            (Overlay::AssignerPicker { .. }, SearchFocus::Filters(i)) => i == FILTER_ASSIGNER,
            _ => true,
        };
        let lookup_len: usize = self.lookup.input.as_str().unicode_len();
        let scalars_fine: bool = self.tab < N_TABS && self.lookup.cursor <= lookup_len && lookup_len
            < usize::MAX && self.search.seq < u64::MAX && self.lookup.seq < u64::MAX
            && self.assigner_opts.seq < u64::MAX;
        let times_fine: bool = time_ok(&self.search.last_updated) && time_ok(
            &self.lookup.last_updated,
        );
        let mut feeds_fine: bool = true;
        let mut i: usize = 0;
        while i < N_FEEDS
            invariant
                i <= N_FEEDS,
                self.feeds@.len() == N_FEEDS,
                feeds_fine == (forall|j: int|
                    0 <= j < i ==> valid_time(
                        (#[trigger] self.feeds@[j]).last_updated,
                    ) && self.feeds@[j].seq < u64::MAX),
            decreases N_FEEDS - i,
        {
            if !time_ok(&self.feeds[i].last_updated) || self.feeds[i].seq == u64::MAX {
                feeds_fine = false;
            }
            i = i + 1;
        }
        let mut fields_fine: bool = true;
        let mut k: usize = 0;
        while k < N_FILTERS - 1
            invariant
                k <= N_FILTERS - 1,
                self.search.fields@.len() == N_FILTERS - 1,
                fields_fine == (forall|j: int|
                    0 <= j < k ==> (#[trigger] self.search.fields@[j])@.len() < usize::MAX),
            decreases N_FILTERS - k,
        {
            if self.search.fields[k].as_str().unicode_len() == usize::MAX {
                fields_fine = false;
            }
            k = k + 1;
        }
        proof {
            assert(self@.feeds.len() == N_FEEDS && self@.search.fields.len() == N_FILTERS - 1);
            assert(forall|j: int| 0 <= j < 3 ==> #[trigger] self@.feeds[j] == self.feeds@[j]@);
            assert(forall|j: int|
                0 <= j < 10 ==> #[trigger] self@.search.fields[j] == self.search.fields@[j]@);
            if well_formed(self@) && has_room(self@) {
                assert forall|j: int| 0 <= j < 3 implies valid_time(
                    (#[trigger] self.feeds@[j]).last_updated,
                ) && self.feeds@[j].seq < u64::MAX by {
                    assert(self@.feeds[j] == self.feeds@[j]@);
                }
                assert forall|j: int| 0 <= j < 10 implies (
                #[trigger] self.search.fields@[j])@.len() < usize::MAX by {
                    assert(self@.search.fields[j] == self.search.fields@[j]@);
                }
            }
        }
        search_fine && picker_fine && scalars_fine && times_fine && feeds_fine && fields_fine
    }

    /// Counts a turn of the main loop; the spinner moves with it.
    pub fn on_tick(&mut self)
        ensures
            final(self)@ == (AppModel {
                tick: if old(self).tick == usize::MAX {
                    0
                } else {
                    (old(self).tick + 1) as usize
                },
                ..old(self)@
            }),
    {
        self.tick = if self.tick == usize::MAX {
            0
        } else {
            self.tick + 1
        };
    }
}

// --- keys ------------------------------------------------------------------------------

impl App {
    /// What a key does. `scores` is what the two CVSS fields read as.
    pub fn on_key(&mut self, key: KeyEvent, scores: &ScoreInputs) -> (r: Option<Request>)
        requires
            well_formed(old(self)@),
            has_room(old(self)@),
        ensures
            (final(self)@, request_view(r)) == key_step(old(self)@, key, scores@),
            well_formed(final(self)@),
    {
        proof {
            keys_keep_states_in_order(self@, key, scores@);
        }
        if key.kind == KeyEventKind::Release {
            return None;
        }
        if key.control && key.code == KeyCode::Char('c') {
            self.quit = true;
            return None;
        }
        match &self.overlay {
            Overlay::Help { .. } => self.on_key_help(key),
            Overlay::Detail(_) => self.on_key_detail(key),
            Overlay::AssignerPicker { .. } => self.on_key_assigner_picker(key),
            Overlay::Hidden => {
                if key.code == KeyCode::Char('?') && !self.text_input_active() {
                    self.overlay = Overlay::Help { scroll: 0 };
                    None
                } else if self.tab == TAB_SEARCH {
                    self.on_key_search(key, scores)
                } else if self.tab == TAB_LOOKUP {
                    self.on_key_lookup(key)
                } else {
                    self.on_key_feed(key, self.tab)
                }
            },
        }
    }

    /// True when keystrokes are being consumed by a text field.
    fn text_input_active(&self) -> (r: bool)
        ensures
            r == typing(self@),
    {
        if self.tab == TAB_SEARCH {
            match self.search.focus {
                SearchFocus::Filters(_) => true,
                SearchFocus::Results => false,
            }
        } else {
            self.tab == TAB_LOOKUP && self.lookup.editing
        }
    }

    fn set_tab(&mut self, tab: usize) -> (r: Option<Request>)
        requires
            tab < N_TABS,
            has_room(old(self)@),
        ensures
            (final(self)@, request_view(r)) == tab_step(old(self)@, tab as int),
    {
        self.tab = tab;
        if tab < N_FEEDS {
            assert(old(self)@.feeds[tab as int] == self.feeds@[tab as int]@);
            if !self.feeds[tab].loaded {
                return self.refresh_feed(tab);
            }
        }
        None
    }

    /// The tab that a key leads to, if it is one that switches tabs.
    fn tab_key(&self, key: KeyEvent) -> (r: Option<usize>)
        requires
            self.tab < N_TABS,
        ensures
            match tab_of_key(self.tab as int, key) {
                Some(t) => r == Some(t as usize) && 0 <= t < N_TABS,
                None => r is None,
            },
    {
        match key.code {
            KeyCode::Tab => Some((self.tab + 1) % N_TABS),
            KeyCode::BackTab => Some((self.tab + N_TABS - 1) % N_TABS),
            KeyCode::Char(c) => {
                if '1' <= c && c <= '5' {
                    Some(c as usize - 49)
                } else {
                    None
                }
            },
            _ => None,
        }
    }

    fn on_key_search(&mut self, key: KeyEvent, scores: &ScoreInputs) -> (r: Option<Request>)
        requires
            well_formed(old(self)@),
            has_room(old(self)@),
        ensures
            (final(self)@, request_view(r)) == search_key(old(self)@, key, scores@),
    {
        match self.search.focus {
            SearchFocus::Filters(idx) => self.on_key_filters(key, idx, scores),
            SearchFocus::Results => {
                match self.tab_key(key) {
                    Some(tab) => self.set_tab(tab),
                    None => self.on_key_results(key, scores),
                }
            },
        }
    }

    fn on_key_results(&mut self, key: KeyEvent, scores: &ScoreInputs) -> (r: Option<Request>)
        requires
            well_formed(old(self)@),
            has_room(old(self)@),
        ensures
            (final(self)@, request_view(r)) == results_key(old(self)@, key, scores@),
    {
        let len: usize = self.search.items.len();
        match key.code {
            KeyCode::Char('q') => {
                self.quit = true;
                None
            },
            KeyCode::Char('j') | KeyCode::Down => {
                self.search.table.move_sel(len, 1);
                None
            },
            KeyCode::Char('k') | KeyCode::Up => {
                self.search.table.move_sel(len, -1);
                None
            },
            KeyCode::Char('g') | KeyCode::Home => {
                self.search.table.sel_to(len, 0);
                None
            },
            KeyCode::Char('G') | KeyCode::End => {
                self.search.table.sel_to(len, len);
                None
            },
            KeyCode::Enter => {
                match self.search.table.selected() {
                    Some(i) => {
                        if i < len {
                            let v = self.search.items[i].clone();
                            self.open_detail(v)
                        } else {
                            None
                        }
                    },
                    None => None,
                }
            },
            KeyCode::Char('n') | KeyCode::Right => {
                let page: u32 = self.search.page;
                if self.search.searched && page < self.search.total_pages() - 1 {
                    self.run_search(page + 1, scores)
                } else {
                    None
                }
            },
            KeyCode::Char('p') | KeyCode::Left => {
                if self.search.page > 0 {
                    self.run_search(self.search.page - 1, scores)
                } else {
                    None
                }
            },
            KeyCode::Char('r') => {
                if self.search.searched {
                    self.run_search(self.search.page, scores)
                } else {
                    None
                }
            },
            KeyCode::Char('c') => {
                self.search.filters_collapsed = !self.search.filters_collapsed;
                None
            },
            KeyCode::Char('/') | KeyCode::Char('f') | KeyCode::Char('i') => {
                // Editing hidden fields would be confusing, so focusing the filters
                // always brings the sidebar back.
                self.search.filters_collapsed = false;
                self.focus_filter(0);
                None
            },
            _ => None,
        }
    }

    /// Gives a filter the focus, with the cursor at the end of its text.
    fn focus_filter(&mut self, filter: usize)
        requires
            filter < N_FILTERS,
        ensures
            final(self)@ == (AppModel {
                search: crate::steps::focus_filter(old(self)@.search, filter as int),
                ..old(self)@
            }),
    {
        self.search.cursor = self.search.char_len(filter);
        self.search.focus = SearchFocus::Filters(filter);
    }

    fn on_key_filters(&mut self, key: KeyEvent, idx: usize, scores: &ScoreInputs) -> (r: Option<
        Request,
    >)
        requires
            well_formed(old(self)@),
            has_room(old(self)@),
            old(self).search.focus == SearchFocus::Filters(idx),
        ensures
            (final(self)@, request_view(r)) == filters_key(old(self)@, key, idx as int, scores@),
    {
        match key.code {
            KeyCode::Esc => {
                self.search.focus = SearchFocus::Results;
                None
            },
            KeyCode::Enter => {
                let r = self.run_search(0, scores);
                if self.search.error.is_none() {
                    self.search.focus = SearchFocus::Results;
                }
                r
            },
            KeyCode::Tab | KeyCode::Down => {
                self.focus_filter((idx + 1) % N_FILTERS);
                None
            },
            KeyCode::BackTab | KeyCode::Up => {
                self.focus_filter((idx + N_FILTERS - 1) % N_FILTERS);
                None
            },
            KeyCode::Char(' ') => {
                if idx == FILTER_EXPLOITED {
                    self.search.exploited =
                    match self.search.exploited {
                        None => Some(true),
                        Some(true) => Some(false),
                        Some(false) => None,
                    };
                    None
                } else if idx == FILTER_ASSIGNER {
                    self.open_assigner_picker()
                } else {
                    self.edit_filter(key, idx);
                    None
                }
            },
            _ => {
                self.edit_filter(key, idx);
                None
            },
        }
    }

    /// Applies a key to the text of a filter.
    fn edit_filter(&mut self, key: KeyEvent, idx: usize)
        requires
            well_formed(old(self)@),
            has_room(old(self)@),
            old(self).search.focus == SearchFocus::Filters(idx),
        ensures
            final(self)@ == (AppModel {
                search: crate::steps::filter_edit(old(self)@.search, key, idx as int),
                ..old(self)@
            }),
    {
        match field_slot(idx) {
            Some(slot) => {
                let ghost before = self@.search.fields;
                assert(before[slot as int] == self.search.fields@[slot as int]@);
                edit(&mut self.search.fields[slot], &mut self.search.cursor, key);
                assert(self@.search.fields =~= before.update(
                    slot as int,
                    self.search.fields@[slot as int]@,
                ));
            },
            None => {
                if key.control && key.code == KeyCode::Char('u') {
                    self.search.exploited = None;
                    self.search.cursor = 0;
                }
            },
        }
    }

    fn on_key_feed(&mut self, key: KeyEvent, idx: usize) -> (r: Option<Request>)
        requires
            well_formed(old(self)@),
            has_room(old(self)@),
            idx < N_FEEDS,
        ensures
            (final(self)@, request_view(r)) == feed_key(old(self)@, key, idx as int),
    {
        let tab: Option<usize> = self.tab_key(key);
        if let Some(t) = tab {
            return self.set_tab(t);
        }
        let len: usize = self.feeds[idx].items.len();
        assert(self@.feeds[idx as int] == self.feeds@[idx as int]@);
        match key.code {
            KeyCode::Char('q') => {
                self.quit = true;
                None
            },
            KeyCode::Char('j') | KeyCode::Down => {
                self.feeds[idx].table.move_sel(len, 1);
                assert(self@.feeds =~= feed_key(old(self)@, key, idx as int).0.feeds);
                None
            },
            KeyCode::Char('k') | KeyCode::Up => {
                self.feeds[idx].table.move_sel(len, -1);
                assert(self@.feeds =~= feed_key(old(self)@, key, idx as int).0.feeds);
                None
            },
            KeyCode::Char('g') | KeyCode::Home => {
                self.feeds[idx].table.sel_to(len, 0);
                assert(self@.feeds =~= feed_key(old(self)@, key, idx as int).0.feeds);
                None
            },
            KeyCode::Char('G') | KeyCode::End => {
                self.feeds[idx].table.sel_to(len, len);
                assert(self@.feeds =~= feed_key(old(self)@, key, idx as int).0.feeds);
                None
            },
            KeyCode::Char('r') => self.refresh_feed(idx),
            KeyCode::Enter => {
                match self.feeds[idx].table.selected() {
                    Some(i) => {
                        if i < len {
                            let v = self.feeds[idx].items[i].clone();
                            self.open_detail(v)
                        } else {
                            None
                        }
                    },
                    None => None,
                }
            },
            _ => None,
        }
    }

    fn on_key_lookup(&mut self, key: KeyEvent) -> (r: Option<Request>)
        requires
            well_formed(old(self)@),
            has_room(old(self)@),
        ensures
            (final(self)@, request_view(r)) == lookup_key(old(self)@, key),
    {
        if self.lookup.editing {
            match key.code {
                KeyCode::Esc => {
                    self.lookup.editing = false;
                    None
                },
                KeyCode::Enter => self.run_lookup(),
                _ => {
                    edit(&mut self.lookup.input, &mut self.lookup.cursor, key);
                    None
                },
            }
        } else {
            match self.tab_key(key) {
                Some(tab) => self.set_tab(tab),
                None => match key.code {
                    KeyCode::Char('q') => {
                        self.quit = true;
                        None
                    },
                    KeyCode::Char('i') | KeyCode::Char('e') | KeyCode::Char('/') => {
                        self.lookup.cursor = self.lookup.input.as_str().unicode_len();
                        self.lookup.editing = true;
                        None
                    },
                    KeyCode::Enter => self.run_lookup(),
                    _ => None,
                },
            }
        }
    }

    fn on_key_assigner_picker(&mut self, key: KeyEvent) -> (r: Option<Request>)
        requires
            well_formed(old(self)@),
            old(self).overlay is AssignerPicker,
        ensures
            (final(self)@, request_view(r)) == picker_key(
                old(self)@,
                key,
                old(self).overlay->AssignerPicker_cursor as int,
            ),
    {
        let len: usize = self.assigner_opts.names.len();
        let last: usize = if len > 0 {
            len - 1
        } else {
            0
        };
        let cursor: usize = match &self.overlay {
            Overlay::AssignerPicker { cursor } => *cursor,
            _ => 0,
        };
        match key.code {
            KeyCode::Esc | KeyCode::Enter | KeyCode::Char('q') => {
                self.overlay = Overlay::Hidden;
            },
            KeyCode::Char('j') | KeyCode::Down => {
                if len > 0 {
                    let next: usize = if cursor < last {
                        cursor + 1
                    } else {
                        last
                    };
                    self.overlay = Overlay::AssignerPicker { cursor: next };
                }
            },
            KeyCode::Char('k') | KeyCode::Up => {
                if cursor > 0 {
                    self.overlay = Overlay::AssignerPicker { cursor: cursor - 1 };
                }
            },
            KeyCode::Char('g') | KeyCode::Home => {
                self.overlay = Overlay::AssignerPicker { cursor: 0 };
            },
            KeyCode::Char('G') | KeyCode::End => {
                self.overlay = Overlay::AssignerPicker { cursor: last };
            },
            KeyCode::Char(' ') => {
                if cursor < len {
                    let name = self.assigner_opts.names[cursor].clone();
                    self.search.toggle_assigner(name.as_str());
                }
            },
            KeyCode::Char('u') => {
                if key.control {
                    self.search.fields[FILTER_ASSIGNER] = String::new();
                    self.search.cursor = 0;
                    assert(self@.search.fields =~= old(self)@.search.fields.update(
                        FILTER_ASSIGNER as int,
                        Seq::empty(),
                    ));
                }
            },
            _ => {},
        }
        None
    }

    fn on_key_help(&mut self, key: KeyEvent) -> (r: Option<Request>)
        requires
            old(self).overlay is Help,
        ensures
            (final(self)@, request_view(r)) == help_key(
                old(self)@,
                key,
                old(self).overlay->Help_scroll,
            ),
    {
        match key.code {
            KeyCode::Esc | KeyCode::Char('?') | KeyCode::Char('q') | KeyCode::Enter => {
                self.overlay = Overlay::Hidden;
            },
            _ => {
                if let Overlay::Help { scroll } = &mut self.overlay {
                    *scroll = scroll_key(*scroll, key.code);
                }
            },
        }
        None
    }

    fn on_key_detail(&mut self, key: KeyEvent) -> (r: Option<Request>)
        requires
            old(self).overlay is Detail,
        ensures
            (final(self)@, request_view(r)) == detail_key(
                old(self)@,
                key,
                (*old(self).overlay->Detail_0)@,
            ),
    {
        match key.code {
            KeyCode::Esc | KeyCode::Char('q') => {
                self.overlay = Overlay::Hidden;
                None
            },
            _ => match reference_key(key.code) {
                Some(n) => self.open_reference(n),
                None => {
                    if let Overlay::Detail(d) = &mut self.overlay {
                        d.scroll = scroll_key(d.scroll, key.code);
                    }
                    None
                },
            },
        }
    }

    /// Asks for a reference of the shown record to be opened, if there is such a
    /// reference and it is a web address.
    fn open_reference(&self, n: usize) -> (r: Option<Request>)
        requires
            self.overlay is Detail,
        ensures
            request_view(r) == {
                let refs = crate::state::references_of((*self.overlay->Detail_0)@.content);
                if n < refs.len() {
                    url_request(refs[n as int])
                } else {
                    None
                }
            },
    {
        match &self.overlay {
            Overlay::Detail(d) => {
                let refs = d.content.references();
                let ghost all = crate::text::slice_views(refs@);
                if n < refs.len() {
                    assert(all[n as int] == refs@[n as int]@);
                    open_url(refs[n])
                } else {
                    None
                }
            },
            _ => None,
        }
    }
}

// --- replies -----------------------------------------------------------------------------

impl App {
    /// What a reply does. `now` is the time of the day.
    pub fn on_fetched(&mut self, msg: Fetched, now: ClockTime)
        requires
            msg matches Fetched::Feed { idx, .. } ==> idx < N_FEEDS,
        ensures
            final(self)@ == reply_step(old(self)@, msg, now),
            well_formed(old(self)@) && now.valid() ==> well_formed(final(self)@),
    {
        proof {
            if well_formed(self@) && now.valid() {
                replies_keep_states_in_order(self@, msg, now);
            }
        }
        match msg {
            Fetched::Search { seq, page, result } => {
                if seq != self.search.seq {
                    return;
                }
                self.search.loading = false;
                match result {
                    Ok(resp) => {
                        self.search.total = resp.total;
                        self.search.items = resp.items;
                        self.search.page = page;
                        let len: usize = self.search.items.len();
                        self.search.table.select_first_of(len);
                        self.search.last_updated = Some(now);
                    },
                    Err(ApiError::NotFound) => {
                        self.search.total = 0;
                        self.search.items = Vec::new();
                        self.search.table.select(None);
                        self.search.last_updated = Some(now);
                    },
                    Err(e) => {
                        self.search.error = Some(e.message());
                    },
                }
            },
            Fetched::Feed { idx, seq, result } => {
                assert(self@.feeds[idx as int] == self.feeds@[idx as int]@);
                if seq != self.feeds[idx].seq {
                    return;
                }
                self.feeds[idx].loading = false;
                self.feeds[idx].loaded = true;
                match result {
                    Ok(items) => {
                        let len: usize = items.len();
                        self.feeds[idx].items = items;
                        self.feeds[idx].table.select_first_of(len);
                        self.feeds[idx].last_updated = Some(now);
                    },
                    Err(e) => {
                        self.feeds[idx].error = Some(e.message());
                    },
                }
                assert(self@.feeds =~= reply_step(old(self)@, msg, now).feeds);
            },
            Fetched::Enrich { id, result } => {
                if let Overlay::Detail(d) = &mut self.overlay {
                    let matches: bool = match &d.content {
                        DetailContent::Vuln(v) => v.id == id,
                        DetailContent::Advisory(_) => false,
                    };
                    if matches {
                        d.enriching = false;
                        if let Ok(full) = result {
                            d.content = DetailContent::Vuln(full);
                        }
                    }
                }
            },
            Fetched::LookupVuln { seq, result } => {
                if seq != self.lookup.seq {
                    return;
                }
                self.lookup.loading = false;
                match result {
                    Ok(v) => {
                        self.lookup.last_updated = Some(now);
                        self.show(DetailContent::Vuln(v));
                    },
                    Err(e) => {
                        self.lookup.error = Some(e.message());
                    },
                }
            },
            Fetched::LookupAdvisory { seq, result } => {
                if seq != self.lookup.seq {
                    return;
                }
                self.lookup.loading = false;
                match result {
                    Ok(a) => {
                        self.lookup.last_updated = Some(now);
                        self.show(DetailContent::Advisory(a));
                    },
                    Err(e) => {
                        self.lookup.error = Some(e.message());
                    },
                }
            },
            Fetched::Assigners { seq, result } => {
                if seq != self.assigner_opts.seq {
                    return;
                }
                self.assigner_opts.loading = false;
                match result {
                    Ok(names) => {
                        self.assigner_opts.names = names;
                        self.assigner_opts.loaded = true;
                    },
                    Err(e) => {
                        self.assigner_opts.error = Some(e.message());
                    },
                }
            },
        }
    }

    /// Shows a record.
    fn show(&mut self, content: DetailContent)
        ensures
            final(self)@ == crate::steps::showing(old(self)@, content@),
    {
        self.overlay =
        Overlay::Detail(Box::new(DetailState { content, scroll: 0, enriching: false }));
    }
}

fn push_request(v: &mut Vec<Request>, r: Option<Request>)
    ensures
        request_views(final(v)@) == request_views(old(v)@) + listed(request_view(r)),
{
    match r {
        Some(x) => {
            v.push(x);
            assert(request_views(v@) =~= request_views(old(v)@) + seq![x@]);
        },
        None => {
            assert(request_views(old(v)@) + Seq::<RequestView>::empty() =~= request_views(old(v)@));
        },
    }
}

fn time_ok(t: &Option<ClockTime>) -> (r: bool)
    ensures
        r == valid_time(*t),
{
    match t {
        Some(c) => ClockTime::new(c.hour, c.minute, c.second, c.nano).is_some(),
        None => true,
    }
}

} // verus!
