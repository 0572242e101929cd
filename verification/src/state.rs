//! The state of the whole program, and what it asks of the outside.

use vstd::prelude::*;
use vstd::string::*;

use crate::api::{
    Advisory, AdvisoryView, ApiResult, Get, GetView, SearchQuery, SearchQueryView, SearchResponse,
    Vulnerability, VulnerabilityView,
};
use crate::clock::ClockTime;
use crate::pieces::{nonblank_lines, trimmed_lines};
use crate::search::{
    initial_search, len_of, SearchFocus, SearchModel, SearchState, FILTER_ASSIGNER, N_FILTERS,
};
use crate::table::{selection_within, TableState};
use crate::text::{opt_view, slice_views, views};

verus! {

pub const TABS: [&'static str; 5] = [
    "Latest",
    "Latest Exploited",
    "Latest Critical",
    "Search",
    "Lookup",
];

pub const N_TABS: usize = 5;

pub const N_FEEDS: usize = 3;

pub const TAB_SEARCH: usize = 3;

pub const TAB_LOOKUP: usize = 4;

/// The tab that is shown first: an index into [`TABS`].
pub const DEFAULT_TAB: usize = 0;

pub const FEED_PATHS: [&'static str; 3] = [
    "/lastvulnerabilities",
    "/exploitedvulnerabilities",
    "/criticalvulnerabilities",
];

// --- feeds ---------------------------------------------------------------------------

pub struct FeedState {
    pub items: Vec<Vulnerability>,
    pub table: TableState,
    pub loading: bool,
    pub loaded: bool,
    pub seq: u64,
    pub error: Option<String>,
    /// When the current items were fetched.
    pub last_updated: Option<ClockTime>,
}

/// The model of a [`FeedState`].
#[verifier::ext_equal]
pub struct FeedModel {
    pub items: Seq<Vulnerability>,
    pub table: TableState,
    pub loading: bool,
    pub loaded: bool,
    pub seq: u64,
    pub error: Option<Seq<char>>,
    pub last_updated: Option<ClockTime>,
}

impl View for FeedState {
    type V = FeedModel;

    open spec fn view(&self) -> FeedModel {
        FeedModel {
            items: self.items@,
            table: self.table,
            loading: self.loading,
            loaded: self.loaded,
            seq: self.seq,
            error: opt_view(self.error),
            last_updated: self.last_updated,
        }
    }
}

/// A feed that was never fetched.
pub open spec fn initial_feed() -> FeedModel {
    FeedModel {
        items: seq![],
        table: TableState { selected: None, offset: 0 },
        loading: false,
        loaded: false,
        seq: 0,
        error: None,
        last_updated: None,
    }
}

impl Default for FeedState {
    fn default() -> (r: FeedState)
        ensures
            r@ == initial_feed(),
    {
        FeedState {
            items: Vec::new(),
            table: TableState::new(),
            loading: false,
            loaded: false,
            seq: 0,
            error: None,
            last_updated: None,
        }
    }
}

// --- lookup --------------------------------------------------------------------------

pub struct LookupState {
    pub input: String,
    /// Char position of the edit cursor within `input`.
    pub cursor: usize,
    pub editing: bool,
    pub loading: bool,
    pub seq: u64,
    pub error: Option<String>,
    /// When the last successful lookup completed.
    pub last_updated: Option<ClockTime>,
}

/// The model of a [`LookupState`].
#[verifier::ext_equal]
pub struct LookupModel {
    pub input: Seq<char>,
    pub cursor: int,
    pub editing: bool,
    pub loading: bool,
    pub seq: u64,
    pub error: Option<Seq<char>>,
    pub last_updated: Option<ClockTime>,
}

impl View for LookupState {
    type V = LookupModel;

    open spec fn view(&self) -> LookupModel {
        LookupModel {
            input: self.input@,
            cursor: self.cursor as int,
            editing: self.editing,
            loading: self.loading,
            seq: self.seq,
            error: opt_view(self.error),
            last_updated: self.last_updated,
        }
    }
}

/// The state before anything was looked up.
pub open spec fn initial_lookup() -> LookupModel {
    LookupModel {
        input: seq![],
        cursor: 0,
        editing: false,
        loading: false,
        seq: 0,
        error: None,
        last_updated: None,
    }
}

impl Default for LookupState {
    fn default() -> (r: LookupState)
        ensures
            r@ == initial_lookup(),
    {
        LookupState {
            input: String::new(),
            cursor: 0,
            editing: false,
            loading: false,
            seq: 0,
            error: None,
            last_updated: None,
        }
    }
}

// --- assigners -----------------------------------------------------------------------

/// Assigner names available for the picker, fetched once from
/// `/assigners/names`.
pub struct AssignerOptions {
    pub names: Vec<String>,
    pub loading: bool,
    pub loaded: bool,
    pub seq: u64,
    pub error: Option<String>,
}

/// The model of [`AssignerOptions`].
#[verifier::ext_equal]
pub struct AssignerModel {
    pub names: Seq<Seq<char>>,
    pub loading: bool,
    pub loaded: bool,
    pub seq: u64,
    pub error: Option<Seq<char>>,
}

impl View for AssignerOptions {
    type V = AssignerModel;

    open spec fn view(&self) -> AssignerModel {
        AssignerModel {
            names: views(self.names@),
            loading: self.loading,
            loaded: self.loaded,
            seq: self.seq,
            error: opt_view(self.error),
        }
    }
}

/// Names that were never fetched.
pub open spec fn initial_assigners() -> AssignerModel {
    AssignerModel { names: seq![], loading: false, loaded: false, seq: 0, error: None }
}

impl Default for AssignerOptions {
    fn default() -> (r: AssignerOptions)
        ensures
            r@ == initial_assigners(),
    {
        AssignerOptions {
            names: Vec::new(),
            loading: false,
            loaded: false,
            seq: 0,
            error: None,
        }
    }
}

// --- overlays ------------------------------------------------------------------------

pub enum DetailContent {
    Vuln(Vulnerability),
    Advisory(Advisory),
}

/// The model of [`DetailContent`].
#[verifier::ext_equal]
pub enum DetailContentView {
    Vuln(VulnerabilityView),
    Advisory(AdvisoryView),
}

impl View for DetailContent {
    type V = DetailContentView;

    open spec fn view(&self) -> DetailContentView {
        match self {
            DetailContent::Vuln(v) => DetailContentView::Vuln(v@),
            DetailContent::Advisory(a) => DetailContentView::Advisory(a@),
        }
    }
}

/// The references of a record, trimmed, without blank lines.
pub open spec fn references_of(c: DetailContentView) -> Seq<Seq<char>> {
    match c {
        DetailContentView::Vuln(v) => nonblank_lines(v.references),
        DetailContentView::Advisory(a) => nonblank_lines(a.references),
    }
}

impl DetailContent {
    /// The references of the record, trimmed, without blank lines.
    pub fn references(&self) -> (r: Vec<&str>)
        ensures
            slice_views(r@) == references_of(self@),
    {
        match self {
            DetailContent::Vuln(v) => trimmed_lines(v.references.as_str()),
            DetailContent::Advisory(a) => trimmed_lines(a.references.as_str()),
        }
    }
}

pub struct DetailState {
    pub content: DetailContent,
    pub scroll: u16,
    /// Set while the full record is being fetched in the background.
    pub enriching: bool,
}

/// The model of a [`DetailState`].
#[verifier::ext_equal]
pub struct DetailModel {
    pub content: DetailContentView,
    pub scroll: u16,
    pub enriching: bool,
}

impl View for DetailState {
    type V = DetailModel;

    open spec fn view(&self) -> DetailModel {
        DetailModel {
            content: self.content@,
            scroll: self.scroll,
            enriching: self.enriching,
        }
    }
}

pub enum Overlay {
    /// No overlay is open.
    Hidden,
    Help { scroll: u16 },
    Detail(Box<DetailState>),
    /// Multiselect popup for the assigner filter; `cursor` is the highlighted
    /// option index.
    AssignerPicker { cursor: usize },
}

/// The model of an [`Overlay`].
#[verifier::ext_equal]
pub enum OverlayModel {
    Hidden,
    Help { scroll: u16 },
    Detail(DetailModel),
    AssignerPicker { cursor: usize },
}

impl View for Overlay {
    type V = OverlayModel;

    open spec fn view(&self) -> OverlayModel {
        match self {
            Overlay::Hidden => OverlayModel::Hidden,
            Overlay::Help { scroll } => OverlayModel::Help { scroll: *scroll },
            Overlay::Detail(d) => OverlayModel::Detail((**d)@),
            Overlay::AssignerPicker { cursor } => OverlayModel::AssignerPicker { cursor: *cursor },
        }
    }
}

// --- the program ---------------------------------------------------------------------

pub struct App {
    pub tab: usize,
    pub search: SearchState,
    pub feeds: [FeedState; 3],
    pub lookup: LookupState,
    pub assigner_opts: AssignerOptions,
    pub overlay: Overlay,
    pub quit: bool,
    pub tick: usize,
}

/// The model of an [`App`].
#[verifier::ext_equal]
pub struct AppModel {
    pub tab: int,
    pub search: SearchModel,
    pub feeds: Seq<FeedModel>,
    pub lookup: LookupModel,
    pub assigner_opts: AssignerModel,
    pub overlay: OverlayModel,
    pub quit: bool,
    pub tick: usize,
}

/// The models of the feeds.
pub open spec fn feed_views(v: Seq<FeedState>) -> Seq<FeedModel> {
    v.map_values(|f: FeedState| f@)
}

impl View for App {
    type V = AppModel;

    open spec fn view(&self) -> AppModel {
        AppModel {
            tab: self.tab as int,
            search: self.search@,
            feeds: feed_views(self.feeds@),
            lookup: self.lookup@,
            assigner_opts: self.assigner_opts@,
            overlay: self.overlay@,
            quit: self.quit,
            tick: self.tick,
        }
    }
}

/// The program at its start.
pub open spec fn initial_app() -> AppModel {
    AppModel {
        tab: DEFAULT_TAB as int,
        search: initial_search(),
        feeds: seq![initial_feed(), initial_feed(), initial_feed()],
        lookup: initial_lookup(),
        assigner_opts: initial_assigners(),
        overlay: OverlayModel::Hidden,
        quit: false,
        tick: 0,
    }
}

/// The time, if any, is a time of the day.
pub open spec fn valid_time(t: Option<ClockTime>) -> bool {
    match t {
        Some(c) => c.valid(),
        None => true,
    }
}

/// The edit cursor of the Search tab is within the field that has the focus.
pub open spec fn search_cursor_within(m: SearchModel) -> bool {
    match m.focus {
        SearchFocus::Filters(i) => i < N_FILTERS && 0 <= m.cursor <= len_of(m, i as int),
        SearchFocus::Results => true,
    }
}

/// The state is one that the program can be in: there is such a tab, the edit
/// cursors are within their texts, and the assigner picker is open only over the
/// assigner field.
pub open spec fn well_formed(m: AppModel) -> bool {
    &&& 0 <= m.tab < N_TABS
    &&& m.search.fields.len() == N_FILTERS - 1
    &&& m.feeds.len() == N_FEEDS
    &&& search_cursor_within(m.search)
    &&& 0 <= m.lookup.cursor <= m.lookup.input.len()
    &&& m.overlay is AssignerPicker && m.search.focus is Filters ==> m.search.focus
        == SearchFocus::Filters(FILTER_ASSIGNER)
    &&& valid_time(m.search.last_updated)
    &&& valid_time(m.lookup.last_updated)
    &&& forall|i: int| 0 <= i < m.feeds.len() ==> valid_time(#[trigger] m.feeds[i].last_updated)
}

/// No counter is at the end of its range, and no text is as long as a text can be.
pub open spec fn has_room(m: AppModel) -> bool {
    &&& m.search.seq < u64::MAX
    &&& m.lookup.seq < u64::MAX
    &&& m.assigner_opts.seq < u64::MAX
    &&& m.lookup.input.len() < usize::MAX
    &&& forall|i: int| 0 <= i < m.feeds.len() ==> (#[trigger] m.feeds[i]).seq < u64::MAX
    &&& forall|i: int|
        0 <= i < m.search.fields.len() ==> (#[trigger] m.search.fields[i]).len() < usize::MAX
}

/// Every selection is a row of its list.
pub open spec fn selections_within(m: AppModel) -> bool {
    &&& selection_within(m.search.table, m.search.items.len())
    &&& forall|i: int|
        0 <= i < m.feeds.len() ==> selection_within(
            (#[trigger] m.feeds[i]).table,
            m.feeds[i].items.len(),
        )
}

// --- what the program asks for -----------------------------------------------------------

/// Something that the program asks for. What comes back is a [`Fetched`], except
/// for the address that is to be opened.
pub enum Request {
    Search { seq: u64, query: SearchQuery },
    Feed { idx: usize, seq: u64 },
    /// The full record for the detail view.
    Enrich { id: String },
    LookupVuln { seq: u64, id: String },
    LookupAdvisory { seq: u64, id: String },
    Assigners { seq: u64 },
    /// Show the address in the browser.
    OpenUrl { url: String },
}

/// The model of a [`Request`].
#[verifier::ext_equal]
pub enum RequestView {
    Search { seq: u64, query: SearchQueryView },
    Feed { idx: int, seq: u64 },
    Enrich { id: Seq<char> },
    LookupVuln { seq: u64, id: Seq<char> },
    LookupAdvisory { seq: u64, id: Seq<char> },
    Assigners { seq: u64 },
    OpenUrl { url: Seq<char> },
}

impl View for Request {
    type V = RequestView;

    open spec fn view(&self) -> RequestView {
        match self {
            Request::Search { seq, query } => RequestView::Search { seq: *seq, query: query@ },
            Request::Feed { idx, seq } => RequestView::Feed { idx: *idx as int, seq: *seq },
            Request::Enrich { id } => RequestView::Enrich { id: id@ },
            Request::LookupVuln { seq, id } => RequestView::LookupVuln { seq: *seq, id: id@ },
            Request::LookupAdvisory { seq, id } => RequestView::LookupAdvisory {
                seq: *seq,
                id: id@,
            },
            Request::Assigners { seq } => RequestView::Assigners { seq: *seq },
            Request::OpenUrl { url } => RequestView::OpenUrl { url: url@ },
        }
    }
}

/// The model of an optional request.
pub open spec fn request_view(r: Option<Request>) -> Option<RequestView> {
    match r {
        Some(q) => Some(q@),
        None => None,
    }
}

/// The call of the API that answers a request. Opening an address calls nothing.
pub open spec fn call_of(r: RequestView) -> Option<GetView> {
    match r {
        RequestView::Search { seq, query } => Some(
            GetView { path: "/search"@, params: crate::api::params_of(query) },
        ),
        RequestView::Feed { idx, seq } => Some(
            GetView { path: FEED_PATHS@[idx]@, params: seq![] },
        ),
        RequestView::Enrich { id } => Some(
            GetView { path: "/enisaid"@, params: seq![("id"@, crate::text::trimmed(id))] },
        ),
        RequestView::LookupVuln { seq, id } => Some(
            GetView { path: "/enisaid"@, params: seq![("id"@, crate::text::trimmed(id))] },
        ),
        RequestView::LookupAdvisory { seq, id } => Some(
            GetView { path: "/advisory"@, params: seq![("id"@, crate::text::trimmed(id))] },
        ),
        RequestView::Assigners { seq } => Some(
            GetView { path: "/assigners/names"@, params: seq![] },
        ),
        RequestView::OpenUrl { url } => None,
    }
}

/// The view of an optional call.
pub open spec fn get_view(g: Option<Get>) -> Option<GetView> {
    match g {
        Some(x) => Some(x@),
        None => None,
    }
}

impl Request {
    /// The call of the API that answers the request.
    pub fn call(&self) -> (r: Option<Get>)
        requires
            self matches Request::Feed { idx, .. } ==> idx < N_FEEDS,
        ensures
            get_view(r) == call_of(self@),
    {
        match self {
            Request::Search { seq, query } => Some(Get::search(query)),
            Request::Feed { idx, seq } => {
                let paths: [&'static str; 3] = FEED_PATHS;
                Some(Get::feed(paths[*idx]))
            },
            Request::Enrich { id } => Some(Get::by_enisa_id(id.as_str())),
            Request::LookupVuln { seq, id } => Some(Get::by_enisa_id(id.as_str())),
            Request::LookupAdvisory { seq, id } => Some(Get::advisory(id.as_str())),
            Request::Assigners { seq } => Some(Get::assigner_names()),
            Request::OpenUrl { url } => None,
        }
    }
}

/// Messages sent back by whoever carries out the requests.
#[allow(inconsistent_fields)]
pub enum Fetched {
    Search { seq: u64, page: u32, result: ApiResult<SearchResponse> },
    Feed { idx: usize, seq: u64, result: ApiResult<Vec<Vulnerability>> },
    /// Full record for the detail view (list rows lack product/version data).
    Enrich { id: String, result: ApiResult<Vulnerability> },
    LookupVuln { seq: u64, result: ApiResult<Vulnerability> },
    LookupAdvisory { seq: u64, result: ApiResult<Advisory> },
    Assigners { seq: u64, result: ApiResult<Vec<String>> },
}

} // verus!
