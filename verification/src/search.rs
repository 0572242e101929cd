//! The state of the Search tab: its filters, its results and its paging.

use vstd::prelude::*;
use vstd::string::*;

use crate::api::{SearchQuery, SearchQueryView, Vulnerability};
use crate::clock::ClockTime;
use crate::dates::{is_iso_date, iso_date};
use crate::number::{parse_u32, unsigned};
use crate::pieces::{comma_entries, join, join_strings, split_entries, to_strings};
use crate::score::{copy_score, opt_score, zero_to, Score, ScoreView};
use crate::table::TableState;
use crate::text::{eq_ignore_ascii_case, opt_view, same_ignoring_case, trim, trimmed, views};

verus! {

pub const PAGE_SIZE: u32 = 50;

pub const FILTER_ASSIGNER: usize = 3;

pub const FILTER_FROM_DATE: usize = 4;

pub const FILTER_TO_DATE: usize = 5;

pub const FILTER_EXPLOITED: usize = 6;

pub const FILTER_CVSS_MIN: usize = 7;

pub const FILTER_CVSS_MAX: usize = 8;

pub const FILTER_EPSS_MIN: usize = 9;

pub const FILTER_EPSS_MAX: usize = 10;

pub const N_FILTERS: usize = 11;

/// Filter fields on the Search tab, in navigation order.
pub const FILTER_LABELS: [&'static str; 11] = [
    "Text",
    "Vendor",
    "Product",
    "Assigner",
    "From date",
    "To date",
    "Exploited",
    "CVSS min",
    "CVSS max",
    "EPSS% min",
    "EPSS% max",
];

#[derive(Clone, Copy, Debug, PartialEq, Eq, Structural)]
pub enum SearchFocus {
    Filters(usize),
    Results,
}

pub struct SearchState {
    /// Values for every filter except the exploited tri-state; indexed via
    /// [`field_slot`].
    pub fields: [String; 10],
    /// Char position of the edit cursor within the focused filter field.
    pub cursor: usize,
    pub exploited: Option<bool>,
    pub focus: SearchFocus,
    /// Hides the filter sidebar so the results use the full width. Focusing
    /// the filters re-expands it.
    pub filters_collapsed: bool,
    pub items: Vec<Vulnerability>,
    pub total: u64,
    pub page: u32,
    pub table: TableState,
    pub loading: bool,
    pub seq: u64,
    pub error: Option<String>,
    pub searched: bool,
    /// When the current results were fetched.
    pub last_updated: Option<ClockTime>,
}

/// The model of a [`SearchState`].
#[verifier::ext_equal]
pub struct SearchModel {
    pub fields: Seq<Seq<char>>,
    pub cursor: int,
    pub exploited: Option<bool>,
    pub focus: SearchFocus,
    pub filters_collapsed: bool,
    pub items: Seq<Vulnerability>,
    pub total: u64,
    pub page: u32,
    pub table: TableState,
    pub loading: bool,
    pub seq: u64,
    pub error: Option<Seq<char>>,
    pub searched: bool,
    pub last_updated: Option<ClockTime>,
}

impl View for SearchState {
    type V = SearchModel;

    open spec fn view(&self) -> SearchModel {
        SearchModel {
            fields: views(self.fields@),
            cursor: self.cursor as int,
            exploited: self.exploited,
            focus: self.focus,
            filters_collapsed: self.filters_collapsed,
            items: self.items@,
            total: self.total,
            page: self.page,
            table: self.table,
            loading: self.loading,
            seq: self.seq,
            error: opt_view(self.error),
            searched: self.searched,
            last_updated: self.last_updated,
        }
    }
}

/// The state before anything was typed or fetched.
pub open spec fn initial_search() -> SearchModel {
    SearchModel {
        fields: Seq::new(10, |i: int| Seq::<char>::empty()),
        cursor: 0,
        exploited: None,
        focus: SearchFocus::Results,
        filters_collapsed: true,
        items: seq![],
        total: 0,
        page: 0,
        table: TableState { selected: None, offset: 0 },
        loading: false,
        seq: 0,
        error: None,
        searched: false,
        last_updated: None,
    }
}

impl Default for SearchState {
    fn default() -> (r: SearchState)
        ensures
            r@ == initial_search(),
    {
        let r = SearchState {
            fields: [
                String::new(),
                String::new(),
                String::new(),
                String::new(),
                String::new(),
                String::new(),
                String::new(),
                String::new(),
                String::new(),
                String::new(),
            ],
            cursor: 0,
            exploited: None,
            focus: SearchFocus::Results,
            filters_collapsed: true,
            items: Vec::new(),
            total: 0,
            page: 0,
            table: TableState::new(),
            loading: false,
            seq: 0,
            error: None,
            searched: false,
            last_updated: None,
        };
        assert(r@.fields =~= initial_search().fields);
        r
    }
}

// --- filters -----------------------------------------------------------------------------

/// The slot of a filter in the fields: the exploited tri-state has none, and the
/// filters after it move up by one.
pub open spec fn slot_of(filter: int) -> Option<int> {
    if filter < FILTER_EXPLOITED {
        Some(filter)
    } else if filter == FILTER_EXPLOITED {
        None
    } else {
        Some(filter - 1)
    }
}

/// Maps a filter index (0..N_FILTERS) to its slot in `fields`, skipping the
/// exploited tri-state.
pub fn field_slot(filter: usize) -> (r: Option<usize>)
    ensures
        r == match slot_of(filter as int) {
            Some(s) => Some(s as usize),
            None => None,
        },
{
    if filter < FILTER_EXPLOITED {
        Some(filter)
    } else if filter == FILTER_EXPLOITED {
        None
    } else {
        Some(filter - 1)
    }
}

/// Different filters have different slots, and every slot is that of a filter.
pub proof fn slots_are_one_to_one(a: int, b: int, slot: int)
    requires
        0 <= a < N_FILTERS,
        0 <= b < N_FILTERS,
        0 <= slot < N_FILTERS - 1,
    ensures
        slot_of(a) == slot_of(b) ==> a == b,
        slot_of(a) is Some ==> 0 <= slot_of(a).unwrap() < N_FILTERS - 1,
        exists|f: int| 0 <= f < N_FILTERS && #[trigger] slot_of(f) == Some(slot),
{
    if slot < FILTER_EXPLOITED {
        assert(slot_of(slot) == Some(slot));
    } else {
        assert(slot_of(slot + 1) == Some(slot));
    }
}

/// The text of a filter that has one.
pub open spec fn field_of(m: SearchModel, filter: int) -> Option<Seq<char>> {
    match slot_of(filter) {
        Some(s) => Some(m.fields[s]),
        None => None,
    }
}

/// The number of characters of a filter's text, 0 for the exploited tri-state.
pub open spec fn len_of(m: SearchModel, filter: int) -> int {
    match field_of(m, filter) {
        Some(t) => t.len() as int,
        None => 0,
    }
}

/// What is entered in a filter: its text without the white space around it.
pub open spec fn entry(m: SearchModel, filter: int) -> Seq<char> {
    match field_of(m, filter) {
        Some(t) => trimmed(t),
        None => seq![],
    }
}

/// The names entered in the assigner field.
pub open spec fn assigners_of(m: SearchModel) -> Seq<Seq<char>> {
    comma_entries(m.fields[FILTER_ASSIGNER as int])
}

/// The first entry that is `name` up to the case of ASCII letters is the one at `p`.
pub open spec fn first_named(entries: Seq<Seq<char>>, name: Seq<char>, p: int) -> bool {
    &&& 0 <= p < entries.len()
    &&& same_ignoring_case(entries[p], name)
    &&& forall|i: int| 0 <= i < p ==> !same_ignoring_case(#[trigger] entries[i], name)
}

/// The position of the first entry that is `name` up to the case of ASCII letters,
/// or the number of entries.
pub open spec fn position(entries: Seq<Seq<char>>, name: Seq<char>) -> int
    decreases entries.len(),
{
    if entries.len() == 0 || same_ignoring_case(entries[0], name) {
        0
    } else {
        1 + position(entries.drop_first(), name)
    }
}

/// The entries with `name` taken out where it is one of them, else put in last.
pub open spec fn toggled(entries: Seq<Seq<char>>, name: Seq<char>) -> Seq<Seq<char>> {
    let at = position(entries, name);
    if at < entries.len() {
        entries.remove(at)
    } else {
        entries.push(name)
    }
}

/// The state after `name` was toggled in the assigner field.
pub open spec fn toggle_step(m: SearchModel, name: Seq<char>) -> SearchModel {
    let text = join(toggled(assigners_of(m), name), ","@);
    SearchModel {
        fields: m.fields.update(FILTER_ASSIGNER as int, text),
        cursor: text.len() as int,
        ..m
    }
}

/// The number of result pages. The total is taken modulo 2^32; there is always one
/// page.
pub open spec fn pages(total: u64) -> nat {
    let records = (total % 0x1_0000_0000) as nat;
    if records == 0 {
        1
    } else {
        (records + PAGE_SIZE as nat - 1) as nat / PAGE_SIZE as nat
    }
}

pub proof fn lemma_position(entries: Seq<Seq<char>>, name: Seq<char>)
    ensures
        0 <= position(entries, name) <= entries.len(),
        position(entries, name) < entries.len() ==> same_ignoring_case(
            entries[position(entries, name)],
            name,
        ),
        forall|i: int|
            0 <= i < position(entries, name) ==> !same_ignoring_case(#[trigger] entries[i], name),
    decreases entries.len(),
{
    if entries.len() > 0 && !same_ignoring_case(entries[0], name) {
        let rest = entries.drop_first();
        lemma_position(rest, name);
        assert forall|i: int| 0 <= i < position(entries, name) implies !same_ignoring_case(
            #[trigger] entries[i],
            name,
        ) by {
            if i > 0 {
                assert(entries[i] == rest[i - 1]);
            }
        }
    }
}

// --- scores that were entered --------------------------------------------------------------

/// What the two CVSS fields read as: a number each, or none where the text is no
/// number.
pub struct ScoreInputs {
    pub min: Option<Score>,
    pub max: Option<Score>,
}

/// The model of [`ScoreInputs`].
#[verifier::ext_equal]
pub struct ScoreInputsView {
    pub min: Option<ScoreView>,
    pub max: Option<ScoreView>,
}

impl View for ScoreInputs {
    type V = ScoreInputsView;

    open spec fn view(&self) -> ScoreInputsView {
        ScoreInputsView { min: opt_score(self.min), max: opt_score(self.max) }
    }
}

// --- the query -----------------------------------------------------------------------------

/// A date that was entered, or the complaint about it.
pub open spec fn date_entry(m: SearchModel, filter: int) -> Result<Seq<char>, Seq<char>> {
    let v = entry(m, filter);
    if v.len() > 0 && !iso_date(v) {
        Err(FILTER_LABELS@[filter]@ + " must be YYYY-MM-DD"@)
    } else {
        Ok(v)
    }
}

/// A CVSS bound that was entered, or the complaint about it.
pub open spec fn score_entry(
    m: SearchModel,
    filter: int,
    reading: Option<ScoreView>,
) -> Result<Option<ScoreView>, Seq<char>> {
    if entry(m, filter).len() == 0 {
        Ok(None)
    } else if reading is Some && zero_to(reading.unwrap().bits, 10) {
        Ok(reading)
    } else {
        Err(FILTER_LABELS@[filter]@ + " must be a number 0-10"@)
    }
}

/// An EPSS bound that was entered, or the complaint about it.
pub open spec fn epss_entry(m: SearchModel, filter: int) -> Result<Option<u32>, Seq<char>> {
    let v = entry(m, filter);
    if v.len() == 0 {
        Ok(None)
    } else if unsigned(v) is Some && unsigned(v).unwrap() <= 100 {
        Ok(Some(unsigned(v).unwrap() as u32))
    } else {
        Err(FILTER_LABELS@[filter]@ + " must be an integer 0-100"@)
    }
}

/// The query that the filters make, or the complaint about the first filter that is
/// not filled in properly.
pub open spec fn query_of(m: SearchModel, page: u32, scores: ScoreInputsView) -> Result<
    SearchQueryView,
    Seq<char>,
> {
    let from_date = date_entry(m, FILTER_FROM_DATE as int);
    let to_date = date_entry(m, FILTER_TO_DATE as int);
    let from_score = score_entry(m, FILTER_CVSS_MIN as int, scores.min);
    let to_score = score_entry(m, FILTER_CVSS_MAX as int, scores.max);
    let from_epss = epss_entry(m, FILTER_EPSS_MIN as int);
    let to_epss = epss_entry(m, FILTER_EPSS_MAX as int);
    if from_date is Err {
        Err(from_date->Err_0)
    } else if to_date is Err {
        Err(to_date->Err_0)
    } else if from_score is Err {
        Err(from_score->Err_0)
    } else if to_score is Err {
        Err(to_score->Err_0)
    } else if from_epss is Err {
        Err(from_epss->Err_0)
    } else if to_epss is Err {
        Err(to_epss->Err_0)
    } else {
        Ok(
            SearchQueryView {
                text: entry(m, 0),
                vendor: entry(m, 1),
                product: entry(m, 2),
                assigners: assigners_of(m),
                from_date: from_date->Ok_0,
                to_date: to_date->Ok_0,
                from_score: from_score->Ok_0,
                to_score: to_score->Ok_0,
                from_epss: from_epss->Ok_0,
                to_epss: to_epss->Ok_0,
                exploited: m.exploited,
                page,
                size: PAGE_SIZE,
            },
        )
    }
}

/// The view of a query or a complaint.
pub open spec fn query_view(r: Result<SearchQuery, String>) -> Result<SearchQueryView, Seq<char>> {
    match r {
        Ok(q) => Ok(q@),
        Err(e) => Err(e@),
    }
}

/// A complaint about a filter.
fn complaint(filter: usize, what: &str) -> (r: String)
    requires
        filter < N_FILTERS,
    ensures
        r@ == FILTER_LABELS@[filter as int]@ + what@,
{
    let labels: [&'static str; 11] = FILTER_LABELS;
    let mut r = labels[filter].to_owned();
    r.append(what);
    r
}

impl SearchState {
    /// The text of a filter; none for the exploited tri-state.
    pub fn field(&self, filter: usize) -> (r: Option<&str>)
        requires
            filter < N_FILTERS,
        ensures
            crate::api::opt_slice(r) == field_of(self@, filter as int),
    {
        match field_slot(filter) {
            Some(s) => Some(self.fields[s].as_str()),
            None => None,
        }
    }

    /// Character count of a filter's value (0 for the exploited tri-state).
    pub fn char_len(&self, filter: usize) -> (r: usize)
        requires
            filter < N_FILTERS,
        ensures
            r == len_of(self@, filter as int),
    {
        match self.field(filter) {
            Some(t) => t.unicode_len(),
            None => 0,
        }
    }

    /// Parsed entries of the comma-separated assigner field.
    pub fn assigner_entries(&self) -> (r: Vec<String>)
        ensures
            views(r@) == assigners_of(self@),
    {
        to_strings(&split_entries(self.fields[FILTER_ASSIGNER].as_str()))
    }

    /// Adds `name` to the assigner field if absent, removes it otherwise.
    /// Custom entries typed by the user are preserved.
    pub fn toggle_assigner(&mut self, name: &str)
        ensures
            final(self)@ == toggle_step(old(self)@, name@),
            forall|p: int| #[trigger]
                first_named(comma_entries(old(self).fields@[3]@), name@, p) ==> comma_entries(
                    final(self).fields@[3]@,
                ) == comma_entries(old(self).fields@[3]@).take(p) + comma_entries(
                    old(self).fields@[3]@,
                ).skip(p + 1),
            (forall|i: int|
                0 <= i < comma_entries(old(self).fields@[3]@).len() ==> !same_ignoring_case(
                    #[trigger] comma_entries(old(self).fields@[3]@)[i],
                    name@,
                )) ==> final(self).fields@[3]@ == join(
                comma_entries(old(self).fields@[3]@) + seq![name@],
                ","@,
            ),
    {
        proof {
            let before = comma_entries(self.fields@[3]@);
            assert(self@.fields[3] == self.fields@[3]@);
            assert forall|p: int| #[trigger] first_named(before, name@, p) implies comma_entries(
                toggle_step(self@, name@).fields[3],
            ) == before.take(p) + before.skip(p + 1) by {
                crate::query_laws::toggled_entries_read_back(self@, name@, p, 0);
            }
            if forall|i: int|
                0 <= i < before.len() ==> !same_ignoring_case(#[trigger] before[i], name@) {
                crate::query_laws::toggling_takes_out_or_puts_in(
                    self@,
                    name@,
                    before.len() as int,
                );
            }
        }
        let mut entries = self.assigner_entries();
        let ghost all = views(entries@);
        let mut at: usize = 0;
        assert(all.skip(0) == all);
        while at < entries.len() && !eq_ignore_ascii_case(entries[at].as_str(), name)
            invariant
                at <= entries@.len(),
                all == views(entries@),
                position(all, name@) == at + position(all.skip(at as int), name@),
            decreases entries@.len() - at,
        {
            proof {
                assert(all.skip(at as int)[0] == entries@[at as int]@);
                assert(all.skip(at as int).drop_first() == all.skip(at + 1));
            }
            at = at + 1;
        }
        proof {
            if at < entries@.len() {
                assert(all.skip(at as int)[0] == entries@[at as int]@);
            }
            assert(position(all.skip(at as int), name@) == 0);
        }
        if at < entries.len() {
            entries.remove(at);
            assert(views(entries@) =~= all.remove(at as int));
        } else {
            entries.push(name.to_owned());
            assert(views(entries@) =~= all.push(name@));
        }
        let text = join_strings(&entries, ",");
        self.cursor = text.as_str().unicode_len();
        self.fields[FILTER_ASSIGNER] = text;
        assert(self@.fields =~= old(self)@.fields.update(FILTER_ASSIGNER as int, text@));
    }

    /// The number of result pages.
    pub fn total_pages(&self) -> (r: u32)
        ensures
            r == pages(self.total),
            1 <= r <= 85_899_346,
    {
        let records: u32 = (self.total % 0x1_0000_0000) as u32;
        if records == 0 {
            1
        } else {
            (records - 1) / PAGE_SIZE + 1
        }
    }

    /// The texts entered as CVSS bounds, which [`ScoreInputs`] are read from.
    pub fn score_texts(&self) -> (r: (&str, &str))
        ensures
            r.0@ == entry(self@, FILTER_CVSS_MIN as int),
            r.1@ == entry(self@, FILTER_CVSS_MAX as int),
    {
        (self.entered(FILTER_CVSS_MIN), self.entered(FILTER_CVSS_MAX))
    }

    /// What is entered in a filter.
    fn entered(&self, filter: usize) -> (r: &str)
        requires
            filter < N_FILTERS,
            filter != FILTER_EXPLOITED,
        ensures
            r@ == entry(self@, filter as int),
    {
        match field_slot(filter) {
            Some(s) => trim(self.fields[s].as_str()),
            None => "",
        }
    }

    fn entered_date(&self, filter: usize) -> (r: Result<String, String>)
        requires
            filter < N_FILTERS,
            filter != FILTER_EXPLOITED,
        ensures
            match (r, date_entry(self@, filter as int)) {
                (Ok(d), Ok(e)) => d@ == e,
                (Err(d), Err(e)) => d@ == e,
                _ => false,
            },
    {
        let v = self.entered(filter);
        if !v.is_empty() && !is_iso_date(v) {
            Err(complaint(filter, " must be YYYY-MM-DD"))
        } else {
            Ok(v.to_owned())
        }
    }

    fn entered_score(&self, filter: usize, reading: &Option<Score>) -> (r: Result<
        Option<Score>,
        String,
    >)
        requires
            filter < N_FILTERS,
            filter != FILTER_EXPLOITED,
        ensures
            match (r, score_entry(self@, filter as int, opt_score(*reading))) {
                (Ok(d), Ok(e)) => opt_score(d) == e,
                (Err(d), Err(e)) => d@ == e,
                _ => false,
            },
    {
        if self.entered(filter).is_empty() {
            return Ok(None);
        }
        match reading {
            Some(s) => {
                if s.in_range() {
                    Ok(copy_score(reading))
                } else {
                    Err(complaint(filter, " must be a number 0-10"))
                }
            },
            None => Err(complaint(filter, " must be a number 0-10")),
        }
    }

    fn entered_epss(&self, filter: usize) -> (r: Result<Option<u32>, String>)
        requires
            filter < N_FILTERS,
            filter != FILTER_EXPLOITED,
        ensures
            match (r, epss_entry(self@, filter as int)) {
                (Ok(d), Ok(e)) => d == e,
                (Err(d), Err(e)) => d@ == e,
                _ => false,
            },
    {
        let v = self.entered(filter);
        if v.is_empty() {
            return Ok(None);
        }
        match parse_u32(v) {
            Some(n) => {
                if n <= 100 {
                    Ok(Some(n))
                } else {
                    Err(complaint(filter, " must be an integer 0-100"))
                }
            },
            None => Err(complaint(filter, " must be an integer 0-100")),
        }
    }

    /// The query that the filters make, or the complaint about the first filter
    /// that is not filled in properly.
    pub fn build_query(&self, page: u32, scores: &ScoreInputs) -> (r: Result<SearchQuery, String>)
        ensures
            query_view(r) == query_of(self@, page, scores@),
    {
        let from_date = match self.entered_date(FILTER_FROM_DATE) {
            Ok(v) => v,
            Err(e) => return Err(e),
        };
        let to_date = match self.entered_date(FILTER_TO_DATE) {
            Ok(v) => v,
            Err(e) => return Err(e),
        };
        let from_score = match self.entered_score(FILTER_CVSS_MIN, &scores.min) {
            Ok(v) => v,
            Err(e) => return Err(e),
        };
        let to_score = match self.entered_score(FILTER_CVSS_MAX, &scores.max) {
            Ok(v) => v,
            Err(e) => return Err(e),
        };
        let from_epss: Option<u32> = match self.entered_epss(FILTER_EPSS_MIN) {
            Ok(v) => v,
            Err(e) => return Err(e),
        };
        let to_epss: Option<u32> = match self.entered_epss(FILTER_EPSS_MAX) {
            Ok(v) => v,
            Err(e) => return Err(e),
        };
        let r = SearchQuery {
            text: self.entered(0).to_owned(),
            vendor: self.entered(1).to_owned(),
            product: self.entered(2).to_owned(),
            assigners: self.assigner_entries(),
            from_date,
            to_date,
            from_score,
            to_score,
            from_epss,
            to_epss,
            exploited: self.exploited,
            page,
            size: PAGE_SIZE,
        };
        assert(r@ == query_of(self@, page, scores@)->Ok_0);
        Ok(r)
    }
}

} // verus!
