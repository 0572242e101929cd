//! Laws of what the program holds and shows after a reply, and at its start.

use vstd::prelude::*;

use crate::api::{Advisory, ApiError, SearchResponse, Vulnerability};
use crate::clock::ClockTime;
use crate::search::{query_of, ScoreInputsView, SearchFocus, SearchModel};
use crate::state::{
    initial_app, AppModel, AssignerModel, DetailContentView, DetailModel, FeedModel,
    Fetched, LookupModel, OverlayModel, RequestView,
};
use crate::steps::{init_step, loading, reply_step};
use crate::table::TableState;

verus! {

/// The message is the one that is shown for the error.
pub open spec fn tells_of(message: Option<Seq<char>>, error: ApiError) -> bool {
    match error {
        ApiError::NotFound => message == Some("no record found"@),
        ApiError::Http(t) => message == Some("request failed: "@ + t@),
        ApiError::Parse(t) => message == Some("unexpected response: "@ + t@),
    }
}

/// The first row is selected where there is one, and else none. The first row that is
/// shown stays the first one shown, unless there are no rows.
pub open spec fn at_its_first_row(before: TableState, after: TableState, rows: nat) -> bool {
    if rows == 0 {
        after.selected is None && after.offset == 0
    } else {
        after.selected == Some(0usize) && after.offset == before.offset
    }
}

// --- searches ----------------------------------------------------------------------------

/// What the latest search found takes the place of what was there, whatever page it is:
/// its records, their total and its page. The first row is selected, if there is one, and
/// the time is noted. Nothing else changes.
pub proof fn found_records_replace_the_others(
    m: AppModel,
    page: u32,
    found: SearchResponse,
    now: ClockTime,
)
    ensures
        ({
            let after = reply_step(
                m,
                Fetched::Search { seq: m.search.seq, page, result: Ok(found) },
                now,
            );
            let s = after.search;
            &&& s.items == found.items@
            &&& s.total == found.total
            &&& s.page == page
            &&& s.table.selected == Some(0usize) <==> found.items@.len() > 0
            &&& s.table.selected is None <==> found.items@.len() == 0
            &&& at_its_first_row(m.search.table, s.table, found.items@.len())
            &&& !s.loading
            &&& s.last_updated == Some(now)
            &&& after == (AppModel {
                search: SearchModel {
                    items: s.items,
                    total: s.total,
                    page: s.page,
                    table: s.table,
                    loading: s.loading,
                    last_updated: s.last_updated,
                    ..m.search
                },
                ..m
            })
        }),
{
}

/// A search that found nothing empties the list; its page stays.
pub proof fn nothing_found_empties_the_list(m: AppModel, page: u32, now: ClockTime)
    ensures
        reply_step(
            m,
            Fetched::Search { seq: m.search.seq, page, result: Err(ApiError::NotFound) },
            now,
        ) == (AppModel {
            search: SearchModel {
                items: seq![],
                total: 0,
                table: TableState { selected: None, offset: 0 },
                loading: false,
                last_updated: Some(now),
                ..m.search
            },
            ..m
        }),
{
}

/// A search that failed leaves the list as it was, and says why.
pub proof fn failed_searches_say_why(m: AppModel, page: u32, e: ApiError, now: ClockTime)
    requires
        e !is NotFound,
    ensures
        ({
            let after = reply_step(
                m,
                Fetched::Search { seq: m.search.seq, page, result: Err(e) },
                now,
            );
            &&& tells_of(after.search.error, e)
            &&& after == (AppModel {
                search: SearchModel { loading: false, error: after.search.error, ..m.search },
                ..m
            })
        }),
{
}

// --- feeds -------------------------------------------------------------------------------

/// What the latest fetch of a feed brought takes the place of what the feed held. The
/// first row is selected, if there is one, and the time is noted. Nothing else changes.
pub proof fn fetched_feeds_replace_the_others(
    m: AppModel,
    idx: usize,
    items: Vec<Vulnerability>,
    now: ClockTime,
)
    requires
        idx < m.feeds.len(),
    ensures
        ({
            let before = m.feeds[idx as int];
            let after = reply_step(
                m,
                Fetched::Feed { idx, seq: before.seq, result: Ok(items) },
                now,
            );
            let feed = after.feeds[idx as int];
            &&& at_its_first_row(before.table, feed.table, items@.len())
            &&& after == (AppModel {
                feeds: m.feeds.update(
                    idx as int,
                    FeedModel {
                        items: items@,
                        table: feed.table,
                        loading: false,
                        loaded: true,
                        last_updated: Some(now),
                        ..before
                    },
                ),
                ..m
            })
        }),
{
}

/// A feed that could not be fetched keeps what it held, and says why.
pub proof fn failed_feeds_say_why(m: AppModel, idx: usize, e: ApiError, now: ClockTime)
    requires
        idx < m.feeds.len(),
    ensures
        ({
            let before = m.feeds[idx as int];
            let after = reply_step(
                m,
                Fetched::Feed { idx, seq: before.seq, result: Err(e) },
                now,
            );
            let feed = after.feeds[idx as int];
            &&& tells_of(feed.error, e)
            &&& after == (AppModel {
                feeds: m.feeds.update(
                    idx as int,
                    FeedModel { loading: false, loaded: true, error: feed.error, ..before },
                ),
                ..m
            })
        }),
{
}

// --- records -----------------------------------------------------------------------------

/// The full form of a record takes the place of the one that is shown, if that one has the
/// same id. A failure leaves it as it is. Either way it no longer waits, and the place in
/// the text stays.
pub proof fn full_records_replace_the_shown_ones(
    m: AppModel,
    id: String,
    full: Vulnerability,
    e: ApiError,
    now: ClockTime,
)
    ensures
        ({
            let came = reply_step(m, Fetched::Enrich { id, result: Ok(full) }, now);
            let failed = reply_step(m, Fetched::Enrich { id, result: Err(e) }, now);
            match m.overlay {
                OverlayModel::Detail(d) => match d.content {
                    DetailContentView::Vuln(v) => {
                        &&& v.id == id@ ==> came == (AppModel {
                            overlay: OverlayModel::Detail(
                                DetailModel {
                                    content: DetailContentView::Vuln(full@),
                                    scroll: d.scroll,
                                    enriching: false,
                                },
                            ),
                            ..m
                        })
                        &&& v.id == id@ ==> failed == (AppModel {
                            overlay: OverlayModel::Detail(DetailModel { enriching: false, ..d }),
                            ..m
                        })
                        &&& v.id != id@ ==> came == m && failed == m
                    },
                    DetailContentView::Advisory(_) => came == m && failed == m,
                },
                _ => came == m && failed == m,
            }
        }),
{
}

/// What the latest lookup found is shown from its top, and the time is noted.
pub proof fn looked_up_records_are_shown(
    m: AppModel,
    v: Vulnerability,
    a: Advisory,
    now: ClockTime,
)
    ensures
        ({
            let lookup = LookupModel { loading: false, last_updated: Some(now), ..m.lookup };
            let seq = m.lookup.seq;
            &&& reply_step(m, Fetched::LookupVuln { seq, result: Ok(v) }, now) == (AppModel {
                lookup,
                overlay: OverlayModel::Detail(
                    DetailModel {
                        content: DetailContentView::Vuln(v@),
                        scroll: 0,
                        enriching: false,
                    },
                ),
                ..m
            })
            &&& reply_step(m, Fetched::LookupAdvisory { seq, result: Ok(a) }, now) == (AppModel {
                lookup,
                overlay: OverlayModel::Detail(
                    DetailModel {
                        content: DetailContentView::Advisory(a@),
                        scroll: 0,
                        enriching: false,
                    },
                ),
                ..m
            })
        }),
{
}

/// A lookup that failed says why, and shows nothing.
pub proof fn failed_lookups_say_why(m: AppModel, e: ApiError, now: ClockTime)
    ensures
        ({
            let seq = m.lookup.seq;
            let one = reply_step(m, Fetched::LookupVuln { seq, result: Err(e) }, now);
            let other = reply_step(m, Fetched::LookupAdvisory { seq, result: Err(e) }, now);
            &&& tells_of(one.lookup.error, e)
            &&& one == (AppModel {
                lookup: LookupModel { loading: false, error: one.lookup.error, ..m.lookup },
                ..m
            })
            &&& other == one
        }),
{
}

// --- assigners ---------------------------------------------------------------------------

/// The names that came take the place of those that were there, one by one and in their
/// order. A failure keeps them, and says why.
pub proof fn fetched_names_replace_the_others(
    m: AppModel,
    names: Vec<String>,
    e: ApiError,
    now: ClockTime,
)
    ensures
        ({
            let seq = m.assigner_opts.seq;
            let came = reply_step(m, Fetched::Assigners { seq, result: Ok(names) }, now);
            let failed = reply_step(m, Fetched::Assigners { seq, result: Err(e) }, now);
            &&& came.assigner_opts.names.len() == names@.len()
            &&& forall|i: int|
                0 <= i < names@.len() ==> #[trigger] came.assigner_opts.names[i] == names@[i]@
            &&& came == (AppModel {
                assigner_opts: AssignerModel {
                    names: came.assigner_opts.names,
                    loading: false,
                    loaded: true,
                    ..m.assigner_opts
                },
                ..m
            })
            &&& tells_of(failed.assigner_opts.error, e)
            &&& failed == (AppModel {
                assigner_opts: AssignerModel {
                    loading: false,
                    error: failed.assigner_opts.error,
                    ..m.assigner_opts
                },
                ..m
            })
        }),
{
}

/// Replies to anything but the latest request of their kind change nothing.
pub proof fn outdated_replies_change_nothing(m: AppModel, msg: Fetched, now: ClockTime)
    requires
        match msg {
            Fetched::Search { seq, .. } => seq != m.search.seq,
            Fetched::Feed { idx, seq, .. } => seq != m.feeds[idx as int].seq,
            Fetched::Enrich { .. } => m.overlay !is Detail,
            Fetched::LookupVuln { seq, .. } => seq != m.lookup.seq,
            Fetched::LookupAdvisory { seq, .. } => seq != m.lookup.seq,
            Fetched::Assigners { seq, .. } => seq != m.assigner_opts.seq,
        },
    ensures
        reply_step(m, msg, now) == m,
{
}

// --- the start ---------------------------------------------------------------------------

/// The program starts on the first feed, with empty filters behind the hidden sidebar and
/// nothing fetched, looked up or shown.
pub proof fn the_program_starts_empty()
    ensures
        ({
            let m = initial_app();
            &&& m.tab == 0
            &&& m.overlay is Hidden
            &&& !m.quit
            &&& m.tick == 0
            &&& m.feeds.len() == 3
            &&& forall|i: int|
                0 <= i < 3 ==> (#[trigger] m.feeds[i]) == (FeedModel {
                    items: seq![],
                    table: TableState { selected: None, offset: 0 },
                    loading: false,
                    loaded: false,
                    seq: 0,
                    error: None,
                    last_updated: None,
                })
            &&& m.lookup == (LookupModel {
                input: seq![],
                cursor: 0,
                editing: false,
                loading: false,
                seq: 0,
                error: None,
                last_updated: None,
            })
            &&& m.assigner_opts == (AssignerModel {
                names: seq![],
                loading: false,
                loaded: false,
                seq: 0,
                error: None,
            })
            &&& m.search.fields.len() == 10
            &&& forall|i: int| 0 <= i < 10 ==> (#[trigger] m.search.fields[i]).len() == 0
            &&& m.search == (SearchModel {
                fields: m.search.fields,
                cursor: 0,
                exploited: None,
                focus: SearchFocus::Results,
                filters_collapsed: true,
                items: seq![],
                total: 0,
                page: 0,
                table: TableState { selected: None, offset: 0 },
                loading: false,
                seq: 0,
                error: None,
                searched: false,
                last_updated: None,
            })
        }),
{
}

/// At its start the program asks for the search of its filters, if they are filled in
/// properly, and then for each of the feeds.
pub proof fn the_start_asks_for_all(m: AppModel, scores: ScoreInputsView)
    requires
        m.feeds.len() == 3,
        m.search.seq < u64::MAX,
        forall|i: int|
            0 <= i < 3 ==> !(#[trigger] m.feeds[i]).loading && m.feeds[i].seq < u64::MAX,
    ensures
        ({
            let (after, asked) = init_step(m, scores);
            let feeds = seq![
                RequestView::Feed { idx: 0, seq: (m.feeds[0].seq + 1) as u64 },
                RequestView::Feed { idx: 1, seq: (m.feeds[1].seq + 1) as u64 },
                RequestView::Feed { idx: 2, seq: (m.feeds[2].seq + 1) as u64 },
            ];
            &&& match query_of(m.search, 0, scores) {
                Ok(query) => {
                    &&& asked == seq![
                        RequestView::Search { seq: (m.search.seq + 1) as u64, query },
                    ] + feeds
                    &&& after.search == (SearchModel {
                        loading: true,
                        searched: true,
                        error: None,
                        seq: (m.search.seq + 1) as u64,
                        ..m.search
                    })
                },
                Err(e) => asked == feeds && after.search == (SearchModel {
                    error: Some(e),
                    ..m.search
                }),
            }
            &&& after.feeds.len() == 3
            &&& forall|i: int|
                0 <= i < 3 ==> (#[trigger] after.feeds[i]) == (FeedModel {
                    loading: true,
                    error: None,
                    seq: (m.feeds[i].seq + 1) as u64,
                    ..m.feeds[i]
                })
            &&& after == (AppModel { search: after.search, feeds: after.feeds, ..m })
        }),
{
    let (after, asked) = init_step(m, scores);
    assert(!m.feeds[0].loading && !m.feeds[1].loading && !m.feeds[2].loading);
}

/// Something is being fetched exactly where one of the parts waits for a reply.
pub proof fn loading_is_waiting(m: AppModel)
    requires
        m.feeds.len() == 3,
    ensures
        loading(m) <==> {
            ||| m.search.loading
            ||| m.lookup.loading
            ||| m.assigner_opts.loading
            ||| exists|i: int| 0 <= i < 3 && (#[trigger] m.feeds[i]).loading
            ||| m.overlay is Detail && m.overlay->Detail_0.enriching
        },
{
    assert(m.feeds[0].loading || m.feeds[1].loading || m.feeds[2].loading <==> exists|i: int|
        0 <= i < 3 && (#[trigger] m.feeds[i]).loading);
}

} // verus!
