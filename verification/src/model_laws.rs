//! Laws of the models: what a value holds is in its model, field by field.

use vstd::prelude::*;

use crate::api::{
    body_view, opt_slice, result_view, Advisory, ApiError, ApiErrorView, Get, ProductRef,
    SearchQuery, SearchQueryView, Vulnerability,
};
use crate::score::{opt_score, Score, ScoreView};
use crate::search::{query_view, ScoreInputs, SearchState};
use crate::state::{
    get_view, request_view, App, AssignerOptions, DetailContent, DetailContentView, DetailState,
    FeedState, LookupState, Overlay, OverlayModel, Request, RequestView,
};
use crate::steps::request_views;
use crate::style::{line_views, span_views, Line, Span};
use crate::text::{opt_view, slice_views, views};
use crate::ui::{
    opt_popup, Body, BodyModel, LookupScreen, Popup, SearchScreen, StatusBar, TabBar, VulnTable,
};

verus! {

/// The optional text is the one of the model.
pub open spec fn same_text(text: Option<String>, model: Option<Seq<char>>) -> bool {
    match text {
        Some(t) => model == Some(t@),
        None => model is None,
    }
}

/// The optional score is the one of the model.
pub open spec fn same_score(score: Option<Score>, model: Option<ScoreView>) -> bool {
    match score {
        Some(s) => model is Some && model->0.bits == s.bits && model->0.text == s.text@
            && model->0.tenths == s.tenths@ && model->0.hundredths == s.hundredths@,
        None => model is None,
    }
}

// --- records -----------------------------------------------------------------------------

/// The model of a vulnerability holds what the vulnerability holds.
pub proof fn vulnerabilities_are_modelled(v: Vulnerability)
    ensures
        v@.id == v.id@,
        v@.description == v.description@,
        v@.date_published == v.date_published@,
        v@.date_updated == v.date_updated@,
        same_score(v.base_score, v@.base_score),
        same_text(v.base_score_version, v@.base_score_version),
        same_text(v.base_score_vector, v@.base_score_vector),
        v@.references == v.references@,
        v@.aliases == v.aliases@,
        v@.assigner == v.assigner@,
        same_score(v.epss, v@.epss),
        v@.products.len() == v.products@.len(),
        forall|i: int| 0 <= i < v.products@.len() ==> #[trigger] v@.products[i] == v.products@[i]@,
        v@.vendors.len() == v.vendors@.len(),
        forall|i: int|
            0 <= i < v.vendors@.len() ==> (#[trigger] v@.vendors[i]).vendor.name
                == v.vendors@[i].vendor.name@,
{
}

/// The model of an advisory holds what the advisory holds.
pub proof fn advisories_are_modelled(a: Advisory)
    ensures
        a@.id == a.id@,
        a@.description == a.description@,
        a@.summary == a.summary@,
        a@.date_published == a.date_published@,
        a@.date_updated == a.date_updated@,
        same_score(a.base_score, a@.base_score),
        a@.references == a.references@,
        a@.aliases == a.aliases@,
        a.source is Some <==> a@.source is Some,
        a.source is Some ==> a@.source->0.name == a.source->0.name@,
        a@.products.len() == a.products@.len(),
        forall|i: int| 0 <= i < a.products@.len() ==> #[trigger] a@.products[i] == a.products@[i]@,
{
}

/// The model of a product holds its name, its vendor and its version.
pub proof fn products_are_modelled(p: ProductRef)
    ensures
        p@.product.name == p.product.name@,
        p.product.vendor is Some <==> p@.product.vendor is Some,
        p.product.vendor is Some ==> p@.product.vendor->0.name == p.product.vendor->0.name@,
        same_text(p.product_version, p@.product_version),
{
}

/// The models of errors, calls and queries hold what these hold.
pub proof fn calls_are_modelled(e: ApiError, g: Get, q: SearchQuery)
    ensures
        e@ == match e {
            ApiError::Http(t) => ApiErrorView::Http(t@),
            ApiError::NotFound => ApiErrorView::NotFound,
            ApiError::Parse(t) => ApiErrorView::Parse(t@),
        },
        g@.path == g.path@,
        g@.params.len() == g.params@.len(),
        forall|i: int|
            0 <= i < g.params@.len() ==> #[trigger] g@.params[i] == (
                g.params@[i].0@,
                g.params@[i].1@,
            ),
        q@.text == q.text@,
        q@.vendor == q.vendor@,
        q@.product == q.product@,
        q@.assigners.len() == q.assigners@.len(),
        forall|i: int|
            0 <= i < q.assigners@.len() ==> #[trigger] q@.assigners[i] == q.assigners@[i]@,
        q@.from_date == q.from_date@,
        q@.to_date == q.to_date@,
        same_score(q.from_score, q@.from_score),
        same_score(q.to_score, q@.to_score),
        q@.from_epss == q.from_epss,
        q@.to_epss == q.to_epss,
        q@.exploited == q.exploited,
        q@.page == q.page,
        q@.size == q.size,
{
}

// --- the state ---------------------------------------------------------------------------

/// The model of the Search tab holds what the tab holds.
pub proof fn the_search_tab_is_modelled(s: SearchState, scores: ScoreInputs)
    ensures
        s@.fields.len() == 10,
        forall|i: int| 0 <= i < 10 ==> #[trigger] s@.fields[i] == s.fields@[i]@,
        s@.cursor == s.cursor,
        s@.exploited == s.exploited,
        s@.focus == s.focus,
        s@.filters_collapsed == s.filters_collapsed,
        s@.items == s.items@,
        s@.total == s.total,
        s@.page == s.page,
        s@.table == s.table,
        s@.loading == s.loading,
        s@.seq == s.seq,
        same_text(s.error, s@.error),
        s@.searched == s.searched,
        s@.last_updated == s.last_updated,
        same_score(scores.min, scores@.min),
        same_score(scores.max, scores@.max),
{
}

/// The models of a feed, of the Lookup tab and of the assigners hold what these hold.
pub proof fn the_other_tabs_are_modelled(f: FeedState, l: LookupState, o: AssignerOptions)
    ensures
        f@.items == f.items@,
        f@.table == f.table,
        f@.loading == f.loading,
        f@.loaded == f.loaded,
        f@.seq == f.seq,
        same_text(f.error, f@.error),
        f@.last_updated == f.last_updated,
        l@.input == l.input@,
        l@.cursor == l.cursor,
        l@.editing == l.editing,
        l@.loading == l.loading,
        l@.seq == l.seq,
        same_text(l.error, l@.error),
        l@.last_updated == l.last_updated,
        o@.names.len() == o.names@.len(),
        forall|i: int| 0 <= i < o.names@.len() ==> #[trigger] o@.names[i] == o.names@[i]@,
        o@.loading == o.loading,
        o@.loaded == o.loaded,
        o@.seq == o.seq,
        same_text(o.error, o@.error),
{
}

/// The model of the program holds its tabs, its popup and the rest.
pub proof fn the_program_is_modelled(app: App, d: DetailState)
    ensures
        app@.tab == app.tab,
        app@.search == app.search@,
        app@.feeds.len() == 3,
        forall|i: int| 0 <= i < 3 ==> #[trigger] app@.feeds[i] == app.feeds@[i]@,
        app@.lookup == app.lookup@,
        app@.assigner_opts == app.assigner_opts@,
        app@.quit == app.quit,
        app@.tick == app.tick,
        app@.overlay == match app.overlay {
            Overlay::Hidden => OverlayModel::Hidden,
            Overlay::Help { scroll } => OverlayModel::Help { scroll },
            Overlay::Detail(shown) => OverlayModel::Detail((*shown)@),
            Overlay::AssignerPicker { cursor } => OverlayModel::AssignerPicker { cursor },
        },
        d@.content == match d.content {
            DetailContent::Vuln(v) => DetailContentView::Vuln(v@),
            DetailContent::Advisory(a) => DetailContentView::Advisory(a@),
        },
        d@.scroll == d.scroll,
        d@.enriching == d.enriching,
{
}

/// The model of a request holds what is asked for.
pub proof fn requests_are_modelled(r: Request)
    ensures
        r@ == match r {
            Request::Search { seq, query } => RequestView::Search { seq, query: query@ },
            Request::Feed { idx, seq } => RequestView::Feed { idx: idx as int, seq },
            Request::Enrich { id } => RequestView::Enrich { id: id@ },
            Request::LookupVuln { seq, id } => RequestView::LookupVuln { seq, id: id@ },
            Request::LookupAdvisory { seq, id } => RequestView::LookupAdvisory { seq, id: id@ },
            Request::Assigners { seq } => RequestView::Assigners { seq },
            Request::OpenUrl { url } => RequestView::OpenUrl { url: url@ },
        },
{
}

// --- the screen --------------------------------------------------------------------------

/// The models of a span, of a line and of lines hold their texts and styles, in order.
pub proof fn texts_are_modelled(span: Span, line: Line, rows: Vec<Line>)
    ensures
        span@.text == span.text@,
        span@.style == span.style,
        line@.len() == line.spans@.len(),
        forall|i: int| 0 <= i < line.spans@.len() ==> #[trigger] line@[i] == line.spans@[i]@,
        line_views(rows@).len() == rows@.len(),
        forall|i: int| 0 <= i < rows@.len() ==> #[trigger] line_views(rows@)[i] == rows@[i]@,
{
}

/// The models of what the screen shows hold its titles, borders, texts and places.
pub proof fn screens_are_modelled(
    bar: TabBar,
    table: VulnTable,
    search: SearchScreen,
    lookup: LookupScreen,
    popup: Popup,
    status: StatusBar,
    body: Body,
)
    ensures
        bar@.titles.len() == bar.titles@.len(),
        forall|i: int| 0 <= i < bar.titles@.len() ==> #[trigger] bar@.titles[i] == bar.titles@[i]@,
        bar@.selected == bar.selected,
        bar@.updated == bar.updated@,
        bar@.updated_width == bar.updated_width,
        table@.title == table.title@,
        table@.border == table.border,
        table@.rows == line_views(table.rows@),
        search.sidebar is Some <==> search@.sidebar is Some,
        search.sidebar is Some ==> search@.sidebar->0 == line_views(search.sidebar->0@),
        search@.sidebar_border == search.sidebar_border,
        search@.table == search.table@,
        lookup@.title == lookup.title@,
        lookup@.border == lookup.border,
        lookup@.input == lookup.input@,
        lookup@.help == line_views(lookup.help@),
        popup@.area == popup.area,
        popup@.title == popup.title@,
        popup@.lines == line_views(popup.lines@),
        popup@.wrapped == popup.wrapped,
        popup@.scroll == popup.scroll,
        popup@.scrollbar == popup.scrollbar,
        status@.hints == status.hints@,
        status@.message == status.message@,
        status@.message_width == status.message_width,
        body@ == match body {
            Body::Search { screen, .. } => BodyModel::Search(screen@),
            Body::Feed { table: shown, .. } => BodyModel::Feed(shown@),
            Body::Lookup { screen, .. } => BodyModel::Lookup(screen@),
        },
{
}

// --- lists and options -------------------------------------------------------------------

/// The models of texts are the texts, one by one, and those of spans and requests likewise.
pub proof fn lists_are_modelled(
    texts: Seq<String>,
    slices: Seq<&str>,
    spans: Seq<Span>,
    requests: Seq<Request>,
    i: int,
)
    ensures
        views(texts).len() == texts.len(),
        0 <= i < texts.len() ==> views(texts)[i] == texts[i]@,
        slice_views(slices).len() == slices.len(),
        0 <= i < slices.len() ==> slice_views(slices)[i] == slices[i]@,
        span_views(spans).len() == spans.len(),
        0 <= i < spans.len() ==> span_views(spans)[i] == spans[i]@,
        request_views(requests).len() == requests.len(),
        0 <= i < requests.len() ==> request_views(requests)[i] == requests[i]@,
{
}

/// The model of what may be there or not, or may have failed, is that of what is there.
pub proof fn options_are_modelled(
    text: Option<String>,
    slice: Option<&str>,
    score: Option<Score>,
    request: Option<Request>,
    call: Option<Get>,
    popup: Option<Popup>,
)
    ensures
        same_text(text, opt_view(text)),
        slice is Some <==> opt_slice(slice) is Some,
        slice is Some ==> opt_slice(slice)->0 == slice->0@,
        same_score(score, opt_score(score)),
        request is Some <==> request_view(request) is Some,
        request is Some ==> request_view(request)->0 == request->0@,
        call is Some <==> get_view(call) is Some,
        call is Some ==> get_view(call)->0 == call->0@,
        popup is Some <==> opt_popup(popup) is Some,
        popup is Some ==> opt_popup(popup)->0 == popup->0@,
{
}

/// The model of an outcome is that of the value or that of the error.
pub proof fn outcomes_are_modelled(
    query: Result<SearchQuery, String>,
    body: Result<String, String>,
    reply: Result<String, ApiError>,
)
    ensures
        query matches Ok(q) ==> query_view(query) == Ok::<SearchQueryView, Seq<char>>(q@),
        query matches Err(e) ==> query_view(query) == Err::<SearchQueryView, Seq<char>>(e@),
        body matches Ok(b) ==> body_view(body) == Ok::<Seq<char>, Seq<char>>(b@),
        body matches Err(e) ==> body_view(body) == Err::<Seq<char>, Seq<char>>(e@),
        reply matches Ok(b) ==> result_view(reply) == Ok::<Seq<char>, ApiErrorView>(b@),
        reply matches Err(e) ==> result_view(reply) == Err::<Seq<char>, ApiErrorView>(e@),
{
}

} // verus!
