//! Laws of the filters, the query that they make, and what is asked of the API.

use vstd::prelude::*;

use crate::api::{
    bool_param, meaning, number_param, params_of, reason_phrase, score_param, sent_size,
    text_param, ApiErrorView, GetView, SearchQueryView, BASE_URL,
};
use crate::number::{decimal, unsigned};
use crate::pieces::{comma_entries, join};
use crate::score::zero_to;
use crate::search::{
    lemma_position, pages, position, query_of, toggle_step, ScoreInputsView, SearchModel,
};
use crate::state::{call_of, AppModel, RequestView};
use crate::steps::{is_euvd_id, search_step, url_request};
use crate::text::{begins_with, same_ignoring_case, trimmed};
use crate::text_laws::{all_white, blank_texts_are_white, upper_case_letter_by_letter};

verus! {

// --- from the filters to the query -------------------------------------------------------

/// A query says what the filters say: every filter is in it, with the white space around
/// it taken off, and the exploited filter in each of its three values.
pub proof fn queries_say_what_the_filters_say(
    s: SearchModel,
    page: u32,
    scores: ScoreInputsView,
    q: SearchQueryView,
)
    requires
        query_of(s, page, scores) == Ok::<SearchQueryView, Seq<char>>(q),
    ensures
        q.text == trimmed(s.fields[0]),
        q.vendor == trimmed(s.fields[1]),
        q.product == trimmed(s.fields[2]),
        q.assigners == comma_entries(s.fields[3]),
        q.from_date == trimmed(s.fields[4]),
        q.to_date == trimmed(s.fields[5]),
        q.exploited == s.exploited,
        all_white(s.fields[6]) ==> q.from_score is None,
        !all_white(s.fields[6]) ==> q.from_score is Some && q.from_score == scores.min,
        all_white(s.fields[7]) ==> q.to_score is None,
        !all_white(s.fields[7]) ==> q.to_score is Some && q.to_score == scores.max,
        all_white(s.fields[8]) ==> q.from_epss is None,
        !all_white(s.fields[8]) ==> q.from_epss is Some && unsigned(trimmed(s.fields[8])) == Some(
            q.from_epss->0 as nat,
        ),
        all_white(s.fields[9]) ==> q.to_epss is None,
        !all_white(s.fields[9]) ==> q.to_epss is Some && unsigned(trimmed(s.fields[9])) == Some(
            q.to_epss->0 as nat,
        ),
        q.page == page,
        q.size == 50,
{
    blank_texts_are_white(s.fields[6]);
    blank_texts_are_white(s.fields[7]);
    blank_texts_are_white(s.fields[8]);
    blank_texts_are_white(s.fields[9]);
}

/// The text is blank or a date.
pub open spec fn fine_date(text: Seq<char>) -> bool {
    all_white(text) || crate::dates::iso_date(trimmed(text))
}

/// The text is blank or reads as a score from 0 to 10.
pub open spec fn fine_score(text: Seq<char>, reading: Option<crate::score::ScoreView>) -> bool {
    all_white(text) || reading is Some && zero_to(reading->0.bits, 10)
}

/// The text is blank or a whole number from 0 to 100.
pub open spec fn fine_percentage(text: Seq<char>) -> bool {
    all_white(text) || unsigned(trimmed(text)) is Some && unsigned(trimmed(text))->0 <= 100
}

/// There is a query where every filter is filled in properly, and only there. Else the
/// complaint names the first one that is not, and what it must be.
pub proof fn filters_are_checked_in_order(s: SearchModel, page: u32, scores: ScoreInputsView)
    ensures
        query_of(s, page, scores) is Ok <==> {
            &&& fine_date(s.fields[4])
            &&& fine_date(s.fields[5])
            &&& fine_score(s.fields[6], scores.min)
            &&& fine_score(s.fields[7], scores.max)
            &&& fine_percentage(s.fields[8])
            &&& fine_percentage(s.fields[9])
        },
        query_of(s, page, scores) matches Err(e) ==> {
            if !fine_date(s.fields[4]) {
                e == "From date"@ + " must be YYYY-MM-DD"@
            } else if !fine_date(s.fields[5]) {
                e == "To date"@ + " must be YYYY-MM-DD"@
            } else if !fine_score(s.fields[6], scores.min) {
                e == "CVSS min"@ + " must be a number 0-10"@
            } else if !fine_score(s.fields[7], scores.max) {
                e == "CVSS max"@ + " must be a number 0-10"@
            } else if !fine_percentage(s.fields[8]) {
                e == "EPSS% min"@ + " must be an integer 0-100"@
            } else {
                e == "EPSS% max"@ + " must be an integer 0-100"@
            }
        },
{
    blank_texts_are_white(s.fields[4]);
    blank_texts_are_white(s.fields[5]);
    blank_texts_are_white(s.fields[6]);
    blank_texts_are_white(s.fields[7]);
    blank_texts_are_white(s.fields[8]);
    blank_texts_are_white(s.fields[9]);
}

/// A search marks the state as searching, with the next number, and hands out the query
/// of the filters; or it shows the complaint about them, and nothing else changes.
pub proof fn a_search_asks_or_complains(m: AppModel, page: u32, scores: ScoreInputsView)
    requires
        m.search.seq < u64::MAX,
    ensures
        query_of(m.search, page, scores) matches Ok(q) ==> search_step(m, page, scores) == (
            AppModel {
                search: SearchModel {
                    loading: true,
                    searched: true,
                    error: None,
                    seq: (m.search.seq + 1) as u64,
                    ..m.search
                },
                ..m
            },
            Some(RequestView::Search { seq: (m.search.seq + 1) as u64, query: q }),
        ),
        query_of(m.search, page, scores) matches Err(e) ==> search_step(m, page, scores) == (
            AppModel { search: SearchModel { error: Some(e), ..m.search }, ..m },
            None::<RequestView>,
        ),
{
}

// --- from the query to the parameters ----------------------------------------------------

/// The names of the parameters, in the order in which they are sent.
pub open spec fn param_names() -> Seq<Seq<char>> {
    seq![
        "text"@,
        "vendor"@,
        "product"@,
        "assigner"@,
        "fromDate"@,
        "toDate"@,
        "fromScore"@,
        "toScore"@,
        "fromEpss"@,
        "toEpss"@,
        "exploited"@,
        "page"@,
        "size"@,
    ]
}

/// The value that the query has for the `k`-th of the names, if it has one.
pub open spec fn param_value(q: SearchQueryView, k: int) -> Option<Seq<char>> {
    let text = |t: Seq<char>|
        if all_white(t) {
            None::<Seq<char>>
        } else {
            Some(trimmed(t))
        };
    let number = |n: Option<u32>|
        match n {
            Some(x) => Some(decimal(x as nat)),
            None => None::<Seq<char>>,
        };
    if k == 0 {
        text(q.text)
    } else if k == 1 {
        text(q.vendor)
    } else if k == 2 {
        text(q.product)
    } else if k == 3 {
        text(join(q.assigners, ","@))
    } else if k == 4 {
        text(q.from_date)
    } else if k == 5 {
        text(q.to_date)
    } else if k == 6 {
        match q.from_score {
            Some(x) => Some(x.text),
            None => None,
        }
    } else if k == 7 {
        match q.to_score {
            Some(x) => Some(x.text),
            None => None,
        }
    } else if k == 8 {
        number(q.from_epss)
    } else if k == 9 {
        number(q.to_epss)
    } else if k == 10 {
        if q.exploited == Some(true) {
            Some("true"@)
        } else if q.exploited == Some(false) {
            Some("false"@)
        } else {
            None
        }
    } else if k == 11 {
        Some(decimal(q.page as nat))
    } else {
        Some(
            decimal(
                if q.size == 0 {
                    1
                } else if q.size > 100 {
                    100
                } else {
                    q.size as nat
                },
            ),
        )
    }
}

/// The number of values among the first `k` names.
pub open spec fn values_before(q: SearchQueryView, k: int) -> int
    decreases k,
{
    if k <= 0 {
        0
    } else {
        values_before(q, k - 1) + if param_value(q, k - 1) is Some {
            1int
        } else {
            0
        }
    }
}

/// Every value of a query is sent under its name, in the order of the names, and nothing
/// else is sent: the parameter for a name stands behind as many others as there are
/// values for the names before it.
pub proof fn parameters_say_what_the_query_says(q: SearchQueryView, k: int)
    requires
        0 <= k < 13,
    ensures
        params_of(q).len() == values_before(q, 13),
        param_value(q, k) is Some ==> 0 <= values_before(q, k) < params_of(q).len() && params_of(
            q,
        )[values_before(q, k)] == (param_names()[k], param_value(q, k)->0),
{
    blank_texts_are_white(q.text);
    blank_texts_are_white(q.vendor);
    blank_texts_are_white(q.product);
    blank_texts_are_white(join(q.assigners, ","@));
    blank_texts_are_white(q.from_date);
    blank_texts_are_white(q.to_date);
    let p0 = text_param("text"@, q.text);
    let p1 = text_param("vendor"@, q.vendor);
    let p2 = text_param("product"@, q.product);
    let p3 = text_param("assigner"@, join(q.assigners, ","@));
    let p4 = text_param("fromDate"@, q.from_date);
    let p5 = text_param("toDate"@, q.to_date);
    let p6 = score_param("fromScore"@, q.from_score);
    let p7 = score_param("toScore"@, q.to_score);
    let p8 = number_param("fromEpss"@, q.from_epss);
    let p9 = number_param("toEpss"@, q.to_epss);
    let p10 = bool_param("exploited"@, q.exploited);
    let p11 = seq![("page"@, decimal(q.page as nat))];
    let p12 = seq![("size"@, decimal(sent_size(q.size)))];
    let s0 = p0;
    let s1 = s0 + p1;
    let s2 = s1 + p2;
    let s3 = s2 + p3;
    let s4 = s3 + p4;
    let s5 = s4 + p5;
    let s6 = s5 + p6;
    let s7 = s6 + p7;
    let s8 = s7 + p8;
    let s9 = s8 + p9;
    let s10 = s9 + p10;
    let s11 = s10 + p11;
    let s12 = s11 + p12;
    assert(params_of(q) == s12);
    reveal_with_fuel(values_before, 2);
    assert(values_before(q, 0) == 0);
    assert(values_before(q, 1) == s0.len());
    assert(values_before(q, 2) == s1.len());
    assert(values_before(q, 3) == s2.len());
    assert(values_before(q, 4) == s3.len());
    assert(values_before(q, 5) == s4.len());
    assert(values_before(q, 6) == s5.len());
    assert(values_before(q, 7) == s6.len());
    assert(values_before(q, 8) == s7.len());
    assert(values_before(q, 9) == s8.len());
    assert(values_before(q, 10) == s9.len());
    assert(values_before(q, 11) == s10.len());
    assert(values_before(q, 12) == s11.len());
    assert(values_before(q, 13) == s12.len());
    if param_value(q, k) is Some {
        let at = values_before(q, k);
        let here = (param_names()[k], param_value(q, k)->0);
        if k == 0 {
            assert(s0[at] == here);
        } else if k == 1 {
            assert(s1[at] == here);
        } else if k == 2 {
            assert(s2[at] == here);
        } else if k == 3 {
            assert(s3[at] == here);
        } else if k == 4 {
            assert(s4[at] == here);
        } else if k == 5 {
            assert(s5[at] == here);
        } else if k == 6 {
            assert(s6[at] == here);
        } else if k == 7 {
            assert(s7[at] == here);
        } else if k == 8 {
            assert(s8[at] == here);
        } else if k == 9 {
            assert(s9[at] == here);
        } else if k == 10 {
            assert(s10[at] == here);
        } else if k == 11 {
            assert(s11[at] == here);
        } else {
            assert(s12[at] == here);
        }
    }
}

/// What tells the names apart: their lengths, and where two are as long, a character.
proof fn lemma_names_differ(i: int, j: int)
    requires
        0 <= i < 13,
        0 <= j < 13,
        param_names()[i] == param_names()[j],
    ensures
        i == j,
{
    reveal_strlit("text");
    reveal_strlit("vendor");
    reveal_strlit("product");
    reveal_strlit("assigner");
    reveal_strlit("fromDate");
    reveal_strlit("toDate");
    reveal_strlit("fromScore");
    reveal_strlit("toScore");
    reveal_strlit("fromEpss");
    reveal_strlit("toEpss");
    reveal_strlit("exploited");
    reveal_strlit("page");
    reveal_strlit("size");
    let n = param_names();
    assert(n[0].len() == 4 && n[11].len() == 4 && n[12].len() == 4);
    assert(n[0][0] == 't' && n[11][0] == 'p' && n[12][0] == 's');
    assert(n[1].len() == 6 && n[5].len() == 6 && n[9].len() == 6);
    assert(n[1][2] == 'n' && n[5][2] == 'D' && n[9][2] == 'E');
    assert(n[2].len() == 7 && n[7].len() == 7);
    assert(n[2][0] == 'p' && n[7][0] == 't');
    assert(n[3].len() == 8 && n[4].len() == 8 && n[8].len() == 8);
    assert(n[3][4] == 'g' && n[4][4] == 'D' && n[8][4] == 'E');
    assert(n[6].len() == 9 && n[10].len() == 9);
    assert(n[6][0] == 'f' && n[10][0] == 'e');
}

/// A query is sent with a name and a value where it has that value for that name, and
/// only there. So no name is sent twice.
pub proof fn parameters_stand_for_values(q: SearchQueryView, k: int, value: Seq<char>)
    requires
        0 <= k < 13,
    ensures
        params_of(q).contains((param_names()[k], value)) <==> param_value(q, k) == Some(value),
        forall|i: int, j: int|
            0 <= i < params_of(q).len() && 0 <= j < params_of(q).len() && (#[trigger] params_of(
                q,
            )[i]).0 == (#[trigger] params_of(q)[j]).0 ==> i == j,
{
    let ps = params_of(q);
    parameters_say_what_the_query_says(q, k);
    if param_value(q, k) == Some(value) {
        assert(ps[values_before(q, k)] == (param_names()[k], value));
    }
    if ps.contains((param_names()[k], value)) {
        let i = choose|i: int| 0 <= i < ps.len() && ps[i] == (param_names()[k], value);
        let n = lemma_sent_name(q, i);
        lemma_names_differ(n, k);
    }
    assert forall|i: int, j: int|
        0 <= i < ps.len() && 0 <= j < ps.len() && (#[trigger] ps[i]).0 == (
        #[trigger] ps[j]).0 implies i == j by {
        let n = lemma_sent_name(q, i);
        let m = lemma_sent_name(q, j);
        lemma_names_differ(n, m);
    }
}

/// The exploited filter is sent as it stands: `true` for yes, `false` for no, and not at
/// all for any.
pub proof fn the_exploited_filter_is_sent(
    s: SearchModel,
    page: u32,
    scores: ScoreInputsView,
    q: SearchQueryView,
)
    requires
        query_of(s, page, scores) == Ok::<SearchQueryView, Seq<char>>(q),
    ensures
        params_of(q).contains(("exploited"@, "true"@)) <==> s.exploited == Some(true),
        params_of(q).contains(("exploited"@, "false"@)) <==> s.exploited == Some(false),
        s.exploited is None ==> forall|i: int|
            0 <= i < params_of(q).len() ==> (#[trigger] params_of(q)[i]).0 != "exploited"@,
{
    reveal_strlit("true");
    reveal_strlit("false");
    assert("true"@.len() != "false"@.len());
    parameters_stand_for_values(q, 10, "true"@);
    parameters_stand_for_values(q, 10, "false"@);
    assert(param_names()[10] == "exploited"@);
    assert forall|i: int| 0 <= i < params_of(q).len() && s.exploited is None implies (
    #[trigger] params_of(q)[i]).0 != "exploited"@ by {
        let n = lemma_sent_name(q, i);
        if params_of(q)[i].0 == "exploited"@ {
            lemma_names_differ(n, 10);
        }
    }
}

/// Every parameter that is sent has one of the names, of which the query has a value.
proof fn lemma_sent_name(q: SearchQueryView, i: int) -> (k: int)
    requires
        0 <= i < params_of(q).len(),
    ensures
        0 <= k < 13,
        param_value(q, k) is Some,
        values_before(q, k) == i,
        params_of(q)[i] == (param_names()[k], param_value(q, k)->0),
{
    parameters_say_what_the_query_says(q, 0);
    let k = lemma_slot(q, i, 13);
    parameters_say_what_the_query_says(q, k);
    k
}

proof fn lemma_slot(q: SearchQueryView, i: int, n: int) -> (k: int)
    requires
        0 <= i < values_before(q, n),
        0 <= n <= 13,
    ensures
        0 <= k < n,
        param_value(q, k) is Some,
        values_before(q, k) == i,
    decreases n,
{
    if i < values_before(q, n - 1) {
        lemma_slot(q, i, n - 1)
    } else {
        n - 1
    }
}

// --- calls -------------------------------------------------------------------------------

/// Each request is answered by one endpoint of the API, which gets the ids without the
/// white space around them. Opening an address calls nothing.
pub proof fn requests_go_to_their_endpoints(seq: u64, id: Seq<char>, q: SearchQueryView)
    ensures
        BASE_URL@ == "https://euvdservices.enisa.europa.eu/api"@,
        call_of(RequestView::Search { seq, query: q }) == Some(
            GetView { path: "/search"@, params: params_of(q) },
        ),
        call_of(RequestView::Feed { idx: 0, seq }) == Some(
            GetView { path: "/lastvulnerabilities"@, params: seq![] },
        ),
        call_of(RequestView::Feed { idx: 1, seq }) == Some(
            GetView { path: "/exploitedvulnerabilities"@, params: seq![] },
        ),
        call_of(RequestView::Feed { idx: 2, seq }) == Some(
            GetView { path: "/criticalvulnerabilities"@, params: seq![] },
        ),
        call_of(RequestView::Enrich { id }) == Some(
            GetView { path: "/enisaid"@, params: seq![("id"@, trimmed(id))] },
        ),
        call_of(RequestView::LookupVuln { seq, id }) == Some(
            GetView { path: "/enisaid"@, params: seq![("id"@, trimmed(id))] },
        ),
        call_of(RequestView::LookupAdvisory { seq, id }) == Some(
            GetView { path: "/advisory"@, params: seq![("id"@, trimmed(id))] },
        ),
        call_of(RequestView::Assigners { seq }) == Some(
            GetView { path: "/assigners/names"@, params: seq![] },
        ),
        call_of(RequestView::OpenUrl { url: id }) is None,
{
}

/// An id is one of the EUVD where its first five characters are `EUVD-`, in whatever
/// case.
pub proof fn euvd_ids_begin_with_euvd(id: Seq<char>)
    ensures
        is_euvd_id(id) <==> {
            &&& id.len() >= 5
            &&& (id[0] == 'E' || id[0] == 'e')
            &&& (id[1] == 'U' || id[1] == 'u')
            &&& (id[2] == 'V' || id[2] == 'v')
            &&& (id[3] == 'D' || id[3] == 'd')
            &&& id[4] == '-'
        },
{
    reveal_strlit("EUVD-");
    let upper = crate::text::ascii_upper_text(id);
    if id.len() >= 5 {
        upper_case_letter_by_letter(id, 0);
        upper_case_letter_by_letter(id, 1);
        upper_case_letter_by_letter(id, 2);
        upper_case_letter_by_letter(id, 3);
        upper_case_letter_by_letter(id, 4);
        if begins_with(upper, "EUVD-"@) {
            let front = upper.subrange(0, 5);
            assert(front[0] == 'E' && front[1] == 'U' && front[2] == 'V' && front[3] == 'D'
                && front[4] == '-');
        }
        if upper[0] == 'E' && upper[1] == 'U' && upper[2] == 'V' && upper[3] == 'D' && upper[4]
            == '-' {
            assert(upper.subrange(0, 5) =~= "EUVD-"@);
        }
    }
}

/// An address is opened as it is where it begins with `http://` or `https://`, and not at
/// all otherwise.
pub proof fn web_addresses_are_opened_as_they_are(url: Seq<char>, rest: Seq<char>)
    ensures
        (url == "http://"@ + rest || url == "https://"@ + rest) ==> url_request(url) == Some(
            (RequestView::OpenUrl { url }),
        ),
        url_request(url) is Some ==> url == "http://"@ + url.skip(7) || url == "https://"@
            + url.skip(8),
        url_request(url) matches Some(r) ==> r == (RequestView::OpenUrl { url }),
{
    reveal_strlit("http://");
    reveal_strlit("https://");
    crate::text_laws::prefixes_stand_in_front(url, "http://"@, rest);
    crate::text_laws::prefixes_stand_in_front(url, "https://"@, rest);
}

// --- replies -----------------------------------------------------------------------------

/// What a reply means: a body that is not blank where the status is between 200 and 299
/// and not 204, and nothing else, is handed on, unchanged.
pub proof fn only_good_replies_are_handed_on(status: u16, body: Result<Seq<char>, Seq<char>>)
    ensures
        meaning(status, body) is Ok <==> 200 <= status <= 299 && status != 204 && body is Ok
            && !all_white(body->Ok_0),
        meaning(status, body) matches Ok(b) ==> body == Ok::<Seq<char>, Seq<char>>(b),
        status == 204 ==> meaning(status, body) == Err::<Seq<char>, ApiErrorView>(
            ApiErrorView::NotFound,
        ),
        200 <= status <= 299 && body is Ok && all_white(body->Ok_0) ==> meaning(status, body)
            == Err::<Seq<char>, ApiErrorView>(ApiErrorView::NotFound),
        status != 204 && body is Err ==> meaning(status, body) == Err::<Seq<char>, ApiErrorView>(
            ApiErrorView::Http(body->Err_0),
        ),
{
    if let Ok(b) = body {
        blank_texts_are_white(b);
    }
}

/// A failing status is reported with its number, its phrase and the body, of which no
/// more than 200 characters are shown.
pub proof fn failures_show_the_body(status: u16, body: Seq<char>, n: int)
    requires
        !(200 <= status <= 299),
        0 <= n <= body.len(),
        n == 200 || n == body.len() && n < 200,
    ensures
        meaning(status, Ok(body)) == Err::<Seq<char>, ApiErrorView>(
            ApiErrorView::Http(
                "HTTP "@ + (decimal(status as nat) + " "@ + reason_phrase(status)) + " "@
                    + body.take(n),
            ),
        ),
{
    assert(body.take(body.len() as int) =~= body);
}

// --- paging ------------------------------------------------------------------------------

/// Fifty records make a page: a page more begins with the first record that the others
/// do not hold. Of a total that is too large for 32 bits the upper bits are left out.
pub proof fn fifty_records_make_a_page(total: u64)
    ensures
        total % 0x1_0000_0000 == 0 ==> pages(total) == 1,
        total % 0x1_0000_0000 > 0 ==> (pages(total) - 1) * 50 < total % 0x1_0000_0000
            <= pages(total) * 50,
{
}

// --- assigners ---------------------------------------------------------------------------

/// Toggling a name that is among the entries, in whatever case, takes out its first
/// occurrence and nothing else. A name that is not among them is put in behind them. The
/// cursor goes to the end of the field; all else stays.
pub proof fn toggling_takes_out_or_puts_in(s: SearchModel, name: Seq<char>, p: int)
    requires
        s.fields.len() == 10,
        0 <= p <= comma_entries(s.fields[3]).len(),
        forall|i: int|
            0 <= i < p ==> !same_ignoring_case(#[trigger] comma_entries(s.fields[3])[i], name),
        p < comma_entries(s.fields[3]).len() ==> same_ignoring_case(
            comma_entries(s.fields[3])[p],
            name,
        ),
    ensures
        ({
            let before = comma_entries(s.fields[3]);
            let after = toggle_step(s, name);
            let text = after.fields[3];
            &&& p < before.len() ==> text == join(before.take(p) + before.skip(p + 1), ","@)
            &&& p == before.len() ==> text == join(before + seq![name], ","@)
            &&& after == (SearchModel {
                fields: s.fields.update(3, text),
                cursor: text.len() as int,
                ..s
            })
        }),
{
    let before = comma_entries(s.fields[3]);
    lemma_position(before, name);
    let at = position(before, name);
    if at < p {
        assert(!same_ignoring_case(before[at], name));
    }
    if p < at {
        assert(!same_ignoring_case(before[p], name));
    }
    assert(at == p);
    if p < before.len() {
        assert(before.remove(p) =~= before.take(p) + before.skip(p + 1));
    } else {
        assert(before.push(name) =~= before + seq![name]);
    }
}

/// So the entries that remain after a toggle are the others, one by one and in their
/// order, and a name that was put in is the last of them. A name reads back as it was put
/// in where it is not blank and has no comma in it and no white space around it.
pub proof fn toggled_entries_read_back(s: SearchModel, name: Seq<char>, p: int, i: int)
    requires
        s.fields.len() == 10,
        crate::laws::clean_name(name) || p < comma_entries(s.fields[3]).len(),
        0 <= p <= comma_entries(s.fields[3]).len(),
        forall|k: int|
            0 <= k < p ==> !same_ignoring_case(#[trigger] comma_entries(s.fields[3])[k], name),
        p < comma_entries(s.fields[3]).len() ==> same_ignoring_case(
            comma_entries(s.fields[3])[p],
            name,
        ),
    ensures
        ({
            let before = comma_entries(s.fields[3]);
            let after = comma_entries(toggle_step(s, name).fields[3]);
            &&& p < before.len() ==> after.len() == before.len() - 1
            &&& p < before.len() && 0 <= i < p ==> after[i] == before[i]
            &&& p < before.len() && p <= i < before.len() - 1 ==> after[i] == before[i + 1]
            &&& p < before.len() ==> after == before.take(p) + before.skip(p + 1)
            &&& p == before.len() ==> after == before + seq![name]
        }),
{
    let before = comma_entries(s.fields[3]);
    toggling_takes_out_or_puts_in(s, name, p);
    crate::laws::entries_are_clean(s.fields[3]);
    let after = if p < before.len() {
        before.take(p) + before.skip(p + 1)
    } else {
        before + seq![name]
    };
    assert forall|k: int| 0 <= k < after.len() implies crate::laws::clean_name(
        #[trigger] after[k],
    ) by {
        if p < before.len() {
            if k < p {
                assert(after[k] == before[k]);
            } else {
                assert(after[k] == before[k + 1]);
            }
        } else if k < before.len() {
            assert(after[k] == before[k]);
        }
    }
    crate::laws::clean_names_read_back(after);
}

} // verus!
