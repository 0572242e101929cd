use euvd::api::{Advisory, ApiError, SearchResponse, Vulnerability};
use euvd::clock::ClockTime;
use euvd::state::{App, DetailContent, DetailState, Fetched, Overlay};

fn now() -> ClockTime {
    ClockTime::new(7, 12, 24, 0).unwrap()
}

fn app() -> App {
    let mut app = App::new();
    for f in &mut app.feeds {
        f.loaded = true;
    }
    app
}

fn vuln(id: &str) -> Vulnerability {
    Vulnerability {
        id: id.into(),
        ..Default::default()
    }
}

#[test]
fn search_response_updates_state() {
    let mut app = app();
    app.search.loading = true;
    app.on_fetched(
        Fetched::Search {
            seq: 0,
            page: 2,
            result: Ok(SearchResponse {
                items: vec![vuln("a"), vuln("b")],
                total: 123,
            }),
        },
        now(),
    );

    let s = &app.search;
    assert!(!s.loading);
    assert_eq!(s.items.len(), 2);
    assert_eq!(s.total, 123);
    assert_eq!(s.page, 2);
    assert_eq!(s.table.selected(), Some(0));
    assert!(s.last_updated.is_some());
}

#[test]
fn stale_responses_are_discarded() {
    let mut app = app();
    app.search.seq = 2;
    app.search.loading = true;
    app.on_fetched(
        Fetched::Search {
            seq: 1,
            page: 0,
            result: Ok(SearchResponse {
                items: vec![vuln("stale")],
                total: 1,
            }),
        },
        now(),
    );
    assert!(app.search.loading); // still waiting for seq 2
    assert!(app.search.items.is_empty());
}

#[test]
fn search_not_found_clears_results() {
    let mut app = app();
    app.search.items = vec![vuln("old")];
    app.search.total = 1;
    app.search.table.select(Some(0));
    app.on_fetched(
        Fetched::Search {
            seq: 0,
            page: 0,
            result: Err(ApiError::NotFound),
        },
        now(),
    );

    assert!(app.search.items.is_empty());
    assert_eq!(app.search.total, 0);
    assert_eq!(app.search.table.selected(), None);
    assert!(app.search.last_updated.is_some());
}

#[test]
fn search_error_keeps_previous_results() {
    let mut app = app();
    app.search.items = vec![vuln("old")];
    app.on_fetched(
        Fetched::Search {
            seq: 0,
            page: 0,
            result: Err(ApiError::Http("HTTP 500".into())),
        },
        now(),
    );
    assert!(app.search.error.as_ref().unwrap().contains("HTTP 500"));
    assert_eq!(app.search.items.len(), 1);
}

#[test]
fn feed_response_updates_state() {
    let mut app = App::new();
    app.feeds[1].loading = true;
    app.on_fetched(
        Fetched::Feed {
            idx: 1,
            seq: 0,
            result: Ok(vec![vuln("a")]),
        },
        now(),
    );

    let f = &app.feeds[1];
    assert!(!f.loading);
    assert!(f.loaded);
    assert_eq!(f.items.len(), 1);
    assert_eq!(f.table.selected(), Some(0));
    assert!(f.last_updated.is_some());
}

#[test]
fn enrich_only_applies_to_the_open_detail() {
    let mut app = app();
    app.overlay = Overlay::Detail(Box::new(DetailState {
        content: DetailContent::Vuln(vuln("EUVD-1")),
        scroll: 0,
        enriching: true,
    }));

    // A record for a different id (e.g. after closing/reopening) is ignored.
    app.on_fetched(
        Fetched::Enrich {
            id: "EUVD-2".into(),
            result: Ok(vuln("EUVD-2")),
        },
        now(),
    );
    let Overlay::Detail(d) = &app.overlay else {
        panic!("detail overlay closed unexpectedly");
    };
    assert!(d.enriching);

    let full = Vulnerability {
        description: "full record".into(),
        ..vuln("EUVD-1")
    };
    app.on_fetched(
        Fetched::Enrich {
            id: "EUVD-1".into(),
            result: Ok(full),
        },
        now(),
    );
    let Overlay::Detail(d) = &app.overlay else {
        panic!("detail overlay closed unexpectedly");
    };
    assert!(!d.enriching);
    let DetailContent::Vuln(v) = &d.content else {
        panic!("expected a vulnerability");
    };
    assert_eq!(v.description, "full record");
}

#[test]
fn lookup_response_opens_detail() {
    let mut app = app();
    app.lookup.loading = true;
    app.on_fetched(
        Fetched::LookupVuln {
            seq: 0,
            result: Ok(vuln("EUVD-1")),
        },
        now(),
    );

    assert!(!app.lookup.loading);
    assert!(app.lookup.last_updated.is_some());
    assert!(matches!(app.overlay, Overlay::Detail(_)));
}

#[test]
fn lookup_error_is_reported() {
    let mut app = app();
    app.lookup.loading = true;
    app.on_fetched(
        Fetched::LookupVuln {
            seq: 0,
            result: Err(ApiError::NotFound),
        },
        now(),
    );

    assert!(!app.lookup.loading);
    assert!(app.lookup.error.is_some());
    assert!(matches!(app.overlay, Overlay::Hidden));
}

#[test]
fn assigner_names_are_stored_once_loaded() {
    let mut app = app();
    app.assigner_opts.loading = true;
    app.on_fetched(
        Fetched::Assigners {
            seq: 0,
            result: Ok(vec!["ENISA".into()]),
        },
        now(),
    );

    let o = &app.assigner_opts;
    assert!(!o.loading);
    assert!(o.loaded);
    assert_eq!(o.names, ["ENISA"]);
}

#[test]
fn failed_assigners_can_be_fetched_again() {
    let mut app = app();
    app.assigner_opts.loading = true;
    app.on_fetched(
        Fetched::Assigners {
            seq: 0,
            result: Err(ApiError::Parse("EOF".into())),
        },
        now(),
    );
    assert!(!app.assigner_opts.loading);
    assert!(!app.assigner_opts.loaded);
    assert_eq!(
        app.assigner_opts.error.as_deref(),
        Some("unexpected response: EOF")
    );
}

#[test]
fn advisories_open_as_details() {
    let mut app = app();
    app.lookup.loading = true;
    app.on_fetched(
        Fetched::LookupAdvisory {
            seq: 0,
            result: Ok(Advisory {
                id: "oxas-adv-2024-0002".into(),
                ..Default::default()
            }),
        },
        now(),
    );
    let Overlay::Detail(d) = &app.overlay else {
        panic!("expected the details");
    };
    assert!(!d.enriching);
    let DetailContent::Advisory(a) = &d.content else {
        panic!("expected an advisory");
    };
    assert_eq!(a.id, "oxas-adv-2024-0002");
    assert_eq!(app.lookup.last_updated, Some(now()));
}

#[test]
fn failed_feeds_report_their_error() {
    let mut app = App::new();
    app.feeds[2].loading = true;
    app.feeds[2].items = vec![vuln("old")];
    app.on_fetched(
        Fetched::Feed {
            idx: 2,
            seq: 0,
            result: Err(ApiError::Http("timeout".into())),
        },
        now(),
    );
    let f = &app.feeds[2];
    assert!(!f.loading);
    assert!(f.loaded);
    assert_eq!(f.items.len(), 1);
    assert_eq!(f.error.as_deref(), Some("request failed: timeout"));
}

#[test]
fn failed_enrichment_keeps_the_row() {
    let mut app = app();
    app.overlay = Overlay::Detail(Box::new(DetailState {
        content: DetailContent::Vuln(vuln("EUVD-1")),
        scroll: 3,
        enriching: true,
    }));
    app.on_fetched(
        Fetched::Enrich {
            id: "EUVD-1".into(),
            result: Err(ApiError::NotFound),
        },
        now(),
    );
    let Overlay::Detail(d) = &app.overlay else {
        panic!("detail overlay closed unexpectedly");
    };
    assert!(!d.enriching);
    assert_eq!(d.scroll, 3);
}

#[test]
fn times_are_shown_with_two_digits() {
    let shown = |h, m, s, n| ClockTime::new(h, m, s, n).unwrap().text();
    assert_eq!(shown(7, 12, 24, 0), "07:12:24");
    assert_eq!(shown(23, 59, 59, 999_999_999), "23:59:59");
    assert_eq!(shown(0, 0, 0, 1), "00:00:00");
    assert_eq!(shown(12, 30, 59, 1_500_000_000), "12:30:60");
}

#[test]
fn times_out_of_the_day_are_refused() {
    assert!(ClockTime::new(24, 0, 0, 0).is_none());
    assert!(ClockTime::new(0, 60, 0, 0).is_none());
    assert!(ClockTime::new(0, 0, 60, 0).is_none());
    assert!(ClockTime::new(0, 0, 0, 2_000_000_000).is_none());
    assert!(ClockTime::new(0, 0, 58, 1_000_000_000).is_none());
}

#[test]
fn stale_replies_of_every_kind_are_discarded() {
    let mut app = App::new();
    app.feeds[0].seq = 2;
    app.feeds[0].loading = true;
    app.lookup.seq = 2;
    app.lookup.loading = true;
    app.assigner_opts.seq = 2;
    app.assigner_opts.loading = true;
    app.on_fetched(
        Fetched::Feed {
            idx: 0,
            seq: 1,
            result: Ok(vec![vuln("stale")]),
        },
        now(),
    );
    app.on_fetched(
        Fetched::LookupVuln {
            seq: 1,
            result: Ok(vuln("stale")),
        },
        now(),
    );
    app.on_fetched(
        Fetched::LookupAdvisory {
            seq: 3,
            result: Ok(Advisory::default()),
        },
        now(),
    );
    app.on_fetched(
        Fetched::Assigners {
            seq: 1,
            result: Ok(vec!["stale".into()]),
        },
        now(),
    );
    assert!(app.feeds[0].loading && app.feeds[0].items.is_empty());
    assert!(app.lookup.loading);
    assert!(app.assigner_opts.loading && app.assigner_opts.names.is_empty());
    assert!(matches!(app.overlay, Overlay::Hidden));
    assert!(app.is_ready());
}

#[test]
fn an_empty_reply_selects_nothing() {
    let mut app = app();
    app.search.table.select(Some(0));
    app.search.table.offset = 7;
    app.on_fetched(
        Fetched::Search {
            seq: 0,
            page: 0,
            result: Ok(SearchResponse::default()),
        },
        now(),
    );
    assert_eq!(app.search.table.selected(), None);
    assert_eq!(app.search.table.offset, 0);
}
