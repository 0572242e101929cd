use euvd::api::{ApiError, Vulnerability};
use euvd::app::open_url;
use euvd::clock::ClockTime;
use euvd::keys::{KeyCode, KeyEvent, KeyEventKind};
use euvd::score::Score;
use euvd::search::{field_slot, ScoreInputs, SearchFocus, FILTER_ASSIGNER, FILTER_EXPLOITED, N_FILTERS};
use euvd::state::{App, DetailContent, DetailState, Fetched, Overlay, Request, TABS, TAB_LOOKUP, TAB_SEARCH};

fn score(x: f64) -> Score {
    Score {
        bits: x.to_bits(),
        text: x.to_string(),
        tenths: format!("{x:.1}"),
        hundredths: format!("{x:.2}"),
    }
}

fn scores(app: &App) -> ScoreInputs {
    let (min, max) = app.search.score_texts();
    ScoreInputs {
        min: min.parse::<f64>().ok().map(score),
        max: max.parse::<f64>().ok().map(score),
    }
}

fn on_key(app: &mut App, key: KeyEvent) -> Option<Request> {
    assert!(app.is_ready());
    let scores = scores(app);
    let request = app.on_key(key, &scores);
    assert!(app.is_ready());
    request
}

fn press(app: &mut App, code: KeyCode) -> Option<Request> {
    on_key(app, KeyEvent::new(code))
}

fn ctrl(c: char) -> KeyEvent {
    KeyEvent::ctrl(c)
}

fn type_str(app: &mut App, s: &str) {
    for c in s.chars() {
        press(app, KeyCode::Char(c));
    }
}

/// App with all feeds marked loaded so tab switching never fetches.
fn app() -> App {
    let mut app = App::new();
    for f in &mut app.feeds {
        f.loaded = true;
    }
    app
}

fn vuln(id: &str) -> Vulnerability {
    Vulnerability {
        id: id.into(),
        ..Default::default()
    }
}

#[test]
fn release_events_are_ignored() {
    let mut app = app();
    on_key(
        &mut app,
        KeyEvent {
            code: KeyCode::Char('q'),
            control: false,
            kind: KeyEventKind::Release,
        },
    );
    assert!(!app.quit);
}

#[test]
fn repeated_keys_count_as_presses() {
    let mut app = app();
    on_key(
        &mut app,
        KeyEvent {
            code: KeyCode::Char('q'),
            control: false,
            kind: KeyEventKind::Repeat,
        },
    );
    assert!(app.quit);
}

#[test]
fn ctrl_c_quits_even_while_editing() {
    let mut app = app();
    app.tab = TAB_LOOKUP;
    app.lookup.editing = true;
    on_key(&mut app, ctrl('c'));
    assert!(app.quit);
}

#[test]
fn q_quits_on_lists_but_types_into_filters() {
    let mut on_list = app();
    press(&mut on_list, KeyCode::Char('q'));
    assert!(on_list.quit);

    let mut in_filters = app();
    in_filters.tab = TAB_SEARCH;
    in_filters.search.focus = SearchFocus::Filters(0);
    press(&mut in_filters, KeyCode::Char('q'));
    assert!(!in_filters.quit);
    assert_eq!(in_filters.search.fields[0], "q");
}

#[test]
fn tab_keys_switch_tabs() {
    let mut app = app();
    press(&mut app, KeyCode::Char('5'));
    assert_eq!(app.tab, TAB_LOOKUP);
    press(&mut app, KeyCode::Tab);
    assert_eq!(app.tab, 0);
    press(&mut app, KeyCode::BackTab);
    assert_eq!(app.tab, TABS.len() - 1);
    press(&mut app, KeyCode::Char('4'));
    assert_eq!(app.tab, TAB_SEARCH);
}

#[test]
fn feed_selection_moves_and_clamps() {
    let mut app = app();
    app.feeds[0].items = vec![vuln("a"), vuln("b"), vuln("c")];
    app.feeds[0].table.select(Some(0));

    press(&mut app, KeyCode::Char('j'));
    assert_eq!(app.feeds[0].table.selected(), Some(1));
    press(&mut app, KeyCode::Char('G'));
    assert_eq!(app.feeds[0].table.selected(), Some(2));
    press(&mut app, KeyCode::Char('j'));
    assert_eq!(app.feeds[0].table.selected(), Some(2));
    press(&mut app, KeyCode::Char('g'));
    assert_eq!(app.feeds[0].table.selected(), Some(0));
    press(&mut app, KeyCode::Char('k'));
    assert_eq!(app.feeds[0].table.selected(), Some(0));
}

#[test]
fn selection_is_a_noop_on_an_empty_list() {
    let mut app = app();
    press(&mut app, KeyCode::Char('j'));
    assert_eq!(app.feeds[0].table.selected(), None);
}

#[test]
fn filter_editing_supports_cursor_and_multibyte() {
    let mut app = app();
    app.tab = TAB_SEARCH;
    app.search.focus = SearchFocus::Filters(0);

    type_str(&mut app, "café");
    assert_eq!(app.search.fields[0], "café");
    assert_eq!(app.search.cursor, 4);

    press(&mut app, KeyCode::Left);
    press(&mut app, KeyCode::Backspace); // removes the f
    assert_eq!(app.search.fields[0], "caé");
    press(&mut app, KeyCode::Delete); // removes the é
    assert_eq!(app.search.fields[0], "ca");

    press(&mut app, KeyCode::Home);
    assert_eq!(app.search.cursor, 0);
    press(&mut app, KeyCode::End);
    assert_eq!(app.search.cursor, 2);
    press(&mut app, KeyCode::Right); // clamped at the end
    assert_eq!(app.search.cursor, 2);

    on_key(&mut app, ctrl('u'));
    assert_eq!(app.search.fields[0], "");
    assert_eq!(app.search.cursor, 0);
}

#[test]
fn c_toggles_the_filter_sidebar() {
    let mut app = app();
    app.tab = TAB_SEARCH;
    app.search.filters_collapsed = false;

    press(&mut app, KeyCode::Char('c'));
    assert!(app.search.filters_collapsed);
    press(&mut app, KeyCode::Char('c'));
    assert!(!app.search.filters_collapsed);
}

#[test]
fn focusing_filters_expands_a_collapsed_sidebar() {
    let mut app = app();
    app.tab = TAB_SEARCH;
    app.search.filters_collapsed = true;

    press(&mut app, KeyCode::Char('/'));
    assert!(!app.search.filters_collapsed);
    assert_eq!(app.search.focus, SearchFocus::Filters(0));
}

#[test]
fn c_types_into_a_focused_filter_instead_of_collapsing() {
    let mut app = app();
    app.tab = TAB_SEARCH;
    app.search.focus = SearchFocus::Filters(0);
    app.search.filters_collapsed = false;

    press(&mut app, KeyCode::Char('c'));
    assert_eq!(app.search.fields[0], "c");
    assert!(!app.search.filters_collapsed);
}

#[test]
fn filter_focus_cycles_and_esc_returns_to_results() {
    let mut app = app();
    app.tab = TAB_SEARCH;
    app.search.focus = SearchFocus::Filters(0);
    app.search.fields[1] = "vendor".into();

    press(&mut app, KeyCode::Tab);
    assert_eq!(app.search.focus, SearchFocus::Filters(1));
    assert_eq!(app.search.cursor, 6); // cursor lands at the end

    press(&mut app, KeyCode::BackTab);
    press(&mut app, KeyCode::BackTab);
    assert_eq!(app.search.focus, SearchFocus::Filters(N_FILTERS - 1));

    press(&mut app, KeyCode::Esc);
    assert_eq!(app.search.focus, SearchFocus::Results);
}

#[test]
fn exploited_filter_cycles_tristate() {
    let mut app = app();
    app.tab = TAB_SEARCH;
    app.search.focus = SearchFocus::Filters(FILTER_EXPLOITED);

    press(&mut app, KeyCode::Char(' '));
    assert_eq!(app.search.exploited, Some(true));
    press(&mut app, KeyCode::Char(' '));
    assert_eq!(app.search.exploited, Some(false));
    press(&mut app, KeyCode::Char(' '));
    assert_eq!(app.search.exploited, None);

    press(&mut app, KeyCode::Char(' '));
    on_key(&mut app, ctrl('u'));
    assert_eq!(app.search.exploited, None);
}

#[test]
fn enter_with_invalid_filter_reports_error_and_keeps_focus() {
    let mut app = app();
    app.tab = TAB_SEARCH;
    app.search.focus = SearchFocus::Filters(4);
    app.search.fields[4] = "07/05/2026".into();

    press(&mut app, KeyCode::Enter);
    assert!(app.search.error.as_ref().unwrap().contains("From date"));
    assert_eq!(app.search.focus, SearchFocus::Filters(4));
    assert!(!app.search.loading);
    assert!(!app.search.searched);
}

#[test]
fn help_overlay_opens_scrolls_and_closes() {
    let mut app = app();
    press(&mut app, KeyCode::Char('?'));
    assert!(matches!(app.overlay, Overlay::Help { scroll: 0 }));

    press(&mut app, KeyCode::Char('j'));
    press(&mut app, KeyCode::PageDown);
    assert!(matches!(app.overlay, Overlay::Help { scroll: 11 }));
    press(&mut app, KeyCode::Char('G'));
    assert!(matches!(app.overlay, Overlay::Help { scroll: u16::MAX }));
    press(&mut app, KeyCode::Char('g'));
    assert!(matches!(app.overlay, Overlay::Help { scroll: 0 }));

    press(&mut app, KeyCode::Esc);
    assert!(matches!(app.overlay, Overlay::Hidden));
}

#[test]
fn question_mark_types_while_a_field_is_focused() {
    let mut app = app();
    app.tab = TAB_LOOKUP;
    app.lookup.editing = true;
    press(&mut app, KeyCode::Char('?'));
    assert!(matches!(app.overlay, Overlay::Hidden));
    assert_eq!(app.lookup.input, "?");
}

#[test]
fn detail_overlay_scrolls_and_closes() {
    let mut app = app();
    app.overlay = Overlay::Detail(Box::new(DetailState {
        content: DetailContent::Vuln(vuln("EUVD-1")),
        scroll: 0,
        enriching: false,
    }));

    press(&mut app, KeyCode::PageDown);
    press(&mut app, KeyCode::Char('k'));
    let Overlay::Detail(d) = &app.overlay else {
        panic!("detail overlay closed unexpectedly");
    };
    assert_eq!(d.scroll, 9);

    press(&mut app, KeyCode::Char('q'));
    assert!(matches!(app.overlay, Overlay::Hidden));
}

#[test]
fn lookup_editing_keys() {
    let mut app = app();
    app.tab = TAB_LOOKUP;

    press(&mut app, KeyCode::Char('i'));
    assert!(app.lookup.editing);
    type_str(&mut app, "euvd-1");
    assert_eq!(app.lookup.input, "euvd-1");

    press(&mut app, KeyCode::Backspace);
    assert_eq!(app.lookup.input, "euvd-");
    on_key(&mut app, ctrl('u'));
    assert_eq!(app.lookup.input, "");

    press(&mut app, KeyCode::Esc);
    assert!(!app.lookup.editing);
}

#[test]
fn lookup_with_blank_input_does_not_fetch() {
    let mut app = app();
    app.tab = TAB_LOOKUP;
    app.lookup.input = "   ".into();
    press(&mut app, KeyCode::Enter);
    assert!(!app.lookup.loading);
}

#[test]
fn assigner_picker_toggles_and_clears() {
    let mut app = app();
    app.tab = TAB_SEARCH;
    app.search.focus = SearchFocus::Filters(FILTER_ASSIGNER);
    app.assigner_opts.loaded = true; // prevents the fetch on open
    app.assigner_opts.names = ["ENISA", "CERT-PL", "MICROSOFT"].map(String::from).into();

    press(&mut app, KeyCode::Char(' '));
    assert!(matches!(app.overlay, Overlay::AssignerPicker { cursor: 0 }));

    // Navigation clamps to the option list.
    press(&mut app, KeyCode::Char('j'));
    press(&mut app, KeyCode::Char('G'));
    press(&mut app, KeyCode::Char('j'));
    assert!(matches!(app.overlay, Overlay::AssignerPicker { cursor: 2 }));

    let slot = field_slot(FILTER_ASSIGNER).unwrap();
    press(&mut app, KeyCode::Char(' '));
    assert_eq!(app.search.fields[slot], "MICROSOFT");
    press(&mut app, KeyCode::Char(' '));
    assert_eq!(app.search.fields[slot], "");

    press(&mut app, KeyCode::Char(' '));
    on_key(&mut app, ctrl('u'));
    assert_eq!(app.search.fields[slot], "");

    press(&mut app, KeyCode::Esc);
    assert!(matches!(app.overlay, Overlay::Hidden));
}

#[test]
fn picker_asks_for_the_names_once() {
    let mut app = app();
    app.tab = TAB_SEARCH;
    app.search.focus = SearchFocus::Filters(FILTER_ASSIGNER);
    match press(&mut app, KeyCode::Char(' ')) {
        Some(Request::Assigners { seq: 1 }) => {}
        _ => panic!("expected a request for the names"),
    }
    assert!(app.assigner_opts.loading);
    press(&mut app, KeyCode::Esc);
    assert!(press(&mut app, KeyCode::Char(' ')).is_none());
}

#[test]
fn start_asks_for_every_tab() {
    let mut app = App::new();
    assert!(app.is_ready());
    let scores = scores(&app);
    let requests = app.init(&scores);
    assert_eq!(requests.len(), 4);
    assert!(matches!(&requests[0], Request::Search { seq: 1, query } if query.page == 0));
    for (idx, request) in requests[1..].iter().enumerate() {
        assert!(matches!(request, Request::Feed { idx: i, seq: 1 } if *i == idx));
        assert!(app.feeds[idx].loading);
    }
    assert!(app.search.loading);
    assert!(app.anything_loading());
    // What is being fetched is not asked for again.
    assert!(app.refresh_feed(0).is_none());
}

#[test]
fn visiting_a_feed_fetches_it_once() {
    let mut app = App::new();
    match press(&mut app, KeyCode::Char('2')) {
        Some(Request::Feed { idx: 1, seq: 1 }) => {}
        _ => panic!("expected a request for the feed"),
    }
    assert!(press(&mut app, KeyCode::Char('4')).is_none());
    app.feeds[1].loading = false;
    app.feeds[1].loaded = true;
    assert!(press(&mut app, KeyCode::Char('2')).is_none());
    // Until it is refreshed.
    match press(&mut app, KeyCode::Char('r')) {
        Some(Request::Feed { idx: 1, seq: 2 }) => {}
        _ => panic!("expected a request for the feed"),
    }
}

#[test]
fn enter_in_the_filters_searches_and_goes_to_the_results() {
    let mut app = app();
    app.tab = TAB_SEARCH;
    press(&mut app, KeyCode::Char('/'));
    type_str(&mut app, " openssl ");
    match press(&mut app, KeyCode::Enter) {
        Some(Request::Search { seq: 1, query }) => {
            assert_eq!(query.text, "openssl");
            assert_eq!(query.page, 0);
        }
        _ => panic!("expected a search"),
    }
    assert_eq!(app.search.focus, SearchFocus::Results);
    assert!(app.search.searched && app.search.loading);
}

#[test]
fn paging_stays_within_the_results() {
    let mut app = app();
    app.tab = TAB_SEARCH;
    app.search.searched = true;
    app.search.total = 120;
    app.search.page = 1;
    match press(&mut app, KeyCode::Char('n')) {
        Some(Request::Search { query, .. }) => assert_eq!(query.page, 2),
        _ => panic!("expected the next page"),
    }
    app.search.loading = false;
    app.search.page = 2;
    assert!(press(&mut app, KeyCode::Char('n')).is_none());
    match press(&mut app, KeyCode::Char('p')) {
        Some(Request::Search { query, .. }) => assert_eq!(query.page, 1),
        _ => panic!("expected the previous page"),
    }
    app.search.loading = false;
    app.search.page = 0;
    assert!(press(&mut app, KeyCode::Char('p')).is_none());
    match press(&mut app, KeyCode::Char('r')) {
        Some(Request::Search { query, .. }) => assert_eq!(query.page, 0),
        _ => panic!("expected the same page"),
    }
}

#[test]
fn lookup_detects_the_endpoint() {
    let request = |id: &str| {
        let mut app = app();
        app.tab = TAB_LOOKUP;
        app.lookup.input = id.into();
        app.lookup.cursor = id.chars().count();
        press(&mut app, KeyCode::Enter)
    };
    match request(" euvd-2026-41256 ") {
        Some(Request::LookupVuln { seq: 1, id }) => assert_eq!(id, "EUVD-2026-41256"),
        _ => panic!("expected a vulnerability"),
    }
    match request("oxas-adv-2024-0002") {
        Some(Request::LookupAdvisory { seq: 1, id }) => assert_eq!(id, "oxas-adv-2024-0002"),
        _ => panic!("expected an advisory"),
    }
    assert!(request("").is_none());
}

#[test]
fn opening_a_row_asks_for_the_full_record() {
    let mut app = app();
    app.feeds[0].items = vec![vuln("EUVD-1"), vuln("EUVD-2")];
    app.feeds[0].table.select(Some(1));
    match press(&mut app, KeyCode::Enter) {
        Some(Request::Enrich { id }) => assert_eq!(id, "EUVD-2"),
        _ => panic!("expected the full record"),
    }
    let Overlay::Detail(d) = &app.overlay else {
        panic!("expected the details");
    };
    assert!(d.enriching);
    assert_eq!(d.scroll, 0);
}

#[test]
fn references_are_opened_by_their_number() {
    let mut app = app();
    app.overlay = Overlay::Detail(Box::new(DetailState {
        content: DetailContent::Vuln(Vulnerability {
            references: "https://a\nhttp://b\nftp://c\n".into(),
            ..Default::default()
        }),
        scroll: 0,
        enriching: false,
    }));
    let opened = |r: Option<Request>| match r {
        Some(Request::OpenUrl { url }) => Some(url),
        _ => None,
    };
    assert_eq!(
        opened(press(&mut app, KeyCode::Char('1'))).as_deref(),
        Some("https://a")
    );
    assert_eq!(
        opened(press(&mut app, KeyCode::Char('o'))).as_deref(),
        Some("https://a")
    );
    assert_eq!(
        opened(press(&mut app, KeyCode::Char('2'))).as_deref(),
        Some("http://b")
    );
    // No web address, and no such reference.
    assert!(press(&mut app, KeyCode::Char('3')).is_none());
    assert!(press(&mut app, KeyCode::Char('9')).is_none());
    assert!(press(&mut app, KeyCode::Char('0')).is_none());
}

#[test]
fn only_web_addresses_are_opened() {
    assert!(open_url("http://a").is_some());
    assert!(open_url("https://a").is_some());
    assert!(open_url("file:///etc/passwd").is_none());
    assert!(open_url("HTTPS://a").is_none());
    assert!(open_url("").is_none());
}

#[test]
fn ticks_count_on() {
    let mut app = app();
    app.on_tick();
    assert_eq!(app.tick, 1);
    app.tick = usize::MAX;
    app.on_tick();
    assert_eq!(app.tick, 0);
}

#[test]
fn states_out_of_order_are_noticed() {
    let mut app = app();
    assert!(app.is_ready());
    app.tab = 5;
    assert!(!app.is_ready());
    app.tab = 0;
    app.lookup.cursor = 1;
    assert!(!app.is_ready());
    app.lookup.cursor = 0;
    app.search.focus = SearchFocus::Filters(N_FILTERS);
    assert!(!app.is_ready());
}

#[test]
fn steps_down_and_up_undo_each_other() {
    let mut app = app();
    app.feeds[0].items = vec![vuln("a"), vuln("b"), vuln("c")];
    app.feeds[0].table.select(Some(1));
    press(&mut app, KeyCode::Down);
    press(&mut app, KeyCode::Up);
    assert_eq!(app.feeds[0].table.selected(), Some(1));
    press(&mut app, KeyCode::Up);
    press(&mut app, KeyCode::Down);
    assert_eq!(app.feeds[0].table.selected(), Some(1));
}

#[test]
fn a_new_search_supersedes_the_one_under_way() {
    let mut app = app();
    app.tab = TAB_SEARCH;
    app.search.searched = true;
    let first = press(&mut app, KeyCode::Char('r'));
    let second = press(&mut app, KeyCode::Char('r'));
    assert!(matches!(first, Some(Request::Search { seq: 1, .. })));
    assert!(matches!(second, Some(Request::Search { seq: 2, .. })));
    assert_eq!(app.search.seq, 2);
}

#[test]
fn q_closes_popups() {
    let mut app = app();
    app.overlay = Overlay::AssignerPicker { cursor: 0 };
    press(&mut app, KeyCode::Char('q'));
    assert!(matches!(app.overlay, Overlay::Hidden));
    app.overlay = Overlay::Help { scroll: 0 };
    press(&mut app, KeyCode::Char('q'));
    assert!(matches!(app.overlay, Overlay::Hidden));
    assert!(!app.quit);
}

#[test]
fn backspace_takes_back_in_every_text_filter() {
    for idx in 0..N_FILTERS {
        let Some(slot) = field_slot(idx) else {
            continue;
        };
        for cursor in 0..=3 {
            let mut app = app();
            app.tab = TAB_SEARCH;
            app.search.focus = SearchFocus::Filters(idx);
            app.search.fields[slot] = "aéb".into();
            app.search.cursor = cursor;
            app.search.exploited = Some(true);
            press(&mut app, KeyCode::Char('漢'));
            assert_eq!(app.search.cursor, cursor + 1);
            press(&mut app, KeyCode::Backspace);
            assert_eq!(app.search.fields[slot], "aéb");
            assert_eq!(app.search.cursor, cursor);
            assert_eq!(app.search.focus, SearchFocus::Filters(idx));
            assert_eq!(app.search.exploited, Some(true));
        }
    }
}

#[test]
fn failed_names_are_asked_for_again() {
    let mut app = app();
    app.tab = TAB_SEARCH;
    app.search.focus = SearchFocus::Filters(FILTER_ASSIGNER);
    press(&mut app, KeyCode::Char(' '));
    app.on_fetched(
        Fetched::Assigners {
            seq: 1,
            result: Err(ApiError::NotFound),
        },
        ClockTime::new(0, 0, 0, 0).unwrap(),
    );
    press(&mut app, KeyCode::Esc);
    match press(&mut app, KeyCode::Char(' ')) {
        Some(Request::Assigners { seq: 2 }) => {}
        _ => panic!("expected a request for the names"),
    }
}

#[test]
fn a_second_refresh_does_nothing() {
    let mut app = app();
    assert!(matches!(
        app.refresh_feed(1),
        Some(Request::Feed { idx: 1, seq: 1 })
    ));
    assert!(app.refresh_feed(1).is_none());
    assert_eq!(app.feeds[1].seq, 1);
    assert!(app.feeds[1].loading && app.feeds[1].loaded);
}
