use euvd::api::{
    Advisory, AdvisorySource, Product, ProductRef, Vendor, VendorRef, Vulnerability,
};
use euvd::clock::ClockTime;
use euvd::layout::Rect;
use euvd::lines::{advisory_lines, help_lines, kv, score_style, section, vuln_lines};
use euvd::score::Score;
use euvd::search::SearchFocus;
use euvd::state::{
    App, DetailContent, DetailState, Overlay, TABS, TAB_LOOKUP, TAB_SEARCH,
};
use euvd::style::{border_style, Color, Line, Style, ACCENT};
use euvd::ui::{
    column_rules, cursor_spans, draw, header_style, highlight_style, is_drawable, score_cell, scrollbar, spinner,
    table_scrollbar, Body, Screen, SPINNER,
};

fn score(x: f64) -> Score {
    Score {
        bits: x.to_bits(),
        text: x.to_string(),
        tenths: format!("{x:.1}"),
        hundredths: format!("{x:.2}"),
    }
}

fn frame(width: u16, height: u16) -> Rect {
    Rect {
        x: 0,
        y: 0,
        width,
        height,
    }
}

fn render(app: &mut App, width: u16, height: u16) -> Screen {
    assert!(app.is_ready());
    assert!(is_drawable(app, frame(width, height)));
    draw(app, frame(width, height))
}

/// The text of a line, without its styles.
fn text(line: &Line) -> String {
    line.spans.iter().map(|s| s.text.as_str()).collect()
}

fn texts(lines: &[Line]) -> Vec<String> {
    lines.iter().map(text).collect()
}

fn vuln(id: &str, cve: &str, base: Option<f64>, description: &str) -> Vulnerability {
    Vulnerability {
        id: id.into(),
        description: description.into(),
        date_published: "Jul 2, 2026, 7:12:24 AM".into(),
        date_updated: "Jul 2, 2026, 12:30:18 PM".into(),
        base_score: base.map(score),
        base_score_version: base.map(|_| "3.1".into()),
        base_score_vector: base.map(|_| "CVSS:3.1/AV:N/AC:L/PR:N/UI:N/S:U/C:N/I:N/A:H".into()),
        references: "https://example.com/advisory\nhttps://example.com/patch\n".into(),
        aliases: format!("{cve}\nGHSA-xxxx-yyyy-zzzz\n"),
        assigner: "ENISA".into(),
        epss: Some(score(1.5)),
        ..Default::default()
    }
}

fn app_with_results() -> App {
    let mut app = App::new();
    app.tab = TAB_SEARCH;
    app.search.fields[0] = "openssl".into();
    app.search.items = vec![
        vuln(
            "EUVD-2026-41256",
            "CVE-2026-33592",
            Some(9.8),
            "An unauthenticated remote attacker can exhaust server memory.",
        ),
        vuln(
            "EUVD-2026-41276",
            "CVE-2026-54430",
            Some(5.1),
            "Server-Side Request Forgery in the token resolver.",
        ),
        vuln(
            "EUVD-2026-41277",
            "CVE-2026-54431",
            None,
            "A use-after-free during PKCS#7 signature verification.",
        ),
    ];
    app.search.total = 123;
    app.search.page = 0;
    app.search.searched = true;
    app.search.focus = SearchFocus::Results;
    app.search.table.select(Some(0));
    app
}

#[test]
fn initial_screen() {
    let screen = render(&mut App::new(), 100, 30);
    assert_eq!(screen.areas.tabs, frame(100, 1));
    assert_eq!(
        screen.areas.body,
        Rect {
            y: 1,
            ..frame(100, 28)
        }
    );
    assert_eq!(
        screen.areas.status,
        Rect {
            y: 29,
            ..frame(100, 1)
        }
    );
    assert_eq!(
        screen.tabs.titles,
        ["1 Latest", "2 Latest Exploited", "3 Latest Critical", "4 Search", "5 Lookup"]
    );
    assert_eq!(screen.tabs.selected, 0);
    assert_eq!(screen.tabs.updated, "");
    assert_eq!(screen.tabs.updated_width, 0);
    let Body::Feed { table, area } = &screen.body else {
        panic!("expected a feed");
    };
    assert_eq!(*area, screen.areas.body);
    assert_eq!(
        table.title,
        " Latest · 0 records (API returns at most 8 I think) "
    );
    assert!(table.rows.is_empty());
    assert_eq!(
        screen.status.hints.text,
        " j/k move · Enter details · r refresh · 1-5/Tab tabs · ? help · q quit"
    );
    assert_eq!(screen.status.message.text, "");
    assert_eq!(screen.status_areas.left, screen.areas.status);
    assert!(screen.popup.is_none());
}

#[test]
fn filters_with_cursor_mid_text() {
    let mut app = App::new();
    app.tab = TAB_SEARCH;
    app.search.focus = SearchFocus::Filters(0);
    app.search.fields[0] = "openssl".into();
    app.search.cursor = 3;
    let screen = render(&mut app, 100, 30);
    let Body::Search { screen: s, areas } = &screen.body else {
        panic!("expected the search");
    };
    let sidebar = s.sidebar.as_ref().unwrap();
    assert_eq!(
        texts(sidebar),
        [
            format!(" Text: {:<18}  ", "openssl"),
            format!(" Vendor: {:<14}  ", ""),
            format!(" Product: {:<14}  ", ""),
            format!(" Assigner: {:<10}  ", ""),
            " From date: YYYY-MM-DD  ".to_string(),
            " To date: YYYY-MM-DD  ".to_string(),
            " Exploited: Any  ".to_string(),
            format!(" CVSS min: {:<4}  ", ""),
            format!(" CVSS max: {:<4}  ", ""),
            format!(" EPSS% min: {:<4}  ", ""),
            format!(" EPSS% max: {:<4}  ", ""),
        ]
    );
    let field = Style::field();
    let spans: Vec<(&str, Style)> = sidebar[0]
        .spans
        .iter()
        .map(|s| (s.text.as_str(), s.style))
        .collect();
    assert_eq!(
        spans,
        [
            (" ", Style::new()),
            ("Text: ", Style::faint()),
            ("ope", field),
            ("n", field.inverse()),
            ("ssl           ", field),
            ("  ", Style::new()),
        ]
    );
    assert_eq!(s.sidebar_border, border_style(true));
    assert_eq!(s.table.border, border_style(false));
    assert_eq!(s.table.title, " Results · set filters and press Enter ");
    assert_eq!(
        areas.sidebar,
        Some(Rect {
            y: 1,
            ..frame(30, 28)
        })
    );
    assert_eq!(
        areas.results,
        Rect {
            x: 30,
            y: 1,
            ..frame(70, 28)
        }
    );
}

#[test]
fn search_results() {
    let screen = render(&mut app_with_results(), 100, 30);
    let Body::Search { screen: s, areas } = &screen.body else {
        panic!("expected the search");
    };
    // The sidebar is collapsed at first: the results have the full width.
    assert!(s.sidebar.is_none());
    assert!(areas.sidebar.is_none());
    assert_eq!(areas.results, screen.areas.body);
    assert_eq!(s.table.title, " Results · 123 total · page 1/3 ");
    assert_eq!(s.table.border, border_style(true));
    let cells: Vec<Vec<&str>> = s
        .table
        .rows
        .iter()
        .map(|r| r.spans.iter().map(|c| c.text.as_str()).collect())
        .collect();
    assert_eq!(
        cells,
        [
            [
                "EUVD-2026-41256",
                "CVE-2026-33592",
                "9.8",
                "1.5%",
                "Jul 2, 2026",
                "An unauthenticated remote attacker can exhaust server memory.",
            ],
            [
                "EUVD-2026-41276",
                "CVE-2026-54430",
                "5.1",
                "1.5%",
                "Jul 2, 2026",
                "Server-Side Request Forgery in the token resolver.",
            ],
            [
                "EUVD-2026-41277",
                "CVE-2026-54431",
                "—",
                "1.5%",
                "Jul 2, 2026",
                "A use-after-free during PKCS#7 signature verification.",
            ],
        ]
    );
    assert_eq!(s.table.rows[0].spans[0].style, Style::color(ACCENT));
    assert_eq!(
        s.table.rows[0].spans[2].style,
        Style {
            bold: true,
            ..Style::color(Color::Red)
        }
    );
    assert_eq!(
        screen.status.hints.text,
        " j/k move · Enter details · n/p page · / filters · 1-5/Tab tabs · r rerun · ? help · q quit"
    );
    // Everything fits.
    assert_eq!(table_scrollbar(areas.results, 3, 0), None);
}

#[test]
fn search_results_with_scrollbar() {
    let mut app = app_with_results();
    app.search.items = (0..30)
        .map(|i| {
            vuln(
                &format!("EUVD-2026-{i:05}"),
                &format!("CVE-2026-{i:05}"),
                Some(5.0),
                "A vulnerability that pads out the results list.",
            )
        })
        .collect();
    app.search.total = 30;
    app.search.table.select(Some(0));
    let screen = render(&mut app, 100, 30);
    let Body::Search { screen: s, areas } = &screen.body else {
        panic!("expected the search");
    };
    assert_eq!(s.table.rows.len(), 30);
    assert_eq!(s.table.title, " Results · 30 total · page 1/1 ");
    let bar = table_scrollbar(areas.results, app.search.items.len(), 2).unwrap();
    // 28 rows, less two for the border and one for the header.
    assert_eq!(bar.length, 5);
    assert_eq!(bar.position, 2);
    assert_eq!(
        bar.area,
        Rect {
            y: 2,
            ..frame(100, 26)
        }
    );
}

#[test]
fn detail_overlay() {
    let mut app = app_with_results();
    let mut v = app.search.items[0].clone();
    v.products = vec![ProductRef {
        product: Product {
            name: "Open62541".into(),
            vendor: Some(Vendor {
                name: "o6 Automation GmbH".into(),
            }),
        },
        product_version: Some("1.5.0 ≤1.5.4".into()),
    }];
    v.vendors = vec![VendorRef {
        vendor: Vendor {
            name: "open62541 project".into(),
        },
    }];
    app.overlay = Overlay::Detail(Box::new(DetailState {
        content: DetailContent::Vuln(v),
        scroll: 0,
        enriching: false,
    }));
    let screen = render(&mut app, 100, 30);
    let popup = screen.popup.unwrap();
    assert_eq!(popup.title, " EUVD-2026-41256 ");
    assert_eq!(
        popup.area,
        Rect {
            x: 3,
            y: 1,
            width: 94,
            height: 28
        }
    );
    assert!(popup.wrapped);
    assert_eq!(
        texts(&popup.lines),
        [
            "      CVSS: 9.8 (v3.1)   EPSS: 1.50%",
            "    Vector: CVSS:3.1/AV:N/AC:L/PR:N/UI:N/S:U/C:N/I:N/A:H",
            "   Aliases: CVE-2026-33592 · GHSA-xxxx-yyyy-zzzz",
            "  Assigner: ENISA",
            " Published: Jul 2, 2026, 7:12:24 AM",
            "   Updated: Jul 2, 2026, 12:30:18 PM",
            "   Vendors: open62541 project",
            "",
            "Affected products",
            "  • o6 Automation GmbH — Open62541  (1.5.0 ≤1.5.4)",
            "",
            "Description",
            "An unauthenticated remote attacker can exhaust server memory.",
            "",
            "References (press 1-9 to open)",
            "   1. https://example.com/advisory",
            "   2. https://example.com/patch",
        ]
    );
    assert_eq!(popup.scrollbar, None);
    assert_eq!(
        screen.status.hints.text,
        " j/k scroll · g/G top/bottom · 1-9/o open reference · Esc/q back"
    );
}

#[test]
fn help_overlay() {
    let mut app = app_with_results();
    app.overlay = Overlay::Help { scroll: 0 };
    let screen = render(&mut app, 100, 30);
    let popup = screen.popup.unwrap();
    assert_eq!(popup.title, " Help ");
    // 15 % of 30 rows are four and a half, which count as five.
    assert_eq!(
        popup.area,
        Rect {
            x: 20,
            y: 5,
            width: 60,
            height: 21
        }
    );
    assert_eq!(popup.lines.len(), 25);
    assert_eq!(text(&popup.lines[1]), " Navigation");
    assert_eq!(text(&popup.lines[2]), "  1-5, Tab    switch tabs");
    assert_eq!(text(&popup.lines[24]), "  Ctrl-       zoom out");
    assert_eq!(screen.status.hints.text, " Esc close");
    assert_eq!(popup.scrollbar, None);
}

#[test]
fn feed_tab() {
    let mut app = App::new();
    app.tab = 0;
    app.feeds[0].items = vec![vuln(
        "EUVD-2026-41256",
        "CVE-2026-33592",
        Some(7.5),
        "An unauthenticated remote attacker can exhaust server memory.",
    )];
    app.feeds[0].loaded = true;
    app.feeds[0].table.select(Some(0));
    let screen = render(&mut app, 100, 30);
    let Body::Feed { table, .. } = &screen.body else {
        panic!("expected a feed");
    };
    assert_eq!(
        table.title,
        " Latest · 1 records (API returns at most 8 I think) "
    );
    assert_eq!(table.rows.len(), 1);
    assert_eq!(table.rows[0].spans[2].text, "7.5");
    assert_eq!(table.rows[0].spans[2].style, Style::color(Color::LightRed));
    assert_eq!(table.border, border_style(true));
}

#[test]
fn assigner_picker_overlay() {
    let mut app = App::new();
    app.tab = TAB_SEARCH;
    // One picked option plus a custom free-text entry.
    app.search.fields[3] = "CERT-PL,my-custom-cna".into();
    app.search.focus = SearchFocus::Filters(3);
    app.assigner_opts.names = ["ENISA", "NCSC-FI", "NCSC-NL", "CERT-PL", "SK-CERT"]
        .map(String::from)
        .to_vec();
    app.assigner_opts.loaded = true;
    app.overlay = Overlay::AssignerPicker { cursor: 3 };
    let screen = render(&mut app, 100, 30);
    let popup = screen.popup.unwrap();
    assert_eq!(popup.title, " Assigners ");
    assert_eq!(
        popup.area,
        Rect {
            x: 30,
            y: 11,
            width: 40,
            height: 7
        }
    );
    assert_eq!(
        texts(&popup.lines),
        [
            " [ ] ENISA ",
            " [ ] NCSC-FI ",
            " [ ] NCSC-NL ",
            " [x] CERT-PL ",
            " [ ] SK-CERT ",
        ]
    );
    assert_eq!(popup.lines[0].spans[0].style, Style::new());
    assert_eq!(
        popup.lines[3].spans[0].style,
        Style::color(ACCENT).inverse()
    );
    assert_eq!(
        screen.status.hints.text,
        " j/k move · Space toggle · Ctrl-U clear · Enter/Esc done"
    );
}

#[test]
fn lookup_tab_with_error() {
    let mut app = App::new();
    app.tab = TAB_LOOKUP;
    app.lookup.input = "EUVD-2026-41256".into();
    app.lookup.cursor = 4;
    app.lookup.editing = true;
    app.lookup.error = Some("no record found".into());
    let screen = render(&mut app, 100, 30);
    let Body::Lookup { screen: s, areas } = &screen.body else {
        panic!("expected the lookup");
    };
    assert_eq!(s.title, " Lookup id ");
    assert_eq!(s.border, border_style(true));
    let spans: Vec<(&str, Style)> = s
        .input
        .spans
        .iter()
        .map(|x| (x.text.as_str(), x.style))
        .collect();
    assert_eq!(
        spans,
        [
            ("EUVD", Style::new()),
            ("-", Style::new().inverse()),
            ("2026-41256", Style::new()),
        ]
    );
    assert_eq!(
        texts(&s.help),
        [
            "",
            "  Ids starting with EUVD- are fetched from /api/enisaid, e.g. EUVD-2026-41256",
            "  Anything else is treated as an advisory id for /api/advisory, e.g. oxas-adv-2024-0002",
            "",
            "  Enter fetches and opens the record; Esc leaves the input.",
            "",
            "  ✗ no record found",
        ]
    );
    assert_eq!(s.help[6].spans[0].style, Style::color(Color::Red));
    assert_eq!(
        areas.input,
        Rect {
            y: 1,
            ..frame(100, 3)
        }
    );
    assert_eq!(
        areas.help,
        Rect {
            y: 4,
            ..frame(100, 25)
        }
    );
    // The error stands in the status line too, as wide as it is shown.
    assert_eq!(screen.status.message.text, "✗ no record found ");
    assert_eq!(screen.status.message_width, 18);
    assert_eq!(
        screen.status_areas.right,
        Rect {
            x: 82,
            y: 29,
            ..frame(18, 1)
        }
    );
    assert_eq!(
        screen.status.hints.text,
        " type an id · Enter fetch · Esc leave input"
    );
}

#[test]
fn wide_characters_take_two_columns() {
    let mut app = App::new();
    app.tab = TAB_LOOKUP;
    app.lookup.error = Some("漢字".into());
    let screen = render(&mut app, 100, 30);
    assert_eq!(screen.status.message.text, "✗ 漢字 ");
    assert_eq!(screen.status.message_width, 7);
}

#[test]
fn last_update_is_shown_on_the_right() {
    let mut app = App::new();
    app.feeds[0].last_updated = ClockTime::new(7, 12, 24, 0);
    let screen = render(&mut app, 100, 30);
    assert_eq!(screen.tabs.updated, "last updated at 07:12:24 ");
    assert_eq!(screen.tabs.updated_width, 25);
    assert_eq!(screen.tab_areas.title, frame(8, 1));
    assert_eq!(
        screen.tab_areas.tabs,
        Rect {
            x: 8,
            ..frame(67, 1)
        }
    );
    assert_eq!(
        screen.tab_areas.updated,
        Rect {
            x: 75,
            ..frame(25, 1)
        }
    );
    // Each tab shows its own time.
    app.tab = 1;
    assert_eq!(render(&mut app, 100, 30).tabs.updated, "");
    app.tab = TAB_SEARCH;
    app.search.last_updated = ClockTime::new(23, 0, 1, 0);
    assert_eq!(
        render(&mut app, 100, 30).tabs.updated,
        "last updated at 23:00:01 "
    );
    app.tab = TAB_LOOKUP;
    app.lookup.last_updated = ClockTime::new(0, 0, 0, 0);
    assert_eq!(
        render(&mut app, 100, 30).tabs.updated,
        "last updated at 00:00:00 "
    );
}

#[test]
fn titles_tell_what_is_going_on() {
    let mut app = app_with_results();
    app.tick = 13;
    app.search.loading = true;
    let screen = render(&mut app, 100, 30);
    let Body::Search { screen: s, .. } = &screen.body else {
        panic!("expected the search");
    };
    assert_eq!(s.table.title, " Results · ⠸ searching… ");
    assert_eq!(screen.status.message.text, "⠸ loading… ");
    assert_eq!(screen.status.message.style, Style::color(Color::Yellow));

    app.tab = 1;
    app.feeds[1].loading = true;
    let screen = render(&mut app, 100, 30);
    let Body::Feed { table, .. } = &screen.body else {
        panic!("expected a feed");
    };
    assert_eq!(table.title, " Latest Exploited · ⠸ loading… ");

    app.tab = 2;
    app.feeds[2].loaded = true;
    let screen = render(&mut app, 100, 30);
    let Body::Feed { table, .. } = &screen.body else {
        panic!("expected a feed");
    };
    assert_eq!(table.title, " Latest Critical · no records ");

    app.tab = TAB_LOOKUP;
    app.lookup.loading = true;
    let screen = render(&mut app, 100, 30);
    let Body::Lookup { screen: s, .. } = &screen.body else {
        panic!("expected the lookup");
    };
    assert_eq!(s.title, " Lookup id · ⠸ fetching… ");

    app.overlay = Overlay::Detail(Box::new(DetailState {
        content: DetailContent::Vuln(app.search.items[0].clone()),
        scroll: 0,
        enriching: true,
    }));
    let screen = render(&mut app, 100, 30);
    assert_eq!(
        screen.popup.unwrap().title,
        " EUVD-2026-41256 · ⠸ fetching details… "
    );
}

#[test]
fn hints_follow_the_focus() {
    let mut app = App::new();
    app.tab = TAB_SEARCH;
    app.search.focus = SearchFocus::Filters(6);
    assert_eq!(
        render(&mut app, 100, 30).status.hints.text,
        " Space toggle · Tab/↑↓ move · Enter search · Ctrl-U reset · Esc results"
    );
    app.search.focus = SearchFocus::Filters(3);
    assert_eq!(
        render(&mut app, 100, 30).status.hints.text,
        " Space pick from list · or type names, comma-separated · Enter search · Esc results"
    );
    app.search.focus = SearchFocus::Filters(0);
    assert_eq!(
        render(&mut app, 100, 30).status.hints.text,
        " type to edit · Tab/↑↓ move · Enter search · Ctrl-U clear · Esc results"
    );
    app.tab = TAB_LOOKUP;
    assert_eq!(
        render(&mut app, 100, 30).status.hints.text,
        " i edit · Enter fetch · 1-5/Tab tabs · ? help · q quit"
    );
}

#[test]
fn picker_tells_of_errors_and_loading() {
    let mut app = App::new();
    app.tick = 1;
    app.assigner_opts.loading = true;
    app.overlay = Overlay::AssignerPicker { cursor: 0 };
    let popup = render(&mut app, 100, 30).popup.unwrap();
    assert_eq!(texts(&popup.lines), [" ⠙ fetching assigners…"]);
    app.assigner_opts.error = Some("no record found".into());
    let popup = render(&mut app, 100, 30).popup.unwrap();
    assert_eq!(texts(&popup.lines), [" ✗ no record found"]);
    app.assigner_opts.error = None;
    app.assigner_opts.loading = false;
    let popup = render(&mut app, 30, 3).popup.unwrap();
    assert!(popup.lines.is_empty());
    assert_eq!(popup.area, frame(30, 3));
}

#[test]
fn picker_needs_three_rows() {
    let mut app = App::new();
    app.overlay = Overlay::AssignerPicker { cursor: 0 };
    assert!(!is_drawable(&app, frame(100, 2)));
    assert!(is_drawable(&app, frame(100, 3)));
    app.overlay = Overlay::Hidden;
    assert!(is_drawable(&app, frame(0, 0)));
    let edge = Rect {
        x: 1,
        ..frame(u16::MAX, 1)
    };
    assert!(!is_drawable(&app, edge));
}

#[test]
fn every_size_can_be_drawn() {
    let mut app = app_with_results();
    app.search.filters_collapsed = false;
    for overlay in 0..3 {
        for tab in 0..TABS.len() {
            for size in [0u16, 1, 2, 4, 7, 12, 40, 1000] {
                app.tab = tab;
                app.overlay = match overlay {
                    0 => Overlay::Hidden,
                    1 => Overlay::Help { scroll: 7 },
                    _ => Overlay::Detail(Box::new(DetailState {
                        content: DetailContent::Vuln(app.search.items[0].clone()),
                        scroll: 7,
                        enriching: false,
                    })),
                };
                let screen = render(&mut app, size, size / 2);
                let areas = [
                    screen.areas.tabs,
                    screen.areas.body,
                    screen.areas.status,
                    screen.tab_areas.title,
                    screen.tab_areas.tabs,
                    screen.tab_areas.updated,
                    screen.status_areas.left,
                    screen.status_areas.right,
                ];
                for a in areas {
                    assert!(a.x + a.width <= size, "{a:?} in {size}");
                    assert!(a.y + a.height <= size / 2, "{a:?} in {size}");
                }
            }
        }
    }
}

#[test]
fn cursor_keeps_the_text() {
    let style = Style::field();
    let shown = |value: &str, cursor: usize, min_w: usize| -> Vec<String> {
        cursor_spans(value, cursor, min_w, style)
            .into_iter()
            .map(|s| s.text)
            .collect()
    };
    assert_eq!(shown("café", 3, 6), ["caf", "é", "  "]);
    assert_eq!(shown("café", 0, 0), ["", "c", "afé"]);
    // Behind the text the cursor has a cell of its own.
    assert_eq!(shown("café", 4, 6), ["café", " ", " "]);
    assert_eq!(shown("café", 99, 5), ["café", " ", ""]);
    assert_eq!(shown("", 0, 0), ["", " ", ""]);
    assert_eq!(shown("", 0, 3), ["", " ", "  "]);
    let spans = cursor_spans("ab", 1, 0, style);
    assert_eq!(spans[1].style, style.inverse());
}

#[test]
fn details_scroll_no_further_than_to_their_end() {
    let mut app = App::new();
    app.overlay = Overlay::Detail(Box::new(DetailState {
        content: DetailContent::Vuln(Vulnerability {
            id: "EUVD-1".into(),
            description: "x".repeat(200),
            ..Default::default()
        }),
        scroll: u16::MAX,
        enriching: false,
    }));
    let screen = render(&mut app, 50, 10);
    let popup = screen.popup.unwrap();
    // The rows are 45 columns wide: three above the text and five for it, and eight
    // are shown.
    assert_eq!(popup.area.width, 47);
    assert_eq!(popup.area.height, 10);
    assert_eq!(popup.lines.len(), 4);
    assert_eq!(popup.scroll, 0);
    assert_eq!(popup.scrollbar, None);

    app.overlay = Overlay::Detail(Box::new(DetailState {
        content: DetailContent::Vuln(Vulnerability {
            id: "EUVD-1".into(),
            description: "漢".repeat(200),
            ..Default::default()
        }),
        scroll: u16::MAX,
        enriching: false,
    }));
    let screen = render(&mut app, 50, 10);
    let popup = screen.popup.unwrap();
    // Twice as wide: nine rows, and three above them, of which eight are shown.
    assert_eq!(popup.scroll, 4);
    let bar = popup.scrollbar.unwrap();
    assert_eq!(bar.length, 4);
    assert_eq!(bar.position, 4);
    let Overlay::Detail(d) = &app.overlay else {
        panic!("expected the details");
    };
    assert_eq!(d.scroll, 4);
    // Drawing again changes nothing.
    assert_eq!(render(&mut app, 50, 10).popup.unwrap().scroll, 4);
}

#[test]
fn help_scrolls_to_its_end() {
    let mut app = App::new();
    app.overlay = Overlay::Help { scroll: u16::MAX };
    let popup = render(&mut app, 100, 30).popup.unwrap();
    assert_eq!(popup.scroll, 6);
    assert!(matches!(app.overlay, Overlay::Help { scroll: 6 }));
    app.overlay = Overlay::Help { scroll: u16::MAX };
    let popup = render(&mut app, 100, 60).popup.unwrap();
    assert_eq!(popup.scroll, 0);
    assert_eq!(popup.scrollbar, None);
}

#[test]
fn scrollbars_are_hidden_while_everything_fits() {
    let area = frame(10, 10);
    assert_eq!(scrollbar(area, 8, 8, 0), None);
    assert_eq!(scrollbar(area, 8, 0, 0), None);
    let bar = scrollbar(area, 9, 8, 1).unwrap();
    assert_eq!(bar.length, 1);
    assert_eq!(bar.position, 1);
    assert_eq!(
        bar.area,
        Rect {
            y: 1,
            ..frame(10, 8)
        }
    );
    assert_eq!(table_scrollbar(frame(10, 2), 5, 0), None);
    assert_eq!(scrollbar(frame(10, 1), 5, 2, 0).unwrap().area, frame(0, 0));
}

#[test]
fn advisories_have_their_lines() {
    let a = Advisory {
        id: "oxas-adv-2024-0002".into(),
        description: "\n".into(),
        summary: "First\nSecond\r\n".into(),
        date_published: "Mar 6, 2024, 12:00:00 AM".into(),
        date_updated: String::new(),
        base_score: Some(score(4.3)),
        references: String::new(),
        aliases: "CVE-2024-23187\n".into(),
        source: Some(AdvisorySource {
            name: "csaf_ox".into(),
        }),
        products: vec![
            ProductRef {
                product: Product {
                    name: "OX App Suite".into(),
                    vendor: Some(Vendor {
                        name: "Open-Xchange".into(),
                    }),
                },
                product_version: Some(String::new()),
            },
            ProductRef::default(),
        ],
    };
    let lines = advisory_lines(&a);
    assert_eq!(
        texts(&lines),
        [
            "    Source: csaf_ox",
            "      CVSS: 4.3",
            " Published: Mar 6, 2024, 12:00:00 AM",
            "   Aliases: CVE-2024-23187",
            "",
            "Affected products",
            "  • OX App Suite",
            "  • ",
            "",
            "Summary",
            "First",
            "Second",
        ]
    );
    assert_eq!(lines[1].spans[1].style, Style::color(Color::Yellow));
    // A score of zero is none.
    let none = Advisory {
        base_score: Some(score(0.0)),
        ..Default::default()
    };
    assert!(advisory_lines(&none).is_empty());
}

#[test]
fn empty_records_have_a_score_line_only() {
    let lines = vuln_lines(&Vulnerability::default());
    assert_eq!(texts(&lines), ["      CVSS: —"]);
}

#[test]
fn line_ends_within_a_line_are_left_out() {
    let v = Vulnerability {
        products: vec![ProductRef {
            product: Product {
                name: "a\nb".into(),
                vendor: None,
            },
            product_version: None,
        }],
        ..Default::default()
    };
    let lines = vuln_lines(&v);
    assert_eq!(text(&lines[3]), "  • ab");
    assert_eq!(lines[3].spans.len(), 2);
}

#[test]
fn references_are_numbered() {
    let urls: Vec<String> = (1..=10).map(|i| format!("https://example.com/{i}")).collect();
    let v = Vulnerability {
        references: urls.join("\n"),
        ..Default::default()
    };
    let lines = vuln_lines(&v);
    assert_eq!(lines.len(), 13);
    assert_eq!(text(&lines[3]), "   1. https://example.com/1");
    assert_eq!(text(&lines[12]), "  10. https://example.com/10");
    assert_eq!(
        lines[12].spans[1].style,
        Style {
            underlined: true,
            ..Style::color(Color::Blue)
        }
    );
}

#[test]
fn single_lines_have_their_styles() {
    let line = kv("Published", "today".into());
    assert_eq!(text(&line), " Published: today");
    assert_eq!(line.spans[0].style, Style::faint());
    assert_eq!(line.width(), 17);
    let line = section("Description");
    assert_eq!(line.spans[0].style, Style::accent());
    assert_eq!(Line::empty().width(), 0);
    assert_eq!(help_lines().len(), 25);
}

#[test]
fn scores_have_their_colours() {
    let color = |x: f64| score_style(&score(x)).fg;
    assert_eq!(color(9.0), Some(Color::Red));
    assert_eq!(color(7.0), Some(Color::LightRed));
    assert_eq!(color(4.0), Some(Color::Yellow));
    assert_eq!(color(3.9), Some(Color::Green));
    assert!(score_style(&score(9.0)).bold);
    assert!(!score_style(&score(8.9)).bold);
    assert_eq!(score_cell(&None).text, "—");
    assert_eq!(score_cell(&Some(score(9.84))).text, "9.8");
}

#[test]
fn descriptions_are_shown_in_one_line() {
    let mut app = App::new();
    app.feeds[0].items = vec![vuln("EUVD-1", "GHSA-1", None, "  a\n\tb   c ")];
    let screen = render(&mut app, 100, 30);
    let Body::Feed { table, .. } = &screen.body else {
        panic!("expected a feed");
    };
    assert_eq!(table.rows[0].spans[1].text, "—");
    assert_eq!(table.rows[0].spans[5].text, "a b c");
}

#[test]
fn spinner_goes_round() {
    for tick in 0..30 {
        assert_eq!(spinner(tick), SPINNER[tick % 10]);
    }
    assert_eq!(spinner(usize::MAX), SPINNER[usize::MAX % 10]);
}

#[test]
fn tables_have_their_styles() {
    assert!(header_style().bold && header_style().underlined);
    assert_eq!(highlight_style().bg, Some(Color::DarkGray));
    assert_eq!(column_rules().len(), 6);
}

#[test]
fn very_long_details_scroll_as_far_as_can_be_counted() {
    let mut app = App::new();
    app.overlay = Overlay::Detail(Box::new(DetailState {
        content: DetailContent::Vuln(Vulnerability {
            description: "x".repeat(70_000),
            ..Default::default()
        }),
        scroll: u16::MAX,
        enriching: false,
    }));
    // One column for the text.
    let popup = render(&mut app, 3, 10).popup.unwrap();
    assert_eq!(popup.area.width, 3);
    assert_eq!(popup.scroll, u16::MAX);
}

#[test]
fn filters_are_shown_while_they_have_the_focus() {
    let mut app = App::new();
    app.tab = TAB_SEARCH;
    let shown = |app: &mut App| match render(app, 100, 30).body {
        Body::Search { screen, areas } => {
            assert_eq!(screen.sidebar.is_some(), areas.sidebar.is_some());
            screen.sidebar.is_some()
        }
        _ => panic!("expected the search"),
    };
    assert!(!shown(&mut app));
    app.search.filters_collapsed = false;
    assert!(shown(&mut app));
    app.search.filters_collapsed = true;
    app.search.focus = SearchFocus::Filters(0);
    assert!(shown(&mut app));
}
