use euvd::api::{failure, read_reply, ApiError, Get, SearchQuery, Vulnerability, BASE_URL, MAX_PAGE_SIZE};
use euvd::score::{Score, Severity};
use euvd::state::{Request, FEED_PATHS};

fn score(x: f64) -> Score {
    Score {
        bits: x.to_bits(),
        text: x.to_string(),
        tenths: format!("{x:.1}"),
        hundredths: format!("{x:.2}"),
    }
}

#[test]
fn query_skips_empty_params() {
    let q = SearchQuery {
        text: "openssl".into(),
        assigners: vec!["ENISA".into(), "CERT-PL".into()],
        from_score: Some(score(7.0)),
        exploited: Some(true),
        page: 2,
        size: 50,
        ..Default::default()
    };
    let p = q.params();
    assert!(p.contains(&("text", "openssl".to_string())));
    assert!(p.contains(&("assigner", "ENISA,CERT-PL".to_string())));
    assert!(p.contains(&("fromScore", "7".to_string())));
    assert!(p.contains(&("exploited", "true".to_string())));
    assert!(p.contains(&("page", "2".to_string())));
    assert!(p.contains(&("size", "50".to_string())));
    assert!(!p.iter().any(|(k, _)| *k == "vendor" || *k == "toScore"));
}

#[test]
fn params_come_in_a_fixed_order_and_trimmed() {
    let q = SearchQuery {
        text: "  a b ".into(),
        vendor: "v".into(),
        product: "p".into(),
        assigners: vec!["x".into()],
        from_date: "2026-01-01".into(),
        to_date: "2026-12-31".into(),
        from_score: Some(score(0.0)),
        to_score: Some(score(9.8)),
        from_epss: Some(0),
        to_epss: Some(100),
        exploited: Some(false),
        page: 0,
        size: 1,
    };
    let expected: Vec<(&str, String)> = vec![
        ("text", "a b".into()),
        ("vendor", "v".into()),
        ("product", "p".into()),
        ("assigner", "x".into()),
        ("fromDate", "2026-01-01".into()),
        ("toDate", "2026-12-31".into()),
        ("fromScore", "0".into()),
        ("toScore", "9.8".into()),
        ("fromEpss", "0".into()),
        ("toEpss", "100".into()),
        ("exploited", "false".into()),
        ("page", "0".into()),
        ("size", "1".into()),
    ];
    assert_eq!(q.params(), expected);
}

#[test]
fn page_size_is_kept_within_what_the_endpoint_accepts() {
    let size = |n: u32| {
        let q = SearchQuery {
            size: n,
            ..Default::default()
        };
        q.params().last().unwrap().1.clone()
    };
    assert_eq!(size(0), "1");
    assert_eq!(size(1), "1");
    assert_eq!(size(MAX_PAGE_SIZE), "100");
    assert_eq!(size(MAX_PAGE_SIZE + 1), "100");
    assert_eq!(size(u32::MAX), "100");
}

#[test]
fn no_parameter_is_sent_without_a_value() {
    let q = SearchQuery {
        text: " \t".into(),
        vendor: "\u{3000}".into(),
        ..Default::default()
    };
    assert_eq!(
        q.params(),
        vec![("page", "0".to_string()), ("size", "1".to_string())]
    );
}

#[test]
fn requests_name_their_endpoints() {
    let get = Get::by_enisa_id(" EUVD-2026-41256 ");
    assert_eq!(get.path, "/enisaid");
    assert_eq!(get.params, vec![("id", "EUVD-2026-41256".to_string())]);
    assert_eq!(get.url(), format!("{BASE_URL}/enisaid"));

    let get = Get::advisory("oxas-adv-2024-0002\n");
    assert_eq!(get.path, "/advisory");
    assert_eq!(get.params, vec![("id", "oxas-adv-2024-0002".to_string())]);

    assert_eq!(Get::assigner_names().path, "/assigners/names");
    assert!(Get::assigner_names().params.is_empty());
    assert_eq!(Get::feed("/lastvulnerabilities").path, "/lastvulnerabilities");
    assert_eq!(Get::search(&SearchQuery::default()).path, "/search");
}

#[test]
fn every_request_has_its_call() {
    for (idx, path) in FEED_PATHS.iter().enumerate() {
        let call = Request::Feed { idx, seq: 1 }.call().unwrap();
        assert_eq!(call.path, *path);
    }
    let search = Request::Search {
        seq: 1,
        query: SearchQuery::default(),
    };
    assert_eq!(search.call().unwrap().path, "/search");
    let enrich = Request::Enrich { id: "EUVD-1".into() };
    assert_eq!(enrich.call().unwrap().path, "/enisaid");
    let vuln = Request::LookupVuln {
        seq: 1,
        id: "EUVD-1".into(),
    };
    assert_eq!(vuln.call().unwrap().path, "/enisaid");
    let advisory = Request::LookupAdvisory {
        seq: 1,
        id: "a".into(),
    };
    assert_eq!(advisory.call().unwrap().path, "/advisory");
    let names = Request::Assigners { seq: 1 };
    assert_eq!(names.call().unwrap().path, "/assigners/names");
    let url = Request::OpenUrl {
        url: "https://a".into(),
    };
    assert!(url.call().is_none());
}

#[test]
fn replies_are_told_apart() {
    assert_eq!(read_reply(200, Ok("[]".into())).unwrap(), "[]");
    assert_eq!(read_reply(299, Ok(" x ".into())).unwrap(), " x ");
    // No content, and nothing but white space, mean that there is no record.
    assert!(matches!(
        read_reply(204, Ok("x".into())),
        Err(ApiError::NotFound)
    ));
    assert!(matches!(
        read_reply(204, Err("broken".into())),
        Err(ApiError::NotFound)
    ));
    assert!(matches!(
        read_reply(200, Ok(" \n".into())),
        Err(ApiError::NotFound)
    ));
    match read_reply(200, Err("broken".into())) {
        Err(ApiError::Http(e)) => assert_eq!(e, "broken"),
        other => panic!("{other:?}"),
    }
}

#[test]
fn failing_statuses_are_reported_with_the_beginning_of_the_body() {
    match read_reply(404, Ok("gone".into())) {
        Err(ApiError::Http(e)) => assert_eq!(e, "HTTP 404 Not Found gone"),
        other => panic!("{other:?}"),
    }
    match read_reply(500, Ok(String::new())) {
        Err(ApiError::Http(e)) => assert_eq!(e, "HTTP 500 Internal Server Error "),
        other => panic!("{other:?}"),
    }
    match read_reply(799, Ok("é".repeat(201))) {
        Err(ApiError::Http(e)) => {
            assert_eq!(e, format!("HTTP 799 <unknown status code> {}", "é".repeat(200)))
        }
        other => panic!("{other:?}"),
    }
    match failure("418 I'm a teapot", "body") {
        ApiError::Http(e) => assert_eq!(e, "HTTP 418 I'm a teapot body"),
        other => panic!("{other:?}"),
    }
}

#[test]
fn errors_have_messages() {
    assert_eq!(
        ApiError::Http("HTTP 500".into()).message(),
        "request failed: HTTP 500"
    );
    assert_eq!(ApiError::NotFound.message(), "no record found");
    assert_eq!(
        ApiError::Parse("EOF".into()).message(),
        "unexpected response: EOF"
    );
}

#[test]
fn aliases_and_references_are_read_line_by_line() {
    let v = Vulnerability {
        aliases: " GHSA-1 \r\n\n CVE-2026-33592\nCVE-2026-2".into(),
        references: "https://example.com/a\n \nhttps://example.com/b\n".into(),
        ..Default::default()
    };
    assert_eq!(
        v.alias_lines(),
        ["GHSA-1", "CVE-2026-33592", "CVE-2026-2"]
    );
    assert_eq!(
        v.reference_lines(),
        ["https://example.com/a", "https://example.com/b"]
    );
    assert_eq!(v.cve(), Some("CVE-2026-33592"));
    assert_eq!(Vulnerability::default().cve(), None);
    let lower = Vulnerability {
        aliases: "cve-2026-1".into(),
        ..Default::default()
    };
    assert_eq!(lower.cve(), None);
}

#[test]
fn clones_are_equal() {
    let v = Vulnerability {
        id: "EUVD-1".into(),
        base_score: Some(score(9.8)),
        base_score_version: Some("3.1".into()),
        ..Default::default()
    };
    assert_eq!(format!("{:?}", v.clone()), format!("{v:?}"));
}

#[test]
fn severities_follow_the_score() {
    let of = |x: f64| score(x).severity();
    assert_eq!(of(10.0), Severity::Critical);
    assert_eq!(of(9.0), Severity::Critical);
    assert_eq!(of(8.999999999999998), Severity::High);
    assert_eq!(of(7.0), Severity::High);
    assert_eq!(of(6.9), Severity::Medium);
    assert_eq!(of(4.0), Severity::Medium);
    assert_eq!(of(3.9), Severity::Low);
    assert_eq!(of(0.0), Severity::Low);
    assert_eq!(of(-9.5), Severity::Low);
    assert_eq!(of(f64::INFINITY), Severity::Critical);
    assert_eq!(of(f64::NAN), Severity::Low);
    assert_eq!(of(-f64::NAN), Severity::Low);
}

#[test]
fn scores_compare_as_numbers() {
    let samples = [
        -f64::INFINITY,
        -1.0,
        -0.0,
        0.0,
        5e-324,
        f64::MIN_POSITIVE,
        0.1,
        1.0,
        3.9999999999999996,
        4.0,
        9.99,
        10.0,
        10.000000000000002,
        1e300,
        f64::INFINITY,
        f64::NAN,
    ];
    for x in samples {
        let s = score(x);
        assert_eq!(s.in_range(), (0.0..=10.0).contains(&x), "{x}");
        assert_eq!(s.is_positive(), x > 0.0, "{x}");
        let severity = if x >= 9.0 {
            Severity::Critical
        } else if x >= 7.0 {
            Severity::High
        } else if x >= 4.0 {
            Severity::Medium
        } else {
            Severity::Low
        };
        assert_eq!(s.severity(), severity, "{x}");
    }
}
