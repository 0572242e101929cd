use euvd::score::Score;
use euvd::search::{
    field_slot, ScoreInputs, SearchFocus, SearchState, FILTER_ASSIGNER, FILTER_CVSS_MAX, FILTER_EPSS_MAX,
    FILTER_EXPLOITED, FILTER_LABELS, FILTER_TO_DATE, N_FILTERS, PAGE_SIZE,
};
use euvd::state::DetailContent;
use euvd::api::{Advisory, Vulnerability};

fn score(x: f64) -> Score {
    Score {
        bits: x.to_bits(),
        text: x.to_string(),
        tenths: format!("{x:.1}"),
        hundredths: format!("{x:.2}"),
    }
}

/// What the CVSS fields read as.
fn scores(s: &SearchState) -> ScoreInputs {
    let (min, max) = s.score_texts();
    ScoreInputs {
        min: min.parse::<f64>().ok().map(score),
        max: max.parse::<f64>().ok().map(score),
    }
}

#[test]
fn field_slot_skips_the_exploited_tristate() {
    assert_eq!(field_slot(0), Some(0));
    assert_eq!(field_slot(FILTER_EXPLOITED - 1), Some(FILTER_EXPLOITED - 1));
    assert_eq!(field_slot(FILTER_EXPLOITED), None);
    assert_eq!(field_slot(FILTER_EXPLOITED + 1), Some(FILTER_EXPLOITED));
    assert_eq!(field_slot(N_FILTERS - 1), Some(N_FILTERS - 2));
}

#[test]
fn assigner_entries_parses_comma_list() {
    let mut s = SearchState::default();
    assert!(s.assigner_entries().is_empty());
    s.fields[field_slot(FILTER_ASSIGNER).unwrap()] = " ENISA , CERT-PL ,, ".into();
    assert_eq!(s.assigner_entries(), ["ENISA", "CERT-PL"]);
}

#[test]
fn toggle_assigner_adds_removes_and_keeps_custom_entries() {
    let mut s = SearchState::default();
    let slot = field_slot(FILTER_ASSIGNER).unwrap();
    s.fields[slot] = "my-custom-cna".into();

    s.toggle_assigner("ENISA");
    assert_eq!(s.fields[slot], "my-custom-cna,ENISA");
    assert_eq!(s.cursor, s.fields[slot].chars().count());

    // Removal is case-insensitive and leaves the custom entry alone.
    s.toggle_assigner("enisa");
    assert_eq!(s.fields[slot], "my-custom-cna");
}

#[test]
fn toggling_twice_gives_the_entries_back() {
    let mut s = SearchState::default();
    let slot = field_slot(FILTER_ASSIGNER).unwrap();
    s.fields[slot] = " a, b ".into();
    let before = s.assigner_entries();
    s.toggle_assigner("NCSC-FI");
    assert_eq!(s.assigner_entries(), ["a", "b", "NCSC-FI"]);
    s.toggle_assigner("NCSC-FI");
    assert_eq!(s.assigner_entries(), before);
    s.toggle_assigner("A");
    assert_eq!(s.fields[slot], "b");
}

#[test]
fn total_pages_rounds_up_and_never_hits_zero() {
    let mut s = SearchState::default();
    assert_eq!(s.total_pages(), 1);
    s.total = u64::from(PAGE_SIZE);
    assert_eq!(s.total_pages(), 1);
    s.total = u64::from(PAGE_SIZE) + 1;
    assert_eq!(s.total_pages(), 2);
    s.total = 123;
    assert_eq!(s.total_pages(), 3);
}

#[test]
fn build_query_collects_all_filters() {
    let s = SearchState {
        fields: [
            "ssl",
            "redhat",
            "openssl",
            "ENISA, CERT-PL",
            "2026-01-01",
            "2026-12-31",
            "7.5",
            "10",
            "50",
            "100",
        ]
        .map(String::from),
        exploited: Some(true),
        ..SearchState::default()
    };

    let q = s.build_query(2, &scores(&s)).unwrap();
    assert_eq!(q.text, "ssl");
    assert_eq!(q.vendor, "redhat");
    assert_eq!(q.product, "openssl");
    assert_eq!(q.assigners, ["ENISA", "CERT-PL"]);
    assert_eq!(q.from_date, "2026-01-01");
    assert_eq!(q.to_date, "2026-12-31");
    assert_eq!(q.exploited, Some(true));
    assert_eq!(q.from_score.map(|x| f64::from_bits(x.bits)), Some(7.5));
    assert_eq!(q.to_score.map(|x| f64::from_bits(x.bits)), Some(10.0));
    assert_eq!(q.from_epss, Some(50));
    assert_eq!(q.to_epss, Some(100));
    assert_eq!(q.page, 2);
    assert_eq!(q.size, PAGE_SIZE);
}

#[test]
fn build_query_rejects_invalid_input() {
    let bad = [
        (4, "07/05/2026", "From date"),
        (7, "11", "CVSS min"),
        (7, "abc", "CVSS min"),
        (9, "101", "EPSS% min"),
    ];
    for (filter, value, label) in bad {
        let mut s = SearchState::default();
        s.fields[field_slot(filter).unwrap()] = value.into();
        let err = s.build_query(0, &scores(&s)).unwrap_err();
        assert!(err.contains(label), "{err:?} should mention {label}");
    }
}

#[test]
fn complaints_name_the_field_and_what_is_wanted() {
    let complaint = |filter: usize, value: &str| {
        let mut s = SearchState::default();
        s.fields[field_slot(filter).unwrap()] = value.into();
        s.build_query(0, &scores(&s)).unwrap_err()
    };
    assert_eq!(
        complaint(FILTER_TO_DATE, "2026-7-05"),
        format!("{} must be YYYY-MM-DD", FILTER_LABELS[FILTER_TO_DATE])
    );
    assert_eq!(
        complaint(FILTER_CVSS_MAX, "-1"),
        format!("{} must be a number 0-10", FILTER_LABELS[FILTER_CVSS_MAX])
    );
    assert_eq!(
        complaint(FILTER_EPSS_MAX, "1.5"),
        format!("{} must be an integer 0-100", FILTER_LABELS[FILTER_EPSS_MAX])
    );
    assert!(complaint(FILTER_CVSS_MAX, "NaN").contains("CVSS max"));
    assert!(complaint(FILTER_EPSS_MAX, "-5").contains("EPSS% max"));
    assert!(complaint(FILTER_EPSS_MAX, "4294967296").contains("EPSS% max"));
}

#[test]
fn accepted_bounds_are_kept() {
    let mut s = SearchState::default();
    s.fields[field_slot(FILTER_CVSS_MAX).unwrap()] = " 1e1 ".into();
    s.fields[field_slot(FILTER_EPSS_MAX).unwrap()] = " +07 ".into();
    let q = s.build_query(0, &scores(&s)).unwrap();
    assert_eq!(q.to_score.map(|x| x.text), Some("10".to_string()));
    assert_eq!(q.to_epss, Some(7));
}

#[test]
fn empty_filters_ask_for_everything() {
    let s = SearchState::default();
    let q = s.build_query(0, &scores(&s)).unwrap();
    assert_eq!(
        q.params(),
        vec![("page", "0".to_string()), ("size", "50".to_string())]
    );
}

#[test]
fn assigners_are_sent_in_one_parameter() {
    let mut s = SearchState::default();
    s.fields[field_slot(FILTER_ASSIGNER).unwrap()] = " ENISA , CERT-PL ,, ".into();
    let q = s.build_query(0, &scores(&s)).unwrap();
    assert_eq!(q.params()[0], ("assigner", "ENISA,CERT-PL".to_string()));
}

#[test]
fn fields_are_found_by_their_filter() {
    let mut s = SearchState::default();
    for filter in 0..N_FILTERS {
        if let Some(slot) = field_slot(filter) {
            s.fields[slot] = format!("é{filter}");
        }
    }
    for filter in 0..N_FILTERS {
        if filter == FILTER_EXPLOITED {
            assert_eq!(s.field(filter), None);
            assert_eq!(s.char_len(filter), 0);
        } else {
            let text = format!("é{filter}");
            assert_eq!(s.field(filter), Some(text.as_str()));
            assert_eq!(s.char_len(filter), text.chars().count());
        }
    }
    assert_eq!(s.focus, SearchFocus::Results);
    assert!(s.filters_collapsed);
}

#[test]
fn detail_references_split_and_trim() {
    let d = DetailContent::Vuln(Vulnerability {
        references: "https://a\n  \n https://b \n".into(),
        ..Default::default()
    });
    assert_eq!(d.references(), ["https://a", "https://b"]);
}

#[test]
fn advisory_references_split_and_trim() {
    let d = DetailContent::Advisory(Advisory {
        references: "\n https://a \r\n".into(),
        ..Default::default()
    });
    assert_eq!(d.references(), ["https://a"]);
}
