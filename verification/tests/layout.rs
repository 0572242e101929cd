use euvd::layout::{
    centered, lookup_areas, popup_area, screen_areas, search_areas, status_areas, tab_bar_areas, Rect, SIDEBAR_WIDTH,
};

fn rect(x: u16, y: u16, width: u16, height: u16) -> Rect {
    Rect {
        x,
        y,
        width,
        height,
    }
}

#[test]
fn screens_have_a_line_above_and_below() {
    for height in 5..200 {
        let frame = rect(0, 0, 80, height);
        let r = screen_areas(frame);
        assert_eq!(r.tabs, rect(0, 0, 80, 1));
        assert_eq!(r.body, rect(0, 1, 80, height - 2));
        assert_eq!(r.status, rect(0, height - 1, 80, 1));
    }
}

#[test]
fn small_screens_are_filled_in_order() {
    for height in 0..5 {
        let r = screen_areas(rect(0, 0, 80, height));
        let mut at = 0;
        for part in [r.tabs, r.body, r.status] {
            assert_eq!((part.x, part.y, part.width), (0, at, 80));
            at += part.height;
        }
        assert_eq!(at, height);
        assert_eq!(r.body.height, height.min(3));
        assert!(r.tabs.height <= 1 && r.status.height <= 1);
    }
}

#[test]
fn tab_lines_leave_room_for_the_time() {
    for width in [33u16, 34, 80, 100, 1000, 65_000] {
        let r = tab_bar_areas(rect(0, 0, width, 1), 25);
        assert_eq!(r.title, rect(0, 0, 8, 1));
        assert_eq!(r.tabs, rect(8, 0, width - 33, 1));
        assert_eq!(r.updated, rect(width - 25, 0, 25, 1));
    }
    let r = tab_bar_areas(rect(0, 0, 8, 1), 0);
    assert_eq!(r.title, rect(0, 0, 8, 1));
    assert_eq!(r.tabs, rect(8, 0, 0, 1));
    for width in 0..33 {
        let r = tab_bar_areas(rect(0, 0, width, 1), 25);
        let mut at = 0;
        for part in [r.title, r.tabs, r.updated] {
            assert_eq!((part.x, part.y, part.height), (at, 0, 1));
            at += part.width;
        }
        assert_eq!(at, width);
        assert_eq!(r.tabs.width, 0);
        assert!(r.title.width <= 8 && r.updated.width <= 25);
    }
}

#[test]
fn the_sidebar_is_left_of_the_results() {
    for width in [33u16, 50, 80, 100, 300] {
        let area = rect(0, 1, width, 28);
        let r = search_areas(area, false);
        assert_eq!(r.sidebar, Some(rect(0, 1, SIDEBAR_WIDTH, 28)));
        assert_eq!(r.results, rect(SIDEBAR_WIDTH, 1, width - SIDEBAR_WIDTH, 28));
        let r = search_areas(area, true);
        assert_eq!(r.sidebar, None);
        assert_eq!(r.results, area);
    }
    // The results have three columns before the sidebar has any.
    for width in 0..33 {
        let r = search_areas(rect(2, 1, width, 28), false);
        let results = width.min(3);
        assert_eq!(r.sidebar, Some(rect(2, 1, width - results, 28)));
        assert_eq!(r.results, rect(2 + width - results, 1, results, 28));
    }
}

#[test]
fn the_lookup_input_has_three_rows() {
    for height in 3..60 {
        let r = lookup_areas(rect(0, 1, 80, height));
        assert_eq!(r.input, rect(0, 1, 80, 3));
        assert_eq!(r.help, rect(0, 4, 80, height - 3));
    }
    for height in 0..3 {
        let r = lookup_areas(rect(0, 1, 80, height));
        assert_eq!(r.input, rect(0, 1, 80, height));
        assert_eq!(r.help, rect(0, 1 + height, 80, 0));
    }
}

#[test]
fn the_message_is_right_of_the_hints() {
    for message in [0u16, 1, 18, 79, 80] {
        let r = status_areas(rect(0, 29, 80, 1), message);
        assert_eq!(r.left, rect(0, 29, 80 - message, 1));
        assert_eq!(r.right, rect(80 - message, 29, message, 1));
    }
    for message in [81u16, 500, u16::MAX] {
        let r = status_areas(rect(0, 29, 80, 1), message);
        assert_eq!(r.left, rect(0, 29, 0, 1));
        assert_eq!(r.right, rect(0, 29, 80, 1));
    }
}

/// The first cell, and the first one behind, of the part in the middle.
fn middle(size: u32, percent: u32) -> (u32, u32) {
    let margin = (100 - percent) / 2;
    (
        (margin * size + 50) / 100,
        ((margin + percent) * size + 50) / 100,
    )
}

#[test]
fn popups_are_centered() {
    for percent in [0u16, 1, 33, 50, 60, 70, 92, 94, 99, 100] {
        for size in 0..220u16 {
            let area = rect(3, 5, size, size / 2);
            let r = centered(area, percent, 100 - percent);
            let (left, right) = middle(size.into(), percent.into());
            let (top, bottom) = middle((size / 2).into(), (100 - percent).into());
            assert_eq!(u32::from(r.x), 3 + left, "{percent} of {size}");
            assert_eq!(u32::from(r.width), right - left, "{percent} of {size}");
            assert_eq!(u32::from(r.y), 5 + top, "{percent} of {size}");
            assert_eq!(u32::from(r.height), bottom - top, "{percent} of {size}");
        }
    }
    assert_eq!(centered(rect(0, 0, 100, 30), 94, 92), rect(3, 1, 94, 28));
    assert_eq!(centered(rect(0, 0, 65_535, 65_535), 60, 70).width, 39_321);
}

#[test]
fn pickers_grow_with_their_lines() {
    let frame = rect(0, 0, 100, 30);
    assert_eq!(popup_area(frame, 0), rect(30, 13, 40, 3));
    assert_eq!(popup_area(frame, 1), rect(30, 13, 40, 3));
    assert_eq!(popup_area(frame, 5), rect(30, 11, 40, 7));
    assert_eq!(popup_area(frame, 28), rect(30, 0, 40, 30));
    assert_eq!(popup_area(frame, 500), rect(30, 0, 40, 30));
    assert_eq!(popup_area(rect(0, 0, 20, 3), 9), rect(0, 0, 20, 3));
    assert_eq!(popup_area(frame, 65_536), rect(30, 13, 40, 3));
}

#[test]
fn rectangles_intersect() {
    let a = rect(0, 0, 10, 10);
    assert_eq!(a.intersection(rect(5, 6, 10, 10)), rect(5, 6, 5, 4));
    assert_eq!(a.intersection(rect(20, 20, 1, 1)), rect(20, 20, 0, 0));
    assert_eq!(a.intersection(a), a);
}

#[test]
fn borders_take_a_cell_on_each_side() {
    assert_eq!(rect(3, 1, 94, 28).bordered(), rect(4, 2, 92, 26));
    assert_eq!(rect(3, 1, 1, 2).bordered(), rect(4, 2, 0, 0));
    assert_eq!(rect(3, 1, 0, 0).bordered(), rect(3, 1, 0, 0));
    assert_eq!(rect(3, 1, 5, 4).middle_rows(), rect(3, 2, 5, 2));
    assert_eq!(rect(3, 1, 5, 1).middle_rows(), rect(0, 0, 0, 0));
}
