use euvd::dates::{is_iso_date, short_date};
use euvd::edit::{byte_idx, edit, insert_char, remove_char};
use euvd::keys::{KeyCode, KeyEvent};
use euvd::number::{blanks, decimal_text, padded_left, padded_right, parse_u32};
use euvd::pieces::{
    join_slices, join_strings, split_at_char, split_entries, split_lines, split_words, to_strings, trimmed_lines,
};
use euvd::text::{
    blank, eq_ignore_ascii_case, from_chars, starts_with, to_ascii_uppercase, to_chars, trim,
};

const SAMPLES: [&str; 14] = [
    "",
    " ",
    "a",
    "a,b",
    ",",
    " a , b,, c ",
    "a\nb\r\nc\r",
    "\n",
    "\r\n\r\n",
    "\u{a0}x\u{3000}",
    "é\u{2028}漢 字\u{85}",
    "Jul 2, 2026, 7:12:24 AM",
    "\u{feff}\u{200b}x",
    "tab\tvt\u{b}ff\u{c}",
];

#[test]
fn byte_idx_handles_multibyte_chars() {
    let s = "aéb";
    assert_eq!(byte_idx(s, 0), 0);
    assert_eq!(byte_idx(s, 1), 1);
    assert_eq!(byte_idx(s, 2), 3); // é is two bytes
    assert_eq!(byte_idx(s, 3), 4);
    assert_eq!(byte_idx(s, 99), s.len());
}

#[test]
fn iso_date_validation() {
    assert!(is_iso_date("2026-07-05"));
    assert!(!is_iso_date("2026-7-05"));
    assert!(!is_iso_date("20260705"));
    assert!(!is_iso_date("2026-07-055"));
    assert!(!is_iso_date("abcd-ef-gh"));
    assert!(!is_iso_date(""));
}

#[test]
fn iso_dates_are_ascii() {
    assert!(!is_iso_date("２026-07-0"));
    assert!(!is_iso_date("202٦-07-05"));
    assert!(!is_iso_date("2026-07-0é"));
    assert!(!is_iso_date("2026/07/05"));
}

#[test]
fn texts_are_taken_apart_as_std_does() {
    for s in SAMPLES {
        assert_eq!(trim(s), s.trim(), "{s:?}");
        assert_eq!(blank(s), s.trim().is_empty(), "{s:?}");
        assert_eq!(split_lines(s), s.lines().collect::<Vec<_>>(), "{s:?}");
        assert_eq!(
            split_words(s),
            s.split_whitespace().collect::<Vec<_>>(),
            "{s:?}"
        );
        assert_eq!(
            split_at_char(s, ','),
            s.split(',').collect::<Vec<_>>(),
            "{s:?}"
        );
        assert_eq!(
            split_entries(s),
            s.split(',')
                .map(str::trim)
                .filter(|p| !p.is_empty())
                .collect::<Vec<_>>(),
            "{s:?}"
        );
        assert_eq!(
            trimmed_lines(s),
            s.lines()
                .map(str::trim)
                .filter(|p| !p.is_empty())
                .collect::<Vec<_>>(),
            "{s:?}"
        );
        assert_eq!(
            short_date(s),
            s.split(", ").take(2).collect::<Vec<_>>().join(", "),
            "{s:?}"
        );
        assert_eq!(to_ascii_uppercase(s), s.to_ascii_uppercase(), "{s:?}");
        let chars = to_chars(s);
        assert_eq!(from_chars(&chars, 0, chars.len()), s);
        for i in 0..8 {
            let expected = s.char_indices().nth(i).map_or(s.len(), |(b, _)| b);
            assert_eq!(byte_idx(s, i), expected, "{s:?} {i}");
        }
        for t in SAMPLES {
            assert_eq!(starts_with(s, t), s.starts_with(t), "{s:?} {t:?}");
            assert_eq!(
                eq_ignore_ascii_case(s, t),
                s.eq_ignore_ascii_case(t),
                "{s:?} {t:?}"
            );
        }
    }
}

#[test]
fn every_white_space_character_is_trimmed() {
    for c in '\0'..='\u{3100}' {
        let s = format!("{c}x{c}");
        assert_eq!(trim(&s), s.trim(), "{c:?}");
    }
}

#[test]
fn case_counts_for_ascii_letters_only() {
    assert!(eq_ignore_ascii_case("Enisa", "eNISA"));
    assert!(!eq_ignore_ascii_case("é", "É"));
    assert!(!eq_ignore_ascii_case("[", "{"));
    assert_eq!(to_ascii_uppercase("aé-z{"), "Aé-Z{");
}

#[test]
fn short_dates_end_before_the_second_comma() {
    assert_eq!(short_date("Jul 2, 2026, 7:12:24 AM"), "Jul 2, 2026");
    assert_eq!(short_date("Jul 2, 2026"), "Jul 2, 2026");
    assert_eq!(short_date("2026"), "2026");
    assert_eq!(short_date(", , "), ", ");
    assert_eq!(short_date(""), "");
}

#[test]
fn splitting_undoes_joining() {
    let pieces = vec!["a", "", "bc"];
    let joined = join_slices(&pieces, ",");
    assert_eq!(joined, "a,,bc");
    assert_eq!(split_at_char(&joined, ','), pieces);
    assert_eq!(join_strings(&to_strings(&pieces), " · "), "a ·  · bc");
    assert_eq!(join_slices(&vec![], ","), "");
}

#[test]
fn numbers_read_back() {
    for n in [0u32, 1, 9, 10, 99, 100, 12_345, u32::MAX] {
        assert_eq!(decimal_text(n.into()), n.to_string());
        assert_eq!(parse_u32(&n.to_string()), Some(n));
    }
    assert_eq!(decimal_text(u64::MAX), u64::MAX.to_string());
    for s in ["", "+", "-", "+7", "-0", "007", "4294967296", "1 ", "٣", "1e1", "99999999999999999999999"] {
        assert_eq!(parse_u32(s), s.parse::<u32>().ok(), "{s:?}");
    }
}

#[test]
fn padding_counts_characters() {
    assert_eq!(padded_left("CVSS", 10), "      CVSS");
    assert_eq!(padded_left("é", 2), " é");
    assert_eq!(padded_left("abc", 2), "abc");
    assert_eq!(padded_right("é", 3), "é  ");
    assert_eq!(padded_right("abc", 3), "abc");
    assert_eq!(blanks(0), "");
    assert_eq!(blanks(3), "   ");
}

#[test]
fn backspace_undoes_typing() {
    for cursor in 0..=3 {
        let mut text = "aéb".to_string();
        let mut at = cursor;
        edit(&mut text, &mut at, KeyEvent::new(KeyCode::Char('漢')));
        assert_eq!(text.chars().nth(cursor), Some('漢'));
        assert_eq!(at, cursor + 1);
        edit(&mut text, &mut at, KeyEvent::new(KeyCode::Backspace));
        assert_eq!((text.as_str(), at), ("aéb", cursor));

        edit(&mut text, &mut at, KeyEvent::new(KeyCode::Char('x')));
        edit(&mut text, &mut at, KeyEvent::new(KeyCode::Left));
        edit(&mut text, &mut at, KeyEvent::new(KeyCode::Delete));
        assert_eq!((text.as_str(), at), ("aéb", cursor));
    }
}

#[test]
fn keys_at_the_ends_change_nothing() {
    let mut text = "é".to_string();
    let mut at = 0;
    edit(&mut text, &mut at, KeyEvent::new(KeyCode::Left));
    edit(&mut text, &mut at, KeyEvent::new(KeyCode::Backspace));
    assert_eq!((text.as_str(), at), ("é", 0));
    edit(&mut text, &mut at, KeyEvent::new(KeyCode::End));
    edit(&mut text, &mut at, KeyEvent::new(KeyCode::Right));
    edit(&mut text, &mut at, KeyEvent::new(KeyCode::Delete));
    assert_eq!((text.as_str(), at), ("é", 1));
    // Control with another letter types nothing.
    edit(&mut text, &mut at, KeyEvent::ctrl('x'));
    assert_eq!((text.as_str(), at), ("é", 1));
    edit(&mut text, &mut at, KeyEvent::ctrl('u'));
    assert_eq!((text.as_str(), at), ("", 0));
}

#[test]
fn characters_are_put_in_and_taken_out() {
    assert_eq!(insert_char("aé", 1, '漢'), "a漢é");
    assert_eq!(insert_char("", 0, 'x'), "x");
    assert_eq!(remove_char("a漢é", 1), "aé");
}
