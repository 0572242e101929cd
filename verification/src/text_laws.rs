//! Laws of texts, pieces of texts, dates and numbers.

use vstd::prelude::*;

use crate::api::first_cve;
use crate::dates::{before_second_comma, find_comma_space, iso_date};
use crate::number::{
    all_digits, decimal, digits_value, is_digit, pad_left, pad_right, unsigned,
};
use crate::pieces::{
    comma_entries, find, join, lemma_find, lemma_split_concat, lines, nonblank, nonblank_lines,
    split, word_len, words,
};
use crate::text::{
    ascii_upper, ascii_upper_text, begins_with, is_blank, is_white_space, same_ignoring_case,
    trim_end, trim_start, trimmed,
};

verus! {

// --- trimming --------------------------------------------------------------------------

/// Every character is white space.
pub open spec fn all_white(s: Seq<char>) -> bool {
    forall|i: int| 0 <= i < s.len() ==> is_white_space(#[trigger] s[i])
}

/// No character is white space.
pub open spec fn no_white(s: Seq<char>) -> bool {
    forall|i: int| 0 <= i < s.len() ==> !is_white_space(#[trigger] s[i])
}

proof fn lemma_trim_start_of(a: Seq<char>, t: Seq<char>)
    requires
        all_white(a),
        t.len() > 0 ==> !is_white_space(t[0]),
    ensures
        trim_start(a + t) == t,
    decreases a.len(),
{
    if a.len() == 0 {
        assert(a + t =~= t);
    } else {
        let rest = a.drop_first();
        assert forall|i: int| 0 <= i < rest.len() implies is_white_space(#[trigger] rest[i]) by {
            assert(rest[i] == a[i + 1]);
        }
        lemma_trim_start_of(rest, t);
        assert((a + t).drop_first() =~= rest + t);
        assert((a + t)[0] == a[0]);
    }
}

proof fn lemma_trim_end_of(t: Seq<char>, b: Seq<char>)
    requires
        all_white(b),
        t.len() > 0 ==> !is_white_space(t.last()),
    ensures
        trim_end(t + b) == t,
    decreases b.len(),
{
    if b.len() == 0 {
        assert(t + b =~= t);
    } else {
        let rest = b.drop_last();
        assert forall|i: int| 0 <= i < rest.len() implies is_white_space(#[trigger] rest[i]) by {
            assert(rest[i] == b[i]);
        }
        lemma_trim_end_of(t, rest);
        assert((t + b).drop_last() =~= t + rest);
        assert((t + b).last() == b.last());
    }
}

/// Whatever white space stands around a text, trimming takes it off and leaves the
/// text.
pub proof fn white_space_around_is_trimmed(a: Seq<char>, t: Seq<char>, b: Seq<char>)
    requires
        all_white(a),
        all_white(b),
        t.len() > 0 ==> !is_white_space(t[0]) && !is_white_space(t.last()),
    ensures
        trimmed(a + t + b) == t,
{
    if t.len() == 0 {
        assert(a + t + b =~= (a + b) + Seq::<char>::empty());
        assert forall|i: int| 0 <= i < (a + b).len() implies is_white_space(
            #[trigger] (a + b)[i],
        ) by {
            if i < a.len() {
                assert((a + b)[i] == a[i]);
            } else {
                assert((a + b)[i] == b[i - a.len()]);
            }
        }
        lemma_trim_start_of(a + b, Seq::<char>::empty());
        assert(trim_end(Seq::<char>::empty()) =~= Seq::<char>::empty());
        assert(t =~= Seq::<char>::empty());
    } else {
        assert(a + t + b =~= a + (t + b));
        assert((t + b)[0] == t[0]);
        lemma_trim_start_of(a, t + b);
        lemma_trim_end_of(t, b);
    }
}

proof fn lemma_trim_start_split(s: Seq<char>) -> (a: Seq<char>)
    ensures
        all_white(a),
        s == a + trim_start(s),
        trim_start(s).len() > 0 ==> !is_white_space(trim_start(s)[0]),
    decreases s.len(),
{
    if s.len() > 0 && is_white_space(s[0]) {
        let b = lemma_trim_start_split(s.drop_first());
        let a = seq![s[0]] + b;
        assert(a + trim_start(s) =~= seq![s[0]] + (b + trim_start(s)));
        assert(seq![s[0]] + s.drop_first() =~= s);
        assert forall|i: int| 0 <= i < a.len() implies is_white_space(#[trigger] a[i]) by {
            if i > 0 {
                assert(a[i] == b[i - 1]);
            }
        }
        a
    } else {
        assert(Seq::<char>::empty() + s =~= s);
        Seq::empty()
    }
}

/// A text is blank where every character of it is white space, and only there.
pub proof fn blank_texts_are_white(s: Seq<char>)
    ensures
        is_blank(s) <==> all_white(s),
{
    let a = lemma_trim_start_split(s);
    let t = trim_start(s);
    if all_white(s) {
        white_space_around_is_trimmed(s, seq![], seq![]);
        assert(s + Seq::<char>::empty() + Seq::<char>::empty() =~= s);
    }
    if t.len() > 0 {
        assert(s[a.len() as int] == t[0]);
        lemma_trim_end_keeps(t);
    } else {
        assert(s =~= a);
    }
}

proof fn lemma_trim_end_keeps(t: Seq<char>)
    requires
        t.len() > 0,
        !is_white_space(t[0]),
    ensures
        trim_end(t).len() > 0,
    decreases t.len(),
{
    if is_white_space(t.last()) {
        lemma_trim_end_keeps(t.drop_last());
    }
}

// --- case ------------------------------------------------------------------------------

/// The two characters are the same, or the same letter of the ASCII alphabet, one of
/// them in upper and one in lower case.
pub open spec fn same_letter(a: char, b: char) -> bool {
    ||| a == b
    ||| 'a' <= a <= 'z' && b as int == a as int - 32
    ||| 'a' <= b <= 'z' && a as int == b as int - 32
}

/// Texts count as the same where they are the same letter by letter.
pub proof fn case_does_not_count(a: Seq<char>, b: Seq<char>)
    ensures
        same_ignoring_case(a, b) <==> a.len() == b.len() && forall|i: int|
            0 <= i < a.len() ==> same_letter(#[trigger] a[i], b[i]),
{
    let x = ascii_upper_text(a);
    let y = ascii_upper_text(b);
    assert(x.len() == a.len() && y.len() == b.len());
    if same_ignoring_case(a, b) {
        assert forall|i: int| 0 <= i < a.len() implies same_letter(#[trigger] a[i], b[i]) by {
            assert(x[i] == ascii_upper(a[i]));
            assert(y[i] == ascii_upper(b[i]));
        }
    }
    if a.len() == b.len() && forall|i: int|
        0 <= i < a.len() ==> same_letter(#[trigger] a[i], b[i]) {
        assert forall|i: int| 0 <= i < a.len() implies x[i] == y[i] by {
            assert(same_letter(a[i], b[i]));
        }
        assert(x =~= y);
    }
}

/// A text in upper case has as many characters; each small letter of the ASCII
/// alphabet is replaced by its capital, and nothing else changes.
pub proof fn upper_case_letter_by_letter(s: Seq<char>, i: int)
    requires
        0 <= i < s.len(),
    ensures
        ascii_upper_text(s).len() == s.len(),
        'a' <= s[i] <= 'z' ==> ascii_upper_text(s)[i] as int == s[i] as int - 32,
        !('a' <= s[i] <= 'z') ==> ascii_upper_text(s)[i] == s[i],
{
}

/// What begins with a prefix is the prefix and something behind it.
pub proof fn prefixes_stand_in_front(s: Seq<char>, p: Seq<char>, t: Seq<char>)
    ensures
        begins_with(p + t, p),
        begins_with(s, p) ==> s == p + s.skip(p.len() as int),
{
    assert((p + t).subrange(0, p.len() as int) =~= p);
    if begins_with(s, p) {
        assert(s =~= p + s.skip(p.len() as int));
    }
}

// --- joining and splitting ---------------------------------------------------------------

/// Joining puts the separator between neighbours and nowhere else: nothing for no
/// piece, the piece itself for one, and for more the joined front, the separator and
/// the joined rest, wherever the list is cut.
pub proof fn joining_puts_separators_between(a: Seq<Seq<char>>, b: Seq<Seq<char>>, sep: Seq<char>)
    ensures
        join(Seq::<Seq<char>>::empty(), sep) == Seq::<char>::empty(),
        a.len() == 1 ==> join(a, sep) == a[0],
        a.len() > 0 && b.len() > 0 ==> join(a + b, sep) == join(a, sep) + sep + join(b, sep),
    decreases b.len(),
{
    if a.len() > 0 && b.len() > 0 {
        let front = b.drop_last();
        assert((a + b).drop_last() =~= a + front);
        assert((a + b).last() == b.last());
        if b.len() == 1 {
            assert(a + front =~= a);
        } else {
            joining_puts_separators_between(a, front, sep);
            assert(join(a, sep) + sep + (join(front, sep) + sep + b.last()) =~= (join(a, sep) + sep
                + join(front, sep)) + sep + b.last());
        }
    }
}

/// Splitting loses nothing: the pieces, joined again, are the text; there is always a
/// piece, and no piece holds the character at which the text was split.
pub proof fn joining_undoes_splitting(s: Seq<char>, c: char)
    ensures
        split(s, c).len() > 0,
        join(split(s, c), seq![c]) == s,
        forall|i: int| 0 <= i < split(s, c).len() ==> !(#[trigger] split(s, c)[i]).contains(c),
    decreases s.len(),
{
    lemma_find(s, c);
    let k = find(s, c);
    if k < s.len() {
        let head = s.take(k);
        let rest = s.skip(k + 1);
        joining_undoes_splitting(rest, c);
        joining_puts_separators_between(seq![head], split(rest, c), seq![c]);
        assert(head + seq![c] + rest =~= s);
        assert forall|i: int| 0 <= i < split(s, c).len() implies !(#[trigger] split(s, c)[i]).contains(
            c,
        ) by {
            if i == 0 {
                if head.contains(c) {
                    let j = choose|j: int| 0 <= j < head.len() && head[j] == c;
                    assert(s[j] == c);
                }
            } else {
                assert(split(s, c)[i] == split(rest, c)[i - 1]);
            }
        }
    } else {
        assert(split(s, c) =~= seq![s]);
    }
}

/// Blank pieces are dropped and the others are trimmed, one by one and in their order.
pub proof fn pieces_are_trimmed_one_by_one(a: Seq<Seq<char>>, b: Seq<Seq<char>>, piece: Seq<char>)
    ensures
        nonblank(Seq::<Seq<char>>::empty()) == Seq::<Seq<char>>::empty(),
        nonblank(a + b) == nonblank(a) + nonblank(b),
        nonblank(seq![piece]) == (if all_white(piece) {
            Seq::<Seq<char>>::empty()
        } else {
            seq![trimmed(piece)]
        }),
    decreases a.len(),
{
    blank_texts_are_white(piece);
    assert(seq![piece].drop_first() =~= Seq::<Seq<char>>::empty());
    assert(nonblank(seq![piece].drop_first()) =~= Seq::<Seq<char>>::empty());
    assert(nonblank(seq![piece]) =~= if all_white(piece) {
        Seq::<Seq<char>>::empty()
    } else {
        seq![trimmed(piece)]
    });
    if a.len() == 0 {
        assert(a + b =~= b);
        assert(nonblank(a) + nonblank(b) =~= nonblank(b));
    } else {
        let rest = a.drop_first();
        pieces_are_trimmed_one_by_one(rest, b, piece);
        assert((a + b).drop_first() =~= rest + b);
        assert((a + b)[0] == a[0]);
        let head = trimmed(a[0]);
        if head.len() > 0 {
            assert(seq![head] + (nonblank(rest) + nonblank(b)) =~= (seq![head] + nonblank(rest))
                + nonblank(b));
        }
    }
}

/// The entries of a text with a comma in it are those before the comma and those
/// behind it. A text without a comma is one entry, trimmed, unless it is blank.
pub proof fn commas_part_entries(a: Seq<char>, b: Seq<char>)
    ensures
        comma_entries(a + seq![','] + b) == comma_entries(a) + comma_entries(b),
        !a.contains(',') ==> comma_entries(a) == (if all_white(a) {
            Seq::<Seq<char>>::empty()
        } else {
            seq![trimmed(a)]
        }),
{
    lemma_split_concat(a, b, ',');
    pieces_are_trimmed_one_by_one(split(a, ','), split(b, ','), a);
    lemma_find(a, ',');
}

// --- lines -----------------------------------------------------------------------------

/// A line ends at a line feed, which may have one carriage return before it; neither is
/// part of the line. What stands behind the last line feed is a line unless it is empty.
pub proof fn line_feeds_end_lines(a: Seq<char>, b: Seq<char>)
    requires
        !a.contains('\n'),
    ensures
        lines(Seq::<char>::empty()) == Seq::<Seq<char>>::empty(),
        a.len() > 0 ==> lines(a) == seq![a],
        (a.len() == 0 || a.last() != '\r') ==> lines(a + seq!['\n'] + b) == seq![a] + lines(b),
        lines(a + seq!['\r', '\n'] + b) == seq![a] + lines(b),
{
    lemma_find(a, '\n');
    lemma_line_at(a, b);
    let r = a.push('\r');
    if r.contains('\n') {
        let j = choose|j: int| 0 <= j < r.len() && r[j] == '\n';
        assert(a[j] == '\n');
    }
    lemma_line_at(r, b);
    assert(a + seq!['\r', '\n'] + b =~= r + seq!['\n'] + b);
    assert(r.drop_last() =~= a);
}

proof fn lemma_line_at(a: Seq<char>, b: Seq<char>)
    requires
        !a.contains('\n'),
    ensures
        lines(a + seq!['\n'] + b) == seq![crate::pieces::without_return(a)] + lines(b),
{
    let s = a + seq!['\n'] + b;
    assert(s[a.len() as int] == '\n');
    lemma_find(s, '\n');
    let k = find(s, '\n');
    if k < a.len() {
        assert(a[k] == '\n');
    }
    assert(k == a.len());
    assert(s.take(k) =~= a);
    assert(s.skip(k + 1) =~= b);
}

/// The lines of a text hold no line feed.
pub proof fn lines_hold_no_line_feed(s: Seq<char>)
    ensures
        forall|i: int| 0 <= i < lines(s).len() ==> !(#[trigger] lines(s)[i]).contains('\n'),
    decreases s.len(),
{
    lemma_find(s, '\n');
    let k = find(s, '\n');
    if s.len() > 0 && k < s.len() {
        let head = s.take(k);
        let rest = s.skip(k + 1);
        lines_hold_no_line_feed(rest);
        assert forall|i: int| 0 <= i < lines(s).len() implies !(#[trigger] lines(s)[i]).contains(
            '\n',
        ) by {
            if i == 0 {
                if lines(s)[0].contains('\n') {
                    let j = choose|j: int| 0 <= j < lines(s)[0].len() && lines(s)[0][j] == '\n';
                    assert(s[j] == '\n');
                }
            } else {
                assert(lines(s)[i] == lines(rest)[i - 1]);
            }
        }
    }
}

/// The lines of a list are read one by one: each is trimmed, and blank ones are dropped.
pub proof fn listed_lines_are_read_one_by_one(a: Seq<char>, b: Seq<char>)
    requires
        !a.contains('\n'),
    ensures
        nonblank_lines(a) == (if all_white(a) {
            Seq::<Seq<char>>::empty()
        } else {
            seq![trimmed(a)]
        }),
        nonblank_lines(a + seq!['\n'] + b) == nonblank_lines(a) + nonblank_lines(b),
{
    lemma_find(a, '\n');
    lemma_line_at(a, b);
    let bare = crate::pieces::without_return(a);
    pieces_are_trimmed_one_by_one(seq![bare], lines(b), bare);
    pieces_are_trimmed_one_by_one(seq![a], lines(b), a);
    lemma_trim_ignores_return(a);
    blank_texts_are_white(a);
    blank_texts_are_white(bare);
    if a.len() == 0 {
        assert(nonblank_lines(a) =~= Seq::<Seq<char>>::empty());
    } else {
        assert(lines(a) == seq![a]);
    }
}

proof fn lemma_trim_ignores_return(a: Seq<char>)
    ensures
        trimmed(crate::pieces::without_return(a)) == trimmed(a),
{
    if a.len() > 0 && a.last() == '\r' {
        lemma_trim_ignores_last(a);
    }
}

proof fn lemma_trim_ignores_last(a: Seq<char>)
    requires
        a.len() > 0,
        is_white_space(a.last()),
    ensures
        trimmed(a.drop_last()) == trimmed(a),
    decreases a.len(),
{
    if is_white_space(a[0]) {
        if a.len() > 1 {
            lemma_trim_ignores_last(a.drop_first());
            assert(a.drop_first().drop_last() =~= a.drop_last().drop_first());
        } else {
            assert(a.drop_first() =~= Seq::<char>::empty());
            assert(a.drop_last() =~= Seq::<char>::empty());
        }
    }
}

// --- words -----------------------------------------------------------------------------

/// White space parts words: a text without any is one word, unless it is empty, and
/// the words around a white-space character are those before it and those behind it.
pub proof fn white_space_parts_words(a: Seq<char>, c: char, b: Seq<char>)
    requires
        is_white_space(c),
    ensures
        words(Seq::<char>::empty()) == Seq::<Seq<char>>::empty(),
        no_white(a) && a.len() > 0 ==> words(a) == seq![a],
        words(a + seq![c] + b) == words(a) + words(b),
    decreases a.len(),
{
    let s = a + seq![c] + b;
    if a.len() == 0 {
        assert(s[0] == c);
        assert(s.drop_first() =~= b);
        assert(words(a) + words(b) =~= words(b));
    } else if is_white_space(a[0]) {
        assert(s[0] == a[0]);
        white_space_parts_words(a.drop_first(), c, b);
        assert(s.drop_first() =~= a.drop_first() + seq![c] + b);
    } else {
        assert(s[0] == a[0]);
        lemma_word_is(a);
        let n = word_len(a);
        lemma_word_prefix(a, c, b);
        assert(word_len(s) == n);
        assert(s.take(n) =~= a.take(n));
        let rest = a.skip(n);
        assert(s.skip(n) =~= rest + seq![c] + b);
        white_space_parts_words(rest, c, b);
        assert(seq![a.take(n)] + (words(rest) + words(b)) =~= (seq![a.take(n)] + words(rest))
            + words(b));
        if no_white(a) {
            assert(n == a.len()) by {
                if n < a.len() {
                    assert(is_white_space(a[n]));
                }
            }
            assert(a.take(n) =~= a);
            assert(a.skip(n) =~= Seq::<char>::empty());
            assert(words(a) =~= seq![a]);
        }
    }
}

proof fn lemma_word_is(a: Seq<char>)
    ensures
        0 <= word_len(a) <= a.len(),
        a.len() > 0 && !is_white_space(a[0]) ==> word_len(a) > 0,
        word_len(a) < a.len() ==> is_white_space(a[word_len(a)]),
    decreases a.len(),
{
    if a.len() > 0 && !is_white_space(a[0]) {
        lemma_word_is(a.drop_first());
    }
}

proof fn lemma_word_prefix(a: Seq<char>, c: char, b: Seq<char>)
    requires
        is_white_space(c),
    ensures
        word_len(a + seq![c] + b) == word_len(a),
    decreases a.len(),
{
    let s = a + seq![c] + b;
    if a.len() == 0 {
        assert(s[0] == c);
    } else {
        assert(s[0] == a[0]);
        assert(s.drop_first() =~= a.drop_first() + seq![c] + b);
        lemma_word_prefix(a.drop_first(), c, b);
    }
}

// --- numbers ---------------------------------------------------------------------------

/// The digits of a number: one for a number below ten, and one more behind them for a
/// number ten times as large with a digit added. No number but 0 begins with 0.
pub proof fn digits_stand_for_powers_of_ten(n: nat, d: nat)
    requires
        d < 10,
    ensures
        decimal(d).len() == 1,
        decimal(d)[0] as int == '0' as int + d,
        n > 0 ==> decimal((10 * n + d) as nat).len() == decimal(n).len() + 1,
        n > 0 ==> decimal((10 * n + d) as nat).take(decimal(n).len() as int) == decimal(n),
        n > 0 ==> decimal((10 * n + d) as nat).last() as int == '0' as int + d,
        n > 0 ==> decimal(n)[0] != '0',
    decreases n,
{
    if n > 0 {
        let m = (10 * n + d) as nat;
        assert(m / 10 == n);
        assert(m % 10 == d);
        assert(decimal(m).take(decimal(n).len() as int) =~= decimal(n));
        if n >= 10 {
            digits_stand_for_powers_of_ten(n / 10, 0);
        }
    }
}

/// The digits are those of ASCII.
pub proof fn digits_are_ascii(c: char, s: Seq<char>)
    ensures
        is_digit(c) <==> '0' <= c <= '9',
        all_digits(s) <==> forall|i: int| 0 <= i < s.len() ==> '0' <= #[trigger] s[i] <= '9',
{
    if forall|i: int| 0 <= i < s.len() ==> '0' <= #[trigger] s[i] <= '9' {
        assert forall|i: int| 0 <= i < s.len() implies is_digit(#[trigger] s[i]) by {
            assert('0' <= s[i] <= '9');
        }
    }
    if all_digits(s) {
        assert forall|i: int| 0 <= i < s.len() implies '0' <= #[trigger] s[i] <= '9' by {
            assert(is_digit(s[i]));
        }
    }
}

/// What reads as a number: digits, the last of which counts once and those before it ten
/// times as much, and a plus sign before them if need be. Anything else does not.
pub proof fn numbers_are_read_digit_by_digit(s: Seq<char>, c: char)
    ensures
        unsigned(Seq::<char>::empty()) is None,
        unsigned(seq!['+']) is None,
        is_digit(c) ==> unsigned(seq![c]) == Some((c as int - '0' as int) as nat),
        unsigned(s) is Some && is_digit(c) ==> unsigned(s.push(c)) == Some(
            (10 * unsigned(s)->0 + (c as int - '0' as int)) as nat,
        ),
        !is_digit(c) ==> unsigned(s.push(c)) is None,
        unsigned(s) is Some && s[0] != '+' ==> unsigned(seq!['+'] + s) == unsigned(s),
        unsigned(s) is Some && is_digit(s[0]) ==> unsigned(seq!['0'] + s) == unsigned(s),
{
    reveal_with_fuel(digits_value, 3);
    let e = Seq::<char>::empty();
    assert(seq!['+'].drop_first() =~= e);
    assert(seq![c].drop_last() =~= e);
    let p = s.push(c);
    assert(p.last() == c);
    if s.len() > 0 && s[0] == '+' {
        assert(p.drop_first() =~= s.drop_first().push(c));
        assert(s.drop_first().push(c).drop_last() =~= s.drop_first());
        lemma_push_digits(s.drop_first(), c);
    } else {
        assert(p.drop_last() =~= s);
        lemma_push_digits(s, c);
        if s.len() == 0 {
            assert(p =~= seq![c]);
            assert(!is_digit('+'));
            if c == '+' {
                assert(p.drop_first() =~= e);
            }
        }
    }
    assert((seq!['+'] + s).drop_first() =~= s);
    if unsigned(s) is Some && is_digit(s[0]) {
        lemma_leading_zero(s);
        let z = seq!['0'] + s;
        assert(z[0] == '0');
        assert forall|i: int| 0 <= i < z.len() implies is_digit(#[trigger] z[i]) by {
            if i > 0 {
                assert(z[i] == s[i - 1]);
            }
        }
    }
}

proof fn lemma_push_digits(t: Seq<char>, c: char)
    ensures
        all_digits(t.push(c)) <==> all_digits(t) && is_digit(c),
{
    let p = t.push(c);
    if all_digits(p) {
        assert forall|i: int| 0 <= i < t.len() implies is_digit(#[trigger] t[i]) by {
            assert(p[i] == t[i]);
        }
        assert(is_digit(p[t.len() as int]));
    }
}

proof fn lemma_leading_zero(s: Seq<char>)
    ensures
        digits_value(seq!['0'] + s) == digits_value(s),
    decreases s.len(),
{
    let z = seq!['0'] + s;
    if s.len() == 0 {
        assert(z.drop_last() =~= s);
    } else {
        assert(z.drop_last() =~= seq!['0'] + s.drop_last());
        assert(z.last() == s.last());
        lemma_leading_zero(s.drop_last());
    }
}

// --- padding -----------------------------------------------------------------------------

/// Padding keeps the text, at the side away from the spaces, and fills up with spaces to
/// the width and no further.
pub proof fn padding_fills_up_with_spaces(s: Seq<char>, width: nat, i: int)
    ensures
        pad_right(s, width).len() == (if s.len() < width { width } else { s.len() }),
        pad_left(s, width).len() == pad_right(s, width).len(),
        pad_right(s, width).take(s.len() as int) == s,
        pad_left(s, width).skip(pad_left(s, width).len() - s.len()) == s,
        s.len() <= i < pad_right(s, width).len() ==> pad_right(s, width)[i] == ' ',
        0 <= i < pad_left(s, width).len() - s.len() ==> pad_left(s, width)[i] == ' ',
{
    assert(pad_right(s, width).take(s.len() as int) =~= s);
    assert(pad_left(s, width).skip(pad_left(s, width).len() - s.len()) =~= s);
}

// --- dates -------------------------------------------------------------------------------

/// A date is written as four digits, a dash, two digits, a dash and two digits, and
/// nothing else is a date.
pub proof fn dates_are_digits_and_dashes(s: Seq<char>, y: Seq<char>, m: Seq<char>, d: Seq<char>)
    ensures
        all_digits(y) && y.len() == 4 && all_digits(m) && m.len() == 2 && all_digits(d) && d.len()
            == 2 ==> iso_date(y + seq!['-'] + m + seq!['-'] + d),
        iso_date(s) ==> all_digits(s.take(4)) && all_digits(s.subrange(5, 7)) && all_digits(
            s.skip(8),
        ) && s == s.take(4) + seq!['-'] + s.subrange(5, 7) + seq!['-'] + s.skip(8) && s.len() == 10,
{
    if all_digits(y) && y.len() == 4 && all_digits(m) && m.len() == 2 && all_digits(d) && d.len()
        == 2 {
        let t = y + seq!['-'] + m + seq!['-'] + d;
        assert forall|i: int| 0 <= i < 10 && i != 4 && i != 7 implies is_digit(#[trigger] t[i]) by {
            if i < 4 {
                assert(t[i] == y[i]);
            } else if i < 7 {
                assert(t[i] == m[i - 5]);
            } else {
                assert(t[i] == d[i - 8]);
            }
        }
    }
    if iso_date(s) {
        assert(s =~= s.take(4) + seq!['-'] + s.subrange(5, 7) + seq!['-'] + s.skip(8));
        assert forall|i: int| 0 <= i < 4 implies is_digit(#[trigger] s.take(4)[i]) by {
            assert(is_digit(s[i]));
        }
        assert forall|i: int| 0 <= i < 2 implies is_digit(#[trigger] s.subrange(5, 7)[i]) by {
            assert(is_digit(s[i + 5]));
        }
        assert forall|i: int| 0 <= i < 2 implies is_digit(#[trigger] s.skip(8)[i]) by {
            assert(is_digit(s[i + 8]));
        }
    }
}

/// There is a comma with a space behind it.
pub open spec fn has_comma_space(s: Seq<char>) -> bool {
    exists|i: int| 0 <= i < s.len() - 1 && #[trigger] s[i] == ',' && s[i + 1] == ' '
}

proof fn lemma_comma_found(s: Seq<char>, from: int, at: int)
    requires
        0 <= from <= at < s.len() - 1,
        s[at] == ',',
        s[at + 1] == ' ',
        forall|i: int| from <= i < at ==> !(#[trigger] s[i] == ',' && s[i + 1] == ' '),
    ensures
        find_comma_space(s, from) == at,
    decreases at - from,
{
    if from < at {
        assert(!(s[from] == ',' && s[from + 1] == ' '));
        lemma_comma_found(s, from + 1, at);
    }
}

proof fn lemma_no_comma(s: Seq<char>, from: int)
    requires
        0 <= from,
        forall|i: int| from <= i < s.len() - 1 ==> !(#[trigger] s[i] == ',' && s[i + 1] == ' '),
    ensures
        find_comma_space(s, from) == s.len(),
    decreases s.len() - from,
{
    if from + 1 < s.len() {
        assert(!(s[from] == ',' && s[from + 1] == ' '));
        lemma_no_comma(s, from + 1);
    }
}

/// A timestamp of three parts with a comma and a space between them is cut before the
/// third part; one of fewer parts is left as it is.
pub proof fn timestamps_lose_their_time(a: Seq<char>, b: Seq<char>, c: Seq<char>)
    requires
        !has_comma_space(a),
        !has_comma_space(b),
    ensures
        before_second_comma(a) == a,
        before_second_comma(a + seq![',', ' '] + b) == a + seq![',', ' '] + b,
        before_second_comma(a + seq![',', ' '] + b + seq![',', ' '] + c) == a + seq![',', ' '] + b,
{
    let sep = seq![',', ' '];
    lemma_no_comma(a, 0);
    lemma_no_comma(a, a.len() as int + 2);
    assert(a.take(a.len() as int) =~= a);
    let two = a + sep + b;
    let n = a.len() as int;
    assert forall|i: int| 0 <= i < n implies !(#[trigger] two[i] == ',' && two[i + 1] == ' ') by {
        assert(two[i] == a[i]);
        if i + 1 < n {
            assert(two[i + 1] == a[i + 1]);
        } else {
            assert(two[i + 1] == ',');
        }
    }
    assert(two[n] == ',' && two[n + 1] == ' ');
    lemma_comma_found(two, 0, n);
    assert forall|i: int| n + 2 <= i < two.len() - 1 implies !(#[trigger] two[i] == ',' && two[i + 1]
        == ' ') by {
        assert(two[i] == b[i - n - 2]);
        assert(two[i + 1] == b[i - n - 1]);
    }
    lemma_no_comma(two, n + 2);
    assert(two.take(two.len() as int) =~= two);
    let three = a + sep + b + sep + c;
    let k = n + 2 + b.len();
    assert forall|i: int| 0 <= i < n implies !(#[trigger] three[i] == ',' && three[i + 1] == ' ') by {
        assert(three[i] == two[i]);
        assert(three[i + 1] == two[i + 1]);
    }
    assert(three[n] == ',' && three[n + 1] == ' ');
    lemma_comma_found(three, 0, n);
    assert forall|i: int| n + 2 <= i < k implies !(#[trigger] three[i] == ',' && three[i + 1] == ' ') by {
        assert(three[i] == b[i - n - 2]);
        if i + 1 < k {
            assert(three[i + 1] == b[i - n - 1]);
        } else {
            assert(three[i + 1] == ',');
        }
    }
    assert(three[k] == ',' && three[k + 1] == ' ');
    lemma_comma_found(three, n + 2, k);
    assert(three.take(k) =~= two);
}

// --- aliases -----------------------------------------------------------------------------

/// The CVE number of a record is the first alias that begins with `CVE-`; there is none
/// where no alias does.
pub proof fn the_first_cve_counts(aliases: Seq<Seq<char>>, i: int)
    requires
        0 <= i < aliases.len(),
        forall|k: int| 0 <= k < i ==> !begins_with(#[trigger] aliases[k], "CVE-"@),
    ensures
        begins_with(aliases[i], "CVE-"@) ==> first_cve(aliases) == Some(aliases[i]),
        i == aliases.len() - 1 && !begins_with(aliases[i], "CVE-"@) ==> first_cve(aliases) is None,
        first_cve(Seq::<Seq<char>>::empty()) is None,
    decreases aliases.len(),
{
    let rest = aliases.drop_first();
    if i > 0 {
        assert(!begins_with(aliases[0], "CVE-"@));
        assert forall|k: int| 0 <= k < i - 1 implies !begins_with(#[trigger] rest[k], "CVE-"@) by {
            assert(rest[k] == aliases[k + 1]);
        }
        the_first_cve_counts(rest, i - 1);
        assert(rest[i - 1] == aliases[i]);
    } else if aliases.len() == 1 {
        assert(rest =~= Seq::<Seq<char>>::empty());
    }
}

} // verus!
