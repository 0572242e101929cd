//! Cutting text into pieces and putting pieces together.

use vstd::prelude::*;
use vstd::string::*;

use crate::text::{is_white_space, slice_views, to_chars, trim, trimmed, views};

verus! {

// --- finding ---------------------------------------------------------------------

/// The first position of `c` in `s`, or the length of `s` where there is none.
pub open spec fn find(s: Seq<char>, c: char) -> int
    decreases s.len(),
{
    if s.len() == 0 || s[0] == c {
        0
    } else {
        1 + find(s.drop_first(), c)
    }
}

/// What `find` gives is the first position of the character.
pub proof fn lemma_find(s: Seq<char>, c: char)
    ensures
        0 <= find(s, c) <= s.len(),
        find(s, c) < s.len() ==> s[find(s, c)] == c,
        forall|i: int| 0 <= i < find(s, c) ==> s[i] != c,
        (find(s, c) < s.len()) == s.contains(c),
    decreases s.len(),
{
    if s.len() > 0 && s[0] != c {
        let t = s.drop_first();
        lemma_find(t, c);
        assert forall|i: int| 0 <= i < find(s, c) implies s[i] != c by {
            if i > 0 {
                assert(s[i] == t[i - 1]);
            }
        }
        if s.contains(c) {
            let i = choose|i: int| 0 <= i < s.len() && s[i] == c;
            assert(t[i - 1] == c);
        }
        if t.contains(c) {
            let i = choose|i: int| 0 <= i < t.len() && t[i] == c;
            assert(s[i + 1] == c);
        }
    } else if s.len() > 0 {
        assert(s[0] == c);
    }
}

/// A position that holds the character, with none before it, is what `find` gives.
proof fn lemma_find_is(s: Seq<char>, c: char, at: int)
    requires
        0 <= at <= s.len(),
        at < s.len() ==> s[at] == c,
        forall|i: int| 0 <= i < at ==> s[i] != c,
    ensures
        find(s, c) == at,
{
    lemma_find(s, c);
    if find(s, c) < at {
        assert(s[find(s, c)] != c);
    }
}

/// The first position from `from` on that holds `c`, or the number of characters.
fn find_from(v: &Vec<char>, c: char, from: usize) -> (r: usize)
    requires
        from <= v@.len(),
    ensures
        from <= r <= v@.len(),
        r - from == find(v@.skip(from as int), c),
{
    let mut i: usize = from;
    while i < v.len() && v[i] != c
        invariant
            from <= i <= v@.len(),
            forall|j: int| from <= j < i ==> v@[j] != c,
        decreases v@.len() - i,
    {
        i = i + 1;
    }
    proof {
        let s = v@.skip(from as int);
        assert forall|j: int| 0 <= j < i - from implies s[j] != c by {
            assert(v@[from + j] != c);
        }
        lemma_find_is(s, c, i - from);
    }
    i
}

// --- splitting at a character ------------------------------------------------------

/// The pieces of `s` between the occurrences of `c`. There is always one piece
/// more than there are occurrences; pieces may be empty.
pub open spec fn split(s: Seq<char>, c: char) -> Seq<Seq<char>>
    decreases s.len(),
    via split_decreases
{
    if find(s, c) < s.len() {
        seq![s.take(find(s, c))] + split(s.skip(find(s, c) + 1), c)
    } else {
        seq![s]
    }
}

#[via_fn]
proof fn split_decreases(s: Seq<char>, c: char) {
    lemma_find(s, c);
}

/// The pieces of `s` between the occurrences of `c`.
pub fn split_at_char<'a>(s: &'a str, c: char) -> (r: Vec<&'a str>)
    ensures
        slice_views(r@) == split(s@, c),
{
    let v = to_chars(s);
    let mut r: Vec<&'a str> = Vec::new();
    let mut start: usize = 0;
    let mut end: usize = find_from(&v, c, 0);
    assert(s@.skip(0) == s@);
    while end < v.len()
        invariant
            v@ == s@,
            start <= end <= v@.len(),
            end - start == find(s@.skip(start as int), c),
            slice_views(r@) + split(s@.skip(start as int), c) == split(s@, c),
        decreases v@.len() - start,
    {
        let ghost before = slice_views(r@);
        let ghost rest = s@.skip(start as int);
        let piece = s.substring_char(start, end);
        r.push(piece);
        proof {
            assert(piece@ == rest.take(find(rest, c)));
            assert(rest.skip(find(rest, c) + 1) == s@.skip(end + 1));
            assert(slice_views(r@) == before.push(piece@));
            assert(before.push(piece@) + split(s@.skip(end + 1), c) == before + (seq![piece@]
                + split(s@.skip(end + 1), c)));
        }
        start = end + 1;
        end = find_from(&v, c, start);
    }
    let ghost before = slice_views(r@);
    let piece = s.substring_char(start, v.len());
    r.push(piece);
    proof {
        assert(piece@ == s@.skip(start as int));
        assert(slice_views(r@) == before.push(piece@));
        assert(before.push(piece@) == before + seq![piece@]);
    }
    r
}

/// The pieces, each trimmed, without those that are then empty.
pub open spec fn nonblank(pieces: Seq<Seq<char>>) -> Seq<Seq<char>>
    decreases pieces.len(),
{
    if pieces.len() == 0 {
        seq![]
    } else {
        let head = trimmed(pieces[0]);
        let tail = nonblank(pieces.drop_first());
        if head.len() == 0 {
            tail
        } else {
            seq![head] + tail
        }
    }
}

/// The pieces, each trimmed, without those that are then empty.
fn keep_nonblank<'a>(pieces: &Vec<&'a str>) -> (r: Vec<&'a str>)
    ensures
        slice_views(r@) == nonblank(slice_views(pieces@)),
{
    let ghost all = slice_views(pieces@);
    let mut r: Vec<&'a str> = Vec::new();
    let mut i: usize = 0;
    assert(all.skip(0) == all);
    while i < pieces.len()
        invariant
            i <= pieces@.len(),
            all == slice_views(pieces@),
            slice_views(r@) + nonblank(all.skip(i as int)) == nonblank(all),
        decreases pieces@.len() - i,
    {
        let ghost before = slice_views(r@);
        let ghost rest = all.skip(i as int);
        let t = trim(pieces[i]);
        proof {
            assert(rest[0] == pieces@[i as int]@);
            assert(rest.drop_first() == all.skip(i + 1));
        }
        if !t.is_empty() {
            r.push(t);
            proof {
                assert(slice_views(r@) == before.push(t@));
                assert(before.push(t@) + nonblank(all.skip(i + 1)) == before + (seq![t@]
                    + nonblank(all.skip(i + 1))));
            }
        }
        i = i + 1;
    }
    assert(nonblank(all.skip(i as int)).len() == 0);
    r
}

// --- lines -------------------------------------------------------------------------

/// `s` without one trailing carriage return.
pub open spec fn without_return(s: Seq<char>) -> Seq<char> {
    if s.len() > 0 && s.last() == '\r' {
        s.drop_last()
    } else {
        s
    }
}

/// The lines of `s`. A line ends at `\n` or `\r\n`, which is not part of it; the
/// line end after the last line may be missing.
pub open spec fn lines(s: Seq<char>) -> Seq<Seq<char>>
    decreases s.len(),
    via lines_decreases
{
    if s.len() == 0 {
        seq![]
    } else if find(s, '\n') < s.len() {
        seq![without_return(s.take(find(s, '\n')))] + lines(s.skip(find(s, '\n') + 1))
    } else {
        seq![s]
    }
}

#[via_fn]
proof fn lines_decreases(s: Seq<char>) {
    lemma_find(s, '\n');
}

/// The lines of `s`.
pub fn split_lines<'a>(s: &'a str) -> (r: Vec<&'a str>)
    ensures
        slice_views(r@) == lines(s@),
{
    let v = to_chars(s);
    let mut r: Vec<&'a str> = Vec::new();
    let mut start: usize = 0;
    assert(s@.skip(0) == s@);
    while start < v.len()
        invariant
            v@ == s@,
            start <= v@.len(),
            slice_views(r@) + lines(s@.skip(start as int)) == lines(s@),
        decreases v@.len() - start,
    {
        let ghost before = slice_views(r@);
        let ghost rest = s@.skip(start as int);
        let end: usize = find_from(&v, '\n', start);
        if end < v.len() {
            let stop: usize = if start < end && v[end - 1] == '\r' {
                end - 1
            } else {
                end
            };
            let piece = s.substring_char(start, stop);
            r.push(piece);
            proof {
                let whole = rest.take(find(rest, '\n'));
                assert(whole == s@.subrange(start as int, end as int));
                assert(piece@ == without_return(whole));
                assert(rest.skip(find(rest, '\n') + 1) == s@.skip(end + 1));
                assert(slice_views(r@) == before.push(piece@));
                assert(before.push(piece@) + lines(s@.skip(end + 1)) == before + (seq![piece@]
                    + lines(s@.skip(end + 1))));
            }
            start = end + 1;
        } else {
            let piece = s.substring_char(start, end);
            r.push(piece);
            proof {
                assert(piece@ == rest);
                assert(slice_views(r@) == before.push(piece@));
                assert(before.push(piece@) == before + seq![piece@]);
                assert(s@.skip(end as int).len() == 0);
                assert(slice_views(r@) + lines(s@.skip(end as int)) == slice_views(r@));
            }
            start = end;
        }
    }
    assert(lines(s@.skip(start as int)).len() == 0);
    r
}

/// The lines of `s`, each trimmed, without the blank ones.
pub open spec fn nonblank_lines(s: Seq<char>) -> Seq<Seq<char>> {
    nonblank(lines(s))
}

/// The lines of `s`, each trimmed, without the blank ones.
pub fn trimmed_lines<'a>(s: &'a str) -> (r: Vec<&'a str>)
    ensures
        slice_views(r@) == nonblank_lines(s@),
{
    keep_nonblank(&split_lines(s))
}

/// The comma-separated entries of `s`, each trimmed, without the blank ones.
pub open spec fn comma_entries(s: Seq<char>) -> Seq<Seq<char>> {
    nonblank(split(s, ','))
}

/// The comma-separated entries of `s`, each trimmed, without the blank ones.
pub fn split_entries<'a>(s: &'a str) -> (r: Vec<&'a str>)
    ensures
        slice_views(r@) == comma_entries(s@),
{
    keep_nonblank(&split_at_char(s, ','))
}

// --- words ---------------------------------------------------------------------------

/// The number of characters before the first white space.
pub open spec fn word_len(s: Seq<char>) -> int
    decreases s.len(),
{
    if s.len() == 0 || is_white_space(s[0]) {
        0
    } else {
        1 + word_len(s.drop_first())
    }
}

proof fn lemma_word_len(s: Seq<char>)
    ensures
        0 <= word_len(s) <= s.len(),
    decreases s.len(),
{
    if s.len() > 0 && !is_white_space(s[0]) {
        lemma_word_len(s.drop_first());
    }
}

/// The maximal runs of characters in `s` that are no white space.
pub open spec fn words(s: Seq<char>) -> Seq<Seq<char>>
    decreases s.len(),
    via words_decreases
{
    if s.len() == 0 {
        seq![]
    } else if is_white_space(s[0]) {
        words(s.drop_first())
    } else {
        seq![s.take(word_len(s))] + words(s.skip(word_len(s)))
    }
}

#[via_fn]
proof fn words_decreases(s: Seq<char>) {
    lemma_word_len(s);
    if s.len() > 0 && !is_white_space(s[0]) {
        lemma_word_len(s.drop_first());
    }
}

/// The maximal runs of characters in `s` that are no white space.
pub fn split_words<'a>(s: &'a str) -> (r: Vec<&'a str>)
    ensures
        slice_views(r@) == words(s@),
{
    let v = to_chars(s);
    let mut r: Vec<&'a str> = Vec::new();
    let mut start: usize = 0;
    assert(s@.skip(0) == s@);
    while start < v.len()
        invariant
            v@ == s@,
            start <= v@.len(),
            slice_views(r@) + words(s@.skip(start as int)) == words(s@),
        decreases v@.len() - start,
    {
        let ghost before = slice_views(r@);
        let ghost rest = s@.skip(start as int);
        if v[start].is_whitespace() {
            assert(rest.drop_first() == s@.skip(start + 1));
            start = start + 1;
        } else {
            let mut end: usize = start;
            assert(s@.skip(end as int) == rest);
            while end < v.len() && !v[end].is_whitespace()
                invariant
                    v@ == s@,
                    start <= end <= v@.len(),
                    start < v@.len(),
                    !is_white_space(v@[start as int]),
                    rest == s@.skip(start as int),
                    word_len(rest) == (end - start) + word_len(s@.skip(end as int)),
                decreases v@.len() - end,
            {
                assert(s@.skip(end as int).drop_first() == s@.skip(end + 1));
                end = end + 1;
            }
            let piece = s.substring_char(start, end);
            r.push(piece);
            proof {
                assert(word_len(s@.skip(end as int)) == 0);
                lemma_word_len(rest.drop_first());
                assert(piece@ == rest.take(word_len(rest)));
                assert(rest.skip(word_len(rest)) == s@.skip(end as int));
                assert(slice_views(r@) == before.push(piece@));
                assert(before.push(piece@) + words(s@.skip(end as int)) == before + (seq![piece@]
                    + words(s@.skip(end as int))));
            }
            start = end;
        }
    }
    assert(words(s@.skip(start as int)).len() == 0);
    r
}

// --- joining -------------------------------------------------------------------------

/// The pieces one after the other, with `sep` between neighbours.
pub open spec fn join(pieces: Seq<Seq<char>>, sep: Seq<char>) -> Seq<char>
    decreases pieces.len(),
{
    if pieces.len() == 0 {
        seq![]
    } else if pieces.len() == 1 {
        pieces[0]
    } else {
        join(pieces.drop_last(), sep) + sep + pieces.last()
    }
}

/// The slices one after the other, with `sep` between neighbours.
pub fn join_slices(pieces: &Vec<&str>, sep: &str) -> (r: String)
    ensures
        r@ == join(slice_views(pieces@), sep@),
{
    let ghost all = slice_views(pieces@);
    let mut r = String::new();
    let mut i: usize = 0;
    while i < pieces.len()
        invariant
            i <= pieces@.len(),
            all == slice_views(pieces@),
            r@ == join(all.take(i as int), sep@),
        decreases pieces@.len() - i,
    {
        proof {
            assert(all.take(i + 1).drop_last() == all.take(i as int));
            assert(all.take(i + 1).last() == pieces@[i as int]@);
            assert(all.take(i as int).len() == i);
        }
        if i > 0 {
            r.append(sep);
        }
        r.append(pieces[i]);
        assert(r@ == join(all.take(i + 1), sep@));
        i = i + 1;
    }
    assert(all.take(all.len() as int) == all);
    r
}

/// The strings one after the other, with `sep` between neighbours.
pub fn join_strings(pieces: &Vec<String>, sep: &str) -> (r: String)
    ensures
        r@ == join(views(pieces@), sep@),
{
    let mut slices: Vec<&str> = Vec::new();
    let mut i: usize = 0;
    while i < pieces.len()
        invariant
            i <= pieces@.len(),
            slice_views(slices@) == views(pieces@).take(i as int),
        decreases pieces@.len() - i,
    {
        let ghost before = slice_views(slices@);
        slices.push(pieces[i].as_str());
        assert(slice_views(slices@) == before.push(pieces@[i as int]@));
        assert(views(pieces@).take(i + 1) == views(pieces@).take(i as int).push(
            pieces@[i as int]@,
        ));
        i = i + 1;
    }
    assert(views(pieces@).take(pieces@.len() as int) == views(pieces@));
    join_slices(&slices, sep)
}

/// Slices as strings with the same texts.
pub fn to_strings(pieces: &Vec<&str>) -> (r: Vec<String>)
    ensures
        views(r@) == slice_views(pieces@),
{
    let mut r: Vec<String> = Vec::new();
    let mut i: usize = 0;
    while i < pieces.len()
        invariant
            i <= pieces@.len(),
            views(r@) == slice_views(pieces@).take(i as int),
        decreases pieces@.len() - i,
    {
        let ghost before = views(r@);
        let t = pieces[i].to_owned();
        r.push(t);
        assert(views(r@) == before.push(t@));
        assert(slice_views(pieces@).take(i + 1) == slice_views(pieces@).take(i as int).push(t@));
        i = i + 1;
    }
    assert(slice_views(pieces@).take(pieces@.len() as int) == slice_views(pieces@));
    r
}

// --- laws ----------------------------------------------------------------------------

/// Splitting takes apart what joining with the same character put together, as long
/// as there is a piece and no piece holds that character.
pub proof fn split_undoes_join(pieces: Seq<Seq<char>>, c: char)
    requires
        pieces.len() > 0,
        forall|i: int| 0 <= i < pieces.len() ==> !(#[trigger] pieces[i]).contains(c),
    ensures
        split(join(pieces, seq![c]), c) == pieces,
    decreases pieces.len(),
{
    let last = pieces.last();
    lemma_find(last, c);
    if pieces.len() == 1 {
        assert(pieces =~= seq![last]);
    } else {
        let front = pieces.drop_last();
        split_undoes_join(front, c);
        lemma_split_concat(join(front, seq![c]), last, c);
        assert(split(last, c) == seq![last]);
        assert(front + seq![last] =~= pieces);
        assert(join(pieces, seq![c]) == join(front, seq![c]) + seq![c] + last);
    }
}

/// Splitting two texts with the character between them gives the pieces of both.
pub proof fn lemma_split_concat(a: Seq<char>, b: Seq<char>, c: char)
    ensures
        split(a + seq![c] + b, c) == split(a, c) + split(b, c),
    decreases a.len(),
{
    let s = a + seq![c] + b;
    lemma_find(a, c);
    if find(a, c) < a.len() {
        let k = find(a, c);
        assert forall|i: int| 0 <= i < k implies s[i] != c by {
            assert(s[i] == a[i]);
        }
        lemma_find_is(s, c, k);
        let tail = a.skip(k + 1);
        lemma_split_concat(tail, b, c);
        assert(s.skip(k + 1) == tail + seq![c] + b);
        assert(s.take(k) == a.take(k));
        assert(seq![a.take(k)] + (split(tail, c) + split(b, c)) == (seq![a.take(k)] + split(
            tail,
            c,
        )) + split(b, c));
    } else {
        assert forall|i: int| 0 <= i < a.len() implies s[i] != c by {
            assert(s[i] == a[i]);
        }
        lemma_find_is(s, c, a.len() as int);
        assert(s.take(a.len() as int) == a);
        assert(s.skip(a.len() as int + 1) == b);
    }
}

/// Pieces that are trimmed and not empty are kept as they are.
pub proof fn lemma_nonblank_fixed(pieces: Seq<Seq<char>>)
    requires
        forall|i: int|
            0 <= i < pieces.len() ==> (#[trigger] pieces[i]).len() > 0 && trimmed(pieces[i])
                == pieces[i],
    ensures
        nonblank(pieces) == pieces,
    decreases pieces.len(),
{
    if pieces.len() > 0 {
        let rest = pieces.drop_first();
        assert forall|i: int| 0 <= i < rest.len() implies (#[trigger] rest[i]).len() > 0 && trimmed(
            rest[i],
        ) == rest[i] by {
            assert(rest[i] == pieces[i + 1]);
        }
        lemma_nonblank_fixed(rest);
        assert(seq![pieces[0]] + rest =~= pieces);
    }
}

} // verus!
