//! The two date notations that the library handles.

use vstd::prelude::*;
use vstd::string::*;

use crate::number::is_digit;
use crate::text::to_chars;

verus! {

/// `s` has the shape `YYYY-MM-DD`: ten characters, dashes in two places, digits
/// everywhere else.
pub open spec fn iso_date(s: Seq<char>) -> bool {
    &&& s.len() == 10
    &&& s[4] == '-'
    &&& s[7] == '-'
    &&& forall|i: int| 0 <= i < 10 && i != 4 && i != 7 ==> is_digit(#[trigger] s[i])
}

/// Whether `s` has the shape `YYYY-MM-DD`.
pub fn is_iso_date(s: &str) -> (r: bool)
    ensures
        r == iso_date(s@),
{
    let v = to_chars(s);
    if v.len() != 10 || v[4] != '-' || v[7] != '-' {
        return false;
    }
    let mut i: usize = 0;
    while i < 10
        invariant
            v@ == s@,
            v@.len() == 10,
            i <= 10,
            forall|j: int| 0 <= j < i && j != 4 && j != 7 ==> is_digit(#[trigger] v@[j]),
        decreases 10 - i,
    {
        if i != 4 && i != 7 {
            let c = v[i];
            if c < '0' || '9' < c {
                assert(!is_digit(s@[i as int]));
                return false;
            }
        }
        i = i + 1;
    }
    true
}

/// The first position from `from` on where a comma and a space stand, or the
/// length of `s` where there is none.
pub open spec fn find_comma_space(s: Seq<char>, from: int) -> int
    decreases s.len() - from,
{
    if from < 0 || from + 1 >= s.len() {
        s.len() as int
    } else if s[from] == ',' && s[from + 1] == ' ' {
        from
    } else {
        find_comma_space(s, from + 1)
    }
}

/// What stands before the second comma and space, or all of `s` where there are
/// fewer than two.
pub open spec fn before_second_comma(s: Seq<char>) -> Seq<char> {
    s.take(find_comma_space(s, find_comma_space(s, 0) + 2))
}

fn find_comma_space_from(v: &Vec<char>, from: usize) -> (r: usize)
    ensures
        r == find_comma_space(v@, from as int),
        r <= v@.len(),
        r < v@.len() ==> r + 1 < v@.len(),
{
    let mut i: usize = from;
    while i < v.len() && i + 1 < v.len()
        invariant
            from <= i,
            find_comma_space(v@, from as int) == find_comma_space(v@, i as int),
        decreases v@.len() - i,
    {
        if v[i] == ',' && v[i + 1] == ' ' {
            return i;
        }
        i = i + 1;
    }
    v.len()
}

/// The date of a timestamp such as `Jul 2, 2026, 7:12:24 AM`: what stands before
/// the second comma and space.
pub fn short_date(date: &str) -> (r: String)
    ensures
        r@ == before_second_comma(date@),
{
    let v = to_chars(date);
    let first: usize = find_comma_space_from(&v, 0);
    if first == v.len() {
        assert(date@.take(date@.len() as int) == date@);
        return date.to_owned();
    }
    let second: usize = find_comma_space_from(&v, first + 2);
    date.substring_char(0, second).to_owned()
}

} // verus!
