//! Decimal numbers as text, and padding to a width.

use vstd::prelude::*;
use vstd::string::*;

use crate::text::to_chars;

verus! {

/// The character of a digit.
pub open spec fn digit(d: nat) -> char {
    (48 + d) as char
}

/// `c` is one of the ten ASCII digits.
pub open spec fn is_digit(c: char) -> bool {
    '0' <= c <= '9'
}

/// The number `n` in decimal, without leading zeros.
pub open spec fn decimal(n: nat) -> Seq<char>
    decreases n,
{
    if n < 10 {
        seq![digit(n)]
    } else {
        decimal(n / 10).push(digit(n % 10))
    }
}

/// The number that a sequence of digits stands for.
pub open spec fn digits_value(s: Seq<char>) -> nat
    decreases s.len(),
{
    if s.len() == 0 {
        0
    } else {
        digits_value(s.drop_last()) * 10 + (s.last() as nat - '0' as nat) as nat
    }
}

/// `s` is made of digits only.
pub open spec fn all_digits(s: Seq<char>) -> bool {
    forall|i: int| 0 <= i < s.len() ==> is_digit(#[trigger] s[i])
}

/// The number that `s` stands for: an optional `+`, then one or more digits.
pub open spec fn unsigned(s: Seq<char>) -> Option<nat> {
    let t = if s.len() > 0 && s[0] == '+' {
        s.drop_first()
    } else {
        s
    };
    if t.len() > 0 && all_digits(t) {
        Some(digits_value(t))
    } else {
        None
    }
}

/// What a decimal text stands for is the number that it was made of.
pub proof fn decimal_reads_back(n: nat)
    ensures
        decimal(n).len() > 0,
        all_digits(decimal(n)),
        digits_value(decimal(n)) == n,
        unsigned(decimal(n)) == Some(n),
    decreases n,
{
    if n < 10 {
        assert(decimal(n).drop_last() == Seq::<char>::empty());
        assert(digits_value(decimal(n).drop_last()) == 0);
        assert(decimal(n).last() as nat == 48 + n);
    } else {
        decimal_reads_back(n / 10);
        assert(decimal(n).drop_last() == decimal(n / 10));
        assert(decimal(n).last() as nat == 48 + n % 10);
    }
    assert(is_digit(decimal(n)[0]));
}

fn digit_char(d: u64) -> (c: char)
    requires
        d < 10,
    ensures
        c == digit(d as nat),
{
    (48 + d as u8) as char
}

/// The number `n` in decimal.
pub fn decimal_text(n: u64) -> (r: String)
    ensures
        r@ == decimal(n as nat),
    decreases n,
{
    if n < 10 {
        let mut r = String::new();
        r.push(digit_char(n));
        r
    } else {
        let mut r = decimal_text(n / 10);
        r.push(digit_char(n % 10));
        r
    }
}

/// Reads an optional `+` and one or more digits; nothing else may occur, and the
/// number must fit.
pub fn parse_u32(s: &str) -> (r: Option<u32>)
    ensures
        r == match unsigned(s@) {
            Some(n) => if n <= u32::MAX {
                Some(n as u32)
            } else {
                None
            },
            None => None,
        },
{
    let v = to_chars(s);
    let start: usize = if v.len() > 0 && v[0] == '+' {
        1
    } else {
        0
    };
    let ghost t = s@.skip(start as int);
    proof {
        if start == 1 {
            assert(t == s@.drop_first());
        } else {
            assert(t == s@);
        }
    }
    if start == v.len() {
        return None;
    }
    let mut value: u64 = 0;
    let mut fits: bool = true;
    let mut i: usize = start;
    while i < v.len()
        invariant
            v@ == s@,
            start <= i <= v@.len(),
            start <= 1,
            start < v@.len(),
            t == s@.skip(start as int),
            unsigned(s@) == if t.len() > 0 && all_digits(t) {
                Some(digits_value(t))
            } else {
                None
            },
            all_digits(t.take(i - start)),
            fits ==> value == digits_value(t.take(i - start)) && value <= u32::MAX,
            !fits ==> digits_value(t.take(i - start)) > u32::MAX,
        decreases v@.len() - i,
    {
        let c = v[i];
        let ghost k = i - start;
        if c < '0' || '9' < c {
            assert(t[k] == c && !is_digit(t[k]));
            return None;
        }
        proof {
            assert(t.take(k + 1).drop_last() == t.take(k));
            assert(t.take(k + 1).last() == c);
            assert forall|j: int| 0 <= j < k + 1 implies is_digit(#[trigger] t.take(k + 1)[j]) by {
                if j < k {
                    assert(t.take(k + 1)[j] == t.take(k)[j]);
                }
            }
        }
        if fits {
            let d: u8 = c as u8 - 48;
            value = value * 10 + d as u64;
            if value > 0xffff_ffff {
                fits = false;
            }
        }
        i = i + 1;
    }
    assert(t.take(t.len() as int) == t);
    if fits {
        Some(value as u32)
    } else {
        None
    }
}

// --- padding -------------------------------------------------------------------------

/// `n` spaces.
pub open spec fn spaces(n: nat) -> Seq<char> {
    Seq::new(n, |i: int| ' ')
}

/// `s` with spaces after it up to `width` characters.
pub open spec fn pad_right(s: Seq<char>, width: nat) -> Seq<char> {
    if s.len() < width {
        s + spaces((width - s.len()) as nat)
    } else {
        s
    }
}

/// `s` with spaces before it up to `width` characters.
pub open spec fn pad_left(s: Seq<char>, width: nat) -> Seq<char> {
    if s.len() < width {
        spaces((width - s.len()) as nat) + s
    } else {
        s
    }
}

/// `n` spaces.
pub fn blanks(n: usize) -> (r: String)
    ensures
        r@ == spaces(n as nat),
{
    let mut r = String::new();
    let mut i: usize = 0;
    while i < n
        invariant
            i <= n,
            r@ == spaces(i as nat),
        decreases n - i,
    {
        r.push(' ');
        i = i + 1;
    }
    r
}

/// `s` with spaces after it up to `width` characters.
pub fn padded_right(s: &str, width: usize) -> (r: String)
    ensures
        r@ == pad_right(s@, width as nat),
{
    let len: usize = s.unicode_len();
    let mut r = s.to_owned();
    if len < width {
        r.append(blanks(width - len).as_str());
    }
    r
}

/// `s` with spaces before it up to `width` characters.
pub fn padded_left(s: &str, width: usize) -> (r: String)
    ensures
        r@ == pad_left(s@, width as nat),
{
    let len: usize = s.unicode_len();
    if len < width {
        let mut r = blanks(width - len);
        r.append(s);
        r
    } else {
        s.to_owned()
    }
}

} // verus!
