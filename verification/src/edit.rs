//! Editing a text at a character position.

use vstd::prelude::*;
use vstd::string::*;
use vstd::utf8::{encode_scalar, encode_utf8};

use crate::keys::{KeyCode, KeyEvent};
use crate::text::{from_chars, to_chars};

verus! {

/// The number of bytes of the UTF-8 encoding of `s`.
pub open spec fn byte_len(s: Seq<char>) -> nat {
    encode_utf8(s).len()
}

/// The UTF-8 encoding of two texts one after the other is the encodings one after
/// the other.
proof fn lemma_encode_concat(a: Seq<char>, b: Seq<char>)
    ensures
        encode_utf8(a + b) == encode_utf8(a) + encode_utf8(b),
    decreases a.len(),
{
    if a.len() == 0 {
        assert(a + b == b);
        assert(encode_utf8(a) + encode_utf8(b) == encode_utf8(b));
    } else {
        lemma_encode_concat(a.drop_first(), b);
        assert((a + b).drop_first() == a.drop_first() + b);
        assert((a + b)[0] == a[0]);
        assert(encode_scalar(a[0] as u32) + (encode_utf8(a.drop_first()) + encode_utf8(b)) == (
        encode_scalar(a[0] as u32) + encode_utf8(a.drop_first())) + encode_utf8(b));
    }
}

proof fn lemma_encode_one(c: char)
    ensures
        encode_utf8(seq![c]) == encode_scalar(c as u32),
{
    let s = seq![c];
    assert(s.drop_first() == Seq::<char>::empty());
    assert(encode_utf8(s.drop_first()) == Seq::<u8>::empty());
    assert(encode_scalar(c as u32) + Seq::<u8>::empty() == encode_scalar(c as u32));
}

/// The number of bytes of the UTF-8 encoding of `c`.
fn char_bytes(c: char) -> (n: usize)
    ensures
        n == byte_len(seq![c]),
        1 <= n <= 4,
{
    proof {
        lemma_encode_one(c);
    }
    let code: u32 = c as u32;
    if code < 0x80 {
        1
    } else if code < 0x800 {
        2
    } else if code < 0x1_0000 {
        3
    } else {
        4
    }
}

/// The byte offset of the `char_idx`-th character, which is the length in bytes
/// where the text has no such character.
pub fn byte_idx(s: &str, char_idx: usize) -> (r: usize)
    ensures
        r == byte_len(s@.take(if char_idx < s@.len() {
            char_idx as int
        } else {
            s@.len() as int
        })),
{
    let v = to_chars(s);
    let total: usize = s.as_bytes().len();
    let mut r: usize = 0;
    let mut i: usize = 0;
    assert(s@.take(0) == Seq::<char>::empty());
    while i < v.len() && i < char_idx
        invariant
            v@ == s@,
            i <= v@.len(),
            i <= char_idx,
            total == byte_len(s@),
            r == byte_len(s@.take(i as int)),
        decreases v@.len() - i,
    {
        proof {
            let c = s@[i as int];
            lemma_encode_concat(s@.take(i as int), seq![c]);
            assert(s@.take(i as int) + seq![c] == s@.take(i + 1));
            lemma_encode_concat(s@.take(i + 1), s@.skip(i + 1));
            assert(s@.take(i + 1) + s@.skip(i + 1) == s@);
        }
        r = r + char_bytes(v[i]);
        i = i + 1;
    }
    r
}

/// `s` with `c` put in before the character at `at`.
pub fn insert_char(s: &str, at: usize, c: char) -> (r: String)
    requires
        at <= s@.len(),
    ensures
        r@ == s@.insert(at as int, c),
{
    let v = to_chars(s);
    let mut r = from_chars(&v, 0, at);
    r.push(c);
    r.append(from_chars(&v, at, v.len()).as_str());
    assert(r@ == s@.insert(at as int, c));
    r
}

/// `s` without the character at `at`.
pub fn remove_char(s: &str, at: usize) -> (r: String)
    requires
        at < s@.len(),
    ensures
        r@ == s@.remove(at as int),
{
    let v = to_chars(s);
    let n: usize = v.len();
    let mut r = from_chars(&v, 0, at);
    r.append(from_chars(&v, at + 1, n).as_str());
    assert(r@ == s@.remove(at as int));
    r
}

// --- keys ----------------------------------------------------------------------------

/// What a key does to a text with the cursor before the character at `cursor`: the
/// text and the cursor after it. Keys that edit nothing leave both as they are.
pub open spec fn edited(text: Seq<char>, cursor: int, key: KeyEvent) -> (Seq<char>, int) {
    match key.code {
        KeyCode::Left => (
            text,
            if cursor > 0 {
                cursor - 1
            } else {
                0
            },
        ),
        KeyCode::Right => (
            text,
            if cursor < text.len() {
                cursor + 1
            } else {
                text.len() as int
            },
        ),
        KeyCode::Home => (text, 0),
        KeyCode::End => (text, text.len() as int),
        KeyCode::Backspace => if cursor > 0 {
            (text.remove(cursor - 1), cursor - 1)
        } else {
            (text, cursor)
        },
        KeyCode::Delete => if cursor < text.len() {
            (text.remove(cursor), cursor)
        } else {
            (text, cursor)
        },
        KeyCode::Char(c) => if !key.control {
            (text.insert(cursor, c), cursor + 1)
        } else if c == 'u' {
            (Seq::empty(), 0)
        } else {
            (text, cursor)
        },
        _ => (text, cursor),
    }
}

/// Applies a key to a text with the cursor before the character at `cursor`.
pub fn edit(text: &mut String, cursor: &mut usize, key: KeyEvent)
    requires
        *old(cursor) <= old(text)@.len() < usize::MAX,
    ensures
        (final(text)@, *final(cursor) as int) == edited(old(text)@, *old(cursor) as int, key),
{
    let len: usize = text.as_str().unicode_len();
    match key.code {
        KeyCode::Left => {
            if *cursor > 0 {
                *cursor = *cursor - 1;
            }
        },
        KeyCode::Right => {
            if *cursor < len {
                *cursor = *cursor + 1;
            }
        },
        KeyCode::Home => {
            *cursor = 0;
        },
        KeyCode::End => {
            *cursor = len;
        },
        KeyCode::Backspace => {
            if *cursor > 0 {
                *text = remove_char(text.as_str(), *cursor - 1);
                *cursor = *cursor - 1;
            }
        },
        KeyCode::Delete => {
            if *cursor < len {
                *text = remove_char(text.as_str(), *cursor);
            }
        },
        KeyCode::Char(c) => {
            if !key.control {
                *text = insert_char(text.as_str(), *cursor, c);
                *cursor = *cursor + 1;
            } else if c == 'u' {
                *text = String::new();
                *cursor = 0;
            }
        },
        _ => {},
    }
}

// --- laws ----------------------------------------------------------------------------

/// A press of the key, alone.
pub open spec fn press(code: KeyCode) -> KeyEvent {
    KeyEvent { code, control: false, kind: crate::keys::KeyEventKind::Press }
}

/// Whatever the key is, the cursor stays within the text.
pub proof fn cursor_stays_within(text: Seq<char>, cursor: int, key: KeyEvent)
    requires
        0 <= cursor <= text.len(),
    ensures
        0 <= edited(text, cursor, key).1 <= edited(text, cursor, key).0.len(),
{
}

/// Backspace takes back what was typed: text and cursor are as before.
pub proof fn backspace_undoes_typing(text: Seq<char>, cursor: int, c: char)
    requires
        0 <= cursor <= text.len(),
    ensures
        ({
            let typed = edited(text, cursor, press(KeyCode::Char(c)));
            edited(typed.0, typed.1, press(KeyCode::Backspace)) == (text, cursor)
        }),
{
    assert(text.insert(cursor, c).remove(cursor) =~= text);
}

/// So does a step to the left followed by Delete.
pub proof fn left_delete_undoes_typing(text: Seq<char>, cursor: int, c: char)
    requires
        0 <= cursor <= text.len(),
    ensures
        ({
            let typed = edited(text, cursor, press(KeyCode::Char(c)));
            let left = edited(typed.0, typed.1, press(KeyCode::Left));
            edited(left.0, left.1, press(KeyCode::Delete)) == (text, cursor)
        }),
{
    assert(text.insert(cursor, c).remove(cursor) =~= text);
}

/// With the cursor between `a` and `b`, a character goes in between them and the cursor
/// goes behind it. Control with a character puts in nothing; with `u` it clears all.
pub proof fn characters_go_in_at_the_cursor(a: Seq<char>, b: Seq<char>, key: KeyEvent, c: char)
    requires
        key.code == KeyCode::Char(c),
    ensures
        !key.control ==> edited(a + b, a.len() as int, key) == (
            a + seq![c] + b,
            a.len() as int + 1,
        ),
        key.control && c == 'u' ==> edited(a + b, a.len() as int, key) == (
            Seq::<char>::empty(),
            0int,
        ),
        key.control && c != 'u' ==> edited(a + b, a.len() as int, key) == (a + b, a.len() as int),
{
    assert((a + b).insert(a.len() as int, c) =~= a + seq![c] + b);
}

/// With the cursor between `a` and `b`, Backspace takes off the last character of `a`
/// and Delete the first one of `b`; neither does anything where there is none.
pub proof fn backspace_and_delete_take_off_a_neighbour(a: Seq<char>, b: Seq<char>, key: KeyEvent)
    ensures
        key.code == KeyCode::Backspace && a.len() > 0 ==> edited(a + b, a.len() as int, key) == (
            a.drop_last() + b,
            a.len() - 1,
        ),
        key.code == KeyCode::Backspace && a.len() == 0 ==> edited(a + b, a.len() as int, key) == (
            b,
            0int,
        ),
        key.code == KeyCode::Delete && b.len() > 0 ==> edited(a + b, a.len() as int, key) == (
            a + b.drop_first(),
            a.len() as int,
        ),
        key.code == KeyCode::Delete && b.len() == 0 ==> edited(a + b, a.len() as int, key) == (
            a,
            a.len() as int,
        ),
{
    if a.len() > 0 {
        assert((a + b).remove(a.len() - 1) =~= a.drop_last() + b);
    } else {
        assert(a + b =~= b);
    }
    if b.len() > 0 {
        assert((a + b).remove(a.len() as int) =~= a + b.drop_first());
    } else {
        assert(a + b =~= a);
    }
}

/// The arrows move the cursor by a character, Home and End to an end of the text. The
/// text stays as it is, and so does all else at any other key.
pub proof fn cursor_keys_move_the_cursor(text: Seq<char>, cursor: int, key: KeyEvent)
    requires
        0 <= cursor <= text.len(),
        key.code !is Char,
        key.code != KeyCode::Backspace,
        key.code != KeyCode::Delete,
    ensures
        edited(text, cursor, key).0 == text,
        key.code == KeyCode::Home ==> edited(text, cursor, key).1 == 0,
        key.code == KeyCode::End ==> edited(text, cursor, key).1 == text.len(),
        key.code == KeyCode::Left && cursor > 0 ==> edited(text, cursor, key).1 == cursor - 1,
        key.code == KeyCode::Left && cursor == 0 ==> edited(text, cursor, key).1 == 0,
        key.code == KeyCode::Right && cursor < text.len() ==> edited(text, cursor, key).1 == cursor
            + 1,
        key.code == KeyCode::Right && cursor == text.len() ==> edited(text, cursor, key).1
            == cursor,
        key.code != KeyCode::Home && key.code != KeyCode::End && key.code != KeyCode::Left
            && key.code != KeyCode::Right ==> edited(text, cursor, key).1 == cursor,
{
}

} // verus!
