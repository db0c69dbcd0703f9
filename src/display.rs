//! The current word as the renderer shows it: split around its optimal
//! recognition point (the character the eye fixes on), with left padding
//! that brings that character near the centre.
use vstd::prelude::*;

verus! {

/// Index of the optimal recognition point in a word of `len` characters.
pub open spec fn orp_spec(len: int) -> int {
    if len > 13 {
        4
    } else if len >= 10 {
        3
    } else if len >= 6 {
        2
    } else if len >= 2 {
        1
    } else {
        0
    }
}

/// The parts of a word as drawn: `padding` spaces, `head`, the highlighted
/// `focus` character, then `tail`.
pub struct WordDisplay {
    pub padding: usize,
    pub head: Vec<char>,
    pub focus: char,
    pub tail: Vec<char>,
}

/// Index of the optimal recognition point in a word of `len` characters.
pub fn find_orp(len: usize) -> (r: usize)
    requires
        len >= 1,
    ensures
        r == orp_spec(len as int),
        r < len,
{
    if len > 13 {
        4
    } else {
        let idxs: [usize; 14] = [0, 0, 1, 1, 1, 1, 2, 2, 2, 2, 3, 3, 3, 3];
        assert(idxs@ == seq![0usize, 0, 1, 1, 1, 1, 2, 2, 2, 2, 3, 3, 3, 3]);
        idxs[len]
    }
}

/// The characters of `s`, in order.
pub fn chars_of(s: &str) -> (r: Vec<char>)
    ensures
        r@ == s@,
{
    let mut r: Vec<char> = Vec::new();
    for c in it: s.chars()
        invariant
            it.seq() == s@,
            r@ == s@.take(it.index() as int),
    {
        r.push(c);
    }
    r
}

/// The characters of `v` from `start` up to `end` (exclusive).
fn sub_chars(v: &Vec<char>, start: usize, end: usize) -> (r: Vec<char>)
    requires
        start <= end <= v@.len(),
    ensures
        r@ == v@.subrange(start as int, end as int),
{
    let mut r: Vec<char> = Vec::new();
    let mut i: usize = start;
    while i < end
        invariant
            start <= i <= end <= v@.len(),
            r@ == v@.subrange(start as int, i as int),
        decreases end - i,
    {
        r.push(v[i]);
        i = i + 1;
    }
    r
}

/// Splits a non-empty word around its optimal recognition point.
pub fn split_word(word: &str) -> (r: WordDisplay)
    requires
        word@.len() >= 1,
    ensures
        r.head@ == word@.subrange(0, orp_spec(word@.len() as int)),
        r.focus == word@[orp_spec(word@.len() as int)],
        r.tail@ == word@.subrange(orp_spec(word@.len() as int) + 1, word@.len() as int),
        r.padding == word@.len() - 2 * orp_spec(word@.len() as int),
{
    let chars = chars_of(word);
    let len = chars.len();
    let orp = find_orp(len);
    WordDisplay {
        padding: len - 2 * orp,
        head: sub_chars(&chars, 0, orp),
        focus: chars[orp],
        tail: sub_chars(&chars, orp + 1, len),
    }
}

} // verus!
