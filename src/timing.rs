//! How long a word stays on screen.
use vstd::prelude::*;

verus! {

/// Characters that close a sentence: the word after them waits twice as long.
pub open spec fn is_sentence_end(c: char) -> bool {
    c == '.' || c == '!' || c == '?'
}

/// Characters that close a clause: the word after them waits half as long again.
pub open spec fn is_clause_end(c: char) -> bool {
    c == ',' || c == ':' || c == ';'
}

/// The punctuation factor of a word, counted in halves (2 = ×1, 3 = ×1.5, 4 = ×2).
pub open spec fn punctuation_halves(word: Seq<char>) -> int {
    if word.len() > 0 && is_sentence_end(word.last()) {
        4
    } else if word.len() > 0 && is_clause_end(word.last()) {
        3
    } else {
        2
    }
}

/// The whole dwell factor in halves: the punctuation factor, times five for
/// the first word shown after a start or a resume.
pub open spec fn dwell_halves(word: Seq<char>, is_initial: bool) -> int {
    if is_initial {
        5 * punctuation_halves(word)
    } else {
        punctuation_halves(word)
    }
}

/// `n / d` rounded to the nearest integer, halves rounded up.
pub open spec fn round_div(n: int, d: int) -> int {
    (2 * n + d) / (2 * d)
}

/// Dwell time in milliseconds: `60000 / wpm` scaled by the dwell factor, i.e.
/// `60000 * (halves / 2) / wpm`, rounded to the nearest millisecond.
pub open spec fn dwell_spec(wpm: int, word: Seq<char>, is_initial: bool) -> int {
    round_div(30000 * dwell_halves(word, is_initial), wpm)
}

/// The last character of `s`, if any.
pub fn last_char(s: &str) -> (r: Option<char>)
    ensures
        s@.len() == 0 ==> r is None,
        s@.len() > 0 ==> r == Some(s@.last()),
{
    let mut last: Option<char> = None;
    for c in it: s.chars()
        invariant
            it.seq() == s@,
            it.index() == 0 ==> last is None,
            it.index() > 0 ==> last == Some(s@[it.index() - 1]),
    {
        last = Some(c);
    }
    last
}

proof fn lemma_round_div(n: int, d: int)
    requires
        n >= 0,
        d > 0,
    ensures
        round_div(n, d) == n / d + (if 2 * (n % d) >= d { 1int } else { 0int }),
{
    let q = n / d;
    let r = n % d;
    vstd::arithmetic::div_mod::lemma_fundamental_div_mod(n, d);
    assert(2 * n + d == q * (2 * d) + (2 * r + d)) by (nonlinear_arith)
        requires
            n == d * q + r,
    ;
    if 2 * r >= d {
        assert(2 * n + d == (q + 1) * (2 * d) + (2 * r - d)) by (nonlinear_arith)
            requires
                2 * n + d == q * (2 * d) + (2 * r + d),
        ;
        vstd::arithmetic::div_mod::lemma_fundamental_div_mod_converse(
            2 * n + d,
            2 * d,
            q + 1,
            2 * r - d,
        );
    } else {
        vstd::arithmetic::div_mod::lemma_fundamental_div_mod_converse(
            2 * n + d,
            2 * d,
            q,
            2 * r + d,
        );
    }
}

/// Milliseconds to hold `word` at `wpm` words per minute.
pub fn dwell(wpm: u64, word: &str, is_initial: bool) -> (ms: u64)
    requires
        wpm >= 1,
    ensures
        ms == dwell_spec(wpm as int, word@, is_initial),
{
    let punct: u64 = match last_char(word) {
        Some(c) => if c == '.' || c == '!' || c == '?' {
            4
        } else if c == ',' || c == ':' || c == ';' {
            3
        } else {
            2
        },
        None => 2,
    };
    let halves: u64 = if is_initial {
        5 * punct
    } else {
        punct
    };
    round_ratio(30000 * halves, wpm)
}

/// `n / d` rounded to the nearest integer, halves rounded up.
pub fn round_ratio(n: u64, d: u64) -> (r: u64)
    requires
        d >= 1,
    ensures
        r == round_div(n as int, d as int),
{
    let q: u64 = n / d;
    let rem: u64 = n % d;
    proof {
        lemma_round_div(n as int, d as int);
    }
    if rem >= d - rem {
        proof {
            vstd::arithmetic::div_mod::lemma_fundamental_div_mod(n as int, d as int);
            assert(q < u64::MAX) by (nonlinear_arith)
                requires
                    d * q + rem == n,
                    rem < d,
                    d >= 2,
                    q >= 0,
                    n <= u64::MAX,
            ;
        }
        q + 1
    } else {
        q
    }
}

/// At any speed, a word without closing punctuation holds for
/// round(60000 / wpm) ms, and for five times as long when it is the first
/// word shown; a word that closes a sentence holds for round(60000 / wpm × 2)
/// ms; a word that closes a clause for round(60000 / wpm × 1.5) ms.
pub proof fn lemma_dwell_factors(wpm: int, word: Seq<char>)
    requires
        wpm >= 1,
    ensures
        word.len() == 0 || !(is_sentence_end(word.last()) || is_clause_end(word.last()))
            ==> dwell_spec(wpm, word, false) == round_div(60000, wpm) && dwell_spec(
            wpm,
            word,
            true,
        ) == round_div(60000int * 5, wpm),
        word.len() > 0 && is_sentence_end(word.last()) ==> dwell_spec(wpm, word, false)
            == round_div(60000int * 2, wpm),
        word.len() > 0 && is_clause_end(word.last()) ==> dwell_spec(wpm, word, false)
            == round_div(60000int * 3 / 2, wpm),
{
}

} // verus!
