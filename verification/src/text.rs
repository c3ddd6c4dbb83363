//! Small verified operations on text that the recognizers apply to what the
//! regex engine hands back.

use crate::matching::texts;
use vstd::prelude::*;

verus! {

/// `text` with every occurrence of `word` removed, scanning from the left
/// and never looking back into what was already passed. An empty `word`
/// removes nothing.
pub open spec fn without_word(text: Seq<char>, word: Seq<char>) -> Seq<char>
    decreases text.len(),
{
    if word.len() == 0 || text.len() < word.len() {
        text
    } else if text.take(word.len() as int) == word {
        without_word(text.skip(word.len() as int), word)
    } else {
        seq![text[0]] + without_word(text.skip(1), word)
    }
}

/// The value of a text that consists of exactly one ASCII decimal digit.
pub open spec fn digit_of(text: Seq<char>) -> Option<i32> {
    if text.len() == 1 && '0' <= text[0] <= '9' {
        Some((text[0] as u32 - '0' as u32) as i32)
    } else {
        None
    }
}

/// Whether `word` stands in `text` at character position `at`.
fn occurs_at(text: &str, at: usize, word: &str) -> (found: bool)
    requires
        at + word@.len() <= text@.len(),
    ensures
        found == (text@.subrange(at as int, at + word@.len()) == word@),
{
    let n: usize = text.unicode_len();
    let m: usize = word.unicode_len();
    let mut j: usize = 0;
    while j < m
        invariant
            j <= m,
            m == word@.len(),
            n == text@.len(),
            at + m <= n,
            forall|k: int| 0 <= k < j ==> text@[at + k] == word@[k],
        decreases m - j,
    {
        if text.get_char(at + j) != word.get_char(j) {
            return false;
        }
        j += 1;
    }
    assert(text@.subrange(at as int, at + m) =~= word@);
    true
}

/// Removes every occurrence of `word` from `text`, leftmost first.
pub fn strip_word(text: &str, word: &str) -> (out: String)
    ensures
        out@ == without_word(text@, word@),
{
    let n: usize = text.unicode_len();
    let m: usize = word.unicode_len();
    if m == 0 || n < m {
        return String::from_str(text);
    }
    let mut out = String::new();
    let mut i: usize = 0;
    assert(text@.skip(0) =~= text@);
    while i <= n - m
        invariant
            0 < m <= n,
            i <= n,
            n == text@.len(),
            m == word@.len(),
            out@ + without_word(text@.skip(i as int), word@) == without_word(text@, word@),
        decreases n - i,
    {
        let ghost rest = text@.skip(i as int);
        assert(rest.take(m as int) =~= text@.subrange(i as int, i + m));
        if occurs_at(text, i, word) {
            assert(rest.skip(m as int) =~= text@.skip(i + m));
            i += m;
        } else {
            out.append(text.substring_char(i, i + 1));
            assert(rest.skip(1) =~= text@.skip(i + 1));
            i += 1;
        }
    }
    out.append(text.substring_char(i, n));
    out
}

/// Concatenates the strings of `parts`, in order.
pub fn join_all(parts: &Vec<String>) -> (out: String)
    ensures
        out@ == texts(parts@).flatten(),
{
    let mut out = String::new();
    let mut i: usize = 0;
    while i < parts.len()
        invariant
            i <= parts.len(),
            out@ == texts(parts@).take(i as int).flatten(),
        decreases parts.len() - i,
    {
        proof {
            let all = texts(parts@);
            assert(all.take(i + 1) =~= all.take(i as int).push(parts@[i as int]@));
            all.take(i as int).lemma_flatten_push(parts@[i as int]@);
        }
        out.append(parts[i].as_str());
        i += 1;
    }
    assert(texts(parts@).take(parts.len() as int) =~= texts(parts@));
    out
}

/// Reads `text` as a single ASCII decimal digit.
pub fn digit_value(text: &str) -> (value: Option<i32>)
    ensures
        value == digit_of(text@),
{
    if text.unicode_len() != 1 {
        return None;
    }
    let c = text.get_char(0);
    if '0' <= c && c <= '9' {
        Some((c as u32 - '0' as u32) as i32)
    } else {
        None
    }
}

} // verus!
