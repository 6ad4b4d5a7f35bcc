//! Text as sequences of characters: comparing a token with a word, and
//! splitting the text of a server variable into its name and its value.

use vstd::prelude::*;
use vstd::string::*;

verus! {

/// The separator `": "` stands in `text` at position `i`.
pub open spec fn separator_at(text: Seq<char>, i: int) -> bool {
    &&& 0 <= i
    &&& i + 1 < text.len()
    &&& text[i] == ':'
    &&& text[i + 1] == ' '
}

/// The separator stands at `i` and nowhere before it.
pub open spec fn is_first_separator(text: Seq<char>, i: int) -> bool {
    &&& separator_at(text, i)
    &&& forall|j: int| 0 <= j < i ==> !separator_at(text, j)
}

/// The value half of a text of the form `<name>: <value>`: all that follows
/// the first separator, or nothing where the text holds no separator.
pub open spec fn value_part(text: Seq<char>) -> Option<Seq<char>> {
    if exists|i: int| separator_at(text, i) {
        Some(text.skip((choose|i: int| is_first_separator(text, i)) + 2))
    } else {
        None
    }
}

/// A text has at most one first separator, so `value_part` is what follows
/// any position that is one.
pub proof fn lemma_value_part_at(text: Seq<char>, i: int)
    requires
        is_first_separator(text, i),
    ensures
        value_part(text) == Some(text.skip(i + 2)),
{
    let k = choose|k: int| is_first_separator(text, k);
    assert(separator_at(text, k));
    assert(k == i);
}

/// The characters of a text, in order.
pub fn chars_of(s: &str) -> (v: Vec<char>)
    ensures
        v@ == s@,
{
    let mut v: Vec<char> = Vec::new();
    for c in it: s.chars()
        invariant
            v@ == it.seq().take(it.index() as int),
            it.seq() == s@,
    {
        v.push(c);
    }
    v
}

/// Whether the characters of `token` spell exactly `word`.
pub fn is_word(token: &Vec<char>, word: &str) -> (same: bool)
    ensures
        same == (token@ == word@),
{
    let mut i: usize = 0;
    for c in it: word.chars()
        invariant
            it.seq() == word@,
            i == it.index(),
            i <= token.len(),
            token@.take(i as int) == word@.take(i as int),
    {
        if i >= token.len() || token[i] != c {
            return false;
        }
        assert(token@.take(i + 1) == token@.take(i as int).push(token@[i as int]));
        assert(word@.take(i + 1) == word@.take(i as int).push(word@[i as int]));
        i += 1;
    }
    assert(word@.take(i as int) == word@);
    assert(i == token.len() ==> token@.take(i as int) == token@);
    i == token.len()
}

/// Splits the text of a variable, `<name>: <value>`, at its first `": "` and
/// returns the value half.
pub fn split_value(text: &str) -> (value: Option<String>)
    ensures
        value.deep_view() == value_part(text@),
{
    let cs = chars_of(text);
    let n = cs.len();
    if n < 2 {
        return None;
    }
    let mut i: usize = 0;
    while i < n - 1
        invariant
            2 <= n == cs.len(),
            cs@ == text@,
            forall|j: int| 0 <= j < i ==> !separator_at(text@, j),
        decreases n - i,
    {
        if cs[i] == ':' && cs[i + 1] == ' ' {
            proof {
                lemma_value_part_at(text@, i as int);
            }
            let rest = text.substring_char(i + 2, n);
            return Some(String::from_str(rest));
        }
        i += 1;
    }
    None
}

} // verus!
