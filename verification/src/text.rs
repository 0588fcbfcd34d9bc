//! Substring search and rewriting on names.
//!
//! Names are compared character by character and case-sensitively. A pattern
//! occurs in a text where the text holds the pattern's characters in a row.

use vstd::prelude::*;
use vstd::string::StrSliceExecFns;
use vstd::string::StringExecFns;

verus! {

/// Whether `pattern` stands in `text` starting at character `at`.
pub open spec fn occurs_at(text: Seq<char>, pattern: Seq<char>, at: int) -> bool {
    &&& 0 <= at
    &&& at + pattern.len() <= text.len()
    &&& text.subrange(at, at + pattern.len()) == pattern
}

/// Whether `pattern` stands anywhere in `text`.
pub open spec fn contains_text(text: Seq<char>, pattern: Seq<char>) -> bool {
    exists|at: int| occurs_at(text, pattern, at)
}

/// Whether `at` is the leftmost place where `pattern` stands in `text`.
pub open spec fn is_first_occurrence(text: Seq<char>, pattern: Seq<char>, at: int) -> bool {
    &&& occurs_at(text, pattern, at)
    &&& forall|earlier: int| 0 <= earlier < at ==> !occurs_at(text, pattern, earlier)
}

/// The leftmost place where `pattern` stands in `text`, where there is one.
pub open spec fn first_occurrence(text: Seq<char>, pattern: Seq<char>) -> int {
    choose|at: int| is_first_occurrence(text, pattern, at)
}

/// `text` with every occurrence of `token` taken out, reading from the left
/// and resuming behind each occurrence removed. An empty token removes nothing.
pub open spec fn without(text: Seq<char>, token: Seq<char>) -> Seq<char>
    decreases text.len(),
{
    if token.len() == 0 || text.len() < token.len() {
        text
    } else if text.subrange(0, token.len() as int) == token {
        without(text.subrange(token.len() as int, text.len() as int), token)
    } else {
        seq![text[0]] + without(text.subrange(1, text.len() as int), token)
    }
}

/// `text` with its leftmost occurrence of `old` exchanged for `new`; `text`
/// itself where `old` does not occur.
pub open spec fn with_first_replaced(text: Seq<char>, old: Seq<char>, new: Seq<char>) -> Seq<
    char,
> {
    if contains_text(text, old) {
        let at = first_occurrence(text, old);
        text.subrange(0, at) + new + text.subrange(at + old.len(), text.len() as int)
    } else {
        text
    }
}

/// A text has at most one leftmost occurrence of a pattern.
pub proof fn lemma_first_occurrence_unique(text: Seq<char>, pattern: Seq<char>, a: int, b: int)
    requires
        is_first_occurrence(text, pattern, a),
        is_first_occurrence(text, pattern, b),
    ensures
        a == b,
{
}

/// Where a pattern occurs at all, `first_occurrence` names its leftmost place.
pub proof fn lemma_first_occurrence(text: Seq<char>, pattern: Seq<char>, at: int)
    requires
        is_first_occurrence(text, pattern, at),
    ensures
        contains_text(text, pattern),
        first_occurrence(text, pattern) == at,
{
    lemma_first_occurrence_unique(text, pattern, at, first_occurrence(text, pattern));
}

/// The characters of `text`, in order.
pub fn characters(text: &str) -> (chars: Vec<char>)
    ensures
        chars@ == text@,
{
    let mut chars: Vec<char> = Vec::new();
    for c in it: text.chars()
        invariant
            it.seq() == text@,
            chars@ == it.seq().subrange(0, it.index()),
    {
        chars.push(c);
    }
    chars
}

/// Whether `pattern` stands in `text` at `at`.
pub fn matches_at(text: &Vec<char>, pattern: &Vec<char>, at: usize) -> (r: bool)
    ensures
        r == occurs_at(text@, pattern@, at as int),
{
    if pattern.len() > text.len() || at > text.len() - pattern.len() {
        return false;
    }
    let mut k: usize = 0;
    while k < pattern.len()
        invariant
            k <= pattern.len(),
            at + pattern.len() <= text.len(),
            forall|l: int| 0 <= l < k ==> text@[at + l] == pattern@[l],
        decreases pattern.len() - k,
    {
        if text[at + k] != pattern[k] {
            return false;
        }
        k += 1;
    }
    proof {
        assert(text@.subrange(at as int, at + pattern.len()) =~= pattern@);
    }
    true
}

/// The leftmost place at or after `from` where `pattern` stands in `text`.
pub fn find_from(text: &Vec<char>, pattern: &Vec<char>, from: usize) -> (r: Option<usize>)
    ensures
        match r {
            Some(at) => {
                &&& from <= at
                &&& occurs_at(text@, pattern@, at as int)
                &&& forall|earlier: int| from <= earlier < at ==> !occurs_at(text@, pattern@, earlier)
            },
            None => forall|at: int| from <= at ==> !occurs_at(text@, pattern@, at),
        },
{
    if pattern.len() > text.len() || from > text.len() - pattern.len() {
        return None;
    }
    let last: usize = text.len() - pattern.len();
    let mut at: usize = from;
    loop
        invariant
            from <= at <= last,
            last == text.len() - pattern.len(),
            forall|earlier: int| from <= earlier < at ==> !occurs_at(text@, pattern@, earlier),
        decreases last - at,
    {
        if matches_at(text, pattern, at) {
            return Some(at);
        }
        if at == last {
            return None;
        }
        at += 1;
    }
}

/// Case-sensitive substring test.
pub fn contains(text: &str, pattern: &str) -> (r: bool)
    ensures
        r == contains_text(text@, pattern@),
{
    let text_chars = characters(text);
    let pattern_chars = characters(pattern);
    match find_from(&text_chars, &pattern_chars, 0) {
        Some(at) => true,
        None => false,
    }
}

/// Removes every occurrence of `token` from `text`.
pub fn remove_all(text: &str, token: &str) -> (r: String)
    ensures
        r@ == without(text@, token@),
{
    let text_chars = characters(text);
    let token_chars = characters(token);
    let n: usize = text_chars.len();
    let m: usize = token_chars.len();
    if m == 0 || n < m {
        return String::from_str(text);
    }
    let mut kept = String::new();
    let mut start: usize = 0;
    let mut at: usize = 0;
    proof {
        assert(text@.subrange(0, n as int) =~= text@);
    }
    while at <= n - m
        invariant
            0 < m <= n,
            n == text@.len(),
            m == token@.len(),
            text_chars@ == text@,
            token_chars@ == token@,
            start <= at <= n,
            without(text@, token@) == kept@ + text@.subrange(start as int, at as int) + without(
                text@.subrange(at as int, n as int),
                token@,
            ),
        decreases n - at,
    {
        let ghost rest = text@.subrange(at as int, n as int);
        proof {
            assert(rest.subrange(0, m as int) =~= text@.subrange(at as int, at + m));
        }
        if matches_at(&text_chars, &token_chars, at) {
            proof {
                assert(rest.subrange(m as int, rest.len() as int) =~= text@.subrange(
                    at + m,
                    n as int,
                ));
            }
            kept.append(text.substring_char(start, at));
            at = at + m;
            start = at;
        } else {
            proof {
                assert(rest.subrange(1, rest.len() as int) =~= text@.subrange(at + 1, n as int));
            }
            at = at + 1;
        }
    }
    kept.append(text.substring_char(start, n));
    kept
}

/// Exchanges the leftmost occurrence of `old` in `text` for `new`.
pub fn replace_first(text: &str, old: &str, new: &str) -> (r: String)
    ensures
        r@ == with_first_replaced(text@, old@, new@),
{
    let text_chars = characters(text);
    let old_chars = characters(old);
    match find_from(&text_chars, &old_chars, 0) {
        Some(at) => {
            proof {
                lemma_first_occurrence(text@, old@, at as int);
            }
            assert(at + old_chars.len() <= text_chars.len());
            let mut r = String::from_str(text.substring_char(0, at));
            r.append(new);
            r.append(text.substring_char(at + old_chars.len(), text_chars.len()));
            r
        },
        None => String::from_str(text),
    }
}

/// `head`, two underscores, `tail`.
pub fn join_names(head: &str, tail: &str) -> (r: String)
    ensures
        r@ == head@ + "__"@ + tail@,
{
    let mut r = String::from_str(head);
    r.append("__");
    r.append(tail);
    r
}

} // verus!
