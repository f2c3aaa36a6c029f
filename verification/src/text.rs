//! Substring search over the characters of a text, and the delimiter scanner
//! built on it.

use vstd::prelude::*;

verus! {

/// `String::push` of the standard library: afterwards the string holds what
/// it held before, followed by `c` as its last character.
pub assume_specification[ String::push ](s: &mut String, c: char)
    ensures
        final(s)@ == old(s)@.push(c),
;

/// `pat` stands in `text` at index `at`.
pub open spec fn occurs_at(text: Seq<char>, pat: Seq<char>, at: int) -> bool {
    &&& 0 <= at
    &&& at + pat.len() <= text.len()
    &&& text.subrange(at, at + pat.len()) == pat
}

/// `at` is the first index, not before `from`, at which `pat` stands in `text`.
pub open spec fn first_at(text: Seq<char>, pat: Seq<char>, from: int, at: int) -> bool {
    &&& from <= at
    &&& occurs_at(text, pat, at)
    &&& forall|j: int| from <= j < at ==> !occurs_at(text, pat, j)
}

/// The index of the first occurrence of `pat` in `text` at or after `from`,
/// if there is one.
pub open spec fn position(text: Seq<char>, pat: Seq<char>, from: int) -> Option<int> {
    if exists|at: int| first_at(text, pat, from, at) {
        Some(choose|at: int| first_at(text, pat, from, at))
    } else {
        None
    }
}

/// The text strictly between the first occurrence of `opening` and the first
/// occurrence of `closing` that begins after it. There is none when `opening`
/// does not occur, or when no `closing` follows it.
pub open spec fn enclosed(text: Seq<char>, opening: Seq<char>, closing: Seq<char>) -> Option<
    Seq<char>,
> {
    match position(text, opening, 0) {
        None => None,
        Some(start) => match position(text, closing, start + opening.len()) {
            None => None,
            Some(end) => Some(text.subrange(start + opening.len(), end)),
        },
    }
}

/// What an optional string holds, as characters.
pub open spec fn chars_in(found: Option<String>) -> Option<Seq<char>> {
    match found {
        Some(s) => Some(s@),
        None => None,
    }
}

/// A first occurrence, once known, is what `position` names.
pub proof fn lemma_position_found(text: Seq<char>, pat: Seq<char>, from: int, at: int)
    requires
        first_at(text, pat, from, at),
    ensures
        position(text, pat, from) == Some(at),
{
    let chosen = choose|k: int| first_at(text, pat, from, k);
    assert(first_at(text, pat, from, chosen));
    if chosen < at {
        assert(!occurs_at(text, pat, chosen));
    } else if at < chosen {
        assert(!occurs_at(text, pat, at));
    }
}

/// What `position` names is a first occurrence.
pub proof fn lemma_position_is_first(text: Seq<char>, pat: Seq<char>, from: int)
    requires
        position(text, pat, from) is Some,
    ensures
        first_at(text, pat, from, position(text, pat, from).unwrap()),
{
}

/// Where `pat` stands nowhere at or after `from`, `position` names nothing.
pub proof fn lemma_position_absent(text: Seq<char>, pat: Seq<char>, from: int)
    requires
        forall|j: int| from <= j ==> !occurs_at(text, pat, j),
    ensures
        position(text, pat, from) is None,
{
}

/// Where `pat` stands at `at`, not before `from`, there is a first such
/// place, and it is not after `at`.
pub proof fn lemma_position_exists(text: Seq<char>, pat: Seq<char>, from: int, at: int)
    requires
        from <= at,
        occurs_at(text, pat, at),
    ensures
        position(text, pat, from) matches Some(first) && first <= at,
    decreases at - from,
{
    if occurs_at(text, pat, from) {
        lemma_position_found(text, pat, from, from);
    } else {
        lemma_position_exists(text, pat, from + 1, at);
        let first = position(text, pat, from + 1).unwrap();
        assert(first_at(text, pat, from + 1, first));
        lemma_position_found(text, pat, from, first);
    }
}

/// The characters of `s`, in order.
pub fn chars_of(s: &str) -> (chars: Vec<char>)
    ensures
        chars@ == s@,
{
    broadcast use vstd::string::axiom_spec_iter;

    let mut chars: Vec<char> = Vec::new();
    for c in it: s.chars()
        invariant
            it.seq() == s@,
            chars@ == s@.take(it.index()),
    {
        chars.push(c);
    }
    chars
}

/// The characters of `text` from index `from` up to, not including, `to`.
fn string_of(text: &[char], from: usize, to: usize) -> (s: String)
    requires
        from <= to <= text.len(),
    ensures
        s@ == text@.subrange(from as int, to as int),
{
    let mut s = String::new();
    let mut k: usize = from;
    while k < to
        invariant
            from <= k <= to <= text.len(),
            s@ == text@.subrange(from as int, k as int),
        decreases to - k,
    {
        s.push(text[k]);
        k += 1;
        assert(s@ =~= text@.subrange(from as int, k as int));
    }
    s
}

/// Whether `pat` stands in `text` at index `at`.
pub fn matches_at(text: &[char], pat: &[char], at: usize) -> (hit: bool)
    ensures
        hit == occurs_at(text@, pat@, at as int),
{
    if at > text.len() || pat.len() > text.len() - at {
        return false;
    }
    let mut k: usize = 0;
    while k < pat.len()
        invariant
            at + pat.len() <= text.len(),
            k <= pat.len(),
            forall|i: int| 0 <= i < k ==> text@[at + i] == pat@[i],
        decreases pat.len() - k,
    {
        if text[at + k] != pat[k] {
            assert(text@.subrange(at as int, at + pat.len())[k as int] != pat@[k as int]);
            return false;
        }
        k += 1;
    }
    assert(text@.subrange(at as int, at + pat.len()) =~= pat@);
    true
}

/// The index of the first occurrence of `pat` in `text` at or after `from`.
pub fn find_from(text: &[char], pat: &[char], from: usize) -> (found: Option<usize>)
    ensures
        match found {
            Some(at) => position(text@, pat@, from as int) == Some(at as int),
            None => position(text@, pat@, from as int) is None,
        },
{
    let mut at: usize = from;
    while at <= text.len()
        invariant
            from <= at,
            forall|j: int| from <= j < at ==> !occurs_at(text@, pat@, j),
        decreases text.len() + 1 - at,
    {
        if matches_at(text, pat, at) {
            proof {
                lemma_position_found(text@, pat@, from as int, at as int);
            }
            return Some(at);
        }
        if at == text.len() {
            proof {
                lemma_position_absent(text@, pat@, from as int);
            }
            return None;
        }
        at += 1;
    }
    proof {
        lemma_position_absent(text@, pat@, from as int);
    }
    None
}

/// The delimiter scanner on characters: the text between the first `opening`
/// and the first `closing` after it.
pub fn enclosed_in(text: &[char], opening: &[char], closing: &[char]) -> (found: Option<String>)
    ensures
        chars_in(found) == enclosed(text@, opening@, closing@),
{
    match find_from(text, opening, 0) {
        None => None,
        Some(start) => {
            proof {
                lemma_position_is_first(text@, opening@, 0);
                assert(text@.len() == text.len());
            }
            let inner: usize = start + opening.len();
            match find_from(text, closing, inner) {
                None => None,
                Some(end) => {
                    proof {
                        lemma_position_is_first(text@, closing@, inner as int);
                    }
                    Some(string_of(text, inner, end))
                },
            }
        },
    }
}

/// Finds the first stretch of `html` that stands between `opening` and
/// `closing`: what follows the first `opening`, up to the first `closing`
/// after it. Without an `opening`, or without a `closing` after it, nothing
/// is found; the rest of the text is never handed out in its place.
pub fn find_enclosed(html: &str, opening: &str, closing: &str) -> (found: Option<String>)
    ensures
        chars_in(found) == enclosed(html@, opening@, closing@),
        (forall|j: int| !occurs_at(html@, opening@, j)) ==> found is None,
        forall|start: int|
            first_at(html@, opening@, 0, start) && (forall|j: int|
                start + opening@.len() <= j ==> !occurs_at(html@, closing@, j)) ==> found is None,
{
    let text = chars_of(html);
    let opening_chars = chars_of(opening);
    let closing_chars = chars_of(closing);
    let found = enclosed_in(text.as_slice(), opening_chars.as_slice(), closing_chars.as_slice());
    proof {
        if forall|j: int| !occurs_at(html@, opening@, j) {
            lemma_no_opening(html@, opening@, closing@);
        }
        assert forall|start: int|
            first_at(html@, opening@, 0, start) && (forall|j: int|
                start + opening@.len() <= j ==> !occurs_at(html@, closing@, j)) implies found is None by {
            lemma_no_closing(html@, opening@, closing@, start);
        }
    }
    found
}

/// A text in which `opening` stands nowhere encloses nothing.
pub proof fn lemma_no_opening(text: Seq<char>, opening: Seq<char>, closing: Seq<char>)
    requires
        forall|j: int| !occurs_at(text, opening, j),
    ensures
        enclosed(text, opening, closing) is None,
{
    lemma_position_absent(text, opening, 0);
}

/// Where `opening` first stands at `start` and no `closing` begins after it,
/// nothing is enclosed: the tail of the text is not a result.
pub proof fn lemma_no_closing(text: Seq<char>, opening: Seq<char>, closing: Seq<char>, start: int)
    requires
        first_at(text, opening, 0, start),
        forall|j: int| start + opening.len() <= j ==> !occurs_at(text, closing, j),
    ensures
        enclosed(text, opening, closing) is None,
{
    lemma_position_found(text, opening, 0, start);
    lemma_position_absent(text, closing, start + opening.len());
}

/// In `before + opening + inner + closing + after` the scanner finds exactly
/// `inner`, whatever `after` holds, provided that the `opening` shown is the
/// first one (none begins inside `before`) and the `closing` shown is the
/// first one after it (none begins inside `inner`).
pub proof fn lemma_enclosed_between(
    before: Seq<char>,
    opening: Seq<char>,
    inner: Seq<char>,
    closing: Seq<char>,
    after: Seq<char>,
)
    requires
        forall|j: int| 0 <= j < before.len() ==> !occurs_at(before + opening, opening, j),
        forall|j: int| 0 <= j < inner.len() ==> !occurs_at(inner + closing, closing, j),
    ensures
        enclosed(before + opening + inner + closing + after, opening, closing) == Some(inner),
{
    let text = before + opening + inner + closing + after;
    let start = before.len() as int;
    let from = start + opening.len();
    let end = from + inner.len();
    assert(text.subrange(start, from) =~= opening);
    assert forall|j: int| 0 <= j < start implies !occurs_at(text, opening, j) by {
        if occurs_at(text, opening, j) {
            assert((before + opening).subrange(j, j + opening.len()) =~= text.subrange(
                j,
                j + opening.len(),
            ));
            assert(occurs_at(before + opening, opening, j));
        }
    }
    lemma_position_found(text, opening, 0, start);
    assert(text.subrange(end, end + closing.len()) =~= closing);
    assert forall|j: int| from <= j < end implies !occurs_at(text, closing, j) by {
        if occurs_at(text, closing, j) {
            assert((inner + closing).subrange(j - from, j - from + closing.len())
                =~= text.subrange(j, j + closing.len()));
            assert(occurs_at(inner + closing, closing, j - from));
        }
    }
    lemma_position_found(text, closing, from, end);
    assert(text.subrange(from, end) =~= inner);
}

/// Whatever the scanner finds stands in the text as the law above describes:
/// the text is `before + opening + inner + closing + after`, with no
/// `opening` beginning inside `before` and no `closing` beginning inside
/// `inner`.
pub proof fn lemma_enclosed_is_between(
    text: Seq<char>,
    opening: Seq<char>,
    closing: Seq<char>,
) -> (parts: (Seq<char>, Seq<char>, Seq<char>))
    requires
        enclosed(text, opening, closing) is Some,
    ensures
        enclosed(text, opening, closing) == Some(parts.1),
        text == parts.0 + opening + parts.1 + closing + parts.2,
        forall|j: int| 0 <= j < parts.0.len() ==> !occurs_at(parts.0 + opening, opening, j),
        forall|j: int| 0 <= j < parts.1.len() ==> !occurs_at(parts.1 + closing, closing, j),
{
    lemma_position_is_first(text, opening, 0);
    let start = position(text, opening, 0).unwrap();
    let from = start + opening.len();
    lemma_position_is_first(text, closing, from);
    let end = position(text, closing, from).unwrap();
    let before = text.take(start);
    let inner = text.subrange(from, end);
    let after = text.skip(end + closing.len());
    assert(text.subrange(start, from) == opening);
    assert(text.subrange(end, end + closing.len()) == closing);
    assert(text =~= before + text.subrange(start, from) + inner + text.subrange(
        end,
        end + closing.len(),
    ) + after);
    assert forall|j: int| 0 <= j < before.len() implies !occurs_at(before + opening, opening, j) by {
        if occurs_at(before + opening, opening, j) {
            assert(text.subrange(j, j + opening.len()) =~= (before + opening).subrange(
                j,
                j + opening.len(),
            ));
            assert(occurs_at(text, opening, j));
        }
    }
    assert forall|j: int| 0 <= j < inner.len() implies !occurs_at(inner + closing, closing, j) by {
        if occurs_at(inner + closing, closing, j) {
            assert(text.subrange(from + j, from + j + closing.len()) =~= (inner
                + closing).subrange(j, j + closing.len()));
            assert(occurs_at(text, closing, from + j));
        }
    }
    (before, inner, after)
}

} // verus!
