//! Searching and splitting sequences of characters.
//!
//! The contracts speak of `Seq<char>`, the view of `str` and `String`; the
//! executable functions work on `Vec<char>`, which [`chars_of`] makes of a
//! string and [`string_of`] turns back into one.

use vstd::prelude::*;

verus! {

/// `pattern` fills the positions `at .. at + pattern.len()` of `text`.
pub open spec fn occurs_at(text: Seq<char>, pattern: Seq<char>, at: int) -> bool {
    &&& 0 <= at
    &&& at + pattern.len() <= text.len()
    &&& text.subrange(at, at + pattern.len()) == pattern
}

/// `pattern` occurs somewhere in `text`, at any position and with anything
/// around it. The empty pattern occurs in every text.
pub open spec fn contains(text: Seq<char>, pattern: Seq<char>) -> bool {
    exists|at: int| occurs_at(text, pattern, at)
}

/// `pattern` occurs at `at` and nowhere to the left of it.
pub open spec fn is_first_occurrence(text: Seq<char>, pattern: Seq<char>, at: int) -> bool {
    &&& occurs_at(text, pattern, at)
    &&& forall|before: int| 0 <= before < at ==> !occurs_at(text, pattern, before)
}

/// The leftmost position at which `pattern` occurs in `text`. It says nothing
/// of a text that does not contain the pattern.
pub open spec fn first_occurrence(text: Seq<char>, pattern: Seq<char>) -> int {
    choose|at: int| is_first_occurrence(text, pattern, at)
}

/// What stands in `text` to the left of the first `pattern`; all of `text`
/// where there is none.
pub open spec fn before_first(text: Seq<char>, pattern: Seq<char>) -> Seq<char> {
    if contains(text, pattern) {
        text.take(first_occurrence(text, pattern))
    } else {
        text
    }
}

/// What stands in `text` to the right of the first `pattern`. It says nothing
/// of a text that does not contain the pattern.
pub open spec fn after_first(text: Seq<char>, pattern: Seq<char>) -> Seq<char> {
    text.skip(first_occurrence(text, pattern) + pattern.len())
}

/// The pieces of `text` between the occurrences of `separator`, in order.
/// There is always at least one piece, and a piece may be empty: a separator
/// at either end of the text, or two in a row, leave an empty piece.
pub open spec fn split(text: Seq<char>, separator: char) -> Seq<Seq<char>>
    decreases text.len(),
{
    if text.len() == 0 {
        seq![Seq::empty()]
    } else {
        let pieces = split(text.drop_last(), separator);
        if text.last() == separator {
            pieces.push(Seq::empty())
        } else {
            pieces.drop_last().push(pieces.last().push(text.last()))
        }
    }
}

/// The pieces as sequences of characters.
pub open spec fn views_of(pieces: Seq<Vec<char>>) -> Seq<Seq<char>> {
    pieces.map_values(|piece: Vec<char>| piece@)
}

/// A pattern that a text contains has a leftmost occurrence.
pub proof fn lemma_first_occurrence(text: Seq<char>, pattern: Seq<char>)
    requires
        contains(text, pattern),
    ensures
        is_first_occurrence(text, pattern, first_occurrence(text, pattern)),
{
    let some = choose|at: int| occurs_at(text, pattern, at);
    lemma_leftmost_up_to(text, pattern, some);
}

/// Below an occurrence there is a leftmost one.
proof fn lemma_leftmost_up_to(text: Seq<char>, pattern: Seq<char>, at: int)
    requires
        occurs_at(text, pattern, at),
    ensures
        exists|first: int| is_first_occurrence(text, pattern, first),
    decreases at,
{
    if exists|before: int| 0 <= before < at && occurs_at(text, pattern, before) {
        let before = choose|before: int| 0 <= before < at && occurs_at(text, pattern, before);
        lemma_leftmost_up_to(text, pattern, before);
    } else {
        assert(is_first_occurrence(text, pattern, at));
    }
}

/// There is one leftmost occurrence only.
pub proof fn lemma_first_occurrence_is(text: Seq<char>, pattern: Seq<char>, at: int)
    requires
        is_first_occurrence(text, pattern, at),
    ensures
        contains(text, pattern),
        first_occurrence(text, pattern) == at,
{
    let first = first_occurrence(text, pattern);
    assert(is_first_occurrence(text, pattern, first));
    if first < at {
        assert(!occurs_at(text, pattern, first));
    } else if at < first {
        assert(!occurs_at(text, pattern, at));
    }
}

/// A text without the separator is one piece.
pub proof fn lemma_split_without_separator(text: Seq<char>, separator: char)
    requires
        !text.contains(separator),
    ensures
        split(text, separator) == seq![text],
    decreases text.len(),
{
    if text.len() == 0 {
        assert(text =~= Seq::empty());
    } else {
        let front = text.drop_last();
        assert forall|i: int| 0 <= i < front.len() implies front[i] != separator by {
            assert(text[i] == front[i]);
            assert(text.contains(text[i]));
        }
        assert(!front.contains(separator));
        lemma_split_without_separator(front, separator);
        assert(text.contains(text.last()));
        assert(front.push(text.last()) =~= text);
        assert(seq![front].drop_last().push(seq![front].last().push(text.last())) =~= seq![text]);
    }
}

/// A separator cuts a text in two: the pieces of the whole are the pieces of
/// what stands before it, followed by the pieces of what stands after it.
pub proof fn lemma_split_at_separator(left: Seq<char>, separator: char, right: Seq<char>)
    ensures
        split(left + seq![separator] + right, separator) == split(left, separator) + split(
            right,
            separator,
        ),
    decreases right.len(),
{
    let whole = left + seq![separator] + right;
    if right.len() == 0 {
        assert(whole.drop_last() =~= left);
        assert(split(left, separator).push(Seq::empty()) =~= split(left, separator)
            + seq![Seq::<char>::empty()]);
    } else {
        let front = right.drop_last();
        let before = split(left, separator);
        let after = split(front, separator);
        lemma_split_at_separator(left, separator, front);
        lemma_split_is_not_empty(front, separator);
        assert(whole.drop_last() =~= left + seq![separator] + front);
        assert(whole.last() == right.last());
        if right.last() == separator {
            assert((before + after).push(Seq::empty()) =~= before + after.push(Seq::empty()));
        } else {
            assert((before + after).drop_last().push((before + after).last().push(right.last()))
                =~= before + after.drop_last().push(after.last().push(right.last())));
        }
    }
}

/// Every text has at least one piece.
pub proof fn lemma_split_is_not_empty(text: Seq<char>, separator: char)
    ensures
        split(text, separator).len() >= 1,
    decreases text.len(),
{
    if text.len() > 0 {
        lemma_split_is_not_empty(text.drop_last(), separator);
    }
}

/// A pattern that does not hold the separator cannot lie across one: where
/// it occurs in `left`, a separator and `right`, it occurs in `left`, at the
/// same place, or in `right`.
pub proof fn lemma_occurrence_beside_separator(
    left: Seq<char>,
    separator: char,
    right: Seq<char>,
    pattern: Seq<char>,
    at: int,
)
    requires
        !pattern.contains(separator),
        occurs_at(left + seq![separator] + right, pattern, at),
    ensures
        occurs_at(left, pattern, at) || (at > left.len() && occurs_at(
            right,
            pattern,
            at - left.len() - 1,
        )),
{
    let whole = left + seq![separator] + right;
    let window = whole.subrange(at, at + pattern.len());
    if at <= left.len() < at + pattern.len() {
        assert(window[left.len() - at] == separator);
        assert(pattern.contains(pattern[left.len() - at]));
    } else if at + pattern.len() <= left.len() {
        assert(left.subrange(at, at + pattern.len()) =~= window);
    } else {
        let from = at - left.len() - 1;
        assert(right.subrange(from, from + pattern.len()) =~= window);
    }
}

/// A pattern that does not hold the separator occurs in `left`, a separator
/// and `right` just where it occurs in one of the two.
pub proof fn lemma_contains_beside_separator(
    left: Seq<char>,
    separator: char,
    right: Seq<char>,
    pattern: Seq<char>,
)
    requires
        !pattern.contains(separator),
    ensures
        contains(left + seq![separator] + right, pattern) <==> contains(left, pattern) || contains(
            right,
            pattern,
        ),
{
    let whole = left + seq![separator] + right;
    if contains(whole, pattern) {
        let at = choose|at: int| occurs_at(whole, pattern, at);
        lemma_occurrence_beside_separator(left, separator, right, pattern, at);
    }
    if contains(left, pattern) {
        let at = choose|at: int| occurs_at(left, pattern, at);
        assert(whole.subrange(at, at + pattern.len()) =~= left.subrange(at, at + pattern.len()));
        assert(occurs_at(whole, pattern, at));
    }
    if contains(right, pattern) {
        let at = choose|at: int| occurs_at(right, pattern, at);
        let moved = at + left.len() + 1;
        assert(whole.subrange(moved, moved + pattern.len()) =~= right.subrange(
            at,
            at + pattern.len(),
        ));
        assert(occurs_at(whole, pattern, moved));
    }
}

/// `String::push` of the standard library: it appends `c` to the end of the
/// string and leaves what was there as it was.
pub assume_specification[ String::push ](s: &mut String, c: char)
    ensures
        final(s)@ == old(s)@.push(c),
;

/// The characters of `s`, in order.
pub fn chars_of(s: &str) -> (chars: Vec<char>)
    ensures
        chars@ == s@,
{
    broadcast use vstd::string::axiom_spec_iter;

    let mut chars: Vec<char> = Vec::new();
    let it = s.chars();
    for c in iter: it
        invariant
            iter.seq() == s@,
            chars@ == iter.history(),
    {
        chars.push(c);
    }
    chars
}

/// The string made of `chars`, in order.
pub fn string_of(chars: &Vec<char>) -> (s: String)
    ensures
        s@ == chars@,
{
    let mut s = String::new();
    let mut done: usize = 0;
    while done < chars.len()
        invariant
            done <= chars.len(),
            s@ == chars@.take(done as int),
        decreases chars.len() - done,
    {
        s.push(chars[done]);
        done += 1;
    }
    s
}

/// A copy of the positions `from .. to` of `text`.
pub fn copy_range(text: &Vec<char>, from: usize, to: usize) -> (part: Vec<char>)
    requires
        from <= to <= text.len(),
    ensures
        part@ == text@.subrange(from as int, to as int),
{
    let mut part: Vec<char> = Vec::new();
    let mut next: usize = from;
    while next < to
        invariant
            from <= next <= to <= text.len(),
            part@ == text@.subrange(from as int, next as int),
        decreases to - next,
    {
        part.push(text[next]);
        next += 1;
    }
    part
}

/// Whether `pattern` stands in `text` at `at`.
pub fn matches_at(text: &Vec<char>, pattern: &Vec<char>, at: usize) -> (matches: bool)
    ensures
        matches == occurs_at(text@, pattern@, at as int),
{
    if pattern.len() > text.len() || at > text.len() - pattern.len() {
        return false;
    }
    let mut same: usize = 0;
    while same < pattern.len()
        invariant
            same <= pattern.len(),
            at + pattern.len() <= text.len(),
            forall|k: int| 0 <= k < same ==> text@[at + k] == pattern@[k],
        decreases pattern.len() - same,
    {
        if text[at + same] != pattern[same] {
            return false;
        }
        same += 1;
    }
    assert(text@.subrange(at as int, at + pattern.len()) =~= pattern@);
    true
}

/// The leftmost position at which `pattern` occurs in `text`, if it occurs.
pub fn find(text: &Vec<char>, pattern: &Vec<char>) -> (found: Option<usize>)
    ensures
        found is Some <==> contains(text@, pattern@),
        found matches Some(at) ==> at == first_occurrence(text@, pattern@)
            && is_first_occurrence(text@, pattern@, at as int),
        found matches Some(at) ==> at + pattern.len() <= text.len(),
{
    if pattern.len() > text.len() {
        return None;
    }
    let last: usize = text.len() - pattern.len();
    let mut at: usize = 0;
    loop
        invariant
            pattern.len() <= text.len(),
            last == text.len() - pattern.len(),
            at <= last,
            forall|before: int| 0 <= before < at ==> !occurs_at(text@, pattern@, before),
        decreases last - at,
    {
        if matches_at(text, pattern, at) {
            proof {
                lemma_first_occurrence_is(text@, pattern@, at as int);
            }
            return Some(at);
        }
        if at == last {
            return None;
        }
        at += 1;
    }
}

/// Whether `text` is exactly `word`.
pub fn equals(text: &Vec<char>, word: &str) -> (same: bool)
    ensures
        same == (text@ == word@),
{
    let letters = chars_of(word);
    let same = text.len() == letters.len() && matches_at(text, &letters, 0);
    proof {
        if text@.len() == letters@.len() {
            assert(text@.subrange(0, text@.len() as int) =~= text@);
        }
    }
    same
}

/// Whether `pattern` occurs anywhere in `text`.
pub fn includes(text: &Vec<char>, pattern: &Vec<char>) -> (found: bool)
    ensures
        found == contains(text@, pattern@),
{
    find(text, pattern).is_some()
}

/// The pieces of `text` between the occurrences of `separator`.
pub fn split_at(text: &Vec<char>, separator: char) -> (pieces: Vec<Vec<char>>)
    ensures
        views_of(pieces@) == split(text@, separator),
{
    let mut pieces: Vec<Vec<char>> = Vec::new();
    let mut piece: Vec<char> = Vec::new();
    let mut done: usize = 0;
    while done < text.len()
        invariant
            done <= text.len(),
            views_of(pieces@).push(piece@) == split(text@.take(done as int), separator),
        decreases text.len() - done,
    {
        let c = text[done];
        proof {
            let seen = text@.take(done + 1);
            assert(seen.drop_last() =~= text@.take(done as int));
        }
        if c == separator {
            pieces.push(piece);
            piece = Vec::new();
        } else {
            piece.push(c);
        }
        done += 1;
    }
    assert(text@.take(done as int) =~= text@);
    pieces.push(piece);
    pieces
}

} // verus!
