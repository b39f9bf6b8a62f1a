//! The few operations on text that reading a command takes.

use vstd::prelude::*;

verus! {

/// Whether `c` is white space, as Unicode defines it by the property
/// `White_Space`.
pub open spec fn is_whitespace(c: char) -> bool {
    ||| '\u{9}' <= c <= '\u{d}'
    ||| c == ' '
    ||| c == '\u{85}'
    ||| c == '\u{a0}'
    ||| c == '\u{1680}'
    ||| '\u{2000}' <= c <= '\u{200a}'
    ||| c == '\u{2028}'
    ||| c == '\u{2029}'
    ||| c == '\u{202f}'
    ||| c == '\u{205f}'
    ||| c == '\u{3000}'
}

/// `text` without the white space that it starts with.
pub open spec fn trim_start(text: Seq<char>) -> Seq<char>
    decreases text.len(),
{
    if text.len() > 0 && is_whitespace(text.first()) {
        trim_start(text.drop_first())
    } else {
        text
    }
}

/// `text` without the white space that it ends with.
pub open spec fn trim_end(text: Seq<char>) -> Seq<char>
    decreases text.len(),
{
    if text.len() > 0 && is_whitespace(text.last()) {
        trim_end(text.drop_last())
    } else {
        text
    }
}

/// `text` without the white space at either end.
pub open spec fn trim(text: Seq<char>) -> Seq<char> {
    trim_end(trim_start(text))
}

/// `text` split at the first `mark`: what stands before it and what stands
/// after it. Without a `mark`, the whole text and nothing.
pub open spec fn split_once(text: Seq<char>, mark: char) -> (Seq<char>, Seq<char>) {
    match text.index_of_first(mark) {
        Some(at) => (text.take(at), text.skip(at + 1)),
        None => (text, Seq::empty()),
    }
}

/// The white space that `text` starts with ends at `count`.
pub proof fn lemma_trim_start(text: Seq<char>, count: int)
    requires
        0 <= count <= text.len(),
        forall|i: int| 0 <= i < count ==> is_whitespace(#[trigger] text[i]),
        count < text.len() ==> !is_whitespace(text[count]),
    ensures
        trim_start(text) == text.skip(count),
    decreases count,
{
    if count == 0 {
        assert(text.skip(0) =~= text);
    } else {
        let rest = text.drop_first();
        assert forall|i: int| 0 <= i < count - 1 implies is_whitespace(#[trigger] rest[i]) by {
            assert(rest[i] == text[i + 1]);
        }
        lemma_trim_start(rest, count - 1);
        assert(rest.skip(count - 1) =~= text.skip(count));
    }
}

/// The white space that `text` ends with starts at `keep`.
pub proof fn lemma_trim_end(text: Seq<char>, keep: int)
    requires
        0 <= keep <= text.len(),
        forall|i: int| keep <= i < text.len() ==> is_whitespace(#[trigger] text[i]),
        0 < keep ==> !is_whitespace(text[keep - 1]),
    ensures
        trim_end(text) == text.take(keep),
    decreases text.len() - keep,
{
    if keep == text.len() {
        assert(text.take(keep) =~= text);
    } else {
        let rest = text.drop_last();
        lemma_trim_end(rest, keep);
        assert(rest.take(keep) =~= text.take(keep));
    }
}

/// The first `mark` of `text` stands at `at`, or `text` has none and `at` is
/// its length.
pub proof fn lemma_split_once(text: Seq<char>, mark: char, at: int)
    requires
        0 <= at <= text.len(),
        forall|i: int| 0 <= i < at ==> #[trigger] text[i] != mark,
        at < text.len() ==> text[at] == mark,
    ensures
        split_once(text, mark) == if at < text.len() {
            (text.take(at), text.skip(at + 1))
        } else {
            (text, Seq::empty())
        },
{
    text.index_of_first_ensures(mark);
    match text.index_of_first(mark) {
        Some(found) => {
            if at == text.len() {
                assert(text[found] == mark);
            } else if found < at {
                assert(text[found] == mark);
            } else if at < found {
                assert(text[at] == mark);
            }
        },
        None => {
            if at < text.len() {
                assert(text.contains(mark));
            }
        },
    }
}

/// Whether `c` is white space.
pub fn whitespace(c: char) -> (white: bool)
    ensures
        white == is_whitespace(c),
{
    ('\u{9}' <= c && c <= '\u{d}') || c == ' ' || c == '\u{85}' || c == '\u{a0}' || c
        == '\u{1680}' || ('\u{2000}' <= c && c <= '\u{200a}') || c == '\u{2028}' || c
        == '\u{2029}' || c == '\u{202f}' || c == '\u{205f}' || c == '\u{3000}'
}

/// The characters of `text`, in order.
pub fn chars_of(text: &str) -> (chars: Vec<char>)
    ensures
        chars@ == text@,
{
    let mut chars: Vec<char> = Vec::new();
    for c in it: text.chars()
        invariant
            it.seq() == text@,
            chars@ == it.seq().take(it.index() as int),
    {
        assert(it.seq().take(it.index() + 1) =~= it.seq().take(it.index() as int).push(c));
        chars.push(c);
    }
    assert(text@.take(text@.len() as int) =~= text@);
    chars
}

/// The first index from `from` on, and before `to`, at which `mark` stands
/// in `chars`; `to` if there is none.
pub(crate) fn find(chars: &Vec<char>, from: usize, to: usize, mark: char) -> (at: usize)
    requires
        from <= to <= chars@.len(),
    ensures
        from <= at <= to,
        forall|i: int| from <= i < at ==> #[trigger] chars@[i] != mark,
        at < to ==> chars@[at as int] == mark,
{
    let mut at: usize = from;
    while at < to && chars[at] != mark
        invariant
            from <= at <= to <= chars@.len(),
            forall|i: int| from <= i < at ==> #[trigger] chars@[i] != mark,
        decreases to - at,
    {
        at = at + 1;
    }
    at
}

/// Whether the characters of `chars` from `from` up to `to` are those of
/// `word`.
pub(crate) fn matches_range(chars: &Vec<char>, from: usize, to: usize, word: &Vec<char>) -> (same: bool)
    requires
        from <= to <= chars@.len(),
    ensures
        same == (chars@.subrange(from as int, to as int) == word@),
{
    let ghost part = chars@.subrange(from as int, to as int);
    if to - from != word.len() {
        return false;
    }
    let count = word.len();
    let mut done: usize = 0;
    while done < count
        invariant
            from + count == to <= chars@.len(),
            count == word@.len(),
            done <= count,
            part == chars@.subrange(from as int, to as int),
            forall|i: int| 0 <= i < done ==> part[i] == word@[i],
        decreases count - done,
    {
        if chars[from + done] != word[done] {
            assert(part[done as int] != word@[done as int]);
            return false;
        }
        done = done + 1;
    }
    assert(part =~= word@);
    true
}

} // verus!
