//! Searching in text, and how text displays.

use vstd::prelude::*;
use vstd::string::to_string_from_display_ensures;

verus! {

/// `part` stands in `text` from position `at` on.
pub open spec fn occurs_at<C>(text: Seq<C>, part: Seq<C>, at: int) -> bool {
    0 <= at && at + part.len() <= text.len() && text.subrange(at, at + part.len()) == part
}

/// `part` stands somewhere in `text`.
pub open spec fn occurs_in<C>(text: Seq<C>, part: Seq<C>) -> bool {
    exists|at: int| occurs_at(text, part, at)
}

/// A string that holds `text` displays as `text`.
pub open spec fn displays_as_itself(text: Seq<char>) -> bool {
    forall|s: String, shown: String|
        s@ == text && #[trigger] to_string_from_display_ensures(&s, shown) ==> shown@ == text
}

/// The characters of `text`.
fn chars_of(text: &str) -> (chars: Vec<char>)
    ensures
        chars@ == text@,
{
    let mut chars: Vec<char> = Vec::new();
    for c in iter: text.chars()
        invariant
            iter.seq() == text@,
            chars@ == text@.take(iter.index()),
    {
        chars.push(c);
    }
    assert(text@.take(text@.len() as int) =~= text@);
    chars
}

/// Whether `part` stands in `text` from position `at` on.
fn stands_at(text: &Vec<char>, part: &Vec<char>, at: usize) -> (found: bool)
    requires
        at + part@.len() <= text@.len(),
    ensures
        found == occurs_at(text@, part@, at as int),
{
    let ghost piece = text@.subrange(at as int, at + part@.len());
    for i in 0..part.len()
        invariant
            at + part.len() <= text.len(),
            piece == text@.subrange(at as int, at + part@.len()),
            forall|j: int| 0 <= j < i ==> piece[j] == part@[j],
    {
        if text[at + i] != part[i] {
            assert(piece[i as int] != part@[i as int]);
            return false;
        }
        assert(piece[i as int] == part@[i as int]);
    }
    assert(piece =~= part@);
    true
}

/// Whether `part` stands somewhere in `text`.
pub(crate) fn contains(text: &str, part: &str) -> (found: bool)
    ensures
        found == occurs_in(text@, part@),
{
    let text_chars = chars_of(text);
    let part_chars = chars_of(part);
    if part_chars.len() > text_chars.len() {
        return false;
    }
    let last: usize = text_chars.len() - part_chars.len();
    let mut at: usize = 0;
    loop
        invariant
            text_chars@ == text@,
            part_chars@ == part@,
            at <= last,
            last == text@.len() - part@.len(),
            forall|i: int| 0 <= i < at ==> !occurs_at(text@, part@, i),
        decreases last - at,
    {
        if stands_at(&text_chars, &part_chars, at) {
            return true;
        }
        if at == last {
            assert forall|i: int| !occurs_at(text@, part@, i) by {
                if 0 <= i && i <= last {
                    assert(i < at || i == at);
                }
            }
            return false;
        }
        at = at + 1;
    }
}

} // verus!
