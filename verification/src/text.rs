//! Small helpers over strings, read as sequences of characters.

use vstd::prelude::*;
use vstd::std_specs::iter::IteratorSpec;
use vstd::string::*;

verus! {

/// `String::push` of the standard library appends one character: afterwards
/// the string reads as it did before, followed by `ch`. Taken from the
/// method's documentation, not proved.
pub assume_specification[ String::push ](s: &mut String, ch: char)
    ensures
        final(s)@ == old(s)@.push(ch),
;

/// Whether `s` begins with `prefix`.
pub fn has_prefix(s: &str, prefix: &str) -> (found: bool)
    ensures
        found == prefix@.is_prefix_of(s@),
{
    broadcast use group_string_axioms;

    let mut rest = s.chars();
    for expected in it: prefix.chars()
        invariant
            it.seq() == prefix@,
            rest.obeys_prophetic_iter_laws(),
            it.index() <= s@.len(),
            rest.remaining() == s@.skip(it.index()),
            s@.take(it.index()) == prefix@.take(it.index()),
    {
        match rest.next() {
            Some(actual) => {
                if expected != actual {
                    return false;
                }
            },
            None => {
                return false;
            },
        }
    }
    true
}

/// `head` followed by `tail`, as a new string.
pub fn followed_by(head: &str, tail: &str) -> (joined: String)
    ensures
        joined@ == head@ + tail@,
{
    let mut joined = String::from_str(head);
    joined.append(tail);
    joined
}

/// Appends a copy of each string of `source` to `target`, in order.
pub fn append_copies(target: &mut Vec<String>, source: &Vec<String>)
    ensures
        final(target).deep_view() == old(target).deep_view() + source.deep_view(),
{
    let ghost before = target.deep_view();
    for i in 0..source.len()
        invariant
            target.deep_view() == before + source.deep_view().take(i as int),
    {
        let ghost grown = target.deep_view();
        target.push(source[i].clone());
        assert(target.deep_view() =~= grown.push(source[i as int]@));
    }
}

} // verus!
