//! Helpers on strings.

use vstd::prelude::*;
use vstd::std_specs::iter::IteratorSpec;
use vstd::string::*;

verus! {

/// Whether `needle` occurs in `hay` as a contiguous run of characters.
pub open spec fn contains(hay: Seq<char>, needle: Seq<char>) -> bool {
    exists|i: int|
        0 <= i && i + needle.len() <= hay.len() && #[trigger] hay.subrange(
            i,
            i + needle.len(),
        ) == needle
}

/// Whether `text` begins with `prefix`.
pub fn starts_with(text: &str, prefix: &str) -> (begins: bool)
    ensures
        begins == prefix@.is_prefix_of(text@),
{
    let mut rest = text.chars();
    for c in it: prefix.chars()
        invariant
            it.seq() == prefix@,
            it.index() <= text@.len(),
            rest.remaining() == text@.skip(it.index() as int),
            rest.obeys_prophetic_iter_laws(),
            prefix@.take(it.index() as int) == text@.take(it.index() as int),
    {
        let ghost k = it.index() as int;
        match rest.next() {
            None => {
                assert(text@.len() == k);
                return false;
            },
            Some(d) => {
                assert(d == text@[k]);
                if c != d {
                    return false;
                }
                assert(prefix@.take(k + 1) =~= prefix@.take(k).push(c));
                assert(text@.take(k + 1) =~= text@.take(k).push(d));
                assert(text@.skip(k).drop_first() =~= text@.skip(k + 1));
            },
        }
    }
    assert(prefix@.take(prefix@.len() as int) =~= prefix@);
    true
}

} // verus!
