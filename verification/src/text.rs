//! The prefix test on cell text.

use vstd::prelude::*;
use vstd::std_specs::iter::IteratorSpec;

verus! {

/// `text` starts with `prefix`: the characters of `prefix` are the first
/// characters of `text`, in order. Every text starts with the empty prefix.
pub open spec fn begins_with(text: Seq<char>, prefix: Seq<char>) -> bool {
    prefix.len() <= text.len() && text.subrange(0, prefix.len() as int) == prefix
}

/// Tests whether `text` starts with `prefix`, walking both once.
pub fn starts_with(text: &str, prefix: &str) -> (found: bool)
    ensures
        found == begins_with(text@, prefix@),
{
    broadcast use vstd::string::group_string_axioms;

    let mut have = text.chars();
    let mut want = prefix.chars();
    let ghost mut seen: int = 0;
    loop
        invariant
            0 <= seen <= prefix@.len(),
            seen <= text@.len(),
            want.remaining() == prefix@.skip(seen),
            have.remaining() == text@.skip(seen),
            text@.subrange(0, seen) == prefix@.subrange(0, seen),
            want.decrease() is Some,
        decreases want.decrease()->0,
    {
        match want.next() {
            None => {
                assert(prefix@.subrange(0, seen) == prefix@);
                return true;
            },
            Some(w) => match have.next() {
                None => {
                    return false;
                },
                Some(h) => {
                    if w != h {
                        return false;
                    }
                    proof {
                        seen = seen + 1;
                    }
                },
            },
        }
    }
}

} // verus!
