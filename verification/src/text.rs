//! Comparisons of text, character by character.

use vstd::prelude::*;
use vstd::std_specs::iter::IteratorSpec;

verus! {

/// Whether `text` begins with `prefix`.
pub fn starts_with(text: &str, prefix: &str) -> (r: bool)
    ensures
        r == prefix@.is_prefix_of(text@),
{
    let mut rest = text.chars();
    let mut wanted = prefix.chars();
    let ghost mut seen: int = 0;
    loop
        invariant
            0 <= seen <= prefix@.len(),
            seen <= text@.len(),
            rest.remaining() == text@.skip(seen),
            wanted.remaining() == prefix@.skip(seen),
            text@.take(seen) == prefix@.take(seen),
        decreases prefix@.len() - seen,
    {
        match wanted.next() {
            None => {
                assert(prefix@.take(seen) == prefix@);
                return true;
            },
            Some(p) => match rest.next() {
                None => {
                    return false;
                },
                Some(t) => {
                    if t != p {
                        assert(text@[seen] != prefix@[seen]);
                        return false;
                    }
                    proof {
                        assert(text@.take(seen + 1) == text@.take(seen).push(text@[seen]));
                        assert(prefix@.take(seen + 1) == prefix@.take(seen).push(prefix@[seen]));
                        seen = seen + 1;
                    }
                },
            },
        }
    }
}

/// Whether two texts are the same.
pub fn same_text(a: &str, b: &str) -> (r: bool)
    ensures
        r == (a@ == b@),
{
    let forward = starts_with(a, b);
    let backward = starts_with(b, a);
    proof {
        if forward && backward {
            assert(a@ =~= b@);
        }
    }
    forward && backward
}

} // verus!
