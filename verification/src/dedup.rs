//! Change detection: is an observed clipboard text new with respect to the
//! text last seen?

use vstd::prelude::*;

verus! {

/// Whether `observed` differs from `last_seen`, as sequences of characters.
pub open spec fn is_new_change(observed: Seq<char>, last_seen: Seq<char>) -> bool {
    observed != last_seen
}

/// Decides whether an observed clipboard text is forwarded: exactly when it
/// is not the text last seen. The comparison is exact; nothing is normalised.
pub fn should_forward(observed: &String, last_seen: &String) -> (forward: bool)
    ensures
        forward == is_new_change(observed@, last_seen@),
{
    !(*observed == *last_seen)
}

} // verus!
