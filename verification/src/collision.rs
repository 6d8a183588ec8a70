//! The collision policy: what a transfer is written to when the destination
//! that was asked for is the source itself.

use vstd::prelude::*;
use vstd::string::*;

verus! {

/// What is appended to a destination that collides with the source.
pub open spec fn copy_suffix() -> Seq<char> {
    " - Copy"@
}

/// The destination that a transfer is really written to. Where the one that
/// was asked for is the source itself, it is renamed by appending the copy
/// suffix; otherwise it stands as it is.
pub open spec fn effective_destination(source: Seq<char>, destination: Seq<char>) -> Seq<char> {
    if source == destination {
        destination + copy_suffix()
    } else {
        destination
    }
}

/// The effective destination is never the source, so one renaming settles
/// every collision: checking the renamed destination again finds nothing
/// more to rename.
pub proof fn lemma_effective_destination_is_free(source: Seq<char>, destination: Seq<char>)
    ensures
        effective_destination(source, destination) != source,
        effective_destination(source, effective_destination(source, destination))
            == effective_destination(source, destination),
{
    reveal_strlit(" - Copy");
    assert((destination + copy_suffix()).len() == destination.len() + 7);
}

/// Applies the collision policy to a requested destination.
pub fn resolve_collision(source: &str, destination: String) -> (resolved: String)
    ensures
        resolved@ == effective_destination(source@, destination@),
        resolved@ != source@,
{
    proof {
        lemma_effective_destination_is_free(source@, destination@);
    }
    if *source == *destination.as_str() {
        destination.concat(" - Copy")
    } else {
        destination
    }
}

} // verus!
