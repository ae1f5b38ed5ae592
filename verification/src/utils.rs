//! Small helpers shared by the connection handlers.

use vstd::prelude::*;

verus! {

/// Collapses a value that carries the same payload type on each of its
/// branches into that payload.
pub trait Merge<O>: Sized {
    /// The payload that `merge` hands out.
    spec fn merged(self) -> O;

    /// Returns the payload, whichever branch holds it.
    fn merge(self) -> (o: O)
        ensures
            o == self.merged(),
    ;
}

impl<O> Merge<O> for Result<O, O> {
    open spec fn merged(self) -> O {
        match self {
            Ok(o) => o,
            Err(o) => o,
        }
    }

    fn merge(self) -> (o: O) {
        match self {
            Ok(o) => o,
            Err(o) => o,
        }
    }
}

} // verus!
