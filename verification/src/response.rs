//! The transport wrapper for an encoded payload: marks a value as one to
//! be sent in the binary envelope rather than as plain text. The serving
//! layer turns it into a wire response.

use vstd::prelude::*;

verus! {

/// A value to be relayed in the binary envelope.
pub struct Bson<T>(pub T);

impl<T> Bson<T> {
    /// The wrapped value.
    pub fn into_inner(self) -> (r: T)
        ensures
            r == self.0,
    {
        self.0
    }
}

} // verus!
