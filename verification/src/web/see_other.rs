//! The answer that sends a client on to another place.

use vstd::prelude::*;

verus! {

/// The status of the answer: 303.
pub const SEE_OTHER: u16 = 303;

/// An answer with the status [`SEE_OTHER`] and a `location` header.
#[derive(Debug, Clone, PartialEq, Eq)]
pub struct SeeOther {
    pub location: String,
}

impl SeeOther {
    pub fn new(location: String) -> (answer: Self)
        ensures
            answer.location == location,
    {
        Self { location }
    }

    /// The status and the one header of the answer.
    pub fn respond_to(self) -> (answer: (u16, (String, String)))
        ensures
            answer.0 == SEE_OTHER,
            answer.1.0@ == "location"@,
            answer.1.1 == self.location,
    {
        (SEE_OTHER, ("location".to_owned(), self.location))
    }
}

} // verus!
