//! The reason a pool could not be built.

use vstd::prelude::*;
use vstd::string::*;

verus! {

/// A human-readable reason why a pool could not be constructed.
#[derive(Debug)]
pub struct PoolCreationError(pub String);

impl PoolCreationError {
    /// The reason carried by this error.
    pub open spec fn reason(self) -> Seq<char> {
        self.0@
    }

    /// The text shown for this error: a fixed prefix followed by the reason.
    pub open spec fn spec_message(self) -> Seq<char> {
        "Error occured: "@ + self.0@
    }

    /// Renders the error as text.
    pub fn message(&self) -> (text: String)
        ensures
            text@ == self.spec_message(),
    {
        let mut text = String::from_str("Error occured: ");
        text.append(self.0.as_str());
        text
    }
}

} // verus!
