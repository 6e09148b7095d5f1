//! The ways a search can fail.

use vstd::prelude::*;

verus! {

/// Why a search returned no keypair.
#[derive(Clone, Copy, Debug, PartialEq, Eq, Structural)]
pub enum Error {
    /// Every attempt that the budget allowed was made, and none matched.
    SearchExhausted,
}

impl Error {
    /// A short description of the failure.
    pub fn message(&self) -> (text: &'static str)
        ensures
            text@ == "Could not find keypair"@,
    {
        match self {
            Error::SearchExhausted => "Could not find keypair",
        }
    }
}

} // verus!
