//! The interpreter-context token.

use vstd::prelude::*;

verus! {

/// Proof that the holder is running under an active interpreter.
///
/// A token owns nothing. It names the interpreter it was handed out by, so
/// that an operation can demand a token of the runtime it is about to touch.
/// Tokens are handed out by [`crate::runtime::Runtime::python`] only.
#[derive(Clone, Copy, Debug, PartialEq, Eq, Structural)]
pub struct Python {
    interp: u64,
}

impl Python {
    /// The number of the interpreter this token belongs to.
    pub closed spec fn interp_spec(self) -> u64 {
        self.interp
    }

    /// The number of the interpreter this token belongs to.
    #[verifier::when_used_as_spec(interp_spec)]
    pub fn interp(self) -> (id: u64)
        ensures
            id == self.interp_spec(),
    {
        self.interp
    }

    pub(crate) fn for_interp(interp: u64) -> (py: Python)
        ensures
            py.interp() == interp,
    {
        Python { interp }
    }
}

/// A token is no more than the number of its interpreter: two tokens of one
/// interpreter are the same token.
pub proof fn lemma_token_is_its_interpreter(a: Python, b: Python)
    requires
        a.interp() == b.interp(),
    ensures
        a == b,
{
}

} // verus!
