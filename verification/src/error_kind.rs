use vstd::prelude::*;

verus! {

/// Why a system call failed, as far as a decision depends on it.
#[derive(Clone, Copy, Debug, PartialEq, Eq, Structural)]
pub enum ErrorKind {
    /// The call would have had to wait.
    WouldBlock,
    /// A signal arrived before the call did its work.
    Interrupted,
    /// Anything else.
    Other,
}

} // verus!
