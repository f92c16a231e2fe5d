//! The error taxonomy of the harness.
//!
//! Every fallible operation reports one of these kinds; construction and
//! activation errors are meant to abort the enclosing scenario at once.

use vstd::prelude::*;

verus! {

/// What went wrong.
#[derive(Clone, Copy, Debug, PartialEq, Eq, Structural)]
pub enum Error {
    /// The pool could not back a device of the requested size.
    Allocation,
    /// A layer's table is invalid for its backing device, for example a
    /// linear range that overruns it or an encryption target that was
    /// never formatted.
    Config,
    /// The mapping framework rejected a table or the mapped device did not
    /// appear within the bounded wait.
    Activation,
    /// A raw read or write fell outside the device's address space or
    /// otherwise failed.
    Io,
    /// The pattern engine would exceed its configured total I/O amount.
    BudgetExceeded,
    /// Bytes read back differ from what was last written to that range;
    /// this signals a fault in the exercised stack, not in the harness.
    Verification,
    /// A release step failed; teardown is best effort and never masks an
    /// in-flight error.
    Teardown,
}

} // verus!
