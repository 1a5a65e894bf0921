//! Error kinds surfaced by the core. All are terminal for the single
//! operation that raised them; nothing is retried inside the core.

use vstd::prelude::*;

verus! {

#[derive(Clone, Copy, PartialEq, Eq, Structural, Debug)]
pub enum ErrorCode {
    /// An operation was attempted against a loan not in the required state.
    InvalidLoanStatus,
    /// Claim processing was invoked with zero observations: no aggregation
    /// over an empty set of evidence is defined.
    EmptyInput,
    /// The external value-transfer collaborator rejected a transfer; the
    /// enclosing operation must be rolled back whole by the caller.
    ValueTransferFailed,
}

} // verus!
