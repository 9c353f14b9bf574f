//! The faults that an operation reports; every one leaves all state as it was.
use vstd::prelude::*;

verus! {

/// Why an operation was refused.
#[derive(Clone, Copy, Debug, PartialEq, Eq, Structural)]
pub enum SalaryError {
    /// The caller lacks the role that the operation asks for.
    Unauthorized,
    /// A fixed-point or integer step overflowed, underflowed or divided by zero.
    ArithmeticFault,
    /// A participant's debt exceeds what the accumulator allows: the claimable
    /// amount would be negative.
    AccountingFault,
    /// The pool ledger exists already.
    AlreadyInitialized,
}

} // verus!
