//! The failure kinds the vault's operations report.

use vstd::prelude::*;

verus! {

/// Every way an operation of the vault can be rejected.
///
/// The first failing check aborts the whole operation with its kind; no
/// error is retried and none is swallowed.  Failures reported by a
/// collaborator (the token ledger or the liquidity pool) are carried
/// through unchanged as `InsufficientBalance` or `UnauthorizedPosition`.
#[derive(Clone, Copy, Debug, PartialEq, Eq, Structural)]
pub enum CustomError {
    /// A deposit of zero units, or one that would overflow the pooled total.
    InvalidAmount,
    /// A withdrawal of zero shares, or of more shares than are outstanding.
    InvalidSharesAmount,
    /// A token-ledger transfer, mint or burn lacked the balance it moved.
    InsufficientBalance,
    /// The caller does not hold the unique claim on the current position.
    UnauthorizedPosition,
    /// The range policy could not produce a bound for the new position.
    PositionOutOfRangeCheckFailed,
    /// An arithmetic step would wrap or lose precision.
    ArithmeticOverflow,
}

} // verus!
