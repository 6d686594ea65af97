use vstd::prelude::*;

verus! {

/// The reasons a flywheel operation can be refused. Every failure aborts the
/// whole operation: no record field, counter or balance is changed by a
/// refused request.
#[derive(Clone, Copy, Debug, PartialEq, Eq, Structural)]
pub enum FlywheelError {
    /// The caller is not the configured admin.
    Unauthorized,
    /// `buyback_bps + burn_bps` exceeds the whole of 10000 basis points.
    InvalidBpsSum,
    /// Less than `min_interval_seconds` elapsed since the last execution.
    InsufficientInterval,
    /// The request falls outside the epoch window and the caller is not the
    /// admin.
    OutsideEpoch,
    /// The fee vault holds nothing to process.
    EmptyVault,
    /// An account is owned by the wrong party.
    InvalidAccountOwner,
    /// A checked arithmetic operation on a balance, weight or counter
    /// overflowed.
    MathOverflow,
    /// A token account does not match the configured mint.
    InvalidTokenAccount,
    /// A general arithmetic fault.
    ArithmeticError,
}

/// The reasons a deposit can be refused. A zero amount is an invalid
/// argument of the request itself, kept apart from the flywheel policy
/// errors.
#[derive(Clone, Copy, Debug, PartialEq, Eq, Structural)]
pub enum DepositError {
    /// The deposit amount was zero.
    InvalidAmount,
    /// The vault balance would exceed the 64-bit range.
    MathOverflow,
}

} // verus!
