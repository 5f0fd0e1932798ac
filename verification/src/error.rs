use vstd::prelude::*;

verus! {

/// Why an invocation was rejected.
///
/// Every check reports exactly one of these kinds, and a handler hands the
/// first failure on unchanged.
#[derive(Clone, Copy, Debug, PartialEq, Eq, Structural)]
pub enum ErrorCode {
    /// The account whose identity authorizes the action did not sign.
    Unauthorized,
    /// The account is owned by another trust domain.
    OwnershipMismatch,
    /// The account data does not start with the expected discriminator.
    TypeMismatch,
    /// The account data is too short or malformed for the expected type.
    DeserializationFailed,
    /// The address is not the canonical derived address of its seeds.
    InvalidDerivedAddress,
    /// One-time setup has already run on the account.
    AlreadyInitialized,
    /// An addition would exceed the integer's largest value.
    ArithmeticOverflow,
    /// A subtraction would go below zero.
    ArithmeticUnderflow,
    /// The account does not hold the funds that are to be moved.
    InsufficientFunds,
    /// The treasury is switched off.
    TreasuryInactive,
}

} // verus!
