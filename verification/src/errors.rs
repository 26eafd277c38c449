use vstd::prelude::*;

verus! {

/// Failure taxonomy of the engine.
///
/// Every fallible operation reports exactly one of these, and a failed
/// operation commits nothing: the caller keeps the state it passed in.
#[derive(Clone, Copy, Debug, PartialEq, Eq, Structural)]
pub enum ErrorCode {
    /// The global ledger has not been initialized yet.
    NotInitialized,
    /// A quantity is zero (or rounds down to zero) where a positive
    /// effective quantity is required.
    InvalidAmount,
    /// The genesis seed amount is zero.
    InvalidSeedAmount,
    /// A checked arithmetic step overflowed, underflowed, or a narrowing
    /// conversion would lose magnitude.
    Overflow,
    /// A divisor is zero.
    DivisionByZero,
    /// A participant tried to bind itself as its own referrer.
    SelfReferral,
    /// A settlement would move more out of a vault than the vault holds.
    InsufficientFunds,
    /// The strategy needs an externally supplied price that is still zero.
    PriceNotSet,
}

} // verus!
