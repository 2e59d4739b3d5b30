//! Failures reported by the library.

use vstd::prelude::*;

verus! {

/// Every failure of the pricing, commitment, proof and finalize logic.
#[derive(Clone, Copy, Debug, PartialEq, Eq, Structural)]
pub enum AmmError {
    /// A checked step of the fee or swap arithmetic overflowed.
    MathOverflow,
    /// Nothing is left of the input once its transfer fee is taken.
    InputTooSmall,
    /// Nothing is left of the output once its transfer fee is taken.
    OutputZero,
    /// The swap moves the pool ratio beyond the configured tolerance.
    TradeTooLarge,
    /// Locking liquidity would leave no available source balance.
    InsufficientReserve,
    /// Settle or cancel was asked after the order deadline.
    OrderExpired,
    /// Slash was asked before the order deadline.
    OrderNotExpired,
    /// Settle was asked where cancel applies, or the other way round.
    WrongFinalizePath,
    /// No proof could be produced for the inputs.
    ProofGenerationFailure,
    /// The public signals do not have the expected shape.
    SerializationFailure,
    /// Only swaps with an exact input amount are priced.
    ExactOutNotSupported,
    /// A text field is longer than the space reserved for it.
    TextTooLong,
    /// Account bytes do not hold a record of the expected type.
    InvalidAccountData,
}

} // verus!
