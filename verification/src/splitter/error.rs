//! Failures of the fee splitter.

use vstd::prelude::*;

verus! {

/// Why a splitter operation was rejected. A rejected operation changes
/// nothing.
#[derive(Clone, Copy, Debug, PartialEq, Eq, Hash, Structural)]
pub enum PaymentSplitterError {
    /// The four shares do not add up to 100.
    InvalidSharePercentages,
    /// The caller is not the authority of the splitter.
    Unauthorized,
    /// The amount is zero.
    InvalidAmount,
    /// The splitter was set up before.
    AlreadyInitialized,
    /// The treasury holds less than the amount asked for.
    InsufficientBalance,
    /// A result does not fit in 64 bits.
    MathOverflow,
}

} // verus!
