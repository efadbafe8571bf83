//! Failure taxonomy of the pool arithmetic core.

use vstd::prelude::*;

verus! {

/// Every failure the pool can report.  All failures are deterministic
/// functions of the call's inputs: retrying with the same inputs reproduces
/// the same failure.  User-facing message strings belong to the presentation
/// layer, not to this core.
#[derive(Clone, Copy, Debug, PartialEq, Eq, Structural)]
pub enum SwapError {
    /// Token A mint and token B mint must be different.
    DuplicateMint,
    /// Trade fee exceeds the maximum allowed limit.
    TradeFeeTooHigh,
    /// Withdrawal fee exceeds the maximum allowed limit.
    WithdrawFeeTooHigh,
    /// Initial token amounts must be greater than zero.
    ZeroInitialLiquidity,
    /// The payer and user accounts must be different.
    PayerAndUserCannotBeSame,
    /// The withdrawal amount is too small to process.
    WithdrawTooSmall,
    /// General calculation failure due to overflow or underflow.
    CalculationFailure,
    /// Fee calculation failed due to overflow, underflow or a zero divisor.
    FeeCalculationFailure,
    /// The given pool-share amount results in zero trading tokens.
    ZeroTradingTokens,
    /// Conversion to u64 failed with an overflow.
    ConversionFailure,
    /// The operation exceeds the desired slippage limit.
    ExceededSlippage,
    /// The mint must be one of the swap's supported tokens.
    InvalidMint,
    /// Insufficient pool-share balance.
    InsufficientPoolTokenBalance,
    /// The user's token balance is insufficient.
    InsufficientTokenBalance,
    /// The deposited pool-share amount is too small.
    DepositPoolTokenAmountTooSmall,
    /// The single-asset deposit amount is too small.
    DepositSingleAmountTooSmall,
}

} // verus!
