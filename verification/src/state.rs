//! Numeric configuration of a pool.
//!
//! The on-chain account that stores a pool is the orchestration layer's
//! business; the arithmetic core only ever sees this plain value, a snapshot
//! of the two fee rates that were validated when the pool was created.

use vstd::prelude::*;

verus! {

/// Fee configuration of a swap pool.  Both rates are numerators over
/// [`Swap::FEES_BASIS_POINTS`].
#[derive(Clone, Copy, Debug, PartialEq, Eq, Structural)]
pub struct Swap {
    /// Trade fee in basis points, charged on exchanges and on the implicit
    /// half-swap of single-asset conversions.
    pub trade_fees: u16,
    /// Withdrawal fee in basis points, charged in pool shares on withdrawals.
    pub withdraw_fees: u16,
}

impl Swap {
    /// Denominator of every fee rate: rates are expressed in basis points.
    pub const FEES_BASIS_POINTS: u16 = 10_000;

    /// Pool shares minted to the creator when a pool is initialized.
    pub const INITIAL_SWAP_POOL_AMOUNT: u64 = 1_000_000_000;

    /// Largest trade fee a pool may be created with (50%).
    pub const MAX_TRADE_FEES: u16 = 5_000;

    /// Largest withdrawal fee a pool may be created with (50%).
    pub const MAX_WITHDRAW_FEES: u16 = 5_000;

    /// Smallest pool-share amount accepted by deposits and withdrawals;
    /// requested amounts must be strictly greater.
    pub const MIN_TOKEN_AMOUNT: u64 = 0;

    /// A pool configuration is valid when both rates are within the policy
    /// bounds enforced at pool creation.
    pub open spec fn valid(self) -> bool {
        self.trade_fees <= Self::MAX_TRADE_FEES && self.withdraw_fees <= Self::MAX_WITHDRAW_FEES
    }
}

} // verus!
