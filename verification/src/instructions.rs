//! Instruction decisions.
//!
//! Each operation of the pool is decided here as a pure function from a
//! snapshot of the relevant balances and the caller's request to either the
//! settled amounts or a typed failure.  The snapshot is read by the caller
//! at a single consistent point in time; the caller performs the actual
//! transfers, mints and burns only after a decision succeeds, so a failure
//! never leaves partial state behind.

use vstd::prelude::*;

use crate::curve::{
    calculate_exchange_amount, calculate_exchange_amount_spec, deposit_single_token_type,
    deposit_single_token_type_spec, pool_tokens_to_trading_tokens,
    pool_tokens_to_trading_tokens_spec, to_u64, to_u64_spec, withdraw_single_token_type_exact_out,
    withdraw_single_token_type_exact_out_spec,
};
use crate::error::SwapError;
use crate::fees::{calculation_fee, calculation_fee_spec};
use crate::state::Swap;

verus! {

/// Snapshot for creating a pool.  The account-identity checks are made by
/// the caller and handed in as the two flags.
pub struct InitializeSwap {
    /// Whether the payer and the user are the same account (refused).
    pub payer_is_user: bool,
    /// Whether the two token mints are the same (refused).
    pub duplicate_mint: bool,
}

impl InitializeSwap {
    /// The decision: the validated pool configuration and the pool shares
    /// to mint to the creator, or the first failing check's error.
    pub open spec fn process_spec(
        self,
        trade_fees: u16,
        withdraw_fees: u16,
        amount_a: u64,
        amount_b: u64,
    ) -> Result<(Swap, u64), SwapError> {
        if self.payer_is_user {
            Err(SwapError::PayerAndUserCannotBeSame)
        } else if self.duplicate_mint {
            Err(SwapError::DuplicateMint)
        } else if trade_fees > Swap::MAX_TRADE_FEES {
            Err(SwapError::TradeFeeTooHigh)
        } else if withdraw_fees > Swap::MAX_WITHDRAW_FEES {
            Err(SwapError::WithdrawFeeTooHigh)
        } else if amount_a == 0 {
            Err(SwapError::ZeroInitialLiquidity)
        } else if amount_b == 0 {
            Err(SwapError::ZeroInitialLiquidity)
        } else {
            Ok(((Swap { trade_fees, withdraw_fees }, Swap::INITIAL_SWAP_POOL_AMOUNT)))
        }
    }

    /// Validates a pool creation request; on success the caller funds both
    /// reserves and mints the returned amount of pool shares.
    pub fn process(
        &self,
        trade_fees: u16,
        withdraw_fees: u16,
        amount_a: u64,
        amount_b: u64,
    ) -> (r: Result<(Swap, u64), SwapError>)
        ensures
            r == self.process_spec(trade_fees, withdraw_fees, amount_a, amount_b),
            r matches Ok((swap, minted)) ==> swap.valid() && minted
                == Swap::INITIAL_SWAP_POOL_AMOUNT,
    {
        if self.payer_is_user {
            return Err(SwapError::PayerAndUserCannotBeSame);
        }
        if self.duplicate_mint {
            return Err(SwapError::DuplicateMint);
        }
        if trade_fees > Swap::MAX_TRADE_FEES {
            return Err(SwapError::TradeFeeTooHigh);
        }
        if withdraw_fees > Swap::MAX_WITHDRAW_FEES {
            return Err(SwapError::WithdrawFeeTooHigh);
        }
        if amount_a == 0 || amount_b == 0 {
            return Err(SwapError::ZeroInitialLiquidity);
        }
        Ok((Swap { trade_fees, withdraw_fees }, Swap::INITIAL_SWAP_POOL_AMOUNT))
    }
}

/// Snapshot for a proportional deposit of both assets.
pub struct Deposit {
    /// Total pool-share supply.
    pub pool_mint_supply: u64,
    /// The pool's reserve of token A.
    pub token_a_amount: u64,
    /// The pool's reserve of token B.
    pub token_b_amount: u64,
    /// The user's balance of token A.
    pub user_token_a_amount: u64,
    /// The user's balance of token B.
    pub user_token_b_amount: u64,
}

impl Deposit {
    /// The decision: how much of each asset the user pays for
    /// `pool_token_amount` shares, rounded up in the pool's favor, or the
    /// first failing check's error.
    pub open spec fn process_spec(
        self,
        pool_token_amount: u64,
        maximum_token_a_amount: u64,
        maximum_token_b_amount: u64,
    ) -> Result<(u64, u64), SwapError> {
        if pool_token_amount <= Swap::MIN_TOKEN_AMOUNT {
            Err(SwapError::DepositPoolTokenAmountTooSmall)
        } else {
            match pool_tokens_to_trading_tokens_spec(
                true,
                pool_token_amount as u128,
                self.pool_mint_supply as u128,
                self.token_a_amount as u128,
                self.token_b_amount as u128,
            ) {
                None => Err(SwapError::ZeroTradingTokens),
                Some((wide_a, wide_b)) => match (to_u64_spec(wide_a), to_u64_spec(wide_b)) {
                    (Ok(token_a), Ok(token_b)) => {
                        if token_a > maximum_token_a_amount || token_b
                            > maximum_token_b_amount {
                            Err(SwapError::ExceededSlippage)
                        } else if token_a == 0 || token_b == 0 {
                            Err(SwapError::ZeroTradingTokens)
                        } else if token_a > self.user_token_a_amount || token_b
                            > self.user_token_b_amount {
                            Err(SwapError::InsufficientTokenBalance)
                        } else {
                            Ok(((token_a, token_b)))
                        }
                    },
                    _ => Err(SwapError::ConversionFailure),
                },
            }
        }
    }

    /// Decides a two-sided deposit; on success the caller transfers the two
    /// returned amounts into the reserves and mints `pool_token_amount`
    /// shares to the user.
    pub fn process(
        &self,
        pool_token_amount: u64,
        maximum_token_a_amount: u64,
        maximum_token_b_amount: u64,
    ) -> (r: Result<(u64, u64), SwapError>)
        ensures
            r == self.process_spec(
                pool_token_amount,
                maximum_token_a_amount,
                maximum_token_b_amount,
            ),
            r matches Ok((token_a, token_b)) ==> {
                &&& 0 < token_a <= maximum_token_a_amount
                &&& 0 < token_b <= maximum_token_b_amount
                &&& token_a <= self.user_token_a_amount
                &&& token_b <= self.user_token_b_amount
            },
    {
        if pool_token_amount <= Swap::MIN_TOKEN_AMOUNT {
            return Err(SwapError::DepositPoolTokenAmountTooSmall);
        }
        let amounts = pool_tokens_to_trading_tokens(
            true,
            pool_token_amount as u128,
            self.pool_mint_supply as u128,
            self.token_a_amount as u128,
            self.token_b_amount as u128,
        );
        let (wide_a, wide_b) = match amounts {
            Some(pair) => pair,
            None => {
                return Err(SwapError::ZeroTradingTokens);
            },
        };
        let token_a_amount = match to_u64(wide_a) {
            Ok(v) => v,
            Err(e) => {
                return Err(e);
            },
        };
        let token_b_amount = match to_u64(wide_b) {
            Ok(v) => v,
            Err(e) => {
                return Err(e);
            },
        };
        if token_a_amount > maximum_token_a_amount || token_b_amount > maximum_token_b_amount {
            return Err(SwapError::ExceededSlippage);
        }
        if token_a_amount == 0 || token_b_amount == 0 {
            return Err(SwapError::ZeroTradingTokens);
        }
        if token_a_amount > self.user_token_a_amount || token_b_amount
            > self.user_token_b_amount {
            return Err(SwapError::InsufficientTokenBalance);
        }
        Ok((token_a_amount, token_b_amount))
    }
}

/// Snapshot for a one-sided deposit.
pub struct DepositSingle {
    /// Fee configuration of the pool.
    pub swap: Swap,
    /// Whether the deposited mint is one of the swap's two tokens.
    pub supported_mint: bool,
    /// The user's balance of the deposited token.
    pub user_token_amount: u64,
    /// The pool's reserve of the deposited token.
    pub pool_token_amount: u64,
    /// Total pool-share supply.
    pub pool_mint_supply: u64,
}

impl DepositSingle {
    /// The decision: the pool shares minted for a one-sided deposit, or the
    /// first failing check's error.
    pub open spec fn process_spec(
        self,
        source_token_amount: u64,
        minimum_pool_token_amount: u64,
    ) -> Result<u64, SwapError> {
        if source_token_amount == 0 {
            Err(SwapError::DepositSingleAmountTooSmall)
        } else if !self.supported_mint {
            Err(SwapError::InvalidMint)
        } else if source_token_amount > self.user_token_amount {
            Err(SwapError::InsufficientTokenBalance)
        } else {
            match deposit_single_token_type_spec(
                self.swap.trade_fees as u128,
                source_token_amount as u128,
                self.pool_token_amount as u128,
                self.pool_mint_supply as u128,
            ) {
                None => Err(SwapError::ZeroTradingTokens),
                Some(wide) => match to_u64_spec(wide) {
                    Err(e) => Err(e),
                    Ok(pool_tokens) => {
                        if pool_tokens < minimum_pool_token_amount {
                            Err(SwapError::ExceededSlippage)
                        } else if pool_tokens == 0 {
                            Err(SwapError::ZeroTradingTokens)
                        } else {
                            Ok(pool_tokens)
                        }
                    },
                },
            }
        }
    }

    /// Decides a one-sided deposit; on success the caller transfers
    /// `source_token_amount` into the reserve and mints the returned shares.
    pub fn process(&self, source_token_amount: u64, minimum_pool_token_amount: u64) -> (r:
        Result<u64, SwapError>)
        ensures
            r == self.process_spec(source_token_amount, minimum_pool_token_amount),
            r matches Ok(pool_tokens) ==> pool_tokens >= minimum_pool_token_amount
                && pool_tokens > 0,
    {
        if source_token_amount == 0 {
            return Err(SwapError::DepositSingleAmountTooSmall);
        }
        if !self.supported_mint {
            return Err(SwapError::InvalidMint);
        }
        if source_token_amount > self.user_token_amount {
            return Err(SwapError::InsufficientTokenBalance);
        }
        let wide = match deposit_single_token_type(
            self.swap.trade_fees as u128,
            source_token_amount as u128,
            self.pool_token_amount as u128,
            self.pool_mint_supply as u128,
        ) {
            Some(v) => v,
            None => {
                return Err(SwapError::ZeroTradingTokens);
            },
        };
        let pool_token_amount = match to_u64(wide) {
            Ok(v) => v,
            Err(e) => {
                return Err(e);
            },
        };
        if pool_token_amount < minimum_pool_token_amount {
            return Err(SwapError::ExceededSlippage);
        }
        if pool_token_amount == 0 {
            return Err(SwapError::ZeroTradingTokens);
        }
        Ok(pool_token_amount)
    }
}

/// Snapshot for an exchange of one asset for the other.
pub struct Exchange {
    /// Fee configuration of the pool.
    pub swap: Swap,
    /// The pool's reserve of the asset the user pays in.
    pub pool_source_amount: u64,
    /// The pool's reserve of the asset the user receives.
    pub pool_destination_amount: u64,
    /// The user's balance of the asset paid in.
    pub user_source_amount: u64,
}

/// The settled amounts of an exchange.
#[derive(Clone, Copy, Debug, PartialEq, Eq, Structural)]
pub struct ExchangeOutcome {
    /// What the user pays into the pool, trade fee included.
    pub source_transfer_amount: u64,
    /// What the pool pays out to the user.
    pub destination_transfer_amount: u64,
}

impl Exchange {
    /// The decision: the two transfer amounts of the exchange, or the first
    /// failing check's error.
    pub open spec fn process_spec(self, amount_in: u64, minimum_amount_out: u64) -> Result<
        (u64, u64),
        SwapError,
    > {
        match calculate_exchange_amount_spec(
            self.swap.trade_fees as u128,
            amount_in as u128,
            self.pool_source_amount as u128,
            self.pool_destination_amount as u128,
        ) {
            None => Err(SwapError::ZeroTradingTokens),
            Some((wide_source, wide_destination)) => match to_u64_spec(wide_source) {
                Err(e) => Err(e),
                Ok(source_transfer) => {
                    if source_transfer > self.user_source_amount {
                        Err(SwapError::InsufficientTokenBalance)
                    } else {
                        match to_u64_spec(wide_destination) {
                            Err(e) => Err(e),
                            Ok(destination_transfer) => {
                                if destination_transfer < minimum_amount_out {
                                    Err(SwapError::ExceededSlippage)
                                } else {
                                    Ok(((source_transfer, destination_transfer)))
                                }
                            },
                        }
                    }
                },
            },
        }
    }

    /// Decides an exchange; on success the caller transfers the first
    /// returned amount from the user into the source reserve and the second
    /// from the destination reserve to the user.
    pub fn process(&self, amount_in: u64, minimum_amount_out: u64) -> (r: Result<
        ExchangeOutcome,
        SwapError,
    >)
        ensures
            ({
                let decision = self.process_spec(amount_in, minimum_amount_out);
                match r {
                    Ok(outcome) => decision == Ok::<_, SwapError>(
                        (outcome.source_transfer_amount, outcome.destination_transfer_amount),
                    ),
                    Err(e) => decision == Err::<(u64, u64), _>(e),
                }
            }),
            r matches Ok(outcome) ==> {
                &&& outcome.source_transfer_amount <= self.user_source_amount
                &&& outcome.destination_transfer_amount >= minimum_amount_out
            },
    {
        let amounts = calculate_exchange_amount(
            self.swap.trade_fees as u128,
            amount_in as u128,
            self.pool_source_amount as u128,
            self.pool_destination_amount as u128,
        );
        let (wide_source, wide_destination) = match amounts {
            Some(pair) => pair,
            None => {
                return Err(SwapError::ZeroTradingTokens);
            },
        };
        let source_transfer_amount = match to_u64(wide_source) {
            Ok(v) => v,
            Err(e) => {
                return Err(e);
            },
        };
        if source_transfer_amount > self.user_source_amount {
            return Err(SwapError::InsufficientTokenBalance);
        }
        let destination_transfer_amount = match to_u64(wide_destination) {
            Ok(v) => v,
            Err(e) => {
                return Err(e);
            },
        };
        if destination_transfer_amount < minimum_amount_out {
            return Err(SwapError::ExceededSlippage);
        }
        Ok(ExchangeOutcome { source_transfer_amount, destination_transfer_amount })
    }
}

/// Snapshot for a proportional withdrawal of both assets.
pub struct WithdrawAll {
    /// Fee configuration of the pool.
    pub swap: Swap,
    /// Total pool-share supply.
    pub pool_mint_supply: u64,
    /// The pool's reserve of token A.
    pub token_a_amount: u64,
    /// The pool's reserve of token B.
    pub token_b_amount: u64,
    /// The user's pool-share balance.
    pub user_pool_token_amount: u64,
    /// Whether the withdrawal fee is waived because the user's share account
    /// is the pool's own fee account.
    pub fee_exempt: bool,
}

/// The settled amounts of a proportional withdrawal.
#[derive(Clone, Copy, Debug, PartialEq, Eq, Structural)]
pub struct WithdrawAllOutcome {
    /// Pool shares transferred to the pool's fee account.
    pub withdraw_fee: u64,
    /// Pool shares burned.
    pub burn_pool_token_amount: u64,
    /// Token A paid out, capped by the reserve.
    pub token_a_amount: u64,
    /// Token B paid out, capped by the reserve.
    pub token_b_amount: u64,
}

impl WithdrawAll {
    /// The decision: the withdrawal fee, the shares burned and the two
    /// payout amounts, or the first failing check's error.
    pub open spec fn process_spec(
        self,
        token_amount: u64,
        minimum_token_a_amount: u64,
        minimum_token_b_amount: u64,
    ) -> Result<WithdrawAllOutcome, SwapError> {
        if token_amount <= Swap::MIN_TOKEN_AMOUNT {
            Err(SwapError::WithdrawTooSmall)
        } else if token_amount > self.user_pool_token_amount {
            Err(SwapError::InsufficientPoolTokenBalance)
        } else {
            let fee_result: Option<u128> = if self.fee_exempt {
                Some(0u128)
            } else {
                calculation_fee_spec(token_amount as u128, self.swap.withdraw_fees as u128)
            };
            match fee_result {
                None => Err(SwapError::FeeCalculationFailure),
                Some(wide_fee) => match to_u64_spec(wide_fee) {
                    Err(e) => Err(e),
                    Ok(withdraw_fee) => {
                        if token_amount < withdraw_fee {
                            Err(SwapError::CalculationFailure)
                        } else {
                            let burn = (token_amount - withdraw_fee) as u64;
                            match pool_tokens_to_trading_tokens_spec(
                                false,
                                burn as u128,
                                self.pool_mint_supply as u128,
                                self.token_a_amount as u128,
                                self.token_b_amount as u128,
                            ) {
                                None => Err(SwapError::ZeroTradingTokens),
                                Some((wide_a, wide_b)) => match (
                                    to_u64_spec(wide_a),
                                    to_u64_spec(wide_b),
                                ) {
                                    (Ok(raw_a), Ok(raw_b)) => {
                                        let token_a = if self.token_a_amount < raw_a {
                                            self.token_a_amount
                                        } else {
                                            raw_a
                                        };
                                        let token_b = if self.token_b_amount < raw_b {
                                            self.token_b_amount
                                        } else {
                                            raw_b
                                        };
                                        if token_a < minimum_token_a_amount {
                                            Err(SwapError::ExceededSlippage)
                                        } else if token_a == 0 && self.token_a_amount == 0 {
                                            Err(SwapError::ZeroTradingTokens)
                                        } else if token_b < minimum_token_b_amount {
                                            Err(SwapError::ExceededSlippage)
                                        } else if token_b == 0 && self.token_b_amount == 0 {
                                            Err(SwapError::ZeroTradingTokens)
                                        } else {
                                            Ok(
                                                (WithdrawAllOutcome {
                                                    withdraw_fee,
                                                    burn_pool_token_amount: burn,
                                                    token_a_amount: token_a,
                                                    token_b_amount: token_b,
                                                }),
                                            )
                                        }
                                    },
                                    _ => Err(SwapError::ConversionFailure),
                                },
                            }
                        }
                    },
                },
            }
        }
    }

    /// Decides a proportional withdrawal; on success the caller moves the
    /// fee to the pool's fee account, burns the burned amount and pays out
    /// both assets.
    pub fn process(
        &self,
        token_amount: u64,
        minimum_token_a_amount: u64,
        minimum_token_b_amount: u64,
    ) -> (r: Result<WithdrawAllOutcome, SwapError>)
        ensures
            r == self.process_spec(token_amount, minimum_token_a_amount, minimum_token_b_amount),
            r matches Ok(outcome) ==> {
                &&& outcome.withdraw_fee + outcome.burn_pool_token_amount == token_amount
                &&& outcome.token_a_amount <= self.token_a_amount
                &&& outcome.token_b_amount <= self.token_b_amount
                &&& outcome.token_a_amount >= minimum_token_a_amount
                &&& outcome.token_b_amount >= minimum_token_b_amount
            },
    {
        if token_amount <= Swap::MIN_TOKEN_AMOUNT {
            return Err(SwapError::WithdrawTooSmall);
        }
        if token_amount > self.user_pool_token_amount {
            return Err(SwapError::InsufficientPoolTokenBalance);
        }
        let wide_fee = if self.fee_exempt {
            0u128
        } else {
            match calculation_fee(token_amount as u128, self.swap.withdraw_fees as u128) {
                Some(f) => f,
                None => {
                    return Err(SwapError::FeeCalculationFailure);
                },
            }
        };
        let withdraw_fee = match to_u64(wide_fee) {
            Ok(v) => v,
            Err(e) => {
                return Err(e);
            },
        };
        let burn_pool_token_amount = match token_amount.checked_sub(withdraw_fee) {
            Some(v) => v,
            None => {
                return Err(SwapError::CalculationFailure);
            },
        };
        let amounts = pool_tokens_to_trading_tokens(
            false,
            burn_pool_token_amount as u128,
            self.pool_mint_supply as u128,
            self.token_a_amount as u128,
            self.token_b_amount as u128,
        );
        let (wide_a, wide_b) = match amounts {
            Some(pair) => pair,
            None => {
                return Err(SwapError::ZeroTradingTokens);
            },
        };
        let raw_a = match to_u64(wide_a) {
            Ok(v) => v,
            Err(e) => {
                return Err(e);
            },
        };
        let raw_b = match to_u64(wide_b) {
            Ok(v) => v,
            Err(e) => {
                return Err(e);
            },
        };
        // Cap each payout by the actual reserve, protecting against a stale
        // snapshot.
        let token_a_amount = if self.token_a_amount < raw_a {
            self.token_a_amount
        } else {
            raw_a
        };
        let token_b_amount = if self.token_b_amount < raw_b {
            self.token_b_amount
        } else {
            raw_b
        };
        if token_a_amount < minimum_token_a_amount {
            return Err(SwapError::ExceededSlippage);
        }
        if token_a_amount == 0 && self.token_a_amount == 0 {
            return Err(SwapError::ZeroTradingTokens);
        }
        if token_b_amount < minimum_token_b_amount {
            return Err(SwapError::ExceededSlippage);
        }
        if token_b_amount == 0 && self.token_b_amount == 0 {
            return Err(SwapError::ZeroTradingTokens);
        }
        Ok(
            WithdrawAllOutcome {
                withdraw_fee,
                burn_pool_token_amount,
                token_a_amount,
                token_b_amount,
            },
        )
    }
}

/// Snapshot for an exact-out withdrawal of a single asset.
pub struct WithdrawSingle {
    /// Fee configuration of the pool.
    pub swap: Swap,
    /// Whether the withdrawn mint is one of the swap's two tokens.
    pub supported_mint: bool,
    /// The pool's reserve of the withdrawn token.
    pub pool_token_amount: u64,
    /// Total pool-share supply.
    pub pool_mint_supply: u64,
    /// The user's pool-share balance.
    pub user_pool_token_amount: u64,
    /// Whether the withdrawal fee is waived because the user's share account
    /// is the pool's own fee account.
    pub fee_exempt: bool,
}

/// The settled amounts of a single-asset withdrawal.
#[derive(Clone, Copy, Debug, PartialEq, Eq, Structural)]
pub struct WithdrawSingleOutcome {
    /// Pool shares burned.
    pub burn_pool_token_amount: u64,
    /// Pool shares transferred to the pool's fee account.
    pub withdraw_fee: u64,
    /// Total pool shares debited from the user: burned plus fee.
    pub pool_token_amount: u64,
}

impl WithdrawSingle {
    /// The decision: the shares burned, the withdrawal fee and the total
    /// shares debited, or the first failing check's error.
    pub open spec fn process_spec(
        self,
        destination_token_amount: u64,
        maximum_pool_token_amount: u64,
    ) -> Result<WithdrawSingleOutcome, SwapError> {
        if destination_token_amount == 0 {
            Err(SwapError::WithdrawTooSmall)
        } else if !self.supported_mint {
            Err(SwapError::InvalidMint)
        } else {
            match withdraw_single_token_type_exact_out_spec(
                self.swap.trade_fees as u128,
                destination_token_amount as u128,
                self.pool_token_amount as u128,
                self.pool_mint_supply as u128,
            ) {
                None => Err(SwapError::ZeroTradingTokens),
                Some(wide_burn) => {
                    let fee_result: Option<u128> = if self.fee_exempt {
                        Some(0u128)
                    } else {
                        calculation_fee_spec(wide_burn, self.swap.withdraw_fees as u128)
                    };
                    match fee_result {
                        None => Err(SwapError::FeeCalculationFailure),
                        Some(wide_fee) => {
                            if wide_burn + wide_fee > u128::MAX {
                                Err(SwapError::CalculationFailure)
                            } else {
                                match to_u64_spec((wide_burn + wide_fee) as u128) {
                                    Err(e) => Err(e),
                                    Ok(total) => {
                                        if total > maximum_pool_token_amount {
                                            Err(SwapError::ExceededSlippage)
                                        } else if total > self.user_pool_token_amount {
                                            Err(SwapError::InsufficientPoolTokenBalance)
                                        } else {
                                            Ok(
                                                (WithdrawSingleOutcome {
                                                    burn_pool_token_amount: wide_burn as u64,
                                                    withdraw_fee: wide_fee as u64,
                                                    pool_token_amount: total,
                                                }),
                                            )
                                        }
                                    },
                                }
                            }
                        },
                    }
                },
            }
        }
    }

    /// Decides a single-asset withdrawal; on success the caller moves the
    /// fee to the pool's fee account, burns the burned amount and pays out
    /// exactly `destination_token_amount` of the asset.
    pub fn process(&self, destination_token_amount: u64, maximum_pool_token_amount: u64) -> (r:
        Result<WithdrawSingleOutcome, SwapError>)
        ensures
            r == self.process_spec(destination_token_amount, maximum_pool_token_amount),
            r matches Ok(outcome) ==> {
                &&& outcome.pool_token_amount == outcome.burn_pool_token_amount
                    + outcome.withdraw_fee
                &&& outcome.pool_token_amount <= maximum_pool_token_amount
                &&& outcome.pool_token_amount <= self.user_pool_token_amount
            },
    {
        if destination_token_amount == 0 {
            return Err(SwapError::WithdrawTooSmall);
        }
        if !self.supported_mint {
            return Err(SwapError::InvalidMint);
        }
        let wide_burn = match withdraw_single_token_type_exact_out(
            self.swap.trade_fees as u128,
            destination_token_amount as u128,
            self.pool_token_amount as u128,
            self.pool_mint_supply as u128,
        ) {
            Some(v) => v,
            None => {
                return Err(SwapError::ZeroTradingTokens);
            },
        };
        let wide_fee = if self.fee_exempt {
            0u128
        } else {
            match calculation_fee(wide_burn, self.swap.withdraw_fees as u128) {
                Some(f) => f,
                None => {
                    return Err(SwapError::FeeCalculationFailure);
                },
            }
        };
        let wide_total = match wide_burn.checked_add(wide_fee) {
            Some(v) => v,
            None => {
                return Err(SwapError::CalculationFailure);
            },
        };
        let pool_token_amount = match to_u64(wide_total) {
            Ok(v) => v,
            Err(e) => {
                return Err(e);
            },
        };
        if pool_token_amount > maximum_pool_token_amount {
            return Err(SwapError::ExceededSlippage);
        }
        if pool_token_amount > self.user_pool_token_amount {
            return Err(SwapError::InsufficientPoolTokenBalance);
        }
        Ok(
            WithdrawSingleOutcome {
                burn_pool_token_amount: wide_burn as u64,
                withdraw_fee: wide_fee as u64,
                pool_token_amount,
            },
        )
    }
}

} // verus!
