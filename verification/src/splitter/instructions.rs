//! Setting the splitter up, changing its shares, splitting a payment, and
//! withdrawing from the treasury.

use crate::identity::Pubkey;
use crate::math::{lemma_proportion_bounded, proportion};
use crate::splitter::error::PaymentSplitterError;
use crate::splitter::splitter_config::{shares_are_valid, SplitterConfig};
use vstd::arithmetic::div_mod::lemma_fundamental_div_mod;
use vstd::prelude::*;

verus! {

/// The four transfers that one payment is divided into.
#[derive(Clone, Copy, Debug, PartialEq, Eq, Structural)]
pub struct PaymentSplit {
    /// To the worker.
    pub operator_amount: u64,
    /// To the treasury.
    pub treasury_amount: u64,
    /// To the incentive pool.
    pub incentive_amount: u64,
    /// To the orchestrator.
    pub orchestrator_amount: u64,
}

impl PaymentSplit {
    /// Sum of the four transfers.
    pub open spec fn spec_total(self) -> int {
        self.operator_amount + self.treasury_amount + self.incentive_amount
            + self.orchestrator_amount
    }
}

/// The division of `amount` by the shares of `config`: each part is
/// `floor(amount * share / 100)`.
pub open spec fn split_of(config: SplitterConfig, amount: u64) -> PaymentSplit {
    PaymentSplit {
        operator_amount: proportion(amount as int, config.operator_share as int, 100) as u64,
        treasury_amount: proportion(amount as int, config.treasury_share as int, 100) as u64,
        incentive_amount: proportion(amount as int, config.incentive_share as int, 100) as u64,
        orchestrator_amount: proportion(amount as int, config.orchestrator_share as int, 100) as u64,
    }
}

/// Why `update_config` rejects a request, if it does, in the order of the
/// checks.
pub open spec fn update_rejection(
    config: SplitterConfig,
    caller: Pubkey,
    operator_share: u8,
    treasury_share: u8,
    incentive_share: u8,
    orchestrator_share: u8,
) -> Option<PaymentSplitterError> {
    if config.authority != caller {
        Some(PaymentSplitterError::Unauthorized)
    } else if !shares_are_valid(operator_share, treasury_share, incentive_share, orchestrator_share) {
        Some(PaymentSplitterError::InvalidSharePercentages)
    } else {
        None
    }
}

/// Why `withdraw_treasury` rejects a request, if it does, in the order of
/// the checks.
pub open spec fn withdraw_rejection(
    config: SplitterConfig,
    caller: Pubkey,
    treasury_balance: u64,
    amount: u64,
) -> Option<PaymentSplitterError> {
    if config.authority != caller {
        Some(PaymentSplitterError::Unauthorized)
    } else if amount == 0 {
        Some(PaymentSplitterError::InvalidAmount)
    } else if treasury_balance < amount {
        Some(PaymentSplitterError::InsufficientBalance)
    } else {
        None
    }
}

/// When the shares add up to 100, the four parts of a payment are together
/// no more than the payment, and what rounding leaves over is less than four
/// units.
pub proof fn lemma_split_residue(config: SplitterConfig, amount: u64)
    requires
        config.wf(),
    ensures
        split_of(config, amount).spec_total() <= amount,
        amount - split_of(config, amount).spec_total() <= 3,
{
    let whole = amount as int;
    let to_operator = config.operator_share as int;
    let to_treasury = config.treasury_share as int;
    let to_incentive = config.incentive_share as int;
    let to_orchestrator = config.orchestrator_share as int;
    lemma_proportion_bounded(whole, to_operator, 100);
    lemma_proportion_bounded(whole, to_treasury, 100);
    lemma_proportion_bounded(whole, to_incentive, 100);
    lemma_proportion_bounded(whole, to_orchestrator, 100);
    lemma_fundamental_div_mod(whole * to_operator, 100);
    lemma_fundamental_div_mod(whole * to_treasury, 100);
    lemma_fundamental_div_mod(whole * to_incentive, 100);
    lemma_fundamental_div_mod(whole * to_orchestrator, 100);
    assert(whole * to_operator + whole * to_treasury + whole * to_incentive + whole
        * to_orchestrator == whole * 100) by (nonlinear_arith)
        requires
            to_operator + to_treasury + to_incentive + to_orchestrator == 100,
    ;
}

/// Sets the splitter up with the given destinations and shares, and with
/// both totals at zero.
///
/// Fails with `InvalidSharePercentages` exactly when the four shares do not
/// add up to 100.
pub fn initialize(
    authority: Pubkey,
    treasury: Pubkey,
    incentive_pool: Pubkey,
    operator_share: u8,
    treasury_share: u8,
    incentive_share: u8,
    orchestrator_share: u8,
    bump: u8,
) -> (result: Result<SplitterConfig, PaymentSplitterError>)
    ensures
        match result {
            Ok(config) => {
                &&& shares_are_valid(
                    operator_share,
                    treasury_share,
                    incentive_share,
                    orchestrator_share,
                )
                &&& config.wf()
                &&& config == (SplitterConfig {
                    authority,
                    treasury,
                    incentive_pool,
                    operator_share,
                    treasury_share,
                    incentive_share,
                    orchestrator_share,
                    total_volume: 0,
                    total_payments: 0,
                    bump,
                })
            },
            Err(e) => {
                &&& e == PaymentSplitterError::InvalidSharePercentages
                &&& !shares_are_valid(
                    operator_share,
                    treasury_share,
                    incentive_share,
                    orchestrator_share,
                )
            },
        },
{
    let config = SplitterConfig {
        authority,
        treasury,
        incentive_pool,
        operator_share,
        treasury_share,
        incentive_share,
        orchestrator_share,
        total_volume: 0,
        total_payments: 0,
        bump,
    };
    if !config.validate_shares() {
        return Err(PaymentSplitterError::InvalidSharePercentages);
    }
    Ok(config)
}

/// Replaces the four shares, all at once, on behalf of `caller`.
///
/// Fails, changing nothing, with `Unauthorized` when `caller` is not the
/// authority and with `InvalidSharePercentages` when the new shares do not
/// add up to 100.
pub fn update_config(
    config: &mut SplitterConfig,
    caller: Pubkey,
    operator_share: u8,
    treasury_share: u8,
    incentive_share: u8,
    orchestrator_share: u8,
) -> (result: Result<(), PaymentSplitterError>)
    ensures
        match result {
            Ok(()) => {
                &&& update_rejection(
                    *old(config),
                    caller,
                    operator_share,
                    treasury_share,
                    incentive_share,
                    orchestrator_share,
                ) is None
                &&& final(config).wf()
                &&& *final(config) == (SplitterConfig {
                    operator_share,
                    treasury_share,
                    incentive_share,
                    orchestrator_share,
                    ..*old(config)
                })
            },
            Err(e) => {
                &&& update_rejection(
                    *old(config),
                    caller,
                    operator_share,
                    treasury_share,
                    incentive_share,
                    orchestrator_share,
                ) == Some(e)
                &&& *final(config) == *old(config)
            },
        },
{
    if config.authority != caller {
        return Err(PaymentSplitterError::Unauthorized);
    }
    let total: u16 = operator_share as u16 + treasury_share as u16 + incentive_share as u16
        + orchestrator_share as u16;
    if total != 100 {
        return Err(PaymentSplitterError::InvalidSharePercentages);
    }
    config.operator_share = operator_share;
    config.treasury_share = treasury_share;
    config.incentive_share = incentive_share;
    config.orchestrator_share = orchestrator_share;
    Ok(())
}

/// Divides a payment of `amount` across the four shares and records it.
///
/// On success the four transfers are returned, each
/// `floor(amount * share / 100)`; together they are no more than `amount`
/// and fall short of it by at most three units, which are not distributed.
/// The volume has grown by `amount` and the number of payments by one. The
/// caller makes the four transfers from the payer, all or none of them.
/// Fails with `InvalidAmount`, changing nothing, exactly when `amount` is
/// zero.
pub fn process_payment(config: &mut SplitterConfig, amount: u64) -> (result: Result<
    PaymentSplit,
    PaymentSplitterError,
>)
    requires
        old(config).wf(),
    ensures
        final(config).wf(),
        match result {
            Ok(split) => {
                &&& amount > 0
                &&& split == split_of(*old(config), amount)
                &&& split.spec_total() <= amount
                &&& amount - split.spec_total() <= 3
                &&& *final(config) == old(config).spec_after_payment(amount)
            },
            Err(e) => {
                &&& e == PaymentSplitterError::InvalidAmount
                &&& amount == 0
                &&& *final(config) == *old(config)
            },
        },
{
    if amount == 0 {
        return Err(PaymentSplitterError::InvalidAmount);
    }
    let operator_amount = config.calculate_operator_amount(amount);
    let treasury_amount = config.calculate_treasury_amount(amount);
    let incentive_amount = config.calculate_incentive_amount(amount);
    let orchestrator_amount = config.calculate_orchestrator_amount(amount);
    proof {
        lemma_split_residue(*config, amount);
    }
    config.record_payment(amount);
    Ok(PaymentSplit { operator_amount, treasury_amount, incentive_amount, orchestrator_amount })
}

/// Decides whether `caller` may take `amount` out of a treasury that holds
/// `treasury_balance`. On success the caller moves `amount` from the
/// treasury to the destination.
///
/// Fails with `Unauthorized` when `caller` is not the authority, with
/// `InvalidAmount` when `amount` is zero, and with `InsufficientBalance` when
/// the treasury holds less than `amount`.
pub fn withdraw_treasury(
    config: &SplitterConfig,
    caller: Pubkey,
    treasury_balance: u64,
    amount: u64,
) -> (result: Result<(), PaymentSplitterError>)
    ensures
        match result {
            Ok(()) => withdraw_rejection(*config, caller, treasury_balance, amount) is None,
            Err(e) => withdraw_rejection(*config, caller, treasury_balance, amount) == Some(e),
        },
{
    if config.authority != caller {
        return Err(PaymentSplitterError::Unauthorized);
    }
    if amount == 0 {
        return Err(PaymentSplitterError::InvalidAmount);
    }
    if treasury_balance < amount {
        return Err(PaymentSplitterError::InsufficientBalance);
    }
    Ok(())
}

} // verus!
