//! The withdrawal flow: amount and balance validation and the bookkeeping of
//! a withdrawal across the investor's record and the vault totals.
//!
//! The caller moves the actual funds; this module decides whether the
//! withdrawal is admissible and updates both records atomically — on any
//! failure neither record changes.

use vstd::prelude::*;

use crate::constants::MIN_SOL_DEPOSIT;
use crate::constants::MIN_USDC_DEPOSIT;
use crate::depositor_record::DepositorRecord;
use crate::depositor_record::withdrawal_check;
use crate::depositor_record::withdrawn_record;
use crate::errors::ErrorCode;
use crate::events::WithdrawalMade;
use crate::vault_stats::VaultStats;
use crate::vault_stats::vault_withdrawal_fits;
use crate::vault_stats::vault_withdrawn;

verus! {

/// The amounts of one withdrawal call.
#[derive(Clone, Copy, Debug, PartialEq, Eq, Structural)]
pub struct WithdrawParams {
    /// SOL to withdraw, in lamports; 0 to withdraw USDC only.
    pub sol_amount: u64,
    /// USDC to withdraw, in smallest units; 0 to withdraw SOL only.
    pub usdc_amount: u64,
}

/// Whether a withdrawal request is admissible on its amounts alone: at least
/// one amount is nonzero and each nonzero amount meets its minimum.
pub open spec fn withdrawal_amounts_valid(params: WithdrawParams) -> bool {
    &&& params.sol_amount > 0 || params.usdc_amount > 0
    &&& params.sol_amount == 0 || params.sol_amount >= MIN_SOL_DEPOSIT
    &&& params.usdc_amount == 0 || params.usdc_amount >= MIN_USDC_DEPOSIT
}

/// The validation a withdrawal request passes before any record is touched,
/// in order: the amount policy, then the vault's liquid balances.
pub open spec fn withdrawal_request_check(
    params: WithdrawParams,
    sol_vault_balance: u64,
    usdc_vault_balance: u64,
) -> Result<(), ErrorCode> {
    if !withdrawal_amounts_valid(params) {
        Err(ErrorCode::InvalidDepositAmount)
    } else if params.sol_amount > sol_vault_balance {
        Err(ErrorCode::InsufficientTokenBalance)
    } else if params.usdc_amount > usdc_vault_balance {
        Err(ErrorCode::InsufficientTokenBalance)
    } else {
        Ok(())
    }
}

/// Checks a withdrawal request against the amount policy and the vault's
/// liquid balances.
pub fn validate_withdrawal_amounts(
    params: &WithdrawParams,
    sol_vault_balance: u64,
    usdc_vault_balance: u64,
) -> (r: Result<(), ErrorCode>)
    ensures
        r == withdrawal_request_check(*params, sol_vault_balance, usdc_vault_balance),
{
    if !(params.sol_amount > 0 || params.usdc_amount > 0) {
        return Err(ErrorCode::InvalidDepositAmount);
    }
    if !(params.sol_amount == 0 || params.sol_amount >= MIN_SOL_DEPOSIT) {
        return Err(ErrorCode::InvalidDepositAmount);
    }
    if !(params.usdc_amount == 0 || params.usdc_amount >= MIN_USDC_DEPOSIT) {
        return Err(ErrorCode::InvalidDepositAmount);
    }
    if params.sol_amount > 0 && sol_vault_balance < params.sol_amount {
        return Err(ErrorCode::InsufficientTokenBalance);
    }
    if params.usdc_amount > 0 && usdc_vault_balance < params.usdc_amount {
        return Err(ErrorCode::InsufficientTokenBalance);
    }
    Ok(())
}

/// The validation a withdrawal performs end to end, in order: the request
/// check against the vault's liquid balances, then the investor record's
/// balances and counters, then the vault totals.
pub open spec fn withdraw_flow_check(
    record: DepositorRecord,
    stats: VaultStats,
    params: WithdrawParams,
    sol_vault_balance: u64,
    usdc_vault_balance: u64,
) -> Result<(), ErrorCode> {
    match withdrawal_request_check(params, sol_vault_balance, usdc_vault_balance) {
        Err(e) => Err(e),
        Ok(()) => match withdrawal_check(record, params.sol_amount, params.usdc_amount) {
            Err(e) => Err(e),
            Ok(()) => if !vault_withdrawal_fits(stats, params.sol_amount, params.usdc_amount) {
                Err(ErrorCode::MathOverflow)
            } else {
                Ok(())
            },
        },
    }
}

/// Books a withdrawal at time `now`: validates the amounts against the
/// policy, the vault's liquid balances and the investor's own balances, then
/// debits the investor's record and the vault totals. Returns the audit
/// record of the withdrawal.
///
/// Any failure leaves both records exactly as they were.
pub fn withdraw(
    record: &mut DepositorRecord,
    stats: &mut VaultStats,
    params: WithdrawParams,
    sol_vault_balance: u64,
    usdc_vault_balance: u64,
    now: i64,
) -> (r: Result<WithdrawalMade, ErrorCode>)
    ensures
        r is Ok <==> withdraw_flow_check(
            *old(record),
            *old(stats),
            params,
            sol_vault_balance,
            usdc_vault_balance,
        ) is Ok,
        r matches Err(e) ==> withdraw_flow_check(
            *old(record),
            *old(stats),
            params,
            sol_vault_balance,
            usdc_vault_balance,
        ) == Err::<(), ErrorCode>(e),
        r is Err ==> *final(record) == *old(record) && *final(stats) == *old(stats),
        r is Ok ==> *final(record) == withdrawn_record(
            *old(record),
            params.sol_amount,
            params.usdc_amount,
            now,
        ),
        r is Ok ==> *final(stats) == vault_withdrawn(
            *old(stats),
            params.sol_amount,
            params.usdc_amount,
            now,
        ),
        r matches Ok(ev) ==> ev == (WithdrawalMade {
            investor: old(record).investor,
            sol_amount: params.sol_amount,
            usdc_amount: params.usdc_amount,
            total_sol_withdrawn: final(record).total_sol_withdrawn,
            total_usdc_withdrawn: final(record).total_usdc_withdrawn,
            current_sol_balance: final(record).current_sol_balance,
            current_usdc_balance: final(record).current_usdc_balance,
            withdrawal_count: final(record).withdrawal_count,
            timestamp: now,
        }),
{
    match validate_withdrawal_amounts(&params, sol_vault_balance, usdc_vault_balance) {
        Ok(()) => {}
        Err(e) => {
            return Err(e);
        }
    }
    let mut new_record = *record;
    match new_record.add_withdrawal(params.sol_amount, params.usdc_amount, now) {
        Ok(()) => {}
        Err(e) => {
            return Err(e);
        }
    }
    let mut new_stats = *stats;
    match new_stats.add_withdrawals(params.sol_amount, params.usdc_amount, now) {
        Ok(()) => {}
        Err(e) => {
            return Err(e);
        }
    }
    *record = new_record;
    *stats = new_stats;
    Ok(WithdrawalMade {
        investor: new_record.investor,
        sol_amount: params.sol_amount,
        usdc_amount: params.usdc_amount,
        total_sol_withdrawn: new_record.total_sol_withdrawn,
        total_usdc_withdrawn: new_record.total_usdc_withdrawn,
        current_sol_balance: new_record.current_sol_balance,
        current_usdc_balance: new_record.current_usdc_balance,
        withdrawal_count: new_record.withdrawal_count,
        timestamp: now,
    })
}

} // verus!
