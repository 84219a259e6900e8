//! The deposit flow: amount validation and the bookkeeping of a deposit
//! across the investor's record and the vault totals.
//!
//! The caller moves the actual funds; this module decides whether the
//! deposit is admissible and updates both records atomically — on any
//! failure neither record changes.

use vstd::prelude::*;

use crate::constants::MAX_SOL_DEPOSIT;
use crate::constants::MAX_USDC_DEPOSIT;
use crate::constants::MIN_SOL_DEPOSIT;
use crate::constants::MIN_USDC_DEPOSIT;
use crate::depositor_record::DepositorRecord;
use crate::depositor_record::deposit_fits;
use crate::depositor_record::deposited_record;
use crate::errors::ErrorCode;
use crate::events::DepositMade;
use crate::vault_stats::VaultStats;
use crate::vault_stats::vault_deposit_fits;
use crate::vault_stats::vault_deposited;

verus! {

/// The amounts of one deposit call.
#[derive(Clone, Copy, Debug, PartialEq, Eq, Structural)]
pub struct DepositParams {
    /// SOL to deposit, in lamports; 0 to deposit USDC only.
    pub sol_amount: u64,
    /// USDC to deposit, in smallest units; 0 to deposit SOL only.
    pub usdc_amount: u64,
}

/// Whether a deposit request is admissible: at least one amount is nonzero,
/// and each nonzero amount lies within its minimum and maximum.
pub open spec fn deposit_amounts_valid(params: DepositParams) -> bool {
    &&& params.sol_amount > 0 || params.usdc_amount > 0
    &&& params.sol_amount == 0 || params.sol_amount >= MIN_SOL_DEPOSIT
    &&& params.usdc_amount == 0 || params.usdc_amount >= MIN_USDC_DEPOSIT
    &&& params.sol_amount <= MAX_SOL_DEPOSIT
    &&& params.usdc_amount <= MAX_USDC_DEPOSIT
}

/// Checks a deposit request against the amount policy.
pub fn validate_deposit_amounts(params: &DepositParams) -> (r: Result<(), ErrorCode>)
    ensures
        r is Ok <==> deposit_amounts_valid(*params),
        r is Err ==> r == Err::<(), ErrorCode>(ErrorCode::InvalidDepositAmount),
{
    if !(params.sol_amount > 0 || params.usdc_amount > 0) {
        return Err(ErrorCode::InvalidDepositAmount);
    }
    if !(params.sol_amount == 0 || params.sol_amount >= MIN_SOL_DEPOSIT) {
        return Err(ErrorCode::InvalidDepositAmount);
    }
    if !(params.usdc_amount == 0 || params.usdc_amount >= MIN_USDC_DEPOSIT) {
        return Err(ErrorCode::InvalidDepositAmount);
    }
    if params.sol_amount > MAX_SOL_DEPOSIT {
        return Err(ErrorCode::InvalidDepositAmount);
    }
    if params.usdc_amount > MAX_USDC_DEPOSIT {
        return Err(ErrorCode::InvalidDepositAmount);
    }
    Ok(())
}

/// The validation a deposit performs, in order: the amount policy, the
/// investor record's counters, the vault's counters, and — for a first
/// deposit — the depositor count.
pub open spec fn deposit_flow_check(
    record: DepositorRecord,
    stats: VaultStats,
    params: DepositParams,
) -> Result<(), ErrorCode> {
    if !deposit_amounts_valid(params) {
        Err(ErrorCode::InvalidDepositAmount)
    } else if !deposit_fits(record, params.sol_amount, params.usdc_amount) {
        Err(ErrorCode::MathOverflow)
    } else if !vault_deposit_fits(stats, params.sol_amount, params.usdc_amount) {
        Err(ErrorCode::MathOverflow)
    } else if record.deposit_count == 0 && stats.depositor_count == u32::MAX {
        Err(ErrorCode::MathOverflow)
    } else {
        Ok(())
    }
}

/// The vault stats after a successful deposit: the totals credited, and the
/// depositor count grown by one exactly when this was the investor's first
/// deposit.
pub open spec fn deposit_flow_stats(
    record: DepositorRecord,
    stats: VaultStats,
    params: DepositParams,
    now: i64,
) -> VaultStats {
    let credited = vault_deposited(stats, params.sol_amount, params.usdc_amount, now);
    VaultStats {
        depositor_count: if record.deposit_count == 0 {
            (stats.depositor_count + 1) as u32
        } else {
            stats.depositor_count
        },
        ..credited
    }
}

/// Books a deposit at time `now`: validates the amounts, credits the
/// investor's record and the vault totals, and counts a new depositor on a
/// first deposit. Returns the audit record of the deposit.
///
/// Any failure leaves both records exactly as they were.
pub fn deposit(
    record: &mut DepositorRecord,
    stats: &mut VaultStats,
    params: DepositParams,
    now: i64,
) -> (r: Result<DepositMade, ErrorCode>)
    ensures
        r is Ok <==> deposit_flow_check(*old(record), *old(stats), params) is Ok,
        r matches Err(e) ==> deposit_flow_check(*old(record), *old(stats), params)
            == Err::<(), ErrorCode>(e),
        r is Err ==> *final(record) == *old(record) && *final(stats) == *old(stats),
        r is Ok ==> *final(record) == deposited_record(
            *old(record),
            params.sol_amount,
            params.usdc_amount,
            now,
        ),
        r is Ok ==> *final(stats) == deposit_flow_stats(*old(record), *old(stats), params, now),
        r matches Ok(ev) ==> ev == (DepositMade {
            investor: old(record).investor,
            sol_amount: params.sol_amount,
            usdc_amount: params.usdc_amount,
            total_sol_deposited: final(record).total_sol_deposited,
            total_usdc_deposited: final(record).total_usdc_deposited,
            current_sol_balance: final(record).current_sol_balance,
            current_usdc_balance: final(record).current_usdc_balance,
            deposit_count: final(record).deposit_count,
            timestamp: now,
        }),
{
    match validate_deposit_amounts(&params) {
        Ok(()) => {}
        Err(e) => {
            return Err(e);
        }
    }
    let mut new_record = *record;
    match new_record.add_deposit(params.sol_amount, params.usdc_amount, now) {
        Ok(()) => {}
        Err(e) => {
            return Err(e);
        }
    }
    let mut new_stats = *stats;
    match new_stats.add_deposits(params.sol_amount, params.usdc_amount, now) {
        Ok(()) => {}
        Err(e) => {
            return Err(e);
        }
    }
    if new_record.deposit_count == 1 {
        if new_stats.depositor_count == u32::MAX {
            return Err(ErrorCode::MathOverflow);
        }
        new_stats.depositor_count = new_stats.depositor_count + 1;
    }
    *record = new_record;
    *stats = new_stats;
    Ok(DepositMade {
        investor: new_record.investor,
        sol_amount: params.sol_amount,
        usdc_amount: params.usdc_amount,
        total_sol_deposited: new_record.total_sol_deposited,
        total_usdc_deposited: new_record.total_usdc_deposited,
        current_sol_balance: new_record.current_sol_balance,
        current_usdc_balance: new_record.current_usdc_balance,
        deposit_count: new_record.deposit_count,
        timestamp: now,
    })
}

} // verus!
