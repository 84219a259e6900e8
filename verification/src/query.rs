//! Read-only views of an investor's record and of the vault totals.

use vstd::prelude::*;

use crate::depositor_record::DepositorRecord;
use crate::depositor_record::share_percentage_int;
use crate::errors::ErrorCode;
use crate::vault_stats::VaultStats;

verus! {

/// A snapshot of one investor's record, with their derived share.
#[derive(Clone, Copy, Debug, PartialEq, Eq, Structural)]
pub struct DepositorInfo {
    /// The investor queried.
    pub investor: u64,
    /// Lifetime SOL deposited, in lamports.
    pub total_sol_deposited: u64,
    /// Lifetime USDC deposited, in smallest units.
    pub total_usdc_deposited: u64,
    /// Current SOL balance, in lamports.
    pub current_sol_balance: u64,
    /// Current USDC balance, in smallest units.
    pub current_usdc_balance: u64,
    /// Lifetime SOL withdrawn, in lamports.
    pub total_sol_withdrawn: u64,
    /// Lifetime USDC withdrawn, in smallest units.
    pub total_usdc_withdrawn: u64,
    /// The investor's share against the vault's SOL balance, in basis points.
    pub sol_share_percentage: u16,
    /// The investor's share against the vault's USDC balance, in basis points.
    pub usdc_share_percentage: u16,
    /// Number of deposits made.
    pub deposit_count: u32,
    /// Number of withdrawals made.
    pub withdrawal_count: u32,
    /// Time of the first deposit.
    pub first_deposit_timestamp: i64,
    /// Time of the most recent activity.
    pub last_activity_timestamp: i64,
}

/// A snapshot of the vault totals.
#[derive(Clone, Copy, Debug, PartialEq, Eq, Structural)]
pub struct VaultInfo {
    /// Lifetime SOL deposited across all investors, in lamports.
    pub total_sol_deposited: u64,
    /// Lifetime USDC deposited across all investors, in smallest units.
    pub total_usdc_deposited: u64,
    /// Current SOL held by the vault, in lamports.
    pub current_total_sol: u64,
    /// Current USDC held by the vault, in smallest units.
    pub current_total_usdc: u64,
    /// Lifetime SOL withdrawn across all investors, in lamports.
    pub total_sol_withdrawn: u64,
    /// Lifetime USDC withdrawn across all investors, in smallest units.
    pub total_usdc_withdrawn: u64,
    /// Number of unique depositors.
    pub depositor_count: u32,
    /// Time of the most recent update.
    pub last_update_timestamp: i64,
}

/// Builds the snapshot of one investor's record against the current vault
/// balances, with their share percentage computed once and reported for both
/// denominations.
pub fn query_depositor(record: &DepositorRecord, stats: &VaultStats) -> (r: Result<
    DepositorInfo,
    ErrorCode,
>)
    ensures
        r is Ok,
        r matches Ok(info) ==> info == (DepositorInfo {
            investor: record.investor,
            total_sol_deposited: record.total_sol_deposited,
            total_usdc_deposited: record.total_usdc_deposited,
            current_sol_balance: record.current_sol_balance,
            current_usdc_balance: record.current_usdc_balance,
            total_sol_withdrawn: record.total_sol_withdrawn,
            total_usdc_withdrawn: record.total_usdc_withdrawn,
            sol_share_percentage: share_percentage_int(
                *record,
                stats.current_total_sol,
                stats.current_total_usdc,
            ) as u16,
            usdc_share_percentage: share_percentage_int(
                *record,
                stats.current_total_sol,
                stats.current_total_usdc,
            ) as u16,
            deposit_count: record.deposit_count,
            withdrawal_count: record.withdrawal_count,
            first_deposit_timestamp: record.first_deposit_timestamp,
            last_activity_timestamp: record.last_activity_timestamp,
        }),
{
    let share_percentage = match record.calculate_share_percentage(
        stats.get_current_sol_balance(),
        stats.get_current_usdc_balance(),
    ) {
        Ok(share) => share,
        Err(e) => {
            return Err(e);
        }
    };
    Ok(DepositorInfo {
        investor: record.investor,
        total_sol_deposited: record.total_sol_deposited,
        total_usdc_deposited: record.total_usdc_deposited,
        current_sol_balance: record.current_sol_balance,
        current_usdc_balance: record.current_usdc_balance,
        total_sol_withdrawn: record.total_sol_withdrawn,
        total_usdc_withdrawn: record.total_usdc_withdrawn,
        sol_share_percentage: share_percentage,
        usdc_share_percentage: share_percentage,
        deposit_count: record.deposit_count,
        withdrawal_count: record.withdrawal_count,
        first_deposit_timestamp: record.first_deposit_timestamp,
        last_activity_timestamp: record.last_activity_timestamp,
    })
}

/// Builds the snapshot of the vault totals.
pub fn query_vault(stats: &VaultStats) -> (r: Result<VaultInfo, ErrorCode>)
    ensures
        r is Ok,
        r matches Ok(info) ==> info == (VaultInfo {
            total_sol_deposited: stats.total_sol_deposited,
            total_usdc_deposited: stats.total_usdc_deposited,
            current_total_sol: stats.current_total_sol,
            current_total_usdc: stats.current_total_usdc,
            total_sol_withdrawn: stats.total_sol_withdrawn,
            total_usdc_withdrawn: stats.total_usdc_withdrawn,
            depositor_count: stats.depositor_count,
            last_update_timestamp: stats.last_update_timestamp,
        }),
{
    Ok(VaultInfo {
        total_sol_deposited: stats.total_sol_deposited,
        total_usdc_deposited: stats.total_usdc_deposited,
        current_total_sol: stats.current_total_sol,
        current_total_usdc: stats.current_total_usdc,
        total_sol_withdrawn: stats.total_sol_withdrawn,
        total_usdc_withdrawn: stats.total_usdc_withdrawn,
        depositor_count: stats.depositor_count,
        last_update_timestamp: stats.last_update_timestamp,
    })
}

} // verus!
