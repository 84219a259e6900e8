//! Vault-wide stake bookkeeping: the aggregate of all depositor records.

use vstd::prelude::*;

use crate::errors::ErrorCode;

verus! {

/// Aggregate deposits, withdrawals and balances across all investors.
#[derive(Clone, Copy, Debug, PartialEq, Eq, Structural)]
pub struct VaultStats {
    /// Lifetime SOL deposited across all investors, in lamports.
    pub total_sol_deposited: u64,
    /// Lifetime USDC deposited across all investors, in smallest units.
    pub total_usdc_deposited: u64,
    /// Current SOL held by the vault, in lamports.
    pub current_total_sol: u64,
    /// Current USDC held by the vault, in smallest units.
    pub current_total_usdc: u64,
    /// Lifetime SOL withdrawn across all investors, in lamports.
    pub total_sol_withdrawn: u64,
    /// Lifetime USDC withdrawn across all investors, in smallest units.
    pub total_usdc_withdrawn: u64,
    /// Number of unique depositors.
    pub depositor_count: u32,
    /// Time of the most recent update.
    pub last_update_timestamp: i64,
}

/// Whether a deposit of `sol_amount` and `usdc_amount` fits the vault's
/// running totals without overflow.
pub open spec fn vault_deposit_fits(s: VaultStats, sol_amount: u64, usdc_amount: u64) -> bool {
    &&& s.total_sol_deposited + sol_amount <= u64::MAX
    &&& s.total_usdc_deposited + usdc_amount <= u64::MAX
    &&& s.current_total_sol + sol_amount <= u64::MAX
    &&& s.current_total_usdc + usdc_amount <= u64::MAX
}

/// The vault stats after a successful deposit.
pub open spec fn vault_deposited(
    s: VaultStats,
    sol_amount: u64,
    usdc_amount: u64,
    now: i64,
) -> VaultStats {
    VaultStats {
        total_sol_deposited: (s.total_sol_deposited + sol_amount) as u64,
        total_usdc_deposited: (s.total_usdc_deposited + usdc_amount) as u64,
        current_total_sol: (s.current_total_sol + sol_amount) as u64,
        current_total_usdc: (s.current_total_usdc + usdc_amount) as u64,
        last_update_timestamp: now,
        ..s
    }
}

/// Whether a withdrawal of `sol_amount` and `usdc_amount` fits the vault's
/// totals: the lifetime counters must not overflow and the current balances
/// must cover the amounts.
pub open spec fn vault_withdrawal_fits(s: VaultStats, sol_amount: u64, usdc_amount: u64) -> bool {
    &&& s.total_sol_withdrawn + sol_amount <= u64::MAX
    &&& s.total_usdc_withdrawn + usdc_amount <= u64::MAX
    &&& sol_amount <= s.current_total_sol
    &&& usdc_amount <= s.current_total_usdc
}

/// The vault stats after a successful withdrawal.
pub open spec fn vault_withdrawn(
    s: VaultStats,
    sol_amount: u64,
    usdc_amount: u64,
    now: i64,
) -> VaultStats {
    VaultStats {
        total_sol_withdrawn: (s.total_sol_withdrawn + sol_amount) as u64,
        total_usdc_withdrawn: (s.total_usdc_withdrawn + usdc_amount) as u64,
        current_total_sol: (s.current_total_sol - sol_amount) as u64,
        current_total_usdc: (s.current_total_usdc - usdc_amount) as u64,
        last_update_timestamp: now,
        ..s
    }
}

impl VaultStats {
    /// Fresh vault stats: nothing deposited, nothing withdrawn, nobody
    /// counted.
    pub fn new() -> (s: VaultStats)
        ensures
            s == (VaultStats {
                total_sol_deposited: 0,
                total_usdc_deposited: 0,
                current_total_sol: 0,
                current_total_usdc: 0,
                total_sol_withdrawn: 0,
                total_usdc_withdrawn: 0,
                depositor_count: 0,
                last_update_timestamp: 0,
            }),
    {
        VaultStats {
            total_sol_deposited: 0,
            total_usdc_deposited: 0,
            current_total_sol: 0,
            current_total_usdc: 0,
            total_sol_withdrawn: 0,
            total_usdc_withdrawn: 0,
            depositor_count: 0,
            last_update_timestamp: 0,
        }
    }

    /// Credits a deposit to the vault totals at time `now`. Fails on
    /// counter overflow, leaving the stats unchanged.
    pub fn add_deposits(&mut self, sol_amount: u64, usdc_amount: u64, now: i64) -> (r: Result<
        (),
        ErrorCode,
    >)
        ensures
            r is Ok <==> vault_deposit_fits(*old(self), sol_amount, usdc_amount),
            r is Err ==> r == Err::<(), ErrorCode>(ErrorCode::MathOverflow),
            r is Err ==> *final(self) == *old(self),
            r is Ok ==> *final(self) == vault_deposited(*old(self), sol_amount, usdc_amount, now),
    {
        if self.total_sol_deposited > u64::MAX - sol_amount {
            return Err(ErrorCode::MathOverflow);
        }
        if self.total_usdc_deposited > u64::MAX - usdc_amount {
            return Err(ErrorCode::MathOverflow);
        }
        if self.current_total_sol > u64::MAX - sol_amount {
            return Err(ErrorCode::MathOverflow);
        }
        if self.current_total_usdc > u64::MAX - usdc_amount {
            return Err(ErrorCode::MathOverflow);
        }
        self.total_sol_deposited = self.total_sol_deposited + sol_amount;
        self.total_usdc_deposited = self.total_usdc_deposited + usdc_amount;
        self.current_total_sol = self.current_total_sol + sol_amount;
        self.current_total_usdc = self.current_total_usdc + usdc_amount;
        self.last_update_timestamp = now;
        Ok(())
    }

    /// Debits a withdrawal from the vault totals at time `now`. The current
    /// balances must cover the amounts; any failure leaves the stats
    /// unchanged.
    pub fn add_withdrawals(&mut self, sol_amount: u64, usdc_amount: u64, now: i64) -> (r: Result<
        (),
        ErrorCode,
    >)
        ensures
            r is Ok <==> vault_withdrawal_fits(*old(self), sol_amount, usdc_amount),
            r is Err ==> r == Err::<(), ErrorCode>(ErrorCode::MathOverflow),
            r is Err ==> *final(self) == *old(self),
            r is Ok ==> *final(self) == vault_withdrawn(*old(self), sol_amount, usdc_amount, now),
    {
        if self.total_sol_withdrawn > u64::MAX - sol_amount {
            return Err(ErrorCode::MathOverflow);
        }
        if self.total_usdc_withdrawn > u64::MAX - usdc_amount {
            return Err(ErrorCode::MathOverflow);
        }
        if sol_amount > self.current_total_sol {
            return Err(ErrorCode::MathOverflow);
        }
        if usdc_amount > self.current_total_usdc {
            return Err(ErrorCode::MathOverflow);
        }
        self.total_sol_withdrawn = self.total_sol_withdrawn + sol_amount;
        self.total_usdc_withdrawn = self.total_usdc_withdrawn + usdc_amount;
        self.current_total_sol = self.current_total_sol - sol_amount;
        self.current_total_usdc = self.current_total_usdc - usdc_amount;
        self.last_update_timestamp = now;
        Ok(())
    }

    /// The vault's current SOL balance.
    pub fn get_current_sol_balance(&self) -> (r: u64)
        ensures
            r == self.current_total_sol,
    {
        self.current_total_sol
    }

    /// The vault's current USDC balance.
    pub fn get_current_usdc_balance(&self) -> (r: u64)
        ensures
            r == self.current_total_usdc,
    {
        self.current_total_usdc
    }

    /// Whether anyone has ever deposited.
    pub fn has_deposits(&self) -> (r: bool)
        ensures
            r == (self.total_sol_deposited > 0 || self.total_usdc_deposited > 0),
    {
        self.total_sol_deposited > 0 || self.total_usdc_deposited > 0
    }

    /// The vault's headline deposit value: its lifetime SOL total.
    pub fn get_total_deposit_value(&self) -> (r: u64)
        ensures
            r == self.total_sol_deposited,
    {
        self.total_sol_deposited
    }
}

} // verus!
