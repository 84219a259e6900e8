//! Per-investor stake bookkeeping: deposits, withdrawals and the derived
//! share percentage.

use vstd::prelude::*;

use crate::errors::ErrorCode;

verus! {

/// One investor's deposits, withdrawals and current balances.
#[derive(Clone, Copy, Debug, PartialEq, Eq, Structural)]
pub struct DepositorRecord {
    /// The investor this record belongs to, as an opaque identifier.
    pub investor: u64,
    /// Lifetime SOL deposited, in lamports.
    pub total_sol_deposited: u64,
    /// Lifetime USDC deposited, in smallest units.
    pub total_usdc_deposited: u64,
    /// Current SOL balance, in lamports.
    pub current_sol_balance: u64,
    /// Current USDC balance, in smallest units.
    pub current_usdc_balance: u64,
    /// Lifetime SOL withdrawn, in lamports.
    pub total_sol_withdrawn: u64,
    /// Lifetime USDC withdrawn, in smallest units.
    pub total_usdc_withdrawn: u64,
    /// Time of the first deposit.
    pub first_deposit_timestamp: i64,
    /// Time of the most recent deposit or withdrawal.
    pub last_activity_timestamp: i64,
    /// Number of deposits made.
    pub deposit_count: u32,
    /// Number of withdrawals made.
    pub withdrawal_count: u32,
}

/// Whether a deposit of `sol_amount` and `usdc_amount` fits this record's
/// running totals without overflow.
pub open spec fn deposit_fits(s: DepositorRecord, sol_amount: u64, usdc_amount: u64) -> bool {
    &&& s.total_sol_deposited + sol_amount <= u64::MAX
    &&& s.total_usdc_deposited + usdc_amount <= u64::MAX
    &&& s.current_sol_balance + sol_amount <= u64::MAX
    &&& s.current_usdc_balance + usdc_amount <= u64::MAX
    &&& s.deposit_count < u32::MAX
}

/// The record after a successful deposit.
pub open spec fn deposited_record(
    s: DepositorRecord,
    sol_amount: u64,
    usdc_amount: u64,
    now: i64,
) -> DepositorRecord {
    DepositorRecord {
        total_sol_deposited: (s.total_sol_deposited + sol_amount) as u64,
        total_usdc_deposited: (s.total_usdc_deposited + usdc_amount) as u64,
        current_sol_balance: (s.current_sol_balance + sol_amount) as u64,
        current_usdc_balance: (s.current_usdc_balance + usdc_amount) as u64,
        first_deposit_timestamp: if s.deposit_count == 0 {
            now
        } else {
            s.first_deposit_timestamp
        },
        last_activity_timestamp: now,
        deposit_count: (s.deposit_count + 1) as u32,
        ..s
    }
}

/// The validation a withdrawal performs, in order: both amounts must be
/// covered by the current balances, and the running totals must not
/// overflow.
pub open spec fn withdrawal_check(
    s: DepositorRecord,
    sol_amount: u64,
    usdc_amount: u64,
) -> Result<(), ErrorCode> {
    if sol_amount > s.current_sol_balance {
        Err(ErrorCode::InsufficientBalance)
    } else if usdc_amount > s.current_usdc_balance {
        Err(ErrorCode::InsufficientBalance)
    } else if s.total_sol_withdrawn + sol_amount > u64::MAX {
        Err(ErrorCode::MathOverflow)
    } else if s.total_usdc_withdrawn + usdc_amount > u64::MAX {
        Err(ErrorCode::MathOverflow)
    } else if s.withdrawal_count == u32::MAX {
        Err(ErrorCode::MathOverflow)
    } else {
        Ok(())
    }
}

/// The record after a successful withdrawal.
pub open spec fn withdrawn_record(
    s: DepositorRecord,
    sol_amount: u64,
    usdc_amount: u64,
    now: i64,
) -> DepositorRecord {
    DepositorRecord {
        total_sol_withdrawn: (s.total_sol_withdrawn + sol_amount) as u64,
        total_usdc_withdrawn: (s.total_usdc_withdrawn + usdc_amount) as u64,
        current_sol_balance: (s.current_sol_balance - sol_amount) as u64,
        current_usdc_balance: (s.current_usdc_balance - usdc_amount) as u64,
        last_activity_timestamp: now,
        withdrawal_count: (s.withdrawal_count + 1) as u32,
        ..s
    }
}

/// One deposit total's weight against a vault total, in basis points:
/// `floor(deposited * 10000 / total)`, or 0 when the total is 0.
pub open spec fn share_weight_int(deposited: u64, total: u64) -> int {
    if total > 0 {
        (deposited * 10000) / (total as int)
    } else {
        0
    }
}

/// The share percentage an investor is credited with: the higher of their
/// SOL and USDC weights, capped at 100% (10000 basis points).
pub open spec fn share_percentage_int(
    s: DepositorRecord,
    total_sol: u64,
    total_usdc: u64,
) -> int {
    let sol_weight = share_weight_int(s.total_sol_deposited, total_sol);
    let usdc_weight = share_weight_int(s.total_usdc_deposited, total_usdc);
    let higher = if sol_weight >= usdc_weight {
        sol_weight
    } else {
        usdc_weight
    };
    if higher > 10000 {
        10000
    } else {
        higher
    }
}

impl DepositorRecord {
    /// A fresh record for `investor`: no deposits, no withdrawals, both
    /// timestamps set to `now`.
    pub fn new(investor: u64, now: i64) -> (s: DepositorRecord)
        ensures
            s == (DepositorRecord {
                investor,
                total_sol_deposited: 0,
                total_usdc_deposited: 0,
                current_sol_balance: 0,
                current_usdc_balance: 0,
                total_sol_withdrawn: 0,
                total_usdc_withdrawn: 0,
                first_deposit_timestamp: now,
                last_activity_timestamp: now,
                deposit_count: 0,
                withdrawal_count: 0,
            }),
    {
        DepositorRecord {
            investor,
            total_sol_deposited: 0,
            total_usdc_deposited: 0,
            current_sol_balance: 0,
            current_usdc_balance: 0,
            total_sol_withdrawn: 0,
            total_usdc_withdrawn: 0,
            first_deposit_timestamp: now,
            last_activity_timestamp: now,
            deposit_count: 0,
            withdrawal_count: 0,
        }
    }

    /// Credits a deposit to the record at time `now`: totals and balances
    /// grow by the amounts, the activity time updates, the first-deposit
    /// time is set on the first deposit, and the deposit count increments.
    /// Fails on counter overflow, leaving the record unchanged.
    pub fn add_deposit(&mut self, sol_amount: u64, usdc_amount: u64, now: i64) -> (r: Result<
        (),
        ErrorCode,
    >)
        ensures
            r is Ok <==> deposit_fits(*old(self), sol_amount, usdc_amount),
            r is Err ==> r == Err::<(), ErrorCode>(ErrorCode::MathOverflow),
            r is Err ==> *final(self) == *old(self),
            r is Ok ==> *final(self) == deposited_record(*old(self), sol_amount, usdc_amount, now),
    {
        if self.total_sol_deposited > u64::MAX - sol_amount {
            return Err(ErrorCode::MathOverflow);
        }
        if self.total_usdc_deposited > u64::MAX - usdc_amount {
            return Err(ErrorCode::MathOverflow);
        }
        if self.current_sol_balance > u64::MAX - sol_amount {
            return Err(ErrorCode::MathOverflow);
        }
        if self.current_usdc_balance > u64::MAX - usdc_amount {
            return Err(ErrorCode::MathOverflow);
        }
        if self.deposit_count == u32::MAX {
            return Err(ErrorCode::MathOverflow);
        }
        self.total_sol_deposited = self.total_sol_deposited + sol_amount;
        self.total_usdc_deposited = self.total_usdc_deposited + usdc_amount;
        self.current_sol_balance = self.current_sol_balance + sol_amount;
        self.current_usdc_balance = self.current_usdc_balance + usdc_amount;
        self.last_activity_timestamp = now;
        if self.deposit_count == 0 {
            self.first_deposit_timestamp = now;
        }
        self.deposit_count = self.deposit_count + 1;
        Ok(())
    }

    /// Debits a withdrawal from the record at time `now`. Both amounts must
    /// be covered by the current balances; any failure leaves the record
    /// unchanged.
    pub fn add_withdrawal(&mut self, sol_amount: u64, usdc_amount: u64, now: i64) -> (r: Result<
        (),
        ErrorCode,
    >)
        ensures
            r is Ok <==> withdrawal_check(*old(self), sol_amount, usdc_amount) is Ok,
            r matches Err(e) ==> withdrawal_check(*old(self), sol_amount, usdc_amount)
                == Err::<(), ErrorCode>(e),
            r is Err ==> *final(self) == *old(self),
            r is Ok ==> *final(self) == withdrawn_record(*old(self), sol_amount, usdc_amount, now),
    {
        if sol_amount > self.current_sol_balance {
            return Err(ErrorCode::InsufficientBalance);
        }
        if usdc_amount > self.current_usdc_balance {
            return Err(ErrorCode::InsufficientBalance);
        }
        if self.total_sol_withdrawn > u64::MAX - sol_amount {
            return Err(ErrorCode::MathOverflow);
        }
        if self.total_usdc_withdrawn > u64::MAX - usdc_amount {
            return Err(ErrorCode::MathOverflow);
        }
        if self.withdrawal_count == u32::MAX {
            return Err(ErrorCode::MathOverflow);
        }
        self.total_sol_withdrawn = self.total_sol_withdrawn + sol_amount;
        self.total_usdc_withdrawn = self.total_usdc_withdrawn + usdc_amount;
        self.current_sol_balance = self.current_sol_balance - sol_amount;
        self.current_usdc_balance = self.current_usdc_balance - usdc_amount;
        self.last_activity_timestamp = now;
        self.withdrawal_count = self.withdrawal_count + 1;
        Ok(())
    }

    /// The investor's share of the vault in basis points: the higher of
    /// their SOL and USDC deposit weights, capped at 100%.
    pub fn calculate_share_percentage(&self, total_sol: u64, total_usdc: u64) -> (r: Result<
        u16,
        ErrorCode,
    >)
        ensures
            r is Ok,
            r matches Ok(share) ==> share == share_percentage_int(*self, total_sol, total_usdc),
    {
        if total_sol == 0 && total_usdc == 0 {
            return Ok(0);
        }
        let sol_weight: u128 = if total_sol > 0 {
            (self.total_sol_deposited as u128 * 10000) / (total_sol as u128)
        } else {
            0
        };
        let usdc_weight: u128 = if total_usdc > 0 {
            (self.total_usdc_deposited as u128 * 10000) / (total_usdc as u128)
        } else {
            0
        };
        let higher: u128 = if sol_weight >= usdc_weight {
            sol_weight
        } else {
            usdc_weight
        };
        let share: u128 = if higher > 10000 {
            10000
        } else {
            higher
        };
        Ok(share as u16)
    }

    /// Whether the investor has ever deposited.
    pub fn has_deposits(&self) -> (r: bool)
        ensures
            r == (self.total_sol_deposited > 0 || self.total_usdc_deposited > 0),
    {
        self.total_sol_deposited > 0 || self.total_usdc_deposited > 0
    }

    /// The record's headline deposit value: its lifetime SOL total.
    pub fn get_total_deposit_value(&self) -> (r: u64)
        ensures
            r == self.total_sol_deposited,
    {
        self.total_sol_deposited
    }
}

} // verus!
