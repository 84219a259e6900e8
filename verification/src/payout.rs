//! The pure fixed-point arithmetic of the engine: the once-per-day fee split
//! and the per-investor payout with dust handling.
//!
//! All fractions are expressed in basis points (units of 1/10000) and every
//! division rounds down. Intermediate products are computed with 128-bit
//! precision; a result that cannot be represented in its 64-bit output is an
//! arithmetic failure, never a silent truncation.

use vstd::prelude::*;

use vstd::arithmetic::div_mod::lemma_div_by_multiple;
use vstd::arithmetic::div_mod::lemma_div_is_ordered;
use vstd::arithmetic::div_mod::lemma_div_pos_is_pos;
use vstd::arithmetic::mul::lemma_mul_nonnegative;
use vstd::arithmetic::mul::lemma_mul_upper_bound;

use crate::errors::ErrorCode;

verus! {

/// An investor's weight in basis points: `floor(balance * 10000 / total)`,
/// or 0 when nothing is locked.
pub open spec fn weight_bps_int(investor_balance: u64, total_locked: u64) -> int {
    if total_locked > 0 {
        (investor_balance * 10000) / (total_locked as int)
    } else {
        0
    }
}

/// The payout an investor's weight entitles them to, before the dust
/// threshold: `floor(total_investor_fee * weight_bps / 10000)`.
pub open spec fn raw_payout_int(
    total_investor_fee: u64,
    investor_balance: u64,
    total_locked: u64,
) -> int {
    (total_investor_fee * weight_bps_int(investor_balance, total_locked)) / 10000
}

/// Whether the payout computation leaves the 64-bit range. This can only
/// happen when the stake ledger is inconsistent (an investor balance larger
/// than the locked total).
pub open spec fn payout_overflows(
    total_investor_fee: u64,
    investor_balance: u64,
    total_locked: u64,
) -> bool {
    ||| weight_bps_int(investor_balance, total_locked) > u64::MAX
    ||| raw_payout_int(total_investor_fee, investor_balance, total_locked) > u64::MAX
}

/// The fraction of the reference allocation still locked, in basis points:
/// `floor(total_locked * 10000 / y0)`, or 0 when `y0` is 0.
pub open spec fn f_locked_bps_int(total_locked: u64, y0_allocation: u64) -> int {
    if y0_allocation > 0 {
        (total_locked * 10000) / (y0_allocation as int)
    } else {
        0
    }
}

/// The share of fees investors are eligible for: the lesser of the configured
/// ceiling and the fraction still locked.
pub open spec fn eligible_investor_share_bps_int(
    investor_fee_share_bps: u16,
    total_locked: u64,
    y0_allocation: u64,
) -> int {
    let f_locked = f_locked_bps_int(total_locked, y0_allocation);
    if investor_fee_share_bps <= f_locked {
        investor_fee_share_bps as int
    } else {
        f_locked
    }
}

/// The day's entire investor-eligible pool:
/// `floor(quote_fees_available * eligible_share_bps / 10000)`.
pub open spec fn investor_fee_quote_int(
    quote_fees_available: u64,
    investor_fee_share_bps: u16,
    total_locked: u64,
    y0_allocation: u64,
) -> int {
    (quote_fees_available
        * eligible_investor_share_bps_int(investor_fee_share_bps, total_locked, y0_allocation))
        / 10000
}

/// Scaling a nonnegative amount by at most 10000 basis points never exceeds
/// the amount itself.
proof fn lemma_bps_share_bounds(amount: int, share: int)
    requires
        0 <= amount,
        0 <= share <= 10000,
    ensures
        0 <= amount * share / 10000 <= amount,
{
    lemma_mul_nonnegative(amount, share);
    lemma_div_pos_is_pos(amount * share, 10000);
    lemma_mul_upper_bound(amount, amount, share, 10000);
    lemma_div_is_ordered(amount * share, amount * 10000, 10000);
    lemma_div_by_multiple(amount, 10000);
}

/// The quantities frozen at day open, from which every payout of that day is
/// derived.
#[derive(Clone, Copy, Debug, PartialEq, Eq, Structural)]
pub struct FeeSplit {
    /// Fraction of the reference allocation still locked, in basis points.
    pub f_locked_bps: u64,
    /// Share of fees investors are eligible for, in basis points.
    pub eligible_investor_share_bps: u16,
    /// The day's entire investor-eligible pool in quote units.
    pub investor_fee_quote: u64,
}

/// Runs the day-open fee split: measures the fraction of the reference
/// allocation still locked, caps the investor share by it, and carves the
/// investor pool out of the available quote fees.
///
/// Fails only when the locked fraction cannot be represented in 64 bits; the
/// carved pool never exceeds the available fees.
pub fn compute_fee_split(
    total_locked: u64,
    y0_allocation: u64,
    investor_fee_share_bps: u16,
    quote_fees_available: u64,
) -> (r: Result<FeeSplit, ErrorCode>)
    requires
        investor_fee_share_bps <= 10000,
    ensures
        r is Ok <==> f_locked_bps_int(total_locked, y0_allocation) <= u64::MAX,
        r is Err ==> r == Err::<FeeSplit, ErrorCode>(ErrorCode::MathOverflow),
        r matches Ok(fs) ==> {
            &&& fs.f_locked_bps == f_locked_bps_int(total_locked, y0_allocation)
            &&& fs.eligible_investor_share_bps == eligible_investor_share_bps_int(
                investor_fee_share_bps,
                total_locked,
                y0_allocation,
            )
            &&& fs.eligible_investor_share_bps <= 10000
            &&& fs.investor_fee_quote == investor_fee_quote_int(
                quote_fees_available,
                investor_fee_share_bps,
                total_locked,
                y0_allocation,
            )
            &&& fs.investor_fee_quote <= quote_fees_available
        },
{
    let f_locked: u128 = if y0_allocation > 0 {
        (total_locked as u128 * 10000) / (y0_allocation as u128)
    } else {
        0
    };
    if f_locked > u64::MAX as u128 {
        return Err(ErrorCode::MathOverflow);
    }
    let eligible: u16 = if (investor_fee_share_bps as u128) <= f_locked {
        investor_fee_share_bps
    } else {
        f_locked as u16
    };
    proof {
        lemma_mul_upper_bound(quote_fees_available as int, u64::MAX as int, eligible as int, 10000);
        lemma_bps_share_bounds(quote_fees_available as int, eligible as int);
    }
    let quote_scaled: u128 = (quote_fees_available as u128) * (eligible as u128);
    let investor_fee_quote: u64 = (quote_scaled / 10000) as u64;
    Ok(FeeSplit { f_locked_bps: f_locked as u64, eligible_investor_share_bps: eligible, investor_fee_quote })
}

/// The per-investor payout calculation with dust handling.
///
/// The investor's weight is their share of the live locked total in basis
/// points; the payout is that fraction of the day's frozen investor pool,
/// rounded down. A payout strictly below `min_payout` is suppressed to zero
/// and returned in full as dust instead; otherwise it is returned in full
/// with zero dust, so payout plus dust always equals the computed amount.
/// Fails with an arithmetic error exactly when the computation leaves the
/// 64-bit range.
pub fn calculate_investor_payout(
    investor_balance: u64,
    total_locked: u64,
    total_investor_fee: u64,
    min_payout: u64,
) -> (r: Result<(u64, u64), ErrorCode>)
    ensures
        r is Ok <==> !payout_overflows(total_investor_fee, investor_balance, total_locked),
        r is Err ==> r == Err::<(u64, u64), ErrorCode>(ErrorCode::MathOverflow),
        r matches Ok(pd) ==> {
            let raw = raw_payout_int(total_investor_fee, investor_balance, total_locked);
            &&& pd.0 + pd.1 == raw
            &&& (raw < min_payout ==> pd.0 == 0 && pd.1 == raw)
            &&& (raw >= min_payout ==> pd.0 == raw && pd.1 == 0)
        },
{
    let weight_bps: u128 = if total_locked > 0 {
        (investor_balance as u128 * 10000) / (total_locked as u128)
    } else {
        0
    };
    if weight_bps > u64::MAX as u128 {
        return Err(ErrorCode::MathOverflow);
    }
    proof {
        lemma_mul_upper_bound(
            total_investor_fee as int,
            u64::MAX as int,
            weight_bps as int,
            u64::MAX as int,
        );
    }
    let scaled: u128 = (total_investor_fee as u128) * weight_bps;
    let payout_wide: u128 = scaled / 10000;
    if payout_wide > u64::MAX as u128 {
        return Err(ErrorCode::MathOverflow);
    }
    let payout: u64 = payout_wide as u64;
    if payout < min_payout {
        Ok((0, payout))
    } else {
        Ok((payout, 0))
    }
}

} // verus!
