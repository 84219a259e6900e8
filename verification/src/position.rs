//! Preflight validation of the honorary quote-only fee position and the
//! quote-only check on claimed fees.
//!
//! The position itself lives with the external AMM; the engine only decides,
//! deterministically, whether a proposed configuration can accrue base-token
//! fees at all, and whether a completed claim respected the quote-only
//! invariant.

use vstd::prelude::*;

use crate::errors::ErrorCode;

verus! {

/// A proposed configuration for the honorary fee position.
#[derive(Clone, Copy, Debug, PartialEq, Eq, Structural)]
pub struct HonoraryPositionConfig {
    /// Base token weight in basis points; must be 0 for quote-only.
    pub base_weight_bps: u16,
    /// Quote token weight in basis points; must be 10000 for quote-only.
    pub quote_weight_bps: u16,
    /// Lower tick of the position range.
    pub lower_tick: i32,
    /// Upper tick of the position range.
    pub upper_tick: i32,
    /// Fee tier of the position, in basis points.
    pub fee_tier: u16,
}

/// The validation a position configuration passes, in order: all weight on
/// the quote token, a full-width tick range on both sides, a known fee tier,
/// a range wide enough for quote-only collection, and full-range coverage.
pub open spec fn quote_only_config_check(config: HonoraryPositionConfig) -> Result<
    (),
    ErrorCode,
> {
    if config.base_weight_bps != 0 {
        Err(ErrorCode::BaseWeightMustBeZero)
    } else if config.quote_weight_bps != 10000 {
        Err(ErrorCode::QuoteWeightMustBe10000)
    } else if config.lower_tick > -443636 {
        Err(ErrorCode::LowerTickTooHigh)
    } else if config.upper_tick < 443636 {
        Err(ErrorCode::UpperTickTooLow)
    } else if !(config.fee_tier == 100 || config.fee_tier == 500 || config.fee_tier == 3000
        || config.fee_tier == 10000) {
        Err(ErrorCode::InvalidFeeTier)
    } else if config.upper_tick - config.lower_tick < 887272 {
        Err(ErrorCode::PositionRangeTooNarrow)
    } else if !(config.lower_tick <= -443636 && config.upper_tick >= 443636) {
        Err(ErrorCode::PositionMustSpanFullRange)
    } else {
        Ok(())
    }
}

/// Decides whether a position configuration can only ever accrue quote-token
/// fees: all weight must sit on the quote token and the tick range must span
/// the full price range. Rejects, deterministically and before any position
/// is created, every configuration that could accrue base fees.
pub fn validate_quote_only_fee_configuration(config: &HonoraryPositionConfig) -> (r: Result<
    (),
    ErrorCode,
>)
    ensures
        r == quote_only_config_check(*config),
{
    if config.base_weight_bps != 0 {
        return Err(ErrorCode::BaseWeightMustBeZero);
    }
    if config.quote_weight_bps != 10000 {
        return Err(ErrorCode::QuoteWeightMustBe10000);
    }
    if config.lower_tick > -443636 {
        return Err(ErrorCode::LowerTickTooHigh);
    }
    if config.upper_tick < 443636 {
        return Err(ErrorCode::UpperTickTooLow);
    }
    if !(config.fee_tier == 100 || config.fee_tier == 500 || config.fee_tier == 3000
        || config.fee_tier == 10000) {
        return Err(ErrorCode::InvalidFeeTier);
    }
    let tick_range: i64 = (config.upper_tick as i64) - (config.lower_tick as i64);
    if tick_range < 887272 {
        return Err(ErrorCode::PositionRangeTooNarrow);
    }
    if !(config.lower_tick <= -443636 && config.upper_tick >= 443636) {
        return Err(ErrorCode::PositionMustSpanFullRange);
    }
    Ok(())
}

/// What a claim moved into a vault: the balance growth, and 0 where the
/// balance did not grow.
pub open spec fn claimed_amount(balance_before: u64, balance_after: u64) -> int {
    if balance_after >= balance_before {
        balance_after - balance_before
    } else {
        0
    }
}

/// Audits a completed fee claim against the quote-only invariant: any growth
/// of the base vault fails the call, and the growth of the quote vault is
/// returned as the claimed amount. On success the base side is exactly 0.
pub fn evaluate_claimed_fees(
    base_balance_before: u64,
    base_balance_after: u64,
    quote_balance_before: u64,
    quote_balance_after: u64,
) -> (r: Result<(u64, u64), ErrorCode>)
    ensures
        r == (if base_balance_after > base_balance_before {
            Err::<(u64, u64), ErrorCode>(ErrorCode::BaseFeesDetected)
        } else {
            Ok::<(u64, u64), ErrorCode>(
                (0, claimed_amount(quote_balance_before, quote_balance_after) as u64),
            )
        }),
{
    let base_claimed: u64 = if base_balance_after >= base_balance_before {
        base_balance_after - base_balance_before
    } else {
        0
    };
    let quote_claimed: u64 = if quote_balance_after >= quote_balance_before {
        quote_balance_after - quote_balance_before
    } else {
        0
    };
    if base_claimed != 0 {
        return Err(ErrorCode::BaseFeesDetected);
    }
    Ok((base_claimed, quote_claimed))
}

} // verus!
