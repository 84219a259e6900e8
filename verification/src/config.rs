//! The immutable distribution policy and its validated construction.

use vstd::prelude::*;

use crate::constants::DEFAULT_MIN_PAYOUT_LAMPORTS;
use crate::errors::ErrorCode;

verus! {

/// The static distribution policy, created once and read-only afterwards.
///
/// Account references (`creator_wallet`, `quote_mint`) are carried as opaque
/// nonzero identifiers; the engine only ever compares them for equality.
#[derive(Clone, Copy, Debug, PartialEq, Eq, Structural)]
pub struct DistributionConfig {
    /// Total reference investor allocation at the stake-generation event (Y0).
    pub y0_allocation: u64,
    /// Ceiling on the investor share of fees, in basis points.
    pub investor_fee_share_bps: u16,
    /// Dust threshold: payouts strictly below this are suppressed.
    pub min_payout_lamports: u64,
    /// Daily distribution cap; 0 means unlimited.
    pub daily_cap_lamports: u64,
    /// Identifier of the creator account that receives the day's remainder.
    pub creator_wallet: u64,
    /// Identifier of the quote token denomination, used for validation.
    pub quote_mint: u64,
}

/// The parameters of the one-time configuration step.
#[derive(Clone, Copy, Debug, PartialEq, Eq, Structural)]
pub struct InitializeDistributionConfigParams {
    /// Total reference investor allocation at the stake-generation event (Y0).
    pub y0_allocation: u64,
    /// Ceiling on the investor share of fees, in basis points.
    pub investor_fee_share_bps: u16,
    /// Dust threshold; 0 selects the default.
    pub min_payout_lamports: u64,
    /// Daily distribution cap; 0 means unlimited.
    pub daily_cap_lamports: u64,
    /// Identifier of the creator account; must be nonzero.
    pub creator_wallet: u64,
    /// Identifier of the quote token denomination; must be nonzero.
    pub quote_mint: u64,
}

impl DistributionConfig {
    /// What `initialize_distribution_config` establishes and nothing later
    /// disturbs: a positive reference allocation, a share within 100%, and
    /// nonzero routing identifiers.
    pub open spec fn wf(&self) -> bool {
        &&& self.y0_allocation > 0
        &&& self.investor_fee_share_bps <= 10000
        &&& self.creator_wallet != 0
        &&& self.quote_mint != 0
    }
}

/// The configuration a valid parameter set produces: its fields verbatim,
/// except that a zero dust threshold selects the default.
pub open spec fn initialized_config(
    params: InitializeDistributionConfigParams,
) -> DistributionConfig {
    DistributionConfig {
        y0_allocation: params.y0_allocation,
        investor_fee_share_bps: params.investor_fee_share_bps,
        min_payout_lamports: if params.min_payout_lamports == 0 {
            DEFAULT_MIN_PAYOUT_LAMPORTS
        } else {
            params.min_payout_lamports
        },
        daily_cap_lamports: params.daily_cap_lamports,
        creator_wallet: params.creator_wallet,
        quote_mint: params.quote_mint,
    }
}

/// Validates the one-time policy parameters and builds the configuration.
///
/// The reference allocation must be positive, the investor share at most
/// 10000 bps, and the creator and quote identifiers nonzero; each violation
/// is reported with its own error and nothing is built.
pub fn initialize_distribution_config(
    params: InitializeDistributionConfigParams,
) -> (r: Result<DistributionConfig, ErrorCode>)
    ensures
        r == (if params.y0_allocation == 0 {
            Err::<DistributionConfig, ErrorCode>(ErrorCode::InvalidY0Allocation)
        } else if params.investor_fee_share_bps > 10000 {
            Err::<DistributionConfig, ErrorCode>(ErrorCode::InvalidDepositAmount)
        } else if params.creator_wallet == 0 {
            Err::<DistributionConfig, ErrorCode>(ErrorCode::CreatorWalletNotProvided)
        } else if params.quote_mint == 0 {
            Err::<DistributionConfig, ErrorCode>(ErrorCode::InvalidPosition)
        } else {
            Ok::<DistributionConfig, ErrorCode>(initialized_config(params))
        }),
        r matches Ok(config) ==> config.wf(),
{
    if params.y0_allocation == 0 {
        return Err(ErrorCode::InvalidY0Allocation);
    }
    if params.investor_fee_share_bps > 10000 {
        return Err(ErrorCode::InvalidDepositAmount);
    }
    if params.creator_wallet == 0 {
        return Err(ErrorCode::CreatorWalletNotProvided);
    }
    if params.quote_mint == 0 {
        return Err(ErrorCode::InvalidPosition);
    }
    let min_payout_lamports: u64 = if params.min_payout_lamports == 0 {
        DEFAULT_MIN_PAYOUT_LAMPORTS
    } else {
        params.min_payout_lamports
    };
    Ok(DistributionConfig {
        y0_allocation: params.y0_allocation,
        investor_fee_share_bps: params.investor_fee_share_bps,
        min_payout_lamports,
        daily_cap_lamports: params.daily_cap_lamports,
        creator_wallet: params.creator_wallet,
        quote_mint: params.quote_mint,
    })
}

} // verus!
