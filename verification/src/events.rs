//! Audit records of the engine's operations.
//!
//! Every operation that computes or moves value reports all of its computed
//! quantities, so that an external verifier can reconstruct the full
//! distribution trace without re-deriving it. Account references are opaque
//! `u64` identifiers.

use vstd::prelude::*;

verus! {

/// Emitted when the honorary quote-only fee position is initialized.
#[derive(Clone, Copy, Debug, PartialEq, Eq, Structural)]
pub struct HonoraryPositionInitialized {
    /// The pool the position belongs to.
    pub pool: u64,
    /// The position account.
    pub position: u64,
    /// The position's NFT mint.
    pub position_nft_mint: u64,
    /// Base token mint.
    pub base_mint: u64,
    /// Quote token mint.
    pub quote_mint: u64,
    /// Base weight in basis points (0 for quote-only).
    pub base_weight_bps: u16,
    /// Quote weight in basis points (10000 for quote-only).
    pub quote_weight_bps: u16,
    /// Lower tick of the position range.
    pub lower_tick: i32,
    /// Upper tick of the position range.
    pub upper_tick: i32,
    /// Fee tier of the position.
    pub fee_tier: u16,
    /// Time of initialization.
    pub timestamp: i64,
}

/// Emitted when quote fees are claimed from the fee source into the engine's
/// vaults.
#[derive(Clone, Copy, Debug, PartialEq, Eq, Structural)]
pub struct QuoteFeesClaimed {
    /// The pool fees were claimed from.
    pub pool: u64,
    /// The position fees were claimed for.
    pub position: u64,
    /// Base fees claimed; must be 0 for quote-only collection.
    pub base_fees_claimed: u64,
    /// Quote fees claimed.
    pub quote_fees_claimed: u64,
    /// The engine's base token vault.
    pub program_base_vault: u64,
    /// The engine's quote token vault.
    pub program_quote_vault: u64,
    /// Time of the claim.
    pub timestamp: i64,
}

/// Emitted for each accepted page of a distribution day.
#[derive(Clone, Copy, Debug, PartialEq, Eq, Structural)]
pub struct InvestorPayoutPage {
    /// The day the page belongs to.
    pub day: u32,
    /// The accepted page index.
    pub page_index: u32,
    /// Investors processed in this page.
    pub investors_count: u32,
    /// Investors processed so far today, this page included.
    pub total_investors_processed_today: u32,
    /// Quote fees available when the page was computed.
    pub quote_fees_available: u64,
    /// The live locked total across all investors.
    pub total_locked: u64,
    /// The reference allocation (Y0).
    pub y0_allocation: u64,
    /// Fraction of Y0 still locked, in basis points.
    pub f_locked_bps: u64,
    /// The investor share the day is eligible for, in basis points.
    pub eligible_investor_share_bps: u16,
    /// The day's investor-eligible pool.
    pub investor_fee_quote: u64,
    /// The pool plus carry-over available for distribution.
    pub total_distributable: u64,
    /// Dust carried over into this page.
    pub carry_over: u64,
    /// Cumulative payouts of the day before this page's investors are paid.
    pub daily_distributed: u64,
    /// The daily cap; 0 means unlimited.
    pub daily_cap: u64,
    /// Whether the caller marked this page as the day's last.
    pub is_final_page: bool,
    /// Time of the page call.
    pub timestamp: i64,
}

/// Emitted for each investor considered for a payout.
#[derive(Clone, Copy, Debug, PartialEq, Eq, Structural)]
pub struct InvestorPayout {
    /// The day of the payout.
    pub day: u32,
    /// The investor considered.
    pub investor: u64,
    /// The investor's live locked balance.
    pub investor_locked_balance: u64,
    /// The live locked total.
    pub total_locked: u64,
    /// The investor's weight in basis points.
    pub weight_bps: u64,
    /// The day's frozen investor pool the weight applies to.
    pub total_investor_fee: u64,
    /// The computed payout before the dust threshold.
    pub calculated_payout: u64,
    /// The payout actually issued (0 when suppressed as dust).
    pub actual_payout: u64,
    /// The suppressed amount carried forward as dust.
    pub dust: u64,
    /// The dust threshold in force.
    pub min_payout: u64,
    /// Time of the payout call.
    pub timestamp: i64,
}

/// Emitted when a day closes and the remainder is routed to the creator.
#[derive(Clone, Copy, Debug, PartialEq, Eq, Structural)]
pub struct CreatorPayoutDayClosed {
    /// The day that was closed.
    pub day: u32,
    /// The creator account the remainder is routed to.
    pub creator_wallet: u64,
    /// The creator's quote token account.
    pub creator_quote_account: u64,
    /// The entire remaining quote balance, routed to the creator.
    pub creator_remainder: u64,
    /// Total paid to investors over the day.
    pub total_distributed_to_investors: u64,
    /// Total investors processed over the day.
    pub total_investors_processed: u32,
    /// Carry-over outstanding when the day closed.
    pub final_carry_over: u64,
    /// Time of the close.
    pub timestamp: i64,
}

/// Emitted when the distribution configuration is initialized.
#[derive(Clone, Copy, Debug, PartialEq, Eq, Structural)]
pub struct DistributionConfigInitialized {
    /// The configuration record.
    pub config: u64,
    /// The reference allocation (Y0).
    pub y0_allocation: u64,
    /// Ceiling on the investor share of fees, in basis points.
    pub investor_fee_share_bps: u16,
    /// The dust threshold in force.
    pub min_payout_lamports: u64,
    /// The daily cap; 0 means unlimited.
    pub daily_cap_lamports: u64,
    /// The creator account for remainder routing.
    pub creator_wallet: u64,
    /// The quote token denomination.
    pub quote_mint: u64,
    /// Time of initialization.
    pub timestamp: i64,
}

/// Emitted when an investor deposits into the vaults.
#[derive(Clone, Copy, Debug, PartialEq, Eq, Structural)]
pub struct DepositMade {
    /// The depositing investor.
    pub investor: u64,
    /// SOL deposited in this call, in lamports.
    pub sol_amount: u64,
    /// USDC deposited in this call, in smallest units.
    pub usdc_amount: u64,
    /// The investor's lifetime SOL deposits after this call.
    pub total_sol_deposited: u64,
    /// The investor's lifetime USDC deposits after this call.
    pub total_usdc_deposited: u64,
    /// The investor's SOL balance after this call.
    pub current_sol_balance: u64,
    /// The investor's USDC balance after this call.
    pub current_usdc_balance: u64,
    /// The investor's deposit count after this call.
    pub deposit_count: u32,
    /// Time of the deposit.
    pub timestamp: i64,
}

/// Emitted when an investor withdraws from the vaults.
#[derive(Clone, Copy, Debug, PartialEq, Eq, Structural)]
pub struct WithdrawalMade {
    /// The withdrawing investor.
    pub investor: u64,
    /// SOL withdrawn in this call, in lamports.
    pub sol_amount: u64,
    /// USDC withdrawn in this call, in smallest units.
    pub usdc_amount: u64,
    /// The investor's lifetime SOL withdrawals after this call.
    pub total_sol_withdrawn: u64,
    /// The investor's lifetime USDC withdrawals after this call.
    pub total_usdc_withdrawn: u64,
    /// The investor's SOL balance after this call.
    pub current_sol_balance: u64,
    /// The investor's USDC balance after this call.
    pub current_usdc_balance: u64,
    /// The investor's withdrawal count after this call.
    pub withdrawal_count: u32,
    /// Time of the withdrawal.
    pub timestamp: i64,
}

} // verus!
