//! The error taxonomy of the distribution engine.
//!
//! Every rejected precondition aborts the call that saw it and leaves all
//! state unchanged; no failure is downgraded to a warning.

use vstd::prelude::*;

verus! {

/// Why an engine operation refused to run.
#[derive(Clone, Copy, Debug, PartialEq, Eq, Structural)]
pub enum ErrorCode {
    /// Base weight must be zero for quote-only fee collection.
    BaseWeightMustBeZero,
    /// Quote weight must be 10000 bps for quote-only fee collection.
    QuoteWeightMustBe10000,
    /// Lower tick must be at most -443636 for a wide range.
    LowerTickTooHigh,
    /// Upper tick must be at least 443636 for a wide range.
    UpperTickTooLow,
    /// Fee tier must be 100, 500, 3000 or 10000 bps.
    InvalidFeeTier,
    /// Position range must be wide enough for quote-only collection.
    PositionRangeTooNarrow,
    /// Position must span the full range for maximum quote fee capture.
    PositionMustSpanFullRange,
    /// No fees available to claim or distribute.
    NoFeesToClaim,
    /// Position or collaborator reference not valid.
    InvalidPosition,
    /// Insufficient token account balance for a fee transfer.
    InsufficientTokenBalance,
    /// Deposit or withdrawal amount outside the valid range.
    InvalidDepositAmount,
    /// Deposit amount below the minimum threshold.
    DepositAmountTooSmall,
    /// Deposit amount above the maximum limit.
    DepositAmountTooLarge,
    /// Arithmetic overflow during a calculation.
    MathOverflow,
    /// Depositor record not found.
    DepositorRecordNotFound,
    /// Vault stats not found.
    VaultStatsNotFound,
    /// Distribution too frequent: 24 hours must elapse between day opens.
    DistributionTooFrequent,
    /// Crank state not found.
    CrankStateNotFound,
    /// No investors to distribute to.
    NoInvestorsToDistribute,
    /// Base fees detected: the quote-only invariant was violated.
    BaseFeesDetected,
    /// Daily distribution cap exceeded.
    DailyCapExceeded,
    /// Payout below the minimum threshold.
    PayoutBelowMinimum,
    /// Pagination cursor does not match the submitted page index.
    InvalidPaginationCursor,
    /// Day already closed.
    DayAlreadyClosed,
    /// Distribution not started for this day.
    DistributionNotStarted,
    /// A day is already in progress; it must close before a new one opens.
    DayAlreadyInProgress,
    /// Distribution config not found.
    DistributionConfigNotFound,
    /// Y0 allocation must be positive.
    InvalidY0Allocation,
    /// Creator wallet not provided.
    CreatorWalletNotProvided,
    /// Insufficient balance for the operation.
    InsufficientBalance,
}

} // verus!
