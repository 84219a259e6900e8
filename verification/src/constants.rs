//! Policy and validation constants of the distribution engine.

use vstd::prelude::*;

verus! {

/// Default ceiling on the investor share of fees, in basis points (50%).
pub const DEFAULT_INVESTOR_FEE_SHARE_BPS: u16 = 5000;

/// Default dust threshold: payouts below this many lamports are suppressed.
pub const DEFAULT_MIN_PAYOUT_LAMPORTS: u64 = 10_000;

/// Default daily distribution cap in lamports; 0 means no cap.
pub const DEFAULT_DAILY_CAP_LAMPORTS: u64 = 0;

/// Minimum SOL deposit in lamports (0.001 SOL).
pub const MIN_SOL_DEPOSIT: u64 = 1_000_000;

/// Maximum SOL deposit in lamports (1000 SOL).
pub const MAX_SOL_DEPOSIT: u64 = 1_000_000_000_000;

/// Minimum USDC deposit in smallest units (0.001 USDC at 6 decimals).
pub const MIN_USDC_DEPOSIT: u64 = 1_000;

/// Maximum USDC deposit in smallest units (1M USDC).
pub const MAX_USDC_DEPOSIT: u64 = 1_000_000_000_000;

/// Largest admissible investor fee share: 100% in basis points.
pub const MAX_INVESTOR_FEE_SHARE_BPS: u16 = 10000;

/// Smallest admissible investor fee share: 0%.
pub const MIN_INVESTOR_FEE_SHARE_BPS: u16 = 0;

/// Number of investors processed per distribution batch.
pub const DISTRIBUTION_BATCH_SIZE: u32 = 10;

/// The cooldown between day opens: 24 hours in seconds.
pub const SECONDS_PER_DAY: i64 = 86400;

} // verus!
