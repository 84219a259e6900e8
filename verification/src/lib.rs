//! A quote-denominated fee distribution engine.
//!
//! The library periodically harvests a pool of quote-token fee revenue and
//! splits it, pro rata by locked stake, among a set of investors, routing the
//! undistributed remainder to a creator account when a distribution day
//! closes. The heart of the crate is a resumable, paginated day state machine
//! ([`CrankState`]) together with the pure fixed-point payout arithmetic it
//! drives. Everything that moves value or talks to the outside world (token
//! transfers, the AMM fee source, clocks) is left to the caller: the engine
//! only validates inputs, computes exact amounts and advances its state.

mod config;
mod constants;
mod crank_state;
mod deposit;
mod depositor_record;
mod distribution;
mod errors;
mod events;
mod laws;
mod payout;
mod position;
mod query;
mod vault_stats;
mod withdraw;

pub use config::DistributionConfig;
pub use config::InitializeDistributionConfigParams;
pub use config::initialize_distribution_config;

pub use constants::DEFAULT_DAILY_CAP_LAMPORTS;
pub use constants::DEFAULT_INVESTOR_FEE_SHARE_BPS;
pub use constants::DEFAULT_MIN_PAYOUT_LAMPORTS;
pub use constants::DISTRIBUTION_BATCH_SIZE;
pub use constants::MAX_INVESTOR_FEE_SHARE_BPS;
pub use constants::MAX_SOL_DEPOSIT;
pub use constants::MAX_USDC_DEPOSIT;
pub use constants::MIN_INVESTOR_FEE_SHARE_BPS;
pub use constants::MIN_SOL_DEPOSIT;
pub use constants::MIN_USDC_DEPOSIT;
pub use constants::SECONDS_PER_DAY;

pub use crank_state::CrankState;
pub use crank_state::DayPhase;

pub use deposit::DepositParams;
pub use deposit::deposit;
pub use deposit::validate_deposit_amounts;

pub use depositor_record::DepositorRecord;

pub use distribution::DistributionParams;
pub use distribution::FeeDistributionParams;
pub use distribution::InvestorDistributionParams;
pub use distribution::crank_fee_distribution;
pub use distribution::distribute_fees;
pub use distribution::distribute_to_investor;
pub use distribution::route_creator_remainder;

pub use errors::ErrorCode;

pub use events::CreatorPayoutDayClosed;
pub use events::DepositMade;
pub use events::DistributionConfigInitialized;
pub use events::HonoraryPositionInitialized;
pub use events::InvestorPayout;
pub use events::InvestorPayoutPage;
pub use events::QuoteFeesClaimed;
pub use events::WithdrawalMade;

pub use laws::lemma_day_accounting;
pub use laws::lemma_day_cap_respected;
pub use laws::lemma_day_conservation;

pub use payout::FeeSplit;
pub use payout::calculate_investor_payout;
pub use payout::compute_fee_split;

pub use position::HonoraryPositionConfig;
pub use position::evaluate_claimed_fees;
pub use position::validate_quote_only_fee_configuration;

pub use query::DepositorInfo;
pub use query::VaultInfo;
pub use query::query_depositor;
pub use query::query_vault;

pub use vault_stats::VaultStats;

pub use withdraw::WithdrawParams;
pub use withdraw::validate_withdrawal_amounts;
pub use withdraw::withdraw;
