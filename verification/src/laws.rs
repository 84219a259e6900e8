//! Day-level theorems about the engine: what an entire day of per-investor
//! payout calls adds up to.
//!
//! A day is modelled as a sequence of `(investor_balance, total_locked)`
//! pairs handed, in order, to [`distribute_to_investor`]'s state transition,
//! all against the same frozen pool. The theorems relate the final state to
//! the sums of the individual payouts and dusts.
//!
//! [`distribute_to_investor`]: crate::distribute_to_investor

use vstd::prelude::*;

use crate::config::DistributionConfig;
use crate::crank_state::CrankState;
use crate::distribution::cap_respected;
use crate::distribution::distribute_check;
use crate::distribution::distribute_success_state;
use crate::distribution::dust_amount;
use crate::distribution::payout_amount;

verus! {

/// Whether every per-investor call of the day succeeds: each step's
/// validation passes on the state the previous steps produced.
pub open spec fn day_runs(
    s: CrankState,
    config: DistributionConfig,
    investors: Seq<(u64, u64)>,
    total_investor_fee: u64,
) -> bool
    decreases investors.len(),
{
    investors.len() == 0 || {
        &&& distribute_check(s, config, investors[0].0, investors[0].1, total_investor_fee) is Ok
        &&& day_runs(
            distribute_success_state(s, config, investors[0].0, investors[0].1, total_investor_fee),
            config,
            investors.subrange(1, investors.len() as int),
            total_investor_fee,
        )
    }
}

/// The state after the day's per-investor calls have all been applied.
pub open spec fn day_final_state(
    s: CrankState,
    config: DistributionConfig,
    investors: Seq<(u64, u64)>,
    total_investor_fee: u64,
) -> CrankState
    decreases investors.len(),
{
    if investors.len() == 0 {
        s
    } else {
        day_final_state(
            distribute_success_state(s, config, investors[0].0, investors[0].1, total_investor_fee),
            config,
            investors.subrange(1, investors.len() as int),
            total_investor_fee,
        )
    }
}

/// The sum of the payouts actually issued over the day.
pub open spec fn sum_payouts(
    config: DistributionConfig,
    investors: Seq<(u64, u64)>,
    total_investor_fee: u64,
) -> int
    decreases investors.len(),
{
    if investors.len() == 0 {
        0
    } else {
        payout_amount(
            config.min_payout_lamports,
            total_investor_fee,
            investors[0].0,
            investors[0].1,
        ) + sum_payouts(config, investors.subrange(1, investors.len() as int), total_investor_fee)
    }
}

/// The sum of the dust suppressed over the day.
pub open spec fn sum_dusts(
    config: DistributionConfig,
    investors: Seq<(u64, u64)>,
    total_investor_fee: u64,
) -> int
    decreases investors.len(),
{
    if investors.len() == 0 {
        0
    } else {
        dust_amount(
            config.min_payout_lamports,
            total_investor_fee,
            investors[0].0,
            investors[0].1,
        ) + sum_dusts(config, investors.subrange(1, investors.len() as int), total_investor_fee)
    }
}

/// Over a day of successful per-investor calls, the engine's accounting is
/// exact: the day's distributed total grows by precisely the sum of the
/// issued payouts, the carry-over grows by precisely the sum of the
/// suppressed dust, and no other field moves.
pub proof fn lemma_day_accounting(
    s: CrankState,
    config: DistributionConfig,
    investors: Seq<(u64, u64)>,
    total_investor_fee: u64,
)
    requires
        day_runs(s, config, investors, total_investor_fee),
    ensures
        ({
            let s2 = day_final_state(s, config, investors, total_investor_fee);
            &&& s2.daily_distributed == s.daily_distributed + sum_payouts(
                config,
                investors,
                total_investor_fee,
            )
            &&& s2.carry_over == s.carry_over + sum_dusts(config, investors, total_investor_fee)
            &&& s2.day_state == s.day_state
            &&& s2.pagination_cursor == s.pagination_cursor
            &&& s2.investors_processed_today == s.investors_processed_today
            &&& s2.current_day == s.current_day
            &&& s2.distribution_count == s.distribution_count
            &&& s2.last_distribution_timestamp == s.last_distribution_timestamp
        }),
    decreases investors.len(),
{
    if investors.len() > 0 {
        let s1 = distribute_success_state(
            s,
            config,
            investors[0].0,
            investors[0].1,
            total_investor_fee,
        );
        lemma_day_accounting(
            s1,
            config,
            investors.subrange(1, investors.len() as int),
            total_investor_fee,
        );
    }
}

/// Conservation over a distribution day: starting from a freshly opened day,
/// every unit of the opening quote balance is either paid out to an investor
/// or left for the creator at close, exactly; and every unit of suppressed
/// dust is preserved in the carry-over, exactly. Nothing is created or
/// destroyed by rounding.
///
/// `quote_open` is the fee vault's balance at day open; the requirement that
/// the recorded total not exceed it reflects that every issued transfer was
/// covered by the vault.
pub proof fn lemma_day_conservation(
    s: CrankState,
    config: DistributionConfig,
    investors: Seq<(u64, u64)>,
    total_investor_fee: u64,
    quote_open: u64,
)
    requires
        day_runs(s, config, investors, total_investor_fee),
        s.daily_distributed == 0,
        day_final_state(s, config, investors, total_investor_fee).daily_distributed <= quote_open,
    ensures
        ({
            let s2 = day_final_state(s, config, investors, total_investor_fee);
            let creator_remainder = quote_open - s2.daily_distributed;
            &&& sum_payouts(config, investors, total_investor_fee) + creator_remainder
                == quote_open
            &&& s2.carry_over == s.carry_over + sum_dusts(config, investors, total_investor_fee)
            &&& sum_payouts(config, investors, total_investor_fee) + sum_dusts(
                config,
                investors,
                total_investor_fee,
            ) + creator_remainder == quote_open + (s2.carry_over - s.carry_over)
        }),
{
    lemma_day_accounting(s, config, investors, total_investor_fee);
}

/// The daily cap is respected throughout a day: if the cap held when the day
/// state was entered, it holds after every successful per-investor call, and
/// in particular at day close.
pub proof fn lemma_day_cap_respected(
    s: CrankState,
    config: DistributionConfig,
    investors: Seq<(u64, u64)>,
    total_investor_fee: u64,
)
    requires
        day_runs(s, config, investors, total_investor_fee),
        cap_respected(s, config),
    ensures
        cap_respected(day_final_state(s, config, investors, total_investor_fee), config),
    decreases investors.len(),
{
    if investors.len() > 0 {
        let s1 = distribute_success_state(
            s,
            config,
            investors[0].0,
            investors[0].1,
            total_investor_fee,
        );
        lemma_day_cap_respected(
            s1,
            config,
            investors.subrange(1, investors.len() as int),
            total_investor_fee,
        );
    }
}

} // verus!
