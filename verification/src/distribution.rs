//! The three crank operations of a distribution day — open a page, pay one
//! investor, close the day — plus the ad-hoc fee forwarding helper.
//!
//! Each operation validates, computes amounts, and advances [`CrankState`];
//! the actual movement of value is the caller's job, performed with the
//! amounts these functions return. A failed call leaves the state exactly as
//! it was.

use vstd::prelude::*;

use crate::config::DistributionConfig;
use crate::crank_state::CrankState;
use crate::crank_state::DayPhase;
use crate::errors::ErrorCode;
use crate::events::CreatorPayoutDayClosed;
use crate::events::InvestorPayout;
use crate::events::InvestorPayoutPage;
use crate::payout::calculate_investor_payout;
use crate::payout::compute_fee_split;
use crate::payout::eligible_investor_share_bps_int;
use crate::payout::f_locked_bps_int;
use crate::payout::investor_fee_quote_int;
use crate::payout::payout_overflows;
use crate::payout::raw_payout_int;
use crate::payout::weight_bps_int;

verus! {

/// The pagination parameters of one crank page call.
#[derive(Clone, Copy, Debug, PartialEq, Eq, Structural)]
pub struct DistributionParams {
    /// The claimed page index; must equal the pagination cursor exactly.
    pub page_index: u32,
    /// Number of investors the caller will process in this page.
    pub investors_count: u32,
    /// Whether the caller intends this as the day's final page.
    pub is_final_page: bool,
}

/// The parameters of one per-investor payout call.
#[derive(Clone, Copy, Debug, PartialEq, Eq, Structural)]
pub struct InvestorDistributionParams {
    /// The day's distributable total, frozen by the page-open computation.
    pub total_investor_fee: u64,
}

/// The amounts of one ad-hoc fee forwarding call.
#[derive(Clone, Copy, Debug, PartialEq, Eq, Structural)]
pub struct FeeDistributionParams {
    /// Base tokens to forward; 0 means the whole vault balance.
    pub base_amount: u64,
    /// Quote tokens to forward; 0 means the whole vault balance.
    pub quote_amount: u64,
}

/// Whether the daily cap is honoured: with a cap configured, the day's
/// cumulative payouts never exceed it.
pub open spec fn cap_respected(s: CrankState, config: DistributionConfig) -> bool {
    config.daily_cap_lamports > 0 ==> s.daily_distributed <= config.daily_cap_lamports
}

/// The state a page call works on: the current state if a day is in
/// progress, otherwise the state after opening a new day at `now`.
pub open spec fn crank_start_state(s: CrankState, now: i64) -> CrankState {
    if s.day_state is InProgress {
        s
    } else {
        s.opened_spec(now)
    }
}

/// The validation a page call performs, in order: open the day if none is in
/// progress (cooldown, day-counter overflow), match the claimed page index
/// against the cursor, enforce the quote-only invariant, require fees to
/// distribute, validate the quote denomination, run the fee split, add the
/// carry-over, check the daily cap, and advance the cursor and the day's
/// investor count. The result is `Ok` or the first failure.
pub open spec fn crank_page_check(
    s: CrankState,
    config: DistributionConfig,
    base_fees_available: u64,
    quote_fees_available: u64,
    total_locked: u64,
    quote_mint: u64,
    params: DistributionParams,
    now: i64,
) -> Result<(), ErrorCode> {
    if !(s.day_state is InProgress) && !s.cooldown_elapsed(now) {
        Err(ErrorCode::DistributionTooFrequent)
    } else if !(s.day_state is InProgress) && s.current_day == u32::MAX {
        Err(ErrorCode::MathOverflow)
    } else {
        let s1 = crank_start_state(s, now);
        if params.page_index != s1.pagination_cursor {
            Err(ErrorCode::InvalidPaginationCursor)
        } else if base_fees_available != 0 {
            Err(ErrorCode::BaseFeesDetected)
        } else if quote_fees_available == 0 {
            Err(ErrorCode::NoFeesToClaim)
        } else if quote_mint != config.quote_mint {
            Err(ErrorCode::InvalidPosition)
        } else if f_locked_bps_int(total_locked, config.y0_allocation) > u64::MAX {
            Err(ErrorCode::MathOverflow)
        } else if investor_fee_quote_int(
            quote_fees_available,
            config.investor_fee_share_bps,
            total_locked,
            config.y0_allocation,
        ) + s1.carry_over > u64::MAX {
            Err(ErrorCode::MathOverflow)
        } else if config.daily_cap_lamports > 0
            && s1.daily_distributed >= config.daily_cap_lamports {
            Err(ErrorCode::DailyCapExceeded)
        } else if s1.pagination_cursor == u32::MAX {
            Err(ErrorCode::MathOverflow)
        } else if s1.investors_processed_today + params.investors_count > u32::MAX {
            Err(ErrorCode::MathOverflow)
        } else {
            Ok(())
        }
    }
}

/// The state after an accepted page: the (possibly just-opened) day with its
/// cursor advanced by exactly one and the page's investors counted.
pub open spec fn crank_page_success_state(
    s: CrankState,
    params: DistributionParams,
    now: i64,
) -> CrankState {
    let s1 = crank_start_state(s, now);
    CrankState {
        pagination_cursor: (s1.pagination_cursor + 1) as u32,
        investors_processed_today: (s1.investors_processed_today + params.investors_count) as u32,
        ..s1
    }
}

/// The audit record of an accepted page: all quantities the day's payouts
/// must be derived from, frozen at this call.
pub open spec fn crank_page_record(
    s: CrankState,
    config: DistributionConfig,
    quote_fees_available: u64,
    total_locked: u64,
    params: DistributionParams,
    now: i64,
) -> InvestorPayoutPage {
    let s1 = crank_start_state(s, now);
    let fee_quote = investor_fee_quote_int(
        quote_fees_available,
        config.investor_fee_share_bps,
        total_locked,
        config.y0_allocation,
    );
    InvestorPayoutPage {
        day: s1.current_day,
        page_index: params.page_index,
        investors_count: params.investors_count,
        total_investors_processed_today: (s1.investors_processed_today
            + params.investors_count) as u32,
        quote_fees_available,
        total_locked,
        y0_allocation: config.y0_allocation,
        f_locked_bps: f_locked_bps_int(total_locked, config.y0_allocation) as u64,
        eligible_investor_share_bps: eligible_investor_share_bps_int(
            config.investor_fee_share_bps,
            total_locked,
            config.y0_allocation,
        ) as u16,
        investor_fee_quote: fee_quote as u64,
        total_distributable: (fee_quote + s1.carry_over) as u64,
        carry_over: s1.carry_over,
        daily_distributed: s1.daily_distributed,
        daily_cap: config.daily_cap_lamports,
        is_final_page: params.is_final_page,
        timestamp: now,
    }
}

/// Opens a distribution page: the entry point of the crank.
///
/// If no day is in progress, a new day is opened first (subject to the
/// 24-hour cooldown). The claimed page index must equal the pagination
/// cursor exactly — pagination is strict, gapless and replay-proof. The
/// quote-only invariant is enforced before any pool computation: a nonzero
/// base-fee balance aborts the call. On success the day's fee split is
/// computed, the cursor advances by exactly one, and the returned record
/// carries every frozen quantity, among them `total_distributable`, the pool
/// all of this day's payouts must reference.
///
/// Any failure leaves the state exactly as it was, the day open included.
pub fn crank_fee_distribution(
    state: &mut CrankState,
    config: &DistributionConfig,
    base_fees_available: u64,
    quote_fees_available: u64,
    total_locked: u64,
    quote_mint: u64,
    params: DistributionParams,
    now: i64,
) -> (r: Result<InvestorPayoutPage, ErrorCode>)
    requires
        old(state).wf(),
        config.wf(),
        now >= 0,
    ensures
        final(state).wf(),
        r is Ok <==> crank_page_check(
            *old(state),
            *config,
            base_fees_available,
            quote_fees_available,
            total_locked,
            quote_mint,
            params,
            now,
        ) is Ok,
        r matches Err(e) ==> crank_page_check(
            *old(state),
            *config,
            base_fees_available,
            quote_fees_available,
            total_locked,
            quote_mint,
            params,
            now,
        ) == Err::<(), ErrorCode>(e),
        r is Err ==> *final(state) == *old(state),
        r is Ok ==> *final(state) == crank_page_success_state(*old(state), params, now),
        r matches Ok(page) ==> page == crank_page_record(
            *old(state),
            *config,
            quote_fees_available,
            total_locked,
            params,
            now,
        ),
        // a page whose index does not match the cursor never succeeds, and an
        // accepted page advances the cursor to exactly the next index
        params.page_index != crank_start_state(*old(state), now).pagination_cursor ==> r is Err,
        r is Ok ==> final(state).pagination_cursor == params.page_index + 1,
        // the daily cap stays respected
        cap_respected(*old(state), *config) ==> cap_respected(*final(state), *config),
{
    let mut s = *state;
    if !s.is_day_in_progress() {
        match s.start_new_day(now) {
            Ok(()) => {}
            Err(e) => {
                return Err(e);
            }
        }
    }
    if params.page_index != s.pagination_cursor {
        return Err(ErrorCode::InvalidPaginationCursor);
    }
    if base_fees_available != 0 {
        return Err(ErrorCode::BaseFeesDetected);
    }
    if quote_fees_available == 0 {
        return Err(ErrorCode::NoFeesToClaim);
    }
    if quote_mint != config.quote_mint {
        return Err(ErrorCode::InvalidPosition);
    }
    let split = match compute_fee_split(
        total_locked,
        config.y0_allocation,
        config.investor_fee_share_bps,
        quote_fees_available,
    ) {
        Ok(fs) => fs,
        Err(e) => {
            return Err(e);
        }
    };
    let total_distributable: u64 = match split.investor_fee_quote.checked_add(s.carry_over) {
        Some(total) => total,
        None => {
            return Err(ErrorCode::MathOverflow);
        }
    };
    if config.daily_cap_lamports > 0 && s.daily_distributed >= config.daily_cap_lamports {
        return Err(ErrorCode::DailyCapExceeded);
    }
    let carry_over = s.carry_over;
    let daily_distributed = s.daily_distributed;
    match s.advance_cursor(params.investors_count) {
        Ok(()) => {}
        Err(e) => {
            return Err(e);
        }
    }
    let page = InvestorPayoutPage {
        day: s.current_day,
        page_index: params.page_index,
        investors_count: params.investors_count,
        total_investors_processed_today: s.investors_processed_today,
        quote_fees_available,
        total_locked,
        y0_allocation: config.y0_allocation,
        f_locked_bps: split.f_locked_bps,
        eligible_investor_share_bps: split.eligible_investor_share_bps,
        investor_fee_quote: split.investor_fee_quote,
        total_distributable,
        carry_over,
        daily_distributed,
        daily_cap: config.daily_cap_lamports,
        is_final_page: params.is_final_page,
        timestamp: now,
    };
    *state = s;
    Ok(page)
}

/// The payout an investor receives once the dust threshold is applied: the
/// raw amount when it reaches `min_payout`, otherwise 0.
pub open spec fn payout_amount(
    min_payout: u64,
    total_investor_fee: u64,
    investor_balance: u64,
    total_locked: u64,
) -> int {
    let raw = raw_payout_int(total_investor_fee, investor_balance, total_locked);
    if raw < min_payout {
        0
    } else {
        raw
    }
}

/// The dust an investor's suppressed payout leaves behind: the full raw
/// amount when it falls below `min_payout`, otherwise 0.
pub open spec fn dust_amount(
    min_payout: u64,
    total_investor_fee: u64,
    investor_balance: u64,
    total_locked: u64,
) -> int {
    let raw = raw_payout_int(total_investor_fee, investor_balance, total_locked);
    if raw < min_payout {
        raw
    } else {
        0
    }
}

/// The validation a per-investor payout call performs, in order: a day must
/// be in progress, the payout arithmetic must stay in range, an issued
/// payout must fit under the daily cap, and the running totals must not
/// overflow.
pub open spec fn distribute_check(
    s: CrankState,
    config: DistributionConfig,
    investor_balance: u64,
    total_locked: u64,
    total_investor_fee: u64,
) -> Result<(), ErrorCode> {
    if !(s.day_state is InProgress) {
        Err(ErrorCode::DistributionNotStarted)
    } else if payout_overflows(total_investor_fee, investor_balance, total_locked) {
        Err(ErrorCode::MathOverflow)
    } else {
        let payout = payout_amount(
            config.min_payout_lamports,
            total_investor_fee,
            investor_balance,
            total_locked,
        );
        let dust = dust_amount(
            config.min_payout_lamports,
            total_investor_fee,
            investor_balance,
            total_locked,
        );
        if payout > 0 && s.daily_distributed + payout > u64::MAX {
            Err(ErrorCode::MathOverflow)
        } else if payout > 0 && config.daily_cap_lamports > 0
            && s.daily_distributed + payout > config.daily_cap_lamports {
            Err(ErrorCode::DailyCapExceeded)
        } else if dust > 0 && s.carry_over + dust > u64::MAX {
            Err(ErrorCode::MathOverflow)
        } else {
            Ok(())
        }
    }
}

/// The state after a successful per-investor call: the payout added to the
/// day's total and the dust added to the carry-over; nothing else moves.
pub open spec fn distribute_success_state(
    s: CrankState,
    config: DistributionConfig,
    investor_balance: u64,
    total_locked: u64,
    total_investor_fee: u64,
) -> CrankState {
    CrankState {
        daily_distributed: (s.daily_distributed + payout_amount(
            config.min_payout_lamports,
            total_investor_fee,
            investor_balance,
            total_locked,
        )) as u64,
        carry_over: (s.carry_over + dust_amount(
            config.min_payout_lamports,
            total_investor_fee,
            investor_balance,
            total_locked,
        )) as u64,
        ..s
    }
}

/// The audit record of a successful per-investor call.
pub open spec fn distribute_record(
    s: CrankState,
    config: DistributionConfig,
    investor: u64,
    investor_balance: u64,
    total_locked: u64,
    total_investor_fee: u64,
    now: i64,
) -> InvestorPayout {
    InvestorPayout {
        day: s.current_day,
        investor,
        investor_locked_balance: investor_balance,
        total_locked,
        weight_bps: weight_bps_int(investor_balance, total_locked) as u64,
        total_investor_fee,
        calculated_payout: raw_payout_int(total_investor_fee, investor_balance, total_locked) as u64,
        actual_payout: payout_amount(
            config.min_payout_lamports,
            total_investor_fee,
            investor_balance,
            total_locked,
        ) as u64,
        dust: dust_amount(
            config.min_payout_lamports,
            total_investor_fee,
            investor_balance,
            total_locked,
        ) as u64,
        min_payout: config.min_payout_lamports,
        timestamp: now,
    }
}

/// Pays one investor their pro-rata share of the day's frozen pool.
///
/// The investor's weight comes from their live locked balance against the
/// live locked total; the pool (`params.total_investor_fee`) is the frozen
/// `total_distributable` of the page-open call. A computed payout strictly
/// below the dust threshold is suppressed to zero and carried forward in
/// full — never a partial transfer. With a daily cap configured, a payout
/// that would push the day's total past the cap fails the call instead of
/// being truncated. The returned record's `actual_payout` is the exact
/// amount the caller must transfer; the state already accounts for it.
///
/// Any failure leaves the state exactly as it was.
pub fn distribute_to_investor(
    state: &mut CrankState,
    config: &DistributionConfig,
    investor: u64,
    investor_balance: u64,
    total_locked: u64,
    params: InvestorDistributionParams,
    now: i64,
) -> (r: Result<InvestorPayout, ErrorCode>)
    ensures
        r is Ok <==> distribute_check(
            *old(state),
            *config,
            investor_balance,
            total_locked,
            params.total_investor_fee,
        ) is Ok,
        r matches Err(e) ==> distribute_check(
            *old(state),
            *config,
            investor_balance,
            total_locked,
            params.total_investor_fee,
        ) == Err::<(), ErrorCode>(e),
        r is Err ==> *final(state) == *old(state),
        r is Ok ==> *final(state) == distribute_success_state(
            *old(state),
            *config,
            investor_balance,
            total_locked,
            params.total_investor_fee,
        ),
        r matches Ok(ev) ==> ev == distribute_record(
            *old(state),
            *config,
            investor,
            investor_balance,
            total_locked,
            params.total_investor_fee,
            now,
        ),
        // a suppressed payout issues nothing and preserves the full amount
        r matches Ok(ev) ==> ev.actual_payout + ev.dust == ev.calculated_payout
            && (ev.calculated_payout < config.min_payout_lamports ==> ev.actual_payout == 0
                && ev.dust == ev.calculated_payout)
            && (ev.calculated_payout >= config.min_payout_lamports ==> ev.dust == 0),
        // the daily cap stays respected
        cap_respected(*old(state), *config) ==> cap_respected(*final(state), *config),
        r is Ok ==> final(state).daily_distributed == old(state).daily_distributed
            + payout_amount(
                config.min_payout_lamports,
                params.total_investor_fee,
                investor_balance,
                total_locked,
            )
            && final(state).carry_over == old(state).carry_over + dust_amount(
                config.min_payout_lamports,
                params.total_investor_fee,
                investor_balance,
                total_locked,
            ),
{
    if !state.is_day_in_progress() {
        return Err(ErrorCode::DistributionNotStarted);
    }
    let (payout, dust) = match calculate_investor_payout(
        investor_balance,
        total_locked,
        params.total_investor_fee,
        config.min_payout_lamports,
    ) {
        Ok(pd) => pd,
        Err(e) => {
            return Err(e);
        }
    };
    let mut new_daily: u64 = state.daily_distributed;
    if payout > 0 {
        match state.daily_distributed.checked_add(payout) {
            Some(total) => {
                if config.daily_cap_lamports > 0 && total > config.daily_cap_lamports {
                    return Err(ErrorCode::DailyCapExceeded);
                }
                new_daily = total;
            }
            None => {
                return Err(ErrorCode::MathOverflow);
            }
        }
    }
    let mut new_carry: u64 = state.carry_over;
    if dust > 0 {
        match state.carry_over.checked_add(dust) {
            Some(total) => {
                new_carry = total;
            }
            None => {
                return Err(ErrorCode::MathOverflow);
            }
        }
    }
    let weight_bps: u64 = if total_locked > 0 {
        ((investor_balance as u128 * 10000) / (total_locked as u128)) as u64
    } else {
        0
    };
    state.daily_distributed = new_daily;
    state.carry_over = new_carry;
    Ok(InvestorPayout {
        day: state.current_day,
        investor,
        investor_locked_balance: investor_balance,
        total_locked,
        weight_bps,
        total_investor_fee: params.total_investor_fee,
        calculated_payout: payout + dust,
        actual_payout: payout,
        dust,
        min_payout: config.min_payout_lamports,
        timestamp: now,
    })
}

/// The validation a close call performs: a day must be in progress and the
/// lifetime distribution counter must not overflow.
pub open spec fn close_check(s: CrankState) -> Result<(), ErrorCode> {
    if !(s.day_state is InProgress) {
        Err(ErrorCode::DistributionNotStarted)
    } else if s.distribution_count == u32::MAX {
        Err(ErrorCode::MathOverflow)
    } else {
        Ok(())
    }
}

/// The state after a successful close: the day marked closed and counted.
pub open spec fn close_success_state(s: CrankState) -> CrankState {
    CrankState {
        day_state: DayPhase::Closed,
        distribution_count: (s.distribution_count + 1) as u32,
        ..s
    }
}

/// Closes the day and routes the entire remaining quote balance to the
/// creator.
///
/// The remainder is whatever the fee vault still holds after all pages —
/// the residual of the claimed fees minus what investors were actually
/// paid, which subsumes the unclaimed investor share and any dust never
/// redistributed within the day. The returned record's `creator_remainder`
/// is the exact amount the caller must transfer to the creator.
///
/// Any failure leaves the state exactly as it was.
pub fn route_creator_remainder(
    state: &mut CrankState,
    config: &DistributionConfig,
    remaining_quote_balance: u64,
    creator_quote_account: u64,
    now: i64,
) -> (r: Result<CreatorPayoutDayClosed, ErrorCode>)
    ensures
        r is Ok <==> close_check(*old(state)) is Ok,
        r matches Err(e) ==> close_check(*old(state)) == Err::<(), ErrorCode>(e),
        r is Err ==> *final(state) == *old(state),
        r is Ok ==> *final(state) == close_success_state(*old(state)),
        r matches Ok(ev) ==> ev == (CreatorPayoutDayClosed {
            day: old(state).current_day,
            creator_wallet: config.creator_wallet,
            creator_quote_account,
            creator_remainder: remaining_quote_balance,
            total_distributed_to_investors: old(state).daily_distributed,
            total_investors_processed: old(state).investors_processed_today,
            final_carry_over: old(state).carry_over,
            timestamp: now,
        }),
{
    if !state.is_day_in_progress() {
        return Err(ErrorCode::DistributionNotStarted);
    }
    let day = state.current_day;
    let daily_distributed = state.daily_distributed;
    let investors_processed = state.investors_processed_today;
    let carry_over = state.carry_over;
    match state.close_day() {
        Ok(()) => {}
        Err(e) => {
            return Err(e);
        }
    }
    Ok(CreatorPayoutDayClosed {
        day,
        creator_wallet: config.creator_wallet,
        creator_quote_account,
        creator_remainder: remaining_quote_balance,
        total_distributed_to_investors: daily_distributed,
        total_investors_processed: investors_processed,
        final_carry_over: carry_over,
        timestamp: now,
    })
}

/// Resolves an ad-hoc fee forwarding request against the vault balances: a
/// zero requested amount selects the whole balance, and a requested amount
/// above the balance fails the call. Returns the exact base and quote
/// amounts the caller must transfer.
pub fn distribute_fees(
    params: FeeDistributionParams,
    base_vault_balance: u64,
    quote_vault_balance: u64,
) -> (r: Result<(u64, u64), ErrorCode>)
    ensures
        r == (if params.base_amount > base_vault_balance {
            Err::<(u64, u64), ErrorCode>(ErrorCode::InsufficientTokenBalance)
        } else if params.quote_amount > quote_vault_balance {
            Err::<(u64, u64), ErrorCode>(ErrorCode::InsufficientTokenBalance)
        } else {
            Ok::<(u64, u64), ErrorCode>(
                (
                    if params.base_amount == 0 {
                        base_vault_balance
                    } else {
                        params.base_amount
                    },
                    if params.quote_amount == 0 {
                        quote_vault_balance
                    } else {
                        params.quote_amount
                    },
                ),
            )
        }),
        r matches Ok(amounts) ==> amounts.0 <= base_vault_balance
            && amounts.1 <= quote_vault_balance,
{
    let base_amount: u64 = if params.base_amount == 0 {
        base_vault_balance
    } else {
        params.base_amount
    };
    let quote_amount: u64 = if params.quote_amount == 0 {
        quote_vault_balance
    } else {
        params.quote_amount
    };
    if base_amount > 0 && base_vault_balance < base_amount {
        return Err(ErrorCode::InsufficientTokenBalance);
    }
    if quote_amount > 0 && quote_vault_balance < quote_amount {
        return Err(ErrorCode::InsufficientTokenBalance);
    }
    Ok((base_amount, quote_amount))
}

} // verus!
