//! The day/pagination state machine at the heart of the distribution engine.
//!
//! A deployment owns exactly one [`CrankState`]. A distribution day is opened
//! at most once per 24 hours, advances through strictly sequential pages, and
//! must be explicitly closed before the next day may open. Every transition
//! either completes in full or fails and leaves the state untouched.

use vstd::prelude::*;

use crate::constants::SECONDS_PER_DAY;
use crate::errors::ErrorCode;

verus! {

/// The phase of the current distribution day.
#[derive(Clone, Copy, Debug, PartialEq, Eq, Structural)]
pub enum DayPhase {
    /// No day has ever been opened (the initial phase, day 0).
    NotStarted,
    /// A day is open: pages may be submitted and payouts issued.
    InProgress,
    /// The current day was closed; a new one may open after the cooldown.
    Closed,
}

/// The mutable singleton record that drives fee distribution.
#[derive(Clone, Copy, Debug, PartialEq, Eq, Structural)]
pub struct CrankState {
    /// Timestamp of the most recent successful day open (0 before the first).
    pub last_distribution_timestamp: i64,
    /// Day number, incremented only on a successful day open.
    pub current_day: u32,
    /// Lifetime count of closed distribution days.
    pub distribution_count: u32,
    /// Index of the next expected page within the current day.
    pub pagination_cursor: u32,
    /// Investors processed so far in the current day.
    pub investors_processed_today: u32,
    /// Cumulative payouts issued in the current day.
    pub daily_distributed: u64,
    /// Dust rolled over from suppressed payouts, across pages and days.
    pub carry_over: u64,
    /// Phase of the current day.
    pub day_state: DayPhase,
}

impl CrankState {
    /// Timestamps never precede the epoch; every constructor and transition
    /// keeps this.
    pub open spec fn wf(&self) -> bool {
        self.last_distribution_timestamp >= 0
    }

    /// Whether a new day may open at time `now`: either no day was ever
    /// opened, or at least 24 hours have elapsed since the previous open.
    pub open spec fn cooldown_elapsed(&self, now: i64) -> bool {
        self.last_distribution_timestamp == 0
            || now - self.last_distribution_timestamp >= SECONDS_PER_DAY
    }

    /// The state after a successful day open at time `now`.
    pub open spec fn opened_spec(self, now: i64) -> CrankState
        recommends
            self.current_day < u32::MAX,
    {
        CrankState {
            last_distribution_timestamp: now,
            current_day: (self.current_day + 1) as u32,
            pagination_cursor: 0,
            investors_processed_today: 0,
            daily_distributed: 0,
            day_state: DayPhase::InProgress,
            ..self
        }
    }

    /// A fresh state: day 0, nothing distributed, no day started.
    pub fn new() -> (s: CrankState)
        ensures
            s == (CrankState {
                last_distribution_timestamp: 0,
                current_day: 0,
                distribution_count: 0,
                pagination_cursor: 0,
                investors_processed_today: 0,
                daily_distributed: 0,
                carry_over: 0,
                day_state: DayPhase::NotStarted,
            }),
            s.wf(),
    {
        CrankState {
            last_distribution_timestamp: 0,
            current_day: 0,
            distribution_count: 0,
            pagination_cursor: 0,
            investors_processed_today: 0,
            daily_distributed: 0,
            carry_over: 0,
            day_state: DayPhase::NotStarted,
        }
    }

    /// Whether the 24-hour cooldown has elapsed at time `now` (or no day was
    /// ever opened).
    pub fn can_start_new_day(&self, now: i64) -> (r: bool)
        requires
            self.wf(),
            now >= 0,
        ensures
            r == self.cooldown_elapsed(now),
    {
        let time_since_last: i64 = now - self.last_distribution_timestamp;
        time_since_last >= SECONDS_PER_DAY || self.last_distribution_timestamp == 0
    }

    /// Opens a new distribution day at time `now`.
    ///
    /// Fails while a day is still in progress, before the 24-hour cooldown
    /// has elapsed, or when the day counter would overflow; on failure the
    /// state is unchanged. On success the cursor, per-day counters and daily
    /// total reset, the day number increments and the open time is recorded;
    /// `carry_over` and `distribution_count` are preserved.
    pub fn start_new_day(&mut self, now: i64) -> (r: Result<(), ErrorCode>)
        requires
            old(self).wf(),
            now >= 0,
        ensures
            final(self).wf(),
            r == (if old(self).day_state is InProgress {
                Err::<(), ErrorCode>(ErrorCode::DayAlreadyInProgress)
            } else if !old(self).cooldown_elapsed(now) {
                Err::<(), ErrorCode>(ErrorCode::DistributionTooFrequent)
            } else if old(self).current_day == u32::MAX {
                Err::<(), ErrorCode>(ErrorCode::MathOverflow)
            } else {
                Ok::<(), ErrorCode>(())
            }),
            r is Ok ==> *final(self) == old(self).opened_spec(now),
            r is Err ==> *final(self) == *old(self),
    {
        if self.day_state == DayPhase::InProgress {
            return Err(ErrorCode::DayAlreadyInProgress);
        }
        if !self.can_start_new_day(now) {
            return Err(ErrorCode::DistributionTooFrequent);
        }
        if self.current_day == u32::MAX {
            return Err(ErrorCode::MathOverflow);
        }
        self.last_distribution_timestamp = now;
        self.current_day = self.current_day + 1;
        self.pagination_cursor = 0;
        self.investors_processed_today = 0;
        self.daily_distributed = 0;
        self.day_state = DayPhase::InProgress;
        Ok(())
    }

    /// Records an accepted page: the cursor advances by exactly one and the
    /// day's investor count grows by the page's count. Fails on counter
    /// overflow, leaving the state unchanged.
    pub fn advance_cursor(&mut self, investors_processed: u32) -> (r: Result<(), ErrorCode>)
        ensures
            r is Ok <==> old(self).pagination_cursor < u32::MAX
                && old(self).investors_processed_today + investors_processed <= u32::MAX,
            r is Err ==> r == Err::<(), ErrorCode>(ErrorCode::MathOverflow),
            r is Ok ==> *final(self) == (CrankState {
                pagination_cursor: (old(self).pagination_cursor + 1) as u32,
                investors_processed_today: (old(self).investors_processed_today
                    + investors_processed) as u32,
                ..*old(self)
            }),
            r is Err ==> *final(self) == *old(self),
    {
        if self.pagination_cursor == u32::MAX {
            return Err(ErrorCode::MathOverflow);
        }
        match self.investors_processed_today.checked_add(investors_processed) {
            Some(total) => {
                self.pagination_cursor = self.pagination_cursor + 1;
                self.investors_processed_today = total;
                Ok(())
            }
            None => Err(ErrorCode::MathOverflow),
        }
    }

    /// Closes the current day and counts it in the lifetime total. Fails only
    /// on counter overflow, leaving the state unchanged. The caller is
    /// responsible for checking that a day is in progress.
    pub fn close_day(&mut self) -> (r: Result<(), ErrorCode>)
        ensures
            r is Ok <==> old(self).distribution_count < u32::MAX,
            r is Err ==> r == Err::<(), ErrorCode>(ErrorCode::MathOverflow),
            r is Ok ==> *final(self) == (CrankState {
                day_state: DayPhase::Closed,
                distribution_count: (old(self).distribution_count + 1) as u32,
                ..*old(self)
            }),
            r is Err ==> *final(self) == *old(self),
    {
        if self.distribution_count == u32::MAX {
            return Err(ErrorCode::MathOverflow);
        }
        self.day_state = DayPhase::Closed;
        self.distribution_count = self.distribution_count + 1;
        Ok(())
    }

    /// Whether a day is currently open.
    pub fn is_day_in_progress(&self) -> (r: bool)
        ensures
            r == (self.day_state is InProgress),
    {
        self.day_state == DayPhase::InProgress
    }

    /// Whether the current day has been closed.
    pub fn is_day_closed(&self) -> (r: bool)
        ensures
            r == (self.day_state is Closed),
    {
        self.day_state == DayPhase::Closed
    }
}

} // verus!
