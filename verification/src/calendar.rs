//! Calendar dates as day numbers, and the window of days that the
//! contribution grid shows.

use vstd::prelude::*;
use crate::error::{DrawError, InternalFault};

verus! {

/// Rows of the grid: one per weekday.
pub const GRID_ROWS: u32 = 7;

/// Columns of the grid: one per week.
pub const GRID_WEEKS: u32 = 53;

/// Days in the grid.
pub const GRID_DAYS: u32 = GRID_ROWS * GRID_WEEKS;

pub const SECONDS_PER_DAY: i64 = 86_400;

/// Seconds from midnight to the time of day that every commit carries.
pub const MIDDAY_SECONDS: i64 = 43_200;

/// The offset from UTC, in minutes, that every commit's time is given with:
/// none, so that the day of a commit does not depend on where the run is.
pub const UTC_OFFSET_MINUTES: i32 = 0;

/// The day that holds the instant `seconds` after the epoch.
pub open spec fn day_of_instant(seconds: int) -> int {
    seconds / 86_400
}

/// Days from the latest Sunday to day `days`; day 0 was a Thursday.
pub open spec fn days_from_sunday(days: int) -> int {
    (days + 4) % 7
}

/// The latest Sunday that is not after day `days`.
pub open spec fn week_start(days: int) -> int {
    days - days_from_sunday(days)
}

/// The instant of midday on day `days`, in seconds after the epoch.
pub open spec fn midday_of(days: int) -> int {
    days * 86_400 + 43_200
}

/// A calendar date: the number of days since 1970-01-01.
#[derive(Debug, Clone, Copy, PartialEq, Eq, Structural)]
pub struct Date {
    pub days: i32,
}

impl View for Date {
    type V = int;

    open spec fn view(&self) -> int {
        self.days as int
    }
}

impl Date {
    pub fn from_epoch_days(days: i32) -> (r: Date)
        ensures
            r@ == days,
    {
        Date { days }
    }

    pub fn epoch_days(&self) -> (r: i32)
        ensures
            r == self@,
    {
        self.days
    }

    /// The date that holds the instant `seconds` after the epoch, if its day
    /// number can be represented.
    pub fn of_instant(seconds: i64) -> (r: Option<Date>)
        ensures
            match r {
                Some(d) => d@ == day_of_instant(seconds as int),
                None => !(i32::MIN <= day_of_instant(seconds as int) <= i32::MAX),
            },
    {
        let day: i64 = if seconds >= 0 {
            seconds / SECONDS_PER_DAY
        } else {
            -((-(seconds + 1)) / SECONDS_PER_DAY) - 1
        };
        assert(day == day_of_instant(seconds as int));
        if day < -2_147_483_648 || day > 2_147_483_647 {
            None
        } else {
            Some(Date { days: day as i32 })
        }
    }

    /// Days since the latest Sunday: 0 on a Sunday, 6 on a Saturday.
    pub fn days_from_sunday(&self) -> (r: u32)
        ensures
            r == days_from_sunday(self@),
            r < 7,
    {
        let shifted: i64 = self.days as i64 + 4;
        let rem: i64 = if shifted >= 0 {
            shifted % 7
        } else {
            6 - ((-(shifted + 1)) % 7)
        };
        rem as u32
    }

    /// This date moved `n` days back, unless that leaves the day numbers.
    pub fn checked_sub_days(&self, n: u32) -> (r: Option<Date>)
        ensures
            match r {
                Some(d) => d@ == self@ - n,
                None => self@ - n < i32::MIN,
            },
    {
        let moved: i64 = self.days as i64 - n as i64;
        if moved < -2_147_483_648 {
            None
        } else {
            Some(Date { days: moved as i32 })
        }
    }

    /// This date moved `n` days on, unless that leaves the day numbers.
    pub fn checked_add_days(&self, n: u32) -> (r: Option<Date>)
        ensures
            match r {
                Some(d) => d@ == self@ + n,
                None => self@ + n > i32::MAX,
            },
    {
        let moved: i64 = self.days as i64 + n as i64;
        if moved > 2_147_483_647 {
            None
        } else {
            Some(Date { days: moved as i32 })
        }
    }

    /// Midday of this date, in seconds after the epoch.
    pub fn midday_seconds(&self) -> (r: i64)
        ensures
            r == midday_of(self@),
    {
        self.days as i64 * SECONDS_PER_DAY + MIDDAY_SECONDS
    }
}

/// The days of the grid: `start` and `end` are both part of it.
#[derive(Debug, Clone, Copy, PartialEq, Eq, Structural)]
pub struct DateRange {
    start: Date,
    end: Date,
}

impl DateRange {
    #[verifier::type_invariant]
    spec fn spans_grid(self) -> bool {
        self.end@ - self.start@ + 1 == 371
    }

    pub closed spec fn start_day(self) -> int {
        self.start@
    }

    pub closed spec fn end_day(self) -> int {
        self.end@
    }

    /// The grid that ends on `end`, unless its first day leaves the day
    /// numbers.
    pub fn ending_on(end: Date) -> (r: Result<DateRange, DrawError>)
        ensures
            match r {
                Ok(range) => range.end_day() == end@ && range.start_day() == end@ - 370,
                Err(e) => e == DrawError::InternalError(InternalFault::DateOverflow) && end@ - 370
                    < i32::MIN,
            },
    {
        match end.checked_sub_days(GRID_DAYS - 1) {
            Some(start) => Ok(DateRange { start, end }),
            None => Err(DrawError::InternalError(InternalFault::DateOverflow)),
        }
    }

    /// The number of days of the grid, both ends counted: always 371.
    pub fn length(&self) -> (r: u32)
        ensures
            r == 371,
            self.end_day() - self.start_day() + 1 == r,
    {
        proof {
            use_type_invariant(self);
        }
        GRID_DAYS
    }

    pub fn start(&self) -> (r: Date)
        ensures
            r@ == self.start_day(),
    {
        self.start
    }

    pub fn end(&self) -> (r: Date)
        ensures
            r@ == self.end_day(),
    {
        self.end
    }

    /// The `index`-th day of the grid, counted from 0.
    pub fn day(&self, index: u32) -> (r: Date)
        requires
            index < GRID_DAYS,
        ensures
            r@ == self.start_day() + index,
    {
        proof {
            use_type_invariant(self);
        }
        Date { days: (self.start.days as i64 + index as i64) as i32 }
    }

    /// Whether `date` is one of the days of the grid.
    pub fn contains(&self, date: Date) -> (r: bool)
        ensures
            r == (self.start_day() <= date@ <= self.end_day()),
    {
        self.start.days <= date.days && date.days <= self.end.days
    }
}

/// The first day of the grid for a run on day `today`: the Sunday 53 weeks
/// before the Sunday of that day's week.
pub open spec fn grid_start(today: int) -> int {
    week_start(today) - 371
}

/// The last day of the grid for a run on day `today`: the Saturday before
/// the Sunday of that day's week, so that the last week of the grid is whole.
pub open spec fn grid_end(today: int) -> int {
    week_start(today) - 1
}

/// The grid for a run at the instant `now_seconds` after the epoch: the 53
/// whole weeks, Sunday to Saturday, before the week of that instant's day.
pub fn align(now_seconds: i64) -> (r: Result<DateRange, DrawError>)
    ensures
        match r {
            Ok(range) => {
                &&& range.start_day() == grid_start(day_of_instant(now_seconds as int))
                &&& range.end_day() == grid_end(day_of_instant(now_seconds as int))
                &&& range.end_day() - range.start_day() + 1 == 7 * 53
                &&& days_from_sunday(range.start_day()) == 0
                &&& days_from_sunday(range.end_day()) == 6
            },
            Err(e) => {
                &&& e == DrawError::InternalError(InternalFault::DateOverflow)
                &&& !(i32::MIN <= grid_start(day_of_instant(now_seconds as int))
                    && day_of_instant(now_seconds as int) <= i32::MAX)
            },
        },
{
    let today = match Date::of_instant(now_seconds) {
        Some(d) => d,
        None => {
            return Err(DrawError::InternalError(InternalFault::DateOverflow));
        },
    };
    let offset = today.days_from_sunday();
    let end = match today.checked_sub_days(offset + 1) {
        Some(d) => d,
        None => {
            return Err(DrawError::InternalError(InternalFault::DateOverflow));
        },
    };
    DateRange::ending_on(end)
}

/// Whatever the day of a run is, its grid spans 53 whole weeks: it begins on
/// a Sunday, the weekday of the grid's first row, and ends on a Saturday, the
/// day before that weekday: the latest Saturday before the run's day.
pub proof fn lemma_grid_of_any_day(today: int)
    ensures
        grid_end(today) - grid_start(today) + 1 == 7 * 53,
        days_from_sunday(grid_start(today)) == 0,
        days_from_sunday(grid_end(today)) == 6,
        today - 7 <= grid_end(today) < today,
{
}

} // verus!
