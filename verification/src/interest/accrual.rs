//! Day-count conventions and the daily/monthly accrual engine.

use vstd::prelude::*;
use crate::dates::{
    day_of_ts, days_between, days_between_spec, dom_of_day, month_of_day, year_length,
    year_of_day, civil_of_timestamp, days_in_year, MAX_TIMESTAMP, SECS_PER_DAY,
};
use crate::clock::provider_now;
use crate::errors::FacilityError;
use crate::interest::{InterestCalculation, InterestCalculator};
use crate::money::{simple_interest, round_half_div, Money, Rate, DAYS_LIMIT, MUL_LIMIT,
    RATE_LIMIT};

verus! {

/// How days between two dates are counted for interest.
#[derive(Clone, Copy, Debug, PartialEq, Eq, Structural)]
pub enum DayCountConvention {
    /// Actual days over a 365-day year.
    Actual365,
    /// Actual days over a 360-day year.
    Actual360,
    /// Thirty days per month over a 360-day year, with European
    /// end-of-month handling.
    Thirty360,
    /// Actual days over the actual year length (leap-aware).
    ActualActual,
}

/// The 30/360 day count between two civil dates: if the start day-of-month
/// is thirty or more it counts as thirty, and then an end day-of-month of
/// thirty-one counts as thirty as well; never negative.
pub open spec fn days_30_360(y1: int, m1: int, d1: int, y2: int, m2: int, d2: int) -> int {
    let d1c = if d1 < 30 {
        d1
    } else {
        30
    };
    let d2c = if d1c == 30 && d2 > 30 {
        30
    } else {
        d2
    };
    let days = 360 * (y2 - y1) + 30 * (m2 - m1) + (d2c - d1c);
    if days >= 0 {
        days
    } else {
        0
    }
}

/// The year basis of a convention: 365, 360, or the actual length of the
/// given year.
pub open spec fn year_basis_spec(convention: DayCountConvention, year: int) -> int {
    match convention {
        DayCountConvention::Actual365 => 365,
        DayCountConvention::Actual360 => 360,
        DayCountConvention::Thirty360 => 360,
        DayCountConvention::ActualActual => year_length(year),
    }
}

/// Days between two timestamps under a convention: calendar days for the
/// actual conventions, the 30/360 formula otherwise.
pub open spec fn convention_days(convention: DayCountConvention, start: int, end: int) -> int {
    if convention == DayCountConvention::Thirty360 {
        days_30_360(year_of_day(day_of_ts(start)), month_of_day(day_of_ts(start)),
            dom_of_day(day_of_ts(start)), year_of_day(day_of_ts(end)),
            month_of_day(day_of_ts(end)), dom_of_day(day_of_ts(end)))
    } else {
        days_between_spec(start, end)
    }
}

/// One day of accrued interest.
#[derive(Clone, Copy, Debug, PartialEq, Eq, Structural)]
pub struct DailyAccrual {
    pub date: i64,
    pub principal_base: Money,
    pub interest_amount: Money,
    pub daily_rate: Rate,
}

/// One month of accrued interest.
#[derive(Clone, Copy, Debug, PartialEq, Eq, Structural)]
pub struct MonthlyAccrual {
    pub date: i64,
    pub principal_base: Money,
    pub interest_amount: Money,
    pub monthly_rate: Rate,
}

/// The sequence of daily accrual records from `last_accrual` (exclusive)
/// over `days` days: each day accrues `principal * rate / basis`.
pub open spec fn daily_accrual_seq(principal: Money, rate: Rate, last_accrual: int, days: int,
    basis: int) -> Seq<DailyAccrual> {
    Seq::new(days as nat, |i: int| DailyAccrual {
        date: (last_accrual + (i + 1) * (SECS_PER_DAY as int)) as i64,
        principal_base: principal,
        interest_amount: Money {
            atoms: simple_interest(principal.atoms as int, rate.atoms as int, 1, basis) as i128,
        },
        daily_rate: Rate { atoms: round_half_div(rate.atoms as int, basis) as i128 },
    })
}

/// Engine that accrues simple interest under a day-count convention.
pub struct AccrualEngine {
    pub convention: DayCountConvention,
}

impl AccrualEngine {
    /// An engine for the given convention.
    pub fn new(convention: DayCountConvention) -> (r: AccrualEngine)
        ensures
            r.convention == convention,
    {
        AccrualEngine { convention }
    }

    /// The year basis of the convention for the given year.
    pub fn year_basis(&self, year: i64) -> (r: u32)
        requires
            0 <= year,
        ensures
            r as int == year_basis_spec(self.convention, year as int),
            r == 360 || r == 365 || r == 366,
    {
        match self.convention {
            DayCountConvention::Actual365 => 365,
            DayCountConvention::Actual360 | DayCountConvention::Thirty360 => 360,
            DayCountConvention::ActualActual => days_in_year(year),
        }
    }

    /// Days between two civil dates under the 30/360 convention.
    pub fn days_30_360_between(&self, start_ts: i64, end_ts: i64) -> (r: i64)
        requires
            0 <= start_ts <= MAX_TIMESTAMP,
            0 <= end_ts <= MAX_TIMESTAMP,
        ensures
            r as int == days_30_360(year_of_day(day_of_ts(start_ts as int)),
                month_of_day(day_of_ts(start_ts as int)), dom_of_day(day_of_ts(start_ts as int)),
                year_of_day(day_of_ts(end_ts as int)), month_of_day(day_of_ts(end_ts as int)),
                dom_of_day(day_of_ts(end_ts as int))),
            r >= 0,
    {
        let (y1, m1, d1) = civil_of_timestamp(start_ts);
        let (y2, m2, d2) = civil_of_timestamp(end_ts);
        let d1c: i64 = if d1 < 30 {
            d1 as i64
        } else {
            30
        };
        let d2c: i64 = if d1c == 30 && d2 > 30 {
            30
        } else {
            d2 as i64
        };
        let days = 360 * (y2 - y1) + 30 * ((m2 as i64) - (m1 as i64)) + (d2c - d1c);
        if days >= 0 {
            days
        } else {
            0
        }
    }

    /// Days between two timestamps under the engine's convention.
    pub fn calculate_days(&self, start: i64, end: i64) -> (r: i64)
        requires
            0 <= start <= end <= MAX_TIMESTAMP,
        ensures
            r as int == convention_days(self.convention, start as int, end as int),
            0 <= r <= crate::dates::MAX_DAY_NUMBER + 1,
    {
        match self.convention {
            DayCountConvention::Thirty360 => {
                let d = self.days_30_360_between(start, end);
                proof {
                    lemma_days_30_360_bounded(start as int, end as int);
                }
                d
            },
            _ => days_between(start, end),
        }
    }

    /// Simple interest: `principal * rate * days / basis`, rounded once.
    pub fn calculate_simple_interest(&self, principal: Money, annual_rate: Rate, days: u32,
        year_basis: u32) -> (r: Money)
        requires
            -MUL_LIMIT <= principal.atoms <= MUL_LIMIT,
            -RATE_LIMIT <= annual_rate.atoms <= RATE_LIMIT,
            days <= DAYS_LIMIT,
            0 < year_basis <= 1000,
        ensures
            r.atoms as int == simple_interest(principal.atoms as int, annual_rate.atoms as int,
                days as int, year_basis as int),
    {
        principal.interest_for_days(annual_rate, days, year_basis)
    }

    /// One daily accrual record per elapsed day between `last_accrual` and
    /// `now`, each over the current principal base.
    pub fn accrue_daily_at(&self, principal: Money, annual_rate: Rate, last_accrual: i64,
        now: i64) -> (r: Vec<DailyAccrual>)
        requires
            0 <= last_accrual <= now <= MAX_TIMESTAMP,
            -MUL_LIMIT <= principal.atoms <= MUL_LIMIT,
            -RATE_LIMIT <= annual_rate.atoms <= RATE_LIMIT,
            convention_days(self.convention, last_accrual as int, now as int) <= DAYS_LIMIT,
        ensures
            r@ == daily_accrual_seq(principal, annual_rate, last_accrual as int,
                convention_days(self.convention, last_accrual as int, now as int),
                year_basis_spec(self.convention, year_of_day(day_of_ts(now as int)))),
    {
        let days = self.calculate_days(last_accrual, now);
        let ghost basis_g = year_basis_spec(self.convention, year_of_day(day_of_ts(now as int)));
        let mut accruals: Vec<DailyAccrual> = Vec::new();
        if days == 0 {
            proof {
                assert(accruals@ =~= daily_accrual_seq(principal, annual_rate,
                    last_accrual as int, 0, basis_g));
            }
            return accruals;
        }
        let (yr, _m, _d) = civil_of_timestamp(now);
        let basis = self.year_basis(yr);
        let interest = principal.interest_for_days(annual_rate, 1, basis);
        let daily_rate = annual_rate.div_int(basis);
        let mut i: i64 = 0;
        while i < days
            invariant
                0 <= i <= days,
                days <= DAYS_LIMIT,
                0 <= last_accrual <= MAX_TIMESTAMP,
                basis as int == basis_g,
                0 < basis <= 1000,
                interest.atoms as int == simple_interest(principal.atoms as int,
                    annual_rate.atoms as int, 1, basis as int),
                daily_rate.atoms as int == round_half_div(annual_rate.atoms as int,
                    basis as int),
                accruals@ == daily_accrual_seq(principal, annual_rate, last_accrual as int,
                    i as int, basis_g),
            decreases days - i,
        {
            let record = DailyAccrual {
                date: last_accrual + (i + 1) * SECS_PER_DAY,
                principal_base: principal,
                interest_amount: interest,
                daily_rate,
            };
            accruals.push(record);
            proof {
                assert(accruals@ =~= daily_accrual_seq(principal, annual_rate,
                    last_accrual as int, i + 1, basis_g));
            }
            i = i + 1;
        }
        accruals
    }

    /// Daily accrual against the provider's current instant. If the
    /// provider reports an instant before the last accrual or out of the
    /// supported range, nothing accrues.
    pub fn accrue_daily(&self, principal: Money, annual_rate: Rate, last_accrual: i64,
        provider: &hourglass_rs::SafeTimeProvider) -> (r: Vec<DailyAccrual>)
        requires
            0 <= last_accrual <= MAX_TIMESTAMP,
            -MUL_LIMIT <= principal.atoms <= MUL_LIMIT,
            -RATE_LIMIT <= annual_rate.atoms <= RATE_LIMIT,
        ensures
            r@.len() == 0 || exists|now: int|
                {
                    &&& last_accrual <= now <= MAX_TIMESTAMP
                    &&& convention_days(self.convention, last_accrual as int, now)
                        <= DAYS_LIMIT
                    &&& r@ == daily_accrual_seq(principal, annual_rate, last_accrual as int,
                        convention_days(self.convention, last_accrual as int, now),
                        year_basis_spec(self.convention, year_of_day(day_of_ts(now))))
                },
    {
        let now = provider_now(provider);
        if now < last_accrual || now > MAX_TIMESTAMP {
            return Vec::new();
        }
        let days = self.calculate_days(last_accrual, now);
        if days > DAYS_LIMIT as i64 {
            return Vec::new();
        }
        let r = self.accrue_daily_at(principal, annual_rate, last_accrual, now);
        proof {
            if r@.len() != 0 {
                assert(last_accrual as int <= now as int <= MAX_TIMESTAMP as int
                    && convention_days(self.convention, last_accrual as int, now as int)
                        <= DAYS_LIMIT
                    && r@ == daily_accrual_seq(principal, annual_rate, last_accrual as int,
                        convention_days(self.convention, last_accrual as int, now as int),
                        year_basis_spec(self.convention,
                            year_of_day(day_of_ts(now as int)))));
            }
        }
        r
    }

    /// Whether a monthly accrual is due: the two instants fall in
    /// different civil months or years.
    pub open spec fn monthly_due(last_accrual: int, now: int) -> bool {
        month_of_day(day_of_ts(last_accrual)) != month_of_day(day_of_ts(now))
            || year_of_day(day_of_ts(last_accrual)) != year_of_day(day_of_ts(now))
    }

    /// One month of interest, `principal * rate / 12`, if a month boundary
    /// was crossed since the last accrual.
    pub fn accrue_monthly_at(&self, principal: Money, annual_rate: Rate, last_accrual: i64,
        now: i64) -> (r: Option<MonthlyAccrual>)
        requires
            0 <= last_accrual <= MAX_TIMESTAMP,
            0 <= now <= MAX_TIMESTAMP,
            -MUL_LIMIT <= principal.atoms <= MUL_LIMIT,
            -RATE_LIMIT <= annual_rate.atoms <= RATE_LIMIT,
        ensures
            r is Some <==> Self::monthly_due(last_accrual as int, now as int),
            r matches Some(a) ==> {
                &&& a.date == now
                &&& a.principal_base == principal
                &&& a.interest_amount.atoms as int == simple_interest(principal.atoms as int,
                    annual_rate.atoms as int, 1, 12)
                &&& a.monthly_rate.atoms as int == round_half_div(annual_rate.atoms as int, 12)
            },
    {
        let (y1, m1, _d1) = civil_of_timestamp(last_accrual);
        let (y2, m2, _d2) = civil_of_timestamp(now);
        if y1 == y2 && m1 == m2 {
            return None;
        }
        Some(MonthlyAccrual {
            date: now,
            principal_base: principal,
            interest_amount: principal.interest_for_days(annual_rate, 1, 12),
            monthly_rate: annual_rate.div_int(12),
        })
    }

    /// Monthly accrual against the provider's current instant.
    pub fn accrue_monthly(&self, principal: Money, annual_rate: Rate, last_accrual: i64,
        provider: &hourglass_rs::SafeTimeProvider) -> (r: Option<MonthlyAccrual>)
        requires
            0 <= last_accrual <= MAX_TIMESTAMP,
            -MUL_LIMIT <= principal.atoms <= MUL_LIMIT,
            -RATE_LIMIT <= annual_rate.atoms <= RATE_LIMIT,
        ensures
            r matches Some(a) ==> {
                &&& a.principal_base == principal
                &&& a.interest_amount.atoms as int == simple_interest(principal.atoms as int,
                    annual_rate.atoms as int, 1, 12)
                &&& a.monthly_rate.atoms as int == round_half_div(annual_rate.atoms as int, 12)
            },
    {
        let now = provider_now(provider);
        if now < 0 || now > MAX_TIMESTAMP {
            return None;
        }
        self.accrue_monthly_at(principal, annual_rate, last_accrual, now)
    }

    /// The daily rate of the convention: the annual rate over 365 or 360.
    pub fn convention_daily_rate(&self, annual_rate: Rate) -> (r: Rate)
        requires
            -RATE_LIMIT <= annual_rate.atoms <= RATE_LIMIT,
        ensures
            r.atoms as int == round_half_div(annual_rate.atoms as int,
                if self.convention == DayCountConvention::Actual360
                    || self.convention == DayCountConvention::Thirty360 {
                    360int
                } else {
                    365int
                }),
    {
        match self.convention {
            DayCountConvention::Actual360 | DayCountConvention::Thirty360 => {
                annual_rate.div_int(360)
            },
            _ => annual_rate.div_int(365),
        }
    }
}

/// The 30/360 count of two supported dates stays within the day-number
/// range.
proof fn lemma_days_30_360_bounded(start: int, end: int)
    requires
        0 <= start <= MAX_TIMESTAMP,
        0 <= end <= MAX_TIMESTAMP,
    ensures
        0 <= days_30_360(year_of_day(day_of_ts(start)), month_of_day(day_of_ts(start)),
            dom_of_day(day_of_ts(start)), year_of_day(day_of_ts(end)),
            month_of_day(day_of_ts(end)), dom_of_day(day_of_ts(end)))
            <= crate::dates::MAX_DAY_NUMBER + 1,
{
    crate::dates::lemma_civil_ranges(day_of_ts(start));
    crate::dates::lemma_civil_ranges(day_of_ts(end));
}

impl InterestCalculator for AccrualEngine {
    /// Simple interest between the two instants: days under the
    /// convention, one rounding.
    fn calculate_interest(&self, principal: Money, rate: Rate, start_ts: i64, end_ts: i64)
        -> (r: Result<InterestCalculation, FacilityError>)
    {
        if !(0 <= start_ts && start_ts <= end_ts && end_ts <= MAX_TIMESTAMP) {
            return Err(FacilityError::InvalidDate { message: String::new() });
        }
        if principal.atoms < -MUL_LIMIT || principal.atoms > MUL_LIMIT || rate.atoms
            < -RATE_LIMIT || rate.atoms > RATE_LIMIT {
            return Err(FacilityError::CalculationError { message: String::new() });
        }
        let days = self.calculate_days(start_ts, end_ts);
        if days > DAYS_LIMIT as i64 {
            return Err(FacilityError::CalculationError { message: String::new() });
        }
        let (yr, _m, _d) = civil_of_timestamp(end_ts);
        let basis = self.year_basis(yr);
        let interest = self.calculate_simple_interest(principal, rate, days as u32, basis);
        Ok(InterestCalculation {
            interest_amount: interest,
            daily_rate: self.convention_daily_rate(rate),
            days: days as u32,
            principal_base: principal,
        })
    }

    fn get_daily_rate(&self, annual_rate: Rate) -> (r: Rate) {
        if annual_rate.atoms < -RATE_LIMIT || annual_rate.atoms > RATE_LIMIT {
            return Rate::zero();
        }
        self.convention_daily_rate(annual_rate)
    }
}

} // verus!
