//! Discrete and continuous compound interest.

use vstd::prelude::*;
use crate::dates::{days_between, MAX_TIMESTAMP};
use crate::errors::FacilityError;
use crate::interest::{InterestCalculation, InterestCalculator};
use crate::money::{
    div_round, pow_factor, pow_within, round_half_div, try_compound_factor, Money, Rate,
    FACTOR_LIMIT, POW_BASE_LIMIT, RATE_LIMIT, SCALE,
};

verus! {

/// Most periods a single discrete compounding computation will iterate.
pub const PERIODS_LIMIT: i128 = 100_000;

/// How often interest compounds.
#[derive(Clone, Copy, Debug, PartialEq, Eq, Structural)]
pub enum CompoundingFrequency {
    Daily,
    Weekly,
    Monthly,
    Quarterly,
    SemiAnnual,
    Annual,
    Continuous,
}

impl CompoundingFrequency {
    /// Compounding periods per year; zero marks continuous compounding.
    pub fn periods_per_year(&self) -> (r: u32)
        ensures
            r as int == periods_per_year_spec(*self),
    {
        match self {
            CompoundingFrequency::Daily => 365,
            CompoundingFrequency::Weekly => 52,
            CompoundingFrequency::Monthly => 12,
            CompoundingFrequency::Quarterly => 4,
            CompoundingFrequency::SemiAnnual => 2,
            CompoundingFrequency::Annual => 1,
            CompoundingFrequency::Continuous => 0,
        }
    }
}

/// Compounding periods per year; zero marks continuous compounding.
pub open spec fn periods_per_year_spec(f: CompoundingFrequency) -> int {
    match f {
        CompoundingFrequency::Daily => 365,
        CompoundingFrequency::Weekly => 52,
        CompoundingFrequency::Monthly => 12,
        CompoundingFrequency::Quarterly => 4,
        CompoundingFrequency::SemiAnnual => 2,
        CompoundingFrequency::Annual => 1,
        CompoundingFrequency::Continuous => 0,
    }
}

/// The whole number of periods covered by `t` years at `n` periods per
/// year, clamped at zero.
pub open spec fn period_count(n: int, t: int) -> int {
    let p = round_half_div(n * t, SCALE as int);
    if p >= 0 {
        p
    } else {
        0
    }
}

/// Interest grown discretely: the base times `(1+r/n)^periods`, less the
/// base, rounded once.
pub open spec fn discrete_interest(p: int, rate: int, n: int, t: int) -> int {
    round_half_div(p * (pow_factor(round_half_div(rate, n), period_count(n, t) as nat)
        - SCALE as int), SCALE as int)
}

/// Whether the discrete computation stays within the factor bounds.
pub open spec fn discrete_within(rate: int, n: int, t: int) -> bool {
    period_count(n, t) <= PERIODS_LIMIT as int && pow_within(round_half_div(rate, n),
        period_count(n, t) as nat)
}

/// The `i`-th term of the exponential series at eight digits:
/// `term(0) = 1`, `term(i) = term(i-1) * x / i`.
pub open spec fn taylor_term(x: int, i: nat) -> int
    decreases i,
{
    if i == 0 {
        SCALE as int
    } else {
        round_half_div(taylor_term(x, (i - 1) as nat) * x, (i as int) * (SCALE as int))
    }
}

/// The series `1 + x + x^2/2! + ... + x^k/k!` at eight digits.
pub open spec fn taylor_sum(x: int, k: nat) -> int
    decreases k,
{
    if k == 0 {
        SCALE as int
    } else {
        taylor_sum(x, (k - 1) as nat) + taylor_term(x, k)
    }
}

/// A loose magnitude bound on the series terms: it doubles (plus one)
/// per step, which is all the overflow argument needs.
pub open spec fn taylor_term_limit(i: nat) -> int
    decreases i,
{
    if i == 0 {
        SCALE as int
    } else {
        2 * taylor_term_limit((i - 1) as nat) + 1
    }
}

proof fn lemma_taylor_term_limit_le(i: nat)
    requires
        i <= 9,
    ensures
        taylor_term_limit(i) <= 512 * SCALE + 511,
    decreases 10 - i,
{
    assert(taylor_term_limit(9) == 512 * SCALE + 511) by {
        reveal_with_fuel(taylor_term_limit, 10);
    }
    if i < 9 {
        lemma_taylor_term_limit_le((i + 1) as nat);
    }
}

proof fn lemma_taylor_term_bound(x: int, i: nat)
    requires
        -2 * SCALE <= x <= 2 * SCALE,
        1 <= i,
    ensures
        -taylor_term_limit(i) <= taylor_term(x, i) <= taylor_term_limit(i),
    decreases i,
{
    let prev = taylor_term(x, (i - 1) as nat);
    let pl = taylor_term_limit((i - 1) as nat);
    if i > 1 {
        lemma_taylor_term_bound(x, (i - 1) as nat);
    }
    lemma_taylor_term_limit_pos((i - 1) as nat);
    crate::money::lemma_mul_bounds(prev, x, pl, 2 * SCALE);
    assert((i as int) * (SCALE as int) >= SCALE as int) by (nonlinear_arith)
        requires
            i >= 1,
            SCALE == 100_000_000,
    ;
    assert(pl * (2 * SCALE) >= 0) by (nonlinear_arith)
        requires
            pl >= 0,
            SCALE == 100_000_000,
    ;
    crate::money::lemma_round_half_div_bound(prev * x, (i as int) * (SCALE as int),
        pl * (2 * SCALE));
    assert((pl * (2 * SCALE)) / ((i as int) * (SCALE as int)) <= 2 * pl) by {
        vstd::arithmetic::div_mod::lemma_div_is_ordered_by_denominator(pl * (2 * SCALE),
            SCALE as int, (i as int) * (SCALE as int));
        assert((pl * (2 * SCALE)) / (SCALE as int) == 2 * pl) by (nonlinear_arith)
            requires
                SCALE == 100_000_000,
                pl >= 0,
        ;
    }
}

proof fn lemma_taylor_term_limit_pos(i: nat)
    ensures
        taylor_term_limit(i) >= SCALE,
    decreases i,
{
    if i > 0 {
        lemma_taylor_term_limit_pos((i - 1) as nat);
    }
}

/// The matching loose bound on the partial sums.
pub open spec fn taylor_sum_limit(k: nat) -> int
    decreases k,
{
    if k == 0 {
        SCALE as int
    } else {
        taylor_sum_limit((k - 1) as nat) + taylor_term_limit(k)
    }
}

proof fn lemma_taylor_sum_small(x: int, k: nat)
    requires
        -2 * SCALE <= x <= 2 * SCALE,
    ensures
        -taylor_sum_limit(k) <= taylor_sum(x, k) <= taylor_sum_limit(k),
    decreases k,
{
    if k > 0 {
        lemma_taylor_sum_small(x, (k - 1) as nat);
        lemma_taylor_term_bound(x, k);
    }
}

proof fn lemma_taylor_sum_limit_le(k: nat)
    requires
        k <= 9,
    ensures
        taylor_sum_limit(k) <= 200_000_000_000,
    decreases 10 - k,
{
    assert(taylor_sum_limit(9) <= 200_000_000_000) by {
        reveal_with_fuel(taylor_sum_limit, 10);
        reveal_with_fuel(taylor_term_limit, 10);
    }
    if k < 9 {
        lemma_taylor_sum_limit_le((k + 1) as nat);
        lemma_taylor_term_limit_pos((k + 1) as nat);
    }
}

/// The nine-term exponential factor at eight digits.
fn taylor_factor(x: i128) -> (r: i128)
    requires
        -2 * SCALE <= x <= 2 * SCALE,
    ensures
        r as int == taylor_sum(x as int, 9),
        -200_000_000_000 <= r <= 200_000_000_000,
{
    let mut factor: i128 = SCALE;
    let mut term: i128 = SCALE;
    let mut i: u32 = 1;
    while i < 10
        invariant
            1 <= i <= 10,
            -2 * SCALE <= x <= 2 * SCALE,
            term as int == taylor_term(x as int, (i - 1) as nat),
            -(512 * SCALE + 511) <= term <= 512 * SCALE + 511,
            factor as int == taylor_sum(x as int, (i - 1) as nat),
            -200_000_000_000 <= factor <= 200_000_000_000,
        decreases 10 - i,
    {
        proof {
            crate::money::lemma_mul_bounds(term as int, x as int, 512 * SCALE + 511,
                2 * SCALE);
            assert((i as int) * (SCALE as int) >= SCALE as int) by (nonlinear_arith)
                requires
                    i >= 1,
                    SCALE == 100_000_000,
            ;
            assert((i as int) * (SCALE as int) <= 1_000_000_000) by (nonlinear_arith)
                requires
                    i <= 10,
                    SCALE == 100_000_000,
            ;
            assert(-20_000_000_000_000_000_000 <= (term as int) * (x as int)
                <= 20_000_000_000_000_000_000) by (nonlinear_arith)
                requires
                    -(512 * (SCALE as int) + 511) <= term as int <= 512 * (SCALE as int)
                        + 511,
                    -2 * (SCALE as int) <= x as int <= 2 * (SCALE as int),
                    SCALE == 100_000_000,
            ;
        }
        let next_term = div_round(term * x, (i as i128) * SCALE);
        proof {
            lemma_taylor_term_bound(x as int, i as nat);
            lemma_taylor_term_limit_le(i as nat);
            lemma_taylor_sum_small(x as int, i as nat);
            lemma_taylor_sum_limit_le(i as nat);
        }
        term = next_term;
        factor = factor + term;
        i = i + 1;
    }
    factor
}

/// Engine for compound interest at a fixed frequency.
pub struct CompoundingEngine {
    pub frequency: CompoundingFrequency,
}

impl CompoundingEngine {
    /// An engine for the given frequency.
    pub fn new(frequency: CompoundingFrequency) -> (r: CompoundingEngine)
        ensures
            r.frequency == frequency,
    {
        CompoundingEngine { frequency }
    }

    /// Discrete compound interest on `principal` over `time_years` years
    /// (a ratio: one and a half years is 1.5). Fails only where the
    /// compound factor leaves the supported range.
    pub fn calculate_discrete(&self, principal: Money, annual_rate: Rate, time_years: Rate)
        -> (r: Result<Money, FacilityError>)
        requires
            self.frequency != CompoundingFrequency::Continuous,
            -POW_BASE_LIMIT <= principal.atoms <= POW_BASE_LIMIT,
            -RATE_LIMIT <= annual_rate.atoms <= RATE_LIMIT,
            -RATE_LIMIT <= time_years.atoms <= RATE_LIMIT,
        ensures
            r matches Ok(m) ==> discrete_within(annual_rate.atoms as int,
                periods_per_year_spec(self.frequency), time_years.atoms as int)
                && m.atoms as int == discrete_interest(principal.atoms as int,
                annual_rate.atoms as int, periods_per_year_spec(self.frequency),
                time_years.atoms as int),
            r is Err <==> !discrete_within(annual_rate.atoms as int,
                periods_per_year_spec(self.frequency), time_years.atoms as int),
    {
        let n = self.frequency.periods_per_year();
        proof {
            crate::money::lemma_mul_bounds(n as int, time_years.atoms as int, 365,
                RATE_LIMIT as int);
        }
        let p_raw = div_round((n as i128) * time_years.atoms, SCALE);
        let periods: i128 = if p_raw >= 0 {
            p_raw
        } else {
            0
        };
        if periods > PERIODS_LIMIT {
            return Err(FacilityError::CalculationError { message: String::new() });
        }
        let period_rate = annual_rate.div_int(n);
        proof {
            crate::money::lemma_round_half_div_le(annual_rate.atoms as int, n as int);
        }
        match try_compound_factor(period_rate, periods as u32) {
            Some(factor) => {
                proof {
                    crate::money::lemma_mul_bounds(principal.atoms as int,
                        factor - SCALE as int, POW_BASE_LIMIT as int,
                        FACTOR_LIMIT + SCALE as int);
                }
                Ok(Money { atoms: div_round(principal.atoms * (factor - SCALE), SCALE) })
            },
            None => Err(FacilityError::CalculationError { message: String::new() }),
        }
    }

    /// Continuous compound interest via the nine-term exponential series.
    /// The rate-times-years product must stay within two (plenty for loan
    /// rates); beyond it the computation fails.
    pub fn calculate_continuous(&self, principal: Money, annual_rate: Rate, time_years: Rate)
        -> (r: Result<Money, FacilityError>)
        requires
            -POW_BASE_LIMIT <= principal.atoms <= POW_BASE_LIMIT,
            -RATE_LIMIT <= annual_rate.atoms <= RATE_LIMIT,
            -RATE_LIMIT <= time_years.atoms <= RATE_LIMIT,
        ensures
            r matches Ok(m) ==> {
                let x = crate::money::mul_scaled(annual_rate.atoms as int,
                    time_years.atoms as int);
                -2 * SCALE <= x <= 2 * SCALE && m.atoms as int == round_half_div(
                    principal.atoms * (taylor_sum(x, 9) - SCALE as int), SCALE as int)
            },
            r is Err <==> !(-2 * SCALE <= crate::money::mul_scaled(annual_rate.atoms as int,
                time_years.atoms as int) <= 2 * SCALE),
    {
        proof {
            crate::money::lemma_mul_bounds(annual_rate.atoms as int, time_years.atoms as int,
                RATE_LIMIT as int, RATE_LIMIT as int);
        }
        let x = div_round(annual_rate.atoms * time_years.atoms, SCALE);
        if x < -2 * SCALE || x > 2 * SCALE {
            return Err(FacilityError::CalculationError { message: String::new() });
        }
        let factor = taylor_factor(x);
        proof {
            crate::money::lemma_mul_bounds(principal.atoms as int, factor - SCALE as int,
                POW_BASE_LIMIT as int, 300_000_000_000);
        }
        Ok(Money { atoms: div_round(principal.atoms * (factor - SCALE), SCALE) })
    }

    /// Compound interest over `time_years` years under the engine's
    /// frequency.
    pub fn calculate_compound(&self, principal: Money, annual_rate: Rate, time_years: Rate)
        -> (r: Result<Money, FacilityError>)
        requires
            -POW_BASE_LIMIT <= principal.atoms <= POW_BASE_LIMIT,
            -RATE_LIMIT <= annual_rate.atoms <= RATE_LIMIT,
            -RATE_LIMIT <= time_years.atoms <= RATE_LIMIT,
        ensures
            self.frequency == CompoundingFrequency::Continuous ==> (r matches Ok(m) ==> {
                let x = crate::money::mul_scaled(annual_rate.atoms as int,
                    time_years.atoms as int);
                m.atoms as int == round_half_div(principal.atoms * (taylor_sum(x, 9)
                    - SCALE as int), SCALE as int)
            }),
            self.frequency != CompoundingFrequency::Continuous ==> (r matches Ok(m) ==>
                m.atoms as int == discrete_interest(principal.atoms as int,
                annual_rate.atoms as int, periods_per_year_spec(self.frequency),
                time_years.atoms as int)),
    {
        match self.frequency {
            CompoundingFrequency::Continuous => self.calculate_continuous(principal,
                annual_rate, time_years),
            _ => self.calculate_discrete(principal, annual_rate, time_years),
        }
    }

    /// Compound interest over a day count, as `days / 365` years.
    pub fn compound_for_days(&self, principal: Money, annual_rate: Rate, days: u32)
        -> (r: Result<Money, FacilityError>)
        requires
            -POW_BASE_LIMIT <= principal.atoms <= POW_BASE_LIMIT,
            -RATE_LIMIT <= annual_rate.atoms <= RATE_LIMIT,
            days <= crate::money::DAYS_LIMIT,
        ensures
            ({
                let t = round_half_div(days * SCALE as int, 365);
                &&& self.frequency != CompoundingFrequency::Continuous ==> (r matches Ok(m)
                    ==> m.atoms as int == discrete_interest(principal.atoms as int,
                    annual_rate.atoms as int, periods_per_year_spec(self.frequency), t))
                &&& self.frequency == CompoundingFrequency::Continuous ==> (r matches Ok(m)
                    ==> m.atoms as int == round_half_div(principal.atoms * (taylor_sum(
                    crate::money::mul_scaled(annual_rate.atoms as int, t), 9) - SCALE as int),
                    SCALE as int))
            }),
    {
        let t = Rate { atoms: div_round((days as i128) * SCALE, 365) };
        self.calculate_compound(principal, annual_rate, t)
    }

    /// Monthly compounding for a whole number of months: the factor
    /// `(1 + r/12)^months`.
    pub fn compound_monthly(&self, principal: Money, annual_rate: Rate, months: u32)
        -> (r: Result<Money, FacilityError>)
        requires
            -POW_BASE_LIMIT <= principal.atoms <= POW_BASE_LIMIT,
            -RATE_LIMIT <= annual_rate.atoms <= RATE_LIMIT,
        ensures
            ({
                let pr = round_half_div(annual_rate.atoms as int, 12);
                &&& r matches Ok(m) ==> pow_within(pr, months as nat) && m.atoms as int
                    == round_half_div(principal.atoms * (pow_factor(pr, months as nat)
                    - SCALE as int), SCALE as int)
                &&& r is Err <==> !pow_within(pr, months as nat)
            }),
    {
        let period_rate = annual_rate.div_int(12);
        proof {
            crate::money::lemma_round_half_div_le(annual_rate.atoms as int, 12);
        }
        match try_compound_factor(period_rate, months) {
            Some(factor) => {
                proof {
                    crate::money::lemma_mul_bounds(principal.atoms as int,
                        factor - SCALE as int, POW_BASE_LIMIT as int,
                        FACTOR_LIMIT + SCALE as int);
                }
                Ok(Money { atoms: div_round(principal.atoms * (factor - SCALE), SCALE) })
            },
            None => Err(FacilityError::CalculationError { message: String::new() }),
        }
    }

    /// Daily compounding for a whole number of days: the factor
    /// `(1 + r/365)^days`.
    pub fn compound_daily(&self, principal: Money, annual_rate: Rate, days: u32)
        -> (r: Result<Money, FacilityError>)
        requires
            -POW_BASE_LIMIT <= principal.atoms <= POW_BASE_LIMIT,
            -RATE_LIMIT <= annual_rate.atoms <= RATE_LIMIT,
        ensures
            ({
                let pr = round_half_div(annual_rate.atoms as int, 365);
                &&& r matches Ok(m) ==> pow_within(pr, days as nat) && m.atoms as int
                    == round_half_div(principal.atoms * (pow_factor(pr, days as nat)
                    - SCALE as int), SCALE as int)
                &&& r is Err <==> !pow_within(pr, days as nat)
            }),
    {
        let period_rate = annual_rate.div_int(365);
        proof {
            crate::money::lemma_round_half_div_le(annual_rate.atoms as int, 365);
        }
        match try_compound_factor(period_rate, days) {
            Some(factor) => {
                proof {
                    crate::money::lemma_mul_bounds(principal.atoms as int,
                        factor - SCALE as int, POW_BASE_LIMIT as int,
                        FACTOR_LIMIT + SCALE as int);
                }
                Ok(Money { atoms: div_round(principal.atoms * (factor - SCALE), SCALE) })
            },
            None => Err(FacilityError::CalculationError { message: String::new() }),
        }
    }
}

/// The value grown by compound interest: the present value plus the
/// computed interest.
pub fn future_value(present: Money, annual_rate: Rate, years: Rate,
    frequency: CompoundingFrequency) -> (r: Result<Money, FacilityError>)
    requires
        -POW_BASE_LIMIT <= present.atoms <= POW_BASE_LIMIT,
        -RATE_LIMIT <= annual_rate.atoms <= RATE_LIMIT,
        -RATE_LIMIT <= years.atoms <= RATE_LIMIT,
    ensures
        frequency != CompoundingFrequency::Continuous ==> (r matches Ok(m) ==> m.atoms as int
            == present.atoms + discrete_interest(present.atoms as int, annual_rate.atoms as int,
            periods_per_year_spec(frequency), years.atoms as int)),
{
    let engine = CompoundingEngine::new(frequency);
    match engine.calculate_compound(present, annual_rate, years) {
        Ok(interest) => {
            if interest.atoms < -crate::money::AMOUNT_LIMIT || interest.atoms
                > crate::money::AMOUNT_LIMIT {
                return Err(FacilityError::CalculationError { message: String::new() });
            }
            Ok(present.add(interest))
        },
        Err(e) => Err(e),
    }
}

/// The value whose compound growth reaches `future`: the future value
/// discounted by the inverse factor, rounded at eight digits.
pub fn present_value(future: Money, annual_rate: Rate, years: Rate,
    frequency: CompoundingFrequency) -> (r: Result<Money, FacilityError>)
    requires
        -POW_BASE_LIMIT <= future.atoms <= POW_BASE_LIMIT,
        -RATE_LIMIT <= annual_rate.atoms <= RATE_LIMIT,
        -RATE_LIMIT <= years.atoms <= RATE_LIMIT,
    ensures
        frequency != CompoundingFrequency::Continuous ==> (r matches Ok(m) ==> {
            let pr = round_half_div(annual_rate.atoms as int, periods_per_year_spec(frequency));
            let f = pow_factor(pr, period_count(periods_per_year_spec(frequency),
                years.atoms as int) as nat);
            f > 0 && m.atoms as int == crate::money::mul_scaled(future.atoms as int,
                round_half_div(SCALE * (SCALE as int), f))
        }),
{
    match frequency {
        CompoundingFrequency::Continuous => {
            proof {
                crate::money::lemma_mul_bounds(annual_rate.atoms as int, years.atoms as int,
                    RATE_LIMIT as int, RATE_LIMIT as int);
            }
            let x = div_round(annual_rate.atoms * years.atoms, SCALE);
            if x < -2 * SCALE || x > 2 * SCALE {
                return Err(FacilityError::CalculationError { message: String::new() });
            }
            let discount = taylor_factor(-x);
            proof {
                crate::money::lemma_mul_bounds(future.atoms as int, discount as int,
                    POW_BASE_LIMIT as int, 200_000_000_000);
            }
            Ok(Money { atoms: div_round(future.atoms * discount, SCALE) })
        },
        _ => {
            let engine = CompoundingEngine::new(frequency);
            let n = engine.frequency.periods_per_year();
            proof {
                crate::money::lemma_mul_bounds(n as int, years.atoms as int, 365,
                    RATE_LIMIT as int);
            }
            let p_raw = div_round((n as i128) * years.atoms, SCALE);
            let periods: i128 = if p_raw >= 0 {
                p_raw
            } else {
                0
            };
            if periods > PERIODS_LIMIT {
                return Err(FacilityError::CalculationError { message: String::new() });
            }
            let period_rate = annual_rate.div_int(n);
            proof {
                crate::money::lemma_round_half_div_le(annual_rate.atoms as int, n as int);
            }
            match try_compound_factor(period_rate, periods as u32) {
                Some(factor) => {
                    if factor <= 0 {
                        return Err(FacilityError::CalculationError {
                            message: String::new(),
                        });
                    }
                    let discount = div_round(SCALE * SCALE, factor);
                    proof {
                        crate::money::lemma_round_half_div_bound(SCALE * (SCALE as int),
                            factor as int, SCALE * (SCALE as int));
                        vstd::arithmetic::div_mod::lemma_div_is_ordered_by_denominator(
                            SCALE * (SCALE as int), 1, factor as int);
                        crate::money::lemma_mul_bounds(future.atoms as int, discount as int,
                            POW_BASE_LIMIT as int, SCALE * (SCALE as int) + 1);
                    }
                    Ok(Money { atoms: div_round(future.atoms * discount, SCALE) })
                },
                None => Err(FacilityError::CalculationError { message: String::new() }),
            }
        },
    }
}

/// The effective annual yield of a nominal rate compounded `n` times a
/// year: `(1 + apr/n)^n - 1`.
pub fn calculate_apy(apr: Rate, compounding_frequency: u32) -> (r: Result<Rate, FacilityError>)
    requires
        -RATE_LIMIT <= apr.atoms <= RATE_LIMIT,
        1 <= compounding_frequency,
    ensures
        ({
            let pr = round_half_div(apr.atoms as int, compounding_frequency as int);
            &&& r matches Ok(y) ==> pow_within(pr, compounding_frequency as nat)
                && y.atoms as int == pow_factor(pr, compounding_frequency as nat)
                - SCALE as int
            &&& r is Err <==> !pow_within(pr, compounding_frequency as nat)
        }),
{
    let period_rate = apr.div_int(compounding_frequency);
    proof {
        crate::money::lemma_round_half_div_le(apr.atoms as int, compounding_frequency as int);
    }
    match try_compound_factor(period_rate, compounding_frequency) {
        Some(factor) => Ok(Rate { atoms: factor - SCALE }),
        None => Err(FacilityError::CalculationError { message: String::new() }),
    }
}

impl InterestCalculator for CompoundingEngine {
    /// Compound interest between the two instants, as `days / 365` years.
    fn calculate_interest(&self, principal: Money, rate: Rate, start_ts: i64, end_ts: i64)
        -> (r: Result<InterestCalculation, FacilityError>)
    {
        if !(0 <= start_ts && start_ts <= end_ts && end_ts <= MAX_TIMESTAMP) {
            return Err(FacilityError::InvalidDate { message: String::new() });
        }
        if principal.atoms < -POW_BASE_LIMIT || principal.atoms > POW_BASE_LIMIT || rate.atoms
            < -RATE_LIMIT || rate.atoms > RATE_LIMIT {
            return Err(FacilityError::CalculationError { message: String::new() });
        }
        let days = days_between(start_ts, end_ts);
        if days > crate::money::DAYS_LIMIT as i64 {
            return Err(FacilityError::CalculationError { message: String::new() });
        }
        match self.compound_for_days(principal, rate, days as u32) {
            Ok(interest) => Ok(InterestCalculation {
                interest_amount: interest,
                daily_rate: rate.div_int(365),
                days: days as u32,
                principal_base: principal,
            }),
            Err(e) => Err(e),
        }
    }

    fn get_daily_rate(&self, annual_rate: Rate) -> (r: Rate) {
        if annual_rate.atoms < -RATE_LIMIT || annual_rate.atoms > RATE_LIMIT {
            return Rate::zero();
        }
        annual_rate.div_int(365)
    }
}

} // verus!
