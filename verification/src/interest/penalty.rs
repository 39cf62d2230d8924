//! Penalty interest on overdue amounts.

use vstd::prelude::*;
use crate::errors::FacilityError;
use crate::interest::{InterestCalculation, InterestCalculator};
use crate::dates::{days_between, MAX_TIMESTAMP};
use crate::money::{
    lemma_mul_bounds, mul_scaled, simple_interest, Money, Rate, DAYS_LIMIT, MUL_LIMIT,
    RATE_LIMIT,
};

verus! {

/// How penalty interest is configured.
#[derive(Clone, Copy, Debug, PartialEq, Eq, Structural)]
pub struct PenaltyConfig {
    /// The facility's base interest rate.
    pub base_rate: Rate,
    /// Multiplier over the base rate (1.5 for fifty percent higher).
    pub penalty_multiplier: Rate,
    /// A fixed penalty rate; overrides the multiplier when set.
    pub fixed_penalty_rate: Option<Rate>,
    /// Days overdue before penalties start.
    pub grace_period_days: u32,
    /// The least penalty charged once past grace.
    pub minimum_penalty: Money,
    /// A cap on the effective penalty rate.
    pub maximum_penalty_rate: Option<Rate>,
}

/// The effective penalty rate: the fixed rate if set, else base times
/// multiplier, capped at the maximum if set.
pub open spec fn effective_rate_spec(c: PenaltyConfig) -> int {
    let uncapped = match c.fixed_penalty_rate {
        Some(f) => f.atoms as int,
        None => mul_scaled(c.base_rate.atoms as int, c.penalty_multiplier.atoms as int),
    };
    match c.maximum_penalty_rate {
        Some(m) => if uncapped <= m.atoms {
            uncapped
        } else {
            m.atoms as int
        },
        None => uncapped,
    }
}

/// Bounds under which the penalty computations stay exact.
pub open spec fn penalty_config_wf(c: PenaltyConfig) -> bool {
    &&& -RATE_LIMIT <= c.base_rate.atoms <= RATE_LIMIT
    &&& -RATE_LIMIT <= c.penalty_multiplier.atoms <= RATE_LIMIT
    &&& (c.fixed_penalty_rate matches Some(f) ==> -RATE_LIMIT <= f.atoms <= RATE_LIMIT)
    &&& (c.maximum_penalty_rate matches Some(m) ==> -RATE_LIMIT <= m.atoms <= RATE_LIMIT)
    &&& -MUL_LIMIT <= c.minimum_penalty.atoms <= MUL_LIMIT
    &&& -RATE_LIMIT <= effective_rate_spec(c) <= RATE_LIMIT
}

impl PenaltyConfig {
    /// A penalty of `multiplier` times the base rate, with no grace, no
    /// minimum and no cap.
    pub fn new(base_rate: Rate, multiplier: Rate) -> (r: PenaltyConfig)
        ensures
            r.base_rate == base_rate,
            r.penalty_multiplier == multiplier,
            r.fixed_penalty_rate is None,
            r.grace_period_days == 0,
            r.minimum_penalty.atoms == 0,
            r.maximum_penalty_rate is None,
    {
        PenaltyConfig {
            base_rate,
            penalty_multiplier: multiplier,
            fixed_penalty_rate: None,
            grace_period_days: 0,
            minimum_penalty: Money::zero(),
            maximum_penalty_rate: None,
        }
    }

    /// The effective penalty rate.
    pub fn effective_penalty_rate(&self) -> (r: Rate)
        requires
            -RATE_LIMIT <= self.base_rate.atoms <= RATE_LIMIT,
            -RATE_LIMIT <= self.penalty_multiplier.atoms <= RATE_LIMIT,
        ensures
            r.atoms as int == effective_rate_spec(*self),
    {
        let uncapped = match self.fixed_penalty_rate {
            Some(f) => f,
            None => {
                proof {
                    lemma_mul_bounds(self.base_rate.atoms as int,
                        self.penalty_multiplier.atoms as int, RATE_LIMIT as int,
                        RATE_LIMIT as int);
                }
                Rate {
                    atoms: crate::money::div_round(self.base_rate.atoms
                        * self.penalty_multiplier.atoms, crate::money::SCALE),
                }
            },
        };
        match self.maximum_penalty_rate {
            Some(m) => uncapped.min_of(m),
            None => uncapped,
        }
    }
}

/// One penalty computation.
#[derive(Clone, Copy, Debug, PartialEq, Eq, Structural)]
pub struct PenaltyCalculation {
    pub penalty_amount: Money,
    pub effective_rate: Rate,
    pub days_charged: u32,
    pub overdue_base: Money,
    pub grace_applied: bool,
}

/// Penalty interest on the whole balance of a defaulted facility.
#[derive(Clone, Copy, Debug, PartialEq, Eq, Structural)]
pub struct DefaultInterest {
    pub interest_amount: Money,
    pub penalty_rate: Rate,
    pub days_in_default: u32,
    pub balance_base: Money,
}

/// A progressive penalty band.
#[derive(Clone, Debug, PartialEq)]
pub struct PenaltyTier {
    pub name: String,
    pub min_days: u32,
    pub max_days: Option<u32>,
    pub rate_multiplier: Rate,
}

/// One band's share of a tiered penalty.
#[derive(Clone, Debug, PartialEq)]
pub struct TierCalculation {
    pub tier_name: String,
    pub days_in_tier: u32,
    pub rate: Rate,
    pub penalty: Money,
}

/// The whole tiered penalty.
#[derive(Clone, Debug, PartialEq)]
pub struct TieredPenaltyResult {
    pub total_penalty: Money,
    pub tier_calculations: Vec<TierCalculation>,
    pub days_overdue: u32,
    pub overdue_amount: Money,
}

/// How many of the first `days_overdue` days fall into a tier.
pub open spec fn tier_days(t: PenaltyTier, days_overdue: int) -> int {
    if days_overdue < t.min_days {
        0
    } else {
        let upper = match t.max_days {
            Some(m) => if days_overdue <= m {
                days_overdue
            } else {
                m as int
            },
            None => days_overdue,
        };
        upper - t.min_days + 1
    }
}

/// A tier's rate: the base rate scaled by the tier's multiplier.
pub open spec fn tier_rate(t: PenaltyTier, base: int) -> int {
    mul_scaled(base, t.rate_multiplier.atoms as int)
}

/// A tier's penalty share on `overdue` after `days_overdue` days.
pub open spec fn tier_penalty(t: PenaltyTier, overdue: int, days_overdue: int, base: int)
    -> int {
    simple_interest(overdue, tier_rate(t, base), tier_days(t, days_overdue), 365)
}

/// The sum of the shares of every applicable tier.
pub open spec fn tiers_total(tiers: Seq<PenaltyTier>, overdue: int, days_overdue: int,
    base: int) -> int
    decreases tiers.len(),
{
    if tiers.len() == 0 {
        0
    } else {
        tiers_total(tiers.drop_last(), overdue, days_overdue, base) + if days_overdue
            >= tiers.last().min_days {
            tier_penalty(tiers.last(), overdue, days_overdue, base)
        } else {
            0
        }
    }
}

/// The per-tier records of a tiered penalty: for each tier the overdue
/// days reach, its name, the days that fall into it, its scaled rate and
/// its share.
pub open spec fn tier_records(tiers: Seq<PenaltyTier>, overdue: int, days_overdue: int,
    base: int) -> Seq<(Seq<char>, int, int, int)>
    decreases tiers.len(),
{
    if tiers.len() == 0 {
        Seq::empty()
    } else {
        let rest = tier_records(tiers.drop_last(), overdue, days_overdue, base);
        if days_overdue >= tiers.last().min_days {
            rest.push((tiers.last().name@, tier_days(tiers.last(), days_overdue),
                tier_rate(tiers.last(), base), tier_penalty(tiers.last(), overdue,
                days_overdue, base)))
        } else {
            rest
        }
    }
}

/// Bounds under which a tier computes exactly against a base rate.
pub open spec fn tier_wf(t: PenaltyTier, base: int) -> bool {
    &&& -RATE_LIMIT <= t.rate_multiplier.atoms <= RATE_LIMIT
    &&& t.min_days >= 1
    &&& (t.max_days matches Some(m) ==> m >= t.min_days)
    &&& -RATE_LIMIT <= tier_rate(t, base) <= RATE_LIMIT
}

/// Engine for penalty interest.
pub struct PenaltyEngine {
    pub config: PenaltyConfig,
}

impl PenaltyEngine {
    /// An engine over the given configuration.
    pub fn new(config: PenaltyConfig) -> (r: PenaltyEngine)
        ensures
            r.config == config,
    {
        PenaltyEngine { config }
    }

    /// Penalty on an overdue amount: nothing within grace; past grace,
    /// simple interest at the effective rate for the days past grace,
    /// floored at the configured minimum.
    pub fn calculate_penalty(&self, overdue_amount: Money, days_overdue: u32)
        -> (r: PenaltyCalculation)
        requires
            penalty_config_wf(self.config),
            -MUL_LIMIT <= overdue_amount.atoms <= MUL_LIMIT,
            days_overdue <= DAYS_LIMIT,
        ensures
            r.overdue_base == overdue_amount,
            r.grace_applied <==> days_overdue <= self.config.grace_period_days,
            days_overdue <= self.config.grace_period_days ==> r.penalty_amount.atoms == 0
                && r.effective_rate.atoms == 0 && r.days_charged == 0,
            days_overdue > self.config.grace_period_days ==> {
                let charged = days_overdue - self.config.grace_period_days;
                let raw = simple_interest(overdue_amount.atoms as int,
                    effective_rate_spec(self.config), charged, 365);
                &&& r.days_charged == charged
                &&& r.effective_rate.atoms == effective_rate_spec(self.config)
                &&& r.penalty_amount.atoms == if raw >= self.config.minimum_penalty.atoms {
                    raw
                } else {
                    self.config.minimum_penalty.atoms as int
                }
            },
    {
        if days_overdue <= self.config.grace_period_days {
            return PenaltyCalculation {
                penalty_amount: Money::zero(),
                effective_rate: Rate::zero(),
                days_charged: 0,
                overdue_base: overdue_amount,
                grace_applied: true,
            };
        }
        let days_charged = days_overdue - self.config.grace_period_days;
        let penalty_rate = self.config.effective_penalty_rate();
        let raw = overdue_amount.interest_for_days(penalty_rate, days_charged, 365);
        PenaltyCalculation {
            penalty_amount: raw.max_of(self.config.minimum_penalty),
            effective_rate: penalty_rate,
            days_charged,
            overdue_base: overdue_amount,
            grace_applied: false,
        }
    }

    /// Interest at the effective penalty rate on the whole outstanding
    /// balance, with no grace and no minimum.
    pub fn calculate_default_interest(&self, outstanding_balance: Money, days_in_default: u32)
        -> (r: DefaultInterest)
        requires
            penalty_config_wf(self.config),
            -MUL_LIMIT <= outstanding_balance.atoms <= MUL_LIMIT,
            days_in_default <= DAYS_LIMIT,
        ensures
            r.balance_base == outstanding_balance,
            r.days_in_default == days_in_default,
            r.penalty_rate.atoms == effective_rate_spec(self.config),
            r.interest_amount.atoms == simple_interest(outstanding_balance.atoms as int,
                effective_rate_spec(self.config), days_in_default as int, 365),
    {
        let penalty_rate = self.config.effective_penalty_rate();
        DefaultInterest {
            interest_amount: outstanding_balance.interest_for_days(penalty_rate,
                days_in_default, 365),
            penalty_rate,
            days_in_default,
            balance_base: outstanding_balance,
        }
    }

    /// Progressive penalty: each tier charges its scaled rate for the days
    /// that fall into its band, and the sum is floored at the configured
    /// minimum.
    pub fn calculate_tiered_penalty(&self, overdue_amount: Money, days_overdue: u32,
        tiers: &Vec<PenaltyTier>) -> (r: TieredPenaltyResult)
        requires
            penalty_config_wf(self.config),
            -MUL_LIMIT <= overdue_amount.atoms <= MUL_LIMIT,
            days_overdue <= DAYS_LIMIT,
            tiers@.len() <= 100,
            forall|i: int| 0 <= i < tiers@.len() ==> tier_wf(#[trigger] tiers@[i],
                self.config.base_rate.atoms as int),
        ensures
            r.days_overdue == days_overdue,
            r.overdue_amount == overdue_amount,
            ({
                let total = tiers_total(tiers@, overdue_amount.atoms as int,
                    days_overdue as int, self.config.base_rate.atoms as int);
                r.total_penalty.atoms == if total >= self.config.minimum_penalty.atoms {
                    total
                } else {
                    self.config.minimum_penalty.atoms as int
                }
            }),
            ({
                let recs = tier_records(tiers@, overdue_amount.atoms as int,
                    days_overdue as int, self.config.base_rate.atoms as int);
                &&& r.tier_calculations@.len() == recs.len()
                &&& forall|i: int| 0 <= i < recs.len() ==> {
                    &&& (#[trigger] r.tier_calculations@[i]).tier_name@ == recs[i].0
                    &&& r.tier_calculations@[i].days_in_tier as int == recs[i].1
                    &&& r.tier_calculations@[i].rate.atoms as int == recs[i].2
                    &&& r.tier_calculations@[i].penalty.atoms as int == recs[i].3
                }
            }),
    {
        let mut total: i128 = 0;
        let mut tier_results: Vec<TierCalculation> = Vec::new();
        let mut i: usize = 0;
        while i < tiers.len()
            invariant
                0 <= i <= tiers@.len(),
                penalty_config_wf(self.config),
                -MUL_LIMIT <= overdue_amount.atoms <= MUL_LIMIT,
                days_overdue <= DAYS_LIMIT,
                tiers@.len() <= 100,
                forall|j: int| 0 <= j < tiers@.len() ==> tier_wf(#[trigger] tiers@[j],
                    self.config.base_rate.atoms as int),
                total as int == tiers_total(tiers@.take(i as int), overdue_amount.atoms as int,
                    days_overdue as int, self.config.base_rate.atoms as int),
                -(i as int) * 3_000_000_000_000_000_000_000_000_000 <= total <= (i as int)
                    * 3_000_000_000_000_000_000_000_000_000,
                ({
                    let recs = tier_records(tiers@.take(i as int),
                        overdue_amount.atoms as int, days_overdue as int,
                        self.config.base_rate.atoms as int);
                    &&& tier_results@.len() == recs.len()
                    &&& forall|j: int| 0 <= j < recs.len() ==> {
                        &&& (#[trigger] tier_results@[j]).tier_name@ == recs[j].0
                        &&& tier_results@[j].days_in_tier as int == recs[j].1
                        &&& tier_results@[j].rate.atoms as int == recs[j].2
                        &&& tier_results@[j].penalty.atoms as int == recs[j].3
                    }
                }),
            decreases tiers@.len() - i,
        {
            let tier = &tiers[i];
            proof {
                assert(tiers@.take(i + 1).drop_last() =~= tiers@.take(i as int));
                assert(tiers@.take(i + 1).last() == tiers@[i as int]);
            }
            if days_overdue >= tier.min_days {
                let days_in_tier: u32 = match tier.max_days {
                    Some(m) => {
                        let capped = if days_overdue <= m {
                            days_overdue
                        } else {
                            m
                        };
                        if capped >= tier.min_days {
                            capped - tier.min_days + 1
                        } else {
                            0
                        }
                    },
                    None => days_overdue - tier.min_days + 1,
                };
                proof {
                    lemma_mul_bounds(self.config.base_rate.atoms as int,
                        tier.rate_multiplier.atoms as int, RATE_LIMIT as int,
                        RATE_LIMIT as int);
                }
                let t_rate = Rate {
                    atoms: crate::money::div_round(self.config.base_rate.atoms
                        * tier.rate_multiplier.atoms, crate::money::SCALE),
                };
                proof {
                    assert(days_in_tier <= days_overdue);
                }
                let t_penalty = overdue_amount.interest_for_days(t_rate, days_in_tier, 365);
                proof {
                    lemma_simple_interest_bound(overdue_amount.atoms as int,
                        t_rate.atoms as int, days_in_tier as int);
                    assert(tier_days(tiers@[i as int], days_overdue as int)
                        == days_in_tier as int);
                }
                total = total + t_penalty.atoms;
                tier_results.push(TierCalculation {
                    tier_name: tier.name.clone(),
                    days_in_tier,
                    rate: t_rate,
                    penalty: t_penalty,
                });
            }
            i = i + 1;
        }
        proof {
            assert(tiers@.take(tiers@.len() as int) =~= tiers@);
        }
        let total_money = Money { atoms: total };
        TieredPenaltyResult {
            total_penalty: total_money.max_of(self.config.minimum_penalty),
            tier_calculations: tier_results,
            days_overdue,
            overdue_amount,
        }
    }
}

/// Simple interest at a bounded rate over a bounded span stays within a
/// fixed magnitude.
proof fn lemma_simple_interest_bound(p: int, r: int, d: int)
    requires
        -MUL_LIMIT <= p <= MUL_LIMIT,
        -RATE_LIMIT <= r <= RATE_LIMIT,
        0 <= d <= DAYS_LIMIT,
    ensures
        -3_000_000_000_000_000_000_000_000_000 <= simple_interest(p, r, d, 365)
            <= 3_000_000_000_000_000_000_000_000_000,
{
    lemma_mul_bounds(p, r, MUL_LIMIT as int, RATE_LIMIT as int);
    lemma_mul_bounds(p * r, d, (MUL_LIMIT as int) * (RATE_LIMIT as int), DAYS_LIMIT as int);
    crate::money::lemma_round_half_div_bound(p * r * d, 365 * (crate::money::SCALE as int),
        (MUL_LIMIT as int) * (RATE_LIMIT as int) * (DAYS_LIMIT as int));
}

impl InterestCalculator for PenaltyEngine {
    /// Penalty interest between the two instants at the effective rate.
    fn calculate_interest(&self, principal: Money, _rate: Rate, start_ts: i64, end_ts: i64)
        -> (r: Result<InterestCalculation, FacilityError>)
    {
        if !(0 <= start_ts && start_ts <= end_ts && end_ts <= MAX_TIMESTAMP) {
            return Err(FacilityError::InvalidDate { message: String::new() });
        }
        if principal.atoms < -MUL_LIMIT || principal.atoms > MUL_LIMIT
            || !penalty_config_check(&self.config) {
            return Err(FacilityError::CalculationError { message: String::new() });
        }
        let days = days_between(start_ts, end_ts);
        if days > DAYS_LIMIT as i64 {
            return Err(FacilityError::CalculationError { message: String::new() });
        }
        let penalty_rate = self.config.effective_penalty_rate();
        let interest = principal.interest_for_days(penalty_rate, days as u32, 365);
        Ok(InterestCalculation {
            interest_amount: interest,
            daily_rate: penalty_rate.div_int(365),
            days: days as u32,
            principal_base: principal,
        })
    }

    fn get_daily_rate(&self, annual_rate: Rate) -> (r: Rate) {
        if annual_rate.atoms < -RATE_LIMIT || annual_rate.atoms > RATE_LIMIT {
            return Rate::zero();
        }
        annual_rate.div_int(365)
    }
}

/// The runtime counterpart of `penalty_config_wf`.
pub fn penalty_config_check(c: &PenaltyConfig) -> (r: bool)
    ensures
        r == penalty_config_wf(*c),
{
    let base_ok = -RATE_LIMIT <= c.base_rate.atoms && c.base_rate.atoms <= RATE_LIMIT;
    let mult_ok = -RATE_LIMIT <= c.penalty_multiplier.atoms && c.penalty_multiplier.atoms
        <= RATE_LIMIT;
    let fixed_ok = match c.fixed_penalty_rate {
        Some(f) => -RATE_LIMIT <= f.atoms && f.atoms <= RATE_LIMIT,
        None => true,
    };
    let max_ok = match c.maximum_penalty_rate {
        Some(m) => -RATE_LIMIT <= m.atoms && m.atoms <= RATE_LIMIT,
        None => true,
    };
    let min_ok = -MUL_LIMIT <= c.minimum_penalty.atoms && c.minimum_penalty.atoms <= MUL_LIMIT;
    if !(base_ok && mult_ok && fixed_ok && max_ok && min_ok) {
        return false;
    }
    let eff = c.effective_penalty_rate();
    -RATE_LIMIT <= eff.atoms && eff.atoms <= RATE_LIMIT
}

} // verus!
