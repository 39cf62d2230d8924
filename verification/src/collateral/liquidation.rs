//! The liquidation state machine and its proceeds waterfall.

use vstd::prelude::*;
use crate::clock::provider_now;
use crate::errors::FacilityError;
use crate::events::{Event, EventStore};
use crate::money::{
    div_round, lemma_mul_bounds, lemma_round_half_div_bound, mul_scaled, Money, Rate,
    MUL_LIMIT, RATE_LIMIT, SCALE,
};
use crate::types::{DeficiencyBalance, FacilityId, PaymentApplication, RecoveryStatus};

verus! {

/// How collateral is sold.
#[derive(Clone, Copy, Debug, PartialEq, Eq, Structural)]
pub enum LiquidationMethod {
    /// Sell at market, estimating proceeds with a five percent discount.
    MarketSale,
    /// The winning bid supplies the gross proceeds.
    Auction,
    /// A privately negotiated sale.
    PrivateSale,
    /// Sell a portion; the caller supplies its proceeds.
    Partial,
}

/// Where a liquidation stands.
#[derive(Clone, Copy, Debug, PartialEq, Eq, Structural)]
pub enum LiquidationStatus {
    NotInitiated,
    GracePeriod,
    InProgress,
    Completed,
}

/// The figures of a finished liquidation.
#[derive(Clone, Copy, Debug, PartialEq, Eq, Structural)]
pub struct LiquidationResult {
    pub method: LiquidationMethod,
    pub gross_proceeds: Money,
    pub liquidation_costs: Money,
    pub net_proceeds: Money,
    pub cvl_before: Money,
    pub cvl_after: Money,
    pub deficiency: Option<Money>,
    pub surplus: Option<Money>,
    pub timestamp: i64,
}

/// The costs taken out of gross proceeds at the given cost rate.
pub open spec fn liquidation_costs_of(gross: int, cost_rate: int) -> int {
    mul_scaled(gross, cost_rate)
}

/// The debt left after net proceeds are applied, clamped at zero.
pub open spec fn cvl_after_of(cvl: int, net: int) -> int {
    if net >= cvl {
        0
    } else {
        cvl - net
    }
}

/// The borrower's surplus: net proceeds beyond the debt.
pub open spec fn surplus_of(cvl: int, net: int) -> int {
    if net > cvl {
        net - cvl
    } else {
        0
    }
}

/// Runs a facility's liquidation from trigger to completion.
pub struct LiquidationEngine {
    pub facility_id: FacilityId,
    pub status: LiquidationStatus,
    pub grace_period_hours: u32,
    pub grace_period_end: Option<i64>,
    pub liquidation_cost_rate: Rate,
    pub events: EventStore,
}

impl LiquidationEngine {
    /// A fresh engine: not initiated, one day of grace, five percent
    /// costs.
    pub fn new(facility_id: FacilityId) -> (r: LiquidationEngine)
        ensures
            r.facility_id == facility_id,
            r.status == LiquidationStatus::NotInitiated,
            r.grace_period_hours == 24,
            r.grace_period_end is None,
            r.liquidation_cost_rate.atoms == 5_000_000,
            r.events.events@ == Seq::<Event>::empty(),
    {
        LiquidationEngine {
            facility_id,
            status: LiquidationStatus::NotInitiated,
            grace_period_hours: 24,
            grace_period_end: None,
            liquidation_cost_rate: Rate { atoms: 5_000_000 },
            events: EventStore::new(),
        }
    }

    /// Change the grace period.
    pub fn set_grace_period(&mut self, hours: u32)
        ensures
            final(self).grace_period_hours == hours,
            final(self).status == old(self).status,
            final(self).grace_period_end == old(self).grace_period_end,
            final(self).liquidation_cost_rate == old(self).liquidation_cost_rate,
            final(self).facility_id == old(self).facility_id,
            final(self).events.events@ == old(self).events.events@,
    {
        self.grace_period_hours = hours;
    }

    /// Change the liquidation cost rate.
    pub fn set_liquidation_cost_rate(&mut self, rate: Rate)
        ensures
            final(self).liquidation_cost_rate == rate,
            final(self).status == old(self).status,
            final(self).grace_period_hours == old(self).grace_period_hours,
            final(self).grace_period_end == old(self).grace_period_end,
            final(self).facility_id == old(self).facility_id,
            final(self).events.events@ == old(self).events.events@,
    {
        self.liquidation_cost_rate = rate;
    }

    /// Start a liquidation at the instant `now`: with grace configured it
    /// enters the grace period with a deadline that many hours out, else
    /// the sale starts at once; either way the trigger is recorded. Fails
    /// exactly where a liquidation already ran or runs, or the collateral
    /// value is not positive.
    pub fn trigger_liquidation_at(&mut self, cvl: Money, collateral_value: Money, now: i64)
        -> (r: Result<(), FacilityError>)
        requires
            -MUL_LIMIT <= cvl.atoms <= MUL_LIMIT,
            -MUL_LIMIT <= collateral_value.atoms <= MUL_LIMIT,
            0 <= now <= crate::dates::MAX_TIMESTAMP,
        ensures
            r is Err <==> old(self).status != LiquidationStatus::NotInitiated
                || collateral_value.atoms <= 0,
            r is Err ==> *final(self) == *old(self),
            r is Ok ==> {
                &&& (old(self).grace_period_hours > 0 ==> final(self).status
                    == LiquidationStatus::GracePeriod && final(self).grace_period_end
                    == Some((now + old(self).grace_period_hours * 3600) as i64))
                &&& (old(self).grace_period_hours == 0 ==> final(self).status
                    == LiquidationStatus::InProgress)
                &&& final(self).facility_id == old(self).facility_id
                &&& final(self).grace_period_hours == old(self).grace_period_hours
                &&& final(self).liquidation_cost_rate == old(self).liquidation_cost_rate
                &&& final(self).events.events@.len() == old(self).events.events@.len() + 2
                &&& ({
                    let base = old(self).events.events@.len() as int;
                    &&& (old(self).grace_period_hours > 0 ==> (final(
                        self).events.events@[base] matches Event::LiquidationPending {
                        notice_period_ends, .. } && notice_period_ends as int == now
                        + old(self).grace_period_hours * 3600))
                    &&& (old(self).grace_period_hours == 0 ==> (final(
                        self).events.events@[base] matches Event::CollateralSaleInitiated {
                        immediate, expected_proceeds, .. } && immediate
                        && expected_proceeds == collateral_value))
                    &&& (final(self).events.events@[base + 1] matches
                        Event::LiquidationTriggered { debt_amount, ltv_ratio, .. }
                        && debt_amount == cvl && ltv_ratio.atoms as int
                        == crate::collateral::ltv::ltv_of(cvl.atoms as int,
                        collateral_value.atoms as int))
                })
            },
    {
        if !matches!(self.status, LiquidationStatus::NotInitiated) {
            return Err(FacilityError::InvalidState {
                current: String::new(),
                expected: String::new(),
            });
        }
        if collateral_value.atoms <= 0 {
            return Err(FacilityError::InvalidCollateral { message: String::new() });
        }
        if self.grace_period_hours > 0 {
            self.status = LiquidationStatus::GracePeriod;
            let deadline = now + (self.grace_period_hours as i64) * 3600;
            self.grace_period_end = Some(deadline);
            self.events.emit(Event::LiquidationPending {
                facility_id: self.facility_id,
                notice_period_ends: deadline,
                timestamp: now,
            });
        } else {
            self.status = LiquidationStatus::InProgress;
            self.events.emit(Event::CollateralSaleInitiated {
                facility_id: self.facility_id,
                immediate: true,
                expected_proceeds: collateral_value,
                timestamp: now,
            });
        }
        proof {
            lemma_mul_bounds(cvl.atoms as int, SCALE as int, MUL_LIMIT as int, SCALE as int);
        }
        let ltv = Rate { atoms: div_round(cvl.atoms * SCALE, collateral_value.atoms) };
        self.events.emit(Event::LiquidationTriggered {
            facility_id: self.facility_id,
            ltv_ratio: ltv,
            collateral_value,
            debt_amount: cvl,
            timestamp: now,
        });
        Ok(())
    }

    /// Start a liquidation against the provider's current instant.
    pub fn trigger_liquidation(&mut self, cvl: Money, collateral_value: Money,
        time_provider: &hourglass_rs::SafeTimeProvider) -> (r: Result<(), FacilityError>)
        requires
            -MUL_LIMIT <= cvl.atoms <= MUL_LIMIT,
            -MUL_LIMIT <= collateral_value.atoms <= MUL_LIMIT,
        ensures
            old(self).status != LiquidationStatus::NotInitiated || collateral_value.atoms <= 0
                ==> r is Err,
            r is Ok ==> (old(self).grace_period_hours > 0 ==> final(self).status
                == LiquidationStatus::GracePeriod) && (old(self).grace_period_hours == 0 ==>
                final(self).status == LiquidationStatus::InProgress),
    {
        let now = provider_now(time_provider);
        if now < 0 || now > crate::dates::MAX_TIMESTAMP {
            return Err(FacilityError::InvalidDate { message: String::new() });
        }
        self.trigger_liquidation_at(cvl, collateral_value, now)
    }

    /// Whether the grace period has run out by `now`; if so, the sale
    /// starts.
    pub fn check_grace_period_at(&mut self, now: i64) -> (r: bool)
        ensures
            r <==> old(self).status == LiquidationStatus::GracePeriod
                && (old(self).grace_period_end matches Some(end) && now > end),
            r ==> final(self).status == LiquidationStatus::InProgress
                && final(self).events.events@.len() == old(self).events.events@.len() + 1
                && (final(self).events.events@.last() matches
                Event::CollateralSaleInitiated { immediate, .. } && !immediate),
            !r ==> *final(self) == *old(self),
            final(self).facility_id == old(self).facility_id,
            final(self).grace_period_end == old(self).grace_period_end,
            final(self).liquidation_cost_rate == old(self).liquidation_cost_rate,
    {
        if !matches!(self.status, LiquidationStatus::GracePeriod) {
            return false;
        }
        if let Some(end) = self.grace_period_end {
            if now > end {
                self.status = LiquidationStatus::InProgress;
                self.events.emit(Event::CollateralSaleInitiated {
                    facility_id: self.facility_id,
                    immediate: false,
                    expected_proceeds: Money::zero(),
                    timestamp: now,
                });
                return true;
            }
        }
        false
    }

    /// Whether the grace period has run out, against the provider's
    /// current instant.
    pub fn check_grace_period(&mut self, time_provider: &hourglass_rs::SafeTimeProvider)
        -> (r: Result<bool, FacilityError>)
        ensures
            r matches Ok(true) ==> final(self).status == LiquidationStatus::InProgress,
            r matches Ok(false) ==> *final(self) == *old(self),
    {
        let now = provider_now(time_provider);
        Ok(self.check_grace_period_at(now))
    }

    /// Finish a liquidation at `now` with the given gross proceeds:
    /// costs come off at the engine's cost rate, the net retires debt,
    /// and what the net could not cover stays as a deficiency while
    /// anything beyond the debt is the borrower's surplus.
    pub fn complete_liquidation_at(&mut self, method: LiquidationMethod,
        gross_proceeds: Money, cvl: Money, now: i64) -> (r: Result<LiquidationResult,
        FacilityError>)
        requires
            0 <= gross_proceeds.atoms <= MUL_LIMIT,
            0 <= cvl.atoms <= MUL_LIMIT,
            0 <= self.liquidation_cost_rate.atoms <= RATE_LIMIT,
        ensures
            r is Err <==> old(self).status != LiquidationStatus::InProgress,
            r is Err ==> *final(self) == *old(self),
            r matches Ok(res) ==> {
                let costs = liquidation_costs_of(gross_proceeds.atoms as int,
                    old(self).liquidation_cost_rate.atoms as int);
                let net = gross_proceeds.atoms - costs;
                &&& res.method == method
                &&& res.gross_proceeds == gross_proceeds
                &&& res.liquidation_costs.atoms == costs
                &&& res.net_proceeds.atoms == net
                &&& res.cvl_before == cvl
                &&& res.cvl_after.atoms == cvl_after_of(cvl.atoms as int, net)
                &&& res.deficiency == (if cvl_after_of(cvl.atoms as int, net) > 0 {
                    Some(Money { atoms: cvl_after_of(cvl.atoms as int, net) as i128 })
                } else {
                    Option::<Money>::None
                })
                &&& res.surplus == (if surplus_of(cvl.atoms as int, net) > 0 {
                    Some(Money { atoms: surplus_of(cvl.atoms as int, net) as i128 })
                } else {
                    Option::<Money>::None
                })
                &&& res.timestamp == now
                &&& final(self).status == LiquidationStatus::Completed
                &&& final(self).facility_id == old(self).facility_id
                &&& ({
                    let base = old(self).events.events@.len() as int;
                    let after = cvl_after_of(cvl.atoms as int, net);
                    &&& (final(self).events.events@[base] matches
                        Event::LiquidationCompleted { proceeds, remaining_debt, .. }
                        && proceeds.atoms as int == net && remaining_debt.atoms as int
                        == after)
                    &&& (after > 0 ==> final(self).events.events@.len() == base + 2
                        && (final(self).events.events@[base + 1] matches
                        Event::DeficiencyBalance { amount, recovery_status, .. }
                        && amount.atoms as int == after && recovery_status
                        == crate::types::RecoveryStatus::Pursuing))
                    &&& (after == 0 ==> final(self).events.events@.len() == base + 1)
                })
            },
    {
        if !matches!(self.status, LiquidationStatus::InProgress) {
            return Err(FacilityError::InvalidState {
                current: String::new(),
                expected: String::new(),
            });
        }
        proof {
            lemma_mul_bounds(gross_proceeds.atoms as int, self.liquidation_cost_rate.atoms as int,
                MUL_LIMIT as int, RATE_LIMIT as int);
            lemma_round_half_div_bound(gross_proceeds.atoms * self.liquidation_cost_rate.atoms,
                SCALE as int, (MUL_LIMIT as int) * (RATE_LIMIT as int));
        }
        let costs = div_round(gross_proceeds.atoms * self.liquidation_cost_rate.atoms, SCALE);
        let net = gross_proceeds.atoms - costs;
        let cvl_after: i128 = if net >= cvl.atoms {
            0
        } else {
            cvl.atoms - net
        };
        let deficiency = if cvl_after > 0 {
            Some(Money { atoms: cvl_after })
        } else {
            None
        };
        let surplus = if net > cvl.atoms {
            Some(Money { atoms: net - cvl.atoms })
        } else {
            None
        };
        self.status = LiquidationStatus::Completed;
        let result = LiquidationResult {
            method,
            gross_proceeds,
            liquidation_costs: Money { atoms: costs },
            net_proceeds: Money { atoms: net },
            cvl_before: cvl,
            cvl_after: Money { atoms: cvl_after },
            deficiency,
            surplus,
            timestamp: now,
        };
        self.events.emit(Event::LiquidationCompleted {
            facility_id: self.facility_id,
            proceeds: Money { atoms: net },
            remaining_debt: Money { atoms: cvl_after },
            timestamp: now,
        });
        if let Some(def) = deficiency {
            self.events.emit(Event::DeficiencyBalance {
                facility_id: self.facility_id,
                amount: def,
                recovery_status: RecoveryStatus::Pursuing,
                timestamp: now,
            });
        }
        Ok(result)
    }

    /// Sell at market: gross proceeds are the collateral value less a
    /// five percent market discount.
    pub fn execute_market_liquidation(&mut self, collateral_value: Money, cvl: Money,
        time_provider: &hourglass_rs::SafeTimeProvider) -> (r: Result<LiquidationResult,
        FacilityError>)
        requires
            0 <= collateral_value.atoms <= MUL_LIMIT,
            0 <= cvl.atoms <= MUL_LIMIT,
            0 <= self.liquidation_cost_rate.atoms <= RATE_LIMIT,
        ensures
            r is Err <==> old(self).status != LiquidationStatus::InProgress,
            r is Err ==> *final(self) == *old(self),
            r matches Ok(res) ==> {
                let gross = mul_scaled(collateral_value.atoms as int, 95_000_000);
                let net = gross - liquidation_costs_of(gross,
                    old(self).liquidation_cost_rate.atoms as int);
                &&& res.method == LiquidationMethod::MarketSale
                &&& res.gross_proceeds.atoms == gross
                &&& res.liquidation_costs.atoms == liquidation_costs_of(gross,
                    old(self).liquidation_cost_rate.atoms as int)
                &&& res.net_proceeds.atoms == net
                &&& res.cvl_before == cvl
                &&& res.cvl_after.atoms == cvl_after_of(cvl.atoms as int, net)
                &&& res.deficiency == (if cvl_after_of(cvl.atoms as int, net) > 0 {
                    Some(Money { atoms: cvl_after_of(cvl.atoms as int, net) as i128 })
                } else {
                    Option::<Money>::None
                })
                &&& res.surplus == (if surplus_of(cvl.atoms as int, net) > 0 {
                    Some(Money { atoms: surplus_of(cvl.atoms as int, net) as i128 })
                } else {
                    Option::<Money>::None
                })
                &&& final(self).status == LiquidationStatus::Completed
            },
    {
        let gross = collateral_value.times(Rate { atoms: 95_000_000 });
        proof {
            lemma_mul_bounds(collateral_value.atoms as int, 95_000_000, MUL_LIMIT as int,
                95_000_000);
            lemma_round_half_div_bound(collateral_value.atoms * 95_000_000, SCALE as int,
                (MUL_LIMIT as int) * 95_000_000);
        }
        let now = provider_now(time_provider);
        self.complete_liquidation_at(LiquidationMethod::MarketSale, gross, cvl, now)
    }

    /// Sell at auction: the winning bid supplies the gross proceeds.
    pub fn execute_auction_liquidation(&mut self, winning_bid: Money, cvl: Money,
        time_provider: &hourglass_rs::SafeTimeProvider) -> (r: Result<LiquidationResult,
        FacilityError>)
        requires
            0 <= winning_bid.atoms <= MUL_LIMIT,
            0 <= cvl.atoms <= MUL_LIMIT,
            0 <= self.liquidation_cost_rate.atoms <= RATE_LIMIT,
        ensures
            r is Err <==> old(self).status != LiquidationStatus::InProgress,
            r is Err ==> *final(self) == *old(self),
            r matches Ok(res) ==> {
                let net = winning_bid.atoms - liquidation_costs_of(winning_bid.atoms as int,
                    old(self).liquidation_cost_rate.atoms as int);
                &&& res.method == LiquidationMethod::Auction
                &&& res.gross_proceeds == winning_bid
                &&& res.net_proceeds.atoms == net
                &&& res.cvl_before == cvl
                &&& res.cvl_after.atoms == cvl_after_of(cvl.atoms as int, net)
                &&& res.deficiency == (if cvl_after_of(cvl.atoms as int, net) > 0 {
                    Some(Money { atoms: cvl_after_of(cvl.atoms as int, net) as i128 })
                } else {
                    Option::<Money>::None
                })
                &&& res.surplus == (if surplus_of(cvl.atoms as int, net) > 0 {
                    Some(Money { atoms: surplus_of(cvl.atoms as int, net) as i128 })
                } else {
                    Option::<Money>::None
                })
                &&& final(self).status == LiquidationStatus::Completed
            },
    {
        let now = provider_now(time_provider);
        self.complete_liquidation_at(LiquidationMethod::Auction, winning_bid, cvl, now)
    }

    /// Sell a portion: the caller supplies the sale's proceeds.
    pub fn execute_partial_liquidation(&mut self, proceeds: Money, cvl: Money,
        time_provider: &hourglass_rs::SafeTimeProvider) -> (r: Result<LiquidationResult,
        FacilityError>)
        requires
            0 <= proceeds.atoms <= MUL_LIMIT,
            0 <= cvl.atoms <= MUL_LIMIT,
            0 <= self.liquidation_cost_rate.atoms <= RATE_LIMIT,
        ensures
            r is Err <==> old(self).status != LiquidationStatus::InProgress,
            r is Err ==> *final(self) == *old(self),
            r matches Ok(res) ==> {
                let net = proceeds.atoms - liquidation_costs_of(proceeds.atoms as int,
                    old(self).liquidation_cost_rate.atoms as int);
                &&& res.method == LiquidationMethod::Partial
                &&& res.gross_proceeds == proceeds
                &&& res.net_proceeds.atoms == net
                &&& res.cvl_before == cvl
                &&& res.cvl_after.atoms == cvl_after_of(cvl.atoms as int, net)
                &&& res.deficiency == (if cvl_after_of(cvl.atoms as int, net) > 0 {
                    Some(Money { atoms: cvl_after_of(cvl.atoms as int, net) as i128 })
                } else {
                    Option::<Money>::None
                })
                &&& res.surplus == (if surplus_of(cvl.atoms as int, net) > 0 {
                    Some(Money { atoms: surplus_of(cvl.atoms as int, net) as i128 })
                } else {
                    Option::<Money>::None
                })
                &&& final(self).status == LiquidationStatus::Completed
            },
    {
        let now = provider_now(time_provider);
        self.complete_liquidation_at(LiquidationMethod::Partial, proceeds, cvl, now)
    }

    /// Whether a sale can run right now.
    pub fn check_can_liquidate(&self) -> (r: Result<(), FacilityError>)
        ensures
            r is Ok <==> self.status == LiquidationStatus::InProgress,
    {
        if matches!(self.status, LiquidationStatus::InProgress) {
            Ok(())
        } else {
            Err(FacilityError::InvalidState {
                current: String::new(),
                expected: String::new(),
            })
        }
    }

    /// Apply liquidation proceeds: costs first (kept out of the tally),
    /// then penalties, fees, interest and principal in that order; the
    /// rest is excess owed back.
    pub fn apply_proceeds_waterfall(&self, proceeds: Money, liquidation_costs: Money,
        penalties: Money, fees: Money, interest: Money, principal: Money)
        -> (r: PaymentApplication)
        requires
            0 <= proceeds.atoms <= MUL_LIMIT,
            0 <= liquidation_costs.atoms <= MUL_LIMIT,
            0 <= penalties.atoms <= MUL_LIMIT,
            0 <= fees.atoms <= MUL_LIMIT,
            0 <= interest.atoms <= MUL_LIMIT,
            0 <= principal.atoms <= MUL_LIMIT,
        ensures
            ({
                let after_costs = if proceeds.atoms >= liquidation_costs.atoms {
                    proceeds.atoms - liquidation_costs.atoms
                } else {
                    0
                };
                let to_pen = vstd::math::min(after_costs as int, penalties.atoms as int);
                let to_fees = vstd::math::min(after_costs - to_pen, fees.atoms as int);
                let to_int = vstd::math::min(after_costs - to_pen - to_fees,
                    interest.atoms as int);
                let to_prin = vstd::math::min(after_costs - to_pen - to_fees - to_int,
                    principal.atoms as int);
                &&& r.to_penalties.atoms == to_pen
                &&& r.to_fees.atoms == to_fees
                &&& r.to_interest.atoms == to_int
                &&& r.to_principal.atoms == to_prin
                &&& r.excess.atoms == after_costs - to_pen - to_fees - to_int - to_prin
                &&& r.to_penalties.atoms + r.to_fees.atoms + r.to_interest.atoms
                    + r.to_principal.atoms + r.excess.atoms == after_costs
            }),
    {
        let mut remaining: i128 = if proceeds.atoms >= liquidation_costs.atoms {
            proceeds.atoms - liquidation_costs.atoms
        } else {
            0
        };
        let to_penalties = if remaining <= penalties.atoms {
            remaining
        } else {
            penalties.atoms
        };
        remaining = remaining - to_penalties;
        let to_fees = if remaining <= fees.atoms {
            remaining
        } else {
            fees.atoms
        };
        remaining = remaining - to_fees;
        let to_interest = if remaining <= interest.atoms {
            remaining
        } else {
            interest.atoms
        };
        remaining = remaining - to_interest;
        let to_principal = if remaining <= principal.atoms {
            remaining
        } else {
            principal.atoms
        };
        remaining = remaining - to_principal;
        PaymentApplication {
            to_fees: Money { atoms: to_fees },
            to_penalties: Money { atoms: to_penalties },
            to_interest: Money { atoms: to_interest },
            to_principal: Money { atoms: to_principal },
            excess: Money { atoms: remaining },
        }
    }

    /// The deficiency record that survives a liquidation that could not
    /// clear the debt.
    pub fn create_deficiency_balance(&self, remaining_debt: Money, collateral_proceeds: Money,
        liquidation_date: i64) -> (r: DeficiencyBalance)
        ensures
            r.original_loan_id == self.facility_id,
            r.liquidation_date == liquidation_date,
            r.collateral_proceeds == collateral_proceeds,
            r.remaining_debt == remaining_debt,
            r.recovery_status == RecoveryStatus::Pursuing,
    {
        DeficiencyBalance {
            original_loan_id: self.facility_id,
            liquidation_date,
            collateral_proceeds,
            remaining_debt,
            recovery_status: RecoveryStatus::Pursuing,
        }
    }

    /// Hand pending engine events out, oldest first.
    pub fn take_events(&mut self) -> (r: Vec<Event>)
        ensures
            r@ == old(self).events.events@,
            final(self).events.events@ == Seq::<Event>::empty(),
            final(self).status == old(self).status,
            final(self).facility_id == old(self).facility_id,
            final(self).grace_period_end == old(self).grace_period_end,
            final(self).grace_period_hours == old(self).grace_period_hours,
            final(self).liquidation_cost_rate == old(self).liquidation_cost_rate,
    {
        self.events.take_events()
    }

    /// The engine's current stage.
    pub fn status(&self) -> (r: LiquidationStatus)
        ensures
            r == self.status,
    {
        self.status
    }

    /// Whether a sale is running.
    pub fn is_in_progress(&self) -> (r: bool)
        ensures
            r == (self.status == LiquidationStatus::InProgress),
    {
        matches!(self.status, LiquidationStatus::InProgress)
    }

    /// Whether the liquidation has finished.
    pub fn is_completed(&self) -> (r: bool)
        ensures
            r == (self.status == LiquidationStatus::Completed),
    {
        matches!(self.status, LiquidationStatus::Completed)
    }
}

/// Liquidation conserves value: the gross proceeds are exactly the costs,
/// plus the debt retired (the drop from the debt before to the debt
/// after), plus the borrower's surplus.
pub proof fn lemma_liquidation_conservation(gross: int, cost_rate: int, cvl: int)
    requires
        cvl >= 0,
    ensures
        ({
            let costs = liquidation_costs_of(gross, cost_rate);
            let net = gross - costs;
            gross == costs + (cvl - cvl_after_of(cvl, net)) + surplus_of(cvl, net)
        }),
{
}

} // verus!
