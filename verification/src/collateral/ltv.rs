//! Loan-to-value computation, classification and monitoring.

use vstd::prelude::*;
use crate::clock::provider_now;
use crate::errors::FacilityError;
use crate::events::{Event, EventStore};
use crate::money::{
    div_round, lemma_mul_bounds, lemma_round_half_div_bound, mul_scaled, round_half_div,
    Money, Rate, AMOUNT_LIMIT, MUL_LIMIT, RATE_LIMIT, SCALE,
};
use crate::types::{FacilityId, LtvStatus, LtvThresholds};

verus! {

/// The loan-to-value ratio at eight digits: debt over collateral value.
pub open spec fn ltv_of(cvl: int, collateral_value: int) -> int
    recommends
        collateral_value > 0,
{
    round_half_div(cvl * (SCALE as int), collateral_value)
}

/// Whether a threshold ladder's ratios are within the computable range.
pub open spec fn thresholds_wf(t: LtvThresholds) -> bool {
    &&& -RATE_LIMIT <= t.initial_ltv.atoms <= RATE_LIMIT
    &&& -RATE_LIMIT <= t.warning_ltv.atoms <= RATE_LIMIT
    &&& -RATE_LIMIT <= t.margin_call_ltv.atoms <= RATE_LIMIT
    &&& -RATE_LIMIT <= t.liquidation_ltv.atoms <= RATE_LIMIT
}

/// Classification of a ratio against the threshold ladder; every equality
/// breaks toward the lower severity.
pub open spec fn ltv_status_of(ltv: int, t: LtvThresholds) -> LtvStatus {
    if ltv > t.liquidation_ltv.atoms {
        LtvStatus::Liquidation
    } else if ltv > t.margin_call_ltv.atoms {
        LtvStatus::MarginCall
    } else if ltv > t.warning_ltv.atoms {
        LtvStatus::Warning
    } else {
        LtvStatus::Healthy
    }
}

/// The extra collateral value that brings the ratio down to the target:
/// zero where the held collateral suffices, the largest supported amount
/// where no finite collateral can meet a non-positive target.
pub open spec fn collateral_remedy_of(cvl: int, collateral_value: int, target: int) -> int {
    if target <= 0 {
        AMOUNT_LIMIT as int
    } else {
        let required = round_half_div(cvl * (SCALE as int), target);
        if required > collateral_value {
            required - collateral_value
        } else {
            0
        }
    }
}

/// The payment that brings the ratio down to the target: zero where the
/// debt is already below it.
pub open spec fn payment_remedy_of(cvl: int, collateral_value: int, target: int) -> int {
    let target_cvl = mul_scaled(collateral_value, target);
    if cvl > target_cvl {
        cvl - target_cvl
    } else {
        0
    }
}

/// Computes loan-to-value figures against a threshold ladder.
pub struct LtvCalculator {
    pub facility_id: FacilityId,
    pub thresholds: LtvThresholds,
}

impl LtvCalculator {
    /// A calculator for the facility and ladder.
    pub fn new(facility_id: FacilityId, thresholds: LtvThresholds) -> (r: LtvCalculator)
        ensures
            r.facility_id == facility_id,
            r.thresholds == thresholds,
    {
        LtvCalculator { facility_id, thresholds }
    }

    /// The current ratio; fails exactly where the collateral value is not
    /// positive.
    pub fn calculate_ltv(&self, cvl: Money, collateral_value: Money)
        -> (r: Result<Rate, FacilityError>)
        requires
            -AMOUNT_LIMIT <= cvl.atoms <= AMOUNT_LIMIT,
            -MUL_LIMIT <= collateral_value.atoms <= MUL_LIMIT,
        ensures
            r is Err <==> collateral_value.atoms <= 0,
            r is Err ==> (r matches Err(e) && e matches FacilityError::InvalidCollateral {
                .. }),
            r matches Ok(l) ==> l.atoms as int == ltv_of(cvl.atoms as int,
                collateral_value.atoms as int),
    {
        if collateral_value.atoms <= 0 {
            return Err(FacilityError::InvalidCollateral { message: String::new() });
        }
        proof {
            lemma_mul_bounds(cvl.atoms as int, SCALE as int, AMOUNT_LIMIT as int,
                SCALE as int);
        }
        Ok(Rate { atoms: div_round(cvl.atoms * SCALE, collateral_value.atoms) })
    }

    /// The current value of liability: the four debt buckets summed.
    pub fn calculate_cvl(outstanding_principal: Money, accrued_interest: Money,
        accrued_fees: Money, accrued_penalties: Money) -> (r: Money)
        requires
            -MUL_LIMIT <= outstanding_principal.atoms <= MUL_LIMIT,
            -MUL_LIMIT <= accrued_interest.atoms <= MUL_LIMIT,
            -MUL_LIMIT <= accrued_fees.atoms <= MUL_LIMIT,
            -MUL_LIMIT <= accrued_penalties.atoms <= MUL_LIMIT,
        ensures
            r.atoms == outstanding_principal.atoms + accrued_interest.atoms
                + accrued_fees.atoms + accrued_penalties.atoms,
    {
        outstanding_principal.add(accrued_interest).add(accrued_fees).add(accrued_penalties)
    }

    /// Classify a ratio against the ladder.
    pub fn get_ltv_status(&self, ltv: Rate) -> (r: LtvStatus)
        ensures
            r == ltv_status_of(ltv.atoms as int, self.thresholds),
    {
        if ltv.atoms > self.thresholds.liquidation_ltv.atoms {
            LtvStatus::Liquidation
        } else if ltv.atoms > self.thresholds.margin_call_ltv.atoms {
            LtvStatus::MarginCall
        } else if ltv.atoms > self.thresholds.warning_ltv.atoms {
            LtvStatus::Warning
        } else {
            LtvStatus::Healthy
        }
    }

    /// The extra collateral value needed to bring the ratio down to the
    /// target; zero if the held collateral already suffices. For a target
    /// of zero no finite collateral suffices, and the largest supported
    /// amount is reported.
    pub fn calculate_required_collateral(&self, cvl: Money, current_collateral: Money,
        target_ltv: Rate) -> (r: Money)
        requires
            -MUL_LIMIT <= cvl.atoms <= MUL_LIMIT,
            -MUL_LIMIT <= current_collateral.atoms <= MUL_LIMIT,
            -RATE_LIMIT <= target_ltv.atoms <= RATE_LIMIT,
        ensures
            target_ltv.atoms <= 0 ==> r.atoms == AMOUNT_LIMIT,
            target_ltv.atoms > 0 ==> {
                let required = round_half_div(cvl.atoms * (SCALE as int),
                    target_ltv.atoms as int);
                r.atoms as int == if required > current_collateral.atoms {
                    required - current_collateral.atoms
                } else {
                    0
                }
            },
    {
        if target_ltv.atoms <= 0 {
            return Money { atoms: AMOUNT_LIMIT };
        }
        proof {
            lemma_mul_bounds(cvl.atoms as int, SCALE as int, MUL_LIMIT as int, SCALE as int);
            lemma_round_half_div_bound(cvl.atoms * (SCALE as int), target_ltv.atoms as int,
                (MUL_LIMIT as int) * (SCALE as int));
        }
        let required = div_round(cvl.atoms * SCALE, target_ltv.atoms);
        if required > current_collateral.atoms {
            Money { atoms: required - current_collateral.atoms }
        } else {
            Money::zero()
        }
    }

    /// The payment needed to bring the ratio down to the target; zero if
    /// the debt is already below it.
    pub fn calculate_required_payment(&self, cvl: Money, collateral_value: Money,
        target_ltv: Rate) -> (r: Money)
        requires
            -MUL_LIMIT <= cvl.atoms <= MUL_LIMIT,
            -MUL_LIMIT <= collateral_value.atoms <= MUL_LIMIT,
            -RATE_LIMIT <= target_ltv.atoms <= RATE_LIMIT,
        ensures
            ({
                let target_cvl = mul_scaled(collateral_value.atoms as int,
                    target_ltv.atoms as int);
                r.atoms as int == if cvl.atoms > target_cvl {
                    cvl.atoms - target_cvl
                } else {
                    0
                }
            }),
    {
        let target_cvl = collateral_value.times(target_ltv);
        if cvl.atoms > target_cvl.atoms {
            proof {
                lemma_mul_bounds(collateral_value.atoms as int, target_ltv.atoms as int,
                    MUL_LIMIT as int, RATE_LIMIT as int);
                lemma_round_half_div_bound(collateral_value.atoms * target_ltv.atoms,
                    SCALE as int, (MUL_LIMIT as int) * (RATE_LIMIT as int));
            }
            cvl.sub(target_cvl)
        } else {
            Money::zero()
        }
    }
}

/// Continuous loan-to-value tracking with margin-call state.
pub struct LtvMonitor {
    pub calculator: LtvCalculator,
    pub last_check: Option<i64>,
    pub check_frequency_secs: i64,
    pub margin_call_active: bool,
    pub margin_call_deadline: Option<i64>,
    pub events: EventStore,
}

impl LtvMonitor {
    /// A monitor that will run its first check whenever asked.
    pub fn new(facility_id: FacilityId, thresholds: LtvThresholds,
        check_frequency_secs: i64) -> (r: LtvMonitor)
        ensures
            r.calculator.facility_id == facility_id,
            r.calculator.thresholds == thresholds,
            r.last_check is None,
            r.check_frequency_secs == check_frequency_secs,
            !r.margin_call_active,
            r.margin_call_deadline is None,
            r.events.events@ == Seq::<Event>::empty(),
    {
        LtvMonitor {
            calculator: LtvCalculator::new(facility_id, thresholds),
            last_check: None,
            check_frequency_secs,
            margin_call_active: false,
            margin_call_deadline: None,
            events: EventStore::new(),
        }
    }

    /// Whether a check at `now` is due: always on the first check, then
    /// once the configured frequency has elapsed.
    pub open spec fn check_due(self, now: int) -> bool {
        match self.last_check {
            None => true,
            Some(last) => now - last >= self.check_frequency_secs,
        }
    }

    /// One monitoring step at the instant `now`. Off-schedule checks only
    /// report the classification. A due check records the instant and
    /// acts: a healthy ratio resolves any active margin call; a warning is
    /// reported; a first margin call sets a deadline one day out and
    /// reports both remedies; a repeated margin call past its deadline
    /// fails; a liquidation-level ratio reports the trigger.
    pub fn check_ltv_at(&mut self, cvl: Money, collateral_value: Money, now: i64)
        -> (r: Result<LtvStatus, FacilityError>)
        requires
            -MUL_LIMIT <= cvl.atoms <= MUL_LIMIT,
            -MUL_LIMIT <= collateral_value.atoms <= MUL_LIMIT,
            now <= i64::MAX - 86_400,
            thresholds_wf(old(self).calculator.thresholds),
        ensures
            r is Err <==> collateral_value.atoms <= 0 || (old(self).check_due(now as int)
                && ltv_status_of(ltv_of(cvl.atoms as int, collateral_value.atoms as int),
                old(self).calculator.thresholds) == LtvStatus::MarginCall
                && old(self).margin_call_active && (old(self).margin_call_deadline
                matches Some(d) && now > d)),
            collateral_value.atoms <= 0 ==> (r matches Err(e) && e matches
                FacilityError::InvalidCollateral { .. }),
            (r is Err && collateral_value.atoms > 0) ==> (r matches Err(e) && e matches
                FacilityError::MarginCallExpired { deadline, current_time } && current_time
                == now && Some(deadline) == old(self).margin_call_deadline),
            r matches Ok(status) ==> status == ltv_status_of(ltv_of(cvl.atoms as int,
                collateral_value.atoms as int), old(self).calculator.thresholds),
            !old(self).check_due(now as int) ==> *final(self) == *old(self),
            old(self).check_due(now as int) ==> (r matches Ok(status) ==> {
                &&& final(self).last_check == Some(now)
                &&& (status == LtvStatus::Healthy ==> !final(self).margin_call_active
                    && final(self).margin_call_deadline is None)
                &&& (status == LtvStatus::MarginCall && !old(self).margin_call_active ==>
                    final(self).margin_call_active && final(self).margin_call_deadline
                    == Some((now + 86_400) as i64))
                &&& (status == LtvStatus::Warning || status == LtvStatus::Liquidation ==>
                    final(self).margin_call_active == old(self).margin_call_active)
                &&& (status == LtvStatus::MarginCall && !old(self).margin_call_active ==> ({
                    let l = ltv_of(cvl.atoms as int, collateral_value.atoms as int);
                    let t = old(self).calculator.thresholds;
                    &&& final(self).events.events@.len() == old(self).events.events@.len()
                        + 1
                    &&& (final(self).events.events@.last() matches
                        Event::MarginCallRequired { current_ltv, required_ltv, deadline,
                        collateral_remedy, payment_remedy, .. } && current_ltv.atoms as int
                        == l && required_ltv == t.margin_call_ltv && deadline == now
                        + 86_400 && collateral_remedy.atoms as int == collateral_remedy_of(
                        cvl.atoms as int, collateral_value.atoms as int,
                        t.margin_call_ltv.atoms as int) && payment_remedy.atoms as int
                        == payment_remedy_of(cvl.atoms as int,
                        collateral_value.atoms as int, t.margin_call_ltv.atoms as int))
                }))
                &&& (status == LtvStatus::Healthy && old(self).margin_call_active ==>
                    final(self).events.events@.len() == old(self).events.events@.len() + 1
                    && (final(self).events.events@.last() matches
                    Event::MarginCallResolved { new_ltv, .. } && new_ltv.atoms as int
                    == ltv_of(cvl.atoms as int, collateral_value.atoms as int)))
                &&& (status == LtvStatus::Warning ==> final(self).events.events@.len()
                    == old(self).events.events@.len() + 1 && (final(
                    self).events.events@.last() matches Event::LtvWarningBreached { .. }))
                &&& (status == LtvStatus::Liquidation ==> final(self).events.events@.len()
                    == old(self).events.events@.len() + 1 && (final(
                    self).events.events@.last() matches Event::LiquidationTriggered {
                    debt_amount, ltv_ratio, .. } && debt_amount == cvl
                    && ltv_ratio.atoms as int == ltv_of(cvl.atoms as int,
                    collateral_value.atoms as int)))
            }),
    {
        if collateral_value.atoms <= 0 {
            return Err(FacilityError::InvalidCollateral { message: String::new() });
        }
        let ltv = match self.calculator.calculate_ltv(cvl, collateral_value) {
            Ok(l) => l,
            Err(e) => {
                return Err(e);
            },
        };
        let status = self.calculator.get_ltv_status(ltv);
        let is_due = match self.last_check {
            None => true,
            Some(last) => (now as i128) - (last as i128) >= self.check_frequency_secs as i128,
        };
        if !is_due {
            return Ok(status);
        }
        self.last_check = Some(now);
        match status {
            LtvStatus::Healthy => {
                if self.margin_call_active {
                    self.margin_call_active = false;
                    self.margin_call_deadline = None;
                    self.events.emit(Event::MarginCallResolved {
                        facility_id: self.calculator.facility_id,
                        new_ltv: ltv,
                        timestamp: now,
                    });
                } else {
                    self.margin_call_deadline = None;
                }
            },
            LtvStatus::Warning => {
                self.events.emit(Event::LtvWarningBreached {
                    facility_id: self.calculator.facility_id,
                    ltv_ratio: ltv,
                    threshold: self.calculator.thresholds.warning_ltv,
                    timestamp: now,
                });
            },
            LtvStatus::MarginCall => {
                if !self.margin_call_active {
                    self.margin_call_active = true;
                    let deadline = now + 86_400;
                    self.margin_call_deadline = Some(deadline);
                    let required_collateral = self.calculator.calculate_required_collateral(
                        cvl, collateral_value, self.calculator.thresholds.margin_call_ltv);
                    let required_payment = self.calculator.calculate_required_payment(cvl,
                        collateral_value, self.calculator.thresholds.margin_call_ltv);
                    self.events.emit(Event::MarginCallRequired {
                        facility_id: self.calculator.facility_id,
                        current_ltv: ltv,
                        required_ltv: self.calculator.thresholds.margin_call_ltv,
                        deadline,
                        collateral_remedy: required_collateral,
                        payment_remedy: required_payment,
                    });
                } else {
                    if let Some(deadline) = self.margin_call_deadline {
                        if now > deadline {
                            return Err(FacilityError::MarginCallExpired {
                                deadline,
                                current_time: now,
                            });
                        }
                    }
                }
            },
            LtvStatus::Liquidation => {
                self.events.emit(Event::LiquidationTriggered {
                    facility_id: self.calculator.facility_id,
                    ltv_ratio: ltv,
                    collateral_value,
                    debt_amount: cvl,
                    timestamp: now,
                });
            },
        }
        Ok(status)
    }

    /// One monitoring step against the provider's current instant.
    pub fn check_ltv(&mut self, cvl: Money, collateral_value: Money,
        time_provider: &hourglass_rs::SafeTimeProvider) -> (r: Result<LtvStatus, FacilityError>)
        requires
            -MUL_LIMIT <= cvl.atoms <= MUL_LIMIT,
            -MUL_LIMIT <= collateral_value.atoms <= MUL_LIMIT,
            thresholds_wf(old(self).calculator.thresholds),
        ensures
            r matches Ok(status) ==> status == ltv_status_of(ltv_of(cvl.atoms as int,
                collateral_value.atoms as int), old(self).calculator.thresholds),
            collateral_value.atoms <= 0 ==> r is Err,
    {
        let now = provider_now(time_provider);
        if now > i64::MAX - 86_400 {
            return Err(FacilityError::InvalidDate { message: String::new() });
        }
        if collateral_value.atoms <= 0 {
            return Err(FacilityError::InvalidCollateral { message: String::new() });
        }
        self.check_ltv_at(cvl, collateral_value, now)
    }

    /// Hand pending monitor events out, oldest first.
    pub fn take_events(&mut self) -> (r: Vec<Event>)
        ensures
            r@ == old(self).events.events@,
            final(self).events.events@ == Seq::<Event>::empty(),
            final(self).margin_call_active == old(self).margin_call_active,
            final(self).margin_call_deadline == old(self).margin_call_deadline,
            final(self).last_check == old(self).last_check,
            final(self).calculator == old(self).calculator,
    {
        self.events.take_events()
    }

    /// Whether a margin call is currently active.
    pub fn is_margin_call_active(&self) -> (r: bool)
        ensures
            r == self.margin_call_active,
    {
        self.margin_call_active
    }

    /// The active margin call's deadline, if one is set.
    pub fn margin_call_deadline(&self) -> (r: Option<i64>)
        ensures
            r == self.margin_call_deadline,
    {
        self.margin_call_deadline
    }
}

} // verus!
