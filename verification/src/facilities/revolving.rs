//! Revolving facilities: draw, repay, redraw against a credit limit.

use vstd::prelude::*;
use crate::clock::provider_now;
use crate::config::{FacilityConfig, FacilityType};
use crate::dates::MAX_TIMESTAMP;
use crate::errors::FacilityError;
use crate::events::{Event, StatusReason};
use crate::facility::{facility_wf, payment_accepted, Facility};
use crate::interest::accrual::DailyAccrual;
use crate::money::{
    div_round, lemma_mul_bounds, lemma_round_half_div_bound, mul_scaled, round_half_div,
    Money, Rate, MUL_LIMIT, POW_BASE_LIMIT, RATE_LIMIT, SCALE,
};
use crate::state::FacilitySpecificState;
use crate::types::{FacilityStatus, RevolvingType};

verus! {

/// How far a revolving line is drawn.
#[derive(Clone, Copy, Debug, PartialEq, Eq, Structural)]
pub enum UtilizationState {
    /// Nothing drawn.
    Unused,
    /// Below thirty percent.
    Low,
    /// Thirty up to seventy percent.
    Moderate,
    /// Seventy up to ninety percent.
    High,
    /// Ninety up to one hundred percent.
    Maxed,
    /// Beyond the limit.
    Overlimit,
}

/// A revolving facility: a credit limit, the part of it still available,
/// and an optional draw period.
pub struct RevolvingFacility {
    pub facility: Facility,
    pub credit_limit: Money,
    pub available_credit: Money,
    pub draw_period_ends: Option<i64>,
    pub repayment_period_ends: Option<i64>,
    pub is_in_draw_period: bool,
    pub minimum_payment_percentage: Rate,
}

/// What every revolving operation preserves. In particular the available
/// credit is exactly the limit less the outstanding principal, clamped at
/// zero — so the principal plus the available credit never falls below
/// the limit, and the available credit is never negative.
pub open spec fn revolving_wf(t: RevolvingFacility) -> bool {
    &&& facility_wf(t.facility)
    &&& t.facility.config.facility_type is Revolving
    &&& 0 <= t.credit_limit.atoms <= POW_BASE_LIMIT
    &&& 0 <= t.minimum_payment_percentage.atoms <= RATE_LIMIT
    &&& t.available_credit.atoms as int == available_credit_spec(t.credit_limit.atoms as int,
        t.facility.state.outstanding_principal.atoms as int)
}

/// The available credit: the limit less the outstanding principal,
/// clamped at zero.
pub open spec fn available_credit_spec(limit: int, principal: int) -> int {
    if limit - principal >= 0 {
        limit - principal
    } else {
        0
    }
}

/// When a draw goes through: within the draw period, positive, at or
/// above any minimum drawdown, within the computable totals, and at most
/// ten percent over the limit.
pub open spec fn draw_accepts(t: RevolvingFacility, amount: int) -> bool {
    &&& t.is_in_draw_period
    &&& amount > 0
    &&& (t.facility.config.limits.minimum_drawdown matches Some(m) ==> amount >= m.atoms)
    &&& amount <= MUL_LIMIT
    &&& t.facility.state.outstanding_principal.atoms + amount <= MUL_LIMIT
    &&& t.facility.state.total_disbursed.atoms + amount <= MUL_LIMIT
    &&& (amount > t.available_credit.atoms ==> t.facility.state.outstanding_principal.atoms
        + amount - t.credit_limit.atoms <= round_half_div(
        t.credit_limit.atoms * 10_000_000, SCALE as int))
}

/// The lemma behind the revolving credit invariant: under the facade's
/// well-formedness, the outstanding principal plus the available credit
/// is at least the credit limit, and the available credit is never
/// negative.
pub proof fn lemma_revolving_credit_conserved(t: RevolvingFacility)
    requires
        revolving_wf(t),
    ensures
        t.facility.state.outstanding_principal.atoms + t.available_credit.atoms
            >= t.credit_limit.atoms,
        t.available_credit.atoms >= 0,
{
}

impl RevolvingFacility {
    /// Wrap a facility; fails exactly where it is not revolving or where
    /// its limit or minimum percentage leaves the computable range.
    pub fn new(facility: Facility) -> (r: Result<RevolvingFacility, FacilityError>)
        requires
            facility_wf(facility),
        ensures
            r matches Ok(t) ==> revolving_wf(t) && t.facility == facility,
            !(facility.config.facility_type is Revolving) ==> r is Err,
    {
        if !matches!(facility.config.facility_type, FacilityType::Revolving(_)) {
            return Err(FacilityError::InvalidConfiguration { message: String::new() });
        }
        let credit_limit = match facility.config.limits.credit_limit {
            Some(l) => l,
            None => facility.config.financial_terms.commitment_amount,
        };
        let minimum_payment_percentage = match
            facility.config.payment_config.minimum_payment_percentage {
            Some(p) => p,
            None => Rate { atoms: 2_000_000 },
        };
        if credit_limit.atoms < 0 || credit_limit.atoms > POW_BASE_LIMIT
            || minimum_payment_percentage.atoms < 0 || minimum_payment_percentage.atoms
            > RATE_LIMIT {
            return Err(FacilityError::InvalidConfiguration { message: String::new() });
        }
        let available = if credit_limit.atoms - facility.state.outstanding_principal.atoms
            >= 0 {
            Money { atoms: credit_limit.atoms - facility.state.outstanding_principal.atoms }
        } else {
            Money::zero()
        };
        Ok(RevolvingFacility {
            facility,
            credit_limit,
            available_credit: available,
            draw_period_ends: None,
            repayment_period_ends: None,
            is_in_draw_period: true,
            minimum_payment_percentage,
        })
    }

    /// A builder for revolving facilities.
    pub fn builder() -> (r: RevolvingFacilityBuilder)
        ensures
            r.credit_limit is None,
            r.rate is None,
    {
        RevolvingFacilityBuilder::new()
    }

    /// Activate the facility: credit becomes drawable.
    pub fn activate(&mut self, time_provider: &hourglass_rs::SafeTimeProvider)
        -> (r: Result<(), FacilityError>)
        requires
            revolving_wf(*old(self)),
        ensures
            r is Ok ==> revolving_wf(*final(self)) && final(self).facility.state.status
                == FacilityStatus::Active,
    {
        self.activate_with_time(time_provider)
    }

    /// Activate the facility (see `activate`).
    pub fn activate_with_time(&mut self, time_provider: &hourglass_rs::SafeTimeProvider)
        -> (r: Result<(), FacilityError>)
        requires
            revolving_wf(*old(self)),
        ensures
            r is Ok ==> revolving_wf(*final(self)) && final(self).facility.state.status
                == FacilityStatus::Active,
    {
        let now = provider_now(time_provider);
        if now < 0 || now > MAX_TIMESTAMP {
            return Err(FacilityError::InvalidDate { message: String::new() });
        }
        self.facility.state.activation_date = Some(now);
        self.facility.state.update_status(FacilityStatus::Active, now);
        if matches!(self.facility.config.facility_type,
            FacilityType::Revolving(RevolvingType::Heloc)) {
            if let Some(term_months) = self.facility.config.financial_terms.term_months {
                let draw_months = (term_months as i64) * 6 / 10;
                self.draw_period_ends = Some(saturating_add_days(now, draw_months * 30));
                self.repayment_period_ends = Some(saturating_add_days(now,
                    (term_months as i64) * 30));
            }
        }
        self.sync_specific();
        self.facility.events.emit(Event::FacilityActivated {
            facility_id: self.facility.id,
            first_disbursement: Money::zero(),
            timestamp: now,
        });
        Ok(())
    }

    /// Activate the facility (an alias for activation).
    pub fn approve(&mut self, time_provider: &hourglass_rs::SafeTimeProvider)
        -> (r: Result<(), FacilityError>)
        requires
            revolving_wf(*old(self)),
        ensures
            r is Ok ==> revolving_wf(*final(self)) && final(self).facility.state.status
                == FacilityStatus::Active,
    {
        self.activate(time_provider)
    }

    /// Deny the facility before any draw.
    pub fn deny(&mut self, time_provider: &hourglass_rs::SafeTimeProvider)
        -> (r: Result<(), FacilityError>)
        requires
            revolving_wf(*old(self)),
        ensures
            r is Ok ==> revolving_wf(*final(self)) && final(self).facility.state.status
                == FacilityStatus::Settled,
    {
        let now = provider_now(time_provider);
        if now < 0 || now > MAX_TIMESTAMP {
            return Err(FacilityError::InvalidDate { message: String::new() });
        }
        let old_status = self.facility.state.status;
        self.facility.state.update_status(FacilityStatus::Settled, now);
        self.facility.events.emit(Event::StatusChanged {
            facility_id: self.facility.id,
            old_status,
            new_status: FacilityStatus::Settled,
            reason: StatusReason::Denied,
            timestamp: now,
        });
        Ok(())
    }

    /// Copy the facade's credit figures into the facility state.
    fn sync_specific(&mut self)
        requires
            revolving_wf(*old(self)),
        ensures
            revolving_wf(*final(self)),
            final(self).facility.state.status == old(self).facility.state.status,
            final(self).facility.state.outstanding_principal
                == old(self).facility.state.outstanding_principal,
            final(self).facility.state.accrued_fees == old(self).facility.state.accrued_fees,
            final(self).facility.state.accrued_interest
                == old(self).facility.state.accrued_interest,
            final(self).facility.state.total_disbursed
                == old(self).facility.state.total_disbursed,
            final(self).credit_limit == old(self).credit_limit,
            final(self).available_credit == old(self).available_credit,
            final(self).is_in_draw_period == old(self).is_in_draw_period,
            final(self).facility.events.events@ == old(self).facility.events.events@,
            final(self).facility.config == old(self).facility.config,
            final(self).draw_period_ends == old(self).draw_period_ends,
            final(self).repayment_period_ends == old(self).repayment_period_ends,
            final(self).minimum_payment_percentage == old(self).minimum_payment_percentage,
    {
        if let FacilitySpecificState::Revolving {
            cash_advance_balance,
            purchase_balance,
            promotional_balance,
            statement_balance,
            statement_date,
            ..
        } = self.facility.state.facility_specific {
            let over = if self.facility.state.outstanding_principal.atoms
                - self.credit_limit.atoms >= 0 {
                Money {
                    atoms: self.facility.state.outstanding_principal.atoms
                        - self.credit_limit.atoms,
                }
            } else {
                Money::zero()
            };
            self.facility.state.facility_specific = FacilitySpecificState::Revolving {
                credit_limit: self.credit_limit,
                available_credit: self.available_credit,
                cash_advance_balance,
                purchase_balance,
                promotional_balance,
                overlimit_amount: over,
                statement_balance,
                statement_date,
            };
        }
    }

    /// Draw funds: within the draw period, at or above any minimum
    /// drawdown, and at most ten percent over the limit — an overlimit
    /// draw costs the configured fee. The available credit afterwards is
    /// the limit less the principal, clamped at zero.
    pub fn draw(&mut self, amount: Money, time_provider: &hourglass_rs::SafeTimeProvider)
        -> (r: Result<Money, FacilityError>)
        requires
            revolving_wf(*old(self)),
        ensures
            r matches Ok(a) ==> a == amount && revolving_wf(*final(self))
                && final(self).facility.state.outstanding_principal.atoms
                == old(self).facility.state.outstanding_principal.atoms + amount.atoms
                && final(self).available_credit.atoms as int == available_credit_spec(
                old(self).credit_limit.atoms as int,
                old(self).facility.state.outstanding_principal.atoms + amount.atoms),
            r is Ok <==> draw_accepts(*old(self), amount.atoms as int),
            r is Err ==> *final(self) == *old(self),
    {
        self.draw_with_time(amount, time_provider)
    }

    /// Draw funds (see `draw`).
    pub fn draw_with_time(&mut self, amount: Money,
        time_provider: &hourglass_rs::SafeTimeProvider) -> (r: Result<Money, FacilityError>)
        requires
            revolving_wf(*old(self)),
        ensures
            r matches Ok(a) ==> a == amount && revolving_wf(*final(self))
                && final(self).facility.state.outstanding_principal.atoms
                == old(self).facility.state.outstanding_principal.atoms + amount.atoms
                && final(self).available_credit.atoms as int == available_credit_spec(
                old(self).credit_limit.atoms as int,
                old(self).facility.state.outstanding_principal.atoms + amount.atoms),
            r is Ok <==> draw_accepts(*old(self), amount.atoms as int),
            r is Err ==> *final(self) == *old(self),
    {
        if !self.is_in_draw_period {
            return Err(FacilityError::DrawPeriodEnded);
        }
        if amount.atoms <= 0 {
            return Err(FacilityError::InvalidDrawAmount { amount });
        }
        if let Some(min) = self.facility.config.limits.minimum_drawdown {
            if amount.atoms < min.atoms {
                return Err(FacilityError::BelowMinimumDrawdown {
                    minimum: min,
                    requested: amount,
                });
            }
        }
        if amount.atoms > MUL_LIMIT
            || self.facility.state.outstanding_principal.atoms + amount.atoms > MUL_LIMIT
            || self.facility.state.total_disbursed.atoms + amount.atoms > MUL_LIMIT {
            return Err(FacilityError::CalculationError { message: String::new() });
        }
        let now = provider_now(time_provider);
        let stamped = if now < 0 {
            0
        } else if now > MAX_TIMESTAMP {
            MAX_TIMESTAMP
        } else {
            now
        };
        let total_after = self.facility.state.outstanding_principal.atoms + amount.atoms;
        let is_overlimit = amount.atoms > self.available_credit.atoms;
        if is_overlimit {
            let overlimit_amount = total_after - self.credit_limit.atoms;
            proof {
                lemma_mul_bounds(self.credit_limit.atoms as int, 10_000_000,
                    POW_BASE_LIMIT as int, 10_000_000);
                lemma_round_half_div_bound(self.credit_limit.atoms * 10_000_000,
                    SCALE as int, (POW_BASE_LIMIT as int) * 10_000_000);
            }
            let allowance = div_round(self.credit_limit.atoms * 10_000_000, SCALE);
            if overlimit_amount > allowance {
                return Err(FacilityError::ExceedsCreditLimit {
                    available: self.available_credit,
                    requested: amount,
                });
            }
            if let Some(fee) = self.facility.config.fee_config.overlimit_fee {
                if self.facility.state.accrued_fees.atoms + fee.atoms <= MUL_LIMIT
                    && self.facility.state.total_fees_charged.atoms + fee.atoms
                    <= MUL_LIMIT {
                    self.facility.state.accrued_fees
                        = self.facility.state.accrued_fees.add(fee);
                    self.facility.state.total_fees_charged
                        = self.facility.state.total_fees_charged.add(fee);
                    self.facility.events.emit(Event::OverlimitOccurred {
                        facility_id: self.facility.id,
                        amount_over: Money { atoms: overlimit_amount },
                        fees_applied: fee,
                        timestamp: stamped,
                    });
                }
            }
        }
        self.facility.state.outstanding_principal = Money { atoms: total_after };
        self.facility.state.total_disbursed = Money {
            atoms: self.facility.state.total_disbursed.atoms + amount.atoms,
        };
        self.facility.state.available_commitment = if
            self.facility.state.available_commitment.atoms - amount.atoms >= 0 {
            Money { atoms: self.facility.state.available_commitment.atoms - amount.atoms }
        } else {
            Money::zero()
        };
        if self.facility.state.activation_date.is_none() {
            self.facility.state.activation_date = Some(stamped);
            self.facility.state.status = FacilityStatus::Active;
        }
        self.available_credit = if self.credit_limit.atoms - total_after >= 0 {
            Money { atoms: self.credit_limit.atoms - total_after }
        } else {
            Money::zero()
        };
        self.sync_specific();
        self.facility.events.emit(Event::FundsDrawn {
            facility_id: self.facility.id,
            amount,
            new_outstanding: self.facility.state.outstanding_principal,
            available_credit: self.available_credit,
            timestamp: stamped,
        });
        Ok(amount)
    }

    /// Draw funds (an alias for drawing).
    pub fn disburse(&mut self, amount: Money,
        time_provider: &hourglass_rs::SafeTimeProvider) -> (r: Result<Money, FacilityError>)
        requires
            revolving_wf(*old(self)),
        ensures
            r is Ok ==> revolving_wf(*final(self)),
    {
        self.draw(amount, time_provider)
    }

    /// Apply a payment, restoring available credit by the principal paid,
    /// never beyond the limit.
    pub fn process_payment(&mut self, amount: Money,
        time_provider: &hourglass_rs::SafeTimeProvider) -> (r: Result<(), FacilityError>)
        requires
            revolving_wf(*old(self)),
            -MUL_LIMIT <= amount.atoms <= MUL_LIMIT,
        ensures
            r is Ok <==> payment_accepted(old(self).facility, amount.atoms as int),
            r is Err ==> final(self).facility.state == old(self).facility.state
                && final(self).facility.events.events@
                == old(self).facility.events.events@ && final(self).available_credit
                == old(self).available_credit,
            r is Ok ==> revolving_wf(*final(self)),
    {
        self.process_payment_with_time(amount, time_provider)
    }

    /// Apply a payment (see `process_payment`).
    pub fn process_payment_with_time(&mut self, amount: Money,
        time_provider: &hourglass_rs::SafeTimeProvider) -> (r: Result<(), FacilityError>)
        requires
            revolving_wf(*old(self)),
            -MUL_LIMIT <= amount.atoms <= MUL_LIMIT,
        ensures
            r is Ok <==> payment_accepted(old(self).facility, amount.atoms as int),
            r is Err ==> final(self).facility.state == old(self).facility.state
                && final(self).facility.events.events@
                == old(self).facility.events.events@ && final(self).available_credit
                == old(self).available_credit,
            r is Ok ==> revolving_wf(*final(self)),
    {
        match self.facility.process_payment(amount, time_provider) {
            Ok(_) => {},
            Err(e) => {
                return Err(e);
            },
        }
        self.available_credit = if self.credit_limit.atoms
            - self.facility.state.outstanding_principal.atoms >= 0 {
            Money {
                atoms: self.credit_limit.atoms
                    - self.facility.state.outstanding_principal.atoms,
            }
        } else {
            Money::zero()
        };
        self.sync_specific();
        Ok(())
    }

    /// Apply a payment (an alias for payment processing).
    pub fn make_payment(&mut self, amount: Money,
        time_provider: &hourglass_rs::SafeTimeProvider) -> (r: Result<(), FacilityError>)
        requires
            revolving_wf(*old(self)),
            -MUL_LIMIT <= amount.atoms <= MUL_LIMIT,
        ensures
            r is Ok ==> revolving_wf(*final(self)),
    {
        self.process_payment(amount, time_provider)
    }

    /// Accrue daily interest up to the provider's instant.
    pub fn accrue_interest(&mut self, time_provider: &hourglass_rs::SafeTimeProvider)
        -> (r: Result<Vec<DailyAccrual>, FacilityError>)
        requires
            revolving_wf(*old(self)),
        ensures
            r is Ok ==> revolving_wf(*final(self)),
    {
        let out = self.facility.accrue_interest(time_provider);
        match out {
            Ok(v) => Ok(v),
            Err(e) => Err(e),
        }
    }

    /// One daily status update at the provider's instant. Whether the
    /// update goes through depends on that instant; the exact acceptance
    /// contract lives on `Facility::update_daily_status_at`.
    pub fn update_daily_status(&mut self, time_provider: &hourglass_rs::SafeTimeProvider)
        -> (r: Result<(), FacilityError>)
        requires
            revolving_wf(*old(self)),
        ensures
            r is Ok ==> facility_wf(final(self).facility),
            r is Err ==> final(self).facility.state == old(self).facility.state,
            final(self).credit_limit == old(self).credit_limit,
            final(self).available_credit == old(self).available_credit,
            final(self).facility.state.payment_count
                == old(self).facility.state.payment_count,
            final(self).facility.state.missed_payment_count
                == old(self).facility.state.missed_payment_count,
    {
        self.facility.update_daily_status(time_provider)
    }

    /// The minimum payment now due: the configured percentage of the
    /// principal plus all interest and fees, floored at the configured
    /// absolute minimum, and covering any overlimit in full.
    pub fn calculate_minimum_payment(&self) -> (r: Money)
        requires
            revolving_wf(*self),
        ensures
            ({
                let pct = mul_scaled(self.facility.state.outstanding_principal.atoms as int,
                    self.minimum_payment_percentage.atoms as int)
                    + self.facility.state.accrued_interest.atoms
                    + self.facility.state.accrued_fees.atoms;
                let floor: int = match self.facility.config.payment_config.minimum_payment {
                    Some(m) => m.atoms as int,
                    None => 25 * (SCALE as int),
                };
                let base = if pct >= floor {
                    pct
                } else {
                    floor
                };
                let over = self.facility.state.outstanding_principal.atoms
                    - self.credit_limit.atoms;
                r.atoms as int == if over > 0 {
                    let with_over = over + self.facility.state.accrued_interest.atoms
                        + self.facility.state.accrued_fees.atoms;
                    if base >= with_over {
                        base
                    } else {
                        with_over
                    }
                } else {
                    base
                }
            }),
    {
        proof {
            lemma_mul_bounds(self.facility.state.outstanding_principal.atoms as int,
                self.minimum_payment_percentage.atoms as int, MUL_LIMIT as int,
                RATE_LIMIT as int);
            lemma_round_half_div_bound(self.facility.state.outstanding_principal.atoms
                * self.minimum_payment_percentage.atoms, SCALE as int,
                (MUL_LIMIT as int) * (RATE_LIMIT as int));
        }
        let percentage_based = div_round(self.facility.state.outstanding_principal.atoms
            * self.minimum_payment_percentage.atoms, SCALE)
            + self.facility.state.accrued_interest.atoms
            + self.facility.state.accrued_fees.atoms;
        let absolute_minimum = match self.facility.config.payment_config.minimum_payment {
            Some(m) => m.atoms,
            None => 25 * SCALE,
        };
        let base = if percentage_based >= absolute_minimum {
            percentage_based
        } else {
            absolute_minimum
        };
        let over = self.facility.state.outstanding_principal.atoms - self.credit_limit.atoms;
        if over > 0 {
            let with_over = over + self.facility.state.accrued_interest.atoms
                + self.facility.state.accrued_fees.atoms;
            if base >= with_over {
                Money { atoms: base }
            } else {
                Money { atoms: with_over }
            }
        } else {
            Money { atoms: base }
        }
    }

    /// The drawn share of the limit at eight digits; zero for a zero
    /// limit.
    pub fn utilization_rate(&self) -> (r: Rate)
        requires
            revolving_wf(*self),
        ensures
            self.credit_limit.atoms == 0 ==> r.atoms == 0,
            self.credit_limit.atoms > 0 ==> r.atoms as int == round_half_div(
                self.facility.state.outstanding_principal.atoms * (SCALE as int),
                self.credit_limit.atoms as int),
    {
        if self.credit_limit.atoms == 0 {
            return Rate::zero();
        }
        proof {
            lemma_mul_bounds(self.facility.state.outstanding_principal.atoms as int,
                SCALE as int, MUL_LIMIT as int, SCALE as int);
        }
        Rate {
            atoms: div_round(self.facility.state.outstanding_principal.atoms * SCALE,
                self.credit_limit.atoms),
        }
    }

    /// Bucket the utilization rate.
    pub fn utilization_state(&self) -> (r: UtilizationState)
        requires
            revolving_wf(*self),
    {
        let rate = self.utilization_rate();
        if rate.atoms == 0 {
            UtilizationState::Unused
        } else if rate.atoms < 30_000_000 {
            UtilizationState::Low
        } else if rate.atoms < 70_000_000 {
            UtilizationState::Moderate
        } else if rate.atoms < 90_000_000 {
            UtilizationState::High
        } else if rate.atoms <= 100_000_000 {
            UtilizationState::Maxed
        } else {
            UtilizationState::Overlimit
        }
    }

    /// Whether the principal exceeds the limit.
    pub fn is_overlimit(&self) -> (r: bool)
        ensures
            r == (self.facility.state.outstanding_principal.atoms
                > self.credit_limit.atoms),
    {
        self.facility.state.outstanding_principal.atoms > self.credit_limit.atoms
    }

    /// Charge the configured commitment fee on the undrawn part: one
    /// month's worth of the annual rate.
    pub fn charge_commitment_fee(&mut self, time_provider: &hourglass_rs::SafeTimeProvider)
        -> (r: Result<(), FacilityError>)
        requires
            revolving_wf(*old(self)),
        ensures
            r is Ok ==> revolving_wf(*final(self)),
            r is Ok && (old(self).facility.config.fee_config.commitment_fee_rate is Some)
                && old(self).available_credit.atoms > 0 ==> ({
                let fee = commitment_fee_spec(*old(self));
                (0 <= fee && old(self).facility.state.accrued_fees.atoms + fee <= MUL_LIMIT
                    && old(self).facility.state.total_fees_charged.atoms + fee <= MUL_LIMIT)
                    ==> final(self).facility.state.accrued_fees.atoms
                    == old(self).facility.state.accrued_fees.atoms + fee
            }),
    {
        let commitment_rate = match self.facility.config.fee_config.commitment_fee_rate {
            Some(cr) => cr,
            None => {
                return Ok(());
            },
        };
        let undrawn = self.available_credit;
        if undrawn.atoms <= 0 {
            return Ok(());
        }
        proof {
            lemma_mul_bounds(undrawn.atoms as int, commitment_rate.atoms as int,
                POW_BASE_LIMIT as int, RATE_LIMIT as int);
            lemma_round_half_div_bound(undrawn.atoms * commitment_rate.atoms,
                12 * (SCALE as int), (POW_BASE_LIMIT as int) * (RATE_LIMIT as int));
        }
        let fee = Money { atoms: div_round(undrawn.atoms * commitment_rate.atoms,
            12 * SCALE) };
        if fee.atoms < 0 || self.facility.state.accrued_fees.atoms + fee.atoms > MUL_LIMIT
            || self.facility.state.total_fees_charged.atoms + fee.atoms > MUL_LIMIT {
            return Ok(());
        }
        self.facility.state.accrued_fees = self.facility.state.accrued_fees.add(fee);
        self.facility.state.total_fees_charged
            = self.facility.state.total_fees_charged.add(fee);
        let now = provider_now(time_provider);
        self.facility.events.emit(Event::CommitmentFeeCharged {
            facility_id: self.facility.id,
            undrawn_amount: undrawn,
            fee,
            timestamp: now,
        });
        Ok(())
    }

    /// Close the draw period; a home-equity line then amortizes at a
    /// higher minimum percentage.
    pub fn end_draw_period(&mut self, time_provider: &hourglass_rs::SafeTimeProvider)
        -> (r: Result<(), FacilityError>)
        requires
            revolving_wf(*old(self)),
        ensures
            r is Ok ==> revolving_wf(*final(self)) && !final(self).is_in_draw_period,
    {
        if !self.is_in_draw_period {
            return Ok(());
        }
        let now = provider_now(time_provider);
        self.is_in_draw_period = false;
        self.draw_period_ends = Some(now);
        if matches!(self.facility.config.facility_type,
            FacilityType::Revolving(RevolvingType::Heloc)) {
            self.minimum_payment_percentage = Rate { atoms: 1_500_000 };
        }
        Ok(())
    }

    /// Change the credit limit; the available credit follows, and a limit
    /// below the principal marks the facility overlimit.
    pub fn change_credit_limit(&mut self, new_limit: Money,
        time_provider: &hourglass_rs::SafeTimeProvider) -> (r: Result<(), FacilityError>)
        requires
            revolving_wf(*old(self)),
        ensures
            r is Ok ==> revolving_wf(*final(self)) && final(self).credit_limit == new_limit
                && final(self).available_credit.atoms as int == available_credit_spec(
                new_limit.atoms as int,
                old(self).facility.state.outstanding_principal.atoms as int),
            r is Err ==> *final(self) == *old(self),
    {
        if new_limit.atoms < 0 || new_limit.atoms > POW_BASE_LIMIT {
            return Err(FacilityError::InvalidConfiguration { message: String::new() });
        }
        let now = provider_now(time_provider);
        let old_limit = self.credit_limit;
        self.credit_limit = new_limit;
        self.available_credit = if new_limit.atoms
            - self.facility.state.outstanding_principal.atoms >= 0 {
            Money {
                atoms: new_limit.atoms - self.facility.state.outstanding_principal.atoms,
            }
        } else {
            Money::zero()
        };
        self.sync_specific();
        self.facility.events.emit(Event::CreditLimitChanged {
            facility_id: self.facility.id,
            old_limit,
            new_limit,
            timestamp: now,
        });
        if self.facility.state.outstanding_principal.atoms > new_limit.atoms {
            self.facility.events.emit(Event::OverlimitOccurred {
                facility_id: self.facility.id,
                amount_over: Money {
                    atoms: self.facility.state.outstanding_principal.atoms
                        - new_limit.atoms,
                },
                fees_applied: Money::zero(),
                timestamp: now,
            });
        }
        Ok(())
    }

    /// The wrapped facility.
    pub fn facility(&self) -> (r: &Facility)
        ensures
            r == &self.facility,
    {
        &self.facility
    }

    /// The wrapped facility, mutably.
    pub fn facility_mut(&mut self) -> (r: &mut Facility)
        ensures
            *r == old(self).facility,
            final(self).facility == *final(r),
            final(self).credit_limit == old(self).credit_limit,
            final(self).available_credit == old(self).available_credit,
            final(self).is_in_draw_period == old(self).is_in_draw_period,
            final(self).minimum_payment_percentage == old(self).minimum_payment_percentage,
            final(self).draw_period_ends == old(self).draw_period_ends,
            final(self).repayment_period_ends == old(self).repayment_period_ends,
    {
        &mut self.facility
    }

    /// The credit limit.
    pub fn credit_limit(&self) -> (r: Money)
        ensures
            r == self.credit_limit,
    {
        self.credit_limit
    }

    /// The credit still available.
    pub fn available_credit(&self) -> (r: Money)
        ensures
            r == self.available_credit,
    {
        self.available_credit
    }

    /// Whether draws are still accepted.
    pub fn is_in_draw_period(&self) -> (r: bool)
        ensures
            r == self.is_in_draw_period,
    {
        self.is_in_draw_period
    }
}

/// The monthly commitment fee a facility charges on its undrawn credit.
pub open spec fn commitment_fee_spec(t: RevolvingFacility) -> int {
    match t.facility.config.fee_config.commitment_fee_rate {
        Some(cr) => round_half_div(t.available_credit.atoms * cr.atoms,
            12 * (SCALE as int)),
        None => 0,
    }
}

/// Add a day count to a timestamp, capped at the supported maximum.
fn saturating_add_days(ts: i64, days: i64) -> (r: i64)
    requires
        0 <= ts <= MAX_TIMESTAMP,
        0 <= days <= 1_000_000,
    ensures
        0 <= r <= MAX_TIMESTAMP,
{
    let add = days * 86_400;
    if ts <= MAX_TIMESTAMP - add {
        ts + add
    } else {
        MAX_TIMESTAMP
    }
}

/// Collects the figures of a revolving facility and builds it.
pub struct RevolvingFacilityBuilder {
    pub facility_type: Option<RevolvingType>,
    pub credit_limit: Option<Money>,
    pub rate: Option<Rate>,
    pub minimum_percentage: Option<Rate>,
    pub commitment_fee_rate: Option<Rate>,
    pub property_value: Option<Money>,
    pub draw_period: Option<u32>,
    pub repayment_period: Option<u32>,
    pub account_number: Option<String>,
    pub customer_id: Option<String>,
}

impl RevolvingFacilityBuilder {
    /// An empty builder.
    pub fn new() -> (r: RevolvingFacilityBuilder)
        ensures
            r.credit_limit is None,
            r.rate is None,
    {
        RevolvingFacilityBuilder {
            facility_type: None,
            credit_limit: None,
            rate: None,
            minimum_percentage: None,
            commitment_fee_rate: None,
            property_value: None,
            draw_period: None,
            repayment_period: None,
            account_number: None,
            customer_id: None,
        }
    }

    /// Choose the facility flavor.
    pub fn facility_type(self, facility_type: RevolvingType) -> (r: RevolvingFacilityBuilder)
        ensures
            r == (RevolvingFacilityBuilder { facility_type: Some(facility_type), ..self }),
    {
        RevolvingFacilityBuilder { facility_type: Some(facility_type), ..self }
    }

    /// Set the credit limit.
    pub fn credit_limit(self, limit: Money) -> (r: RevolvingFacilityBuilder)
        ensures
            r == (RevolvingFacilityBuilder { credit_limit: Some(limit), ..self }),
    {
        RevolvingFacilityBuilder { credit_limit: Some(limit), ..self }
    }

    /// Set the annual rate.
    pub fn rate(self, rate: Rate) -> (r: RevolvingFacilityBuilder)
        ensures
            r == (RevolvingFacilityBuilder { rate: Some(rate), ..self }),
    {
        RevolvingFacilityBuilder { rate: Some(rate), ..self }
    }

    /// Set the minimum payment percentage.
    pub fn minimum_percentage(self, percentage: Rate) -> (r: RevolvingFacilityBuilder)
        ensures
            r == (RevolvingFacilityBuilder { minimum_percentage: Some(percentage), ..self }),
    {
        RevolvingFacilityBuilder { minimum_percentage: Some(percentage), ..self }
    }

    /// Set the commitment fee rate.
    pub fn commitment_fee_rate(self, rate: Rate) -> (r: RevolvingFacilityBuilder)
        ensures
            r == (RevolvingFacilityBuilder { commitment_fee_rate: Some(rate), ..self }),
    {
        RevolvingFacilityBuilder { commitment_fee_rate: Some(rate), ..self }
    }

    /// Set the property value (marks a home-equity line).
    pub fn property_value(self, value: Money) -> (r: RevolvingFacilityBuilder)
        ensures
            r == (RevolvingFacilityBuilder { property_value: Some(value), ..self }),
    {
        RevolvingFacilityBuilder { property_value: Some(value), ..self }
    }

    /// Set the draw period in months.
    pub fn draw_period_months(self, months: u32) -> (r: RevolvingFacilityBuilder)
        ensures
            r == (RevolvingFacilityBuilder { draw_period: Some(months), ..self }),
    {
        RevolvingFacilityBuilder { draw_period: Some(months), ..self }
    }

    /// Set the repayment period in months.
    pub fn repayment_period_months(self, months: u32) -> (r: RevolvingFacilityBuilder)
        ensures
            r == (RevolvingFacilityBuilder { repayment_period: Some(months), ..self }),
    {
        RevolvingFacilityBuilder { repayment_period: Some(months), ..self }
    }

    /// Set the account number.
    pub fn account_number(self, account: String) -> (r: RevolvingFacilityBuilder)
        ensures
            r.credit_limit == self.credit_limit && r.rate == self.rate,
    {
        RevolvingFacilityBuilder { account_number: Some(account), ..self }
    }

    /// Set the customer identifier.
    pub fn customer_id(self, customer: String) -> (r: RevolvingFacilityBuilder)
        ensures
            r.credit_limit == self.credit_limit && r.rate == self.rate,
    {
        RevolvingFacilityBuilder { customer_id: Some(customer), ..self }
    }

    /// Build the facility at the provider's instant.
    pub fn build_with_time(self, time_provider: &hourglass_rs::SafeTimeProvider)
        -> (r: Result<RevolvingFacility, FacilityError>)
        ensures
            r matches Ok(t) ==> revolving_wf(t) && t.facility.state.status
                == FacilityStatus::Originated,
    {
        let credit_limit = match self.credit_limit {
            Some(l) => l,
            None => {
                return Err(FacilityError::InvalidConfiguration { message: String::new() });
            },
        };
        let rate = match self.rate {
            Some(x) => x,
            None => {
                return Err(FacilityError::InvalidConfiguration { message: String::new() });
            },
        };
        if credit_limit.atoms < 0 || credit_limit.atoms > POW_BASE_LIMIT || rate.atoms < 0
            || rate.atoms > RATE_LIMIT || rate.atoms * 3 > RATE_LIMIT * 2
            || rate.atoms + 5_000_000 > RATE_LIMIT {
            return Err(FacilityError::InvalidConfiguration { message: String::new() });
        }
        let now = provider_now(time_provider);
        if now < 0 || now > MAX_TIMESTAMP {
            return Err(FacilityError::InvalidDate { message: String::new() });
        }
        let facility_type = match self.facility_type {
            Some(ft) => ft,
            None => {
                if self.property_value.is_some() {
                    RevolvingType::Heloc
                } else {
                    RevolvingType::LineOfCredit
                }
            },
        };
        let config = match facility_type {
            RevolvingType::CreditCard => {
                let minimum = match self.minimum_percentage {
                    Some(p) => p,
                    None => Rate { atoms: 2_000_000 },
                };
                if minimum.atoms < 0 || minimum.atoms > RATE_LIMIT {
                    return Err(FacilityError::InvalidConfiguration {
                        message: String::new(),
                    });
                }
                FacilityConfig::credit_card(credit_limit, rate, minimum, now)
            },
            RevolvingType::LineOfCredit => {
                let cfr = match self.commitment_fee_rate {
                    Some(c) => c,
                    None => Rate { atoms: 500_000 },
                };
                if cfr.atoms < 0 || cfr.atoms > RATE_LIMIT {
                    return Err(FacilityError::InvalidConfiguration {
                        message: String::new(),
                    });
                }
                FacilityConfig::line_of_credit(credit_limit, rate, cfr, now)
            },
            RevolvingType::Heloc => {
                let property_value = match self.property_value {
                    Some(v) => v,
                    None => {
                        return Err(FacilityError::InvalidConfiguration {
                            message: String::new(),
                        });
                    },
                };
                if property_value.atoms <= 0 || property_value.atoms > MUL_LIMIT {
                    return Err(FacilityError::InvalidCollateral { message: String::new() });
                }
                let draw = match self.draw_period {
                    Some(d) => d,
                    None => 120,
                };
                let repay = match self.repayment_period {
                    Some(x) => x,
                    None => 240,
                };
                if draw > 300 || repay > 300 {
                    return Err(FacilityError::InvalidConfiguration {
                        message: String::new(),
                    });
                }
                FacilityConfig::heloc(credit_limit, rate, property_value, draw, repay, now)
            },
        };
        let account_number = match self.account_number {
            Some(a) => a,
            None => String::new(),
        };
        let customer_id = match self.customer_id {
            Some(c) => c,
            None => String::new(),
        };
        let facility = match Facility::originate(config, account_number, customer_id,
            time_provider) {
            Ok(f) => f,
            Err(e) => {
                return Err(e);
            },
        };
        RevolvingFacility::new(facility)
    }

    /// Build the facility against the system clock.
    pub fn build_now(self) -> (r: Result<RevolvingFacility, FacilityError>)
        ensures
            r matches Ok(t) ==> revolving_wf(t),
    {
        let time = crate::clock::system_time_provider();
        self.build_with_time(&time)
    }
}

} // verus!
