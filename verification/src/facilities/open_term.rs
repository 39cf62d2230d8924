//! Open-term collateralized loans: perpetual, no schedule, watched by a
//! loan-to-value ladder.

use vstd::prelude::*;
use crate::clock::provider_now;
use crate::collateral::ltv::ltv_of;
use crate::config::{FacilityConfig, FacilityType};
use crate::dates::MAX_TIMESTAMP;
use crate::errors::FacilityError;
use crate::events::{Event, StatusReason};
use crate::facility::{effective_payment, facility_wf, payment_accepted, Facility};
use crate::money::{
    div_round, lemma_mul_bounds, mul_scaled, Money, Rate, MUL_LIMIT, POW_BASE_LIMIT,
    RATE_LIMIT, SCALE,
};
use crate::payments::waterfall::{
    lemma_waterfall_full_payment, PaymentWaterfall, WaterfallPriority,
};
use crate::payments::PaymentContext;
use crate::state::total_outstanding_of;
use crate::types::{FacilityStatus, LtvStatus, LtvThresholds, OpenTermType};

verus! {

/// An open-term loan: a facility against a quantity of a volatile asset
/// at a tracked unit price.
pub struct OpenTermLoan {
    pub facility: Facility,
    pub btc_amount: Money,
    pub btc_price: Money,
    pub last_ltv_check: i64,
    pub margin_call_active: bool,
    pub margin_call_deadline: Option<i64>,
}

/// What every open-term operation preserves.
pub open spec fn open_term_wf(t: OpenTermLoan) -> bool {
    &&& facility_wf(t.facility)
    &&& t.facility.config.facility_type is OpenTermLoan
    &&& 0 <= t.btc_amount.atoms <= MUL_LIMIT
    &&& 0 <= t.btc_price.atoms <= RATE_LIMIT * 1_000
    &&& t.facility.config.collateral_config is Some
}

/// The collateral's value: quantity times unit price at eight digits,
/// clamped into the computable range.
pub open spec fn collateral_value_spec(amount: int, price: int) -> int {
    let v = mul_scaled(amount, price);
    if v < 0 {
        0
    } else if v > MUL_LIMIT {
        MUL_LIMIT as int
    } else {
        v
    }
}

/// The loan-to-value ratio of an open-term loan: total debt over the
/// collateral value; a full hundred percent with worthless collateral.
pub open spec fn open_ltv_spec(t: OpenTermLoan) -> int {
    let cv = collateral_value_spec(t.btc_amount.atoms as int, t.btc_price.atoms as int);
    if cv <= 0 {
        SCALE as int
    } else {
        ltv_of(total_outstanding_of(t.facility.state), cv)
    }
}

impl OpenTermLoan {
    /// Wrap a facility over the given collateral; fails exactly where it
    /// is not an open-term loan.
    pub fn new(facility: Facility, btc_amount: Money, btc_price: Money)
        -> (r: Result<OpenTermLoan, FacilityError>)
        ensures
            r is Err <==> !(facility.config.facility_type is OpenTermLoan
                && facility.config.collateral_config is Some
                && 0 <= btc_amount.atoms <= MUL_LIMIT
                && 0 <= btc_price.atoms <= RATE_LIMIT * 1_000),
            r matches Ok(t) ==> t.facility == facility && t.btc_amount == btc_amount
                && t.btc_price == btc_price && !t.margin_call_active,
    {
        if !matches!(facility.config.facility_type, FacilityType::OpenTermLoan(_)) {
            return Err(FacilityError::InvalidConfiguration { message: String::new() });
        }
        if facility.config.collateral_config.is_none() {
            return Err(FacilityError::InvalidConfiguration { message: String::new() });
        }
        if btc_amount.atoms < 0 || btc_amount.atoms > MUL_LIMIT || btc_price.atoms < 0
            || btc_price.atoms > RATE_LIMIT * 1_000 {
            return Err(FacilityError::InvalidCollateral { message: String::new() });
        }
        Ok(OpenTermLoan {
            facility,
            btc_amount,
            btc_price,
            last_ltv_check: 0,
            margin_call_active: false,
            margin_call_deadline: None,
        })
    }

    /// A builder for open-term loans.
    pub fn builder() -> (r: OpenTermLoanBuilder)
        ensures
            r.amount is None,
            r.rate is None,
    {
        OpenTermLoanBuilder::new()
    }

    /// The collateral's current value.
    pub fn collateral_value(&self) -> (r: Money)
        requires
            open_term_wf(*self),
        ensures
            r.atoms as int == collateral_value_spec(self.btc_amount.atoms as int,
                self.btc_price.atoms as int),
            0 <= r.atoms <= MUL_LIMIT,
    {
        proof {
            lemma_mul_bounds(self.btc_amount.atoms as int, self.btc_price.atoms as int,
                MUL_LIMIT as int, (RATE_LIMIT as int) * 1_000);
        }
        let v = div_round(self.btc_amount.atoms * self.btc_price.atoms, SCALE);
        if v < 0 {
            Money::zero()
        } else if v > MUL_LIMIT {
            Money { atoms: MUL_LIMIT }
        } else {
            Money { atoms: v }
        }
    }

    /// The current loan-to-value ratio.
    pub fn calculate_ltv(&self) -> (r: Rate)
        requires
            open_term_wf(*self),
        ensures
            r.atoms as int == open_ltv_spec(*self),
    {
        let cv = self.collateral_value();
        if cv.atoms <= 0 {
            return Rate::from_percentage(100);
        }
        let debt = self.facility.state.total_outstanding();
        proof {
            lemma_mul_bounds(debt.atoms as int, SCALE as int, 4 * MUL_LIMIT, SCALE as int);
        }
        Rate { atoms: div_round(debt.atoms * SCALE, cv.atoms) }
    }

    /// Activate the loan: record the collateral valuation, mark the
    /// facility active and report the origination with its collateral.
    /// The provider's instant is clamped to the supported range, so
    /// activation always goes through.
    pub fn originate(&mut self, time_provider: &hourglass_rs::SafeTimeProvider)
        -> (r: Result<(), FacilityError>)
        requires
            open_term_wf(*old(self)),
        ensures
            r is Ok,
            open_term_wf(*final(self)),
            final(self).facility.state.status == FacilityStatus::Active,
            final(self).facility.state.activation_date is Some,
            final(self).btc_amount == old(self).btc_amount,
            final(self).btc_price == old(self).btc_price,
            final(self).facility.config == old(self).facility.config,
            old(self).facility.state.facility_specific is OpenTerm ==>
                crate::state::open_term_collateral_value(final(self).facility.state)
                == collateral_value_spec(old(self).btc_amount.atoms as int,
                old(self).btc_price.atoms as int),
            final(self).facility.events.events@.len()
                == old(self).facility.events.events@.len() + 1,
            final(self).facility.events.events@.last() matches Event::FacilityOriginated {
                amount,
                collateral_amount,
                ..
            } && amount == old(self).facility.config.financial_terms.commitment_amount
                && collateral_amount == old(self).btc_amount,
    {
        let now_raw = provider_now(time_provider);
        let now = if now_raw < 0 {
            0
        } else if now_raw > MAX_TIMESTAMP {
            MAX_TIMESTAMP
        } else {
            now_raw
        };
        let cv = self.collateral_value();
        self.facility.state.update_collateral_value(cv, now);
        self.set_collateral_amount();
        self.facility.state.update_status(FacilityStatus::Active, now);
        self.facility.state.activation_date = Some(now);
        self.facility.events.emit(Event::FacilityOriginated {
            facility_id: self.facility.id,
            amount: self.facility.config.financial_terms.commitment_amount,
            collateral_type: "BTC".to_string(),
            collateral_amount: self.btc_amount,
        });
        Ok(())
    }

    /// Keep the state's collateral quantity in step with the held one.
    fn set_collateral_amount(&mut self)
        requires
            open_term_wf(*old(self)),
        ensures
            open_term_wf(*final(self)),
            final(self).facility.state.status == old(self).facility.state.status,
            final(self).facility.state.activation_date
                == old(self).facility.state.activation_date,
            final(self).facility.state.outstanding_principal
                == old(self).facility.state.outstanding_principal,
            final(self).facility.state.accrued_interest
                == old(self).facility.state.accrued_interest,
            final(self).btc_amount == old(self).btc_amount,
            final(self).btc_price == old(self).btc_price,
            final(self).facility.events.events@ == old(self).facility.events.events@,
            final(self).margin_call_active == old(self).margin_call_active,
            final(self).margin_call_deadline == old(self).margin_call_deadline,
            final(self).facility.config == old(self).facility.config,
            crate::state::open_term_collateral_value(final(self).facility.state)
                == crate::state::open_term_collateral_value(old(self).facility.state),
            old(self).facility.state.facility_specific is OpenTerm ==> final(
                self).facility.state.facility_specific is OpenTerm,
    {
        if let crate::state::FacilitySpecificState::OpenTerm {
            collateral_value,
            last_valuation,
            margin_call_active,
            margin_call_deadline,
            ..
        } = self.facility.state.facility_specific {
            self.facility.state.facility_specific
                = crate::state::FacilitySpecificState::OpenTerm {
                collateral_value,
                collateral_amount: self.btc_amount,
                last_valuation,
                margin_call_active,
                margin_call_deadline,
            };
        }
    }

    /// Activate the loan (an alias for origination).
    pub fn approve(&mut self, time_provider: &hourglass_rs::SafeTimeProvider)
        -> (r: Result<(), FacilityError>)
        requires
            open_term_wf(*old(self)),
        ensures
            r is Ok,
            open_term_wf(*final(self)),
            final(self).facility.state.status == FacilityStatus::Active,
    {
        self.originate(time_provider)
    }

    /// Deny the loan before any disbursement.
    pub fn deny(&mut self, time_provider: &hourglass_rs::SafeTimeProvider)
        -> (r: Result<(), FacilityError>)
        requires
            open_term_wf(*old(self)),
        ensures
            r is Ok ==> open_term_wf(*final(self)) && final(self).facility.state.status
                == FacilityStatus::Settled,
    {
        let now = provider_now(time_provider);
        if now < 0 || now > MAX_TIMESTAMP {
            return Err(FacilityError::InvalidDate { message: String::new() });
        }
        let old_status = self.facility.state.status;
        self.facility.state.update_status(FacilityStatus::Settled, now);
        self.facility.events.emit(Event::StatusChanged {
            facility_id: self.facility.id,
            old_status,
            new_status: FacilityStatus::Settled,
            reason: StatusReason::Denied,
            timestamp: now,
        });
        Ok(())
    }

    /// Pay funds out; open-term loans carry no payment schedule.
    pub fn disburse(&mut self, amount: Money,
        time_provider: &hourglass_rs::SafeTimeProvider) -> (r: Result<Money, FacilityError>)
        requires
            open_term_wf(*old(self)),
        ensures
            r matches Ok(a) ==> a == amount && open_term_wf(*final(self))
                && final(self).facility.state.outstanding_principal.atoms
                == old(self).facility.state.outstanding_principal.atoms + amount.atoms
                && final(self).facility.state.next_payment_due is None
                && final(self).facility.state.minimum_payment_due is None,
    {
        let disbursed = match self.facility.disburse(amount, time_provider) {
            Ok(a) => a,
            Err(e) => {
                return Err(e);
            },
        };
        self.facility.state.next_payment_due = None;
        self.facility.state.next_payment_amount = None;
        self.facility.state.minimum_payment_due = None;
        Ok(disbursed)
    }

    /// Activate and draw the full commitment in one step.
    pub fn originate_and_disburse(&mut self, time_provider: &hourglass_rs::SafeTimeProvider)
        -> (r: Result<Money, FacilityError>)
        requires
            open_term_wf(*old(self)),
        ensures
            r is Ok ==> open_term_wf(*final(self)),
    {
        match self.originate(time_provider) {
            Ok(()) => {},
            Err(e) => {
                return Err(e);
            },
        }
        let amount = self.facility.config.financial_terms.commitment_amount;
        self.disburse(amount, time_provider)
    }

    /// Activate and draw the full commitment in one step.
    pub fn originate_and_disburse_with_time(&mut self,
        time_provider: &hourglass_rs::SafeTimeProvider) -> (r: Result<Money, FacilityError>)
        requires
            open_term_wf(*old(self)),
        ensures
            r is Ok ==> open_term_wf(*final(self)),
    {
        self.originate_and_disburse(time_provider)
    }

    /// Classify the given ratio and act on it: entering margin call sets
    /// a deadline by the configured window; a healthy ratio resolves one;
    /// past the liquidation threshold the facility moves to liquidating.
    fn check_ltv_status(&mut self, ltv: Rate, now: i64) -> (r: Result<LtvStatus,
        FacilityError>)
        requires
            open_term_wf(*old(self)),
            0 <= now <= MAX_TIMESTAMP,
        ensures
            r is Ok,
            r is Ok ==> open_term_wf(*final(self)),
            final(self).facility.state.accrued_fees == old(self).facility.state.accrued_fees,
            final(self).facility.state.accrued_penalties
                == old(self).facility.state.accrued_penalties,
            final(self).facility.state.accrued_interest
                == old(self).facility.state.accrued_interest,
            final(self).facility.state.outstanding_principal
                == old(self).facility.state.outstanding_principal,
            final(self).facility.state.total_payments_received
                == old(self).facility.state.total_payments_received,
            final(self).facility.state.payment_count
                == old(self).facility.state.payment_count,
            r matches Ok(status) ==> {
                let t = open_thresholds(*old(self));
                &&& status == open_term_ladder(ltv.atoms as int, t)
                &&& (status == LtvStatus::Healthy ==> !final(self).margin_call_active)
                &&& ((status == LtvStatus::MarginCall && !old(self).margin_call_active) ==>
                    final(self).margin_call_active)
                &&& (status == LtvStatus::Liquidation ==> final(self).facility.state.status
                    == FacilityStatus::Liquidating)
                &&& final(self).btc_amount == old(self).btc_amount
                &&& final(self).btc_price == old(self).btc_price
            },
    {
        let thresholds = match &self.facility.config.collateral_config {
            Some(cc) => cc.ltv_thresholds,
            None => {
                return Err(FacilityError::InvalidConfiguration { message: String::new() });
            },
        };
        let margin_call_days = match &self.facility.config.collateral_config {
            Some(cc) => cc.margin_call_days,
            None => 0,
        };
        let status = if ltv.atoms <= thresholds.warning_ltv.atoms {
            LtvStatus::Healthy
        } else if ltv.atoms <= thresholds.margin_call_ltv.atoms {
            LtvStatus::Warning
        } else if ltv.atoms <= thresholds.liquidation_ltv.atoms {
            LtvStatus::MarginCall
        } else {
            LtvStatus::Liquidation
        };
        match status {
            LtvStatus::Healthy => {
                if self.margin_call_active {
                    self.margin_call_active = false;
                    self.margin_call_deadline = None;
                    self.facility.events.emit(Event::MarginCallResolved {
                        facility_id: self.facility.id,
                        new_ltv: ltv,
                        timestamp: now,
                    });
                }
            },
            LtvStatus::Warning => {
                self.facility.events.emit(Event::LtvWarningBreached {
                    facility_id: self.facility.id,
                    ltv_ratio: ltv,
                    threshold: thresholds.warning_ltv,
                    timestamp: now,
                });
            },
            LtvStatus::MarginCall => {
                if !self.margin_call_active {
                    self.margin_call_active = true;
                    let deadline = if margin_call_days <= 3653 {
                        now + (margin_call_days as i64) * 86_400
                    } else {
                        now
                    };
                    self.margin_call_deadline = Some(deadline);
                    self.facility.events.emit(Event::MarginCallRequired {
                        facility_id: self.facility.id,
                        current_ltv: ltv,
                        required_ltv: thresholds.margin_call_ltv,
                        deadline,
                        collateral_remedy: Money::zero(),
                        payment_remedy: Money::zero(),
                    });
                }
            },
            LtvStatus::Liquidation => {
                self.facility.state.update_status(FacilityStatus::Liquidating, now);
                let cv = self.collateral_value();
                self.facility.events.emit(Event::LiquidationTriggered {
                    facility_id: self.facility.id,
                    ltv_ratio: ltv,
                    collateral_value: cv,
                    debt_amount: self.facility.state.total_outstanding(),
                    timestamp: now,
                });
            },
        }
        Ok(status)
    }

    /// Record a new unit price, revalue the collateral, and classify the
    /// fresh ratio.
    pub fn update_btc_price(&mut self, new_price: Money,
        time_provider: &hourglass_rs::SafeTimeProvider) -> (r: Result<LtvStatus,
        FacilityError>)
        requires
            open_term_wf(*old(self)),
        ensures
            r is Ok <==> 0 <= new_price.atoms <= RATE_LIMIT * 1_000,
            r is Err ==> *final(self) == *old(self),
            r is Ok ==> open_term_wf(*final(self)) && final(self).btc_price == new_price,
    {
        self.update_btc_price_with_time(new_price, time_provider)
    }

    /// Record a new unit price (see `update_btc_price`).
    pub fn update_btc_price_with_time(&mut self, new_price: Money,
        time_provider: &hourglass_rs::SafeTimeProvider) -> (r: Result<LtvStatus,
        FacilityError>)
        requires
            open_term_wf(*old(self)),
        ensures
            r is Ok <==> 0 <= new_price.atoms <= RATE_LIMIT * 1_000,
            r is Err ==> *final(self) == *old(self),
            r is Ok ==> open_term_wf(*final(self)) && final(self).btc_price == new_price,
    {
        if new_price.atoms < 0 || new_price.atoms > RATE_LIMIT * 1_000 {
            return Err(FacilityError::InvalidCollateral { message: String::new() });
        }
        let now_raw = provider_now(time_provider);
        let now = if now_raw < 0 {
            0
        } else if now_raw > MAX_TIMESTAMP {
            MAX_TIMESTAMP
        } else {
            now_raw
        };
        self.btc_price = new_price;
        let cv = self.collateral_value();
        self.facility.state.update_collateral_value(cv, now);
        self.last_ltv_check = now;
        let ltv = self.calculate_ltv();
        let status = match self.check_ltv_status(ltv, now) {
            Ok(s) => s,
            Err(e) => {
                return Err(e);
            },
        };
        self.facility.events.emit(Event::LtvCalculated {
            facility_id: self.facility.id,
            ltv_ratio: ltv,
            collateral_value: cv,
            total_debt: self.facility.state.total_outstanding(),
            timestamp: now,
        });
        Ok(status)
    }

    /// Add collateral, revalue and reclassify.
    pub fn add_collateral(&mut self, additional_btc: Money,
        time_provider: &hourglass_rs::SafeTimeProvider) -> (r: Result<(), FacilityError>)
        requires
            open_term_wf(*old(self)),
        ensures
            r is Ok <==> 0 <= additional_btc.atoms && old(self).btc_amount.atoms
                + additional_btc.atoms <= MUL_LIMIT,
            r is Err ==> *final(self) == *old(self),
            r is Ok ==> open_term_wf(*final(self)) && final(self).btc_amount.atoms
                == old(self).btc_amount.atoms + additional_btc.atoms,
    {
        self.add_collateral_with_time(additional_btc, time_provider)
    }

    /// Add collateral (see `add_collateral`).
    pub fn add_collateral_with_time(&mut self, additional_btc: Money,
        time_provider: &hourglass_rs::SafeTimeProvider) -> (r: Result<(), FacilityError>)
        requires
            open_term_wf(*old(self)),
        ensures
            r is Ok <==> 0 <= additional_btc.atoms && old(self).btc_amount.atoms
                + additional_btc.atoms <= MUL_LIMIT,
            r is Err ==> *final(self) == *old(self),
            r is Ok ==> open_term_wf(*final(self)) && final(self).btc_amount.atoms
                == old(self).btc_amount.atoms + additional_btc.atoms,
    {
        if additional_btc.atoms < 0 || additional_btc.atoms > MUL_LIMIT
            || self.btc_amount.atoms + additional_btc.atoms > MUL_LIMIT {
            return Err(FacilityError::InvalidCollateral { message: String::new() });
        }
        let now_raw = provider_now(time_provider);
        let now = if now_raw < 0 {
            0
        } else if now_raw > MAX_TIMESTAMP {
            MAX_TIMESTAMP
        } else {
            now_raw
        };
        self.btc_amount = self.btc_amount.add(additional_btc);
        let cv = self.collateral_value();
        self.facility.state.update_collateral_value(cv, now);
        self.set_collateral_amount();
        let ltv = self.calculate_ltv();
        self.facility.events.emit(Event::CollateralAdded {
            facility_id: self.facility.id,
            amount: additional_btc,
            new_total: self.btc_amount,
            new_ltv: ltv,
            timestamp: now,
        });
        match self.check_ltv_status(ltv, now) {
            Ok(_) => Ok(()),
            Err(e) => Err(e),
        }
    }

    /// Apply a voluntary payment and reclassify the ratio afterwards.
    pub fn process_payment(&mut self, amount: Money,
        time_provider: &hourglass_rs::SafeTimeProvider) -> (r: Result<(), FacilityError>)
        requires
            open_term_wf(*old(self)),
            -MUL_LIMIT <= amount.atoms <= MUL_LIMIT,
        ensures
            r is Ok <==> payment_accepted(old(self).facility, amount.atoms as int),
            r is Err ==> final(self).facility.state == old(self).facility.state,
            r is Ok ==> open_term_wf(*final(self)) && final(self).btc_amount
                == old(self).btc_amount && final(self).btc_price == old(self).btc_price,
            r is Ok ==> ({
                let pre = old(self).facility;
                let eff = effective_payment(pre, amount.atoms as int);
                let st = crate::payments::waterfall::wf_run(PaymentWaterfall {
                    fees_priority: WaterfallPriority::First,
                    penalties_priority: WaterfallPriority::Second,
                    interest_priority: WaterfallPriority::Third,
                    principal_priority: WaterfallPriority::Fourth,
                    allow_overpayment: true,
                }, PaymentContext {
                    facility_id: pre.id,
                    accrued_fees: pre.state.accrued_fees,
                    accrued_penalties: pre.state.accrued_penalties,
                    accrued_interest: pre.state.accrued_interest,
                    outstanding_principal: pre.state.outstanding_principal,
                    minimum_payment: None,
                    payment_due_date: pre.state.next_payment_due,
                    days_overdue: pre.state.days_past_due,
                }, eff);
                &&& final(self).facility.state.total_payments_received.atoms
                    == pre.state.total_payments_received.atoms + amount.atoms
                &&& final(self).facility.state.payment_count == pre.state.payment_count + 1
                &&& (!crate::facility::payment_held(pre, amount.atoms as int) ==> {
                    &&& final(self).facility.state.accrued_fees.atoms == st.fees
                    &&& final(self).facility.state.accrued_penalties.atoms == st.penalties
                    &&& final(self).facility.state.accrued_interest.atoms == st.interest
                    &&& final(self).facility.state.outstanding_principal.atoms
                        == st.principal
                })
            }),
    {
        self.process_payment_with_time(amount, time_provider)
    }

    /// Apply a voluntary payment (see `process_payment`). The waterfall
    /// outcome is fixed below; whether the fresh ratio is also
    /// reclassified depends on the provider reporting an in-range
    /// instant.
    pub fn process_payment_with_time(&mut self, amount: Money,
        time_provider: &hourglass_rs::SafeTimeProvider) -> (r: Result<(), FacilityError>)
        requires
            open_term_wf(*old(self)),
            -MUL_LIMIT <= amount.atoms <= MUL_LIMIT,
        ensures
            r is Ok <==> payment_accepted(old(self).facility, amount.atoms as int),
            r is Err ==> final(self).facility.state == old(self).facility.state,
            r is Ok ==> open_term_wf(*final(self)) && final(self).btc_amount
                == old(self).btc_amount && final(self).btc_price == old(self).btc_price,
            r is Ok ==> ({
                let pre = old(self).facility;
                let eff = effective_payment(pre, amount.atoms as int);
                let st = crate::payments::waterfall::wf_run(PaymentWaterfall {
                    fees_priority: WaterfallPriority::First,
                    penalties_priority: WaterfallPriority::Second,
                    interest_priority: WaterfallPriority::Third,
                    principal_priority: WaterfallPriority::Fourth,
                    allow_overpayment: true,
                }, PaymentContext {
                    facility_id: pre.id,
                    accrued_fees: pre.state.accrued_fees,
                    accrued_penalties: pre.state.accrued_penalties,
                    accrued_interest: pre.state.accrued_interest,
                    outstanding_principal: pre.state.outstanding_principal,
                    minimum_payment: None,
                    payment_due_date: pre.state.next_payment_due,
                    days_overdue: pre.state.days_past_due,
                }, eff);
                &&& final(self).facility.state.total_payments_received.atoms
                    == pre.state.total_payments_received.atoms + amount.atoms
                &&& final(self).facility.state.payment_count == pre.state.payment_count + 1
                &&& (!crate::facility::payment_held(pre, amount.atoms as int) ==> {
                    &&& final(self).facility.state.accrued_fees.atoms == st.fees
                    &&& final(self).facility.state.accrued_penalties.atoms == st.penalties
                    &&& final(self).facility.state.accrued_interest.atoms == st.interest
                    &&& final(self).facility.state.outstanding_principal.atoms
                        == st.principal
                })
            }),
    {
        match self.facility.process_payment(amount, time_provider) {
            Ok(_) => {},
            Err(e) => {
                return Err(e);
            },
        }
        let now = provider_now(time_provider);
        if now < 0 || now > MAX_TIMESTAMP {
            return Ok(());
        }
        let ltv = self.calculate_ltv();
        match self.check_ltv_status(ltv, now) {
            Ok(_) => Ok(()),
            Err(e) => Err(e),
        }
    }

    /// Apply a voluntary payment (an alias for payment processing).
    pub fn make_payment(&mut self, amount: Money,
        time_provider: &hourglass_rs::SafeTimeProvider) -> (r: Result<(), FacilityError>)
        requires
            open_term_wf(*old(self)),
            -MUL_LIMIT <= amount.atoms <= MUL_LIMIT,
        ensures
            r is Ok <==> payment_accepted(old(self).facility, amount.atoms as int),
            r is Err ==> final(self).facility.state == old(self).facility.state,
            r is Ok ==> open_term_wf(*final(self))
                && final(self).facility.state.total_payments_received.atoms
                == old(self).facility.state.total_payments_received.atoms + amount.atoms
                && final(self).facility.state.payment_count
                == old(self).facility.state.payment_count + 1,
    {
        self.process_payment(amount, time_provider)
    }

    /// Accrue daily interest; open-term loans never drift delinquent.
    pub fn accrue_interest(&mut self, time_provider: &hourglass_rs::SafeTimeProvider)
        -> (r: Result<(), FacilityError>)
        requires
            open_term_wf(*old(self)),
        ensures
            r is Ok ==> open_term_wf(*final(self))
                && final(self).facility.state.days_past_due
                == old(self).facility.state.days_past_due,
    {
        self.accrue_interest_with_time(time_provider)
    }

    /// Accrue daily interest (see `accrue_interest`).
    pub fn accrue_interest_with_time(&mut self,
        time_provider: &hourglass_rs::SafeTimeProvider) -> (r: Result<(), FacilityError>)
        requires
            open_term_wf(*old(self)),
        ensures
            r is Ok ==> open_term_wf(*final(self))
                && final(self).facility.state.days_past_due
                == old(self).facility.state.days_past_due,
    {
        match self.facility.accrue_interest(time_provider) {
            Ok(_) => Ok(()),
            Err(e) => Err(e),
        }
    }

    /// What a full payoff costs right now.
    pub fn total_payoff_amount(&self) -> (r: Money)
        requires
            open_term_wf(*self),
        ensures
            r.atoms == total_outstanding_of(self.facility.state),
    {
        self.facility.state.total_outstanding()
    }

    /// Pay the whole debt, settle, and release the collateral.
    pub fn payoff_and_release(&mut self, time_provider: &hourglass_rs::SafeTimeProvider)
        -> (r: Result<Money, FacilityError>)
        requires
            open_term_wf(*old(self)),
        ensures
            r is Ok <==> total_outstanding_of(old(self).facility.state) <= MUL_LIMIT && (
                total_outstanding_of(old(self).facility.state) > 0 ==> payment_accepted(
                old(self).facility, total_outstanding_of(old(self).facility.state))),
            r matches Ok(q) ==> {
                &&& open_term_wf(*final(self))
                &&& q == old(self).btc_amount
                &&& final(self).facility.state.status == FacilityStatus::Settled
                &&& total_outstanding_of(final(self).facility.state) == 0
                &&& (final(self).facility.events.events@.last() matches
                    Event::CollateralReleased { amount, .. } && amount
                    == old(self).btc_amount)
            },
    {
        self.payoff_and_release_with_time(time_provider)
    }

    /// Pay the whole debt and release (see `payoff_and_release`).
    pub fn payoff_and_release_with_time(&mut self,
        time_provider: &hourglass_rs::SafeTimeProvider) -> (r: Result<Money, FacilityError>)
        requires
            open_term_wf(*old(self)),
        ensures
            r is Ok <==> total_outstanding_of(old(self).facility.state) <= MUL_LIMIT && (
                total_outstanding_of(old(self).facility.state) > 0 ==> payment_accepted(
                old(self).facility, total_outstanding_of(old(self).facility.state))),
            r matches Ok(q) ==> {
                &&& open_term_wf(*final(self))
                &&& q == old(self).btc_amount
                &&& final(self).facility.state.status == FacilityStatus::Settled
                &&& total_outstanding_of(final(self).facility.state) == 0
                &&& (final(self).facility.events.events@.last() matches
                    Event::CollateralReleased { amount, .. } && amount
                    == old(self).btc_amount)
            },
    {
        let payoff = self.facility.state.total_outstanding();
        if payoff.atoms > MUL_LIMIT {
            return Err(FacilityError::CalculationError { message: String::new() });
        }
        if payoff.atoms > 0 {
            let ghost pre = self.facility;
            match self.facility.process_payment(payoff, time_provider) {
                Ok(_) => {
                    proof {
                        let w = PaymentWaterfall {
                            fees_priority: WaterfallPriority::First,
                            penalties_priority: WaterfallPriority::Second,
                            interest_priority: WaterfallPriority::Third,
                            principal_priority: WaterfallPriority::Fourth,
                            allow_overpayment: true,
                        };
                        let ctx = PaymentContext {
                            facility_id: pre.id,
                            accrued_fees: pre.state.accrued_fees,
                            accrued_penalties: pre.state.accrued_penalties,
                            accrued_interest: pre.state.accrued_interest,
                            outstanding_principal: pre.state.outstanding_principal,
                            minimum_payment: None,
                            payment_due_date: pre.state.next_payment_due,
                            days_overdue: pre.state.days_past_due,
                        };
                        lemma_waterfall_full_payment(w, ctx, effective_payment(pre,
                            payoff.atoms as int));
                    }
                },
                Err(e) => {
                    return Err(e);
                },
            }
        }
        let now = provider_now(time_provider);
        let stamped = if now < 0 {
            0
        } else if now > MAX_TIMESTAMP {
            MAX_TIMESTAMP
        } else {
            now
        };
        self.facility.state.update_status(FacilityStatus::Settled, stamped);
        self.facility.events.emit(Event::CollateralReleased {
            facility_id: self.facility.id,
            collateral_type: "BTC".to_string(),
            amount: self.btc_amount,
            timestamp: stamped,
        });
        Ok(self.btc_amount)
    }

    /// The wrapped facility.
    pub fn facility(&self) -> (r: &Facility)
        ensures
            r == &self.facility,
    {
        &self.facility
    }

    /// The wrapped facility, mutably.
    pub fn facility_mut(&mut self) -> (r: &mut Facility)
        ensures
            *r == old(self).facility,
            final(self).facility == *final(r),
            final(self).btc_amount == old(self).btc_amount,
            final(self).btc_price == old(self).btc_price,
            final(self).margin_call_active == old(self).margin_call_active,
            final(self).margin_call_deadline == old(self).margin_call_deadline,
            final(self).last_ltv_check == old(self).last_ltv_check,
    {
        &mut self.facility
    }

    /// The held collateral quantity.
    pub fn btc_collateral(&self) -> (r: Money)
        ensures
            r == self.btc_amount,
    {
        self.btc_amount
    }

    /// The tracked unit price.
    pub fn btc_price(&self) -> (r: Money)
        ensures
            r == self.btc_price,
    {
        self.btc_price
    }

    /// Whether a margin call is active.
    pub fn is_margin_call_active(&self) -> (r: bool)
        ensures
            r == self.margin_call_active,
    {
        self.margin_call_active
    }
}

/// The ladder of an open-term loan: every boundary breaks toward the
/// lower severity.
pub open spec fn open_term_ladder(ltv: int, t: LtvThresholds) -> LtvStatus {
    if ltv <= t.warning_ltv.atoms {
        LtvStatus::Healthy
    } else if ltv <= t.margin_call_ltv.atoms {
        LtvStatus::Warning
    } else if ltv <= t.liquidation_ltv.atoms {
        LtvStatus::MarginCall
    } else {
        LtvStatus::Liquidation
    }
}

/// The configured thresholds of an open-term loan.
pub open spec fn open_thresholds(t: OpenTermLoan) -> LtvThresholds {
    match t.facility.config.collateral_config {
        Some(cc) => cc.ltv_thresholds,
        None => LtvThresholds {
            initial_ltv: Rate { atoms: 0 },
            warning_ltv: Rate { atoms: 0 },
            margin_call_ltv: Rate { atoms: 0 },
            liquidation_ltv: Rate { atoms: 0 },
        },
    }
}

/// Collects the figures of an open-term loan and builds it.
pub struct OpenTermLoanBuilder {
    pub loan_type: Option<OpenTermType>,
    pub amount: Option<Money>,
    pub rate: Option<Rate>,
    pub btc_amount: Option<Money>,
    pub btc_price: Option<Money>,
    pub account_number: Option<String>,
    pub customer_id: Option<String>,
}

impl OpenTermLoanBuilder {
    /// An empty builder.
    pub fn new() -> (r: OpenTermLoanBuilder)
        ensures
            r.amount is None,
            r.rate is None,
    {
        OpenTermLoanBuilder {
            loan_type: None,
            amount: None,
            rate: None,
            btc_amount: None,
            btc_price: None,
            account_number: None,
            customer_id: None,
        }
    }

    /// Choose the loan flavor.
    pub fn loan_type(self, loan_type: OpenTermType) -> (r: OpenTermLoanBuilder)
        ensures
            r == (OpenTermLoanBuilder { loan_type: Some(loan_type), ..self }),
    {
        OpenTermLoanBuilder { loan_type: Some(loan_type), ..self }
    }

    /// Set the commitment amount.
    pub fn amount(self, amount: Money) -> (r: OpenTermLoanBuilder)
        ensures
            r == (OpenTermLoanBuilder { amount: Some(amount), ..self }),
    {
        OpenTermLoanBuilder { amount: Some(amount), ..self }
    }

    /// Set the annual rate.
    pub fn rate(self, rate: Rate) -> (r: OpenTermLoanBuilder)
        ensures
            r == (OpenTermLoanBuilder { rate: Some(rate), ..self }),
    {
        OpenTermLoanBuilder { rate: Some(rate), ..self }
    }

    /// Set the collateral quantity.
    pub fn btc_collateral(self, btc: Money) -> (r: OpenTermLoanBuilder)
        ensures
            r == (OpenTermLoanBuilder { btc_amount: Some(btc), ..self }),
    {
        OpenTermLoanBuilder { btc_amount: Some(btc), ..self }
    }

    /// Set the collateral unit price.
    pub fn btc_price(self, price: Money) -> (r: OpenTermLoanBuilder)
        ensures
            r == (OpenTermLoanBuilder { btc_price: Some(price), ..self }),
    {
        OpenTermLoanBuilder { btc_price: Some(price), ..self }
    }

    /// Set the account number.
    pub fn account_number(self, account: String) -> (r: OpenTermLoanBuilder)
        ensures
            r.amount == self.amount && r.rate == self.rate,
    {
        OpenTermLoanBuilder { account_number: Some(account), ..self }
    }

    /// Set the customer identifier.
    pub fn customer_id(self, customer: String) -> (r: OpenTermLoanBuilder)
        ensures
            r.amount == self.amount && r.rate == self.rate,
    {
        OpenTermLoanBuilder { customer_id: Some(customer), ..self }
    }

    /// Build the loan at the provider's instant.
    pub fn build_with_time(self, time_provider: &hourglass_rs::SafeTimeProvider)
        -> (r: Result<OpenTermLoan, FacilityError>)
        ensures
            r matches Ok(t) ==> open_term_wf(t) && t.facility.state.status
                == FacilityStatus::Originated,
    {
        let amount = match self.amount {
            Some(a) => a,
            None => {
                return Err(FacilityError::InvalidConfiguration { message: String::new() });
            },
        };
        let rate = match self.rate {
            Some(x) => x,
            None => {
                return Err(FacilityError::InvalidConfiguration { message: String::new() });
            },
        };
        let loan_type = match self.loan_type {
            Some(lt) => lt,
            None => OpenTermType::BitcoinBacked,
        };
        if !matches!(loan_type, OpenTermType::BitcoinBacked) {
            return Err(FacilityError::OperationNotSupported);
        }
        let btc_amount = match self.btc_amount {
            Some(b) => b,
            None => {
                return Err(FacilityError::InvalidConfiguration { message: String::new() });
            },
        };
        let btc_price = match self.btc_price {
            Some(p) => p,
            None => {
                return Err(FacilityError::InvalidConfiguration { message: String::new() });
            },
        };
        if amount.atoms < 0 || amount.atoms > POW_BASE_LIMIT || rate.atoms < 0 || rate.atoms
            > RATE_LIMIT || btc_amount.atoms < 0 || btc_amount.atoms > MUL_LIMIT
            || btc_price.atoms < 0 || btc_price.atoms > RATE_LIMIT * 1_000 {
            return Err(FacilityError::InvalidConfiguration { message: String::new() });
        }
        let now = provider_now(time_provider);
        if now < 0 || now > MAX_TIMESTAMP {
            return Err(FacilityError::InvalidDate { message: String::new() });
        }
        let config = FacilityConfig::bitcoin_backed_loan(amount, rate, btc_amount,
            btc_price, now);
        let account_number = match self.account_number {
            Some(a) => a,
            None => String::new(),
        };
        let customer_id = match self.customer_id {
            Some(c) => c,
            None => String::new(),
        };
        let facility = match Facility::originate(config, account_number, customer_id,
            time_provider) {
            Ok(f) => f,
            Err(e) => {
                return Err(e);
            },
        };
        OpenTermLoan::new(facility, btc_amount, btc_price)
    }

    /// Build the loan against the system clock.
    pub fn build_now(self) -> (r: Result<OpenTermLoan, FacilityError>)
        ensures
            r matches Ok(t) ==> open_term_wf(t),
    {
        let time = crate::clock::system_time_provider();
        self.build_with_time(&time)
    }
}

} // verus!
