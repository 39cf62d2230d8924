//! Term loans: amortized, scheduled facilities.

use vstd::prelude::*;
use crate::clock::provider_now;
use crate::config::{FacilityConfig, FacilityType};
use crate::dates::{MAX_TIMESTAMP, SECS_PER_DAY};
use crate::errors::FacilityError;
use crate::events::{Event, StatusReason};
use crate::facility::{
    effective_payment, facility_wf, payment_accepted, payment_held, Facility,
};
use crate::interest::accrual::DailyAccrual;
use crate::money::{Money, Rate, MUL_LIMIT, POW_BASE_LIMIT, RATE_LIMIT};
use crate::payments::amortization::{
    schedule_rows, schedule_within, sum_interest_fits, sum_payment_fits,
    AmortizationSchedule, TERM_LIMIT,
};
use crate::payments::waterfall::{
    wf_run, PaymentResult, PaymentWaterfall, WaterfallPriority,
};
use crate::payments::PaymentContext;
use crate::state::total_outstanding_of;
use crate::types::{FacilityStatus, TermLoanType};

verus! {

/// A term loan: a facility with an amortization table and a payment
/// cursor.
pub struct TermLoan {
    pub facility: Facility,
    pub amortization_schedule: Option<AmortizationSchedule>,
    pub current_payment_number: u32,
}

/// What every term-loan operation preserves.
pub open spec fn term_loan_wf(t: TermLoan) -> bool {
    &&& facility_wf(t.facility)
    &&& t.facility.config.facility_type is TermLoan
}

/// Whether origination goes through: the configured terms yield a
/// computable amortization table whose first row, if any, carries an
/// in-range due date and amount.
pub open spec fn originate_accepted(t: TermLoan) -> bool {
    let terms = t.facility.config.financial_terms;
    let n: int = match terms.term_months {
        Some(m) => m as int,
        None => 0,
    };
    let rows = schedule_rows(terms.amortization_method, terms.commitment_amount.atoms as int,
        terms.interest_rate.atoms as int, n as nat, terms.origination_date as int);
    &&& terms.origination_date + (TERM_LIMIT as int) * 31 * (SECS_PER_DAY as int)
        <= MAX_TIMESTAMP
    &&& schedule_within(terms.amortization_method, terms.commitment_amount.atoms as int,
        terms.interest_rate.atoms as int, n)
    &&& sum_interest_fits(rows)
    &&& sum_payment_fits(rows)
    &&& (rows.len() > 0 ==> 0 <= rows[0].payment_date <= MAX_TIMESTAMP && 0
        <= rows[0].payment_amount.atoms <= MUL_LIMIT)
}

impl TermLoan {
    /// Wrap a facility; fails exactly where it is not a term loan.
    pub fn new(facility: Facility) -> (r: Result<TermLoan, FacilityError>)
        ensures
            r is Err <==> !(facility.config.facility_type is TermLoan),
            r matches Ok(t) ==> t.facility == facility
                && t.amortization_schedule is None && t.current_payment_number == 0,
    {
        if !matches!(facility.config.facility_type, FacilityType::TermLoan(_)) {
            return Err(FacilityError::InvalidConfiguration { message: String::new() });
        }
        Ok(TermLoan { facility, amortization_schedule: None, current_payment_number: 0 })
    }

    /// A builder for term loans.
    pub fn builder() -> (r: TermLoanBuilder)
        ensures
            r.amount is None,
            r.rate is None,
            r.term_months is None,
    {
        TermLoanBuilder::new()
    }

    /// Activate the loan: generate the amortization table from the
    /// configured terms and point the cursor at its first row. The
    /// provider's instant is clamped to the supported range, so success
    /// depends on the configured terms alone.
    pub fn originate(&mut self, time_provider: &hourglass_rs::SafeTimeProvider)
        -> (r: Result<(), FacilityError>)
        requires
            term_loan_wf(*old(self)),
        ensures
            r is Ok <==> originate_accepted(*old(self)),
            r is Err ==> *final(self) == *old(self),
            r is Ok ==> {
                &&& term_loan_wf(*final(self))
                &&& final(self).facility.state.status == FacilityStatus::Active
                &&& final(self).amortization_schedule is Some
            },
            final(self).facility.config == old(self).facility.config,
            final(self).facility.state.original_commitment
                == old(self).facility.state.original_commitment,
            final(self).facility.state.outstanding_principal
                == old(self).facility.state.outstanding_principal,
    {
        let now_raw = provider_now(time_provider);
        let now = if now_raw < 0 {
            0
        } else if now_raw > MAX_TIMESTAMP {
            MAX_TIMESTAMP
        } else {
            now_raw
        };
        let schedule = match self.generate_schedule() {
            Ok(s) => s,
            Err(e) => {
                return Err(e);
            },
        };
        if schedule.payments.len() > 0 {
            let first = schedule.payments[0];
            if first.payment_date < 0 || first.payment_date > MAX_TIMESTAMP
                || first.payment_amount.atoms < 0 || first.payment_amount.atoms > MUL_LIMIT {
                return Err(FacilityError::CalculationError { message: String::new() });
            }
            self.facility.state.update_status(FacilityStatus::Active, now);
            self.facility.state.activation_date = Some(now);
            self.facility.state.next_payment_due = Some(first.payment_date);
            self.facility.state.next_payment_amount = Some(first.payment_amount);
            self.facility.state.minimum_payment_due = Some(first.payment_amount);
        } else {
            self.facility.state.update_status(FacilityStatus::Active, now);
            self.facility.state.activation_date = Some(now);
        }
        self.amortization_schedule = Some(schedule);
        Ok(())
    }

    /// Activate the loan (an alias for origination).
    pub fn approve(&mut self, time_provider: &hourglass_rs::SafeTimeProvider)
        -> (r: Result<(), FacilityError>)
        requires
            term_loan_wf(*old(self)),
        ensures
            r is Ok <==> originate_accepted(*old(self)),
            r is Err ==> *final(self) == *old(self),
            r is Ok ==> term_loan_wf(*final(self)) && final(self).facility.state.status
                == FacilityStatus::Active,
    {
        self.originate(time_provider)
    }

    /// Deny the loan before any disbursement; the facility ends settled
    /// with the denial recorded. The provider's instant is clamped to the
    /// supported range, so denial always goes through.
    pub fn deny(&mut self, time_provider: &hourglass_rs::SafeTimeProvider)
        -> (r: Result<(), FacilityError>)
        requires
            term_loan_wf(*old(self)),
        ensures
            r is Ok,
            term_loan_wf(*final(self)),
            final(self).facility.state.status == FacilityStatus::Settled,
            final(self).facility.events.events@.len()
                == old(self).facility.events.events@.len() + 1,
            final(self).facility.events.events@.last() matches Event::StatusChanged {
                old_status,
                new_status,
                reason,
                ..
            } && old_status == old(self).facility.state.status && new_status
                == FacilityStatus::Settled && reason == StatusReason::Denied,
    {
        let now_raw = provider_now(time_provider);
        let now = if now_raw < 0 {
            0
        } else if now_raw > MAX_TIMESTAMP {
            MAX_TIMESTAMP
        } else {
            now_raw
        };
        let old_status = self.facility.state.status;
        self.facility.state.update_status(FacilityStatus::Settled, now);
        self.facility.events.emit(Event::StatusChanged {
            facility_id: self.facility.id,
            old_status,
            new_status: FacilityStatus::Settled,
            reason: StatusReason::Denied,
            timestamp: now,
        });
        Ok(())
    }

    /// Pay funds out against the commitment.
    pub fn disburse(&mut self, amount: Money,
        time_provider: &hourglass_rs::SafeTimeProvider) -> (r: Result<Money, FacilityError>)
        requires
            term_loan_wf(*old(self)),
        ensures
            r matches Ok(a) ==> a == amount && term_loan_wf(*final(self))
                && final(self).facility.state.outstanding_principal.atoms
                == old(self).facility.state.outstanding_principal.atoms + amount.atoms,
            r is Err ==> final(self).facility.state == old(self).facility.state,
    {
        let r = self.facility.disburse(amount, time_provider);
        r
    }

    /// Activate and draw the full commitment in one step.
    pub fn originate_and_disburse(&mut self, time_provider: &hourglass_rs::SafeTimeProvider)
        -> (r: Result<Money, FacilityError>)
        requires
            term_loan_wf(*old(self)),
        ensures
            r matches Ok(a) ==> term_loan_wf(*final(self))
                && a == old(self).facility.config.financial_terms.commitment_amount
                && final(self).facility.state.outstanding_principal.atoms
                == old(self).facility.state.outstanding_principal.atoms + a.atoms,
    {
        match self.originate(time_provider) {
            Ok(()) => {},
            Err(e) => {
                return Err(e);
            },
        }
        let amount = self.facility.config.financial_terms.commitment_amount;
        self.disburse(amount, time_provider)
    }

    /// Activate and draw the full commitment in one step.
    pub fn originate_and_disburse_with_time(&mut self,
        time_provider: &hourglass_rs::SafeTimeProvider) -> (r: Result<Money, FacilityError>)
        requires
            term_loan_wf(*old(self)),
        ensures
            r is Ok ==> term_loan_wf(*final(self)),
    {
        self.originate_and_disburse(time_provider)
    }

    /// Build the amortization table from the configured terms.
    fn generate_schedule(&self) -> (r: Result<AmortizationSchedule, FacilityError>)
        requires
            term_loan_wf(*self),
        ensures
            ({
                let terms = self.facility.config.financial_terms;
                let n: int = match terms.term_months {
                    Some(t) => t as int,
                    None => 0,
                };
                let rows = schedule_rows(terms.amortization_method,
                    terms.commitment_amount.atoms as int, terms.interest_rate.atoms as int,
                    n as nat, terms.origination_date as int);
                &&& (r is Ok <==> terms.origination_date + (TERM_LIMIT as int) * 31
                    * (SECS_PER_DAY as int) <= MAX_TIMESTAMP && schedule_within(
                    terms.amortization_method, terms.commitment_amount.atoms as int,
                    terms.interest_rate.atoms as int, n) && sum_interest_fits(rows)
                    && sum_payment_fits(rows))
                &&& (r matches Ok(s) ==> s.payments@ == rows && s.payments@.len() == n)
            }),
    {
        let term = match self.facility.config.financial_terms.term_months {
            Some(t) => t,
            None => 0,
        };
        let start = self.facility.config.financial_terms.origination_date;
        if !(start + (TERM_LIMIT as i64) * 31 * SECS_PER_DAY <= MAX_TIMESTAMP) {
            return Err(FacilityError::InvalidDate { message: String::new() });
        }
        AmortizationSchedule::generate(self.facility.id,
            self.facility.config.financial_terms.commitment_amount,
            self.facility.config.financial_terms.interest_rate, term, start,
            self.facility.config.financial_terms.amortization_method)
    }

    /// Apply a free-form payment through the standard waterfall.
    pub fn process_payment(&mut self, amount: Money,
        time_provider: &hourglass_rs::SafeTimeProvider)
        -> (r: Result<PaymentResult, FacilityError>)
        requires
            term_loan_wf(*old(self)),
            -MUL_LIMIT <= amount.atoms <= MUL_LIMIT,
        ensures
            r is Ok <==> payment_accepted(old(self).facility, amount.atoms as int),
            r is Ok ==> term_loan_wf(*final(self)),
            r is Ok && total_outstanding_of(final(self).facility.state) == 0
                ==> final(self).facility.state.status == FacilityStatus::Settled,
            r is Err ==> final(self).facility.state == old(self).facility.state
                && final(self).facility.events.events@
                == old(self).facility.events.events@,
            r is Ok ==> ({
                let pre = old(self).facility;
                let eff = effective_payment(pre, amount.atoms as int);
                let st = wf_run(PaymentWaterfall {
                    fees_priority: WaterfallPriority::First,
                    penalties_priority: WaterfallPriority::Second,
                    interest_priority: WaterfallPriority::Third,
                    principal_priority: WaterfallPriority::Fourth,
                    allow_overpayment: true,
                }, PaymentContext {
                    facility_id: pre.id,
                    accrued_fees: pre.state.accrued_fees,
                    accrued_penalties: pre.state.accrued_penalties,
                    accrued_interest: pre.state.accrued_interest,
                    outstanding_principal: pre.state.outstanding_principal,
                    minimum_payment: None,
                    payment_due_date: pre.state.next_payment_due,
                    days_overdue: pre.state.days_past_due,
                }, eff);
                &&& final(self).facility.state.total_payments_received.atoms
                    == pre.state.total_payments_received.atoms + amount.atoms
                &&& final(self).facility.state.payment_count == pre.state.payment_count + 1
                &&& (!payment_held(pre, amount.atoms as int) ==> {
                    &&& final(self).facility.state.accrued_fees.atoms == st.fees
                    &&& final(self).facility.state.accrued_penalties.atoms == st.penalties
                    &&& final(self).facility.state.accrued_interest.atoms == st.interest
                    &&& final(self).facility.state.outstanding_principal.atoms
                        == st.principal
                })
            }),
    {
        self.facility.process_payment(amount, time_provider)
    }

    /// Apply a free-form payment (an alias for payment processing).
    pub fn make_payment(&mut self, amount: Money,
        time_provider: &hourglass_rs::SafeTimeProvider)
        -> (r: Result<PaymentResult, FacilityError>)
        requires
            term_loan_wf(*old(self)),
            -MUL_LIMIT <= amount.atoms <= MUL_LIMIT,
        ensures
            r is Ok <==> payment_accepted(old(self).facility, amount.atoms as int),
            r is Ok ==> term_loan_wf(*final(self)),
            r is Err ==> final(self).facility.state == old(self).facility.state
                && final(self).facility.events.events@
                == old(self).facility.events.events@,
            r is Ok ==> final(self).facility.state.total_payments_received.atoms
                == old(self).facility.state.total_payments_received.atoms + amount.atoms
                && final(self).facility.state.payment_count
                == old(self).facility.state.payment_count + 1,
    {
        self.process_payment(amount, time_provider)
    }

    /// Accrue daily interest up to the provider's instant.
    pub fn accrue_interest(&mut self, time_provider: &hourglass_rs::SafeTimeProvider)
        -> (r: Result<Vec<DailyAccrual>, FacilityError>)
        requires
            term_loan_wf(*old(self)),
        ensures
            r is Ok ==> term_loan_wf(*final(self)),
            r is Err ==> final(self).facility.state == old(self).facility.state,
    {
        self.facility.accrue_interest(time_provider)
    }

    /// One daily status update at the provider's instant. Whether the
    /// update goes through depends on that instant; the exact acceptance
    /// contract lives on `Facility::update_daily_status_at`.
    pub fn update_daily_status(&mut self, time_provider: &hourglass_rs::SafeTimeProvider)
        -> (r: Result<(), FacilityError>)
        requires
            term_loan_wf(*old(self)),
        ensures
            r is Ok ==> term_loan_wf(*final(self)),
            r is Err ==> final(self).facility.state == old(self).facility.state,
            final(self).facility.state.payment_count
                == old(self).facility.state.payment_count,
            final(self).facility.state.missed_payment_count
                == old(self).facility.state.missed_payment_count,
    {
        self.facility.update_daily_status(time_provider)
    }

    /// Take the next scheduled payment: accrue up to the instant, pay the
    /// row's amount through the waterfall, move the cursor and the due
    /// fields, and handle maturity after the final row.
    pub fn process_scheduled_payment(&mut self,
        time_provider: &hourglass_rs::SafeTimeProvider) -> (r: Result<(), FacilityError>)
        requires
            term_loan_wf(*old(self)),
        ensures
            r is Ok ==> term_loan_wf(*final(self)) && final(self).current_payment_number
                == old(self).current_payment_number + 1,
            r matches Ok(()) ==> (old(self).amortization_schedule matches Some(s) ==> ({
                let cur = old(self).current_payment_number as int;
                let row = s.payments@[cur];
                &&& final(self).facility.state.total_payments_received.atoms
                    == old(self).facility.state.total_payments_received.atoms
                    + row.payment_amount.atoms
                &&& final(self).facility.state.payment_count
                    == old(self).facility.state.payment_count + 1
                &&& ((cur + 1 < s.payments@.len() && cur + 1 < s.term_months) ==> ({
                    let next = s.payments@[cur + 1];
                    let in_range = 0 <= next.payment_date <= MAX_TIMESTAMP && 0
                        <= next.payment_amount.atoms && next.payment_amount.atoms
                        <= MUL_LIMIT;
                    &&& (in_range ==> final(self).facility.state.next_payment_due == Some(
                        next.payment_date) && final(self).facility.state.next_payment_amount
                        == Some(next.payment_amount)
                        && final(self).facility.state.minimum_payment_due == Some(
                        next.payment_amount))
                    &&& (!in_range ==> final(self).facility.state.next_payment_due is None
                        && final(self).facility.state.next_payment_amount is None
                        && final(self).facility.state.minimum_payment_due is None)
                }))
                &&& ((cur + 1 >= s.payments@.len() && cur + 1 < s.term_months) ==> final(
                    self).facility.state.next_payment_due is None && final(
                    self).facility.state.next_payment_amount is None && final(
                    self).facility.state.minimum_payment_due is None)
                &&& (cur + 1 >= s.term_months ==> ({
                    let b = old(self).facility.config.financial_terms.balloon_payment;
                    let balloon_due = b matches Some(bal) && 0 <= bal.atoms <= MUL_LIMIT
                        && final(self).facility.state.outstanding_principal.atoms
                        >= bal.atoms;
                    &&& (balloon_due ==> final(self).facility.state.minimum_payment_due
                        == b)
                    &&& ((!balloon_due && total_outstanding_of(final(self).facility.state)
                        == 0) ==> final(self).facility.state.status
                        == FacilityStatus::Settled)
                }))
            })),
    {
        self.process_scheduled_payment_with_time(time_provider)
    }

    /// Take the next scheduled payment (see `process_scheduled_payment`).
    pub fn process_scheduled_payment_with_time(&mut self,
        time_provider: &hourglass_rs::SafeTimeProvider) -> (r: Result<(), FacilityError>)
        requires
            term_loan_wf(*old(self)),
        ensures
            r is Ok ==> term_loan_wf(*final(self)) && final(self).current_payment_number
                == old(self).current_payment_number + 1,
            old(self).current_payment_number >= 0xffff_fffe ==> r is Err,
            (old(self).current_payment_number < 0xffff_fffe
                && old(self).amortization_schedule is None) ==> (r matches Err(e)
                && e matches FacilityError::InvalidConfiguration { .. }),
            (old(self).amortization_schedule matches Some(s)
                && old(self).current_payment_number < 0xffff_fffe
                && old(self).current_payment_number + 1 > s.payments@.len()) ==> r
                == Result::<(), FacilityError>::Err(
                FacilityError::PaymentScheduleNotApplicable),
            (old(self).amortization_schedule matches Some(s)
                && old(self).current_payment_number < 0xffff_fffe
                && old(self).current_payment_number + 1 <= s.payments@.len() && ({
                let row = s.payments@[old(self).current_payment_number as int];
                row.payment_amount.atoms < 0 || row.payment_amount.atoms > MUL_LIMIT
            })) ==> r is Err,
            r matches Ok(()) ==> (old(self).amortization_schedule matches Some(s) ==> ({
                let cur = old(self).current_payment_number as int;
                let row = s.payments@[cur];
                &&& final(self).facility.state.total_payments_received.atoms
                    == old(self).facility.state.total_payments_received.atoms
                    + row.payment_amount.atoms
                &&& final(self).facility.state.payment_count
                    == old(self).facility.state.payment_count + 1
                &&& ((cur + 1 < s.payments@.len() && cur + 1 < s.term_months) ==> ({
                    let next = s.payments@[cur + 1];
                    let in_range = 0 <= next.payment_date <= MAX_TIMESTAMP && 0
                        <= next.payment_amount.atoms && next.payment_amount.atoms
                        <= MUL_LIMIT;
                    &&& (in_range ==> final(self).facility.state.next_payment_due == Some(
                        next.payment_date) && final(self).facility.state.next_payment_amount
                        == Some(next.payment_amount)
                        && final(self).facility.state.minimum_payment_due == Some(
                        next.payment_amount))
                    &&& (!in_range ==> final(self).facility.state.next_payment_due is None
                        && final(self).facility.state.next_payment_amount is None
                        && final(self).facility.state.minimum_payment_due is None)
                }))
                &&& ((cur + 1 >= s.payments@.len() && cur + 1 < s.term_months) ==> final(
                    self).facility.state.next_payment_due is None && final(
                    self).facility.state.next_payment_amount is None && final(
                    self).facility.state.minimum_payment_due is None)
                &&& (cur + 1 >= s.term_months ==> ({
                    let b = old(self).facility.config.financial_terms.balloon_payment;
                    let balloon_due = b matches Some(bal) && 0 <= bal.atoms <= MUL_LIMIT
                        && final(self).facility.state.outstanding_principal.atoms
                        >= bal.atoms;
                    &&& (balloon_due ==> final(self).facility.state.minimum_payment_due
                        == b)
                    &&& ((!balloon_due && total_outstanding_of(final(self).facility.state)
                        == 0) ==> final(self).facility.state.status
                        == FacilityStatus::Settled)
                }))
            })),
    {
        if self.current_payment_number >= 0xffff_fffe {
            return Err(FacilityError::CalculationError { message: String::new() });
        }
        let next_number = self.current_payment_number + 1;
        let (scheduled_amount, next_row, term_months) = match &self.amortization_schedule {
            Some(schedule) => {
                let row = match schedule.get_payment(next_number) {
                    Some(row) => *row,
                    None => {
                        return Err(FacilityError::PaymentScheduleNotApplicable);
                    },
                };
                let next = match schedule.get_payment(next_number + 1) {
                    Some(n) => Some(*n),
                    None => None,
                };
                (row.payment_amount, next, schedule.term_months)
            },
            None => {
                return Err(FacilityError::InvalidConfiguration { message: String::new() });
            },
        };
        if scheduled_amount.atoms < 0 || scheduled_amount.atoms > MUL_LIMIT {
            return Err(FacilityError::CalculationError { message: String::new() });
        }
        match self.facility.accrue_interest(time_provider) {
            Ok(_) => {},
            Err(e) => {
                return Err(e);
            },
        }
        match self.facility.process_payment(scheduled_amount, time_provider) {
            Ok(_) => {},
            Err(e) => {
                return Err(e);
            },
        }
        self.current_payment_number = next_number;
        match next_row {
            Some(next) => {
                if 0 <= next.payment_date && next.payment_date <= MAX_TIMESTAMP
                    && 0 <= next.payment_amount.atoms && next.payment_amount.atoms
                    <= MUL_LIMIT {
                    self.facility.state.next_payment_due = Some(next.payment_date);
                    self.facility.state.next_payment_amount = Some(next.payment_amount);
                    self.facility.state.minimum_payment_due = Some(next.payment_amount);
                } else {
                    self.facility.state.next_payment_due = None;
                    self.facility.state.next_payment_amount = None;
                    self.facility.state.minimum_payment_due = None;
                }
            },
            None => {
                self.facility.state.next_payment_due = None;
                self.facility.state.next_payment_amount = None;
                self.facility.state.minimum_payment_due = None;
            },
        }
        if next_number >= term_months {
            match self.handle_maturity(time_provider) {
                Ok(()) => {},
                Err(e) => {
                    return Err(e);
                },
            }
        }
        Ok(())
    }

    /// At maturity: a configured balloon still outstanding falls due;
    /// otherwise a fully paid loan is settled and reported matured.
    fn handle_maturity(&mut self, time_provider: &hourglass_rs::SafeTimeProvider)
        -> (r: Result<(), FacilityError>)
        requires
            term_loan_wf(*old(self)),
        ensures
            r is Ok ==> term_loan_wf(*final(self)),
            r is Err ==> *final(self) == *old(self),
            final(self).current_payment_number == old(self).current_payment_number,
            final(self).amortization_schedule == old(self).amortization_schedule,
            final(self).facility.config == old(self).facility.config,
            final(self).facility.state.total_payments_received
                == old(self).facility.state.total_payments_received,
            final(self).facility.state.payment_count
                == old(self).facility.state.payment_count,
            final(self).facility.state.outstanding_principal
                == old(self).facility.state.outstanding_principal,
            final(self).facility.state.accrued_interest
                == old(self).facility.state.accrued_interest,
            final(self).facility.state.accrued_fees == old(self).facility.state.accrued_fees,
            final(self).facility.state.accrued_penalties
                == old(self).facility.state.accrued_penalties,
            final(self).facility.state.next_payment_due
                == old(self).facility.state.next_payment_due,
            final(self).facility.state.next_payment_amount
                == old(self).facility.state.next_payment_amount,
            r is Ok ==> ({
                let b = old(self).facility.config.financial_terms.balloon_payment;
                let balloon_due = b matches Some(bal) && 0 <= bal.atoms <= MUL_LIMIT
                    && old(self).facility.state.outstanding_principal.atoms >= bal.atoms;
                &&& (balloon_due ==> final(self).facility.state.minimum_payment_due == b
                    && final(self).facility.state.status == old(self).facility.state.status)
                &&& (!balloon_due ==> final(self).facility.state.minimum_payment_due
                    == old(self).facility.state.minimum_payment_due)
                &&& ((!balloon_due && total_outstanding_of(old(self).facility.state) == 0)
                    ==> final(self).facility.state.status == FacilityStatus::Settled)
                &&& ((!balloon_due && total_outstanding_of(old(self).facility.state) != 0)
                    ==> final(self).facility.state.status
                    == old(self).facility.state.status)
            }),
    {
        let now = provider_now(time_provider);
        if now < 0 || now > MAX_TIMESTAMP {
            return Err(FacilityError::InvalidDate { message: String::new() });
        }
        if let Some(balloon) = self.facility.config.financial_terms.balloon_payment {
            if balloon.atoms >= 0 && balloon.atoms <= MUL_LIMIT
                && self.facility.state.outstanding_principal.atoms >= balloon.atoms {
                self.facility.state.minimum_payment_due = Some(balloon);
                self.facility.events.emit(Event::PaymentDue {
                    facility_id: self.facility.id,
                    amount: balloon,
                    due_date: now,
                    principal_portion: balloon,
                    interest_portion: Money::zero(),
                });
                return Ok(());
            }
        }
        let outstanding = self.facility.state.total_outstanding();
        if outstanding.atoms == 0 {
            self.facility.state.update_status(FacilityStatus::Settled, now);
            let final_payment = match self.facility.state.last_payment_amount {
                Some(m) => m,
                None => Money::zero(),
            };
            self.facility.events.emit(Event::FacilityMatured {
                facility_id: self.facility.id,
                final_payment,
                timestamp: now,
            });
        }
        Ok(())
    }

    /// Record a missed scheduled payment and run the daily update.
    pub fn handle_missed_payment(&mut self, time_provider: &hourglass_rs::SafeTimeProvider)
        -> (r: Result<(), FacilityError>)
        requires
            term_loan_wf(*old(self)),
        ensures
            r is Ok ==> term_loan_wf(*final(self))
                && final(self).facility.state.missed_payment_count
                == old(self).facility.state.missed_payment_count + 1,
    {
        if self.facility.state.missed_payment_count == u32::MAX {
            return Err(FacilityError::CalculationError { message: String::new() });
        }
        self.facility.state.missed_payment_count
            = self.facility.state.missed_payment_count + 1;
        let now = provider_now(time_provider);
        let expected = match self.facility.state.minimum_payment_due {
            Some(m) => m,
            None => Money::zero(),
        };
        let due_date = match self.facility.state.next_payment_due {
            Some(d) => d,
            None => now,
        };
        self.facility.events.emit(Event::PaymentMissed {
            facility_id: self.facility.id,
            expected_amount: expected,
            due_date,
        });
        self.facility.update_daily_status(time_provider)
    }

    /// The wrapped facility.
    pub fn facility(&self) -> (r: &Facility)
        ensures
            r == &self.facility,
    {
        &self.facility
    }

    /// The wrapped facility, mutably.
    pub fn facility_mut(&mut self) -> (r: &mut Facility)
        ensures
            *r == old(self).facility,
            final(self).facility == *final(r),
            final(self).amortization_schedule == old(self).amortization_schedule,
            final(self).current_payment_number == old(self).current_payment_number,
    {
        &mut self.facility
    }

    /// The amortization table, once the loan is originated.
    pub fn schedule(&self) -> (r: Option<&AmortizationSchedule>)
        ensures
            r is Some <==> self.amortization_schedule is Some,
    {
        self.amortization_schedule.as_ref()
    }
}

/// Collects the figures of a term loan and builds it.
pub struct TermLoanBuilder {
    pub loan_type: Option<TermLoanType>,
    pub amount: Option<Money>,
    pub rate: Option<Rate>,
    pub term_months: Option<u32>,
    pub origination_date: Option<i64>,
    pub property_value: Option<Money>,
    pub vehicle_value: Option<Money>,
    pub balloon_percentage: Option<Rate>,
    pub account_number: Option<String>,
    pub customer_id: Option<String>,
}

impl TermLoanBuilder {
    /// An empty builder.
    pub fn new() -> (r: TermLoanBuilder)
        ensures
            r.amount is None,
            r.rate is None,
            r.term_months is None,
    {
        TermLoanBuilder {
            loan_type: None,
            amount: None,
            rate: None,
            term_months: None,
            origination_date: None,
            property_value: None,
            vehicle_value: None,
            balloon_percentage: None,
            account_number: None,
            customer_id: None,
        }
    }

    /// Choose the loan flavor.
    pub fn loan_type(self, loan_type: TermLoanType) -> (r: TermLoanBuilder)
        ensures
            r == (TermLoanBuilder { loan_type: Some(loan_type), ..self }),
    {
        TermLoanBuilder { loan_type: Some(loan_type), ..self }
    }

    /// Set the commitment amount.
    pub fn amount(self, amount: Money) -> (r: TermLoanBuilder)
        ensures
            r == (TermLoanBuilder { amount: Some(amount), ..self }),
    {
        TermLoanBuilder { amount: Some(amount), ..self }
    }

    /// Set the annual rate.
    pub fn rate(self, rate: Rate) -> (r: TermLoanBuilder)
        ensures
            r == (TermLoanBuilder { rate: Some(rate), ..self }),
    {
        TermLoanBuilder { rate: Some(rate), ..self }
    }

    /// Set the term in months.
    pub fn term_months(self, months: u32) -> (r: TermLoanBuilder)
        ensures
            r == (TermLoanBuilder { term_months: Some(months), ..self }),
    {
        TermLoanBuilder { term_months: Some(months), ..self }
    }

    /// Set the origination date.
    pub fn origination_date(self, date: i64) -> (r: TermLoanBuilder)
        ensures
            r == (TermLoanBuilder { origination_date: Some(date), ..self }),
    {
        TermLoanBuilder { origination_date: Some(date), ..self }
    }

    /// Set the property value (marks a mortgage).
    pub fn property_value(self, value: Money) -> (r: TermLoanBuilder)
        ensures
            r == (TermLoanBuilder { property_value: Some(value), ..self }),
    {
        TermLoanBuilder { property_value: Some(value), ..self }
    }

    /// Set the vehicle value (marks an auto loan).
    pub fn vehicle_value(self, value: Money) -> (r: TermLoanBuilder)
        ensures
            r == (TermLoanBuilder { vehicle_value: Some(value), ..self }),
    {
        TermLoanBuilder { vehicle_value: Some(value), ..self }
    }

    /// Set the balloon percentage for an auto loan.
    pub fn balloon_percentage(self, percentage: Rate) -> (r: TermLoanBuilder)
        ensures
            r == (TermLoanBuilder { balloon_percentage: Some(percentage), ..self }),
    {
        TermLoanBuilder { balloon_percentage: Some(percentage), ..self }
    }

    /// Set the account number.
    pub fn account_number(self, account: String) -> (r: TermLoanBuilder)
        ensures
            r.amount == self.amount && r.rate == self.rate && r.term_months
                == self.term_months,
    {
        TermLoanBuilder { account_number: Some(account), ..self }
    }

    /// Set the customer identifier.
    pub fn customer_id(self, customer: String) -> (r: TermLoanBuilder)
        ensures
            r.amount == self.amount && r.rate == self.rate && r.term_months
                == self.term_months,
    {
        TermLoanBuilder { customer_id: Some(customer), ..self }
    }

    /// Build the loan at the provider's instant: the flavor is inferred
    /// from the supplied values where not chosen, the matching
    /// configuration is assembled, and the facility originates.
    pub fn build_with_time(self, time_provider: &hourglass_rs::SafeTimeProvider)
        -> (r: Result<TermLoan, FacilityError>)
        ensures
            self.amount is None || self.rate is None || self.term_months is None ==> r is Err,
            r matches Ok(t) ==> {
                &&& term_loan_wf(t)
                &&& t.facility.state.status == FacilityStatus::Originated
                &&& (self.amount matches Some(a) ==> t.facility.state.original_commitment
                    == a)
            },
    {
        let loan_type = match self.loan_type {
            Some(lt) => lt,
            None => {
                if self.property_value.is_some() {
                    TermLoanType::Mortgage
                } else if self.vehicle_value.is_some() {
                    TermLoanType::AutoLoan
                } else {
                    TermLoanType::PersonalLoan
                }
            },
        };
        let amount = match self.amount {
            Some(a) => a,
            None => {
                return Err(FacilityError::InvalidConfiguration { message: String::new() });
            },
        };
        let rate = match self.rate {
            Some(x) => x,
            None => {
                return Err(FacilityError::InvalidConfiguration { message: String::new() });
            },
        };
        let term = match self.term_months {
            Some(t) => t,
            None => {
                return Err(FacilityError::InvalidConfiguration { message: String::new() });
            },
        };
        if amount.atoms < 0 || amount.atoms > POW_BASE_LIMIT || rate.atoms < 0 || rate.atoms
            > RATE_LIMIT || rate.atoms * 3 > RATE_LIMIT * 2 || term > TERM_LIMIT {
            return Err(FacilityError::InvalidConfiguration { message: String::new() });
        }
        let origination_date = match self.origination_date {
            Some(d) => d,
            None => {
                let now = provider_now(time_provider);
                if now < 0 || now > MAX_TIMESTAMP {
                    return Err(FacilityError::InvalidDate { message: String::new() });
                }
                now
            },
        };
        if origination_date < 0 || origination_date > MAX_TIMESTAMP {
            return Err(FacilityError::InvalidDate { message: String::new() });
        }
        let config = match loan_type {
            TermLoanType::Mortgage => {
                let property_value = match self.property_value {
                    Some(v) => v,
                    None => {
                        return Err(FacilityError::InvalidConfiguration {
                            message: String::new(),
                        });
                    },
                };
                if property_value.atoms <= 0 || property_value.atoms > MUL_LIMIT {
                    return Err(FacilityError::InvalidCollateral { message: String::new() });
                }
                FacilityConfig::mortgage(amount, rate, term, origination_date,
                    property_value)
            },
            TermLoanType::PersonalLoan => FacilityConfig::personal_loan(amount, rate, term,
                origination_date),
            TermLoanType::AutoLoan => {
                let vehicle_value = match self.vehicle_value {
                    Some(v) => v,
                    None => {
                        return Err(FacilityError::InvalidConfiguration {
                            message: String::new(),
                        });
                    },
                };
                if vehicle_value.atoms <= 0 || vehicle_value.atoms > MUL_LIMIT {
                    return Err(FacilityError::InvalidCollateral { message: String::new() });
                }
                match self.balloon_percentage {
                    Some(p) => {
                        if p.atoms < 0 || p.atoms > 100 * RATE_LIMIT {
                            return Err(FacilityError::InvalidConfiguration {
                                message: String::new(),
                            });
                        }
                    },
                    None => {},
                }
                FacilityConfig::auto_loan(amount, rate, term, origination_date,
                    vehicle_value, self.balloon_percentage)
            },
            _ => {
                return Err(FacilityError::InvalidConfiguration { message: String::new() });
            },
        };
        let account_number = match self.account_number {
            Some(a) => a,
            None => String::new(),
        };
        let customer_id = match self.customer_id {
            Some(c) => c,
            None => String::new(),
        };
        let facility = match Facility::originate(config, account_number, customer_id,
            time_provider) {
            Ok(f) => f,
            Err(e) => {
                return Err(e);
            },
        };
        TermLoan::new(facility)
    }

    /// Build the loan against the system clock.
    pub fn build_now(self) -> (r: Result<TermLoan, FacilityError>)
        ensures
            r matches Ok(t) ==> term_loan_wf(t),
    {
        let time = crate::clock::system_time_provider();
        self.build_with_time(&time)
    }
}

} // verus!
