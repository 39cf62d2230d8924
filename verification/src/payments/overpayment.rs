//! Overpayment handling: what happens to the part of a payment that
//! exceeds the outstanding debt.

use vstd::prelude::*;
use crate::clock::provider_now;
use crate::errors::FacilityError;
use crate::events::{Event, EventStore};
use crate::money::{
    div_round, lemma_mul_bounds, lemma_round_half_div_bound, lemma_round_half_div_le,
    mul_scaled, round_half_div, Money, Rate, MUL_LIMIT, RATE_LIMIT, SCALE,
};
use crate::payments::PaymentContext;
use crate::payments::amortization::{calculate_emi_amount, emi_spec, emi_within, TERM_LIMIT};
use crate::types::{FacilityId, OverpaymentStrategy};

verus! {

/// The loan figures an overpayment computation needs.
#[derive(Clone, Debug, PartialEq)]
pub struct LoanParameters {
    pub interest_rate: Rate,
    pub remaining_months: u32,
    pub emi_amount: Money,
    pub credit_limit: Option<Money>,
    pub maturity_date: Option<i64>,
}

/// What an overpayment did.
#[derive(Clone, Debug, PartialEq)]
pub struct OverpaymentResult {
    pub strategy: OverpaymentStrategy,
    pub amount_applied: Money,
    pub old_principal: Money,
    pub new_principal: Money,
    pub old_emi: Option<Money>,
    pub new_emi: Option<Money>,
    pub old_term_months: Option<u32>,
    pub new_term_months: Option<u32>,
    pub savings: Money,
}

/// The principal after a reduction of `x`, clamped at zero.
pub open spec fn reduced_principal(principal: int, x: int) -> int {
    if principal - x >= 0 {
        principal - x
    } else {
        0
    }
}

/// The number of monthly installments of `emi` needed to clear `p` at the
/// monthly rate `mr`, counting at most `fuel` more months. Counting stops
/// early where the installment no longer covers the month's interest.
pub open spec fn term_steps(p: int, mr: int, emi: int, months: int, fuel: nat) -> int
    decreases fuel,
{
    if p <= 0 || fuel == 0 {
        months
    } else {
        let interest = mul_scaled(p, mr);
        let principal_payment = emi - interest;
        if principal_payment <= 0 {
            months
        } else {
            let next = if p - principal_payment >= 0 {
                p - principal_payment
            } else {
                0
            };
            term_steps(next, mr, emi, months + 1, (fuel - 1) as nat)
        }
    }
}

/// The recomputed term for the given installment: iterated repayment,
/// capped at 360 months; for a zero rate simply `p / emi` rounded.
pub open spec fn term_for_emi_spec(p: int, annual: int, emi: int) -> int {
    if emi <= 0 || p <= 0 {
        0
    } else {
        let mr = monthly_rate(annual);
        if mr == 0 {
            let q = round_half_div(p, emi);
            if q <= 0xffff_ffff {
                q
            } else {
                0
            }
        } else {
            term_steps(p, mr, emi, 0, 360)
        }
    }
}

/// The monthly rate at eight digits.
pub open spec fn monthly_rate(annual: int) -> int {
    round_half_div(annual, 12)
}

/// The equated monthly installment for the given remaining term.
pub fn calculate_emi(principal: Money, annual_rate: Rate, months: u32)
    -> (r: Result<Money, FacilityError>)
    requires
        0 <= principal.atoms <= crate::money::POW_BASE_LIMIT,
        0 <= annual_rate.atoms <= RATE_LIMIT,
    ensures
        r matches Ok(m) ==> m.atoms as int == emi_spec(principal.atoms as int,
            annual_rate.atoms as int, months as int),
        r is Err <==> !emi_within(principal.atoms as int, annual_rate.atoms as int,
            months as int),
{
    calculate_emi_amount(principal, annual_rate, months)
}

/// How many monthly installments of `emi` clear the principal, capped at
/// 360; zero where the installment cannot cover the interest.
pub fn calculate_term_for_emi(principal: Money, annual_rate: Rate, emi: Money) -> (r: u32)
    requires
        -MUL_LIMIT <= principal.atoms <= MUL_LIMIT,
        0 <= annual_rate.atoms <= RATE_LIMIT,
        -MUL_LIMIT <= emi.atoms <= MUL_LIMIT,
    ensures
        r as int == term_for_emi_spec(principal.atoms as int, annual_rate.atoms as int,
            emi.atoms as int),
{
    if emi.atoms <= 0 || principal.atoms <= 0 {
        return 0;
    }
    let mr = div_round(annual_rate.atoms, 12);
    proof {
        lemma_round_half_div_le(annual_rate.atoms as int, 12);
    }
    if mr == 0 {
        let q = div_round(principal.atoms, emi.atoms);
        proof {
            lemma_round_half_div_le(principal.atoms as int, emi.atoms as int);
        }
        if q <= 0xffff_ffff {
            return q as u32;
        }
        return 0;
    }
    let mut remaining = principal.atoms;
    let mut months: u32 = 0;
    loop
        invariant
            0 <= months <= 360,
            0 <= remaining <= MUL_LIMIT,
            0 <= mr <= RATE_LIMIT,
            -MUL_LIMIT <= emi.atoms <= MUL_LIMIT,
            term_steps(remaining as int, mr as int, emi.atoms as int, months as int,
                (360 - months) as nat) == term_for_emi_spec(principal.atoms as int,
                annual_rate.atoms as int, emi.atoms as int),
        ensures
            months as int == term_for_emi_spec(principal.atoms as int,
                annual_rate.atoms as int, emi.atoms as int),
            months <= 360,
        decreases 360 - months,
    {
        if remaining <= 0 || months >= 360 {
            break;
        }
        proof {
            lemma_mul_bounds(remaining as int, mr as int, MUL_LIMIT as int,
                RATE_LIMIT as int);
        }
        let interest = div_round(remaining * mr, SCALE);
        let principal_payment = emi.atoms - interest;
        if principal_payment <= 0 {
            break;
        }
        remaining = if remaining - principal_payment >= 0 {
            remaining - principal_payment
        } else {
            0
        };
        months = months + 1;
    }
    months
}

/// `q` is a u32 in range: the zero-rate term never exceeds the principal
/// scale.
pub fn calculate_term_for_payment(principal: Money, annual_rate: Rate, payment: Money)
    -> (r: u32)
    requires
        -MUL_LIMIT <= principal.atoms <= MUL_LIMIT,
        0 <= annual_rate.atoms <= RATE_LIMIT,
        -MUL_LIMIT <= payment.atoms <= MUL_LIMIT,
    ensures
        r as int == term_for_emi_spec(principal.atoms as int, annual_rate.atoms as int,
            payment.atoms as int),
{
    calculate_term_for_emi(principal, annual_rate, payment)
}

/// Applies overpayments under a fixed strategy.
pub struct OverpaymentHandler {
    pub facility_id: FacilityId,
    pub strategy: OverpaymentStrategy,
}

impl OverpaymentHandler {
    /// A handler for the facility under the given strategy.
    pub fn new(facility_id: FacilityId, strategy: OverpaymentStrategy) -> (r: OverpaymentHandler)
        ensures
            r.facility_id == facility_id,
            r.strategy == strategy,
    {
        OverpaymentHandler { facility_id, strategy }
    }

    /// Reduce the outstanding principal by the overpayment, clamped at
    /// zero.
    pub fn reduce_principal(&self, overpayment: Money, context: &mut PaymentContext,
        time_provider: &hourglass_rs::SafeTimeProvider, events: &mut EventStore)
        -> (r: OverpaymentResult)
        requires
            -MUL_LIMIT <= old(context).outstanding_principal.atoms <= MUL_LIMIT,
            0 <= overpayment.atoms <= MUL_LIMIT,
        ensures
            final(context).outstanding_principal.atoms == reduced_principal(
                old(context).outstanding_principal.atoms as int, overpayment.atoms as int),
            final(context).accrued_fees == old(context).accrued_fees,
            final(context).accrued_penalties == old(context).accrued_penalties,
            final(context).accrued_interest == old(context).accrued_interest,
            final(context).facility_id == old(context).facility_id,
            final(context).minimum_payment == old(context).minimum_payment,
            final(context).payment_due_date == old(context).payment_due_date,
            final(context).days_overdue == old(context).days_overdue,
            r.strategy == OverpaymentStrategy::ReducePrincipal,
            r.amount_applied == overpayment,
            r.old_principal == old(context).outstanding_principal,
            r.new_principal == final(context).outstanding_principal,
            r.old_emi is None && r.new_emi is None,
            r.old_term_months is None && r.new_term_months is None,
            final(events).events@ == old(events).events@.push(final(events).events@.last()),
            (final(events).events@.last() matches Event::OverpaymentReceived {
                facility_id: f,
                amount: a,
                strategy: s,
                timestamp: _,
            } && f == self.facility_id && a == overpayment && s
                == OverpaymentStrategy::ReducePrincipal),
    {
        let old_principal = context.outstanding_principal;
        let lowered = context.outstanding_principal.sub(overpayment);
        context.outstanding_principal = lowered.max_of(Money::zero());
        let now = provider_now(time_provider);
        events.emit(Event::OverpaymentReceived {
            facility_id: self.facility_id,
            amount: overpayment,
            strategy: OverpaymentStrategy::ReducePrincipal,
            timestamp: now,
        });
        OverpaymentResult {
            strategy: OverpaymentStrategy::ReducePrincipal,
            amount_applied: overpayment,
            old_principal,
            new_principal: context.outstanding_principal,
            old_emi: None,
            new_emi: None,
            old_term_months: None,
            new_term_months: None,
            savings: overpayment.times(Rate { atoms: 10_000_000 }),
        }
    }

    /// Reduce the principal and recompute the installment over the same
    /// remaining term.
    pub fn reduce_emi(&self, overpayment: Money, context: &mut PaymentContext,
        loan_params: &LoanParameters, time_provider: &hourglass_rs::SafeTimeProvider,
        events: &mut EventStore) -> (r: Result<OverpaymentResult, FacilityError>)
        requires
            0 <= old(context).outstanding_principal.atoms <= crate::money::POW_BASE_LIMIT,
            0 <= overpayment.atoms <= MUL_LIMIT,
            0 <= loan_params.interest_rate.atoms <= RATE_LIMIT,
            -MUL_LIMIT <= loan_params.emi_amount.atoms <= MUL_LIMIT,
        ensures
            r matches Ok(res) ==> {
                let np = reduced_principal(old(context).outstanding_principal.atoms as int,
                    overpayment.atoms as int);
                &&& final(context).outstanding_principal.atoms == np
                &&& res.strategy == OverpaymentStrategy::ReduceEmi
                &&& res.old_principal == old(context).outstanding_principal
                &&& res.new_principal.atoms == np
                &&& res.old_emi == Some(loan_params.emi_amount)
                &&& res.new_emi matches Some(e) && e.atoms as int == emi_spec(np,
                    loan_params.interest_rate.atoms as int,
                    loan_params.remaining_months as int)
                &&& res.old_term_months == Some(loan_params.remaining_months)
                &&& res.new_term_months == Some(loan_params.remaining_months)
            },
            r is Ok ==> {
                &&& final(context).accrued_fees == old(context).accrued_fees
                &&& final(context).accrued_penalties == old(context).accrued_penalties
                &&& final(context).accrued_interest == old(context).accrued_interest
                &&& final(context).facility_id == old(context).facility_id
                &&& final(context).minimum_payment == old(context).minimum_payment
                &&& final(context).payment_due_date == old(context).payment_due_date
                &&& final(context).days_overdue == old(context).days_overdue
                &&& final(events).events@ == old(events).events@.push(final(
                    events).events@.last())
                &&& (final(events).events@.last() matches Event::OverpaymentReceived {
                    facility_id: f,
                    amount: a,
                    strategy: st,
                    timestamp: _,
                } && f == self.facility_id && a == overpayment && st
                    == OverpaymentStrategy::ReduceEmi)
            },
            r is Err ==> *final(context) == *old(context) && final(events).events@ == old(
                events).events@,
    {
        let old_principal = context.outstanding_principal;
        let lowered = context.outstanding_principal.sub(overpayment);
        let np = lowered.max_of(Money::zero());
        let new_emi = match calculate_emi(np, loan_params.interest_rate,
            loan_params.remaining_months) {
            Ok(m) => m,
            Err(e) => {
                return Err(e);
            },
        };
        if new_emi.atoms < -MUL_LIMIT || new_emi.atoms > MUL_LIMIT {
            return Err(FacilityError::CalculationError { message: String::new() });
        }
        context.outstanding_principal = np;
        let now = provider_now(time_provider);
        events.emit(Event::OverpaymentReceived {
            facility_id: self.facility_id,
            amount: overpayment,
            strategy: OverpaymentStrategy::ReduceEmi,
            timestamp: now,
        });
        let monthly_savings = loan_params.emi_amount.sub(new_emi);
        Ok(OverpaymentResult {
            strategy: OverpaymentStrategy::ReduceEmi,
            amount_applied: overpayment,
            old_principal,
            new_principal: np,
            old_emi: Some(loan_params.emi_amount),
            new_emi: Some(new_emi),
            old_term_months: Some(loan_params.remaining_months),
            new_term_months: Some(loan_params.remaining_months),
            savings: monthly_savings,
        })
    }

    /// Reduce the principal and recompute the term for the unchanged
    /// installment.
    pub fn reduce_term(&self, overpayment: Money, context: &mut PaymentContext,
        loan_params: &LoanParameters, time_provider: &hourglass_rs::SafeTimeProvider,
        events: &mut EventStore) -> (r: OverpaymentResult)
        requires
            0 <= old(context).outstanding_principal.atoms <= MUL_LIMIT,
            0 <= overpayment.atoms <= MUL_LIMIT,
            0 <= loan_params.interest_rate.atoms <= RATE_LIMIT,
            -MUL_LIMIT <= loan_params.emi_amount.atoms <= MUL_LIMIT,
        ensures
            ({
                let np = reduced_principal(old(context).outstanding_principal.atoms as int,
                    overpayment.atoms as int);
                &&& final(context).outstanding_principal.atoms == np
                &&& r.strategy == OverpaymentStrategy::ReduceTerm
                &&& r.old_principal == old(context).outstanding_principal
                &&& r.new_principal.atoms == np
                &&& r.old_emi == Some(loan_params.emi_amount)
                &&& r.new_emi == Some(loan_params.emi_amount)
                &&& r.old_term_months == Some(loan_params.remaining_months)
                &&& r.new_term_months matches Some(t) && t as int == term_for_emi_spec(np,
                    loan_params.interest_rate.atoms as int, loan_params.emi_amount.atoms as int)
            }),
            final(context).accrued_fees == old(context).accrued_fees,
            final(context).accrued_penalties == old(context).accrued_penalties,
            final(context).accrued_interest == old(context).accrued_interest,
            final(context).facility_id == old(context).facility_id,
            final(context).minimum_payment == old(context).minimum_payment,
            final(context).payment_due_date == old(context).payment_due_date,
            final(context).days_overdue == old(context).days_overdue,
            final(events).events@ == old(events).events@.push(final(events).events@.last()),
            (final(events).events@.last() matches Event::OverpaymentReceived {
                facility_id: f,
                amount: a,
                strategy: s,
                timestamp: _,
            } && f == self.facility_id && a == overpayment && s
                == OverpaymentStrategy::ReduceTerm),
    {
        let old_principal = context.outstanding_principal;
        let old_term = loan_params.remaining_months;
        let lowered = context.outstanding_principal.sub(overpayment);
        let np = lowered.max_of(Money::zero());
        context.outstanding_principal = np;
        let new_term = calculate_term_for_emi(np, loan_params.interest_rate,
            loan_params.emi_amount);
        let now = provider_now(time_provider);
        events.emit(Event::OverpaymentReceived {
            facility_id: self.facility_id,
            amount: overpayment,
            strategy: OverpaymentStrategy::ReduceTerm,
            timestamp: now,
        });
        let months_saved: u32 = if old_term >= new_term {
            old_term - new_term
        } else {
            0
        };
        proof {
            lemma_mul_bounds(loan_params.emi_amount.atoms as int, months_saved as int,
                MUL_LIMIT as int, 0xffff_ffff);
        }
        let savings = Money { atoms: loan_params.emi_amount.atoms * (months_saved as i128) };
        OverpaymentResult {
            strategy: OverpaymentStrategy::ReduceTerm,
            amount_applied: overpayment,
            old_principal,
            new_principal: np,
            old_emi: Some(loan_params.emi_amount),
            new_emi: Some(loan_params.emi_amount),
            old_term_months: Some(old_term),
            new_term_months: Some(new_term),
            savings,
        }
    }

    /// Reduce the credit limit by the overpayment, never below the
    /// outstanding principal; the balances stay untouched.
    pub fn reduce_credit_limit(&self, overpayment: Money, context: &mut PaymentContext,
        loan_params: &LoanParameters, time_provider: &hourglass_rs::SafeTimeProvider,
        events: &mut EventStore) -> (r: OverpaymentResult)
        requires
            -MUL_LIMIT <= old(context).outstanding_principal.atoms <= MUL_LIMIT,
            0 <= overpayment.atoms <= MUL_LIMIT,
            loan_params.credit_limit matches Some(l) ==> -MUL_LIMIT <= l.atoms <= MUL_LIMIT,
        ensures
            *final(context) == *old(context),
            r.strategy == OverpaymentStrategy::ReduceLimit,
            r.old_principal == old(context).outstanding_principal,
            r.new_principal == old(context).outstanding_principal,
            final(events).events@ == old(events).events@.push(final(events).events@.last()),
            ({
                let limit_before: int = match loan_params.credit_limit {
                    Some(l) => l.atoms as int,
                    None => 0,
                };
                let lowered = limit_before - overpayment.atoms;
                let floor = old(context).outstanding_principal.atoms as int;
                final(events).events@.last() matches Event::CreditLimitChanged {
                    facility_id: f,
                    old_limit: ol,
                    new_limit: nl,
                    timestamp: _,
                } && f == self.facility_id && ol.atoms == limit_before && nl.atoms == (
                if lowered >= floor {
                    lowered
                } else {
                    floor
                })
            }),
    {
        let old_limit = match loan_params.credit_limit {
            Some(l) => l,
            None => Money::zero(),
        };
        let new_limit = old_limit.sub(overpayment).max_of(context.outstanding_principal);
        let now = provider_now(time_provider);
        events.emit(Event::CreditLimitChanged {
            facility_id: self.facility_id,
            old_limit,
            new_limit,
            timestamp: now,
        });
        OverpaymentResult {
            strategy: OverpaymentStrategy::ReduceLimit,
            amount_applied: overpayment,
            old_principal: context.outstanding_principal,
            new_principal: context.outstanding_principal,
            old_emi: None,
            new_emi: None,
            old_term_months: None,
            new_term_months: None,
            savings: Money::zero(),
        }
    }

    /// Dispatch on the handler's strategy.
    pub fn handle(&self, overpayment: Money, context: &mut PaymentContext,
        loan_params: &LoanParameters, time_provider: &hourglass_rs::SafeTimeProvider,
        events: &mut EventStore) -> (r: Result<OverpaymentResult, FacilityError>)
        requires
            0 <= old(context).outstanding_principal.atoms <= crate::money::POW_BASE_LIMIT,
            0 <= overpayment.atoms <= MUL_LIMIT,
            0 <= loan_params.interest_rate.atoms <= RATE_LIMIT,
            -MUL_LIMIT <= loan_params.emi_amount.atoms <= MUL_LIMIT,
            loan_params.credit_limit matches Some(l) ==> -MUL_LIMIT <= l.atoms <= MUL_LIMIT,
        ensures
            self.strategy == OverpaymentStrategy::ReducePrincipal ==> (r matches Ok(res)
                && final(context).outstanding_principal.atoms == reduced_principal(
                old(context).outstanding_principal.atoms as int, overpayment.atoms as int)
                && res.new_principal == final(context).outstanding_principal
                && res.old_principal == old(context).outstanding_principal),
            self.strategy == OverpaymentStrategy::ReduceTerm ==> (r matches Ok(res)
                && final(context).outstanding_principal.atoms == reduced_principal(
                old(context).outstanding_principal.atoms as int, overpayment.atoms as int)
                && res.old_principal == old(context).outstanding_principal
                && (res.new_term_months matches Some(t) && t as int == term_for_emi_spec(
                reduced_principal(old(context).outstanding_principal.atoms as int,
                overpayment.atoms as int), loan_params.interest_rate.atoms as int,
                loan_params.emi_amount.atoms as int))),
            (self.strategy == OverpaymentStrategy::ReducePrincipal || self.strategy
                == OverpaymentStrategy::ReduceTerm) ==> ({
                &&& final(context).accrued_fees == old(context).accrued_fees
                &&& final(context).accrued_penalties == old(context).accrued_penalties
                &&& final(context).accrued_interest == old(context).accrued_interest
                &&& final(events).events@ == old(events).events@.push(final(
                    events).events@.last())
                &&& (final(events).events@.last() matches Event::OverpaymentReceived {
                    facility_id: f,
                    amount: a,
                    strategy: st,
                    timestamp: _,
                } && f == self.facility_id && a == overpayment && st == self.strategy)
            }),
            self.strategy == OverpaymentStrategy::ReduceLimit ==> r is Ok
                && *final(context) == *old(context),
            self.strategy == OverpaymentStrategy::ReduceEmi && r is Err ==> *final(context)
                == *old(context),
            (self.strategy == OverpaymentStrategy::ReduceEmi && r is Ok) ==> ({
                &&& final(context).outstanding_principal.atoms == reduced_principal(
                    old(context).outstanding_principal.atoms as int, overpayment.atoms as int)
                &&& final(context).accrued_fees == old(context).accrued_fees
                &&& final(context).accrued_penalties == old(context).accrued_penalties
                &&& final(context).accrued_interest == old(context).accrued_interest
                &&& (r matches Ok(res) ==> res.old_principal
                    == old(context).outstanding_principal)
            }),
            (overpayment.atoms == 0 && self.strategy != OverpaymentStrategy::ReduceLimit)
                ==> (r matches Ok(res) ==> final(context).outstanding_principal
                == old(context).outstanding_principal && res.new_principal
                == res.old_principal && res.old_principal
                == old(context).outstanding_principal),
    {
        match self.strategy {
            OverpaymentStrategy::ReducePrincipal => Ok(self.reduce_principal(overpayment,
                context, time_provider, events)),
            OverpaymentStrategy::ReduceEmi => self.reduce_emi(overpayment, context,
                loan_params, time_provider, events),
            OverpaymentStrategy::ReduceTerm => Ok(self.reduce_term(overpayment, context,
                loan_params, time_provider, events)),
            OverpaymentStrategy::ReduceLimit => Ok(self.reduce_credit_limit(overpayment,
                context, loan_params, time_provider, events)),
        }
    }
}

/// The remaining balance after a number of fixed regular payments; the
/// balloon owed at maturity.
pub struct BalloonPaymentCalculator {
    pub marker: bool,
}

impl BalloonPaymentCalculator {
    /// The balance left after `payments_made` regular payments, which
    /// falls due as the balloon; zero once no months remain.
    pub fn calculate(original_principal: Money, regular_payment: Money, interest_rate: Rate,
        term_months: u32, payments_made: u32) -> (r: Money)
        requires
            0 <= original_principal.atoms <= MUL_LIMIT,
            0 <= interest_rate.atoms <= RATE_LIMIT,
            -MUL_LIMIT <= regular_payment.atoms <= MUL_LIMIT,
            payments_made <= TERM_LIMIT,
        ensures
            term_months <= payments_made ==> r.atoms == 0,
            term_months > payments_made ==> r.atoms as int == balloon_balance(
                original_principal.atoms as int, monthly_rate(interest_rate.atoms as int),
                regular_payment.atoms as int, payments_made as nat),
    {
        if term_months <= payments_made {
            return Money::zero();
        }
        let mr = div_round(interest_rate.atoms, 12);
        proof {
            lemma_round_half_div_le(interest_rate.atoms as int, 12);
        }
        let mut balance = original_principal.atoms;
        let mut i: u32 = 0;
        while i < payments_made
            invariant
                0 <= i <= payments_made <= TERM_LIMIT,
                0 <= mr <= RATE_LIMIT,
                mr as int == monthly_rate(interest_rate.atoms as int),
                -MUL_LIMIT <= regular_payment.atoms <= MUL_LIMIT,
                0 <= balance <= MUL_LIMIT,
                balance as int == balloon_balance(original_principal.atoms as int, mr as int,
                    regular_payment.atoms as int, i as nat),
            decreases payments_made - i,
        {
            proof {
                lemma_mul_bounds(balance as int, mr as int, MUL_LIMIT as int,
                    RATE_LIMIT as int);
                lemma_round_half_div_bound((balance as int) * (mr as int), SCALE as int,
                    (MUL_LIMIT as int) * (RATE_LIMIT as int));
            }
            let interest = div_round(balance * mr, SCALE);
            let principal = regular_payment.atoms - interest;
            balance = if balance - principal >= 0 {
                let next = balance - principal;
                if next > MUL_LIMIT {
                    MUL_LIMIT
                } else {
                    next
                }
            } else {
                0
            };
            i = i + 1;
        }
        Money { atoms: balance }
    }
}

/// The balance after `i` regular payments: each month accrues interest at
/// `mr` and the payment's remainder repays principal, clamped to the
/// computable range.
pub open spec fn balloon_balance(p: int, mr: int, payment: int, i: nat) -> int
    decreases i,
{
    if i == 0 {
        p
    } else {
        let prev = balloon_balance(p, mr, payment, (i - 1) as nat);
        let interest = mul_scaled(prev, mr);
        let principal = payment - interest;
        if prev - principal < 0 {
            0
        } else if prev - principal > MUL_LIMIT {
            MUL_LIMIT as int
        } else {
            prev - principal
        }
    }
}

/// The step count never falls below the months already counted.
proof fn lemma_term_steps_at_least(p: int, mr: int, emi: int, months: int, fuel: nat)
    ensures
        term_steps(p, mr, emi, months, fuel) >= months,
    decreases fuel,
{
    if !(p <= 0 || fuel == 0) {
        let interest = mul_scaled(p, mr);
        let principal_payment = emi - interest;
        if principal_payment > 0 {
            let next = if p - principal_payment >= 0 {
                p - principal_payment
            } else {
                0
            };
            lemma_term_steps_at_least(next, mr, emi, months + 1, (fuel - 1) as nat);
        }
    }
}

/// A smaller balance never takes longer to clear, as long as the
/// installment covers the interest at the larger one: each month the
/// smaller balance accrues no more interest, repays no less principal,
/// and stays the smaller.
proof fn lemma_term_steps_monotone(p1: int, p2: int, mr: int, emi: int, months: int,
    fuel: nat)
    requires
        0 <= p1 <= p2,
        0 <= mr,
        emi > mul_scaled(p2, mr),
    ensures
        term_steps(p1, mr, emi, months, fuel) <= term_steps(p2, mr, emi, months, fuel),
    decreases fuel,
{
    if p1 <= 0 {
        lemma_term_steps_at_least(p2, mr, emi, months, fuel);
    } else if fuel == 0 {
    } else {
        crate::money::lemma_mul_bounds(p1, mr, p2, mr);
        assert(p1 * mr <= p2 * mr) by (nonlinear_arith)
            requires
                0 <= p1 <= p2,
                0 <= mr,
        ;
        crate::money::lemma_round_half_div_mono(p1 * mr, p2 * mr,
            crate::money::SCALE as int);
        let i1 = mul_scaled(p1, mr);
        let i2 = mul_scaled(p2, mr);
        let pp1 = emi - i1;
        let pp2 = emi - i2;
        let next1 = if p1 - pp1 >= 0 {
            p1 - pp1
        } else {
            0
        };
        let next2 = if p2 - pp2 >= 0 {
            p2 - pp2
        } else {
            0
        };
        assert(0 * mr <= p1 * mr) by (nonlinear_arith)
            requires
                0 <= p1,
                0 <= mr,
        ;
        crate::money::lemma_round_half_div_mono(0, p1 * mr, crate::money::SCALE as int);
        assert(next1 <= next2);
        assert(next2 * mr <= p2 * mr) by (nonlinear_arith)
            requires
                0 <= next2 <= p2,
                0 <= mr,
        ;
        crate::money::lemma_round_half_div_mono(next2 * mr, p2 * mr,
            crate::money::SCALE as int);
        lemma_term_steps_monotone(next1, next2, mr, emi, months + 1, (fuel - 1) as nat);
    }
}

/// Keeping the installment while reducing the principal never lengthens
/// the remaining term, for a positive monthly rate whose interest the
/// installment covers; and an overpayment that wipes the whole principal
/// ends the term at once, strictly below any term of at least one month.
pub proof fn lemma_reduce_term_never_longer(p: int, x: int, annual: int, emi: int)
    requires
        0 < p,
        0 <= x,
        emi > 0,
        0 < monthly_rate(annual),
        emi > mul_scaled(p, monthly_rate(annual)),
    ensures
        term_for_emi_spec(reduced_principal(p, x), annual, emi) <= term_for_emi_spec(p,
            annual, emi),
        x >= p ==> term_for_emi_spec(reduced_principal(p, x), annual, emi) == 0,
{
    let mr = monthly_rate(annual);
    let p2 = reduced_principal(p, x);
    if p2 <= 0 {
        lemma_term_steps_at_least(p, mr, emi, 0, 360);
    } else {
        lemma_term_steps_monotone(p2, p, mr, emi, 0, 360);
    }
}

} // verus!
