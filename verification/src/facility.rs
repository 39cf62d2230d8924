//! The facility core: validation, balance mutation, status drift and
//! event emission shared by every facility kind.

use vstd::prelude::*;
use crate::clock::{provider_now, system_time_provider};
use crate::config::{config_check, config_wf, FacilityConfig, FacilityType};
use crate::dates::{days_between, MAX_TIMESTAMP};
use crate::errors::FacilityError;
use crate::events::{Event, EventStore, StatusReason};
use crate::interest::accrual::{
    convention_days, daily_accrual_seq, year_basis_spec, AccrualEngine, DailyAccrual,
};
use crate::interest::penalty::{effective_rate_spec, PenaltyEngine};
use crate::money::{simple_interest, Money, Rate, DAYS_LIMIT, MUL_LIMIT, RATE_LIMIT, SCALE};
use crate::payments::waterfall::{wf_run, PaymentProcessor, PaymentResult, PaymentWaterfall};
use crate::payments::{PaymentContext, PaymentRequest};
use crate::state::{
    state_wf, total_outstanding_of, FacilityState, FacilityStateType, StateSnapshot,
};
use crate::types::{CollateralPosition, FacilityId, FacilityStatus, LtvThresholds};

verus! {

/// The delinquency classification of a payment overdue by `days`: active
/// on the due day itself, in grace through the configured window, then
/// delinquent.
pub open spec fn delinquency_status(days_overdue: int, grace_days: int) -> FacilityStatus {
    if days_overdue == 0 {
        FacilityStatus::Active
    } else if days_overdue <= grace_days {
        FacilityStatus::GracePeriod
    } else {
        FacilityStatus::Delinquent
    }
}

/// Once past grace, more days overdue never lead back out of
/// delinquency: the classification is monotone in the days overdue.
pub proof fn lemma_delinquency_is_monotone(d1: int, d2: int, grace_days: int)
    requires
        0 <= grace_days < d1 <= d2,
    ensures
        delinquency_status(d1, grace_days) == FacilityStatus::Delinquent,
        delinquency_status(d2, grace_days) == FacilityStatus::Delinquent,
{
}

/// The day count an accrual at `now` covers.
pub open spec fn accrual_days_of(f: Facility, now: int) -> int {
    convention_days(f.config.interest_config.day_count_convention,
        f.state.last_interest_accrual as int, now)
}

/// The year basis an accrual at `now` uses.
pub open spec fn accrual_basis_of(f: Facility, now: int) -> int {
    year_basis_spec(f.config.interest_config.day_count_convention,
        crate::dates::year_of_day(crate::dates::day_of_ts(now)))
}

/// One day of interest on the facility's current principal.
pub open spec fn accrual_per_day_of(f: Facility, now: int) -> int {
    simple_interest(f.state.outstanding_principal.atoms as int,
        f.config.financial_terms.interest_rate.atoms as int, 1, accrual_basis_of(f, now))
}

/// When an accrual at `now` succeeds: nothing stands outstanding, or the
/// instant is in range, the day span computable, and the summed interest
/// stays within the computable balance range.
pub open spec fn accrual_accepted(pre: Facility, now: int) -> bool {
    pre.state.outstanding_principal.atoms == 0 || {
        &&& pre.state.last_interest_accrual <= now <= MAX_TIMESTAMP
        &&& accrual_days_of(pre, now) <= DAYS_LIMIT
        &&& 0 <= accrual_days_of(pre, now) * accrual_per_day_of(pre, now)
        &&& pre.state.accrued_interest.atoms + accrual_days_of(pre, now)
            * accrual_per_day_of(pre, now) <= MUL_LIMIT
    }
}

/// The interest events a successful accrual appends: one per elapsed day,
/// each carrying that day's interest and its date.
pub open spec fn accrual_events(pre: Facility, now: int) -> Seq<Event> {
    Seq::new(accrual_days_of(pre, now) as nat, |i: int| Event::InterestAccrued {
        facility_id: pre.id,
        amount: Money { atoms: accrual_per_day_of(pre, now) as i128 },
        timestamp: (pre.state.last_interest_accrual + (i + 1)
            * (crate::dates::SECS_PER_DAY as int)) as i64,
    })
}

/// What a successful accrual at `now` guarantees: the records cover the
/// convention's day count on the old principal, the accrued interest grew
/// by exactly that many per-day amounts, and the accrual cursor moved to
/// `now`.
pub open spec fn accrual_post(pre: Facility, post: Facility, v: Seq<DailyAccrual>, now: int)
    -> bool {
    &&& post.state.outstanding_principal == pre.state.outstanding_principal
    &&& post.state.accrued_fees == pre.state.accrued_fees
    &&& post.state.accrued_penalties == pre.state.accrued_penalties
    &&& post.state.status == pre.state.status
    &&& post.state.days_past_due == pre.state.days_past_due
    &&& post.state.next_payment_due == pre.state.next_payment_due
    &&& post.state.minimum_payment_due == pre.state.minimum_payment_due
    &&& post.state.payment_count == pre.state.payment_count
    &&& post.state.missed_payment_count == pre.state.missed_payment_count
    &&& post.state.total_payments_received == pre.state.total_payments_received
    &&& post.config == pre.config
    &&& (pre.state.outstanding_principal.atoms == 0 ==> v.len() == 0 && post.state
        == pre.state)
    &&& ((pre.state.outstanding_principal.atoms > 0 && pre.state.last_interest_accrual <= now
        && now <= MAX_TIMESTAMP) ==> {
        &&& v == daily_accrual_seq(pre.state.outstanding_principal,
            pre.config.financial_terms.interest_rate,
            pre.state.last_interest_accrual as int, accrual_days_of(pre, now),
            accrual_basis_of(pre, now))
        &&& post.state.accrued_interest.atoms == pre.state.accrued_interest.atoms
            + accrual_days_of(pre, now) * accrual_per_day_of(pre, now)
        &&& post.state.last_interest_accrual == now
    })
}

/// The current value of the held collateral position; zero without one.
pub open spec fn collateral_value_of(s: FacilityState) -> int {
    match s.collateral {
        Some(c) => c.current_value.atoms as int,
        None => 0,
    }
}

/// The next scheduled due date; a negative sentinel without one.
pub open spec fn next_due_of(s: FacilityState) -> int {
    match s.next_payment_due {
        Some(d) => d as int,
        None => -1,
    }
}

/// The minimum payment due; zero without one.
pub open spec fn minimum_due_of(s: FacilityState) -> int {
    match s.minimum_payment_due {
        Some(m) => m.atoms as int,
        None => 0,
    }
}

/// Whether a payment arrived on or after the next due date.
pub open spec fn paid_since_due(s: FacilityState) -> bool {
    match (s.last_payment_date, s.next_payment_due) {
        (Some(pd), Some(due)) => pd >= due,
        _ => false,
    }
}

/// Whether a payment of `amount` falls below the facility's minimum due
/// without clearing the whole debt.
pub open spec fn below_minimum(pre: Facility, amount: int) -> bool {
    match pre.state.minimum_payment_due {
        Some(m) => amount < m.atoms && amount < total_outstanding_of(pre.state),
        None => false,
    }
}

/// Whether a below-minimum payment joins the suspense balance and releases
/// it: held deposits have reached the minimum due.
pub open spec fn suspense_releases(pre: Facility, amount: int) -> bool {
    &&& below_minimum(pre, amount)
    &&& pre.config.payment_config.partial_payment_strategy
        == crate::payments::PartialPaymentStrategy::HoldInSuspense
    &&& (pre.state.minimum_payment_due matches Some(m) && pre.state.suspense_balance.atoms
        + amount >= m.atoms)
}

/// Whether a below-minimum payment is held back in suspense.
pub open spec fn payment_held(pre: Facility, amount: int) -> bool {
    &&& below_minimum(pre, amount)
    &&& pre.config.payment_config.partial_payment_strategy
        == crate::payments::PartialPaymentStrategy::HoldInSuspense
    &&& !suspense_releases(pre, amount)
}

/// The amount that actually walks the waterfall: the payment itself, the
/// whole released suspense balance, or nothing while held.
pub open spec fn effective_payment(pre: Facility, amount: int) -> int {
    if suspense_releases(pre, amount) {
        pre.state.suspense_balance.atoms + amount
    } else if payment_held(pre, amount) {
        0
    } else {
        amount
    }
}

/// When one daily update at `now` succeeds: either no scheduled payment
/// is overdue and unpaid, or the overdue span stays computable.
pub open spec fn daily_update_accepted(pre: Facility, now: int) -> bool {
    (pre.state.next_payment_due is Some && now > next_due_of(pre.state)
        && !paid_since_due(pre.state)) ==> crate::dates::days_between_spec(
        next_due_of(pre.state), now) <= DAYS_LIMIT
}

/// Whether a daily update at `now` crosses the edge out of grace: a
/// payment stands overdue and unpaid, the overdue days exceed the grace
/// window, and the facility was still within grace.
pub open spec fn grace_expiry_edge(pre: Facility, now: int) -> bool {
    &&& pre.state.next_payment_due is Some
    &&& now > next_due_of(pre.state)
    &&& !paid_since_due(pre.state)
    &&& crate::dates::days_between_spec(next_due_of(pre.state), now) <= DAYS_LIMIT
    &&& crate::dates::days_between_spec(next_due_of(pre.state), now)
        > pre.config.interest_config.grace_period_days
    &&& pre.state.status == FacilityStatus::GracePeriod
}

/// The flat late fee one daily update at `now` adds: the configured fee,
/// exactly once, on the edge out of grace, where the fee totals stay
/// computable; zero otherwise.
pub open spec fn daily_late_fee(pre: Facility, now: int) -> int {
    if grace_expiry_edge(pre, now) && (pre.config.fee_config.late_fee matches Some(f)
        && pre.state.accrued_fees.atoms + f.atoms <= MUL_LIMIT
        && pre.state.total_fees_charged.atoms + f.atoms <= MUL_LIMIT) {
        match pre.config.fee_config.late_fee {
            Some(f) => f.atoms as int,
            None => 0,
        }
    } else {
        0
    }
}

/// When a payment is accepted: the facility can take payments, the
/// amount is positive, the running totals stay computable, and the
/// partial-payment policy does not turn it away.
pub open spec fn payment_accepted(pre: Facility, amount: int) -> bool {
    &&& !(pre.state.status == FacilityStatus::Settled || pre.state.status
        == FacilityStatus::ChargedOff || pre.state.status == FacilityStatus::Liquidated)
    &&& amount > 0
    &&& pre.state.total_payments_received.atoms + amount <= MUL_LIMIT
    &&& pre.state.payment_count < u32::MAX
    &&& !(below_minimum(pre, amount)
        && pre.config.payment_config.partial_payment_strategy
        == crate::payments::PartialPaymentStrategy::Reject)
    &&& !(suspense_releases(pre, amount) && pre.state.suspense_balance.atoms + amount
        > MUL_LIMIT)
}

/// One facility: its configuration, state, and pending events.
pub struct Facility {
    pub id: FacilityId,
    pub config: FacilityConfig,
    pub state: FacilityState,
    pub events: EventStore,
    pub snapshots: Vec<StateSnapshot>,
}

/// What a successful penalty application guarantees, given the days past
/// due and the configured penalty.
pub open spec fn penalty_post(pre: Facility, post: Facility, m: Money) -> bool {
    match pre.config.interest_config.penalty_config {
        Some(pc) => {
            let overdue = minimum_due_of(pre.state);
            let days = pre.state.days_past_due as int;
            let grace = pc.grace_period_days as int;
            &&& (days <= grace ==> m.atoms == 0 && post.state == pre.state)
            &&& ((days > grace && days <= DAYS_LIMIT) ==> {
                let raw = simple_interest(overdue, effective_rate_spec(pc), days - grace,
                    365);
                let amt = if raw >= pc.minimum_penalty.atoms {
                    raw
                } else {
                    pc.minimum_penalty.atoms as int
                };
                m.atoms as int == amt && ((amt > 0 && pre.state.accrued_penalties.atoms + amt
                    <= MUL_LIMIT) ==> post.state.accrued_penalties.atoms
                    == pre.state.accrued_penalties.atoms + amt)
            })
        },
        None => true,
    }
}

/// What every public operation preserves.
pub open spec fn facility_wf(f: Facility) -> bool {
    &&& state_wf(f.state)
    &&& config_wf(f.config)
    &&& f.id == f.state.facility_id
    &&& (f.config.facility_type matches FacilityType::TermLoan(_) ==> f.state.facility_specific
        is TermLoan)
    &&& (f.config.facility_type matches FacilityType::OpenTermLoan(_)
        ==> f.state.facility_specific is OpenTerm)
    &&& (f.config.facility_type matches FacilityType::Revolving(_)
        ==> f.state.facility_specific is Revolving)
    &&& (f.config.facility_type == FacilityType::Overdraft ==> f.state.facility_specific
        is Overdraft)
}

impl Facility {
    /// Wrap an existing configuration and state.
    pub fn new(config: FacilityConfig, state: FacilityState) -> (r: Facility)
        ensures
            r.id == state.facility_id,
            r.config == config,
            r.state == state,
            r.events.events@ == Seq::<Event>::empty(),
    {
        Facility {
            id: state.facility_id,
            config,
            state,
            events: EventStore::new(),
            snapshots: Vec::new(),
        }
    }

    /// Create a facility from a configuration: a fresh identifier, a
    /// zeroed state stamped at the provider's instant, the origination
    /// event, and the origination fee accrued if one is configured.
    /// Rejected configurations leave nothing behind.
    pub fn originate(config: FacilityConfig, account_number: String, customer_id: String,
        time_provider: &hourglass_rs::SafeTimeProvider) -> (r: Result<Facility, FacilityError>)
        ensures
            r is Ok <==> config_wf(config) && (match config.facility_type {
                FacilityType::TermLoan(_) => crate::payments::amortization::emi_within(
                    config.financial_terms.commitment_amount.atoms as int,
                    config.financial_terms.interest_rate.atoms as int,
                    (match config.financial_terms.term_months {
                        Some(t) => t as int,
                        None => 0,
                    }),
                ),
                _ => true,
            }),
            r matches Ok(f) ==> {
                &&& facility_wf(f)
                &&& f.config == config
                &&& f.state.status == FacilityStatus::Originated
                &&& f.state.original_commitment == config.financial_terms.commitment_amount
                &&& f.state.outstanding_principal.atoms == 0
                &&& f.state.available_commitment
                    == config.financial_terms.commitment_amount
                &&& f.state.accrued_fees.atoms == (match config.fee_config.origination_fee {
                    Some(fee) => fee.atoms as int,
                    None => 0,
                })
                &&& f.state.total_fees_charged == f.state.accrued_fees
                &&& f.events.events@.len() == 1
                &&& f.events.events@[0] matches Event::FacilityOriginated { facility_id, .. }
                    && facility_id == f.id
            },
    {
        if !config_check(&config) {
            return Err(FacilityError::InvalidConfiguration { message: String::new() });
        }
        let now_raw = provider_now(time_provider);
        let now = if now_raw < 0 {
            0
        } else if now_raw > MAX_TIMESTAMP {
            MAX_TIMESTAMP
        } else {
            now_raw
        };
        let facility_id = crate::ids::fresh_facility_id();
        let state_type = match &config.facility_type {
            FacilityType::TermLoan(_) => {
                let term = match config.financial_terms.term_months {
                    Some(t) => t,
                    None => 0,
                };
                let payment = match crate::payments::overpayment::calculate_emi(
                    config.financial_terms.commitment_amount,
                    config.financial_terms.interest_rate, term) {
                    Ok(p) => p,
                    Err(e) => {
                        return Err(e);
                    },
                };
                FacilityStateType::TermLoan {
                    payment,
                    term,
                    balloon: config.financial_terms.balloon_payment,
                }
            },
            FacilityType::OpenTermLoan(_) => FacilityStateType::OpenTerm,
            FacilityType::Revolving(_) => {
                let limit = match config.limits.credit_limit {
                    Some(l) => l,
                    None => Money::zero(),
                };
                FacilityStateType::Revolving { limit }
            },
            FacilityType::Overdraft => {
                let limit = match config.limits.overdraft_limit {
                    Some(l) => l,
                    None => Money::zero(),
                };
                FacilityStateType::Overdraft { limit }
            },
        };
        let mut state = FacilityState::new(facility_id, account_number, customer_id,
            config.financial_terms.commitment_amount, now, state_type);
        let mut events = EventStore::new();
        events.emit(Event::FacilityOriginated {
            facility_id,
            amount: config.financial_terms.commitment_amount,
            collateral_type: String::new(),
            collateral_amount: Money::zero(),
        });
        if let Some(fee) = config.fee_config.origination_fee {
            state.accrued_fees = state.accrued_fees.add(fee);
            state.total_fees_charged = state.total_fees_charged.add(fee);
        }
        Ok(Facility { id: facility_id, config, state, events, snapshots: Vec::new() })
    }

    /// Pay funds out: the facility must be performing with commitment
    /// left, and the amount positive and within the available commitment.
    /// The first disbursement activates the facility and is reported as
    /// the activation; later ones as draws.
    pub fn disburse(&mut self, amount: Money,
        time_provider: &hourglass_rs::SafeTimeProvider) -> (r: Result<Money, FacilityError>)
        requires
            facility_wf(*old(self)),
        ensures
            facility_wf(*old(self)) ==> (r is Err <==> !((old(self).state.status
                == FacilityStatus::Active || old(self).state.status
                == FacilityStatus::GracePeriod)
                && old(self).state.available_commitment.atoms > 0
                && 0 < amount.atoms <= old(self).state.available_commitment.atoms
                && old(self).state.outstanding_principal.atoms + amount.atoms <= MUL_LIMIT
                && old(self).state.total_disbursed.atoms + amount.atoms <= MUL_LIMIT)),
            (facility_wf(*old(self)) && !(old(self).state.status == FacilityStatus::Active
                || old(self).state.status == FacilityStatus::GracePeriod)) ==> (r matches Err(
                e) && e == FacilityError::FacilityNotActive { status: old(self).state.status }),
            final(self).config == old(self).config,
            final(self).id == old(self).id,
            r is Err ==> final(self).state == old(self).state && final(self).events.events@
                == old(self).events.events@,
            r matches Ok(a) ==> {
                &&& a == amount
                &&& facility_wf(*final(self))
                &&& final(self).state.outstanding_principal.atoms
                    == old(self).state.outstanding_principal.atoms + amount.atoms
                &&& final(self).state.total_disbursed.atoms
                    == old(self).state.total_disbursed.atoms + amount.atoms
                &&& final(self).state.available_commitment.atoms
                    == old(self).state.available_commitment.atoms - amount.atoms
                &&& final(self).state.accrued_interest == old(self).state.accrued_interest
                &&& final(self).state.accrued_fees == old(self).state.accrued_fees
                &&& final(self).state.accrued_penalties == old(self).state.accrued_penalties
                &&& final(self).events.events@.len() == old(self).events.events@.len() + 1
                &&& (old(self).state.activation_date is None ==> final(self).state.status
                    == FacilityStatus::Active)
            },
    {
        if !self.state.can_disburse() {
            return Err(FacilityError::FacilityNotActive { status: self.state.status });
        }
        if amount.atoms <= 0 {
            return Err(FacilityError::InvalidDrawAmount { amount });
        }
        if amount.atoms > self.state.available_commitment.atoms {
            return Err(FacilityError::InsufficientFunds {
                available: self.state.available_commitment,
                requested: amount,
            });
        }
        if self.state.outstanding_principal.atoms + amount.atoms > MUL_LIMIT
            || self.state.total_disbursed.atoms + amount.atoms > MUL_LIMIT {
            return Err(FacilityError::CalculationError { message: String::new() });
        }
        let now = provider_now(time_provider);
        let stamped = if now < 0 {
            0
        } else if now > MAX_TIMESTAMP {
            MAX_TIMESTAMP
        } else {
            now
        };
        let first = self.state.total_disbursed.atoms == 0;
        self.state.record_disbursement(amount, stamped);
        if first {
            self.events.emit(Event::FacilityActivated {
                facility_id: self.id,
                first_disbursement: amount,
                timestamp: stamped,
            });
        } else {
            self.events.emit(Event::FundsDrawn {
                facility_id: self.id,
                amount,
                new_outstanding: self.state.outstanding_principal,
                available_credit: self.state.available_commitment,
                timestamp: stamped,
            });
        }
        Ok(amount)
    }

    /// Accrue daily interest from the last accrual up to the instant
    /// `now`: one record per elapsed day under the configured convention,
    /// all on the current principal base, summed into accrued interest.
    /// An instant before the last accrual accrues nothing, and a span or
    /// sum beyond the computable range is refused untouched.
    pub fn accrue_interest_at(&mut self, now: i64) -> (r: Result<Vec<DailyAccrual>,
        FacilityError>)
        requires
            facility_wf(*old(self)),
        ensures
            r is Err ==> final(self).state == old(self).state && final(self).events.events@
                == old(self).events.events@,
            final(self).id == old(self).id,
            final(self).config == old(self).config,
            final(self).state.payment_count == old(self).state.payment_count,
            final(self).state.missed_payment_count == old(self).state.missed_payment_count,
            final(self).state.total_payments_received
                == old(self).state.total_payments_received,
            r is Ok <==> accrual_accepted(*old(self), now as int),
            final(self).events.events@.len() >= old(self).events.events@.len(),
            forall|i: int| 0 <= i < old(self).events.events@.len()
                ==> #[trigger] final(self).events.events@[i]
                == old(self).events.events@[i],
            r matches Ok(v) ==> facility_wf(*final(self)) && accrual_post(*old(self),
                *final(self), v@, now as int),
            (r is Ok && old(self).state.outstanding_principal.atoms > 0) ==> final(
                self).events.events@ == old(self).events.events@ + accrual_events(
                *old(self), now as int),
            (r is Ok && old(self).state.outstanding_principal.atoms == 0) ==> final(
                self).events.events@ == old(self).events.events@,
    {
        if self.state.outstanding_principal.atoms == 0 {
            return Ok(Vec::new());
        }
        if now < self.state.last_interest_accrual || now > MAX_TIMESTAMP {
            return Err(FacilityError::InvalidDate { message: String::new() });
        }
        let engine = AccrualEngine::new(self.config.interest_config.day_count_convention);
        let days = engine.calculate_days(self.state.last_interest_accrual, now);
        if days > DAYS_LIMIT as i64 {
            return Err(FacilityError::CalculationError { message: String::new() });
        }
        let accruals = engine.accrue_daily_at(self.state.outstanding_principal,
            self.config.financial_terms.interest_rate, self.state.last_interest_accrual,
            now);
        let ghost days_g = days as int;
        let (yr, _m, _d) = crate::dates::civil_of_timestamp(now);
        let basis = engine.year_basis(yr);
        let per_day = self.state.outstanding_principal.interest_for_days(
            self.config.financial_terms.interest_rate, 1, basis);
        proof {
            crate::money::lemma_mul_bounds(self.state.outstanding_principal.atoms as int,
                self.config.financial_terms.interest_rate.atoms as int, MUL_LIMIT as int,
                RATE_LIMIT as int);
            crate::money::lemma_mul_bounds((self.state.outstanding_principal.atoms as int)
                * (self.config.financial_terms.interest_rate.atoms as int), 1,
                (MUL_LIMIT as int) * (RATE_LIMIT as int), 1);
            crate::money::lemma_round_half_div_bound(
                (self.state.outstanding_principal.atoms as int)
                * (self.config.financial_terms.interest_rate.atoms as int) * 1,
                (basis as int) * (SCALE as int),
                (MUL_LIMIT as int) * (RATE_LIMIT as int));
            vstd::arithmetic::div_mod::lemma_div_is_ordered_by_denominator(
                (MUL_LIMIT as int) * (RATE_LIMIT as int), 1,
                (basis as int) * (SCALE as int));
            crate::money::lemma_mul_bounds(days as int, per_day.atoms as int,
                DAYS_LIMIT as int, (MUL_LIMIT as int) * (RATE_LIMIT as int)
                + 1);
        }
        let total = (days as i128) * per_day.atoms;
        if total < 0 || self.state.accrued_interest.atoms + total > MUL_LIMIT {
            return Err(FacilityError::CalculationError { message: String::new() });
        }
        self.state.accrued_interest = Money {
            atoms: self.state.accrued_interest.atoms + total,
        };
        self.state.last_interest_accrual = now;
        let ghost mid_state = self.state;
        let ghost mid_config = self.config;
        let ghost mid_events = self.events.events@;
        let ghost evs = accrual_events(*old(self), now as int);
        let mut i: usize = 0;
        while i < accruals.len()
            invariant
                0 <= i <= accruals@.len(),
                accruals@.len() == evs.len(),
                self.id == old(self).id,
                self.state == mid_state,
                self.config == mid_config,
                forall|j: int| 0 <= j < accruals@.len() ==> evs[j]
                    == (Event::InterestAccrued {
                    facility_id: old(self).id,
                    amount: (#[trigger] accruals@[j]).interest_amount,
                    timestamp: accruals@[j].date,
                }),
                self.events.events@ == mid_events + evs.take(i as int),
            decreases accruals@.len() - i,
        {
            let a = accruals[i];
            self.events.emit(Event::InterestAccrued {
                facility_id: self.id,
                amount: a.interest_amount,
                timestamp: a.date,
            });
            proof {
                assert(self.events.events@ =~= mid_events + evs.take(i + 1));
            }
            i = i + 1;
        }
        proof {
            assert(self.events.events@ =~= mid_events + evs);
        }
        Ok(accruals)
    }

    /// Accrue daily interest against the provider's current instant; an
    /// instant before the last accrual accrues nothing.
    pub fn accrue_interest(&mut self, time_provider: &hourglass_rs::SafeTimeProvider)
        -> (r: Result<Vec<DailyAccrual>, FacilityError>)
        requires
            facility_wf(*old(self)),
        ensures
            r is Ok ==> facility_wf(*final(self))
                && final(self).state.outstanding_principal
                == old(self).state.outstanding_principal,
            r is Err ==> final(self).state == old(self).state,
            final(self).config == old(self).config,
            final(self).id == old(self).id,
            final(self).state.days_past_due == old(self).state.days_past_due,
            final(self).state.status == old(self).state.status,
            final(self).state.accrued_fees == old(self).state.accrued_fees,
            final(self).state.accrued_penalties == old(self).state.accrued_penalties,
            final(self).state.next_payment_due == old(self).state.next_payment_due,
            final(self).state.minimum_payment_due == old(self).state.minimum_payment_due,
            final(self).state.payment_count == old(self).state.payment_count,
            final(self).state.missed_payment_count == old(self).state.missed_payment_count,
            final(self).state.total_payments_received
                == old(self).state.total_payments_received,
    {
        let now = provider_now(time_provider);
        if now < self.state.last_interest_accrual || now > MAX_TIMESTAMP {
            return Ok(Vec::new());
        }
        self.accrue_interest_at(now)
    }

    /// Accrue daily interest against the system clock.
    pub fn accrue_interest_now(&mut self) -> (r: Result<Vec<DailyAccrual>, FacilityError>)
        requires
            facility_wf(*old(self)),
        ensures
            r is Ok ==> facility_wf(*final(self)),
            r is Err ==> final(self).state == old(self).state,
    {
        let time = system_time_provider();
        self.accrue_interest(&time)
    }

    /// Apply a payment through the standard waterfall: fees, penalties,
    /// interest, then principal. Zero and negative amounts are rejected
    /// untouched; a payment below the minimum due follows the configured
    /// partial-payment policy (rejected, applied at once, or held in
    /// suspense until the held balance covers the minimum, at which point
    /// the whole balance walks the waterfall); a payment that clears the
    /// whole debt settles the facility.
    pub fn process_payment(&mut self, amount: Money,
        time_provider: &hourglass_rs::SafeTimeProvider)
        -> (r: Result<PaymentResult, FacilityError>)
        requires
            facility_wf(*old(self)),
            -MUL_LIMIT <= amount.atoms <= MUL_LIMIT,
        ensures
            final(self).config == old(self).config,
            final(self).id == old(self).id,
            r is Err ==> final(self).state == old(self).state
                && final(self).events.events@ == old(self).events.events@,
            r is Ok <==> payment_accepted(*old(self), amount.atoms as int),
            (!(old(self).state.status == FacilityStatus::Settled || old(self).state.status
                == FacilityStatus::ChargedOff || old(self).state.status
                == FacilityStatus::Liquidated) && amount.atoms <= 0) ==> r == Result::<
                PaymentResult,
                FacilityError,
            >::Err(FacilityError::InvalidPaymentAmount { amount }),
            !(old(self).state.status == FacilityStatus::Active || old(self).state.status
                == FacilityStatus::Originated || old(self).state.status
                == FacilityStatus::GracePeriod || old(self).state.status
                == FacilityStatus::Delinquent || old(self).state.status
                == FacilityStatus::Default || old(self).state.status
                == FacilityStatus::Liquidating) ==> (r matches Err(e) && e
                == FacilityError::FacilityNotActive { status: old(self).state.status }),
            r matches Ok(result) ==> {
                let ctx = PaymentContext {
                    facility_id: old(self).id,
                    accrued_fees: old(self).state.accrued_fees,
                    accrued_penalties: old(self).state.accrued_penalties,
                    accrued_interest: old(self).state.accrued_interest,
                    outstanding_principal: old(self).state.outstanding_principal,
                    minimum_payment: None,
                    payment_due_date: old(self).state.next_payment_due,
                    days_overdue: old(self).state.days_past_due,
                };
                let eff = effective_payment(*old(self), amount.atoms as int);
                let st = wf_run(PaymentWaterfall {
                    fees_priority: crate::payments::waterfall::WaterfallPriority::First,
                    penalties_priority: crate::payments::waterfall::WaterfallPriority::Second,
                    interest_priority: crate::payments::waterfall::WaterfallPriority::Third,
                    principal_priority: crate::payments::waterfall::WaterfallPriority::Fourth,
                    allow_overpayment: true,
                }, ctx, eff);
                &&& facility_wf(*final(self))
                &&& (payment_held(*old(self), amount.atoms as int) ==> {
                    &&& final(self).state.accrued_fees == old(self).state.accrued_fees
                    &&& final(self).state.accrued_penalties
                        == old(self).state.accrued_penalties
                    &&& final(self).state.accrued_interest
                        == old(self).state.accrued_interest
                    &&& final(self).state.outstanding_principal
                        == old(self).state.outstanding_principal
                    &&& final(self).state.suspense_balance.atoms
                        == old(self).state.suspense_balance.atoms + amount.atoms
                    &&& result.application.total_applied_spec() == 0
                    &&& final(self).state.total_interest_paid
                        == old(self).state.total_interest_paid
                    &&& final(self).state.total_fees_paid == old(self).state.total_fees_paid
                    &&& final(self).events.events@ == old(self).events.events@
                })
                &&& (!payment_held(*old(self), amount.atoms as int) ==> {
                    &&& final(self).state.accrued_fees.atoms == st.fees
                    &&& final(self).state.accrued_penalties.atoms == st.penalties
                    &&& final(self).state.accrued_interest.atoms == st.interest
                    &&& final(self).state.outstanding_principal.atoms == st.principal
                    &&& result.application.to_fees.atoms == st.to_fees
                    &&& result.application.to_penalties.atoms == st.to_penalties
                    &&& result.application.to_interest.atoms == st.to_interest
                    &&& result.application.to_principal.atoms == st.to_principal
                    &&& result.application.excess.atoms == st.remaining
                    &&& (suspense_releases(*old(self), amount.atoms as int)
                        ==> final(self).state.suspense_balance.atoms == 0)
                    &&& ((0 <= st.to_interest <= MUL_LIMIT
                        && old(self).state.total_interest_paid.atoms + st.to_interest
                        <= MUL_LIMIT) ==> final(self).state.total_interest_paid.atoms
                        == old(self).state.total_interest_paid.atoms + st.to_interest)
                    &&& ((0 <= st.to_fees <= MUL_LIMIT
                        && old(self).state.total_fees_paid.atoms + st.to_fees <= MUL_LIMIT)
                        ==> final(self).state.total_fees_paid.atoms
                        == old(self).state.total_fees_paid.atoms + st.to_fees)
                    &&& ({
                        let base = old(self).events.events@.len() as int;
                        &&& (final(self).events.events@[base] matches
                            Event::PaymentReceived { amount: a, applied_to_fees: tf,
                            applied_to_interest: ti, applied_to_principal: tp, .. }
                            && a.atoms as int == eff && tf.atoms == st.to_fees
                            && ti.atoms == st.to_interest && tp.atoms == st.to_principal)
                        &&& (total_outstanding_of(final(self).state) == 0 ==> final(
                            self).events.events@.len() == base + 2 && (final(
                            self).events.events@[base + 1] matches Event::FacilitySettled {
                            settlement_amount, .. } && settlement_amount == amount))
                        &&& (total_outstanding_of(final(self).state) != 0 ==> final(
                            self).events.events@.len() == base + 1)
                    })
                })
                &&& final(self).state.total_payments_received.atoms
                    == old(self).state.total_payments_received.atoms + amount.atoms
                &&& final(self).state.payment_count == old(self).state.payment_count + 1
                &&& (total_outstanding_of(final(self).state) == 0 ==> final(self).state.status
                    == FacilityStatus::Settled)
                &&& (total_outstanding_of(final(self).state) != 0 ==> final(self).state.status
                    == old(self).state.status)
            },
    {
        if !self.state.can_accept_payment() {
            return Err(FacilityError::FacilityNotActive { status: self.state.status });
        }
        if amount.atoms <= 0 {
            return Err(FacilityError::InvalidPaymentAmount { amount });
        }
        if self.state.total_payments_received.atoms + amount.atoms > MUL_LIMIT
            || self.state.payment_count == u32::MAX {
            return Err(FacilityError::CalculationError { message: String::new() });
        }
        let now = provider_now(time_provider);
        let stamped = if now < 0 {
            0
        } else if now > MAX_TIMESTAMP {
            MAX_TIMESTAMP
        } else {
            now
        };
        let below_min = match self.state.minimum_payment_due {
            Some(m) => {
                let total = self.state.total_outstanding();
                amount.atoms < m.atoms && amount.atoms < total.atoms
            },
            None => false,
        };
        let mut effective = amount;
        if below_min {
            match self.config.payment_config.partial_payment_strategy {
                crate::payments::PartialPaymentStrategy::Reject => {
                    let minimum = match self.state.minimum_payment_due {
                        Some(m) => m,
                        None => Money::zero(),
                    };
                    return Err(FacilityError::PaymentBelowMinimum {
                        minimum,
                        provided: amount,
                    });
                },
                crate::payments::PartialPaymentStrategy::ApplyImmediately => {},
                crate::payments::PartialPaymentStrategy::HoldInSuspense => {
                    let minimum = match self.state.minimum_payment_due {
                        Some(m) => m,
                        None => Money::zero(),
                    };
                    if self.state.suspense_balance.atoms + amount.atoms < minimum.atoms {
                        self.state.suspense_balance
                            = self.state.suspense_balance.add(amount);
                        self.state.record_payment(amount, stamped);
                        let application = crate::types::PaymentApplication::empty();
                        return Ok(PaymentResult {
                            payment_id: self.id,
                            amount_applied: Money::zero(),
                            application,
                            remaining_balance: self.state.total_outstanding(),
                            payment_date: stamped,
                        });
                    }
                    if self.state.suspense_balance.atoms + amount.atoms > MUL_LIMIT {
                        return Err(FacilityError::CalculationError {
                            message: String::new(),
                        });
                    }
                    effective = self.state.suspense_balance.add(amount);
                    self.state.suspense_balance = Money::zero();
                },
            }
        }
        let mut context = PaymentContext {
            facility_id: self.id,
            accrued_fees: self.state.accrued_fees,
            accrued_penalties: self.state.accrued_penalties,
            accrued_interest: self.state.accrued_interest,
            outstanding_principal: self.state.outstanding_principal,
            minimum_payment: None,
            payment_due_date: self.state.next_payment_due,
            days_overdue: self.state.days_past_due,
        };
        let request = PaymentRequest {
            facility_id: self.id,
            amount: effective,
            payment_date: stamped,
            reference: String::new(),
            is_principal_only: false,
        };
        let processor = PaymentProcessor::new(PaymentWaterfall::standard());
        let result = match processor.process(request, &mut context, time_provider,
            &mut self.events) {
            Ok(res) => res,
            Err(e) => {
                return Err(e);
            },
        };
        proof {
            crate::payments::waterfall::lemma_wf_upto_nonneg(PaymentWaterfall {
                fees_priority: crate::payments::waterfall::WaterfallPriority::First,
                penalties_priority: crate::payments::waterfall::WaterfallPriority::Second,
                interest_priority: crate::payments::waterfall::WaterfallPriority::Third,
                principal_priority: crate::payments::waterfall::WaterfallPriority::Fourth,
                allow_overpayment: true,
            }, crate::payments::waterfall::wf_init(PaymentContext {
                facility_id: old(self).id,
                accrued_fees: old(self).state.accrued_fees,
                accrued_penalties: old(self).state.accrued_penalties,
                accrued_interest: old(self).state.accrued_interest,
                outstanding_principal: old(self).state.outstanding_principal,
                minimum_payment: None,
                payment_due_date: old(self).state.next_payment_due,
                days_overdue: old(self).state.days_past_due,
            }, effective.atoms as int), 7);
            crate::payments::waterfall::lemma_waterfall_conserves(PaymentWaterfall {
                fees_priority: crate::payments::waterfall::WaterfallPriority::First,
                penalties_priority: crate::payments::waterfall::WaterfallPriority::Second,
                interest_priority: crate::payments::waterfall::WaterfallPriority::Third,
                principal_priority: crate::payments::waterfall::WaterfallPriority::Fourth,
                allow_overpayment: true,
            }, PaymentContext {
                facility_id: old(self).id,
                accrued_fees: old(self).state.accrued_fees,
                accrued_penalties: old(self).state.accrued_penalties,
                accrued_interest: old(self).state.accrued_interest,
                outstanding_principal: old(self).state.outstanding_principal,
                minimum_payment: None,
                payment_due_date: old(self).state.next_payment_due,
                days_overdue: old(self).state.days_past_due,
            }, effective.atoms as int);
        }
        self.state.accrued_fees = context.accrued_fees;
        self.state.accrued_penalties = context.accrued_penalties;
        self.state.accrued_interest = context.accrued_interest;
        self.state.outstanding_principal = context.outstanding_principal;
        self.state.record_payment(amount, stamped);
        if result.application.to_interest.atoms >= 0 && result.application.to_interest.atoms
            <= MUL_LIMIT && self.state.total_interest_paid.atoms
            + result.application.to_interest.atoms <= MUL_LIMIT {
            self.state.total_interest_paid = self.state.total_interest_paid.add(
                result.application.to_interest);
        }
        if result.application.to_fees.atoms >= 0 && result.application.to_fees.atoms
            <= MUL_LIMIT && self.state.total_fees_paid.atoms
            + result.application.to_fees.atoms <= MUL_LIMIT {
            self.state.total_fees_paid = self.state.total_fees_paid.add(
                result.application.to_fees);
        }
        let outstanding = self.state.total_outstanding();
        if outstanding.atoms == 0 {
            self.state.update_status(FacilityStatus::Settled, stamped);
            self.events.emit(Event::FacilitySettled {
                facility_id: self.id,
                settlement_amount: amount,
                timestamp: stamped,
            });
        }
        Ok(result)
    }

    /// Accrue penalty interest on the overdue minimum payment: nothing
    /// while current, the configured penalty once overdue.
    pub fn apply_penalty_interest(&mut self, time_provider: &hourglass_rs::SafeTimeProvider)
        -> (r: Result<Money, FacilityError>)
        requires
            facility_wf(*old(self)),
        ensures
            old(self).state.days_past_due == 0 ==> (r matches Ok(m) && m.atoms == 0
                && final(self).state == old(self).state),
            (old(self).state.days_past_due > 0
                && old(self).config.interest_config.penalty_config is None) ==> (r is Err
                && final(self).state == old(self).state),
            r is Ok ==> facility_wf(*final(self)),
            r is Err ==> final(self).state == old(self).state,
            final(self).id == old(self).id,
            final(self).events.events@.len() >= old(self).events.events@.len(),
            forall|i: int| 0 <= i < old(self).events.events@.len()
                ==> #[trigger] final(self).events.events@[i]
                == old(self).events.events@[i],
            old(self).state.days_past_due > 0 ==> (r matches Ok(m)
                ==> penalty_post(*old(self), *final(self), m)),
            final(self).state.days_past_due == old(self).state.days_past_due,
            final(self).state.status == old(self).state.status,
            final(self).state.next_payment_due == old(self).state.next_payment_due,
            final(self).state.minimum_payment_due == old(self).state.minimum_payment_due,
            final(self).state.outstanding_principal
                == old(self).state.outstanding_principal,
            final(self).state.accrued_interest == old(self).state.accrued_interest,
            final(self).state.accrued_fees == old(self).state.accrued_fees,
            final(self).state.payment_count == old(self).state.payment_count,
            final(self).state.missed_payment_count == old(self).state.missed_payment_count,
            final(self).state.total_payments_received
                == old(self).state.total_payments_received,
            final(self).config == old(self).config,
    {
        if self.state.days_past_due == 0 {
            return Ok(Money::zero());
        }
        let penalty_config = match &self.config.interest_config.penalty_config {
            Some(pc) => *pc,
            None => {
                return Err(FacilityError::InvalidConfiguration { message: String::new() });
            },
        };
        if self.state.days_past_due > DAYS_LIMIT {
            return Err(FacilityError::CalculationError { message: String::new() });
        }
        let engine = PenaltyEngine::new(penalty_config);
        let overdue_amount = match self.state.minimum_payment_due {
            Some(m) => m,
            None => Money::zero(),
        };
        let calculation = engine.calculate_penalty(overdue_amount, self.state.days_past_due);
        if calculation.penalty_amount.atoms > 0 {
            if calculation.penalty_amount.atoms > MUL_LIMIT
                || self.state.accrued_penalties.atoms + calculation.penalty_amount.atoms
                > MUL_LIMIT {
                return Err(FacilityError::CalculationError { message: String::new() });
            }
            self.state.accrued_penalties = self.state.accrued_penalties.add(
                calculation.penalty_amount);
            let now = provider_now(time_provider);
            self.events.emit(Event::PenaltyInterestApplied {
                facility_id: self.id,
                amount: calculation.penalty_amount,
                days_overdue: self.state.days_past_due,
                timestamp: now,
            });
        }
        Ok(calculation.penalty_amount)
    }

    /// Record a collateral position and, if thresholds are configured,
    /// check them at once: a liquidation-level ratio moves the facility
    /// to liquidating and fails with the breach.
    pub fn update_collateral(&mut self, collateral: CollateralPosition,
        time_provider: &hourglass_rs::SafeTimeProvider) -> (r: Result<(), FacilityError>)
        requires
            facility_wf(*old(self)),
            0 <= collateral.current_value.atoms <= MUL_LIMIT,
        ensures
            facility_wf(*final(self)),
            final(self).state.collateral == Some(collateral),
            final(self).config == old(self).config,
            final(self).id == old(self).id,
    {
        let raw_now = provider_now(time_provider);
        let now = if raw_now < 0 {
            0
        } else if raw_now > MAX_TIMESTAMP {
            MAX_TIMESTAMP
        } else {
            raw_now
        };
        let old_value = match &self.state.collateral {
            Some(c) => c.current_value,
            None => Money::zero(),
        };
        self.events.emit(Event::CollateralValueUpdated {
            facility_id: self.id,
            old_value,
            new_value: collateral.current_value,
            timestamp: now,
        });
        self.state.collateral = Some(collateral);
        let thresholds = match &self.config.collateral_config {
            Some(cc) => cc.ltv_thresholds,
            None => {
                return Ok(());
            },
        };
        self.check_ltv_breach(thresholds, now)
    }

    /// Check the principal against the held collateral: report the ratio,
    /// and past the margin-call and liquidation thresholds report the
    /// remedies or move to liquidating with the breach.
    pub fn check_ltv_breach(&mut self, thresholds: LtvThresholds, now: i64)
        -> (r: Result<(), FacilityError>)
        requires
            facility_wf(*old(self)),
            crate::collateral::ltv::thresholds_wf(thresholds),
            0 <= now <= MAX_TIMESTAMP,
        ensures
            facility_wf(*final(self)),
            final(self).state.collateral == old(self).state.collateral,
            final(self).config == old(self).config,
            final(self).id == old(self).id,
            old(self).state.collateral is None ==> r is Err,
            r is Ok ==> final(self).state.outstanding_principal
                == old(self).state.outstanding_principal,
            (old(self).state.collateral is Some
                && 0 < collateral_value_of(old(self).state) <= MUL_LIMIT) ==> ({
                let ltv = crate::collateral::ltv::ltv_of(
                    old(self).state.outstanding_principal.atoms as int,
                    collateral_value_of(old(self).state));
                &&& (ltv > thresholds.liquidation_ltv.atoms ==> (r is Err
                    && final(self).state.status == FacilityStatus::Liquidating))
                &&& (ltv <= thresholds.liquidation_ltv.atoms ==> (r is Ok
                    && final(self).state.status == old(self).state.status))
            }),
    {
        let collateral_value = match &self.state.collateral {
            Some(c) => c.current_value,
            None => {
                return Err(FacilityError::NoCollateral);
            },
        };
        if collateral_value.atoms <= 0 || collateral_value.atoms > MUL_LIMIT {
            return Err(FacilityError::InvalidCollateral { message: String::new() });
        }
        proof {
            crate::money::lemma_mul_bounds(self.state.outstanding_principal.atoms as int,
                SCALE as int, MUL_LIMIT as int, SCALE as int);
        }
        let ltv = Rate {
            atoms: crate::money::div_round(self.state.outstanding_principal.atoms * SCALE,
                collateral_value.atoms),
        };
        self.events.emit(Event::LtvCalculated {
            facility_id: self.id,
            ltv_ratio: ltv,
            collateral_value,
            total_debt: self.state.outstanding_principal,
            timestamp: now,
        });
        if ltv.atoms > thresholds.liquidation_ltv.atoms {
            self.state.update_status(FacilityStatus::Liquidating, now);
            self.events.emit(Event::LtvLiquidationBreached {
                facility_id: self.id,
                ltv_ratio: ltv,
                threshold: thresholds.liquidation_ltv,
                timestamp: now,
            });
            return Err(FacilityError::LtvBreach {
                ltv,
                threshold: thresholds.liquidation_ltv,
            });
        }
        if ltv.atoms > thresholds.margin_call_ltv.atoms {
            self.events.emit(Event::MarginCallRequired {
                facility_id: self.id,
                current_ltv: ltv,
                required_ltv: thresholds.margin_call_ltv,
                deadline: if now <= MAX_TIMESTAMP {
                    now + 7 * 86_400
                } else {
                    now
                },
                collateral_remedy: Money::zero(),
                payment_remedy: Money::zero(),
            });
        }
        if ltv.atoms > thresholds.warning_ltv.atoms {
            self.events.emit(Event::LtvWarningBreached {
                facility_id: self.id,
                ltv_ratio: ltv,
                threshold: thresholds.warning_ltv,
                timestamp: now,
            });
        }
        Ok(())
    }

    /// One daily update at the instant `now`: if a scheduled payment is
    /// overdue and none has arrived since the due date, the days past due
    /// are recomputed and the status drifts active, grace, delinquent by
    /// the grace window; the configured late fee lands once on the edge
    /// into delinquency, penalties accrue past grace, and daily interest
    /// accrues regardless.
    #[verifier::rlimit(100)]
    pub fn update_daily_status_at(&mut self, now: i64,
        time_provider: &hourglass_rs::SafeTimeProvider) -> (r: Result<(), FacilityError>)
        requires
            facility_wf(*old(self)),
            0 <= now <= MAX_TIMESTAMP,
        ensures
            r is Ok ==> facility_wf(*final(self)),
            r is Ok <==> daily_update_accepted(*old(self), now as int),
            r is Err ==> final(self).state == old(self).state,
            final(self).config == old(self).config,
            final(self).id == old(self).id,
            final(self).state.missed_payment_count == old(self).state.missed_payment_count,
            final(self).state.payment_count == old(self).state.payment_count,
            final(self).state.total_payments_received
                == old(self).state.total_payments_received,
            r is Ok ==> final(self).state.accrued_fees.atoms
                == old(self).state.accrued_fees.atoms + daily_late_fee(*old(self),
                now as int),
            (r is Ok && grace_expiry_edge(*old(self), now as int)
                && daily_late_fee(*old(self), now as int) > 0) ==> ({
                let overdue = crate::dates::days_between_spec(next_due_of(old(self).state),
                    now as int);
                let base = old(self).events.events@.len() as int;
                &&& final(self).events.events@.len() >= base + 3
                &&& final(self).events.events@[base] matches Event::StatusChanged {
                    old_status: FacilityStatus::GracePeriod,
                    new_status: FacilityStatus::Delinquent,
                    ..
                }
                &&& final(self).events.events@[base + 1] matches Event::GracePeriodExpired {
                    .. }
                &&& (final(self).events.events@[base + 2] matches Event::LateFeeApplied {
                    fee_amount, days_overdue, .. } && fee_amount.atoms as int
                    == daily_late_fee(*old(self), now as int) && days_overdue as int
                    == overdue)
            }),
            (r is Ok && old(self).state.next_payment_due is Some
                && now > next_due_of(old(self).state) && !paid_since_due(old(self).state)
                && crate::dates::days_between_spec(next_due_of(old(self).state), now as int)
                <= DAYS_LIMIT) ==> ({
                let overdue = crate::dates::days_between_spec(next_due_of(old(self).state),
                    now as int);
                &&& final(self).state.days_past_due as int == overdue
                &&& final(self).state.status == delinquency_status(overdue,
                    old(self).config.interest_config.grace_period_days as int)
            }),
    {
        let due = self.state.next_payment_due;
        if let Some(due_date) = due {
            if now > due_date {
                let payment_made = match self.state.last_payment_date {
                    Some(pd) => pd >= due_date,
                    None => false,
                };
                if !payment_made {
                    proof {
                        assert(state_wf(old(self).state));
                    }
                    let days_overdue_64 = days_between(due_date, now);
                    if days_overdue_64 > DAYS_LIMIT as i64 {
                        return Err(FacilityError::CalculationError {
                            message: String::new(),
                        });
                    }
                    let days_overdue = days_overdue_64 as u32;
                    self.state.days_past_due = days_overdue;
                    let grace_period = self.config.interest_config.grace_period_days;
                    let new_status = if days_overdue == 0 {
                        FacilityStatus::Active
                    } else if days_overdue <= grace_period {
                        FacilityStatus::GracePeriod
                    } else {
                        FacilityStatus::Delinquent
                    };
                    if !status_eq(new_status, self.state.status) {
                        let old_status = self.state.status;
                        self.state.update_status(new_status, now);
                        self.events.emit(Event::StatusChanged {
                            facility_id: self.id,
                            old_status,
                            new_status,
                            reason: StatusReason::DaysPastDue(days_overdue),
                            timestamp: now,
                        });
                        if matches!(new_status, FacilityStatus::GracePeriod) && matches!(
                            old_status, FacilityStatus::Active) {
                            self.events.emit(Event::GracePeriodStarted {
                                facility_id: self.id,
                                payment_due_date: due_date,
                                grace_ends_at: due_date + (grace_period as i64) * 86_400,
                                timestamp: now,
                            });
                        }
                        if matches!(old_status, FacilityStatus::GracePeriod) && matches!(
                            new_status, FacilityStatus::Delinquent) {
                            self.events.emit(Event::GracePeriodExpired {
                                facility_id: self.id,
                                days_overdue,
                                timestamp: now,
                            });
                            if let Some(fee) = self.config.fee_config.late_fee {
                                if self.state.accrued_fees.atoms + fee.atoms <= MUL_LIMIT
                                    && self.state.total_fees_charged.atoms + fee.atoms
                                    <= MUL_LIMIT {
                                    self.state.accrued_fees = self.state.accrued_fees.add(
                                        fee);
                                    self.state.total_fees_charged
                                        = self.state.total_fees_charged.add(fee);
                                    self.events.emit(Event::LateFeeApplied {
                                        facility_id: self.id,
                                        fee_amount: fee,
                                        days_overdue,
                                        timestamp: now,
                                    });
                                    proof {
                                        let base = old(
                                            self).events.events@.len() as int;
                                        assert(self.events.events@.len() == base + 3);
                                        assert(self.events.events@[base]
                                            matches Event::StatusChanged {
                                            old_status: FacilityStatus::GracePeriod,
                                            new_status: FacilityStatus::Delinquent,
                                            ..
                                        });
                                        assert(self.events.events@[base + 1]
                                            matches Event::GracePeriodExpired { .. });
                                        assert(self.events.events@[base + 2]
                                            matches Event::LateFeeApplied { .. });
                                    }
                                }
                            }
                        }
                    }
                    if days_overdue > grace_period
                        && self.config.interest_config.penalty_config.is_some() {
                        let _ = self.apply_penalty_interest(time_provider);
                    }
                }
            }
        }
        if self.state.outstanding_principal.atoms > 0 {
            if now >= self.state.last_interest_accrual {
                let _ = self.accrue_interest_at(now);
            }
        }
        Ok(())
    }

    /// One daily update against the provider's current instant.
    pub fn update_daily_status(&mut self, time_provider: &hourglass_rs::SafeTimeProvider)
        -> (r: Result<(), FacilityError>)
        requires
            facility_wf(*old(self)),
        ensures
            r is Ok ==> facility_wf(*final(self)),
            r is Err ==> final(self).state == old(self).state,
            final(self).config == old(self).config,
            final(self).id == old(self).id,
            final(self).state.missed_payment_count == old(self).state.missed_payment_count,
            final(self).state.payment_count == old(self).state.payment_count,
    {
        let now = provider_now(time_provider);
        if now < 0 || now > MAX_TIMESTAMP {
            return Err(FacilityError::InvalidDate { message: String::new() });
        }
        self.update_daily_status_at(now, time_provider)
    }

    /// Hand every pending event out, oldest first.
    pub fn take_events(&mut self) -> (r: Vec<Event>)
        ensures
            r@ == old(self).events.events@,
            final(self).events.events@ == Seq::<Event>::empty(),
            final(self).state == old(self).state,
            final(self).config == old(self).config,
            final(self).id == old(self).id,
    {
        self.events.take_events()
    }
}

/// Whether two statuses are the same.
fn status_eq(a: FacilityStatus, b: FacilityStatus) -> (r: bool)
    ensures
        r == (a == b),
{
    a == b
}

} // verus!
