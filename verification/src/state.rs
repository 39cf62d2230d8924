//! The facility's balance sheet, schedule cursor and status.

use vstd::prelude::*;
use crate::clock::provider_now;
use crate::ids::fresh_facility_id;
use crate::money::{Money, Rate, MUL_LIMIT, POW_BASE_LIMIT, SCALE};
use crate::dates::MAX_TIMESTAMP;
use crate::types::{CollateralPosition, FacilityId, FacilityStatus};

verus! {

/// State carried only by one facility kind.
#[derive(Clone, Copy, Debug, PartialEq, Eq, Structural)]
pub enum FacilitySpecificState {
    TermLoan {
        scheduled_payment: Money,
        remaining_term_months: u32,
        balloon_payment: Option<Money>,
        prepayment_amount: Money,
    },
    OpenTerm {
        collateral_value: Money,
        collateral_amount: Money,
        last_valuation: i64,
        margin_call_active: bool,
        margin_call_deadline: Option<i64>,
    },
    Revolving {
        credit_limit: Money,
        available_credit: Money,
        cash_advance_balance: Money,
        purchase_balance: Money,
        promotional_balance: Money,
        overlimit_amount: Money,
        statement_balance: Money,
        statement_date: Option<i64>,
    },
    Overdraft {
        overdraft_limit: Money,
        linked_account_balance: Money,
        buffer_zone: Money,
        daily_interest_accrued: Money,
    },
}

/// How a fresh state is seeded for each kind.
pub enum FacilityStateType {
    TermLoan { payment: Money, term: u32, balloon: Option<Money> },
    OpenTerm,
    Revolving { limit: Money },
    Overdraft { limit: Money },
}

/// The full, serializable state of one facility.
#[derive(Clone, Debug)]
pub struct FacilityState {
    pub facility_id: FacilityId,
    pub account_number: String,
    pub customer_id: String,
    pub original_commitment: Money,
    pub outstanding_principal: Money,
    pub accrued_interest: Money,
    pub accrued_fees: Money,
    pub accrued_penalties: Money,
    pub total_disbursed: Money,
    pub available_commitment: Money,
    pub total_payments_received: Money,
    pub last_payment_amount: Option<Money>,
    pub last_payment_date: Option<i64>,
    pub next_payment_due: Option<i64>,
    pub next_payment_amount: Option<Money>,
    pub minimum_payment_due: Option<Money>,
    pub last_interest_accrual: i64,
    pub total_interest_paid: Money,
    pub capitalized_interest: Money,
    pub total_fees_charged: Money,
    pub total_fees_paid: Money,
    pub waived_fees: Money,
    pub origination_date: i64,
    pub activation_date: Option<i64>,
    pub maturity_date: Option<i64>,
    pub last_status_change: i64,
    pub status: FacilityStatus,
    pub days_past_due: u32,
    pub payment_count: u32,
    pub missed_payment_count: u32,
    pub facility_specific: FacilitySpecificState,
    pub collateral: Option<CollateralPosition>,
    pub suspense_balance: Money,
    pub write_off_amount: Option<Money>,
    pub write_off_date: Option<i64>,
    pub recovery_amount: Option<Money>,
}

/// The revolving overlimit amount of a state; zero for every other kind.
pub open spec fn overlimit_of(s: FacilityState) -> int {
    match s.facility_specific {
        FacilitySpecificState::Revolving { overlimit_amount, .. } => overlimit_amount.atoms
            as int,
        _ => 0,
    }
}

/// The well-formedness every public operation preserves: the four debt
/// buckets are non-negative and within the computable range, the
/// commitment is conserved under disbursement, and what was disbursed
/// never exceeds the commitment plus capitalized interest (plus, for a
/// revolving facility, its tracked overlimit).
pub open spec fn state_wf(s: FacilityState) -> bool {
    &&& 0 <= s.outstanding_principal.atoms <= MUL_LIMIT
    &&& 0 <= s.accrued_interest.atoms <= MUL_LIMIT
    &&& 0 <= s.accrued_fees.atoms <= MUL_LIMIT
    &&& 0 <= s.accrued_penalties.atoms <= MUL_LIMIT
    &&& 0 <= s.original_commitment.atoms <= POW_BASE_LIMIT
    &&& 0 <= s.available_commitment.atoms <= MUL_LIMIT
    &&& 0 <= s.total_disbursed.atoms <= MUL_LIMIT
    &&& 0 <= s.total_payments_received.atoms <= MUL_LIMIT
    &&& 0 <= s.total_interest_paid.atoms <= MUL_LIMIT
    &&& 0 <= s.capitalized_interest.atoms <= MUL_LIMIT
    &&& 0 <= s.total_fees_charged.atoms <= MUL_LIMIT
    &&& 0 <= s.total_fees_paid.atoms <= MUL_LIMIT
    &&& 0 <= s.waived_fees.atoms <= MUL_LIMIT
    &&& 0 <= s.suspense_balance.atoms <= MUL_LIMIT
    &&& 0 <= s.origination_date <= MAX_TIMESTAMP
    &&& 0 <= s.last_interest_accrual <= MAX_TIMESTAMP
    &&& 0 <= s.last_status_change <= MAX_TIMESTAMP
    &&& (s.next_payment_due matches Some(d) ==> 0 <= d <= MAX_TIMESTAMP)
    &&& (s.minimum_payment_due matches Some(m) ==> 0 <= m.atoms <= MUL_LIMIT)
    &&& (s.next_payment_amount matches Some(m) ==> 0 <= m.atoms <= MUL_LIMIT)
    &&& (s.facility_specific is TermLoan || s.facility_specific is OpenTerm) ==>
        s.total_disbursed.atoms + s.available_commitment.atoms
        == s.original_commitment.atoms + s.capitalized_interest.atoms
}

/// The collateral value held by an open-term state; zero otherwise.
pub open spec fn open_term_collateral_value(s: FacilityState) -> int {
    match s.facility_specific {
        FacilitySpecificState::OpenTerm { collateral_value, .. } => collateral_value.atoms
            as int,
        _ => 0,
    }
}

/// The debt across the four buckets.
pub open spec fn total_outstanding_of(s: FacilityState) -> int {
    s.outstanding_principal.atoms + s.accrued_interest.atoms + s.accrued_fees.atoms
        + s.accrued_penalties.atoms
}

/// The total outstanding debt of a well-formed state is the sum of its
/// four buckets and never negative.
pub proof fn lemma_outstanding_nonnegative(s: FacilityState)
    requires
        state_wf(s),
    ensures
        total_outstanding_of(s) >= 0,
        total_outstanding_of(s) == s.outstanding_principal.atoms + s.accrued_interest.atoms
            + s.accrued_fees.atoms + s.accrued_penalties.atoms,
{
}

/// A well-formed term or open-term facility has disbursed no more than
/// its commitment plus capitalized interest: the commitment is conserved
/// under disbursement and the available part never goes negative.
pub proof fn lemma_disbursed_within_commitment(s: FacilityState)
    requires
        state_wf(s),
        s.facility_specific is TermLoan || s.facility_specific is OpenTerm,
    ensures
        s.total_disbursed.atoms <= s.original_commitment.atoms
            + s.capitalized_interest.atoms,
{
}

impl FacilityState {
    /// A fresh state: everything at zero, the commitment fully available,
    /// status `Originated`.
    pub fn new(facility_id: FacilityId, account_number: String, customer_id: String,
        commitment: Money, origination_date: i64, facility_type: FacilityStateType)
        -> (r: FacilityState)
        requires
            0 <= commitment.atoms <= POW_BASE_LIMIT,
            0 <= origination_date <= MAX_TIMESTAMP,
        ensures
            state_wf(r),
            r.facility_id == facility_id,
            r.original_commitment == commitment,
            r.outstanding_principal.atoms == 0,
            r.accrued_interest.atoms == 0,
            r.accrued_fees.atoms == 0,
            r.accrued_penalties.atoms == 0,
            r.total_disbursed.atoms == 0,
            r.available_commitment == commitment,
            r.status == FacilityStatus::Originated,
            r.origination_date == origination_date,
            r.last_interest_accrual == origination_date,
            r.days_past_due == 0,
            r.payment_count == 0,
            r.next_payment_due is None,
            r.minimum_payment_due is None,
            total_outstanding_of(r) == 0,
            r.total_fees_charged.atoms == 0,
            r.total_fees_paid.atoms == 0,
            r.total_payments_received.atoms == 0,
            r.capitalized_interest.atoms == 0,
            r.activation_date is None,
            facility_type is TermLoan ==> r.facility_specific is TermLoan,
            facility_type is OpenTerm ==> r.facility_specific is OpenTerm,
            facility_type is Revolving ==> r.facility_specific is Revolving,
            facility_type is Overdraft ==> r.facility_specific is Overdraft,
    {
        let facility_specific = match facility_type {
            FacilityStateType::TermLoan { payment, term, balloon } => {
                FacilitySpecificState::TermLoan {
                    scheduled_payment: payment,
                    remaining_term_months: term,
                    balloon_payment: balloon,
                    prepayment_amount: Money::zero(),
                }
            },
            FacilityStateType::OpenTerm => {
                FacilitySpecificState::OpenTerm {
                    collateral_value: Money::zero(),
                    collateral_amount: Money::zero(),
                    last_valuation: origination_date,
                    margin_call_active: false,
                    margin_call_deadline: None,
                }
            },
            FacilityStateType::Revolving { limit } => {
                FacilitySpecificState::Revolving {
                    credit_limit: limit,
                    available_credit: limit,
                    cash_advance_balance: Money::zero(),
                    purchase_balance: Money::zero(),
                    promotional_balance: Money::zero(),
                    overlimit_amount: Money::zero(),
                    statement_balance: Money::zero(),
                    statement_date: None,
                }
            },
            FacilityStateType::Overdraft { limit } => {
                FacilitySpecificState::Overdraft {
                    overdraft_limit: limit,
                    linked_account_balance: Money::zero(),
                    buffer_zone: Money::from_major(100),
                    daily_interest_accrued: Money::zero(),
                }
            },
        };
        FacilityState {
            facility_id,
            account_number,
            customer_id,
            original_commitment: commitment,
            outstanding_principal: Money::zero(),
            accrued_interest: Money::zero(),
            accrued_fees: Money::zero(),
            accrued_penalties: Money::zero(),
            total_disbursed: Money::zero(),
            available_commitment: commitment,
            total_payments_received: Money::zero(),
            last_payment_amount: None,
            last_payment_date: None,
            next_payment_due: None,
            next_payment_amount: None,
            minimum_payment_due: None,
            last_interest_accrual: origination_date,
            total_interest_paid: Money::zero(),
            capitalized_interest: Money::zero(),
            total_fees_charged: Money::zero(),
            total_fees_paid: Money::zero(),
            waived_fees: Money::zero(),
            origination_date,
            activation_date: None,
            maturity_date: None,
            last_status_change: origination_date,
            status: FacilityStatus::Originated,
            days_past_due: 0,
            payment_count: 0,
            missed_payment_count: 0,
            facility_specific,
            collateral: None,
            suspense_balance: Money::zero(),
            write_off_amount: None,
            write_off_date: None,
            recovery_amount: None,
        }
    }

    /// The debt across the four buckets.
    pub fn total_outstanding(&self) -> (r: Money)
        requires
            state_wf(*self),
        ensures
            r.atoms == total_outstanding_of(*self),
            r.atoms >= 0,
    {
        self.outstanding_principal.add(self.accrued_interest).add(self.accrued_fees).add(
            self.accrued_penalties)
    }

    /// The exposure: for a revolving facility the sum of its buckets,
    /// else the outstanding principal.
    pub fn current_exposure(&self) -> (r: Money)
        requires
            state_wf(*self),
            self.facility_specific matches FacilitySpecificState::Revolving {
                cash_advance_balance, purchase_balance, promotional_balance, .. } ==>
                0 <= cash_advance_balance.atoms <= MUL_LIMIT
                && 0 <= purchase_balance.atoms <= MUL_LIMIT
                && 0 <= promotional_balance.atoms <= MUL_LIMIT,
        ensures
            self.facility_specific matches FacilitySpecificState::Revolving {
                cash_advance_balance, purchase_balance, promotional_balance, .. } ==> r.atoms
                == cash_advance_balance.atoms + purchase_balance.atoms
                + promotional_balance.atoms,
            !(self.facility_specific is Revolving) ==> r == self.outstanding_principal,
    {
        match &self.facility_specific {
            FacilitySpecificState::Revolving {
                cash_advance_balance,
                purchase_balance,
                promotional_balance,
                ..
            } => cash_advance_balance.add(*purchase_balance).add(*promotional_balance),
            _ => self.outstanding_principal,
        }
    }

    /// Whether the facility is performing: originated, active, or within
    /// grace.
    pub fn is_performing(&self) -> (r: bool)
        ensures
            r == (self.status == FacilityStatus::Active || self.status
                == FacilityStatus::Originated || self.status == FacilityStatus::GracePeriod),
    {
        matches!(self.status, FacilityStatus::Active | FacilityStatus::Originated
            | FacilityStatus::GracePeriod)
    }

    /// Whether the facility is in default or being liquidated.
    pub fn is_in_default(&self) -> (r: bool)
        ensures
            r == (self.status == FacilityStatus::Default || self.status
                == FacilityStatus::Liquidating || self.status == FacilityStatus::Liquidated),
    {
        matches!(self.status, FacilityStatus::Default | FacilityStatus::Liquidating
            | FacilityStatus::Liquidated)
    }

    /// Whether the facility can accept a payment: every status but
    /// settled, charged off and liquidated.
    pub fn can_accept_payment(&self) -> (r: bool)
        ensures
            r == !(self.status == FacilityStatus::Settled || self.status
                == FacilityStatus::ChargedOff || self.status == FacilityStatus::Liquidated),
    {
        !matches!(self.status, FacilityStatus::Settled | FacilityStatus::ChargedOff
            | FacilityStatus::Liquidated)
    }

    /// Whether funds can be disbursed: active or within grace, with
    /// commitment left.
    pub fn can_disburse(&self) -> (r: bool)
        ensures
            r == ((self.status == FacilityStatus::Active || self.status
                == FacilityStatus::GracePeriod) && self.available_commitment.atoms > 0),
    {
        matches!(self.status, FacilityStatus::Active | FacilityStatus::GracePeriod)
            && self.available_commitment.atoms > 0
    }

    /// Move to a new status, recording when.
    pub fn update_status(&mut self, new_status: FacilityStatus, timestamp: i64)
        ensures
            *final(self) == (FacilityState {
                status: new_status,
                last_status_change: timestamp,
                ..*old(self)
            }),
    {
        self.status = new_status;
        self.last_status_change = timestamp;
    }

    /// Record a received payment: totals, last-payment fields and count;
    /// a payment that meets the minimum due clears the days past due.
    pub fn record_payment(&mut self, amount: Money, timestamp: i64)
        requires
            0 <= amount.atoms <= MUL_LIMIT,
            0 <= old(self).total_payments_received.atoms,
            old(self).total_payments_received.atoms + amount.atoms <= MUL_LIMIT,
            old(self).payment_count < u32::MAX,
        ensures
            final(self).total_payments_received.atoms
                == old(self).total_payments_received.atoms + amount.atoms,
            final(self).last_payment_amount == Some(amount),
            final(self).last_payment_date == Some(timestamp),
            final(self).payment_count == old(self).payment_count + 1,
            (old(self).minimum_payment_due matches Some(m) && amount.atoms >= m.atoms) ==>
                final(self).days_past_due == 0,
            !(old(self).minimum_payment_due matches Some(m) && amount.atoms >= m.atoms) ==>
                final(self).days_past_due == old(self).days_past_due,
            final(self).status == old(self).status,
            final(self).outstanding_principal == old(self).outstanding_principal,
            final(self).accrued_interest == old(self).accrued_interest,
            final(self).accrued_fees == old(self).accrued_fees,
            final(self).accrued_penalties == old(self).accrued_penalties,
            final(self).available_commitment == old(self).available_commitment,
            final(self).total_disbursed == old(self).total_disbursed,
            final(self).original_commitment == old(self).original_commitment,
            final(self).capitalized_interest == old(self).capitalized_interest,
            final(self).facility_specific == old(self).facility_specific,
            final(self).minimum_payment_due == old(self).minimum_payment_due,
            final(self).next_payment_due == old(self).next_payment_due,
            final(self).total_interest_paid == old(self).total_interest_paid,
            final(self).total_fees_paid == old(self).total_fees_paid,
            final(self).total_fees_charged == old(self).total_fees_charged,
            final(self).waived_fees == old(self).waived_fees,
            final(self).suspense_balance == old(self).suspense_balance,
            final(self).last_interest_accrual == old(self).last_interest_accrual,
            final(self).last_status_change == old(self).last_status_change,
            final(self).origination_date == old(self).origination_date,
            final(self).activation_date == old(self).activation_date,
            final(self).collateral == old(self).collateral,
            final(self).facility_id == old(self).facility_id,
            final(self).next_payment_amount == old(self).next_payment_amount,
            state_wf(*old(self)) ==> state_wf(*final(self)),
    {
        self.total_payments_received = self.total_payments_received.add(amount);
        self.last_payment_amount = Some(amount);
        self.last_payment_date = Some(timestamp);
        self.payment_count = self.payment_count + 1;
        if let Some(minimum) = self.minimum_payment_due {
            if amount.atoms >= minimum.atoms {
                self.days_past_due = 0;
            }
        }
    }

    /// Record a disbursement: the principal and total grow by the amount
    /// and the available commitment shrinks, clamped at zero; the first
    /// disbursement activates the facility.
    pub fn record_disbursement(&mut self, amount: Money, now: i64)
        requires
            state_wf(*old(self)),
            0 <= amount.atoms,
            amount.atoms <= old(self).available_commitment.atoms,
            old(self).outstanding_principal.atoms + amount.atoms <= MUL_LIMIT,
            old(self).total_disbursed.atoms + amount.atoms <= MUL_LIMIT,
            0 <= now <= MAX_TIMESTAMP,
        ensures
            state_wf(*final(self)),
            final(self).total_disbursed.atoms == old(self).total_disbursed.atoms
                + amount.atoms,
            final(self).outstanding_principal.atoms == old(self).outstanding_principal.atoms
                + amount.atoms,
            final(self).available_commitment.atoms == old(self).available_commitment.atoms
                - amount.atoms,
            old(self).activation_date is None ==> final(self).activation_date == Some(now)
                && final(self).status == FacilityStatus::Active,
            old(self).activation_date is Some ==> final(self).activation_date
                == old(self).activation_date && final(self).status == old(self).status,
            final(self).accrued_interest == old(self).accrued_interest,
            final(self).accrued_fees == old(self).accrued_fees,
            final(self).accrued_penalties == old(self).accrued_penalties,
            final(self).original_commitment == old(self).original_commitment,
            final(self).facility_specific == old(self).facility_specific,
            final(self).last_interest_accrual == old(self).last_interest_accrual,
            final(self).next_payment_due == old(self).next_payment_due,
            final(self).minimum_payment_due == old(self).minimum_payment_due,
            final(self).total_payments_received == old(self).total_payments_received,
            final(self).facility_id == old(self).facility_id,
            final(self).total_interest_paid == old(self).total_interest_paid,
            final(self).capitalized_interest == old(self).capitalized_interest,
            final(self).total_fees_charged == old(self).total_fees_charged,
            final(self).total_fees_paid == old(self).total_fees_paid,
            final(self).waived_fees == old(self).waived_fees,
            final(self).suspense_balance == old(self).suspense_balance,
            final(self).origination_date == old(self).origination_date,
            final(self).maturity_date == old(self).maturity_date,
            final(self).last_status_change == old(self).last_status_change,
            final(self).days_past_due == old(self).days_past_due,
            final(self).payment_count == old(self).payment_count,
            final(self).missed_payment_count == old(self).missed_payment_count,
            final(self).collateral == old(self).collateral,
            final(self).next_payment_amount == old(self).next_payment_amount,
            final(self).last_payment_date == old(self).last_payment_date,
            final(self).last_payment_amount == old(self).last_payment_amount,
    {
        self.total_disbursed = self.total_disbursed.add(amount);
        self.outstanding_principal = self.outstanding_principal.add(amount);
        self.available_commitment = self.available_commitment.sub(amount);
        if self.activation_date.is_none() {
            self.activation_date = Some(now);
            self.status = FacilityStatus::Active;
        }
    }

    /// The loan-to-value ratio of an open-term facility; `None` for other
    /// kinds or worthless collateral.
    pub fn calculate_ltv(&self) -> (r: Option<Rate>)
        requires
            state_wf(*self),
            self.facility_specific matches FacilitySpecificState::OpenTerm {
                collateral_value, .. } ==> -MUL_LIMIT <= collateral_value.atoms <= MUL_LIMIT,
        ensures
            (self.facility_specific matches FacilitySpecificState::OpenTerm {
                collateral_value, .. } && collateral_value.atoms > 0) ==> (r matches Some(l)
                && l.atoms as int == crate::collateral::ltv::ltv_of(total_outstanding_of(
                *self), open_term_collateral_value(*self))),
            !(self.facility_specific is OpenTerm) ==> r is None,
    {
        if let FacilitySpecificState::OpenTerm { collateral_value, .. }
            = &self.facility_specific {
            if collateral_value.atoms <= 0 {
                return None;
            }
            let total_debt = self.total_outstanding();
            proof {
                crate::money::lemma_mul_bounds(total_debt.atoms as int, SCALE as int,
                    4 * MUL_LIMIT, SCALE as int);
            }
            Some(Rate {
                atoms: crate::money::div_round(total_debt.atoms * SCALE,
                    collateral_value.atoms),
            })
        } else {
            None
        }
    }

    /// Record a new collateral valuation on an open-term facility; other
    /// kinds are untouched.
    pub fn update_collateral_value(&mut self, new_value: Money, timestamp: i64)
        ensures
            old(self).facility_specific matches FacilitySpecificState::OpenTerm {
                collateral_amount, margin_call_active, margin_call_deadline, .. } ==>
                *final(self) == (FacilityState {
                    facility_specific: FacilitySpecificState::OpenTerm {
                        collateral_value: new_value,
                        collateral_amount,
                        last_valuation: timestamp,
                        margin_call_active,
                        margin_call_deadline,
                    },
                    ..*old(self)
                }),
            !(old(self).facility_specific is OpenTerm) ==> *final(self) == *old(self),
            state_wf(*old(self)) ==> state_wf(*final(self)),
    {
        if let FacilitySpecificState::OpenTerm {
            collateral_amount,
            margin_call_active,
            margin_call_deadline,
            ..
        } = self.facility_specific {
            self.facility_specific = FacilitySpecificState::OpenTerm {
                collateral_value: new_value,
                collateral_amount,
                last_valuation: timestamp,
                margin_call_active,
                margin_call_deadline,
            };
        }
    }

    /// Whether the ratio has climbed past the margin-call threshold.
    pub fn check_margin_call(&self, margin_call_ltv: Rate) -> (r: bool)
        requires
            state_wf(*self),
            self.facility_specific matches FacilitySpecificState::OpenTerm {
                collateral_value, .. } ==> -MUL_LIMIT <= collateral_value.atoms <= MUL_LIMIT,
        ensures
            (self.facility_specific matches FacilitySpecificState::OpenTerm {
                collateral_value, .. } && collateral_value.atoms > 0) ==> r == (
                crate::collateral::ltv::ltv_of(total_outstanding_of(*self),
                open_term_collateral_value(*self)) > margin_call_ltv.atoms),
            !(self.facility_specific is OpenTerm) ==> !r,
    {
        match self.calculate_ltv() {
            Some(current) => current.atoms > margin_call_ltv.atoms,
            None => false,
        }
    }
}

/// A frozen copy of a state for the audit trail.
#[derive(Clone, Debug)]
pub struct StateSnapshot {
    pub snapshot_id: FacilityId,
    pub facility_id: FacilityId,
    pub timestamp: i64,
    pub state: FacilityState,
    pub trigger: String,
}

impl StateSnapshot {
    /// Freeze a copy of the state under a fresh snapshot identifier.
    pub fn capture(state: &FacilityState, trigger: String,
        time_provider: &hourglass_rs::SafeTimeProvider) -> (r: StateSnapshot)
        ensures
            r.facility_id == state.facility_id,
            r.trigger == trigger,
    {
        StateSnapshot {
            snapshot_id: fresh_facility_id(),
            facility_id: state.facility_id,
            timestamp: provider_now(time_provider),
            state: state.clone(),
            trigger,
        }
    }
}

} // verus!
