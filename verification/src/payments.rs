//! Payment processing: the waterfall, amortization schedules, overpayment
//! handling and partial-payment suspense.

pub mod amortization;
pub mod overpayment;
pub mod waterfall;

use vstd::prelude::*;
use crate::errors::FacilityError;
use crate::events::EventStore;
use crate::money::{Money, MUL_LIMIT};
use crate::types::{FacilityId, OverpaymentStrategy};

verus! {

/// One incoming payment.
#[derive(Clone, Debug, PartialEq)]
pub struct PaymentRequest {
    pub facility_id: FacilityId,
    pub amount: Money,
    pub payment_date: i64,
    pub reference: String,
    pub is_principal_only: bool,
}

/// The debt buckets a payment is applied against.
#[derive(Clone, Debug, PartialEq)]
pub struct PaymentContext {
    pub facility_id: FacilityId,
    pub accrued_fees: Money,
    pub accrued_penalties: Money,
    pub accrued_interest: Money,
    pub outstanding_principal: Money,
    pub minimum_payment: Option<Money>,
    pub payment_due_date: Option<i64>,
    pub days_overdue: u32,
}

/// Bounds under which a context's sums stay exact.
pub open spec fn context_wf(c: PaymentContext) -> bool {
    &&& -MUL_LIMIT <= c.accrued_fees.atoms <= MUL_LIMIT
    &&& -MUL_LIMIT <= c.accrued_penalties.atoms <= MUL_LIMIT
    &&& -MUL_LIMIT <= c.accrued_interest.atoms <= MUL_LIMIT
    &&& -MUL_LIMIT <= c.outstanding_principal.atoms <= MUL_LIMIT
}

/// The context's total debt across all four buckets.
pub open spec fn context_total(c: PaymentContext) -> int {
    c.accrued_fees.atoms + c.accrued_penalties.atoms + c.accrued_interest.atoms
        + c.outstanding_principal.atoms
}

/// Whether a payment of `amount` is rejected outright: zero and negative
/// amounts always, and amounts under the minimum unless they clear the
/// whole debt.
pub open spec fn payment_rejected(c: PaymentContext, amount: int) -> bool {
    amount <= 0 || (c.minimum_payment matches Some(m) && amount < m.atoms && amount
        < context_total(c))
}

impl PaymentContext {
    /// The total debt across all four buckets.
    pub fn total_outstanding(&self) -> (r: Money)
        requires
            context_wf(*self),
        ensures
            r.atoms == context_total(*self),
    {
        self.accrued_fees.add(self.accrued_penalties).add(self.accrued_interest).add(
            self.outstanding_principal)
    }

    /// Whether any scheduled payment is overdue.
    pub fn is_overdue(&self) -> (r: bool)
        ensures
            r == (self.days_overdue > 0),
    {
        self.days_overdue > 0
    }

    /// Reject zero or negative amounts, and amounts below the configured
    /// minimum unless they cover the whole debt.
    pub fn validate_payment(&self, amount: Money) -> (r: Result<(), FacilityError>)
        requires
            context_wf(*self),
        ensures
            r is Err <==> payment_rejected(*self, amount.atoms as int),
            amount.atoms <= 0 ==> r == Result::<(), FacilityError>::Err(
                FacilityError::InvalidPaymentAmount { amount }),
            (amount.atoms > 0 && payment_rejected(*self, amount.atoms as int)) ==> (
                self.minimum_payment matches Some(m) && r == Result::<(),
                FacilityError>::Err(FacilityError::PaymentBelowMinimum {
                minimum: m,
                provided: amount,
            })),
    {
        if amount.atoms <= 0 {
            return Err(FacilityError::InvalidPaymentAmount { amount });
        }
        if let Some(minimum) = self.minimum_payment {
            if amount.atoms < minimum.atoms && amount.atoms < self.total_outstanding().atoms {
                return Err(FacilityError::PaymentBelowMinimum { minimum, provided: amount });
            }
        }
        Ok(())
    }
}

/// What to do with a payment below the minimum.
#[derive(Clone, Copy, Debug, PartialEq, Eq, Structural)]
pub enum PartialPaymentStrategy {
    /// Hold in suspense until the balance covers the minimum.
    HoldInSuspense,
    /// Apply at once even below the minimum.
    ApplyImmediately,
    /// Reject partial payments.
    Reject,
}

/// One deposit held in suspense.
#[derive(Clone, Debug, PartialEq)]
pub struct SuspenseDeposit {
    pub amount: Money,
    pub deposit_date: i64,
    pub reference: String,
}

/// Balance held back until it covers a minimum payment.
#[derive(Debug)]
pub struct SuspenseAccount {
    pub facility_id: FacilityId,
    pub balance: Money,
    pub deposits: Vec<SuspenseDeposit>,
}

impl SuspenseAccount {
    /// An empty suspense account for the facility.
    pub fn new(facility_id: FacilityId) -> (r: SuspenseAccount)
        ensures
            r.facility_id == facility_id,
            r.balance.atoms == 0,
            r.deposits@ == Seq::<SuspenseDeposit>::empty(),
    {
        SuspenseAccount { facility_id, balance: Money::zero(), deposits: Vec::new() }
    }

    /// Record one deposit and add it to the balance.
    pub fn add_deposit(&mut self, amount: Money, date: i64, reference: String)
        requires
            -MUL_LIMIT <= old(self).balance.atoms <= MUL_LIMIT,
            -MUL_LIMIT <= amount.atoms <= MUL_LIMIT,
        ensures
            final(self).balance.atoms == old(self).balance.atoms + amount.atoms,
            final(self).deposits@.len() == old(self).deposits@.len() + 1,
            final(self).deposits@.last().amount == amount,
            final(self).facility_id == old(self).facility_id,
    {
        self.balance = self.balance.add(amount);
        self.deposits.push(SuspenseDeposit { amount, deposit_date: date, reference });
    }

    /// Whether the held balance covers the minimum payment.
    pub fn can_release(&self, minimum_payment: Money) -> (r: bool)
        ensures
            r == (self.balance.atoms >= minimum_payment.atoms),
    {
        self.balance.atoms >= minimum_payment.atoms
    }

    /// Hand the whole balance out and clear the account.
    pub fn release_funds(&mut self) -> (r: Money)
        ensures
            r == old(self).balance,
            final(self).balance.atoms == 0,
            final(self).deposits@ == Seq::<SuspenseDeposit>::empty(),
            final(self).facility_id == old(self).facility_id,
    {
        let amount = self.balance;
        self.balance = Money::zero();
        self.deposits.clear();
        amount
    }
}

/// What a payment-processing engine offers; the engine of this crate
/// implements it, and callers may bring their own.
pub trait PaymentProcessable {
    /// Apply one payment against the context.
    fn process_payment(&mut self, payment: PaymentRequest, context: &mut PaymentContext,
        events: &mut EventStore) -> Result<waterfall::PaymentResult, FacilityError>;

    /// Apply an overpayment under the given strategy.
    fn handle_overpayment(&mut self, excess: Money, strategy: OverpaymentStrategy,
        context: &mut PaymentContext, events: &mut EventStore)
        -> Result<overpayment::OverpaymentResult, FacilityError>;
}

} // verus!
