//! Domain events and the per-facility append-only event log.

use vstd::prelude::*;
use crate::money::{Money, Rate};
use crate::types::{FacilityId, FacilityStatus, OverpaymentStrategy};

verus! {

/// Why a status change happened; carried by `StatusChanged`.
#[derive(Clone, Copy, Debug, PartialEq, Eq, Structural)]
pub enum StatusReason {
    /// Payment overdue by the carried number of days.
    DaysPastDue(u32),
    /// The lender denied the facility before any disbursement.
    Denied,
    /// The facility was paid down to zero.
    PaidOff,
    /// A collateral breach forced liquidation.
    LtvBreach,
    /// The liquidation finished.
    LiquidationComplete,
    /// The facility was approved and activated.
    Approved,
}

/// Everything the engine can report about a facility.
#[derive(Clone, Debug, PartialEq)]
pub enum Event {
    FacilityOriginated {
        facility_id: FacilityId,
        amount: Money,
        collateral_type: String,
        collateral_amount: Money,
    },
    FacilityActivated { facility_id: FacilityId, first_disbursement: Money, timestamp: i64 },
    FacilityMatured { facility_id: FacilityId, final_payment: Money, timestamp: i64 },
    FacilitySettled { facility_id: FacilityId, settlement_amount: Money, timestamp: i64 },
    FacilityChargedOff { facility_id: FacilityId, loss_amount: Money, timestamp: i64 },
    PaymentDue {
        facility_id: FacilityId,
        amount: Money,
        due_date: i64,
        principal_portion: Money,
        interest_portion: Money,
    },
    PaymentReceived {
        facility_id: FacilityId,
        amount: Money,
        applied_to_fees: Money,
        applied_to_interest: Money,
        applied_to_principal: Money,
        timestamp: i64,
    },
    PaymentMissed { facility_id: FacilityId, expected_amount: Money, due_date: i64 },
    OverpaymentReceived {
        facility_id: FacilityId,
        amount: Money,
        strategy: OverpaymentStrategy,
        timestamp: i64,
    },
    InterestAccrued { facility_id: FacilityId, amount: Money, timestamp: i64 },
    InterestCapitalized {
        facility_id: FacilityId,
        amount: Money,
        new_principal: Money,
        reason: String,
        timestamp: i64,
    },
    InterestRateChanged {
        facility_id: FacilityId,
        old_rate: Rate,
        new_rate: Rate,
        timestamp: i64,
    },
    PenaltyInterestApplied {
        facility_id: FacilityId,
        amount: Money,
        days_overdue: u32,
        timestamp: i64,
    },
    FundsDrawn {
        facility_id: FacilityId,
        amount: Money,
        new_outstanding: Money,
        available_credit: Money,
        timestamp: i64,
    },
    CreditLimitChanged {
        facility_id: FacilityId,
        old_limit: Money,
        new_limit: Money,
        timestamp: i64,
    },
    OverlimitOccurred {
        facility_id: FacilityId,
        amount_over: Money,
        fees_applied: Money,
        timestamp: i64,
    },
    CommitmentFeeCharged {
        facility_id: FacilityId,
        undrawn_amount: Money,
        fee: Money,
        timestamp: i64,
    },
    OverdraftActivated {
        facility_id: FacilityId,
        account_balance: Money,
        overdraft_amount: Money,
        timestamp: i64,
    },
    OverdraftIncreased {
        facility_id: FacilityId,
        additional_amount: Money,
        new_total: Money,
        timestamp: i64,
    },
    BufferZoneBreached { facility_id: FacilityId, amount_over_buffer: Money, timestamp: i64 },
    OverdraftCleared { facility_id: FacilityId, repayment_amount: Money, timestamp: i64 },
    CollateralValueUpdated {
        facility_id: FacilityId,
        old_value: Money,
        new_value: Money,
        timestamp: i64,
    },
    LtvCalculated {
        facility_id: FacilityId,
        ltv_ratio: Rate,
        collateral_value: Money,
        total_debt: Money,
        timestamp: i64,
    },
    LtvWarningBreached {
        facility_id: FacilityId,
        ltv_ratio: Rate,
        threshold: Rate,
        timestamp: i64,
    },
    MarginCallRequired {
        facility_id: FacilityId,
        current_ltv: Rate,
        required_ltv: Rate,
        deadline: i64,
        collateral_remedy: Money,
        payment_remedy: Money,
    },
    MarginCallResolved { facility_id: FacilityId, new_ltv: Rate, timestamp: i64 },
    CollateralAdded {
        facility_id: FacilityId,
        amount: Money,
        new_total: Money,
        new_ltv: Rate,
        timestamp: i64,
    },
    CollateralReleased {
        facility_id: FacilityId,
        collateral_type: String,
        amount: Money,
        timestamp: i64,
    },
    LtvLiquidationBreached {
        facility_id: FacilityId,
        ltv_ratio: Rate,
        threshold: Rate,
        timestamp: i64,
    },
    GracePeriodStarted {
        facility_id: FacilityId,
        payment_due_date: i64,
        grace_ends_at: i64,
        timestamp: i64,
    },
    GracePeriodReminder { facility_id: FacilityId, days_remaining: u32, timestamp: i64 },
    GracePeriodExpired { facility_id: FacilityId, days_overdue: u32, timestamp: i64 },
    LateFeeApplied {
        facility_id: FacilityId,
        fee_amount: Money,
        days_overdue: u32,
        timestamp: i64,
    },
    LiquidationTriggered {
        facility_id: FacilityId,
        ltv_ratio: Rate,
        collateral_value: Money,
        debt_amount: Money,
        timestamp: i64,
    },
    LiquidationPending { facility_id: FacilityId, notice_period_ends: i64, timestamp: i64 },
    CollateralSaleInitiated {
        facility_id: FacilityId,
        immediate: bool,
        expected_proceeds: Money,
        timestamp: i64,
    },
    LiquidationCompleted {
        facility_id: FacilityId,
        proceeds: Money,
        remaining_debt: Money,
        timestamp: i64,
    },
    DeficiencyBalance {
        facility_id: FacilityId,
        amount: Money,
        recovery_status: crate::types::RecoveryStatus,
        timestamp: i64,
    },
    StatusChanged {
        facility_id: FacilityId,
        old_status: FacilityStatus,
        new_status: FacilityStatus,
        reason: StatusReason,
        timestamp: i64,
    },
}

/// Append-only journal of the events emitted during operations; consumers
/// drain it in first-in, first-out order.
#[derive(Debug)]
pub struct EventStore {
    pub events: Vec<Event>,
}

impl EventStore {
    /// An empty log.
    pub fn new() -> (r: EventStore)
        ensures
            r.events@ == Seq::<Event>::empty(),
    {
        EventStore { events: Vec::new() }
    }

    /// Append one event at the end.
    pub fn emit(&mut self, event: Event)
        ensures
            final(self).events@ == old(self).events@.push(event),
    {
        self.events.push(event);
    }

    /// Hand every pending event out, oldest first, and leave the log empty.
    pub fn take_events(&mut self) -> (r: Vec<Event>)
        ensures
            r@ == old(self).events@,
            final(self).events@ == Seq::<Event>::empty(),
    {
        let mut out = Vec::new();
        core::mem::swap(&mut out, &mut self.events);
        out
    }

    /// How many events are pending.
    pub fn len(&self) -> (r: usize)
        ensures
            r == self.events@.len(),
    {
        self.events.len()
    }

    /// Drop every pending event.
    pub fn clear(&mut self)
        ensures
            final(self).events@ == Seq::<Event>::empty(),
    {
        self.events.clear();
    }
}

} // verus!
