//! Shared domain types: facility kinds, statuses, thresholds and payment
//! splits.

use vstd::prelude::*;
use crate::money::{Money, Rate};

verus! {

/// Unique identifier of a facility (an opaque 128-bit value).
#[derive(Clone, Copy, Debug, PartialEq, Eq, Hash, Structural)]
pub struct FacilityId {
    pub value: u128,
}

/// Term loan flavors.
#[derive(Clone, Copy, Debug, PartialEq, Eq, Structural)]
pub enum TermLoanType {
    Mortgage,
    PersonalLoan,
    AutoLoan,
    StudentLoan,
    BusinessLoan,
}

/// Open-term loan flavors.
#[derive(Clone, Copy, Debug, PartialEq, Eq, Structural)]
pub enum OpenTermType {
    BitcoinBacked,
    AssetBacked,
}

/// Revolving facility flavors.
#[derive(Clone, Copy, Debug, PartialEq, Eq, Structural)]
pub enum RevolvingType {
    CreditCard,
    LineOfCredit,
    Heloc,
}

/// Lifecycle status of a facility.
#[derive(Clone, Copy, Debug, PartialEq, Eq, Structural)]
pub enum FacilityStatus {
    /// Created but not yet disbursed.
    Originated,
    /// Active and performing.
    Active,
    /// A payment was missed but the grace period still runs.
    GracePeriod,
    /// Past the grace period; late fees apply.
    Delinquent,
    /// Seriously delinquent or covenant breach.
    Default,
    /// Liquidation in process.
    Liquidating,
    /// Collateral sold.
    Liquidated,
    /// Fully paid off.
    Settled,
    /// Written off as a loss.
    ChargedOff,
}

/// How a term loan's schedule splits principal and interest.
#[derive(Clone, Copy, Debug, PartialEq, Eq, Structural)]
pub enum AmortizationMethod {
    /// Equal principal each period, interest on the remainder.
    DecliningPrincipal,
    /// Equal total payment each period.
    EqualInstallments,
    /// Interest only, principal at maturity.
    InterestOnly,
}

/// When scheduled payments fall due.
#[derive(Clone, Copy, Debug, PartialEq, Eq, Structural)]
pub enum PaymentSchedule {
    Monthly { day_of_month: u8 },
    Weekly { day_of_week: u8 },
    Daily,
    OnDemand,
    InterestOnly { payment_day: u8 },
    NoSchedule,
}

/// How an overpayment is applied.
#[derive(Clone, Copy, Debug, PartialEq, Eq, Structural)]
pub enum OverpaymentStrategy {
    /// Reduce future payment amounts.
    ReduceEmi,
    /// Reduce the loan term.
    ReduceTerm,
    /// One-time principal reduction.
    ReducePrincipal,
    /// Reduce the credit limit (revolving).
    ReduceLimit,
}

/// A collateral position held against a facility.
#[derive(Clone, Debug, PartialEq)]
pub struct CollateralPosition {
    pub asset_type: String,
    pub asset_amount: Money,
    pub current_value: Money,
    pub initial_value: Money,
    pub last_valuation: i64,
    pub valuation_source: String,
}

/// The loan-to-value threshold ladder.
#[derive(Clone, Copy, Debug, PartialEq, Eq, Structural)]
pub struct LtvThresholds {
    pub initial_ltv: Rate,
    pub warning_ltv: Rate,
    pub margin_call_ltv: Rate,
    pub liquidation_ltv: Rate,
}

/// Classification of a loan-to-value ratio against the threshold ladder.
#[derive(Clone, Copy, Debug, PartialEq, Eq, Structural)]
pub enum LtvStatus {
    Healthy,
    Warning,
    MarginCall,
    Liquidation,
}

/// How a payment was split across the debt buckets.
#[derive(Clone, Copy, Debug, PartialEq, Eq, Structural)]
pub struct PaymentApplication {
    pub to_fees: Money,
    pub to_penalties: Money,
    pub to_interest: Money,
    pub to_principal: Money,
    pub excess: Money,
}

impl PaymentApplication {
    /// The split with nothing applied anywhere.
    pub fn empty() -> (r: PaymentApplication)
        ensures
            r.to_fees.atoms == 0,
            r.to_penalties.atoms == 0,
            r.to_interest.atoms == 0,
            r.to_principal.atoms == 0,
            r.excess.atoms == 0,
    {
        PaymentApplication {
            to_fees: Money::zero(),
            to_penalties: Money::zero(),
            to_interest: Money::zero(),
            to_principal: Money::zero(),
            excess: Money::zero(),
        }
    }

    /// The sum applied to the four debt buckets (the excess not included).
    pub open spec fn total_applied_spec(&self) -> int {
        self.to_fees.atoms + self.to_penalties.atoms + self.to_interest.atoms
            + self.to_principal.atoms
    }

    /// The sum applied to the four debt buckets.
    pub fn total_applied(&self) -> (r: Money)
        requires
            -crate::money::MUL_LIMIT <= self.to_fees.atoms <= crate::money::MUL_LIMIT,
            -crate::money::MUL_LIMIT <= self.to_penalties.atoms <= crate::money::MUL_LIMIT,
            -crate::money::MUL_LIMIT <= self.to_interest.atoms <= crate::money::MUL_LIMIT,
            -crate::money::MUL_LIMIT <= self.to_principal.atoms <= crate::money::MUL_LIMIT,
        ensures
            r.atoms == self.total_applied_spec(),
    {
        Money {
            atoms: self.to_fees.atoms + self.to_penalties.atoms + self.to_interest.atoms
                + self.to_principal.atoms,
        }
    }
}

/// Why the recorded debt remains after a liquidation.
#[derive(Clone, Copy, Debug, PartialEq, Eq, Structural)]
pub enum RecoveryStatus {
    Pursuing,
    PaymentPlan,
    LegalAction,
    WrittenOff,
}

/// Debt remaining after collateral proceeds were exhausted.
#[derive(Clone, Copy, Debug, PartialEq, Eq, Structural)]
pub struct DeficiencyBalance {
    pub original_loan_id: FacilityId,
    pub liquidation_date: i64,
    pub collateral_proceeds: Money,
    pub remaining_debt: Money,
    pub recovery_status: RecoveryStatus,
}

} // verus!
