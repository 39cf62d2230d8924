//! The error taxonomy of the engine.
//!
//! Every operation returns a `Result` whose error carries enough structured
//! context (amounts, thresholds, deadlines) to render a specific message;
//! the engine itself formats no text.

use vstd::prelude::*;
use crate::money::{Money, Rate};
use crate::types::{FacilityId, FacilityStatus};

verus! {

/// What a facility operation can fail with.
#[derive(Clone, Debug, PartialEq)]
pub enum FacilityError {
    InsufficientFunds { available: Money, requested: Money },
    LtvBreach { ltv: Rate, threshold: Rate },
    InvalidPaymentAmount { amount: Money },
    FacilityNotActive { status: FacilityStatus },
    OverdraftLimitExceeded { limit: Money, requested: Money },
    CreditLimitExceeded { limit: Money, requested: Money },
    MilestoneNotFound { id: FacilityId },
    MilestoneNotApproved { name: String },
    InvalidConfiguration { message: String },
    LiquidationInProgress,
    PaymentScheduleNotApplicable,
    CollateralRequired,
    NoCollateral,
    InvalidDate { message: String },
    CalculationError { message: String },
    FacilityAlreadySettled,
    FacilityChargedOff,
    InvalidInterestRate { rate: Rate },
    PaymentBelowMinimum { minimum: Money, provided: Money },
    OperationNotSupported,
    DrawPeriodEnded,
    InvalidDrawAmount { amount: Money },
    BelowMinimumDrawdown { minimum: Money, requested: Money },
    ExceedsCreditLimit { available: Money, requested: Money },
    InvalidCollateral { message: String },
    InsufficientCollateral { available: Money, required: Money },
    MarginCallExpired { deadline: i64, current_time: i64 },
    InvalidState { current: String, expected: String },
}

} // verus!
