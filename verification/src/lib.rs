//! A credit-facility accounting and lifecycle engine.
//!
//! Facilities (term loans, open-term collateralized loans, revolving lines,
//! overdrafts) are modeled as deterministic state machines over exact
//! fixed-point money values. Interest accrues day by day under a configurable
//! day-count convention, payments run through a priority waterfall, and
//! collateralized variants monitor loan-to-value ratios that can trigger
//! margin calls and liquidation.

pub mod clock;
pub mod collateral;
pub mod config;
pub mod dates;
pub mod errors;
pub mod events;
pub mod facilities;
pub mod facility;
pub mod ids;
pub mod interest;
pub mod money;
pub mod payments;
pub mod state;
pub mod types;

pub use errors::FacilityError;
pub use events::{Event, EventStore};
pub use money::{Money, Rate};
pub use types::{
    AmortizationMethod, CollateralPosition, DeficiencyBalance, FacilityId, FacilityStatus,
    LtvStatus, LtvThresholds, OpenTermType, OverpaymentStrategy, PaymentApplication,
    PaymentSchedule, RecoveryStatus, RevolvingType, TermLoanType,
};
