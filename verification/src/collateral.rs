//! Collateral monitoring and liquidation: loan-to-value classification,
//! margin calls, the liquidation state machine and its proceeds waterfall.

pub mod bitcoin;
pub mod liquidation;
pub mod ltv;
