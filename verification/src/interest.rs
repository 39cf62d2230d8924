//! Interest computation: day counts, simple accrual, compounding and
//! penalty interest.

pub mod accrual;
pub mod compound;
pub mod penalty;

use vstd::prelude::*;
use crate::money::{Money, Rate, AMOUNT_LIMIT};

verus! {

/// The outcome of an interest computation over a date range.
#[derive(Clone, Debug, PartialEq)]
pub struct InterestCalculation {
    pub interest_amount: Money,
    pub daily_rate: Rate,
    pub days: u32,
    pub principal_base: Money,
}

/// The outcome of folding accrued interest into principal.
#[derive(Clone, Debug, PartialEq)]
pub struct CapitalizationResult {
    pub amount_capitalized: Money,
    pub new_principal: Money,
    pub reason: String,
    pub timestamp: i64,
}

/// Computations every interest engine offers.
pub trait InterestCalculator {
    /// Interest on `principal` at `rate` between the two instants.
    fn calculate_interest(&self, principal: Money, rate: Rate, start_ts: i64, end_ts: i64)
        -> Result<InterestCalculation, crate::errors::FacilityError>;

    /// The engine's daily rate for an annual rate.
    fn get_daily_rate(&self, annual_rate: Rate) -> Rate;
}

/// Fold accrued interest into the principal.
pub fn capitalize_interest(principal: Money, accrued_interest: Money, reason: String,
    timestamp: i64) -> (r: CapitalizationResult)
    requires
        -AMOUNT_LIMIT <= principal.atoms <= AMOUNT_LIMIT,
        -AMOUNT_LIMIT <= accrued_interest.atoms <= AMOUNT_LIMIT,
    ensures
        r.amount_capitalized == accrued_interest,
        r.new_principal.atoms == principal.atoms + accrued_interest.atoms,
        r.timestamp == timestamp,
{
    CapitalizationResult {
        amount_capitalized: accrued_interest,
        new_principal: principal.add(accrued_interest),
        reason,
        timestamp,
    }
}

} // verus!
