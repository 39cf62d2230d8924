//! Overdrafts: a signed linked account whose negative side the facility
//! carries.

use vstd::prelude::*;
use crate::clock::provider_now;
use crate::config::{FacilityConfig, FacilityType};
use crate::dates::MAX_TIMESTAMP;
use crate::errors::FacilityError;
use crate::events::{Event, StatusReason};
use crate::facility::{facility_wf, Facility};
use crate::money::{
    div_round, lemma_mul_bounds, lemma_round_half_div_bound, round_half_div, Money, Rate,
    MUL_LIMIT, POW_BASE_LIMIT, RATE_LIMIT, SCALE,
};
use crate::types::FacilityStatus;

verus! {

/// Where an overdraft stands.
#[derive(Clone, Copy, Debug, PartialEq, Eq, Structural)]
pub enum OverdraftState {
    /// Not in use.
    Available,
    /// Overdrawn past the buffer.
    Active,
    /// Overdrawn within the fee-free buffer.
    BufferZone,
    /// Overdrawn past the arranged limit.
    Exceeded,
    /// Withdrawn by the lender.
    Suspended,
}

/// An overdraft facility over a signed linked account balance.
pub struct OverdraftFacility {
    pub facility: Facility,
    pub overdraft_limit: Money,
    pub buffer_zone: Money,
    pub linked_account_id: String,
    pub linked_account_balance: Money,
    pub is_active: bool,
    pub daily_fee: Option<Money>,
    pub od_state: OverdraftState,
}

/// The classification of an overdrawn amount against the buffer and the
/// limit.
pub open spec fn overdraft_band(amount: int, buffer: int, limit: int) -> OverdraftState {
    if amount <= buffer {
        OverdraftState::BufferZone
    } else if amount <= limit {
        OverdraftState::Active
    } else {
        OverdraftState::Exceeded
    }
}

/// The flat fee one daily pass charges: nothing while inactive or within
/// the buffer, the configured (or default five dollar) fee past the
/// buffer, ten dollars plus any representable overlimit fee past the
/// limit.
pub open spec fn daily_flat_fee(t: OverdraftFacility) -> int {
    if !t.is_active {
        0
    } else {
        match t.od_state {
            OverdraftState::Active => {
                if t.facility.state.outstanding_principal.atoms > t.buffer_zone.atoms {
                    match t.daily_fee {
                        Some(f) => f.atoms as int,
                        None => 5 * (SCALE as int),
                    }
                } else {
                    0
                }
            },
            OverdraftState::Exceeded => {
                match t.facility.config.fee_config.overlimit_fee {
                    Some(o) => if 10 * (SCALE as int) + o.atoms <= MUL_LIMIT && o.atoms
                        >= 0 {
                        10 * (SCALE as int) + o.atoms
                    } else {
                        10 * (SCALE as int)
                    },
                    None => 10 * (SCALE as int),
                }
            },
            _ => 0,
        }
    }
}

/// What every overdraft operation preserves: the outstanding principal is
/// exactly the negative side of the linked balance, and the facility is
/// active exactly while the balance is negative.
pub open spec fn overdraft_wf(t: OverdraftFacility) -> bool {
    &&& facility_wf(t.facility)
    &&& t.facility.config.facility_type == FacilityType::Overdraft
    &&& 0 <= t.overdraft_limit.atoms <= POW_BASE_LIMIT
    &&& 0 <= t.buffer_zone.atoms <= MUL_LIMIT
    &&& -MUL_LIMIT <= t.linked_account_balance.atoms <= MUL_LIMIT
    &&& (t.od_state != OverdraftState::Suspended ==> {
        &&& (t.is_active <==> t.linked_account_balance.atoms < 0)
        &&& t.facility.state.outstanding_principal.atoms == (
            if t.linked_account_balance.atoms < 0 {
                -(t.linked_account_balance.atoms as int)
            } else {
                0
            })
    })
}

impl OverdraftFacility {
    /// Wrap a facility; fails exactly where it is not an overdraft or its
    /// figures leave the computable range.
    pub fn new(facility: Facility, buffer_zone: Money, linked_account_id: String)
        -> (r: Result<OverdraftFacility, FacilityError>)
        ensures
            ({
                let limit = match facility.config.limits.overdraft_limit {
                    Some(l) => l,
                    None => facility.config.financial_terms.commitment_amount,
                };
                &&& (r is Ok <==> facility.config.facility_type == FacilityType::Overdraft
                    && 0 <= limit.atoms <= POW_BASE_LIMIT && 0 <= buffer_zone.atoms
                    <= MUL_LIMIT)
                &&& (r matches Ok(t) ==> t.facility == facility && t.buffer_zone
                    == buffer_zone && t.overdraft_limit == limit
                    && t.linked_account_balance.atoms == 0 && !t.is_active && t.od_state
                    == OverdraftState::Available && t.daily_fee is None)
            }),
    {
        if !matches!(facility.config.facility_type, FacilityType::Overdraft) {
            return Err(FacilityError::InvalidConfiguration { message: String::new() });
        }
        let overdraft_limit = match facility.config.limits.overdraft_limit {
            Some(l) => l,
            None => facility.config.financial_terms.commitment_amount,
        };
        if overdraft_limit.atoms < 0 || overdraft_limit.atoms > POW_BASE_LIMIT
            || buffer_zone.atoms < 0 || buffer_zone.atoms > MUL_LIMIT {
            return Err(FacilityError::InvalidConfiguration { message: String::new() });
        }
        Ok(OverdraftFacility {
            facility,
            overdraft_limit,
            buffer_zone,
            linked_account_id,
            linked_account_balance: Money::zero(),
            is_active: false,
            daily_fee: None,
            od_state: OverdraftState::Available,
        })
    }

    /// Post a signed transaction to the linked account. Crossing below
    /// zero activates the overdraft with the negative side as principal;
    /// crossing back clears it; staying below adjusts it. A transaction
    /// that would overdraw past the limit is rejected untouched.
    pub fn process_account_transaction(&mut self, transaction_amount: Money,
        time_provider: &hourglass_rs::SafeTimeProvider) -> (r: Result<Money, FacilityError>)
        requires
            overdraft_wf(*old(self)),
            old(self).od_state != OverdraftState::Suspended,
            -MUL_LIMIT <= transaction_amount.atoms <= MUL_LIMIT,
        ensures
            r is Err ==> *final(self) == *old(self),
            ({
                let nb = old(self).linked_account_balance.atoms
                    + transaction_amount.atoms;
                &&& (r is Err <==> nb < -old(self).overdraft_limit.atoms || nb < -MUL_LIMIT
                    || nb > MUL_LIMIT)
                &&& (nb < -old(self).overdraft_limit.atoms ==> (r matches Err(e) && e
                    matches FacilityError::OverdraftLimitExceeded { limit, .. } && limit
                    == old(self).overdraft_limit))
                &&& (r matches Ok(b) ==> {
                    &&& overdraft_wf(*final(self))
                    &&& b.atoms as int == nb
                    &&& final(self).linked_account_balance.atoms as int == nb
                    &&& final(self).overdraft_limit == old(self).overdraft_limit
                    &&& final(self).buffer_zone == old(self).buffer_zone
                    &&& final(self).linked_account_id == old(self).linked_account_id
                    &&& final(self).daily_fee == old(self).daily_fee
                    &&& final(self).facility.config == old(self).facility.config
                    &&& final(self).facility.state.accrued_fees
                        == old(self).facility.state.accrued_fees
                    &&& final(self).facility.state.accrued_interest
                        == old(self).facility.state.accrued_interest
                    &&& (nb < 0 ==> final(self).is_active
                        && final(self).facility.state.outstanding_principal.atoms as int
                        == -nb && final(self).od_state == overdraft_band(-nb,
                        old(self).buffer_zone.atoms as int,
                        old(self).overdraft_limit.atoms as int))
                    &&& (nb >= 0 ==> !final(self).is_active
                        && final(self).facility.state.outstanding_principal.atoms == 0
                        && final(self).od_state == OverdraftState::Available)
                    &&& ((old(self).linked_account_balance.atoms >= 0 && nb < 0) ==> ({
                        let base = old(self).facility.events.events@.len() as int;
                        &&& final(self).facility.events.events@.len() >= base + 1
                        &&& (final(self).facility.events.events@[base] matches
                            Event::OverdraftActivated { account_balance, overdraft_amount,
                            .. } && account_balance.atoms as int == nb
                            && overdraft_amount.atoms as int == -nb)
                    }))
                    &&& ((old(self).linked_account_balance.atoms < 0 && nb >= 0) ==> ({
                        let base = old(self).facility.events.events@.len() as int;
                        &&& final(self).facility.events.events@.len() == base + 1
                        &&& (final(self).facility.events.events@[base] matches
                            Event::OverdraftCleared { repayment_amount, .. }
                            && repayment_amount
                            == old(self).facility.state.outstanding_principal)
                    }))
                })
            }),
    {
        self.process_account_transaction_with_time(transaction_amount, time_provider)
    }

    /// Post a signed transaction (see `process_account_transaction`).
    pub fn process_account_transaction_with_time(&mut self, transaction_amount: Money,
        time_provider: &hourglass_rs::SafeTimeProvider) -> (r: Result<Money, FacilityError>)
        requires
            overdraft_wf(*old(self)),
            old(self).od_state != OverdraftState::Suspended,
            -MUL_LIMIT <= transaction_amount.atoms <= MUL_LIMIT,
        ensures
            r is Err ==> *final(self) == *old(self),
            ({
                let nb = old(self).linked_account_balance.atoms
                    + transaction_amount.atoms;
                &&& (r is Err <==> nb < -old(self).overdraft_limit.atoms || nb < -MUL_LIMIT
                    || nb > MUL_LIMIT)
                &&& (nb < -old(self).overdraft_limit.atoms ==> (r matches Err(e) && e
                    matches FacilityError::OverdraftLimitExceeded { limit, .. } && limit
                    == old(self).overdraft_limit))
                &&& (r matches Ok(b) ==> {
                    &&& overdraft_wf(*final(self))
                    &&& b.atoms as int == nb
                    &&& final(self).linked_account_balance.atoms as int == nb
                    &&& final(self).overdraft_limit == old(self).overdraft_limit
                    &&& final(self).buffer_zone == old(self).buffer_zone
                    &&& final(self).linked_account_id == old(self).linked_account_id
                    &&& final(self).daily_fee == old(self).daily_fee
                    &&& final(self).facility.config == old(self).facility.config
                    &&& final(self).facility.state.accrued_fees
                        == old(self).facility.state.accrued_fees
                    &&& final(self).facility.state.accrued_interest
                        == old(self).facility.state.accrued_interest
                    &&& (nb < 0 ==> final(self).is_active
                        && final(self).facility.state.outstanding_principal.atoms as int
                        == -nb && final(self).od_state == overdraft_band(-nb,
                        old(self).buffer_zone.atoms as int,
                        old(self).overdraft_limit.atoms as int))
                    &&& (nb >= 0 ==> !final(self).is_active
                        && final(self).facility.state.outstanding_principal.atoms == 0
                        && final(self).od_state == OverdraftState::Available)
                    &&& ((old(self).linked_account_balance.atoms >= 0 && nb < 0) ==> ({
                        let base = old(self).facility.events.events@.len() as int;
                        &&& final(self).facility.events.events@.len() >= base + 1
                        &&& (final(self).facility.events.events@[base] matches
                            Event::OverdraftActivated { account_balance, overdraft_amount,
                            .. } && account_balance.atoms as int == nb
                            && overdraft_amount.atoms as int == -nb)
                    }))
                    &&& ((old(self).linked_account_balance.atoms < 0 && nb >= 0) ==> ({
                        let base = old(self).facility.events.events@.len() as int;
                        &&& final(self).facility.events.events@.len() == base + 1
                        &&& (final(self).facility.events.events@[base] matches
                            Event::OverdraftCleared { repayment_amount, .. }
                            && repayment_amount
                            == old(self).facility.state.outstanding_principal)
                    }))
                })
            }),
    {
        let previous_balance = self.linked_account_balance;
        let new_balance = previous_balance.add(transaction_amount);
        if new_balance.atoms < -self.overdraft_limit.atoms {
            return Err(FacilityError::OverdraftLimitExceeded {
                limit: self.overdraft_limit,
                requested: Money { atoms: -new_balance.atoms - self.overdraft_limit.atoms },
            });
        }
        if new_balance.atoms < -MUL_LIMIT || new_balance.atoms > MUL_LIMIT {
            return Err(FacilityError::CalculationError { message: String::new() });
        }
        let now = provider_now(time_provider);
        let stamped = if now < 0 {
            0
        } else if now > MAX_TIMESTAMP {
            MAX_TIMESTAMP
        } else {
            now
        };
        self.linked_account_balance = new_balance;
        if new_balance.atoms < 0 {
            let amount = Money { atoms: -new_balance.atoms };
            let was_active = previous_balance.atoms < 0;
            let previous_amount = self.facility.state.outstanding_principal;
            self.is_active = true;
            self.facility.state.outstanding_principal = amount;
            self.facility.state.update_status(FacilityStatus::Active, stamped);
            self.od_state = if amount.atoms <= self.buffer_zone.atoms {
                OverdraftState::BufferZone
            } else if amount.atoms <= self.overdraft_limit.atoms {
                OverdraftState::Active
            } else {
                OverdraftState::Exceeded
            };
            if !was_active {
                self.facility.events.emit(Event::OverdraftActivated {
                    facility_id: self.facility.id,
                    account_balance: new_balance,
                    overdraft_amount: amount,
                    timestamp: stamped,
                });
                if amount.atoms > self.buffer_zone.atoms {
                    self.facility.events.emit(Event::BufferZoneBreached {
                        facility_id: self.facility.id,
                        amount_over_buffer: amount.sub(self.buffer_zone),
                        timestamp: stamped,
                    });
                }
            } else {
                if amount.atoms > previous_amount.atoms {
                    self.facility.events.emit(Event::OverdraftIncreased {
                        facility_id: self.facility.id,
                        additional_amount: amount.sub(previous_amount),
                        new_total: amount,
                        timestamp: stamped,
                    });
                }
                if previous_amount.atoms <= self.buffer_zone.atoms && amount.atoms
                    > self.buffer_zone.atoms {
                    self.facility.events.emit(Event::BufferZoneBreached {
                        facility_id: self.facility.id,
                        amount_over_buffer: amount.sub(self.buffer_zone),
                        timestamp: stamped,
                    });
                }
            }
        } else {
            let was_active = previous_balance.atoms < 0;
            let previous_amount = self.facility.state.outstanding_principal;
            self.is_active = false;
            self.facility.state.outstanding_principal = Money::zero();
            self.od_state = OverdraftState::Available;
            if was_active {
                self.facility.events.emit(Event::OverdraftCleared {
                    facility_id: self.facility.id,
                    repayment_amount: previous_amount,
                    timestamp: stamped,
                });
            }
        }
        Ok(new_balance)
    }

    /// One day of continuously compounded interest on the overdrawn
    /// amount: the daily rate's exponential taken to second order.
    pub fn accrue_interest(&mut self, time_provider: &hourglass_rs::SafeTimeProvider)
        -> (r: Result<(), FacilityError>)
        requires
            overdraft_wf(*old(self)),
        ensures
            r is Ok ==> overdraft_wf(*final(self)),
            ({
                let growth = continuous_daily_interest(
                    old(self).facility.state.outstanding_principal.atoms as int,
                    old(self).facility.config.financial_terms.interest_rate.atoms as int);
                r is Err <==> (old(self).is_active
                    && old(self).facility.state.outstanding_principal.atoms > 0
                    && (growth < 0 || old(self).facility.state.accrued_interest.atoms
                    + growth > MUL_LIMIT))
            }),
            r is Err ==> *final(self) == *old(self),
            (r is Ok && old(self).is_active
                && old(self).facility.state.outstanding_principal.atoms > 0) ==> ({
                let growth = continuous_daily_interest(
                    old(self).facility.state.outstanding_principal.atoms as int,
                    old(self).facility.config.financial_terms.interest_rate.atoms as int);
                final(self).facility.state.accrued_interest.atoms
                    == old(self).facility.state.accrued_interest.atoms + growth
            }),
            !(old(self).is_active
                && old(self).facility.state.outstanding_principal.atoms > 0) ==> *final(self)
                == *old(self),
    {
        self.accrue_interest_with_time(time_provider)
    }

    /// One day of continuously compounded interest (see
    /// `accrue_interest`).
    pub fn accrue_interest_with_time(&mut self,
        time_provider: &hourglass_rs::SafeTimeProvider) -> (r: Result<(), FacilityError>)
        requires
            overdraft_wf(*old(self)),
        ensures
            r is Ok ==> overdraft_wf(*final(self)),
            ({
                let growth = continuous_daily_interest(
                    old(self).facility.state.outstanding_principal.atoms as int,
                    old(self).facility.config.financial_terms.interest_rate.atoms as int);
                r is Err <==> (old(self).is_active
                    && old(self).facility.state.outstanding_principal.atoms > 0
                    && (growth < 0 || old(self).facility.state.accrued_interest.atoms
                    + growth > MUL_LIMIT))
            }),
            r is Err ==> *final(self) == *old(self),
            (r is Ok && old(self).is_active
                && old(self).facility.state.outstanding_principal.atoms > 0) ==> ({
                let growth = continuous_daily_interest(
                    old(self).facility.state.outstanding_principal.atoms as int,
                    old(self).facility.config.financial_terms.interest_rate.atoms as int);
                final(self).facility.state.accrued_interest.atoms
                    == old(self).facility.state.accrued_interest.atoms + growth
            }),
            !(old(self).is_active
                && old(self).facility.state.outstanding_principal.atoms > 0) ==> *final(self)
                == *old(self),
    {
        if !self.is_active || self.facility.state.outstanding_principal.atoms == 0 {
            return Ok(());
        }
        let principal = self.facility.state.outstanding_principal;
        let rate = self.facility.config.financial_terms.interest_rate;
        let dr = div_round(rate.atoms, 365);
        proof {
            crate::money::lemma_round_half_div_le(rate.atoms as int, 365);
            lemma_mul_bounds(dr as int, dr as int, RATE_LIMIT as int, RATE_LIMIT as int);
            lemma_round_half_div_bound(dr * dr, 2 * (SCALE as int),
                (RATE_LIMIT as int) * (RATE_LIMIT as int));
        }
        let half_square = div_round(dr * dr, 2 * SCALE);
        let growth_rate = dr + half_square;
        proof {
            lemma_mul_bounds(principal.atoms as int, growth_rate as int, MUL_LIMIT as int,
                1_000_000_000_000);
            lemma_round_half_div_bound(principal.atoms * growth_rate, SCALE as int,
                (MUL_LIMIT as int) * 1_000_000_000_000);
        }
        let interest = div_round(principal.atoms * growth_rate, SCALE);
        if interest < 0 || self.facility.state.accrued_interest.atoms + interest
            > MUL_LIMIT {
            return Err(FacilityError::CalculationError { message: String::new() });
        }
        self.facility.state.accrued_interest = Money {
            atoms: self.facility.state.accrued_interest.atoms + interest,
        };
        let now = provider_now(time_provider);
        self.facility.events.emit(Event::InterestAccrued {
            facility_id: self.facility.id,
            amount: Money { atoms: interest },
            timestamp: now,
        });
        Ok(())
    }

    /// One day of flat fees: the configured (or default five dollar) fee
    /// past the buffer, ten dollars plus any overlimit fee past the
    /// limit, nothing inside the buffer.
    pub fn apply_daily_fees(&mut self, time_provider: &hourglass_rs::SafeTimeProvider)
        -> (r: Result<(), FacilityError>)
        requires
            overdraft_wf(*old(self)),
        ensures
            r is Ok ==> overdraft_wf(*final(self)),
            ({
                let fee = daily_flat_fee(*old(self));
                &&& (r is Err <==> (fee > 0 && (fee > MUL_LIMIT
                    || old(self).facility.state.accrued_fees.atoms + fee > MUL_LIMIT
                    || old(self).facility.state.total_fees_charged.atoms + fee
                    > MUL_LIMIT)))
                &&& (r is Ok ==> final(self).facility.state.accrued_fees.atoms
                    == old(self).facility.state.accrued_fees.atoms + (if fee > 0 {
                    fee
                } else {
                    0
                }))
            }),
            r is Err ==> *final(self) == *old(self),
            !old(self).is_active ==> *final(self) == *old(self),
            old(self).od_state == OverdraftState::BufferZone ==> *final(self) == *old(self),
    {
        self.apply_daily_fees_with_time(time_provider)
    }

    /// One day of flat fees (see `apply_daily_fees`).
    pub fn apply_daily_fees_with_time(&mut self,
        _time_provider: &hourglass_rs::SafeTimeProvider) -> (r: Result<(), FacilityError>)
        requires
            overdraft_wf(*old(self)),
        ensures
            r is Ok ==> overdraft_wf(*final(self)),
            ({
                let fee = daily_flat_fee(*old(self));
                &&& (r is Err <==> (fee > 0 && (fee > MUL_LIMIT
                    || old(self).facility.state.accrued_fees.atoms + fee > MUL_LIMIT
                    || old(self).facility.state.total_fees_charged.atoms + fee
                    > MUL_LIMIT)))
                &&& (r is Ok ==> final(self).facility.state.accrued_fees.atoms
                    == old(self).facility.state.accrued_fees.atoms + (if fee > 0 {
                    fee
                } else {
                    0
                }))
            }),
            r is Err ==> *final(self) == *old(self),
            !old(self).is_active ==> *final(self) == *old(self),
            old(self).od_state == OverdraftState::BufferZone ==> *final(self) == *old(self),
    {
        if !self.is_active {
            return Ok(());
        }
        let mut fee = Money::zero();
        match self.od_state {
            OverdraftState::Active => {
                if self.facility.state.outstanding_principal.atoms
                    > self.buffer_zone.atoms {
                    fee = match self.daily_fee {
                        Some(f) => f,
                        None => Money::from_major(5),
                    };
                }
            },
            OverdraftState::Exceeded => {
                fee = Money::from_major(10);
                if let Some(overlimit_fee) = self.facility.config.fee_config.overlimit_fee {
                    if fee.atoms + overlimit_fee.atoms <= MUL_LIMIT
                        && overlimit_fee.atoms >= 0 {
                        fee = fee.add(overlimit_fee);
                    }
                }
            },
            _ => {},
        }
        if fee.atoms > 0 {
            if fee.atoms > MUL_LIMIT || self.facility.state.accrued_fees.atoms + fee.atoms
                > MUL_LIMIT || self.facility.state.total_fees_charged.atoms + fee.atoms
                > MUL_LIMIT {
                return Err(FacilityError::CalculationError { message: String::new() });
            }
            self.facility.state.accrued_fees = self.facility.state.accrued_fees.add(fee);
            self.facility.state.total_fees_charged
                = self.facility.state.total_fees_charged.add(fee);
        }
        Ok(())
    }

    /// The balance plus the whole arranged limit.
    pub fn effective_balance(&self) -> (r: Money)
        requires
            overdraft_wf(*self),
        ensures
            self.linked_account_balance.atoms >= 0 ==> r.atoms
                == self.linked_account_balance.atoms + self.overdraft_limit.atoms,
            self.linked_account_balance.atoms < 0 ==> r.atoms
                == self.overdraft_limit.atoms + self.linked_account_balance.atoms,
    {
        if self.linked_account_balance.atoms >= 0 {
            self.linked_account_balance.add(self.overdraft_limit)
        } else {
            self.overdraft_limit.sub(Money { atoms: -self.linked_account_balance.atoms })
        }
    }

    /// What can still be spent: the balance plus the unused limit,
    /// clamped at zero.
    pub fn available_funds(&self) -> (r: Money)
        requires
            overdraft_wf(*self),
        ensures
            self.linked_account_balance.atoms >= 0 ==> r.atoms
                == self.linked_account_balance.atoms + self.overdraft_limit.atoms,
            self.linked_account_balance.atoms < 0 ==> r.atoms as int == (
                if -self.linked_account_balance.atoms < self.overdraft_limit.atoms {
                    self.overdraft_limit.atoms + self.linked_account_balance.atoms
                } else {
                    0
                }),
    {
        if self.linked_account_balance.atoms >= 0 {
            self.linked_account_balance.add(self.overdraft_limit)
        } else {
            let used = Money { atoms: -self.linked_account_balance.atoms };
            if used.atoms < self.overdraft_limit.atoms {
                self.overdraft_limit.sub(used)
            } else {
                Money::zero()
            }
        }
    }

    /// Whether a withdrawal of `amount` stays within the arranged limit.
    pub fn can_process_transaction(&self, amount: Money) -> (r: bool)
        requires
            overdraft_wf(*self),
            -MUL_LIMIT <= amount.atoms <= MUL_LIMIT,
        ensures
            r == (self.linked_account_balance.atoms - amount.atoms
                >= -self.overdraft_limit.atoms),
    {
        self.linked_account_balance.atoms - amount.atoms >= -self.overdraft_limit.atoms
    }

    /// Activate the facility.
    pub fn approve(&mut self, time_provider: &hourglass_rs::SafeTimeProvider)
        -> (r: Result<(), FacilityError>)
        requires
            overdraft_wf(*old(self)),
        ensures
            r is Ok ==> overdraft_wf(*final(self)) && final(self).facility.state.status
                == FacilityStatus::Active,
    {
        let now = provider_now(time_provider);
        if now < 0 || now > MAX_TIMESTAMP {
            return Err(FacilityError::InvalidDate { message: String::new() });
        }
        self.facility.state.update_status(FacilityStatus::Active, now);
        self.facility.state.activation_date = Some(now);
        self.facility.events.emit(Event::FacilityActivated {
            facility_id: self.facility.id,
            first_disbursement: Money::zero(),
            timestamp: now,
        });
        Ok(())
    }

    /// Deny the facility; it ends settled and suspended.
    pub fn deny(&mut self, time_provider: &hourglass_rs::SafeTimeProvider)
        -> (r: Result<(), FacilityError>)
        requires
            overdraft_wf(*old(self)),
        ensures
            r is Ok ==> final(self).facility.state.status == FacilityStatus::Settled
                && final(self).od_state == OverdraftState::Suspended,
    {
        let now = provider_now(time_provider);
        if now < 0 || now > MAX_TIMESTAMP {
            return Err(FacilityError::InvalidDate { message: String::new() });
        }
        let old_status = self.facility.state.status;
        self.facility.state.update_status(FacilityStatus::Settled, now);
        self.od_state = OverdraftState::Suspended;
        self.facility.events.emit(Event::StatusChanged {
            facility_id: self.facility.id,
            old_status,
            new_status: FacilityStatus::Settled,
            reason: StatusReason::Denied,
            timestamp: now,
        });
        Ok(())
    }

    /// Deposit into the linked account (an alias for posting a positive
    /// transaction).
    pub fn make_payment(&mut self, amount: Money,
        time_provider: &hourglass_rs::SafeTimeProvider) -> (r: Result<Money, FacilityError>)
        requires
            overdraft_wf(*old(self)),
            old(self).od_state != OverdraftState::Suspended,
            0 <= amount.atoms <= MUL_LIMIT,
        ensures
            r is Ok ==> overdraft_wf(*final(self)),
            r is Err ==> *final(self) == *old(self),
            ({
                let nb = old(self).linked_account_balance.atoms + amount.atoms;
                &&& (r is Err <==> nb < -old(self).overdraft_limit.atoms || nb < -MUL_LIMIT
                    || nb > MUL_LIMIT)
                &&& (r matches Ok(b) ==> b.atoms as int == nb && final(
                    self).linked_account_balance.atoms as int == nb)
            }),
    {
        self.process_account_transaction(amount, time_provider)
    }

    /// Withdraw from the linked account (an alias for posting a negative
    /// transaction).
    pub fn disburse(&mut self, amount: Money,
        time_provider: &hourglass_rs::SafeTimeProvider) -> (r: Result<Money, FacilityError>)
        requires
            overdraft_wf(*old(self)),
            old(self).od_state != OverdraftState::Suspended,
            0 <= amount.atoms <= MUL_LIMIT,
        ensures
            r is Ok ==> overdraft_wf(*final(self)),
            r is Err ==> *final(self) == *old(self),
            ({
                let nb = old(self).linked_account_balance.atoms - amount.atoms;
                &&& (r is Err <==> nb < -old(self).overdraft_limit.atoms || nb < -MUL_LIMIT
                    || nb > MUL_LIMIT)
                &&& (r matches Ok(b) ==> b.atoms as int == nb && final(
                    self).linked_account_balance.atoms as int == nb && (nb < 0 ==> final(
                    self).facility.state.outstanding_principal.atoms as int == -nb))
            }),
    {
        self.process_account_transaction(Money { atoms: -amount.atoms }, time_provider)
    }

    /// The wrapped facility.
    pub fn facility(&self) -> (r: &Facility)
        ensures
            r == &self.facility,
    {
        &self.facility
    }

    /// The wrapped facility, mutably.
    pub fn facility_mut(&mut self) -> (r: &mut Facility)
        ensures
            *r == old(self).facility,
            final(self).facility == *final(r),
            final(self).overdraft_limit == old(self).overdraft_limit,
            final(self).buffer_zone == old(self).buffer_zone,
            final(self).linked_account_balance == old(self).linked_account_balance,
            final(self).is_active == old(self).is_active,
            final(self).od_state == old(self).od_state,
            final(self).daily_fee == old(self).daily_fee,
    {
        &mut self.facility
    }

    /// The linked account's signed balance.
    pub fn linked_account_balance(&self) -> (r: Money)
        ensures
            r == self.linked_account_balance,
    {
        self.linked_account_balance
    }

    /// Whether the overdraft is in use.
    pub fn is_active(&self) -> (r: bool)
        ensures
            r == self.is_active,
    {
        self.is_active
    }

    /// Where the overdraft stands.
    pub fn od_state(&self) -> (r: OverdraftState)
        ensures
            r == self.od_state,
    {
        self.od_state
    }
}

/// One day of continuously compounded growth at eight digits: the daily
/// rate's exponential to second order, applied to the principal.
pub open spec fn continuous_daily_interest(principal: int, annual_rate: int) -> int {
    let dr = round_half_div(annual_rate, 365);
    let growth = dr + round_half_div(dr * dr, 2 * (SCALE as int));
    round_half_div(principal * growth, SCALE as int)
}

/// Collects the figures of an overdraft and builds it.
pub struct OverdraftBuilder {
    pub overdraft_limit: Option<Money>,
    pub rate: Option<Rate>,
    pub buffer_zone: Option<Money>,
    pub linked_account_id: Option<String>,
    pub daily_fee: Option<Money>,
    pub account_number: Option<String>,
    pub customer_id: Option<String>,
}

impl OverdraftBuilder {
    /// An empty builder.
    pub fn new() -> (r: OverdraftBuilder)
        ensures
            r.overdraft_limit is None,
            r.rate is None,
    {
        OverdraftBuilder {
            overdraft_limit: None,
            rate: None,
            buffer_zone: None,
            linked_account_id: None,
            daily_fee: None,
            account_number: None,
            customer_id: None,
        }
    }

    /// Set the arranged limit.
    pub fn overdraft_limit(self, limit: Money) -> (r: OverdraftBuilder)
        ensures
            r == (OverdraftBuilder { overdraft_limit: Some(limit), ..self }),
    {
        OverdraftBuilder { overdraft_limit: Some(limit), ..self }
    }

    /// Set the annual rate.
    pub fn rate(self, rate: Rate) -> (r: OverdraftBuilder)
        ensures
            r == (OverdraftBuilder { rate: Some(rate), ..self }),
    {
        OverdraftBuilder { rate: Some(rate), ..self }
    }

    /// Set the fee-free buffer.
    pub fn buffer_zone(self, buffer: Money) -> (r: OverdraftBuilder)
        ensures
            r == (OverdraftBuilder { buffer_zone: Some(buffer), ..self }),
    {
        OverdraftBuilder { buffer_zone: Some(buffer), ..self }
    }

    /// Set the linked account.
    pub fn linked_account_id(self, account_id: String) -> (r: OverdraftBuilder)
        ensures
            r.overdraft_limit == self.overdraft_limit && r.rate == self.rate,
    {
        OverdraftBuilder { linked_account_id: Some(account_id), ..self }
    }

    /// Set the flat daily fee.
    pub fn daily_fee(self, fee: Money) -> (r: OverdraftBuilder)
        ensures
            r == (OverdraftBuilder { daily_fee: Some(fee), ..self }),
    {
        OverdraftBuilder { daily_fee: Some(fee), ..self }
    }

    /// Set the account number.
    pub fn account_number(self, account: String) -> (r: OverdraftBuilder)
        ensures
            r.overdraft_limit == self.overdraft_limit && r.rate == self.rate,
    {
        OverdraftBuilder { account_number: Some(account), ..self }
    }

    /// Set the customer identifier.
    pub fn customer_id(self, customer: String) -> (r: OverdraftBuilder)
        ensures
            r.overdraft_limit == self.overdraft_limit && r.rate == self.rate,
    {
        OverdraftBuilder { customer_id: Some(customer), ..self }
    }

    /// Build the facility at the provider's instant.
    pub fn build_with_time(self, time_provider: &hourglass_rs::SafeTimeProvider)
        -> (r: Result<OverdraftFacility, FacilityError>)
        ensures
            r matches Ok(t) ==> overdraft_wf(t) && t.facility.state.status
                == FacilityStatus::Originated && !t.is_active,
    {
        let overdraft_limit = match self.overdraft_limit {
            Some(l) => l,
            None => {
                return Err(FacilityError::InvalidConfiguration { message: String::new() });
            },
        };
        let rate = match self.rate {
            Some(x) => x,
            None => {
                return Err(FacilityError::InvalidConfiguration { message: String::new() });
            },
        };
        let buffer_zone = match self.buffer_zone {
            Some(b) => b,
            None => Money::from_major(50),
        };
        let linked_account_id = match self.linked_account_id {
            Some(id) => id,
            None => {
                return Err(FacilityError::InvalidConfiguration { message: String::new() });
            },
        };
        if overdraft_limit.atoms < 0 || overdraft_limit.atoms > POW_BASE_LIMIT || rate.atoms
            < 0 || rate.atoms > RATE_LIMIT || buffer_zone.atoms < 0 || buffer_zone.atoms
            > MUL_LIMIT {
            return Err(FacilityError::InvalidConfiguration { message: String::new() });
        }
        let now = provider_now(time_provider);
        if now < 0 || now > MAX_TIMESTAMP {
            return Err(FacilityError::InvalidDate { message: String::new() });
        }
        let config = FacilityConfig::overdraft(overdraft_limit, rate, buffer_zone, now);
        let account_number = match self.account_number {
            Some(a) => a,
            None => String::new(),
        };
        let customer_id = match self.customer_id {
            Some(c) => c,
            None => String::new(),
        };
        let facility = match Facility::originate(config, account_number, customer_id,
            time_provider) {
            Ok(f) => f,
            Err(e) => {
                return Err(e);
            },
        };
        let mut overdraft = match OverdraftFacility::new(facility, buffer_zone,
            linked_account_id) {
            Ok(o) => o,
            Err(e) => {
                return Err(e);
            },
        };
        overdraft.daily_fee = self.daily_fee;
        Ok(overdraft)
    }

    /// Build the facility against the system clock.
    pub fn build_now(self) -> (r: Result<OverdraftFacility, FacilityError>)
        ensures
            r matches Ok(t) ==> overdraft_wf(t),
    {
        let time = crate::clock::system_time_provider();
        self.build_with_time(&time)
    }
}

} // verus!
