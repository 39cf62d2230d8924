//! Facility configuration: immutable after origination.

use vstd::prelude::*;
use crate::interest::accrual::DayCountConvention;
use crate::interest::compound::CompoundingFrequency;
use crate::interest::penalty::{penalty_config_wf, PenaltyConfig};
use crate::money::{mul_scaled, round_half_div, Money, Rate, MUL_LIMIT, POW_BASE_LIMIT,
    RATE_LIMIT, SCALE};
use crate::dates::MAX_TIMESTAMP;
use crate::payments::PartialPaymentStrategy;
use crate::types::{
    AmortizationMethod, LtvThresholds, OpenTermType, OverpaymentStrategy, PaymentSchedule,
    RevolvingType, TermLoanType,
};

verus! {

/// Which of the four families a facility belongs to.
#[derive(Clone, Copy, Debug, PartialEq, Eq, Structural)]
pub enum FacilityType {
    TermLoan(TermLoanType),
    OpenTermLoan(OpenTermType),
    Revolving(RevolvingType),
    Overdraft,
}

/// The financial terms fixed at origination.
#[derive(Clone, Debug, PartialEq)]
pub struct FinancialTerms {
    pub commitment_amount: Money,
    pub interest_rate: Rate,
    pub term_months: Option<u32>,
    pub origination_date: i64,
    pub first_payment_date: Option<i64>,
    pub maturity_date: Option<i64>,
    pub amortization_method: AmortizationMethod,
    pub balloon_payment: Option<Money>,
}

/// How interest accrues and what happens when payments slip.
#[derive(Clone, Debug, PartialEq)]
pub struct InterestConfig {
    pub day_count_convention: DayCountConvention,
    pub compounding_frequency: CompoundingFrequency,
    pub penalty_config: Option<PenaltyConfig>,
    pub grace_period_days: u32,
    pub default_rate: Option<Rate>,
    pub variable_rate: bool,
    pub rate_index: Option<String>,
    pub margin: Option<Rate>,
}

/// How payments are scheduled and applied.
#[derive(Clone, Debug, PartialEq)]
pub struct PaymentConfig {
    pub payment_schedule: PaymentSchedule,
    pub minimum_payment: Option<Money>,
    pub minimum_payment_percentage: Option<Rate>,
    pub overpayment_allowed: bool,
    pub overpayment_strategy: OverpaymentStrategy,
    pub partial_payment_strategy: PartialPaymentStrategy,
    pub autopay_enabled: bool,
}

/// A prepayment penalty with its step-downs.
#[derive(Clone, Debug, PartialEq)]
pub struct PrepaymentPenalty {
    pub penalty_percentage: Rate,
    pub penalty_months: u32,
    pub step_down: Vec<StepDown>,
}

/// One step-down of a prepayment penalty.
#[derive(Clone, Copy, Debug, PartialEq, Eq, Structural)]
pub struct StepDown {
    pub after_months: u32,
    pub penalty_percentage: Rate,
}

/// The fees a facility can charge.
#[derive(Clone, Debug, PartialEq)]
pub struct FeeConfig {
    pub origination_fee: Option<Money>,
    pub origination_fee_percentage: Option<Rate>,
    pub late_fee: Option<Money>,
    pub late_fee_percentage: Option<Rate>,
    pub overlimit_fee: Option<Money>,
    pub annual_fee: Option<Money>,
    pub prepayment_penalty: Option<PrepaymentPenalty>,
    pub commitment_fee_rate: Option<Rate>,
}

/// The collateral requirements of a secured facility.
#[derive(Clone, Debug, PartialEq)]
pub struct CollateralConfig {
    pub collateral_type: String,
    pub initial_value: Money,
    pub ltv_thresholds: LtvThresholds,
    pub revaluation_frequency_days: u32,
    pub liquidation_notice_days: u32,
    pub margin_call_days: u32,
}

/// Caps on draws, payments and transactions.
#[derive(Clone, Copy, Debug, PartialEq, Eq, Structural)]
pub struct FacilityLimits {
    pub minimum_drawdown: Option<Money>,
    pub maximum_drawdown: Option<Money>,
    pub minimum_payment: Option<Money>,
    pub maximum_payment: Option<Money>,
    pub credit_limit: Option<Money>,
    pub overdraft_limit: Option<Money>,
    pub daily_transaction_limit: Option<Money>,
    pub monthly_transaction_limit: Option<Money>,
}

/// Everything configured for one facility.
#[derive(Clone, Debug, PartialEq)]
pub struct FacilityConfig {
    pub facility_type: FacilityType,
    pub financial_terms: FinancialTerms,
    pub interest_config: InterestConfig,
    pub payment_config: PaymentConfig,
    pub fee_config: FeeConfig,
    pub collateral_config: Option<CollateralConfig>,
    pub limits: FacilityLimits,
}

/// The bounds under which the engine computes a configuration exactly.
pub open spec fn config_wf(c: FacilityConfig) -> bool {
    &&& 0 <= c.financial_terms.commitment_amount.atoms <= POW_BASE_LIMIT
    &&& 0 <= c.financial_terms.interest_rate.atoms <= RATE_LIMIT
    &&& 0 <= c.financial_terms.origination_date <= MAX_TIMESTAMP
    &&& (c.financial_terms.term_months matches Some(t) ==> t
        <= crate::payments::amortization::TERM_LIMIT)
    &&& (c.fee_config.origination_fee matches Some(f) ==> 0 <= f.atoms <= MUL_LIMIT)
    &&& (c.fee_config.late_fee matches Some(f) ==> 0 <= f.atoms <= MUL_LIMIT)
    &&& (c.fee_config.overlimit_fee matches Some(f) ==> 0 <= f.atoms <= MUL_LIMIT)
    &&& (c.fee_config.annual_fee matches Some(f) ==> 0 <= f.atoms <= MUL_LIMIT)
    &&& (c.fee_config.commitment_fee_rate matches Some(r) ==> 0 <= r.atoms <= RATE_LIMIT)
    &&& (c.interest_config.penalty_config matches Some(p) ==> penalty_config_wf(p))
    &&& (c.collateral_config matches Some(cc) ==>
        crate::collateral::ltv::thresholds_wf(cc.ltv_thresholds)
        && 0 <= cc.initial_value.atoms <= MUL_LIMIT)
    &&& (c.limits.credit_limit matches Some(l) ==> 0 <= l.atoms <= POW_BASE_LIMIT)
    &&& (c.limits.overdraft_limit matches Some(l) ==> 0 <= l.atoms <= POW_BASE_LIMIT)
    &&& (c.limits.minimum_drawdown matches Some(l) ==> 0 <= l.atoms <= MUL_LIMIT)
    &&& (c.payment_config.minimum_payment matches Some(m) ==> 0 <= m.atoms <= MUL_LIMIT)
    &&& (c.payment_config.minimum_payment_percentage matches Some(p) ==> 0 <= p.atoms
        <= RATE_LIMIT)
}

/// The runtime counterpart of `config_wf`.
pub fn config_check(c: &FacilityConfig) -> (r: bool)
    ensures
        r == config_wf(*c),
{
    let terms_ok = 0 <= c.financial_terms.commitment_amount.atoms
        && c.financial_terms.commitment_amount.atoms <= POW_BASE_LIMIT
        && 0 <= c.financial_terms.interest_rate.atoms
        && c.financial_terms.interest_rate.atoms <= RATE_LIMIT
        && 0 <= c.financial_terms.origination_date
        && c.financial_terms.origination_date <= MAX_TIMESTAMP;
    let term_ok = match c.financial_terms.term_months {
        Some(t) => t <= crate::payments::amortization::TERM_LIMIT,
        None => true,
    };
    let fee1 = match c.fee_config.origination_fee {
        Some(f) => 0 <= f.atoms && f.atoms <= MUL_LIMIT,
        None => true,
    };
    let fee2 = match c.fee_config.late_fee {
        Some(f) => 0 <= f.atoms && f.atoms <= MUL_LIMIT,
        None => true,
    };
    let fee3 = match c.fee_config.overlimit_fee {
        Some(f) => 0 <= f.atoms && f.atoms <= MUL_LIMIT,
        None => true,
    };
    let fee4 = match c.fee_config.annual_fee {
        Some(f) => 0 <= f.atoms && f.atoms <= MUL_LIMIT,
        None => true,
    };
    let fee5 = match c.fee_config.commitment_fee_rate {
        Some(r) => 0 <= r.atoms && r.atoms <= RATE_LIMIT,
        None => true,
    };
    let pen_ok = match &c.interest_config.penalty_config {
        Some(p) => crate::interest::penalty::penalty_config_check(p),
        None => true,
    };
    let coll_ok = match &c.collateral_config {
        Some(cc) => {
            let t = cc.ltv_thresholds;
            -RATE_LIMIT <= t.initial_ltv.atoms && t.initial_ltv.atoms <= RATE_LIMIT
                && -RATE_LIMIT <= t.warning_ltv.atoms && t.warning_ltv.atoms <= RATE_LIMIT
                && -RATE_LIMIT <= t.margin_call_ltv.atoms && t.margin_call_ltv.atoms
                <= RATE_LIMIT && -RATE_LIMIT <= t.liquidation_ltv.atoms
                && t.liquidation_ltv.atoms <= RATE_LIMIT && 0 <= cc.initial_value.atoms
                && cc.initial_value.atoms <= MUL_LIMIT
        },
        None => true,
    };
    let lim1 = match c.limits.credit_limit {
        Some(l) => 0 <= l.atoms && l.atoms <= POW_BASE_LIMIT,
        None => true,
    };
    let lim2 = match c.limits.overdraft_limit {
        Some(l) => 0 <= l.atoms && l.atoms <= POW_BASE_LIMIT,
        None => true,
    };
    let lim3 = match c.limits.minimum_drawdown {
        Some(l) => 0 <= l.atoms && l.atoms <= MUL_LIMIT,
        None => true,
    };
    let pay1 = match c.payment_config.minimum_payment {
        Some(m) => 0 <= m.atoms && m.atoms <= MUL_LIMIT,
        None => true,
    };
    let pay2 = match c.payment_config.minimum_payment_percentage {
        Some(p) => 0 <= p.atoms && p.atoms <= RATE_LIMIT,
        None => true,
    };
    terms_ok && term_ok && fee1 && fee2 && fee3 && fee4 && fee5 && pen_ok && coll_ok && lim1
        && lim2 && lim3 && pay1 && pay2
}

impl FacilityConfig {
    /// A mortgage: equal installments, 30/360-like accrual on a 360-day
    /// year, a one percent origination fee, a fifty dollar late fee,
    /// fifteen days of grace, and real-estate collateral with an 80/85/90
    /// threshold ladder.
    pub fn mortgage(amount: Money, rate: Rate, term_months: u32, origination_date: i64,
        property_value: Money) -> (r: FacilityConfig)
        requires
            0 <= amount.atoms <= POW_BASE_LIMIT,
            0 <= rate.atoms <= RATE_LIMIT,
            0 < property_value.atoms <= MUL_LIMIT,
            0 <= origination_date <= MAX_TIMESTAMP,
            term_months <= crate::payments::amortization::TERM_LIMIT,
        ensures
            r.facility_type == FacilityType::TermLoan(TermLoanType::Mortgage),
            r.financial_terms.commitment_amount == amount,
            r.financial_terms.interest_rate == rate,
            r.financial_terms.term_months == Some(term_months),
            r.financial_terms.origination_date == origination_date,
            r.financial_terms.amortization_method == AmortizationMethod::EqualInstallments,
            r.interest_config.day_count_convention == DayCountConvention::Actual360,
            r.interest_config.grace_period_days == 15,
            r.fee_config.origination_fee matches Some(f) && f.atoms == round_half_div(
                amount.atoms * 1_000_000, SCALE as int),
            r.fee_config.late_fee == Some(Money { atoms: (50 * SCALE) as i128 }),
            r.collateral_config matches Some(cc) && cc.initial_value == property_value
                && cc.ltv_thresholds.warning_ltv.atoms == 80_000_000
                && cc.ltv_thresholds.margin_call_ltv.atoms == 85_000_000
                && cc.ltv_thresholds.liquidation_ltv.atoms == 90_000_000,
            rate.atoms * 3 <= RATE_LIMIT * 2 ==> config_wf(r),
    {
        let origination_fee = amount.times(Rate { atoms: 1_000_000 });
        proof {
            crate::money::lemma_round_half_div_bound(amount.atoms * 1_000_000, SCALE as int,
                (POW_BASE_LIMIT as int) * 1_000_000);
        }
        let initial_ltv = crate::money::div_round(amount.atoms * SCALE,
            property_value.atoms);
        proof {
            crate::money::lemma_mul_bounds(amount.atoms as int, SCALE as int,
                POW_BASE_LIMIT as int, SCALE as int);
        }
        let capped_initial = if initial_ltv > RATE_LIMIT {
            RATE_LIMIT
        } else if initial_ltv < 0 {
            0
        } else {
            initial_ltv
        };
        let penalty = PenaltyConfig::new(rate, Rate { atoms: 150_000_000 });
        FacilityConfig {
            facility_type: FacilityType::TermLoan(TermLoanType::Mortgage),
            financial_terms: FinancialTerms {
                commitment_amount: amount,
                interest_rate: rate,
                term_months: Some(term_months),
                origination_date,
                first_payment_date: Some(origination_date),
                maturity_date: None,
                amortization_method: AmortizationMethod::EqualInstallments,
                balloon_payment: None,
            },
            interest_config: InterestConfig {
                day_count_convention: DayCountConvention::Actual360,
                compounding_frequency: CompoundingFrequency::Monthly,
                penalty_config: Some(penalty),
                grace_period_days: 15,
                default_rate: Some(rate.times(Rate { atoms: 150_000_000 })),
                variable_rate: false,
                rate_index: None,
                margin: None,
            },
            payment_config: PaymentConfig {
                payment_schedule: PaymentSchedule::Monthly { day_of_month: 1 },
                minimum_payment: None,
                minimum_payment_percentage: None,
                overpayment_allowed: true,
                overpayment_strategy: OverpaymentStrategy::ReducePrincipal,
                partial_payment_strategy: PartialPaymentStrategy::HoldInSuspense,
                autopay_enabled: false,
            },
            fee_config: FeeConfig {
                origination_fee: Some(origination_fee),
                origination_fee_percentage: Some(Rate { atoms: SCALE }),
                late_fee: Some(Money::from_major(50)),
                late_fee_percentage: None,
                overlimit_fee: None,
                annual_fee: None,
                prepayment_penalty: None,
                commitment_fee_rate: None,
            },
            collateral_config: Some(CollateralConfig {
                collateral_type: "real_estate".to_string(),
                initial_value: property_value,
                ltv_thresholds: LtvThresholds {
                    initial_ltv: Rate { atoms: capped_initial },
                    warning_ltv: Rate::from_percentage(80),
                    margin_call_ltv: Rate::from_percentage(85),
                    liquidation_ltv: Rate::from_percentage(90),
                },
                revaluation_frequency_days: 365,
                liquidation_notice_days: 90,
                margin_call_days: 30,
            }),
            limits: FacilityLimits {
                minimum_drawdown: None,
                maximum_drawdown: Some(amount),
                minimum_payment: None,
                maximum_payment: None,
                credit_limit: None,
                overdraft_limit: None,
                daily_transaction_limit: None,
                monthly_transaction_limit: None,
            },
        }
    }

    /// A personal loan: equal installments, actual/365 accrual, a three
    /// percent origination fee, a thirty-five dollar late fee, ten days
    /// of grace, no collateral.
    pub fn personal_loan(amount: Money, rate: Rate, term_months: u32, origination_date: i64)
        -> (r: FacilityConfig)
        requires
            0 <= amount.atoms <= POW_BASE_LIMIT,
            0 <= rate.atoms <= RATE_LIMIT,
            0 <= origination_date <= MAX_TIMESTAMP,
            term_months <= crate::payments::amortization::TERM_LIMIT,
        ensures
            r.facility_type == FacilityType::TermLoan(TermLoanType::PersonalLoan),
            r.financial_terms.commitment_amount == amount,
            r.financial_terms.interest_rate == rate,
            r.financial_terms.term_months == Some(term_months),
            r.financial_terms.origination_date == origination_date,
            r.financial_terms.amortization_method == AmortizationMethod::EqualInstallments,
            r.interest_config.day_count_convention == DayCountConvention::Actual365,
            r.interest_config.grace_period_days == 10,
            r.fee_config.origination_fee matches Some(f) && f.atoms == round_half_div(
                amount.atoms * 3_000_000, SCALE as int),
            r.fee_config.late_fee == Some(Money { atoms: (35 * SCALE) as i128 }),
            r.payment_config.overpayment_strategy == OverpaymentStrategy::ReduceTerm,
            r.collateral_config is None,
            rate.atoms * 2 <= RATE_LIMIT ==> config_wf(r),
    {
        let origination_fee = amount.times(Rate { atoms: 3_000_000 });
        proof {
            crate::money::lemma_round_half_div_bound(amount.atoms * 3_000_000, SCALE as int,
                (POW_BASE_LIMIT as int) * 3_000_000);
        }
        let penalty = PenaltyConfig::new(rate, Rate { atoms: 200_000_000 });
        FacilityConfig {
            facility_type: FacilityType::TermLoan(TermLoanType::PersonalLoan),
            financial_terms: FinancialTerms {
                commitment_amount: amount,
                interest_rate: rate,
                term_months: Some(term_months),
                origination_date,
                first_payment_date: Some(origination_date),
                maturity_date: None,
                amortization_method: AmortizationMethod::EqualInstallments,
                balloon_payment: None,
            },
            interest_config: InterestConfig {
                day_count_convention: DayCountConvention::Actual365,
                compounding_frequency: CompoundingFrequency::Monthly,
                penalty_config: Some(penalty),
                grace_period_days: 10,
                default_rate: Some(rate.times(Rate { atoms: 200_000_000 })),
                variable_rate: false,
                rate_index: None,
                margin: None,
            },
            payment_config: PaymentConfig {
                payment_schedule: PaymentSchedule::Monthly { day_of_month: 15 },
                minimum_payment: None,
                minimum_payment_percentage: None,
                overpayment_allowed: true,
                overpayment_strategy: OverpaymentStrategy::ReduceTerm,
                partial_payment_strategy: PartialPaymentStrategy::ApplyImmediately,
                autopay_enabled: false,
            },
            fee_config: FeeConfig {
                origination_fee: Some(origination_fee),
                origination_fee_percentage: Some(Rate { atoms: 3 * SCALE }),
                late_fee: Some(Money::from_major(35)),
                late_fee_percentage: None,
                overlimit_fee: None,
                annual_fee: None,
                prepayment_penalty: None,
                commitment_fee_rate: None,
            },
            collateral_config: None,
            limits: FacilityLimits {
                minimum_drawdown: Some(Money::from_major(1000)),
                maximum_drawdown: Some(Money::from_major(50000)),
                minimum_payment: None,
                maximum_payment: None,
                credit_limit: None,
                overdraft_limit: None,
                daily_transaction_limit: None,
                monthly_transaction_limit: None,
            },
        }
    }

    /// An auto loan: equal installments, or interest-only with a balloon
    /// of the given percentage of the amount; vehicle collateral with a
    /// 100/110/120 ladder.
    pub fn auto_loan(amount: Money, rate: Rate, term_months: u32, origination_date: i64,
        vehicle_value: Money, balloon_percentage: Option<Rate>) -> (r: FacilityConfig)
        requires
            0 <= amount.atoms <= POW_BASE_LIMIT,
            0 <= rate.atoms <= RATE_LIMIT,
            0 < vehicle_value.atoms <= MUL_LIMIT,
            0 <= origination_date <= MAX_TIMESTAMP,
            term_months <= crate::payments::amortization::TERM_LIMIT,
            balloon_percentage matches Some(p) ==> 0 <= p.atoms <= 100 * RATE_LIMIT,
        ensures
            r.facility_type == FacilityType::TermLoan(TermLoanType::AutoLoan),
            r.financial_terms.commitment_amount == amount,
            r.financial_terms.interest_rate == rate,
            r.financial_terms.term_months == Some(term_months),
            balloon_percentage matches Some(p) ==> (r.financial_terms.balloon_payment
                matches Some(b) && b.atoms == round_half_div(amount.atoms * p.atoms,
                100 * (SCALE as int)) && r.financial_terms.amortization_method
                == AmortizationMethod::InterestOnly),
            balloon_percentage is None ==> r.financial_terms.balloon_payment is None
                && r.financial_terms.amortization_method
                == AmortizationMethod::EqualInstallments,
            r.fee_config.origination_fee == Some(Money { atoms: (500 * SCALE) as i128 }),
            r.fee_config.late_fee == Some(Money { atoms: (25 * SCALE) as i128 }),
            r.interest_config.grace_period_days == 10,
            rate.atoms * 3 <= RATE_LIMIT * 2 ==> config_wf(r),
    {
        let balloon_payment = match balloon_percentage {
            Some(pct) => Some(amount.percentage(pct)),
            None => None,
        };
        proof {
            if let Some(p) = balloon_percentage {
                crate::money::lemma_mul_bounds(amount.atoms as int, p.atoms as int,
                    POW_BASE_LIMIT as int, 100 * (RATE_LIMIT as int));
                crate::money::lemma_round_half_div_bound(amount.atoms * p.atoms,
                    100 * (SCALE as int), (POW_BASE_LIMIT as int) * (100
                    * (RATE_LIMIT as int)));
            }
        }
        let penalty = PenaltyConfig::new(rate, Rate { atoms: 150_000_000 });
        let initial_ltv = crate::money::div_round(amount.atoms * SCALE, vehicle_value.atoms);
        proof {
            crate::money::lemma_mul_bounds(amount.atoms as int, SCALE as int,
                POW_BASE_LIMIT as int, SCALE as int);
        }
        let capped_initial = if initial_ltv > RATE_LIMIT {
            RATE_LIMIT
        } else if initial_ltv < 0 {
            0
        } else {
            initial_ltv
        };
        FacilityConfig {
            facility_type: FacilityType::TermLoan(TermLoanType::AutoLoan),
            financial_terms: FinancialTerms {
                commitment_amount: amount,
                interest_rate: rate,
                term_months: Some(term_months),
                origination_date,
                first_payment_date: Some(origination_date),
                maturity_date: None,
                amortization_method: if balloon_payment.is_some() {
                    AmortizationMethod::InterestOnly
                } else {
                    AmortizationMethod::EqualInstallments
                },
                balloon_payment,
            },
            interest_config: InterestConfig {
                day_count_convention: DayCountConvention::Actual365,
                compounding_frequency: CompoundingFrequency::Monthly,
                penalty_config: Some(penalty),
                grace_period_days: 10,
                default_rate: Some(rate.times(Rate { atoms: 150_000_000 })),
                variable_rate: false,
                rate_index: None,
                margin: None,
            },
            payment_config: PaymentConfig {
                payment_schedule: PaymentSchedule::Monthly { day_of_month: 1 },
                minimum_payment: None,
                minimum_payment_percentage: None,
                overpayment_allowed: true,
                overpayment_strategy: OverpaymentStrategy::ReducePrincipal,
                partial_payment_strategy: PartialPaymentStrategy::HoldInSuspense,
                autopay_enabled: false,
            },
            fee_config: FeeConfig {
                origination_fee: Some(Money::from_major(500)),
                origination_fee_percentage: None,
                late_fee: Some(Money::from_major(25)),
                late_fee_percentage: None,
                overlimit_fee: None,
                annual_fee: None,
                prepayment_penalty: None,
                commitment_fee_rate: None,
            },
            collateral_config: Some(CollateralConfig {
                collateral_type: "vehicle".to_string(),
                initial_value: vehicle_value,
                ltv_thresholds: LtvThresholds {
                    initial_ltv: Rate { atoms: capped_initial },
                    warning_ltv: Rate::from_percentage(100),
                    margin_call_ltv: Rate::from_percentage(110),
                    liquidation_ltv: Rate::from_percentage(120),
                },
                revaluation_frequency_days: 90,
                liquidation_notice_days: 30,
                margin_call_days: 10,
            }),
            limits: FacilityLimits {
                minimum_drawdown: None,
                maximum_drawdown: Some(amount),
                minimum_payment: None,
                maximum_payment: None,
                credit_limit: None,
                overdraft_limit: None,
                daily_transaction_limit: None,
                monthly_transaction_limit: None,
            },
        }
    }

    /// A bitcoin-backed open-term loan: perpetual, no schedule, daily
    /// compounding, a one percent origination fee, and a 60/65/75 ladder
    /// with daily revaluation.
    pub fn bitcoin_backed_loan(amount: Money, rate: Rate, btc_collateral: Money,
        btc_price: Money, origination_date: i64) -> (r: FacilityConfig)
        requires
            0 <= amount.atoms <= POW_BASE_LIMIT,
            0 <= rate.atoms <= RATE_LIMIT,
            0 <= btc_collateral.atoms <= MUL_LIMIT,
            0 <= btc_price.atoms <= RATE_LIMIT * 1_000,
            0 <= origination_date <= MAX_TIMESTAMP,
        ensures
            r.facility_type == FacilityType::OpenTermLoan(OpenTermType::BitcoinBacked),
            r.financial_terms.commitment_amount == amount,
            r.financial_terms.interest_rate == rate,
            r.financial_terms.term_months is None,
            r.financial_terms.origination_date == origination_date,
            r.payment_config.payment_schedule == PaymentSchedule::NoSchedule,
            r.interest_config.grace_period_days == 0,
            r.interest_config.penalty_config is None,
            r.fee_config.origination_fee matches Some(f) && f.atoms == round_half_div(
                amount.atoms * 1_000_000, SCALE as int),
            r.collateral_config matches Some(cc)
                && (0 <= mul_scaled(btc_collateral.atoms as int, btc_price.atoms as int)
                <= MUL_LIMIT ==> cc.initial_value.atoms == mul_scaled(
                btc_collateral.atoms as int, btc_price.atoms as int))
                && cc.ltv_thresholds.warning_ltv.atoms == 60_000_000
                && cc.ltv_thresholds.margin_call_ltv.atoms == 65_000_000
                && cc.ltv_thresholds.liquidation_ltv.atoms == 75_000_000
                && cc.margin_call_days == 3,
            config_wf(r),
    {
        proof {
            crate::money::lemma_mul_bounds(btc_collateral.atoms as int, btc_price.atoms as int,
                MUL_LIMIT as int, (RATE_LIMIT as int) * 1_000);
            crate::money::lemma_round_half_div_bound(btc_collateral.atoms * btc_price.atoms,
                SCALE as int, (MUL_LIMIT as int) * ((RATE_LIMIT as int) * 1_000));
            crate::money::lemma_round_half_div_bound(amount.atoms * 1_000_000, SCALE as int,
                (POW_BASE_LIMIT as int) * 1_000_000);
        }
        let collateral_value_raw = crate::money::div_round(
            btc_collateral.atoms * btc_price.atoms, SCALE);
        let collateral_value = if collateral_value_raw > MUL_LIMIT {
            MUL_LIMIT
        } else if collateral_value_raw < 0 {
            0
        } else {
            collateral_value_raw
        };
        let initial_ltv = if collateral_value > 0 {
            proof {
                crate::money::lemma_mul_bounds(amount.atoms as int, SCALE as int,
                    POW_BASE_LIMIT as int, SCALE as int);
            }
            let l = crate::money::div_round(amount.atoms * SCALE, collateral_value);
            if l > RATE_LIMIT {
                RATE_LIMIT
            } else if l < 0 {
                0
            } else {
                l
            }
        } else {
            RATE_LIMIT
        };
        let origination_fee = amount.times(Rate { atoms: 1_000_000 });
        FacilityConfig {
            facility_type: FacilityType::OpenTermLoan(OpenTermType::BitcoinBacked),
            financial_terms: FinancialTerms {
                commitment_amount: amount,
                interest_rate: rate,
                term_months: None,
                origination_date,
                first_payment_date: None,
                maturity_date: None,
                amortization_method: AmortizationMethod::InterestOnly,
                balloon_payment: None,
            },
            interest_config: InterestConfig {
                day_count_convention: DayCountConvention::Actual365,
                compounding_frequency: CompoundingFrequency::Daily,
                penalty_config: None,
                grace_period_days: 0,
                default_rate: None,
                variable_rate: false,
                rate_index: None,
                margin: None,
            },
            payment_config: PaymentConfig {
                payment_schedule: PaymentSchedule::NoSchedule,
                minimum_payment: None,
                minimum_payment_percentage: None,
                overpayment_allowed: true,
                overpayment_strategy: OverpaymentStrategy::ReducePrincipal,
                partial_payment_strategy: PartialPaymentStrategy::ApplyImmediately,
                autopay_enabled: false,
            },
            fee_config: FeeConfig {
                origination_fee: Some(origination_fee),
                origination_fee_percentage: Some(Rate { atoms: SCALE }),
                late_fee: None,
                late_fee_percentage: None,
                overlimit_fee: None,
                annual_fee: None,
                prepayment_penalty: None,
                commitment_fee_rate: None,
            },
            collateral_config: Some(CollateralConfig {
                collateral_type: "BTC".to_string(),
                initial_value: Money { atoms: collateral_value },
                ltv_thresholds: LtvThresholds {
                    initial_ltv: Rate { atoms: initial_ltv },
                    warning_ltv: Rate::from_percentage(60),
                    margin_call_ltv: Rate::from_percentage(65),
                    liquidation_ltv: Rate::from_percentage(75),
                },
                revaluation_frequency_days: 1,
                liquidation_notice_days: 0,
                margin_call_days: 3,
            }),
            limits: FacilityLimits {
                minimum_drawdown: None,
                maximum_drawdown: Some(amount),
                minimum_payment: None,
                maximum_payment: None,
                credit_limit: None,
                overdraft_limit: None,
                daily_transaction_limit: None,
                monthly_transaction_limit: None,
            },
        }
    }

    /// A credit card: revolving with a twenty-five dollar minimum, a
    /// thirty-nine dollar late fee, an overlimit fee and an annual fee.
    pub fn credit_card(credit_limit: Money, rate: Rate, minimum_percentage: Rate,
        origination_date: i64) -> (r: FacilityConfig)
        requires
            0 <= credit_limit.atoms <= POW_BASE_LIMIT,
            0 <= rate.atoms <= RATE_LIMIT,
            0 <= minimum_percentage.atoms <= RATE_LIMIT,
            0 <= origination_date <= MAX_TIMESTAMP,
        ensures
            r.facility_type == FacilityType::Revolving(RevolvingType::CreditCard),
            r.financial_terms.commitment_amount == credit_limit,
            r.financial_terms.interest_rate == rate,
            r.limits.credit_limit == Some(credit_limit),
            r.payment_config.minimum_payment == Some(Money { atoms: (25 * SCALE) as i128 }),
            r.payment_config.minimum_payment_percentage == Some(minimum_percentage),
            r.fee_config.late_fee == Some(Money { atoms: (39 * SCALE) as i128 }),
            r.fee_config.overlimit_fee == Some(Money { atoms: (35 * SCALE) as i128 }),
            r.fee_config.annual_fee == Some(Money { atoms: (95 * SCALE) as i128 }),
            r.interest_config.grace_period_days == 5,
            rate.atoms * 3 <= RATE_LIMIT * 2 ==> config_wf(r),
    {
        let penalty = PenaltyConfig::new(rate, Rate { atoms: 150_000_000 });
        FacilityConfig {
            facility_type: FacilityType::Revolving(RevolvingType::CreditCard),
            financial_terms: FinancialTerms {
                commitment_amount: credit_limit,
                interest_rate: rate,
                term_months: None,
                origination_date,
                first_payment_date: None,
                maturity_date: None,
                amortization_method: AmortizationMethod::InterestOnly,
                balloon_payment: None,
            },
            interest_config: InterestConfig {
                day_count_convention: DayCountConvention::Actual365,
                compounding_frequency: CompoundingFrequency::Daily,
                penalty_config: Some(penalty),
                grace_period_days: 5,
                default_rate: Some(Rate::from_percentage(29)),
                variable_rate: false,
                rate_index: None,
                margin: None,
            },
            payment_config: PaymentConfig {
                payment_schedule: PaymentSchedule::Monthly { day_of_month: 1 },
                minimum_payment: Some(Money::from_major(25)),
                minimum_payment_percentage: Some(minimum_percentage),
                overpayment_allowed: true,
                overpayment_strategy: OverpaymentStrategy::ReducePrincipal,
                partial_payment_strategy: PartialPaymentStrategy::ApplyImmediately,
                autopay_enabled: false,
            },
            fee_config: FeeConfig {
                origination_fee: None,
                origination_fee_percentage: None,
                late_fee: Some(Money::from_major(39)),
                late_fee_percentage: None,
                overlimit_fee: Some(Money::from_major(35)),
                annual_fee: Some(Money::from_major(95)),
                prepayment_penalty: None,
                commitment_fee_rate: None,
            },
            collateral_config: None,
            limits: FacilityLimits {
                minimum_drawdown: Some(Money::from_major(20)),
                maximum_drawdown: None,
                minimum_payment: Some(Money::from_major(25)),
                maximum_payment: None,
                credit_limit: Some(credit_limit),
                overdraft_limit: None,
                daily_transaction_limit: Some(Money::from_major(5000)),
                monthly_transaction_limit: None,
            },
        }
    }

    /// A business line of credit: revolving, 360-day accrual, a half
    /// percent origination fee and a commitment fee on the undrawn part.
    pub fn line_of_credit(credit_limit: Money, rate: Rate, commitment_fee_rate: Rate,
        origination_date: i64) -> (r: FacilityConfig)
        requires
            0 <= credit_limit.atoms <= POW_BASE_LIMIT,
            0 <= rate.atoms <= RATE_LIMIT,
            0 <= commitment_fee_rate.atoms <= RATE_LIMIT,
            0 <= origination_date <= MAX_TIMESTAMP,
        ensures
            r.facility_type == FacilityType::Revolving(RevolvingType::LineOfCredit),
            r.financial_terms.commitment_amount == credit_limit,
            r.financial_terms.interest_rate == rate,
            r.limits.credit_limit == Some(credit_limit),
            r.fee_config.commitment_fee_rate == Some(commitment_fee_rate),
            r.fee_config.origination_fee matches Some(f) && f.atoms == round_half_div(
                credit_limit.atoms * 500_000, SCALE as int),
            r.interest_config.grace_period_days == 10,
            rate.atoms * 2 <= RATE_LIMIT && rate.atoms + 5_000_000 <= RATE_LIMIT ==>
                config_wf(r),
    {
        let origination_fee = credit_limit.times(Rate { atoms: 500_000 });
        proof {
            crate::money::lemma_round_half_div_bound(credit_limit.atoms * 500_000,
                SCALE as int, (POW_BASE_LIMIT as int) * 500_000);
        }
        let penalty = PenaltyConfig::new(rate, Rate { atoms: 200_000_000 });
        FacilityConfig {
            facility_type: FacilityType::Revolving(RevolvingType::LineOfCredit),
            financial_terms: FinancialTerms {
                commitment_amount: credit_limit,
                interest_rate: rate,
                term_months: Some(12),
                origination_date,
                first_payment_date: None,
                maturity_date: None,
                amortization_method: AmortizationMethod::InterestOnly,
                balloon_payment: None,
            },
            interest_config: InterestConfig {
                day_count_convention: DayCountConvention::Actual360,
                compounding_frequency: CompoundingFrequency::Monthly,
                penalty_config: Some(penalty),
                grace_period_days: 10,
                default_rate: Some(rate.add(Rate { atoms: 5_000_000 })),
                variable_rate: true,
                rate_index: Some("SOFR".to_string()),
                margin: Some(Rate::from_percentage(3)),
            },
            payment_config: PaymentConfig {
                payment_schedule: PaymentSchedule::Monthly { day_of_month: 15 },
                minimum_payment: None,
                minimum_payment_percentage: Some(Rate::zero()),
                overpayment_allowed: true,
                overpayment_strategy: OverpaymentStrategy::ReducePrincipal,
                partial_payment_strategy: PartialPaymentStrategy::HoldInSuspense,
                autopay_enabled: false,
            },
            fee_config: FeeConfig {
                origination_fee: Some(origination_fee),
                origination_fee_percentage: Some(Rate { atoms: 500_000 }),
                late_fee: Some(Money::from_major(50)),
                late_fee_percentage: None,
                overlimit_fee: None,
                annual_fee: None,
                prepayment_penalty: None,
                commitment_fee_rate: Some(commitment_fee_rate),
            },
            collateral_config: None,
            limits: FacilityLimits {
                minimum_drawdown: Some(Money::from_major(10000)),
                maximum_drawdown: None,
                minimum_payment: None,
                maximum_payment: None,
                credit_limit: Some(credit_limit),
                overdraft_limit: None,
                daily_transaction_limit: None,
                monthly_transaction_limit: None,
            },
        }
    }

    /// A home-equity line: revolving against real estate, with a draw
    /// period followed by a repayment period.
    pub fn heloc(credit_limit: Money, rate: Rate, property_value: Money,
        draw_period_months: u32, repayment_period_months: u32, origination_date: i64)
        -> (r: FacilityConfig)
        requires
            0 <= credit_limit.atoms <= POW_BASE_LIMIT,
            0 <= rate.atoms <= RATE_LIMIT,
            0 < property_value.atoms <= MUL_LIMIT,
            0 <= origination_date <= MAX_TIMESTAMP,
            draw_period_months + repayment_period_months
                <= crate::payments::amortization::TERM_LIMIT,
        ensures
            r.facility_type == FacilityType::Revolving(RevolvingType::Heloc),
            r.financial_terms.commitment_amount == credit_limit,
            r.financial_terms.interest_rate == rate,
            r.financial_terms.term_months == Some((draw_period_months
                + repayment_period_months) as u32),
            r.limits.credit_limit == Some(credit_limit),
            r.fee_config.origination_fee == Some(Money { atoms: (500 * SCALE) as i128 }),
            r.fee_config.annual_fee == Some(Money { atoms: (75 * SCALE) as i128 }),
            r.interest_config.grace_period_days == 15,
            r.collateral_config matches Some(cc) && cc.initial_value == property_value,
            rate.atoms * 3 <= RATE_LIMIT * 2 ==> config_wf(r),
    {
        let initial_ltv = crate::money::div_round(credit_limit.atoms * SCALE,
            property_value.atoms);
        proof {
            crate::money::lemma_mul_bounds(credit_limit.atoms as int, SCALE as int,
                POW_BASE_LIMIT as int, SCALE as int);
        }
        let capped_initial = if initial_ltv > RATE_LIMIT {
            RATE_LIMIT
        } else if initial_ltv < 0 {
            0
        } else {
            initial_ltv
        };
        let penalty = PenaltyConfig::new(rate, Rate { atoms: 150_000_000 });
        FacilityConfig {
            facility_type: FacilityType::Revolving(RevolvingType::Heloc),
            financial_terms: FinancialTerms {
                commitment_amount: credit_limit,
                interest_rate: rate,
                term_months: Some(draw_period_months + repayment_period_months),
                origination_date,
                first_payment_date: None,
                maturity_date: None,
                amortization_method: AmortizationMethod::InterestOnly,
                balloon_payment: None,
            },
            interest_config: InterestConfig {
                day_count_convention: DayCountConvention::Actual365,
                compounding_frequency: CompoundingFrequency::Monthly,
                penalty_config: Some(penalty),
                grace_period_days: 15,
                default_rate: Some(rate.times(Rate { atoms: 150_000_000 })),
                variable_rate: true,
                rate_index: Some("Prime".to_string()),
                margin: Some(Rate::from_percentage(1)),
            },
            payment_config: PaymentConfig {
                payment_schedule: PaymentSchedule::Monthly { day_of_month: 1 },
                minimum_payment: None,
                minimum_payment_percentage: Some(Rate::zero()),
                overpayment_allowed: true,
                overpayment_strategy: OverpaymentStrategy::ReducePrincipal,
                partial_payment_strategy: PartialPaymentStrategy::HoldInSuspense,
                autopay_enabled: false,
            },
            fee_config: FeeConfig {
                origination_fee: Some(Money::from_major(500)),
                origination_fee_percentage: None,
                late_fee: Some(Money::from_major(35)),
                late_fee_percentage: None,
                overlimit_fee: None,
                annual_fee: Some(Money::from_major(75)),
                prepayment_penalty: None,
                commitment_fee_rate: None,
            },
            collateral_config: Some(CollateralConfig {
                collateral_type: "real_estate".to_string(),
                initial_value: property_value,
                ltv_thresholds: LtvThresholds {
                    initial_ltv: Rate { atoms: capped_initial },
                    warning_ltv: Rate::from_percentage(80),
                    margin_call_ltv: Rate::from_percentage(85),
                    liquidation_ltv: Rate::from_percentage(90),
                },
                revaluation_frequency_days: 365,
                liquidation_notice_days: 90,
                margin_call_days: 30,
            }),
            limits: FacilityLimits {
                minimum_drawdown: Some(Money::from_major(500)),
                maximum_drawdown: None,
                minimum_payment: None,
                maximum_payment: None,
                credit_limit: Some(credit_limit),
                overdraft_limit: None,
                daily_transaction_limit: None,
                monthly_transaction_limit: None,
            },
        }
    }

    /// An overdraft: no schedule, continuous compounding, an overlimit
    /// fee, no grace.
    pub fn overdraft(overdraft_limit: Money, rate: Rate, buffer_zone: Money,
        origination_date: i64) -> (r: FacilityConfig)
        requires
            0 <= overdraft_limit.atoms <= POW_BASE_LIMIT,
            0 <= rate.atoms <= RATE_LIMIT,
            0 <= buffer_zone.atoms <= MUL_LIMIT,
            0 <= origination_date <= MAX_TIMESTAMP,
        ensures
            r.facility_type == FacilityType::Overdraft,
            r.financial_terms.commitment_amount == overdraft_limit,
            r.financial_terms.interest_rate == rate,
            r.limits.overdraft_limit == Some(overdraft_limit),
            r.payment_config.payment_schedule == PaymentSchedule::NoSchedule,
            r.interest_config.grace_period_days == 0,
            r.interest_config.compounding_frequency == CompoundingFrequency::Continuous,
            r.fee_config.overlimit_fee == Some(Money { atoms: (35 * SCALE) as i128 }),
            config_wf(r),
    {
        FacilityConfig {
            facility_type: FacilityType::Overdraft,
            financial_terms: FinancialTerms {
                commitment_amount: overdraft_limit,
                interest_rate: rate,
                term_months: None,
                origination_date,
                first_payment_date: None,
                maturity_date: None,
                amortization_method: AmortizationMethod::InterestOnly,
                balloon_payment: None,
            },
            interest_config: InterestConfig {
                day_count_convention: DayCountConvention::Actual365,
                compounding_frequency: CompoundingFrequency::Continuous,
                penalty_config: None,
                grace_period_days: 0,
                default_rate: None,
                variable_rate: false,
                rate_index: None,
                margin: None,
            },
            payment_config: PaymentConfig {
                payment_schedule: PaymentSchedule::NoSchedule,
                minimum_payment: None,
                minimum_payment_percentage: None,
                overpayment_allowed: true,
                overpayment_strategy: OverpaymentStrategy::ReducePrincipal,
                partial_payment_strategy: PartialPaymentStrategy::ApplyImmediately,
                autopay_enabled: false,
            },
            fee_config: FeeConfig {
                origination_fee: None,
                origination_fee_percentage: None,
                late_fee: None,
                late_fee_percentage: None,
                overlimit_fee: Some(Money::from_major(35)),
                annual_fee: None,
                prepayment_penalty: None,
                commitment_fee_rate: None,
            },
            collateral_config: None,
            limits: FacilityLimits {
                minimum_drawdown: None,
                maximum_drawdown: None,
                minimum_payment: None,
                maximum_payment: None,
                credit_limit: None,
                overdraft_limit: Some(overdraft_limit),
                daily_transaction_limit: None,
                monthly_transaction_limit: None,
            },
        }
    }
}

} // verus!
