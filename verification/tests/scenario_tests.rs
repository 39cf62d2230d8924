//! End-to-end scenarios over the facility engine.

use chrono::{Duration, TimeZone, Utc};
use credit_engine::config::{
    FacilityConfig, FacilityType, FeeConfig, FinancialTerms, InterestConfig, PaymentConfig,
    FacilityLimits,
};
use credit_engine::dates::timestamp_from_ymd;
use credit_engine::events::Event;
use credit_engine::facilities::overdraft::{OverdraftBuilder, OverdraftState};
use credit_engine::facilities::term_loan::TermLoan;
use credit_engine::facility::Facility;
use credit_engine::interest::accrual::{AccrualEngine, DayCountConvention};
use credit_engine::interest::compound::CompoundingFrequency;
use credit_engine::money::{Money, Rate};
use credit_engine::payments::PartialPaymentStrategy;
use credit_engine::types::{
    AmortizationMethod, FacilityStatus, OverpaymentStrategy, PaymentSchedule, TermLoanType,
};
use hourglass_rs::{SafeTimeProvider, TimeSource};

fn test_provider() -> SafeTimeProvider {
    SafeTimeProvider::new(TimeSource::Test(
        Utc.with_ymd_and_hms(2024, 1, 1, 0, 0, 0).unwrap(),
    ))
}

/// A bare term-loan configuration without any fees, so that scheduled
/// payments land exactly on the amortization table.
fn bare_term_config(amount: Money, rate: Rate, term: u32, origination: i64) -> FacilityConfig {
    FacilityConfig {
        facility_type: FacilityType::TermLoan(TermLoanType::PersonalLoan),
        financial_terms: FinancialTerms {
            commitment_amount: amount,
            interest_rate: rate,
            term_months: Some(term),
            origination_date: origination,
            first_payment_date: None,
            maturity_date: None,
            amortization_method: AmortizationMethod::EqualInstallments,
            balloon_payment: None,
        },
        interest_config: InterestConfig {
            day_count_convention: DayCountConvention::Actual365,
            compounding_frequency: CompoundingFrequency::Monthly,
            penalty_config: None,
            grace_period_days: 10,
            default_rate: None,
            variable_rate: false,
            rate_index: None,
            margin: None,
        },
        payment_config: PaymentConfig {
            payment_schedule: PaymentSchedule::Monthly { day_of_month: 1 },
            minimum_payment: None,
            minimum_payment_percentage: None,
            overpayment_allowed: true,
            overpayment_strategy: OverpaymentStrategy::ReducePrincipal,
            partial_payment_strategy: PartialPaymentStrategy::ApplyImmediately,
            autopay_enabled: false,
        },
        fee_config: FeeConfig {
            origination_fee: None,
            origination_fee_percentage: None,
            late_fee: None,
            late_fee_percentage: None,
            overlimit_fee: None,
            annual_fee: None,
            prepayment_penalty: None,
            commitment_fee_rate: None,
        },
        collateral_config: None,
        limits: FacilityLimits {
            minimum_drawdown: None,
            maximum_drawdown: None,
            minimum_payment: None,
            maximum_payment: None,
            credit_limit: None,
            overdraft_limit: None,
            daily_transaction_limit: None,
            monthly_transaction_limit: None,
        },
    }
}

#[test]
fn quick_start_term_loan() {
    let time = test_provider();

    let mut loan = TermLoan::builder()
        .loan_type(TermLoanType::PersonalLoan)
        .amount(Money::from_major(10_000))
        .rate(Rate::from_percentage(8))
        .term_months(12)
        .build_with_time(&time)
        .unwrap();

    loan.approve(&time).unwrap();
    loan.disburse(Money::from_major(10_000), &time).unwrap();
    let result = loan.process_payment(Money::from_major(500), &time).unwrap();

    assert_eq!(loan.facility().state.status, FacilityStatus::Active);
    assert!(loan.facility().state.outstanding_principal.atoms < Money::from_major(10_000).atoms);
    assert!(result.application.to_principal.atoms > 0);

    let events = loan.facility_mut().take_events();
    assert!(events.iter().any(|e| matches!(e, Event::FacilityOriginated { .. })));
    assert!(events.iter().any(|e| matches!(e, Event::FacilityActivated { .. })));
    assert!(events.iter().any(|e| matches!(e, Event::PaymentReceived { .. })));
}

#[test]
fn three_month_loan_settles() {
    let time = test_provider();
    let control = time.test_control().unwrap();
    let origination = timestamp_from_ymd(2024, 1, 1);

    let config = bare_term_config(Money::from_major(3_000), Rate::from_percentage(12), 3,
        origination);
    let facility = Facility::originate(config, String::new(), String::new(), &time).unwrap();
    let mut loan = TermLoan::new(facility).unwrap();

    loan.approve(&time).unwrap();
    loan.disburse(Money::from_major(3_000), &time).unwrap();

    for _ in 0..3 {
        control.advance(Duration::days(30));
        loan.process_scheduled_payment(&time).unwrap();
    }

    assert_eq!(loan.facility().state.total_outstanding(), Money::zero());
    assert_eq!(loan.facility().state.status, FacilityStatus::Settled);
}

#[test]
fn grace_then_delinquent_with_late_fee() {
    let time = test_provider();
    let control = time.test_control().unwrap();

    // a personal-loan configuration: ten days of grace, a flat late fee
    let mut loan = TermLoan::builder()
        .loan_type(TermLoanType::PersonalLoan)
        .amount(Money::from_major(5_000))
        .rate(Rate::from_percentage(10))
        .term_months(12)
        .build_with_time(&time)
        .unwrap();
    loan.originate_and_disburse(&time).unwrap();

    let origination_fee = loan.facility().state.accrued_fees;
    let due = loan.facility().state.next_payment_due.unwrap();
    let start = timestamp_from_ymd(2024, 1, 1);
    control.advance(Duration::days((due - start) / 86_400));

    // one day past due: grace
    control.advance(Duration::days(1));
    loan.facility_mut().update_daily_status(&time).unwrap();
    assert_eq!(loan.facility().state.status, FacilityStatus::GracePeriod);

    // day ten: still grace
    control.advance(Duration::days(9));
    loan.facility_mut().update_daily_status(&time).unwrap();
    assert_eq!(loan.facility().state.status, FacilityStatus::GracePeriod);
    assert_eq!(loan.facility().state.days_past_due, 10);

    // day eleven: delinquent, with the flat late fee added once
    control.advance(Duration::days(1));
    loan.facility_mut().update_daily_status(&time).unwrap();
    assert_eq!(loan.facility().state.status, FacilityStatus::Delinquent);
    let late_fee = loan.facility().config.fee_config.late_fee.unwrap();
    assert_eq!(
        loan.facility().state.accrued_fees,
        origination_fee.add(late_fee)
    );
    let events = loan.facility_mut().take_events();
    assert!(events.iter().any(|e| matches!(e, Event::LateFeeApplied { .. })));
}

#[test]
fn overdraft_buffer_scenario() {
    let time = test_provider();

    let mut overdraft = OverdraftBuilder::new()
        .overdraft_limit(Money::from_major(1_000))
        .rate(Rate::from_percentage(20))
        .buffer_zone(Money::from_major(50))
        .linked_account_id("ACC-42".to_string())
        .build_with_time(&time)
        .unwrap();

    overdraft
        .process_account_transaction(Money::from_major(500), &time)
        .unwrap();
    let balance = overdraft
        .process_account_transaction(Money::from_major(-600), &time)
        .unwrap();
    assert_eq!(balance, Money::from_major(-100));
    assert!(overdraft.is_active());
    assert_eq!(overdraft.od_state(), OverdraftState::Active);

    // from a zero balance, a small overdraw stays inside the buffer
    let mut small = OverdraftBuilder::new()
        .overdraft_limit(Money::from_major(1_000))
        .rate(Rate::from_percentage(20))
        .buffer_zone(Money::from_major(50))
        .linked_account_id("ACC-43".to_string())
        .build_with_time(&time)
        .unwrap();
    small
        .process_account_transaction(Money::from_major(-30), &time)
        .unwrap();
    assert_eq!(small.od_state(), OverdraftState::BufferZone);
    small.apply_daily_fees(&time).unwrap();
    assert_eq!(small.facility().state.accrued_fees, Money::zero());

    // overdrawing past the arranged limit is rejected
    let mut rejected = OverdraftBuilder::new()
        .overdraft_limit(Money::from_major(1_000))
        .rate(Rate::from_percentage(20))
        .buffer_zone(Money::from_major(50))
        .linked_account_id("ACC-44".to_string())
        .build_with_time(&time)
        .unwrap();
    let r = rejected.process_account_transaction(Money::from_major(-1_200), &time);
    assert!(matches!(
        r,
        Err(credit_engine::errors::FacilityError::OverdraftLimitExceeded { .. })
    ));
}

#[test]
fn outstanding_equals_bucket_sum_through_lifecycle() {
    let time = test_provider();
    let control = time.test_control().unwrap();

    let mut loan = TermLoan::builder()
        .loan_type(TermLoanType::PersonalLoan)
        .amount(Money::from_major(10_000))
        .rate(Rate::from_percentage(12))
        .term_months(12)
        .build_with_time(&time)
        .unwrap();
    loan.originate_and_disburse(&time).unwrap();

    for _ in 0..4 {
        control.advance(Duration::days(7));
        loan.accrue_interest(&time).unwrap();
        let s = &loan.facility().state;
        let total = s.total_outstanding();
        assert!(total.atoms >= 0);
        assert_eq!(
            total.atoms,
            s.outstanding_principal.atoms + s.accrued_interest.atoms + s.accrued_fees.atoms
                + s.accrued_penalties.atoms
        );
    }
}

#[test]
fn disbursed_never_exceeds_commitment() {
    let time = test_provider();

    let mut loan = TermLoan::builder()
        .loan_type(TermLoanType::PersonalLoan)
        .amount(Money::from_major(10_000))
        .rate(Rate::from_percentage(12))
        .term_months(12)
        .build_with_time(&time)
        .unwrap();
    loan.approve(&time).unwrap();
    loan.disburse(Money::from_major(6_000), &time).unwrap();
    loan.disburse(Money::from_major(4_000), &time).unwrap();

    // the commitment is exhausted: any further draw is rejected
    let r = loan.disburse(Money::from_major(1), &time);
    assert!(r.is_err());

    let s = &loan.facility().state;
    assert!(
        s.total_disbursed.atoms
            <= s.original_commitment.atoms + s.capitalized_interest.atoms
    );
}

#[test]
fn day_count_round_trip_scenarios() {
    let engine = AccrualEngine::new(DayCountConvention::Actual365);
    let t = timestamp_from_ymd(2024, 3, 15);
    for k in [0i64, 1, 7, 30, 365] {
        assert_eq!(engine.calculate_days(t, t + k * 86_400), k);
    }

    // the 30/360 count matches its closed formula with end-of-month capping
    let engine = AccrualEngine::new(DayCountConvention::Thirty360);
    let start = timestamp_from_ymd(2024, 1, 30);
    let end = timestamp_from_ymd(2024, 3, 31);
    // start day caps at 30, so the end day caps at 30 as well
    assert_eq!(
        engine.days_30_360_between(start, end),
        360 * 0 + 30 * (3 - 1) + (30 - 30)
    );
}

#[test]
fn delinquent_does_not_return_to_active_without_payment() {
    let time = test_provider();
    let control = time.test_control().unwrap();

    let mut loan = TermLoan::builder()
        .loan_type(TermLoanType::PersonalLoan)
        .amount(Money::from_major(5_000))
        .rate(Rate::from_percentage(10))
        .term_months(12)
        .build_with_time(&time)
        .unwrap();
    loan.originate_and_disburse(&time).unwrap();

    let due = loan.facility().state.next_payment_due.unwrap();
    let start = timestamp_from_ymd(2024, 1, 1);
    control.advance(Duration::days((due - start) / 86_400 + 11));
    loan.facility_mut().update_daily_status(&time).unwrap();
    assert_eq!(loan.facility().state.status, FacilityStatus::Delinquent);

    // further daily updates without a payment never lead back to active
    for _ in 0..5 {
        control.advance(Duration::days(1));
        loan.facility_mut().update_daily_status(&time).unwrap();
        assert_eq!(loan.facility().state.status, FacilityStatus::Delinquent);
    }

    // paying the minimum due clears the days past due
    let minimum = loan.facility().state.minimum_payment_due.unwrap();
    loan.process_payment(minimum, &time).unwrap();
    assert_eq!(loan.facility().state.days_past_due, 0);
}
