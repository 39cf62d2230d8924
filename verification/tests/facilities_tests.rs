use chrono::{Duration, TimeZone, Utc};
use credit_engine::dates::timestamp_from_ymd;
use credit_engine::facilities::overdraft::{OverdraftBuilder, OverdraftState};
use credit_engine::facilities::revolving::{RevolvingFacility, UtilizationState};
use credit_engine::facilities::open_term::OpenTermLoan;
use credit_engine::facilities::term_loan::TermLoan;
use credit_engine::money::{Money, Rate};
use credit_engine::types::{FacilityStatus, RevolvingType, TermLoanType};
use hourglass_rs::{SafeTimeProvider, TimeSource};

fn test_provider() -> SafeTimeProvider {
    SafeTimeProvider::new(TimeSource::Test(
        Utc.with_ymd_and_hms(2024, 1, 1, 0, 0, 0).unwrap(),
    ))
}

#[test]
fn test_mortgage_creation() {
    let time = test_provider();

    let loan = TermLoan::builder()
        .loan_type(TermLoanType::Mortgage)
        .amount(Money::from_major(300_000))
        .rate(Rate::from_percentage(4))
        .term_months(360)
        .property_value(Money::from_major(400_000))
        .account_number("MORT-001".to_string())
        .customer_id("CUST-123".to_string())
        .build_with_time(&time)
        .unwrap();

    assert_eq!(loan.facility().state.original_commitment, Money::from_major(300_000));
    assert_eq!(loan.facility().config.financial_terms.term_months, Some(360));
}

#[test]
fn test_personal_loan_disbursement() {
    let time = test_provider();

    let mut loan = TermLoan::builder()
        .loan_type(TermLoanType::PersonalLoan)
        .amount(Money::from_major(10_000))
        .rate(Rate::from_percentage(12))
        .term_months(36)
        .build_with_time(&time)
        .unwrap();

    let disbursed = loan.originate_and_disburse(&time).unwrap();

    assert_eq!(disbursed, Money::from_major(10_000));
    assert_eq!(loan.facility().state.outstanding_principal, Money::from_major(10_000));
    assert_eq!(loan.facility().state.status, FacilityStatus::Active);
    assert!(loan.schedule().is_some());
}

#[test]
fn test_auto_loan_with_balloon() {
    let time = test_provider();

    let loan = TermLoan::builder()
        .loan_type(TermLoanType::AutoLoan)
        .amount(Money::from_major(30_000))
        .rate(Rate::from_percentage(6))
        .term_months(60)
        .vehicle_value(Money::from_major(35_000))
        .balloon_percentage(Rate::from_atoms(30 * 100_000_000))
        .build_with_time(&time)
        .unwrap();

    assert_eq!(
        loan.facility().config.financial_terms.balloon_payment,
        Some(Money::from_major(9_000))
    );
}

#[test]
fn test_payment_processing() {
    let time = test_provider();
    let control = time.test_control().unwrap();

    let mut loan = TermLoan::builder()
        .loan_type(TermLoanType::PersonalLoan)
        .amount(Money::from_major(10_000))
        .rate(Rate::from_percentage(12))
        .term_months(12)
        .build_with_time(&time)
        .unwrap();

    loan.originate_and_disburse(&time).unwrap();

    control.advance(Duration::days(30));

    loan.process_scheduled_payment(&time).unwrap();

    assert_eq!(loan.current_payment_number, 1);
    assert!(loan.facility().state.outstanding_principal.atoms < Money::from_major(10_000).atoms);
    assert_eq!(loan.facility().state.payment_count, 1);
}

#[test]
fn test_missed_payment_handling() {
    let time = test_provider();
    let control = time.test_control().unwrap();

    let mut loan = TermLoan::builder()
        .loan_type(TermLoanType::PersonalLoan)
        .amount(Money::from_major(5_000))
        .rate(Rate::from_percentage(15))
        .term_months(24)
        .build_with_time(&time)
        .unwrap();

    loan.originate_and_disburse(&time).unwrap();

    let payment_due = loan.facility().state.next_payment_due.unwrap();
    let start = timestamp_from_ymd(2024, 1, 1);
    let days_until_due = (payment_due - start) / 86_400;

    control.advance(Duration::days(days_until_due));
    loan.facility_mut().update_daily_status(&time).unwrap();
    assert_eq!(loan.facility().state.status, FacilityStatus::Active);

    control.advance(Duration::days(1));
    loan.facility_mut().update_daily_status(&time).unwrap();
    assert_eq!(loan.facility().state.status, FacilityStatus::GracePeriod);
    assert_eq!(loan.facility().state.days_past_due, 1);

    control.advance(Duration::days(9));
    loan.facility_mut().update_daily_status(&time).unwrap();
    assert_eq!(loan.facility().state.status, FacilityStatus::GracePeriod);
    assert_eq!(loan.facility().state.days_past_due, 10);

    control.advance(Duration::days(1));
    loan.facility_mut().update_daily_status(&time).unwrap();
    assert_eq!(loan.facility().state.status, FacilityStatus::Delinquent);
    assert_eq!(loan.facility().state.days_past_due, 11);

    assert!(loan.facility().state.accrued_fees.atoms > 0);
}

#[test]
fn test_grace_period_transitions_with_time() {
    let time = test_provider();
    let control = time.test_control().unwrap();

    let mut loan = TermLoan::builder()
        .loan_type(TermLoanType::PersonalLoan)
        .amount(Money::from_major(10_000))
        .rate(Rate::from_percentage(12))
        .term_months(12)
        .build_with_time(&time)
        .unwrap();

    loan.originate_and_disburse(&time).unwrap();

    let payment_due = loan.facility().state.next_payment_due.unwrap();
    let start = timestamp_from_ymd(2024, 1, 1);
    let days_until_due = (payment_due - start) / 86_400;
    control.advance(Duration::days(days_until_due));

    let mut daily_interest_balances = Vec::new();

    for day in 1u32..=15 {
        control.advance(Duration::days(1));
        loan.facility_mut().update_daily_status(&time).unwrap();

        daily_interest_balances.push(loan.facility().state.accrued_interest);

        if day <= 10 {
            assert_eq!(loan.facility().state.status, FacilityStatus::GracePeriod);
            assert_eq!(loan.facility().state.days_past_due, day);
        } else {
            assert_eq!(loan.facility().state.status, FacilityStatus::Delinquent);
            assert_eq!(loan.facility().state.days_past_due, day);
        }
    }

    for i in 1..daily_interest_balances.len() {
        assert!(daily_interest_balances[i].atoms > daily_interest_balances[i - 1].atoms);
    }

    assert!(loan.facility().state.accrued_penalties.atoms > 0);
}

#[test]
fn test_open_term_creation() {
    let time = test_provider();

    let mut loan = OpenTermLoan::builder()
        .amount(Money::from_major(50_000))
        .rate(Rate::from_percentage(5))
        .btc_collateral(Money::from_major(2))
        .btc_price(Money::from_major(50_000))
        .account_number("BTC-001".to_string())
        .customer_id("CUST-123".to_string())
        .build_with_time(&time)
        .unwrap();

    assert_eq!(loan.facility().state.original_commitment, Money::from_major(50_000));
    assert_eq!(loan.btc_collateral(), Money::from_major(2));

    let initial_ltv = loan.calculate_ltv();
    assert!(initial_ltv.atoms < Rate::from_percentage(1).atoms);

    loan.originate_and_disburse(&time).unwrap();

    let final_ltv = loan.calculate_ltv();
    assert!(final_ltv.atoms >= Rate::from_percentage(50).atoms);
    assert!(final_ltv.atoms <= Rate::from_percentage(51).atoms);
}

#[test]
fn test_no_payment_schedule() {
    let time = test_provider();

    let mut loan = OpenTermLoan::builder()
        .amount(Money::from_major(50_000))
        .rate(Rate::from_percentage(5))
        .btc_collateral(Money::from_major(2))
        .btc_price(Money::from_major(50_000))
        .build_with_time(&time)
        .unwrap();

    loan.originate_and_disburse(&time).unwrap();

    assert!(loan.facility().state.next_payment_due.is_none());
    assert!(loan.facility().state.next_payment_amount.is_none());
    assert!(loan.facility().state.minimum_payment_due.is_none());
}

#[test]
fn test_interest_accrual_without_payment_requirement() {
    let time = test_provider();
    let control = time.test_control().unwrap();

    let mut loan = OpenTermLoan::builder()
        .amount(Money::from_major(50_000))
        .rate(Rate::from_percentage(5))
        .btc_collateral(Money::from_major(2))
        .btc_price(Money::from_major(50_000))
        .build_with_time(&time)
        .unwrap();

    loan.originate_and_disburse(&time).unwrap();

    for _ in 0..365 {
        control.advance(Duration::days(1));
        loan.accrue_interest(&time).unwrap();
    }

    assert_eq!(loan.facility().state.status, FacilityStatus::Active);
    assert!(loan.facility().state.accrued_interest.atoms > 0);
    assert_eq!(loan.facility().state.days_past_due, 0);
}

#[test]
fn open_term_test_ltv_monitoring() {
    let time = test_provider();

    let mut loan = OpenTermLoan::builder()
        .amount(Money::from_major(50_000))
        .rate(Rate::from_percentage(5))
        .btc_collateral(Money::from_major(2))
        .btc_price(Money::from_major(50_000))
        .build_with_time(&time)
        .unwrap();

    loan.originate_and_disburse(&time).unwrap();

    let ltv = loan.calculate_ltv();
    assert!(ltv.atoms >= Rate::from_percentage(50).atoms);
    assert!(ltv.atoms <= Rate::from_percentage(51).atoms);

    let status = loan.update_btc_price(Money::from_major(35_000), &time).unwrap();

    assert!(loan.calculate_ltv().atoms > Rate::from_percentage(70).atoms);
    assert_eq!(status, credit_engine::types::LtvStatus::MarginCall);
    assert!(loan.is_margin_call_active());
}

#[test]
fn test_margin_call_resolution() {
    let time = test_provider();

    let mut loan = OpenTermLoan::builder()
        .amount(Money::from_major(50_000))
        .rate(Rate::from_percentage(5))
        .btc_collateral(Money::from_major(2))
        .btc_price(Money::from_major(35_000))
        .build_with_time(&time)
        .unwrap();

    loan.originate_and_disburse(&time).unwrap();

    let price = loan.btc_price();
    loan.update_btc_price(price, &time).unwrap();
    assert!(loan.is_margin_call_active());

    loan.add_collateral(Money::from_minor(5, 1), &time).unwrap();

    assert!(!loan.is_margin_call_active());
    assert!(loan.calculate_ltv().atoms < Rate::from_percentage(65).atoms);
}

#[test]
fn test_optional_payments() {
    let time = test_provider();
    let control = time.test_control().unwrap();

    let mut loan = OpenTermLoan::builder()
        .amount(Money::from_major(50_000))
        .rate(Rate::from_percentage(5))
        .btc_collateral(Money::from_major(2))
        .btc_price(Money::from_major(50_000))
        .build_with_time(&time)
        .unwrap();

    loan.originate_and_disburse(&time).unwrap();

    for _ in 0..30 {
        control.advance(Duration::days(1));
        loan.accrue_interest(&time).unwrap();
    }

    let interest_before = loan.facility().state.accrued_interest;

    loan.process_payment(Money::from_major(1_000), &time).unwrap();

    assert!(loan.facility().state.accrued_interest.atoms < interest_before.atoms);
}

#[test]
fn test_payoff_and_release() {
    let time = test_provider();
    let control = time.test_control().unwrap();

    let mut loan = OpenTermLoan::builder()
        .amount(Money::from_major(50_000))
        .rate(Rate::from_percentage(5))
        .btc_collateral(Money::from_major(2))
        .btc_price(Money::from_major(50_000))
        .build_with_time(&time)
        .unwrap();

    loan.originate_and_disburse(&time).unwrap();

    control.advance(Duration::days(90));
    loan.accrue_interest(&time).unwrap();

    let btc_released = loan.payoff_and_release(&time).unwrap();

    assert_eq!(btc_released, Money::from_major(2));
    assert_eq!(loan.facility().state.status, FacilityStatus::Settled);
    assert_eq!(loan.facility().state.total_outstanding(), Money::zero());
}

#[test]
fn test_perpetual_loan_5_years() {
    let time = test_provider();
    let control = time.test_control().unwrap();

    let mut loan = OpenTermLoan::builder()
        .amount(Money::from_major(50_000))
        .rate(Rate::from_percentage(5))
        .btc_collateral(Money::from_major(2))
        .btc_price(Money::from_major(50_000))
        .build_with_time(&time)
        .unwrap();

    loan.originate_and_disburse(&time).unwrap();

    for _ in 0..1825 {
        control.advance(Duration::days(1));
        loan.accrue_interest(&time).unwrap();
    }

    assert_eq!(loan.facility().state.status, FacilityStatus::Active);
    assert!(loan.facility().state.accrued_interest.atoms > Money::from_major(12_500).atoms);

    let payoff = loan.total_payoff_amount();
    assert!(payoff.atoms > Money::from_major(62_500).atoms);
}

#[test]
fn test_credit_card_creation() {
    let time = test_provider();

    let card = RevolvingFacility::builder()
        .facility_type(RevolvingType::CreditCard)
        .credit_limit(Money::from_major(10_000))
        .rate(Rate::from_percentage(18))
        .minimum_percentage(Rate::from_atoms(2_000_000))
        .build_with_time(&time)
        .unwrap();

    assert_eq!(card.credit_limit(), Money::from_major(10_000));
    assert_eq!(card.available_credit(), Money::from_major(10_000));
    assert_eq!(card.utilization_rate(), Rate::from_percentage(0));
}

#[test]
fn test_draw_and_repay_cycle() {
    let time = test_provider();
    let control = time.test_control().unwrap();

    let mut card = RevolvingFacility::builder()
        .facility_type(RevolvingType::CreditCard)
        .credit_limit(Money::from_major(10_000))
        .rate(Rate::from_percentage(18))
        .build_with_time(&time)
        .unwrap();

    card.activate(&time).unwrap();

    let drawn = card.draw(Money::from_major(3_000), &time).unwrap();
    assert_eq!(drawn, Money::from_major(3_000));
    assert_eq!(card.available_credit(), Money::from_major(7_000));
    assert_eq!(card.utilization_rate(), Rate::from_percentage(30));

    control.advance(Duration::days(30));
    card.facility_mut().accrue_interest(&time).unwrap();

    card.process_payment(Money::from_major(1_000), &time).unwrap();

    assert!(card.available_credit().atoms > Money::from_major(7_000).atoms);

    card.draw(Money::from_major(500), &time).unwrap();
    assert!(card.available_credit().atoms >= Money::from_major(7_400).atoms);
}

#[test]
fn test_utilization_states() {
    let time = test_provider();

    let mut card = RevolvingFacility::builder()
        .facility_type(RevolvingType::CreditCard)
        .credit_limit(Money::from_major(10_000))
        .rate(Rate::from_percentage(18))
        .build_with_time(&time)
        .unwrap();

    card.activate(&time).unwrap();

    assert_eq!(card.utilization_state(), UtilizationState::Unused);

    card.draw(Money::from_major(2_000), &time).unwrap();
    assert_eq!(card.utilization_state(), UtilizationState::Low);

    card.draw(Money::from_major(3_000), &time).unwrap();
    assert_eq!(card.utilization_state(), UtilizationState::Moderate);

    card.draw(Money::from_major(3_000), &time).unwrap();
    assert_eq!(card.utilization_state(), UtilizationState::High);

    card.draw(Money::from_major(1_500), &time).unwrap();
    assert_eq!(card.utilization_state(), UtilizationState::Maxed);
}

#[test]
fn test_overlimit_handling() {
    let time = test_provider();

    let mut card = RevolvingFacility::builder()
        .facility_type(RevolvingType::CreditCard)
        .credit_limit(Money::from_major(1_000))
        .rate(Rate::from_percentage(18))
        .build_with_time(&time)
        .unwrap();

    card.activate(&time).unwrap();

    card.draw(Money::from_major(1_000), &time).unwrap();
    assert_eq!(card.available_credit(), Money::zero());

    card.draw(Money::from_major(50), &time).unwrap();
    assert!(card.is_overlimit());
    assert_eq!(card.utilization_state(), UtilizationState::Overlimit);

    assert!(card.facility().state.accrued_fees.atoms > 0);

    let result = card.draw(Money::from_major(100), &time);
    assert!(result.is_err());
}

#[test]
fn test_minimum_payment_calculation() {
    let time = test_provider();
    let control = time.test_control().unwrap();

    let mut card = RevolvingFacility::builder()
        .facility_type(RevolvingType::CreditCard)
        .credit_limit(Money::from_major(10_000))
        .rate(Rate::from_percentage(18))
        .minimum_percentage(Rate::from_atoms(2_000_000))
        .build_with_time(&time)
        .unwrap();

    card.activate(&time).unwrap();
    card.draw(Money::from_major(1_000), &time).unwrap();

    control.advance(Duration::days(30));
    card.facility_mut().accrue_interest(&time).unwrap();

    let minimum = card.calculate_minimum_payment();

    let expected = Money::from_major(20).add(card.facility().state.accrued_interest);
    assert!(minimum.atoms >= expected.atoms);
    assert!(minimum.atoms >= Money::from_major(25).atoms);
}

#[test]
fn test_commitment_fee() {
    let time = test_provider();

    let mut loc = RevolvingFacility::builder()
        .facility_type(RevolvingType::LineOfCredit)
        .credit_limit(Money::from_major(500_000))
        .rate(Rate::from_percentage(8))
        .commitment_fee_rate(Rate::from_atoms(500_000))
        .build_with_time(&time)
        .unwrap();

    loc.activate(&time).unwrap();

    loc.draw(Money::from_major(200_000), &time).unwrap();

    let initial_fees = loc.facility().state.accrued_fees;

    loc.charge_commitment_fee(&time).unwrap();

    // 300,000 undrawn at half a percent annually, for one month
    let expected_commitment_fee = Money::from_major(300_000)
        .times(Rate::from_atoms(500_000))
        .atoms
        / 12;
    assert_eq!(
        loc.facility().state.accrued_fees.atoms - initial_fees.atoms,
        expected_commitment_fee
    );
}

#[test]
fn test_credit_limit_change() {
    let time = test_provider();

    let mut card = RevolvingFacility::builder()
        .facility_type(RevolvingType::CreditCard)
        .credit_limit(Money::from_major(10_000))
        .rate(Rate::from_percentage(18))
        .build_with_time(&time)
        .unwrap();

    card.activate(&time).unwrap();
    card.draw(Money::from_major(4_000), &time).unwrap();

    card.change_credit_limit(Money::from_major(15_000), &time).unwrap();
    assert_eq!(card.credit_limit(), Money::from_major(15_000));
    assert_eq!(card.available_credit(), Money::from_major(11_000));

    card.change_credit_limit(Money::from_major(3_000), &time).unwrap();
    assert!(card.is_overlimit());
    assert_eq!(card.available_credit(), Money::zero());
}

#[test]
fn test_heloc_draw_period() {
    let time = test_provider();

    let mut heloc = RevolvingFacility::builder()
        .facility_type(RevolvingType::Heloc)
        .credit_limit(Money::from_major(100_000))
        .rate(Rate::from_percentage(6))
        .property_value(Money::from_major(400_000))
        .draw_period_months(120)
        .repayment_period_months(240)
        .build_with_time(&time)
        .unwrap();

    heloc.activate(&time).unwrap();

    assert!(heloc.is_in_draw_period());
    heloc.draw(Money::from_major(50_000), &time).unwrap();

    heloc.end_draw_period(&time).unwrap();
    assert!(!heloc.is_in_draw_period());

    let result = heloc.draw(Money::from_major(10_000), &time);
    assert!(result.is_err());

    let minimum = heloc.calculate_minimum_payment();
    assert!(minimum.atoms > Money::from_major(750).atoms);
}

#[test]
fn test_overdraft_activation() {
    let time = test_provider();

    let mut overdraft = OverdraftBuilder::new()
        .overdraft_limit(Money::from_major(1000))
        .rate(Rate::from_percentage(20))
        .buffer_zone(Money::from_major(50))
        .linked_account_id("ACC-123".to_string())
        .build_with_time(&time)
        .unwrap();

    overdraft
        .process_account_transaction(Money::from_major(500), &time)
        .unwrap();
    assert_eq!(overdraft.linked_account_balance(), Money::from_major(500));
    assert!(!overdraft.is_active());

    let balance = overdraft
        .process_account_transaction(Money::from_major(-600), &time)
        .unwrap();
    assert_eq!(balance, Money::from_major(-100));
    assert!(overdraft.is_active());
    assert_eq!(overdraft.facility().state.outstanding_principal, Money::from_major(100));
}

#[test]
fn test_buffer_zone() {
    let time = test_provider();

    let mut overdraft = OverdraftBuilder::new()
        .overdraft_limit(Money::from_major(1000))
        .rate(Rate::from_percentage(20))
        .buffer_zone(Money::from_major(50))
        .linked_account_id("ACC-123".to_string())
        .build_with_time(&time)
        .unwrap();

    overdraft
        .process_account_transaction(Money::from_major(-30), &time)
        .unwrap();
    assert_eq!(overdraft.od_state(), OverdraftState::BufferZone);

    overdraft
        .process_account_transaction(Money::from_major(-40), &time)
        .unwrap();
    assert_eq!(overdraft.od_state(), OverdraftState::Active);
    assert_eq!(overdraft.facility().state.outstanding_principal, Money::from_major(70));
}

#[test]
fn test_continuous_interest() {
    let time = test_provider();
    let control = time.test_control().unwrap();

    let mut overdraft = OverdraftBuilder::new()
        .overdraft_limit(Money::from_major(1000))
        .rate(Rate::from_percentage(20))
        .buffer_zone(Money::from_major(50))
        .linked_account_id("ACC-123".to_string())
        .build_with_time(&time)
        .unwrap();

    overdraft
        .process_account_transaction(Money::from_major(-500), &time)
        .unwrap();

    for _ in 0..5 {
        control.advance(Duration::days(1));
        overdraft.accrue_interest(&time).unwrap();
    }

    assert!(overdraft.facility().state.accrued_interest.atoms > 0);

    // continuous compounding runs slightly ahead of simple interest
    let simple_daily = Money::from_major(500).apply_rate(Rate::from_percentage(20), 1);
    let total_simple = simple_daily.atoms * 5;
    assert!(overdraft.facility().state.accrued_interest.atoms > total_simple);
}

#[test]
fn test_overdraft_clearing() {
    let time = test_provider();

    let mut overdraft = OverdraftBuilder::new()
        .overdraft_limit(Money::from_major(1000))
        .rate(Rate::from_percentage(20))
        .buffer_zone(Money::from_major(50))
        .linked_account_id("ACC-123".to_string())
        .build_with_time(&time)
        .unwrap();

    overdraft
        .process_account_transaction(Money::from_major(-200), &time)
        .unwrap();
    assert!(overdraft.is_active());

    overdraft
        .process_account_transaction(Money::from_major(250), &time)
        .unwrap();
    assert!(!overdraft.is_active());
    assert_eq!(overdraft.linked_account_balance(), Money::from_major(50));
    assert_eq!(overdraft.facility().state.outstanding_principal, Money::zero());
}

#[test]
fn test_overdraft_limit_exceeded() {
    let time = test_provider();

    let mut overdraft = OverdraftBuilder::new()
        .overdraft_limit(Money::from_major(1000))
        .rate(Rate::from_percentage(20))
        .buffer_zone(Money::from_major(50))
        .linked_account_id("ACC-123".to_string())
        .build_with_time(&time)
        .unwrap();

    let result = overdraft.process_account_transaction(Money::from_major(-1200), &time);
    assert!(result.is_err());

    assert_eq!(overdraft.linked_account_balance(), Money::zero());
}

#[test]
fn test_effective_balance() {
    let time = test_provider();

    let mut overdraft = OverdraftBuilder::new()
        .overdraft_limit(Money::from_major(1000))
        .rate(Rate::from_percentage(20))
        .buffer_zone(Money::from_major(50))
        .linked_account_id("ACC-123".to_string())
        .build_with_time(&time)
        .unwrap();

    overdraft
        .process_account_transaction(Money::from_major(500), &time)
        .unwrap();
    assert_eq!(overdraft.effective_balance(), Money::from_major(1500));
    assert_eq!(overdraft.available_funds(), Money::from_major(1500));

    overdraft
        .process_account_transaction(Money::from_major(-700), &time)
        .unwrap();
    assert_eq!(overdraft.effective_balance(), Money::from_major(800));
    assert_eq!(overdraft.available_funds(), Money::from_major(800));
}

#[test]
fn test_negative_payment_yields_validation_error() {
    let time = test_provider();

    let mut loan = TermLoan::builder()
        .loan_type(TermLoanType::PersonalLoan)
        .amount(Money::from_major(10_000))
        .rate(Rate::from_percentage(12))
        .term_months(12)
        .build_with_time(&time)
        .unwrap();
    loan.originate_and_disburse(&time).unwrap();

    let before = loan.facility().state.outstanding_principal;
    let r = loan.process_payment(Money::from_major(-50), &time);
    assert!(matches!(
        r,
        Err(credit_engine::errors::FacilityError::InvalidPaymentAmount { .. })
    ));
    assert_eq!(loan.facility().state.outstanding_principal, before);
}
