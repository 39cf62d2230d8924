use chrono::{TimeZone, Utc};
use credit_engine::dates::timestamp_from_ymd;
use credit_engine::events::EventStore;
use credit_engine::money::{Money, Rate};
use credit_engine::payments::amortization::{
    AmortizationSchedule, RecalculationStrategy,
};
use credit_engine::payments::overpayment::{
    calculate_emi, calculate_term_for_emi, BalloonPaymentCalculator, LoanParameters,
    OverpaymentHandler,
};
use credit_engine::payments::waterfall::{
    CardBalanceType, CreditCardWaterfall, MortgageWaterfall, PaymentProcessor,
    PaymentWaterfall,
};
use credit_engine::payments::{PaymentContext, PaymentRequest, SuspenseAccount};
use credit_engine::types::{AmortizationMethod, FacilityId, OverpaymentStrategy};
use hourglass_rs::{SafeTimeProvider, TimeSource};

fn test_provider() -> SafeTimeProvider {
    SafeTimeProvider::new(TimeSource::Test(
        Utc.with_ymd_and_hms(2024, 1, 1, 0, 0, 0).unwrap(),
    ))
}

fn fid() -> FacilityId {
    FacilityId { value: 7 }
}

fn create_test_context() -> PaymentContext {
    PaymentContext {
        facility_id: fid(),
        accrued_fees: Money::from_major(50),
        accrued_penalties: Money::from_major(25),
        accrued_interest: Money::from_major(100),
        outstanding_principal: Money::from_major(1000),
        minimum_payment: None,
        payment_due_date: None,
        days_overdue: 0,
    }
}

fn request(amount: Money) -> PaymentRequest {
    PaymentRequest {
        facility_id: fid(),
        amount,
        payment_date: timestamp_from_ymd(2024, 1, 1),
        reference: String::new(),
        is_principal_only: false,
    }
}

#[test]
fn test_standard_waterfall() {
    let processor = PaymentProcessor::new(PaymentWaterfall::standard());
    let mut context = create_test_context();
    let mut events = EventStore::new();
    let time = test_provider();

    let result = processor
        .process(request(Money::from_major(125)), &mut context, &time, &mut events)
        .unwrap();

    assert_eq!(result.application.to_fees, Money::from_major(50));
    assert_eq!(result.application.to_penalties, Money::from_major(25));
    assert_eq!(result.application.to_interest, Money::from_major(50));
    assert_eq!(result.application.to_principal, Money::zero());
    assert_eq!(result.application.excess, Money::zero());

    assert_eq!(context.accrued_fees, Money::zero());
    assert_eq!(context.accrued_penalties, Money::zero());
    assert_eq!(context.accrued_interest, Money::from_major(50));
    assert_eq!(context.outstanding_principal, Money::from_major(1000));
}

#[test]
fn test_waterfall_with_overpayment() {
    let processor = PaymentProcessor::new(PaymentWaterfall::standard());
    let mut context = create_test_context();
    let mut events = EventStore::new();
    let time = test_provider();

    let result = processor
        .process(request(Money::from_major(1300)), &mut context, &time, &mut events)
        .unwrap();

    assert_eq!(result.application.to_fees, Money::from_major(50));
    assert_eq!(result.application.to_penalties, Money::from_major(25));
    assert_eq!(result.application.to_interest, Money::from_major(100));
    assert_eq!(result.application.to_principal, Money::from_major(1000));
    assert_eq!(result.application.excess, Money::from_major(125));

    assert_eq!(context.total_outstanding(), Money::zero());
}

#[test]
fn test_interest_first_waterfall() {
    let processor = PaymentProcessor::new(PaymentWaterfall::interest_first());
    let mut context = create_test_context();
    let mut events = EventStore::new();
    let time = test_provider();

    let result = processor
        .process(request(Money::from_major(125)), &mut context, &time, &mut events)
        .unwrap();

    assert_eq!(result.application.to_interest, Money::from_major(100));
    assert_eq!(result.application.to_fees, Money::from_major(25));
    assert_eq!(result.application.to_penalties, Money::zero());
    assert_eq!(result.application.to_principal, Money::zero());
}

#[test]
fn test_payment_context_validation() {
    let context = PaymentContext {
        facility_id: fid(),
        accrued_fees: Money::from_major(50),
        accrued_penalties: Money::from_major(25),
        accrued_interest: Money::from_major(100),
        outstanding_principal: Money::from_major(10_000),
        minimum_payment: Some(Money::from_major(200)),
        payment_due_date: None,
        days_overdue: 0,
    };

    assert!(context.validate_payment(Money::zero()).is_err());
    assert!(context.validate_payment(Money::from_major(150)).is_err());
    assert!(context.validate_payment(Money::from_major(200)).is_ok());
    assert!(context.validate_payment(context.total_outstanding()).is_ok());
}

#[test]
fn test_suspense_account() {
    let mut suspense = SuspenseAccount::new(fid());
    let now = timestamp_from_ymd(2024, 1, 1);

    suspense.add_deposit(Money::from_major(50), now, String::new());
    suspense.add_deposit(Money::from_major(75), now, String::new());

    assert_eq!(suspense.balance, Money::from_major(125));
    assert_eq!(suspense.deposits.len(), 2);

    assert!(!suspense.can_release(Money::from_major(200)));
    assert!(suspense.can_release(Money::from_major(125)));

    let released = suspense.release_funds();
    assert_eq!(released, Money::from_major(125));
    assert_eq!(suspense.balance, Money::zero());
    assert!(suspense.deposits.is_empty());
}

#[test]
fn test_equal_installments_schedule() {
    let principal = Money::from_major(100_000);
    let rate = Rate::from_percentage(12);
    let start_date = timestamp_from_ymd(2024, 1, 1);

    let schedule = AmortizationSchedule::generate(
        fid(),
        principal,
        rate,
        12,
        start_date,
        AmortizationMethod::EqualInstallments,
    )
    .unwrap();

    assert_eq!(schedule.payments.len(), 12);

    let first = &schedule.payments[0];
    assert_eq!(first.beginning_balance, principal);
    assert!(first.interest_portion.atoms > 0);
    assert!(first.principal_portion.atoms > 0);

    let last = &schedule.payments[11];
    assert!(last.ending_balance.atoms < Money::from_major(1).atoms);

    let emi = schedule.payments[0].payment_amount;
    for payment in &schedule.payments[..11] {
        let diff = payment.payment_amount.sub(emi).abs();
        assert!(diff.atoms < Money::from_major(1).atoms);
    }
}

#[test]
fn test_declining_principal_schedule() {
    let principal = Money::from_major(100_000);
    let rate = Rate::from_percentage(12);
    let start_date = timestamp_from_ymd(2024, 1, 1);

    let schedule = AmortizationSchedule::generate(
        fid(),
        principal,
        rate,
        12,
        start_date,
        AmortizationMethod::DecliningPrincipal,
    )
    .unwrap();

    let expected_principal = Money::from_atoms(principal.atoms / 12);
    for payment in &schedule.payments {
        let diff = payment.principal_portion.sub(expected_principal).abs();
        assert!(diff.atoms < Money::from_major(1).atoms);
    }

    for i in 1..schedule.payments.len() {
        assert!(
            schedule.payments[i].interest_portion.atoms
                < schedule.payments[i - 1].interest_portion.atoms
        );
    }
}

#[test]
fn test_interest_only_schedule() {
    let principal = Money::from_major(100_000);
    let rate = Rate::from_percentage(12);
    let start_date = timestamp_from_ymd(2024, 1, 1);

    let schedule = AmortizationSchedule::generate(
        fid(),
        principal,
        rate,
        12,
        start_date,
        AmortizationMethod::InterestOnly,
    )
    .unwrap();

    for payment in &schedule.payments[..11] {
        assert_eq!(payment.principal_portion, Money::zero());
        assert_eq!(payment.ending_balance, principal);
    }

    let last = &schedule.payments[11];
    assert_eq!(last.principal_portion, principal);
    assert_eq!(last.ending_balance, Money::zero());
}

#[test]
fn test_recalculation_after_prepayment() {
    let principal = Money::from_major(100_000);
    let rate = Rate::from_percentage(12);
    let start_date = timestamp_from_ymd(2024, 1, 1);

    let mut schedule = AmortizationSchedule::generate(
        fid(),
        principal,
        rate,
        24,
        start_date,
        AmortizationMethod::EqualInstallments,
    )
    .unwrap();

    let original_emi = schedule.payments[0].payment_amount;
    let original_total = schedule.total_payment;

    schedule
        .recalculate_after_prepayment(
            Money::from_major(20_000),
            6,
            RecalculationStrategy::ReduceEmi,
        )
        .unwrap();

    assert!(schedule.payments[6].payment_amount.atoms < original_emi.atoms);
    assert!(schedule.total_payment.atoms < original_total.atoms);
}

#[test]
fn test_emi_calculation() {
    let principal = Money::from_major(100_000);
    let rate = Rate::from_percentage(12);

    let emi = calculate_emi(principal, rate, 12).unwrap();
    assert!(emi.atoms > Money::from_major(8800).atoms);
    assert!(emi.atoms < Money::from_major(8900).atoms);
}

#[test]
fn test_emi_zero_interest() {
    let principal = Money::from_major(12_000);
    let rate = Rate::from_percentage(0);

    let emi = calculate_emi(principal, rate, 12).unwrap();
    assert_eq!(emi, Money::from_major(1000));
}

#[test]
fn test_term_calculation() {
    let principal = Money::from_major(100_000);
    let rate = Rate::from_percentage(12);
    let emi = Money::from_major(10_000);

    let term = calculate_term_for_emi(principal, rate, emi);
    assert!(term >= 10);
    assert!(term <= 12);
}

fn overpayment_context() -> PaymentContext {
    PaymentContext {
        facility_id: fid(),
        accrued_fees: Money::zero(),
        accrued_penalties: Money::zero(),
        accrued_interest: Money::zero(),
        outstanding_principal: Money::from_major(100_000),
        minimum_payment: None,
        payment_due_date: None,
        days_overdue: 0,
    }
}

#[test]
fn test_reduce_principal_strategy() {
    let handler = OverpaymentHandler::new(fid(), OverpaymentStrategy::ReducePrincipal);
    let mut context = overpayment_context();
    let loan_params = LoanParameters {
        interest_rate: Rate::from_percentage(10),
        remaining_months: 120,
        emi_amount: Money::from_major(1000),
        credit_limit: None,
        maturity_date: None,
    };
    let time = test_provider();
    let mut events = EventStore::new();

    let result = handler
        .handle(Money::from_major(10_000), &mut context, &loan_params, &time, &mut events)
        .unwrap();

    assert_eq!(result.old_principal, Money::from_major(100_000));
    assert_eq!(result.new_principal, Money::from_major(90_000));
    assert_eq!(context.outstanding_principal, Money::from_major(90_000));
}

#[test]
fn test_reduce_emi_strategy() {
    let handler = OverpaymentHandler::new(fid(), OverpaymentStrategy::ReduceEmi);
    let mut context = overpayment_context();
    let loan_params = LoanParameters {
        interest_rate: Rate::from_percentage(10),
        remaining_months: 120,
        emi_amount: Money::from_major(1322),
        credit_limit: None,
        maturity_date: None,
    };
    let time = test_provider();
    let mut events = EventStore::new();

    let result = handler
        .handle(Money::from_major(10_000), &mut context, &loan_params, &time, &mut events)
        .unwrap();

    assert_eq!(result.new_principal, Money::from_major(90_000));
    assert!(result.new_emi.unwrap().atoms < result.old_emi.unwrap().atoms);
}

#[test]
fn test_reduce_term_strategy() {
    let handler = OverpaymentHandler::new(fid(), OverpaymentStrategy::ReduceTerm);
    let mut context = overpayment_context();
    let loan_params = LoanParameters {
        interest_rate: Rate::from_percentage(10),
        remaining_months: 120,
        emi_amount: Money::from_major(1322),
        credit_limit: None,
        maturity_date: None,
    };
    let time = test_provider();
    let mut events = EventStore::new();

    let result = handler
        .handle(Money::from_major(10_000), &mut context, &loan_params, &time, &mut events)
        .unwrap();

    assert_eq!(result.new_principal, Money::from_major(90_000));
    assert!(result.new_term_months.unwrap() < result.old_term_months.unwrap());
    assert_eq!(result.old_emi, result.new_emi);
}

#[test]
fn test_balloon_payment() {
    let original = Money::from_major(100_000);
    let payment = Money::from_major(500);
    let rate = Rate::from_percentage(5);

    let balloon = BalloonPaymentCalculator::calculate(original, payment, rate, 60, 59);
    assert!(balloon.atoms > Money::from_major(80_000).atoms);
}

#[test]
fn test_zero_payment_is_rejected_and_changes_nothing() {
    let processor = PaymentProcessor::new(PaymentWaterfall::standard());
    let mut context = create_test_context();
    let before = context.clone();
    let mut events = EventStore::new();
    let time = test_provider();

    let result = processor.process(request(Money::zero()), &mut context, &time, &mut events);
    assert!(result.is_err());
    assert_eq!(context, before);
    assert_eq!(events.len(), 0);
}

#[test]
fn test_schedule_principal_portions_sum_to_principal() {
    let principal = Money::from_major(10_000);
    let rate = Rate::from_percentage(8);
    let start_date = timestamp_from_ymd(2024, 1, 1);

    let schedule = AmortizationSchedule::generate(
        fid(),
        principal,
        rate,
        12,
        start_date,
        AmortizationMethod::EqualInstallments,
    )
    .unwrap();

    let mut sum: i128 = 0;
    for p in &schedule.payments {
        sum += p.principal_portion.atoms;
    }
    // the portions repay the principal to within the eight-digit residue
    let drift = (sum - principal.atoms).abs();
    assert!(drift < Money::from_major(1).atoms as i128);
    assert_eq!(schedule.payments.last().unwrap().ending_balance, Money::zero());
}

#[test]
fn test_zero_rate_schedule_is_exact() {
    let principal = Money::from_major(12_000);
    let start_date = timestamp_from_ymd(2024, 1, 1);

    let schedule = AmortizationSchedule::generate(
        fid(),
        principal,
        Rate::zero(),
        12,
        start_date,
        AmortizationMethod::EqualInstallments,
    )
    .unwrap();

    for p in &schedule.payments {
        assert_eq!(p.interest_portion, Money::zero());
        assert_eq!(p.payment_amount, Money::from_major(1000));
    }
}

#[test]
fn test_reduce_term_with_zero_overpayment_keeps_schedule() {
    let handler = OverpaymentHandler::new(fid(), OverpaymentStrategy::ReducePrincipal);
    let mut context = overpayment_context();
    let before = context.clone();
    let loan_params = LoanParameters {
        interest_rate: Rate::from_percentage(10),
        remaining_months: 120,
        emi_amount: Money::from_major(1322),
        credit_limit: None,
        maturity_date: None,
    };
    let time = test_provider();
    let mut events = EventStore::new();

    let result = handler
        .handle(Money::zero(), &mut context, &loan_params, &time, &mut events)
        .unwrap();
    assert_eq!(result.new_principal, before.outstanding_principal);
    assert_eq!(context.outstanding_principal, before.outstanding_principal);
}

#[test]
fn test_mortgage_with_escrow() {
    let waterfall = MortgageWaterfall::new(true);
    let mut context = create_test_context();

    let escrow_shortage = Money::from_major(100);
    let escrow_payment = Money::from_major(200);

    let application = waterfall.process_with_escrow(
        Money::from_major(500),
        &mut context,
        escrow_shortage,
        escrow_payment,
    );

    // the escrow shortage comes first, then fees, interest and principal
    assert_eq!(application.to_fees, Money::from_major(50));
    assert_eq!(application.to_interest, Money::from_major(100));
    assert_eq!(application.to_principal, Money::from_major(250));
}

#[test]
fn test_card_balances_pay_down_in_kind_order() {
    let waterfall = CreditCardWaterfall::new();
    let mut balances = vec![
        (CardBalanceType::Promotional, Money::from_major(300)),
        (CardBalanceType::CashAdvance, Money::from_major(200)),
        (CardBalanceType::Purchase, Money::from_major(400)),
    ];

    let application = waterfall.process_by_balance_type(Money::from_major(500), &mut balances);

    // cash advances clear first, then purchases absorb the rest
    assert_eq!(balances[1].1, Money::zero());
    assert_eq!(balances[2].1, Money::from_major(100));
    assert_eq!(balances[0].1, Money::from_major(300));
    assert_eq!(application.to_principal, Money::from_major(500));
    assert_eq!(application.excess, Money::zero());
}
