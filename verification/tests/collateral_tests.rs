use chrono::{Duration, TimeZone, Utc};
use credit_engine::collateral::bitcoin::{
    should_liquidate_given, BitcoinCollateral, MockPriceFeed, PriceFeed,
};
use credit_engine::collateral::liquidation::{
    LiquidationEngine, LiquidationMethod, LiquidationStatus,
};
use credit_engine::collateral::ltv::{LtvCalculator, LtvMonitor};
use credit_engine::dates::timestamp_from_ymd;
use credit_engine::events::Event;
use credit_engine::money::{Money, Rate};
use credit_engine::types::{FacilityId, LtvStatus, LtvThresholds};
use hourglass_rs::{SafeTimeProvider, TimeSource};

fn test_provider() -> SafeTimeProvider {
    SafeTimeProvider::new(TimeSource::Test(
        Utc.with_ymd_and_hms(2024, 1, 1, 0, 0, 0).unwrap(),
    ))
}

fn fid() -> FacilityId {
    FacilityId { value: 9 }
}

fn create_test_thresholds() -> LtvThresholds {
    LtvThresholds {
        initial_ltv: Rate::from_percentage(50),
        warning_ltv: Rate::from_percentage(65),
        margin_call_ltv: Rate::from_percentage(70),
        liquidation_ltv: Rate::from_percentage(75),
    }
}

#[test]
fn test_ltv_calculation() {
    let calc = LtvCalculator::new(fid(), create_test_thresholds());

    let cvl = Money::from_major(50_000);
    let collateral = Money::from_major(100_000);

    let ltv = calc.calculate_ltv(cvl, collateral).unwrap();
    assert_eq!(ltv, Rate::from_percentage(50));
}

#[test]
fn test_ltv_status_determination() {
    let calc = LtvCalculator::new(fid(), create_test_thresholds());

    assert_eq!(calc.get_ltv_status(Rate::from_percentage(50)), LtvStatus::Healthy);
    assert_eq!(calc.get_ltv_status(Rate::from_percentage(66)), LtvStatus::Warning);
    assert_eq!(calc.get_ltv_status(Rate::from_percentage(71)), LtvStatus::MarginCall);
    assert_eq!(calc.get_ltv_status(Rate::from_percentage(76)), LtvStatus::Liquidation);
}

#[test]
fn test_required_collateral_calculation() {
    let calc = LtvCalculator::new(fid(), create_test_thresholds());

    let cvl = Money::from_major(70_000);
    let current_collateral = Money::from_major(90_000);
    let target_ltv = Rate::from_percentage(70);

    let required = calc.calculate_required_collateral(cvl, current_collateral, target_ltv);
    assert_eq!(required, Money::from_major(10_000));
}

#[test]
fn ltv_test_ltv_monitoring() {
    let time = test_provider();
    let control = time.test_control().unwrap();

    let mut monitor = LtvMonitor::new(fid(), create_test_thresholds(), 3600);

    let status = monitor
        .check_ltv(Money::from_major(50_000), Money::from_major(100_000), &time)
        .unwrap();
    assert_eq!(status, LtvStatus::Healthy);

    control.advance(Duration::hours(2));
    let status = monitor
        .check_ltv(Money::from_major(66_000), Money::from_major(100_000), &time)
        .unwrap();
    assert_eq!(status, LtvStatus::Warning);

    let events = monitor.take_events();
    assert_eq!(events.len(), 1);
}

#[test]
fn test_margin_call_lifecycle() {
    let time = test_provider();
    let control = time.test_control().unwrap();

    let mut monitor = LtvMonitor::new(fid(), create_test_thresholds(), 3600);

    control.advance(Duration::hours(2));
    let status = monitor
        .check_ltv(Money::from_major(71_000), Money::from_major(100_000), &time)
        .unwrap();
    assert_eq!(status, LtvStatus::MarginCall);
    assert!(monitor.is_margin_call_active());

    control.advance(Duration::hours(2));
    let status = monitor
        .check_ltv(Money::from_major(50_000), Money::from_major(100_000), &time)
        .unwrap();
    assert_eq!(status, LtvStatus::Healthy);
    assert!(!monitor.is_margin_call_active());

    let events = monitor.take_events();
    assert!(events.iter().any(|e| matches!(e, Event::MarginCallRequired { .. })));
    assert!(events.iter().any(|e| matches!(e, Event::MarginCallResolved { .. })));
}

#[test]
fn test_liquidation_trigger() {
    let time = test_provider();
    let mut engine = LiquidationEngine::new(fid());

    engine
        .trigger_liquidation(Money::from_major(100_000), Money::from_major(80_000), &time)
        .unwrap();

    assert_eq!(engine.status(), LiquidationStatus::GracePeriod);
    assert!(engine.grace_period_end.is_some());

    let events = engine.take_events();
    assert!(events.iter().any(|e| matches!(e, Event::LiquidationTriggered { .. })));
    assert!(events.iter().any(|e| matches!(e, Event::LiquidationPending { .. })));
}

#[test]
fn test_grace_period_expiry() {
    let time = test_provider();
    let control = time.test_control().unwrap();

    let mut engine = LiquidationEngine::new(fid());
    engine.set_grace_period(24);

    engine
        .trigger_liquidation(Money::from_major(100_000), Money::from_major(80_000), &time)
        .unwrap();

    control.advance(Duration::hours(25));

    let expired = engine.check_grace_period(&time).unwrap();
    assert!(expired);
    assert_eq!(engine.status(), LiquidationStatus::InProgress);
}

#[test]
fn test_market_liquidation() {
    let time = test_provider();
    let mut engine = LiquidationEngine::new(fid());
    engine.set_grace_period(0);

    engine
        .trigger_liquidation(Money::from_major(100_000), Money::from_major(80_000), &time)
        .unwrap();

    let result = engine
        .execute_market_liquidation(Money::from_major(80_000), Money::from_major(100_000), &time)
        .unwrap();

    assert_eq!(result.method, LiquidationMethod::MarketSale);
    assert_eq!(result.gross_proceeds, Money::from_major(76_000));
    assert!(result.deficiency.is_some());
}

#[test]
fn test_liquidation_with_surplus() {
    let time = test_provider();
    let mut engine = LiquidationEngine::new(fid());
    engine.set_grace_period(0);

    engine
        .trigger_liquidation(Money::from_major(50_000), Money::from_major(100_000), &time)
        .unwrap();

    let result = engine
        .execute_market_liquidation(Money::from_major(100_000), Money::from_major(50_000), &time)
        .unwrap();

    assert!(result.surplus.is_some());
    assert_eq!(result.surplus.unwrap(), Money::from_major(40_250));
    assert_eq!(result.cvl_after, Money::zero());
}

#[test]
fn test_proceeds_waterfall() {
    let engine = LiquidationEngine::new(fid());

    let application = engine.apply_proceeds_waterfall(
        Money::from_major(50_000),
        Money::from_major(2_000),
        Money::from_major(500),
        Money::from_major(300),
        Money::from_major(1_200),
        Money::from_major(50_000),
    );

    assert_eq!(application.to_penalties, Money::from_major(500));
    assert_eq!(application.to_fees, Money::from_major(300));
    assert_eq!(application.to_interest, Money::from_major(1_200));
    assert_eq!(application.to_principal, Money::from_major(46_000));
    assert_eq!(application.excess, Money::zero());
}

#[test]
fn test_partial_liquidation() {
    let time = test_provider();
    let mut engine = LiquidationEngine::new(fid());
    engine.set_grace_period(0);

    engine
        .trigger_liquidation(Money::from_major(100_000), Money::from_major(120_000), &time)
        .unwrap();

    let result = engine
        .execute_partial_liquidation(Money::from_major(40_000), Money::from_major(100_000), &time)
        .unwrap();

    assert_eq!(result.method, LiquidationMethod::Partial);
    assert_eq!(result.net_proceeds, Money::from_major(38_000));
    assert_eq!(result.cvl_after, Money::from_major(62_000));
}

#[test]
fn test_liquidation_conserves_value() {
    let time = test_provider();
    let mut engine = LiquidationEngine::new(fid());
    engine.set_grace_period(0);

    let cvl = Money::from_major(50_000);
    engine
        .trigger_liquidation(cvl, Money::from_major(100_000), &time)
        .unwrap();
    let result = engine
        .execute_market_liquidation(Money::from_major(100_000), cvl, &time)
        .unwrap();

    let surplus = result.surplus.unwrap_or(Money::zero());
    let retired = cvl.atoms - result.cvl_after.atoms;
    assert_eq!(
        result.gross_proceeds.atoms,
        result.liquidation_costs.atoms + retired + surplus.atoms
    );
}

#[test]
fn test_bitcoin_valuation() {
    let price_feed = MockPriceFeed::new(Money::from_major(50_000));
    let collateral = BitcoinCollateral::new(Money::from_minor(15, 1), price_feed);

    let value = collateral.calculate_value();
    assert_eq!(value, Money::from_major(75_000));
}

#[test]
fn test_risk_adjusted_value() {
    let mut price_feed = MockPriceFeed::new(Money::from_major(50_000));
    price_feed.set_volatility(Rate::from_percentage(10));

    let collateral = BitcoinCollateral::new(Money::from_major(1), price_feed);

    let risk_adjusted = collateral.calculate_risk_adjusted_value();
    assert!(risk_adjusted.atoms < Money::from_major(50_000).atoms);
    assert!(risk_adjusted.atoms > Money::from_major(35_000).atoms);
}

#[test]
fn test_flash_crash_protection() {
    let time = test_provider();
    let now = timestamp_from_ymd(2024, 1, 1);

    let mut price_feed = MockPriceFeed::new(Money::from_major(50_000));
    // twenty prices over the last twenty minutes, all at fifty thousand
    for i in (0..20).rev() {
        price_feed.set_price(Money::from_major(50_000), now - 60 * i);
    }
    // one flash-crash print at thirty thousand
    price_feed.set_price(Money::from_major(30_000), now);

    let mut collateral = BitcoinCollateral::new(Money::from_major(1), price_feed);

    let cvl = Money::from_major(35_000);
    let liquidation_threshold = Rate::from_percentage(75);

    let should_liquidate = collateral.should_liquidate(cvl, liquidation_threshold, &time);
    assert!(!should_liquidate);
}

#[test]
fn test_breach_decision_without_protection() {
    // the spot breach alone decides when protection is off
    let cvl = Money::from_major(35_000);
    let threshold = Rate::from_percentage(75);
    let spot_value = Money::from_major(30_000);
    let twap_value = Money::from_major(50_000);
    assert!(should_liquidate_given(cvl, threshold, spot_value, spot_value, false));
    assert!(!should_liquidate_given(cvl, threshold, spot_value, twap_value, true));
}

#[test]
fn test_partial_liquidation_calculation() {
    let price_feed = MockPriceFeed::new(Money::from_major(50_000));
    let collateral = BitcoinCollateral::new(Money::from_major(2), price_feed);

    let cvl = Money::from_major(70_000);
    let target_ltv = Rate::from_percentage(65);

    let btc_to_liquidate = collateral.calculate_liquidation_amount(cvl, target_ltv).unwrap();
    assert_eq!(btc_to_liquidate, Money::from_major(2));
}

#[test]
fn test_collateral_addition() {
    let price_feed = MockPriceFeed::new(Money::from_major(50_000));
    let mut collateral = BitcoinCollateral::new(Money::from_major(1), price_feed);

    collateral.add_collateral(Money::from_minor(5, 1));
    assert_eq!(collateral.btc_amount(), Money::from_minor(15, 1));

    let value = collateral.calculate_value();
    assert_eq!(value, Money::from_major(75_000));
}

#[test]
fn test_twap_averages_recent_prices() {
    let now = timestamp_from_ymd(2024, 6, 1);
    let mut feed = MockPriceFeed::new(Money::from_major(40_000));
    feed.set_price(Money::from_major(40_000), now - 600);
    feed.set_price(Money::from_major(50_000), now - 300);
    feed.set_price(Money::from_major(60_000), now);
    let twap = feed.get_twap(900);
    assert_eq!(twap, Money::from_major(50_000));
    let (lo, hi) = feed.get_24h_range();
    assert_eq!(lo, Money::from_major(40_000));
    assert_eq!(hi, Money::from_major(60_000));
}

#[test]
fn test_extreme_price_saturates_instead_of_liquidating() {
    let time = test_provider();
    // a price far beyond the computable range: the holding saturates at the
    // top of the range and a modest debt does not breach
    let huge = Money::from_atoms(100_000_000_000_000_000_000_000);
    let price_feed = MockPriceFeed::new(huge);
    let mut collateral = BitcoinCollateral::new(Money::from_major(1), price_feed);
    let cvl = Money::from_major(35_000);
    let threshold = Rate::from_percentage(75);
    assert!(!collateral.should_liquidate(cvl, threshold, &time));
}

#[test]
fn test_health_metrics_reports_holding() {
    let now = Utc.with_ymd_and_hms(2024, 1, 1, 0, 0, 0).unwrap().timestamp();
    let mut price_feed = MockPriceFeed::new(Money::from_major(50_000));
    price_feed.set_price(Money::from_major(40_000), now - 600);
    price_feed.set_price(Money::from_major(50_000), now);
    let collateral = BitcoinCollateral::new(Money::from_major(2), price_feed);
    let health = collateral.get_health_metrics();
    assert_eq!(health.btc_amount, Money::from_major(2));
    assert_eq!(health.spot_price, Money::from_major(50_000));
    assert_eq!(health.low_24h, Money::from_major(40_000));
    assert_eq!(health.high_24h, Money::from_major(50_000));
    // (50000 - 40000) / 40000 = 25%
    assert_eq!(health.price_change_24h, Rate::from_percentage(25));
    assert_eq!(health.value, Money::from_major(100_000));
}
