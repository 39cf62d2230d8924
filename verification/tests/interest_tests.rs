use chrono::{Duration, TimeZone, Utc};
use credit_engine::dates::timestamp_from_ymd;
use credit_engine::interest::accrual::{AccrualEngine, DayCountConvention};
use credit_engine::interest::compound::{
    calculate_apy, future_value, present_value, CompoundingEngine, CompoundingFrequency,
};
use credit_engine::interest::penalty::{PenaltyConfig, PenaltyEngine, PenaltyTier};
use credit_engine::interest::capitalize_interest;
use credit_engine::money::{Money, Rate};
use hourglass_rs::{SafeTimeProvider, TimeSource};

fn test_provider(y: i32, m: u32, d: u32) -> SafeTimeProvider {
    SafeTimeProvider::new(TimeSource::Test(
        Utc.with_ymd_and_hms(y, m, d, 0, 0, 0).unwrap(),
    ))
}

#[test]
fn test_day_count_conventions() {
    let engine_365 = AccrualEngine::new(DayCountConvention::Actual365);
    let engine_360 = AccrualEngine::new(DayCountConvention::Actual360);
    let engine_30_360 = AccrualEngine::new(DayCountConvention::Thirty360);

    let start = timestamp_from_ymd(2024, 1, 1);
    let end = timestamp_from_ymd(2024, 2, 1);

    assert_eq!(engine_365.calculate_days(start, end), 31);
    assert_eq!(engine_360.calculate_days(start, end), 31);
    assert_eq!(engine_30_360.calculate_days(start, end), 30);
}

#[test]
fn test_30_360_convention() {
    let engine = AccrualEngine::new(DayCountConvention::Thirty360);

    let start = timestamp_from_ymd(2024, 1, 31);
    let end = timestamp_from_ymd(2024, 2, 29);
    assert_eq!(engine.days_30_360_between(start, end), 29);

    let start = timestamp_from_ymd(2024, 2, 28);
    let end = timestamp_from_ymd(2024, 3, 31);
    assert_eq!(engine.days_30_360_between(start, end), 33);
}

#[test]
fn test_leap_year() {
    assert!(credit_engine::dates::is_leap_year(2024));
    assert!(!credit_engine::dates::is_leap_year(2023));
    assert!(credit_engine::dates::is_leap_year(2000));
    assert!(!credit_engine::dates::is_leap_year(1900));
}

#[test]
fn test_simple_interest() {
    let engine = AccrualEngine::new(DayCountConvention::Actual365);
    let principal = Money::from_major(10_000);
    let rate = Rate::from_percentage(5);

    let interest = engine.calculate_simple_interest(principal, rate, 30, 365);
    assert_eq!(interest.round_dp(2), Money::from_minor(4110, 2));
}

#[test]
fn test_daily_accrual_with_time_manipulation() {
    let engine = AccrualEngine::new(DayCountConvention::Actual365);
    let principal = Money::from_major(10_000);
    let rate = Rate::from_percentage(5);

    let time = test_provider(2024, 1, 1);
    let control = time.test_control().unwrap();
    let start = timestamp_from_ymd(2024, 1, 1);

    control.advance(Duration::days(3));

    let accruals = engine.accrue_daily(principal, rate, start, &time);
    assert_eq!(accruals.len(), 3);

    let daily_interest = Money::from_minor(137, 2);
    for accrual in &accruals {
        assert_eq!(accrual.interest_amount.round_dp(2), daily_interest);
        assert_eq!(accrual.principal_base, principal);
    }
}

#[test]
fn test_monthly_accrual_with_time_manipulation() {
    let engine = AccrualEngine::new(DayCountConvention::Actual365);
    let principal = Money::from_major(100_000);
    let rate = Rate::from_percentage(5);

    let time = test_provider(2024, 1, 15);
    let control = time.test_control().unwrap();
    let last_accrual = timestamp_from_ymd(2024, 1, 15);

    // within the same month: no accrual
    control.advance(Duration::days(10));
    let result = engine.accrue_monthly(principal, rate, last_accrual, &time);
    assert!(result.is_none());

    // into the next month: one accrual
    control.advance(Duration::days(10));
    let result = engine.accrue_monthly(principal, rate, last_accrual, &time);
    assert!(result.is_some());

    let accrual = result.unwrap();
    assert_eq!(accrual.interest_amount.round_dp(2), Money::from_minor(41_667, 2));
}

#[test]
fn test_leap_year_handling() {
    let engine = AccrualEngine::new(DayCountConvention::ActualActual);
    let principal = Money::from_major(10_000);
    let rate = Rate::from_percentage(5);

    let time = test_provider(2024, 2, 28);
    let control = time.test_control().unwrap();
    let start = timestamp_from_ymd(2024, 2, 28);

    control.advance(Duration::days(1));

    let accruals = engine.accrue_daily(principal, rate, start, &time);
    assert_eq!(accruals.len(), 1);

    assert_eq!(engine.year_basis(2024), 366);
    let expected_daily_rate = rate.div_int(366);
    assert_eq!(accruals[0].daily_rate, expected_daily_rate);
}

#[test]
fn test_year_end_accrual() {
    let engine = AccrualEngine::new(DayCountConvention::Actual365);
    let principal = Money::from_major(10_000);
    let rate = Rate::from_percentage(5);

    let time = test_provider(2023, 12, 30);
    let control = time.test_control().unwrap();
    let start = timestamp_from_ymd(2023, 12, 30);

    control.advance(Duration::days(3));

    let accruals = engine.accrue_daily(principal, rate, start, &time);
    assert_eq!(accruals.len(), 3);

    let dates: Vec<(i64, u32, u32)> = accruals
        .iter()
        .map(|a| credit_engine::dates::civil_of_timestamp(a.date))
        .collect();
    assert_eq!(dates[0], (2023, 12, 31));
    assert_eq!(dates[1], (2024, 1, 1));
    assert_eq!(dates[2], (2024, 1, 2));
}

#[test]
fn test_monthly_compounding() {
    let engine = CompoundingEngine::new(CompoundingFrequency::Monthly);
    let principal = Money::from_major(10_000);
    let rate = Rate::from_percentage(12);

    let interest = engine.compound_monthly(principal, rate, 12).unwrap();
    assert_eq!(interest.round_dp(2), Money::from_minor(126_825, 2));
}

#[test]
fn test_daily_compounding() {
    let engine = CompoundingEngine::new(CompoundingFrequency::Daily);
    let principal = Money::from_major(10_000);
    let rate = Rate::from_percentage(18);

    let interest = engine.compound_daily(principal, rate, 30).unwrap();
    assert!(interest.atoms > Money::from_major(148).atoms);
    assert!(interest.atoms < Money::from_major(150).atoms);
}

#[test]
fn test_continuous_compounding() {
    let engine = CompoundingEngine::new(CompoundingFrequency::Continuous);
    let principal = Money::from_major(10_000);
    let rate = Rate::from_percentage(12);

    let interest = engine.calculate_compound(principal, rate, Rate::one()).unwrap();
    assert!(interest.atoms > Money::from_major(1270).atoms);
    assert!(interest.atoms < Money::from_major(1280).atoms);
}

#[test]
fn test_compounding_comparison() {
    let principal = Money::from_major(10_000);
    let rate = Rate::from_percentage(12);
    let time = Rate::one();

    let annual = CompoundingEngine::new(CompoundingFrequency::Annual)
        .calculate_compound(principal, rate, time)
        .unwrap();
    let monthly = CompoundingEngine::new(CompoundingFrequency::Monthly)
        .calculate_compound(principal, rate, time)
        .unwrap();
    let daily = CompoundingEngine::new(CompoundingFrequency::Daily)
        .calculate_compound(principal, rate, time)
        .unwrap();
    let continuous = CompoundingEngine::new(CompoundingFrequency::Continuous)
        .calculate_compound(principal, rate, time)
        .unwrap();

    assert!(annual.atoms < monthly.atoms);
    assert!(monthly.atoms < daily.atoms);
    assert!(continuous.atoms >= daily.atoms);

    assert_eq!(annual, Money::from_major(1200));
    assert!(monthly.atoms > Money::from_major(1260).atoms);
    assert!(daily.atoms > Money::from_major(1270).atoms);
}

#[test]
fn test_future_value() {
    let pv = Money::from_major(10_000);
    let rate = Rate::from_percentage(5);
    let years = Rate::from_atoms(3 * 100_000_000);

    let fv = future_value(pv, rate, years, CompoundingFrequency::Annual).unwrap();
    assert_eq!(fv.round_dp(2), Money::from_minor(1_157_625, 2));
}

#[test]
fn test_present_value() {
    let fv = Money::from_major(11_576);
    let rate = Rate::from_percentage(5);
    let years = Rate::from_atoms(3 * 100_000_000);

    let pv = present_value(fv, rate, years, CompoundingFrequency::Annual).unwrap();
    assert!(pv.atoms < Money::from_major(10_001).atoms);
    assert!(pv.atoms > Money::from_major(9_999).atoms);
}

#[test]
fn test_apy_calculation() {
    let apr = Rate::from_percentage(18);

    let daily_apy = calculate_apy(apr, 365).unwrap();
    assert!(daily_apy.atoms > 19_700_000);
    assert!(daily_apy.atoms < 19_800_000);

    let monthly_apy = calculate_apy(apr, 12).unwrap();
    assert!(monthly_apy.atoms > 19_500_000);
    assert!(monthly_apy.atoms < 19_600_000);
}

#[test]
fn test_capitalization() {
    let principal = Money::from_major(10_000);
    let interest = Money::from_major(500);
    let now = timestamp_from_ymd(2024, 6, 1);

    let result = capitalize_interest(principal, interest, String::new(), now);
    assert_eq!(result.amount_capitalized, interest);
    assert_eq!(result.new_principal, Money::from_major(10_500));
    assert_eq!(result.timestamp, now);
}

#[test]
fn test_basic_penalty() {
    let config = PenaltyConfig::new(Rate::from_percentage(5), Rate::from_atoms(150_000_000));
    let engine = PenaltyEngine::new(config);

    let overdue = Money::from_major(1_000);
    let result = engine.calculate_penalty(overdue, 30);

    assert_eq!(result.effective_rate, Rate::from_bps(750));
    assert_eq!(result.days_charged, 30);
    assert_eq!(result.penalty_amount.round_dp(2), Money::from_minor(616, 2));
}

#[test]
fn test_grace_period() {
    let mut config = PenaltyConfig::new(Rate::from_percentage(5), Rate::from_atoms(150_000_000));
    config.grace_period_days = 5;
    let engine = PenaltyEngine::new(config);

    let overdue = Money::from_major(1_000);

    let result_in_grace = engine.calculate_penalty(overdue, 3);
    assert_eq!(result_in_grace.penalty_amount, Money::zero());
    assert!(result_in_grace.grace_applied);

    let result_after_grace = engine.calculate_penalty(overdue, 10);
    assert_eq!(result_after_grace.days_charged, 5);
    assert!(!result_after_grace.grace_applied);
}

#[test]
fn test_minimum_penalty() {
    let mut config = PenaltyConfig::new(Rate::from_percentage(5), Rate::from_atoms(150_000_000));
    config.minimum_penalty = Money::from_major(25);
    let engine = PenaltyEngine::new(config);

    let overdue = Money::from_major(100);
    let result = engine.calculate_penalty(overdue, 5);
    assert_eq!(result.penalty_amount, Money::from_major(25));
}

#[test]
fn test_fixed_penalty_rate() {
    let mut config = PenaltyConfig::new(Rate::from_percentage(5), Rate::from_atoms(150_000_000));
    config.fixed_penalty_rate = Some(Rate::from_percentage(10));
    assert_eq!(config.effective_penalty_rate(), Rate::from_percentage(10));
}

#[test]
fn test_maximum_penalty_cap() {
    let mut config = PenaltyConfig::new(Rate::from_percentage(20), Rate::from_atoms(200_000_000));
    config.maximum_penalty_rate = Some(Rate::from_percentage(30));
    assert_eq!(config.effective_penalty_rate(), Rate::from_percentage(30));
}

#[test]
fn test_default_interest() {
    let config = PenaltyConfig::new(Rate::from_percentage(5), Rate::from_atoms(200_000_000));
    let engine = PenaltyEngine::new(config);

    let balance = Money::from_major(10_000);
    let result = engine.calculate_default_interest(balance, 30);

    assert_eq!(result.penalty_rate, Rate::from_percentage(10));
    assert_eq!(result.interest_amount.round_dp(2), Money::from_minor(8219, 2));
}

#[test]
fn test_tiered_penalties() {
    let config = PenaltyConfig::new(Rate::from_percentage(5), Rate::from_atoms(100_000_000));
    let engine = PenaltyEngine::new(config);

    let tiers = vec![
        PenaltyTier {
            name: "first band".to_string(),
            min_days: 1,
            max_days: Some(30),
            rate_multiplier: Rate::from_atoms(150_000_000),
        },
        PenaltyTier {
            name: "second band".to_string(),
            min_days: 31,
            max_days: Some(60),
            rate_multiplier: Rate::from_atoms(200_000_000),
        },
        PenaltyTier {
            name: "third band".to_string(),
            min_days: 61,
            max_days: None,
            rate_multiplier: Rate::from_atoms(300_000_000),
        },
    ];

    let overdue = Money::from_major(1_000);
    let result = engine.calculate_tiered_penalty(overdue, 45, &tiers);

    assert_eq!(result.tier_calculations.len(), 2);
    assert_eq!(result.tier_calculations[0].days_in_tier, 30);
    assert_eq!(result.tier_calculations[1].days_in_tier, 15);
    assert!(result.total_penalty.atoms > 0);
}
