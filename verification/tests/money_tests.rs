use credit_engine::money::{Money, Rate, SCALE};

#[test]
fn test_money_precision() {
    // 100.123456789 rounds to eight digits, half away from zero
    let m = Money::from_str_exact("100.123456789").unwrap();
    assert_eq!(m, Money::from_atoms(10_012_345_679));
}

#[test]
fn test_satoshi_precision() {
    let btc = Money::from_minor(100_000_000, 8); // one whole unit in satoshis
    assert_eq!(btc, Money::from_major(1));

    let sat = Money::from_minor(1, 8); // one satoshi
    assert_eq!(sat, Money::satoshi());
}

#[test]
fn test_interest_calculation() {
    let principal = Money::from_major(10_000);
    let rate = Rate::from_percentage(5); // five percent annual

    let daily_interest = principal.apply_rate(rate, 1);
    assert_eq!(daily_interest.round_dp(2), Money::from_minor(137, 2));

    let annual_interest = principal.apply_rate(rate, 365);
    assert_eq!(annual_interest.round_dp(2), Money::from_minor(50_000, 2));
}

#[test]
fn test_compound_interest() {
    let principal = Money::from_major(1_000);
    let monthly_rate = Rate::from_percentage(12).monthly_rate();

    // compound monthly for twelve months
    let final_amount = principal.compound(monthly_rate, 12);
    assert!(final_amount.atoms > principal.atoms);
}

#[test]
fn test_rate_constructors_agree() {
    assert_eq!(Rate::from_percentage(5), Rate::from_bps(500));
    assert_eq!(Rate::from_percentage(5).atoms, 5 * SCALE as i128 / 100);
}

#[test]
fn test_rounding_half_away_from_zero() {
    // 0.000000005 at eight digits rounds away from zero
    assert_eq!(Money::from_minor(5, 9), Money::from_atoms(1));
    assert_eq!(Money::from_minor(-5, 9), Money::from_atoms(-1));
    // 0.000000004 rounds toward zero
    assert_eq!(Money::from_minor(4, 9), Money::from_atoms(0));
}

#[test]
fn test_subtraction_may_go_negative() {
    let a = Money::from_major(5);
    let b = Money::from_major(8);
    let d = a.sub(b);
    assert!(d.is_negative());
    assert_eq!(d, Money::from_major(-3));
}

#[test]
fn test_from_str_exact_parses_decimals() {
    assert_eq!(Money::from_str_exact("6.16").unwrap(), Money::from_atoms(616_000_000));
    assert_eq!(Money::from_str_exact("82.19").unwrap(), Money::from_atoms(8_219_000_000));
    assert_eq!(Money::from_str_exact("100").unwrap(), Money::from_major(100));
    assert_eq!(Money::from_str_exact("-0.00000001").unwrap(), Money::from_atoms(-1));
    assert_eq!(Money::from_str_exact(".5").unwrap(), Money::from_atoms(50_000_000));
    assert_eq!(Money::from_str_exact("0.12345678").unwrap(), Money::from_atoms(12_345_678));
    // the ninth and later digits round away, half away from zero
    assert_eq!(Money::from_str_exact("0.000000005").unwrap(), Money::from_atoms(1));
    assert_eq!(Money::from_str_exact("-0.000000005").unwrap(), Money::from_atoms(-1));
    assert_eq!(Money::from_str_exact("0.000000004999").unwrap(), Money::from_atoms(0));
}

#[test]
fn test_from_str_exact_rejects_bad_shapes() {
    assert!(Money::from_str_exact("").is_err());
    assert!(Money::from_str_exact("-").is_err());
    assert!(Money::from_str_exact("1.").is_err());
    assert!(Money::from_str_exact("1.2.3").is_err());
    assert!(Money::from_str_exact("12a").is_err());
    assert!(Money::from_str_exact("0.1234567890123456789012345678").is_err()); // twenty-eighth fraction digit
    assert!(Money::from_str_exact("1234567890123456789").is_err()); // nineteenth integer digit
}

#[test]
fn test_rate_as_percentage_and_bps() {
    let r = Rate::from_percentage(5);
    assert_eq!(r.as_percentage().atoms, 5 * SCALE);
    assert_eq!(r.as_bps().atoms, 500 * SCALE);
    let q = Rate::from_bps(25); // 0.25%
    assert_eq!(q.as_percentage().atoms, SCALE / 4);
    assert_eq!(q.as_bps().atoms, 25 * SCALE);
}
