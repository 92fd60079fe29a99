use bonding_curve_system::curve::BondingCurve;
use bonding_curve_system::errors::CoreError;

fn standard_curve() -> BondingCurve {
    BondingCurve { base_price: 100, growth_factor: 110 }
}

#[test]
fn price_exact_values() {
    let c = standard_curve();
    assert_eq!(c.calculate_price(0), Ok(100));
    assert_eq!(c.calculate_price(10), Ok(111));
    assert_eq!(c.calculate_price(1000), Ok(1200));
}

#[test]
fn price_is_monotone_on_samples() {
    let c = standard_curve();
    let mut last: u64 = 0;
    let mut m: u64 = 0;
    while m <= 2000 {
        let p = c.calculate_price(m).unwrap();
        assert!(p >= last);
        last = p;
        m += 7;
    }
}

#[test]
fn buy_cost_exact_small() {
    let c = standard_curve();
    // price(0) + price(1) = 100 + 101
    assert_eq!(c.calculate_buy_cost(0, 2), Ok(201));
}

#[test]
fn buy_cost_exact_thousand() {
    let c = standard_curve();
    // sum of (100 + 110 * i / 100) over i in 0..1000
    assert_eq!(c.calculate_buy_cost(0, 1000), Ok(649_000));
}

#[test]
fn buy_cost_of_zero_units_is_zero() {
    let c = standard_curve();
    assert_eq!(c.calculate_buy_cost(500, 0), Ok(0));
}

#[test]
fn sell_equals_buy_over_same_interval() {
    let c = standard_curve();
    let sell = c.calculate_sell_amount(1000, 400).unwrap();
    let buy = c.calculate_buy_cost(600, 400).unwrap();
    assert!(sell <= buy);
    assert_eq!(sell, buy);
}

#[test]
fn sell_amount_underflow() {
    let c = standard_curve();
    assert_eq!(c.calculate_sell_amount(10, 11), Err(CoreError::ArithmeticUnderflow));
}

#[test]
fn platform_fee_exact() {
    let c = standard_curve();
    // 100 basis points of 12345, rounded down
    assert_eq!(c.calculate_platform_fee(12345), Ok(123));
    assert_eq!(c.calculate_net_cost(12345), Ok(12222));
}

#[test]
fn platform_fee_never_exceeds_gross() {
    let c = standard_curve();
    for gross in [0u64, 1, 99, 100, 101, 9999, 10_000, 123_456_789] {
        let fee = c.calculate_platform_fee(gross).unwrap();
        assert!(fee <= gross);
        assert_eq!(c.calculate_net_cost(gross).unwrap(), gross - fee);
    }
}

#[test]
fn platform_fee_overflow() {
    let c = standard_curve();
    assert_eq!(c.calculate_platform_fee(u64::MAX), Err(CoreError::ArithmeticOverflow));
    assert_eq!(c.calculate_net_cost(u64::MAX), Err(CoreError::ArithmeticOverflow));
}

#[test]
fn price_overflow() {
    let c = BondingCurve { base_price: 1, growth_factor: u64::MAX };
    assert_eq!(c.calculate_price(2), Err(CoreError::ArithmeticOverflow));
}

#[test]
fn zero_base_price_rejected() {
    let c = BondingCurve { base_price: 0, growth_factor: 110 };
    assert_eq!(c.calculate_price(5), Err(CoreError::InvalidCurveParameters));
    assert_eq!(c.calculate_buy_cost(0, 3), Err(CoreError::InvalidCurveParameters));
    assert_eq!(c.calculate_sell_amount(3, 1), Err(CoreError::InvalidCurveParameters));
}

#[test]
fn threshold_boundary() {
    let c = standard_curve();
    assert!(!c.is_past_threshold(10_000));
    assert!(c.is_past_threshold(10_001));
}
