use marketx::market::Error;
use marketx::oracle::{convert_price, resolve_price, OracleService, PriceData};

#[test]
fn test_is_price_stale() {
    assert!(!OracleService::is_price_stale(100, 200, 300));
    assert!(OracleService::is_price_stale(100, 500, 300));
    assert!(!OracleService::is_price_stale(100, 400, 300));
}

#[test]
fn test_detect_manipulation() {
    assert!(!OracleService::detect_manipulation(105, 100, 1000));
    assert!(OracleService::detect_manipulation(115, 100, 1000));
    assert!(!OracleService::detect_manipulation(100, 0, 1000));
}

#[test]
fn test_validate_product_price() {
    assert!(OracleService::validate_product_price(1000, 1000, 2000).is_ok());
    assert!(OracleService::validate_product_price(1000, 1200, 2000).is_ok());
    assert!(OracleService::validate_product_price(1000, 800, 2000).is_ok());
    assert!(OracleService::validate_product_price(1000, 1300, 2000).is_err());
    assert!(OracleService::validate_product_price(1000, 700, 2000).is_err());
    assert!(OracleService::validate_product_price(0, 1000, 2000).is_ok());
}

#[test]
fn test_price_staleness() {
    assert!(!OracleService::is_price_stale(100, 200, 300));
    assert!(OracleService::is_price_stale(100, 500, 300));
    assert!(!OracleService::is_price_stale(100, 400, 300));
    assert!(OracleService::is_price_stale(100, 401, 300));
}

#[test]
fn test_manipulation_detection() {
    assert!(!OracleService::detect_manipulation(105, 100, 1000));
    assert!(OracleService::detect_manipulation(115, 100, 1000));
    assert!(OracleService::detect_manipulation(85, 100, 1000));
    assert!(!OracleService::detect_manipulation(100, 0, 1000));
    assert!(!OracleService::detect_manipulation(100, 100, 1000));
}

#[test]
fn test_product_price_validation() {
    assert!(OracleService::validate_product_price(1000, 1000, 2000).is_ok());
    assert!(OracleService::validate_product_price(1000, 1200, 2000).is_ok());
    assert!(OracleService::validate_product_price(1000, 800, 2000).is_ok());
    assert!(OracleService::validate_product_price(1000, 1300, 2000).is_err());
    assert!(OracleService::validate_product_price(1000, 700, 2000).is_err());
    assert!(OracleService::validate_product_price(0, 1000, 2000).is_ok());
    assert!(OracleService::validate_product_price(-100, 1000, 2000).is_ok());
}

#[test]
fn test_price_validation_tolerances() {
    let oracle_price = 10000i128;

    assert!(OracleService::validate_product_price(oracle_price, 10000, 1000).is_ok());
    assert!(OracleService::validate_product_price(oracle_price, 11000, 1000).is_ok());
    assert!(OracleService::validate_product_price(oracle_price, 9000, 1000).is_ok());
    assert!(OracleService::validate_product_price(oracle_price, 11100, 1000).is_err());
    assert!(OracleService::validate_product_price(oracle_price, 8900, 1000).is_err());

    assert!(OracleService::validate_product_price(oracle_price, 15000, 5000).is_ok());
    assert!(OracleService::validate_product_price(oracle_price, 5000, 5000).is_ok());
    assert!(OracleService::validate_product_price(oracle_price, 15100, 5000).is_err());
    assert!(OracleService::validate_product_price(oracle_price, 4900, 5000).is_err());

    assert!(OracleService::validate_product_price(oracle_price, 10000, 0).is_ok());
    assert!(OracleService::validate_product_price(oracle_price, 10001, 0).is_err());
    assert!(OracleService::validate_product_price(oracle_price, 9999, 0).is_err());
}

#[test]
fn test_validate_price_beyond_i128_range() {
    assert_eq!(
        OracleService::validate_product_price(1000, u128::MAX, 2000),
        Err(Error::PriceOutOfRange)
    );
}

#[test]
fn test_resolve_price_disabled() {
    let r = resolve_price(false, 300, 0, 0, 0, 1000, None, None, None);
    assert_eq!(r, Err(Error::OracleNotConfigured));
}

#[test]
fn test_resolve_price_unavailable() {
    let r = resolve_price(true, 300, 0, 0, 0, 1000, None, None, None);
    assert_eq!(r, Err(Error::OraclePriceUnavailable));
}

#[test]
fn test_resolve_price_fresh() {
    let p = PriceData { price: 42, timestamp: 900 };
    let r = resolve_price(true, 300, 0, 0, 0, 1000, Some(p), None, None);
    assert_eq!(r, Ok(p));
}

#[test]
fn test_resolve_price_stale_with_fresh_cache() {
    let p = PriceData { price: 42, timestamp: 100 };
    let c = PriceData { price: 40, timestamp: 900 };
    let r = resolve_price(true, 300, 0, 0, 0, 1000, Some(p), None, Some(c));
    assert_eq!(r, Ok(c));
}

#[test]
fn test_resolve_price_stale_without_cache() {
    let p = PriceData { price: 42, timestamp: 100 };
    let r = resolve_price(true, 300, 0, 0, 0, 1000, Some(p), None, None);
    assert_eq!(r, Err(Error::OraclePriceStale));
}

#[test]
fn test_resolve_price_update_frequency_window() {
    let p = PriceData { price: 42, timestamp: 990 };
    let c = PriceData { price: 40, timestamp: 950 };
    // fetched 10 seconds after the last update, inside a 60-second window
    let r = resolve_price(true, 300, 0, 60, 990, 1000, Some(p), None, Some(c));
    assert_eq!(r, Ok(c));
}

#[test]
fn test_resolve_price_manipulated() {
    let p = PriceData { price: 115, timestamp: 990 };
    let r = resolve_price(true, 300, 1000, 0, 0, 1000, Some(p), Some(100), None);
    assert_eq!(r, Err(Error::OraclePriceManipulated));
}

#[test]
fn test_convert_price_ratio() {
    assert_eq!(convert_price(100, 30, 10), Ok(300));
    assert_eq!(convert_price(7, 10, 3), Ok(23));
    assert_eq!(convert_price(100, 30, 0), Err(Error::OraclePriceUnavailable));
    assert_eq!(convert_price(i128::MAX, 2, 1), Err(Error::FeeOverflow));
}
