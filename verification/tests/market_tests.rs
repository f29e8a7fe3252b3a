//! Marketplace wire encodings and the fee formula.

use marketx::market::{calculate_fee, Error, PriceSource, ProductStatus, SellerStatus};

#[test]
fn seller_status_codes() {
    assert_eq!(SellerStatus::Unverified.as_u32(), 0);
    assert_eq!(SellerStatus::Verified.as_u32(), 1);
    assert_eq!(SellerStatus::Suspended.as_u32(), 2);
    assert_eq!(SellerStatus::from_u32(0), Some(SellerStatus::Unverified));
    assert_eq!(SellerStatus::from_u32(1), Some(SellerStatus::Verified));
    assert_eq!(SellerStatus::from_u32(2), Some(SellerStatus::Suspended));
    assert_eq!(SellerStatus::from_u32(3), None);
}

#[test]
fn product_status_codes() {
    assert_eq!(ProductStatus::Active.as_u32(), 0);
    assert_eq!(ProductStatus::Delisted.as_u32(), 1);
    assert_eq!(ProductStatus::OutOfStock.as_u32(), 2);
    assert_eq!(ProductStatus::from_u32(0), Some(ProductStatus::Active));
    assert_eq!(ProductStatus::from_u32(1), Some(ProductStatus::Delisted));
    assert_eq!(ProductStatus::from_u32(2), Some(ProductStatus::OutOfStock));
    assert_eq!(ProductStatus::from_u32(9), None);
}

#[test]
fn price_source_codes() {
    assert_eq!(PriceSource::Oracle.as_u32(), 0);
    assert_eq!(PriceSource::Cached.as_u32(), 1);
    assert_eq!(PriceSource::from_u32(0), Some(PriceSource::Oracle));
    assert_eq!(PriceSource::from_u32(1), Some(PriceSource::Cached));
    assert_eq!(PriceSource::from_u32(2), None);
}

#[test]
fn status_codes_round_trip() {
    for s in [SellerStatus::Unverified, SellerStatus::Verified, SellerStatus::Suspended] {
        assert_eq!(SellerStatus::from_u32(s.as_u32()), Some(s));
    }
    for s in [ProductStatus::Active, ProductStatus::Delisted, ProductStatus::OutOfStock] {
        assert_eq!(ProductStatus::from_u32(s.as_u32()), Some(s));
    }
    for s in [PriceSource::Oracle, PriceSource::Cached] {
        assert_eq!(PriceSource::from_u32(s.as_u32()), Some(s));
    }
}

#[test]
fn marketplace_fee_formula() {
    // 2.5% base rate on a 10_000 purchase
    assert_eq!(calculate_fee(10_000, 250), Ok(250));
    assert_eq!(calculate_fee(999, 250), Ok(24));
    assert_eq!(calculate_fee(0, 250), Ok(0));
    assert_eq!(calculate_fee(u128::MAX, 2), Err(Error::FeeOverflow));
}
