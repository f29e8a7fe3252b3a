//! Marketplace data types and the fee formula: the plain-value core of the
//! listing and fee-collection rules.  The catalogue itself (sellers,
//! products, categories) is keyed storage owned by the host.

use vstd::prelude::*;

verus! {

/// Why a marketplace or oracle computation was rejected.
#[derive(Clone, Copy, Debug, PartialEq, Eq, Structural)]
pub enum Error {
    /// The marketplace configuration has not been written yet.
    NotInitialized,
    /// A rating or rate outside its documented range.
    InvalidInput,
    /// A fee computation left the `u128` range.
    FeeOverflow,
    /// No oracle is configured, or it is disabled.
    OracleNotConfigured,
    /// The oracle returned no price for the asset.
    OraclePriceUnavailable,
    /// The price is older than the staleness threshold allows.
    OraclePriceStale,
    /// The spot price deviates from the average further than allowed.
    OraclePriceManipulated,
    /// A proposed price outside the tolerance around the oracle price.
    PriceOutOfRange,
    /// No oracle price exists for the offered payment asset.
    PaymentAssetNotSupported,
}

/// A seller's verification state.
#[derive(Clone, Copy, Debug, PartialEq, Eq, Structural)]
pub enum SellerStatus {
    Unverified,
    Verified,
    Suspended,
}

impl SellerStatus {
    /// The stable wire encoding of this status.
    pub fn as_u32(&self) -> (r: u32)
        ensures
            r == match self {
                SellerStatus::Unverified => 0u32,
                SellerStatus::Verified => 1u32,
                SellerStatus::Suspended => 2u32,
            },
    {
        match self {
            SellerStatus::Unverified => 0,
            SellerStatus::Verified => 1,
            SellerStatus::Suspended => 2,
        }
    }

    /// Decodes a status from its wire value: the inverse of
    /// [`Self::as_u32`] on 0, 1 and 2, and `None` elsewhere.
    pub fn from_u32(value: u32) -> (r: Option<SellerStatus>)
        ensures
            r == match value {
                0u32 => Some(SellerStatus::Unverified),
                1u32 => Some(SellerStatus::Verified),
                2u32 => Some(SellerStatus::Suspended),
                _ => None::<SellerStatus>,
            },
    {
        match value {
            0 => Some(SellerStatus::Unverified),
            1 => Some(SellerStatus::Verified),
            2 => Some(SellerStatus::Suspended),
            _ => None,
        }
    }
}

/// A product's listing state.
#[derive(Clone, Copy, Debug, PartialEq, Eq, Structural)]
pub enum ProductStatus {
    Active,
    Delisted,
    OutOfStock,
}

impl ProductStatus {
    /// The stable wire encoding of this status.
    pub fn as_u32(&self) -> (r: u32)
        ensures
            r == match self {
                ProductStatus::Active => 0u32,
                ProductStatus::Delisted => 1u32,
                ProductStatus::OutOfStock => 2u32,
            },
    {
        match self {
            ProductStatus::Active => 0,
            ProductStatus::Delisted => 1,
            ProductStatus::OutOfStock => 2,
        }
    }

    /// Decodes a status from its wire value: the inverse of
    /// [`Self::as_u32`] on 0, 1 and 2, and `None` elsewhere.
    pub fn from_u32(value: u32) -> (r: Option<ProductStatus>)
        ensures
            r == match value {
                0u32 => Some(ProductStatus::Active),
                1u32 => Some(ProductStatus::Delisted),
                2u32 => Some(ProductStatus::OutOfStock),
                _ => None::<ProductStatus>,
            },
    {
        match value {
            0 => Some(ProductStatus::Active),
            1 => Some(ProductStatus::Delisted),
            2 => Some(ProductStatus::OutOfStock),
            _ => None,
        }
    }
}

/// Where a recorded price came from.
#[derive(Clone, Copy, Debug, PartialEq, Eq, Structural)]
pub enum PriceSource {
    Oracle,
    Cached,
}

impl PriceSource {
    /// The stable wire encoding of this source.
    pub fn as_u32(&self) -> (r: u32)
        ensures
            r == match self {
                PriceSource::Oracle => 0u32,
                PriceSource::Cached => 1u32,
            },
    {
        match self {
            PriceSource::Oracle => 0,
            PriceSource::Cached => 1,
        }
    }

    /// Decodes a source from its wire value: the inverse of
    /// [`Self::as_u32`] on 0 and 1, and `None` elsewhere.
    pub fn from_u32(value: u32) -> (r: Option<PriceSource>)
        ensures
            r == match value {
                0u32 => Some(PriceSource::Oracle),
                1u32 => Some(PriceSource::Cached),
                _ => None::<PriceSource>,
            },
    {
        match value {
            0 => Some(PriceSource::Oracle),
            1 => Some(PriceSource::Cached),
            _ => None,
        }
    }
}

/// Encoding and decoding a status are inverse on every status value.
pub proof fn lemma_status_round_trip()
    ensures
        forall|s: SellerStatus| decode_seller(encode_seller(s)) == Some(s),
        forall|s: ProductStatus| decode_product(encode_product(s)) == Some(s),
        forall|s: PriceSource| decode_source(encode_source(s)) == Some(s),
{
    assert forall|s: SellerStatus| decode_seller(encode_seller(s)) == Some(s) by {
        match s {
            SellerStatus::Unverified => {},
            SellerStatus::Verified => {},
            SellerStatus::Suspended => {},
        }
    }
    assert forall|s: ProductStatus| decode_product(encode_product(s)) == Some(s) by {
        match s {
            ProductStatus::Active => {},
            ProductStatus::Delisted => {},
            ProductStatus::OutOfStock => {},
        }
    }
    assert forall|s: PriceSource| decode_source(encode_source(s)) == Some(s) by {
        match s {
            PriceSource::Oracle => {},
            PriceSource::Cached => {},
        }
    }
}

/// The wire value of a seller status.
pub open spec fn encode_seller(s: SellerStatus) -> u32 {
    match s {
        SellerStatus::Unverified => 0,
        SellerStatus::Verified => 1,
        SellerStatus::Suspended => 2,
    }
}

/// The seller status of a wire value.
pub open spec fn decode_seller(v: u32) -> Option<SellerStatus> {
    match v {
        0u32 => Some(SellerStatus::Unverified),
        1u32 => Some(SellerStatus::Verified),
        2u32 => Some(SellerStatus::Suspended),
        _ => None,
    }
}

/// The wire value of a product status.
pub open spec fn encode_product(s: ProductStatus) -> u32 {
    match s {
        ProductStatus::Active => 0,
        ProductStatus::Delisted => 1,
        ProductStatus::OutOfStock => 2,
    }
}

/// The product status of a wire value.
pub open spec fn decode_product(v: u32) -> Option<ProductStatus> {
    match v {
        0u32 => Some(ProductStatus::Active),
        1u32 => Some(ProductStatus::Delisted),
        2u32 => Some(ProductStatus::OutOfStock),
        _ => None,
    }
}

/// The wire value of a price source.
pub open spec fn encode_source(s: PriceSource) -> u32 {
    match s {
        PriceSource::Oracle => 0,
        PriceSource::Cached => 1,
    }
}

/// The price source of a wire value.
pub open spec fn decode_source(v: u32) -> Option<PriceSource> {
    match v {
        0u32 => Some(PriceSource::Oracle),
        1u32 => Some(PriceSource::Cached),
        _ => None,
    }
}

/// One recorded price with its provenance.
#[derive(Clone, Copy, Debug, PartialEq, Eq, Structural)]
pub struct PriceRecord {
    pub price: i128,
    pub timestamp: u64,
    pub source: PriceSource,
}

/// One settled purchase, as the statistics track it.
#[derive(Clone, Copy, Debug, PartialEq, Eq, Structural)]
pub struct TransactionRecord {
    pub transaction_type: u32,
    pub amount: u128,
    pub timestamp: u64,
    pub product_id: u64,
}

/// The marketplace fee for `amount` at `rate` basis points, rounded down.
pub open spec fn spec_market_fee(amount: int, rate: int) -> int {
    amount * rate / (10_000 as int)
}

/// Computes the marketplace fee `floor(amount * rate / 10_000)`, failing
/// with `FeeOverflow` exactly when the product leaves the `u128` range.
pub fn calculate_fee(amount: u128, rate: u32) -> (r: Result<u128, Error>)
    ensures
        amount as int * rate as int <= u128::MAX as int
            ==> r === Ok((spec_market_fee(amount as int, rate as int)) as u128),
        amount as int * rate as int > u128::MAX as int ==> r === Err(Error::FeeOverflow),
        r matches Ok(f) ==> f as int == spec_market_fee(amount as int, rate as int),
{
    match amount.checked_mul(rate as u128) {
        None => Err(Error::FeeOverflow),
        Some(p) => {
            proof {
                vstd::arithmetic::div_mod::lemma_div_pos_is_pos(p as int, 10_000);
                vstd::arithmetic::div_mod::lemma_div_is_ordered(p as int, u128::MAX as int, 10_000);
            }
            Ok(p / 10_000)
        },
    }
}

} // verus!
