//! The two records of a Renec feed, the product descriptor and its price
//! record, and their binary layout.

use vstd::prelude::*;
use crate::error::DecodeError;
use crate::pubkey::Pubkey;
use crate::wire::{
    holds, le_i32, le_u16, le_u64, read_array, read_i32, read_pubkey, read_text, read_u16,
    read_u64, read_u8, text_at,
};

verus! {

/// The class of asset that a product quotes.
#[derive(Clone, Copy, Debug, PartialEq, Eq, Structural)]
pub enum AssetType {
    /// A currency pair.
    Forex,
    /// A crypto asset.
    Crypto,
}

impl Default for AssetType {
    fn default() -> (asset_type: AssetType)
        ensures
            asset_type == AssetType::Crypto,
    {
        AssetType::Crypto
    }
}

/// Whether a product is being served.
#[derive(Clone, Copy, Debug, PartialEq, Eq, Structural)]
pub enum ProductStatus {
    /// Not known; also the status of a record that could not be decoded.
    Unknown,
    /// Withdrawn.
    Offline,
    /// Served.
    Online,
}

impl Default for ProductStatus {
    fn default() -> (status: ProductStatus)
        ensures
            status == ProductStatus::Unknown,
    {
        ProductStatus::Unknown
    }
}

/// Whether a price record is being updated.
#[derive(Clone, Copy, Debug, PartialEq, Eq, Structural)]
pub enum PriceStatus {
    /// Not known; also the status of a record that could not be decoded.
    Unknown,
    /// Withdrawn.
    Offline,
    /// Updated.
    Online,
}

impl Default for PriceStatus {
    fn default() -> (status: PriceStatus)
        ensures
            status == PriceStatus::Unknown,
    {
        PriceStatus::Unknown
    }
}

/// The descriptor of one tradable pair.
#[derive(Debug, PartialEq, Eq)]
pub struct Product {
    /// Version of the format.
    pub version: u16,
    /// Whether the product is served.
    pub status: ProductStatus,
    /// Class of the asset.
    pub asset_type: AssetType,
    /// Code of the quote currency, such as USD.
    pub quote_currency: String,
    /// Mint of the quote asset.
    pub quote_mint: Pubkey,
    /// Code of the base currency, such as VND.
    pub base_currency: String,
    /// Mint of the base asset.
    pub base_mint: Pubkey,
    /// The account that holds this product's price record.
    pub price_account: Pubkey,
    /// Power of ten by which a price's magnitude is scaled: a magnitude of
    /// 2546734 with exponent -2 stands for 25467.34.
    pub expo: i32,
    /// Largest sane price.
    pub max_price: u64,
    /// Smallest sane price.
    pub min_price: u64,
    /// Size of the averaging window.
    pub window_size: u64,
    /// The authority that controls the product.
    pub controller: Pubkey,
    /// Padding.
    pub bump: [u8; 1],
}

/// What a [`Product`] holds, as mathematical values.
pub ghost struct ProductView {
    pub version: u16,
    pub status: ProductStatus,
    pub asset_type: AssetType,
    pub quote_currency: Seq<char>,
    pub quote_mint: Seq<u8>,
    pub base_currency: Seq<char>,
    pub base_mint: Seq<u8>,
    pub price_account: Seq<u8>,
    pub expo: i32,
    pub max_price: u64,
    pub min_price: u64,
    pub window_size: u64,
    pub controller: Seq<u8>,
    pub bump: Seq<u8>,
}

impl View for Product {
    type V = ProductView;

    open spec fn view(&self) -> ProductView {
        ProductView {
            version: self.version,
            status: self.status,
            asset_type: self.asset_type,
            quote_currency: self.quote_currency@,
            quote_mint: self.quote_mint@,
            base_currency: self.base_currency@,
            base_mint: self.base_mint@,
            price_account: self.price_account@,
            expo: self.expo,
            max_price: self.max_price,
            min_price: self.min_price,
            window_size: self.window_size,
            controller: self.controller@,
            bump: self.bump@,
        }
    }
}

/// The price record of one product.
#[derive(Clone, Copy, Debug, PartialEq, Eq)]
pub struct RenecPrice {
    /// Version of the format.
    pub version: u16,
    /// Whether the price is being updated.
    pub status: PriceStatus,
    /// The account that holds this price's product.
    pub product_account: Pubkey,
    /// Magnitude of the current price.
    pub price: u64,
    /// Number of publishers behind the price.
    pub num_publishers: u16,
    /// Time of the current price, in seconds.
    pub timestamp: u64,
    /// Magnitude of the price before.
    pub prev_price: u64,
    /// Time of the price before, in seconds.
    pub prev_timestamp: u64,
    /// Padding.
    pub bump: [u8; 1],
}

/// What a [`RenecPrice`] holds, as mathematical values.
pub ghost struct RenecPriceView {
    pub version: u16,
    pub status: PriceStatus,
    pub product_account: Seq<u8>,
    pub price: u64,
    pub num_publishers: u16,
    pub timestamp: u64,
    pub prev_price: u64,
    pub prev_timestamp: u64,
    pub bump: Seq<u8>,
}

impl View for RenecPrice {
    type V = RenecPriceView;

    open spec fn view(&self) -> RenecPriceView {
        RenecPriceView {
            version: self.version,
            status: self.status,
            product_account: self.product_account@,
            price: self.price,
            num_publishers: self.num_publishers,
            timestamp: self.timestamp,
            prev_price: self.prev_price,
            prev_timestamp: self.prev_timestamp,
            bump: self.bump@,
        }
    }
}

/// Thirty-two zero bytes: the identifier of a record that holds nothing.
pub open spec fn zero_key() -> Seq<u8> {
    Seq::new(32, |i: int| 0u8)
}

/// The product that stands in for a record that could not be decoded.
pub open spec fn default_product() -> ProductView {
    ProductView {
        version: 0,
        status: ProductStatus::Unknown,
        asset_type: AssetType::Crypto,
        quote_currency: Seq::empty(),
        quote_mint: zero_key(),
        base_currency: Seq::empty(),
        base_mint: zero_key(),
        price_account: zero_key(),
        expo: 0,
        max_price: 0,
        min_price: 0,
        window_size: 0,
        controller: zero_key(),
        bump: seq![0u8],
    }
}

/// The price record that stands in for one that could not be decoded.
pub open spec fn default_price() -> RenecPriceView {
    RenecPriceView {
        version: 0,
        status: PriceStatus::Unknown,
        product_account: zero_key(),
        price: 0,
        num_publishers: 0,
        timestamp: 0,
        prev_price: 0,
        prev_timestamp: 0,
        bump: seq![0u8],
    }
}

/// The asset class that a tag byte names; tags above 1 name none.
pub open spec fn asset_type_of(tag: u8) -> AssetType {
    if tag == 0 {
        AssetType::Forex
    } else {
        AssetType::Crypto
    }
}

/// The product status that a tag byte names; tags above 2 name none.
pub open spec fn product_status_of(tag: u8) -> ProductStatus {
    if tag == 0 {
        ProductStatus::Unknown
    } else if tag == 1 {
        ProductStatus::Offline
    } else {
        ProductStatus::Online
    }
}

/// The price status that a tag byte names; tags above 2 name none.
pub open spec fn price_status_of(tag: u8) -> PriceStatus {
    if tag == 0 {
        PriceStatus::Unknown
    } else if tag == 1 {
        PriceStatus::Offline
    } else {
        PriceStatus::Online
    }
}

/// Number of bytes that a price record takes.
pub const RENEC_PRICE_LEN: usize = 70;

/// Number of bytes that follow the second text field of a product.
pub const PRODUCT_TAIL_LEN: usize = 125;

/// The price record laid out at the start of `bytes`. Fields follow one
/// another without gaps, in the order of [`RenecPrice`]; what comes after the
/// record is ignored. The first field that cannot be read decides the error.
pub open spec fn parse_price(bytes: Seq<u8>) -> Result<RenecPriceView, DecodeError> {
    if bytes.len() < 3 {
        Err(DecodeError::UnexpectedLength)
    } else if bytes[2] > 2 {
        Err(DecodeError::InvalidVariant)
    } else if bytes.len() < RENEC_PRICE_LEN {
        Err(DecodeError::UnexpectedLength)
    } else {
        Ok(
            RenecPriceView {
                version: le_u16(bytes, 0),
                status: price_status_of(bytes[2]),
                product_account: bytes.subrange(3, 35),
                price: le_u64(bytes, 35),
                num_publishers: le_u16(bytes, 43),
                timestamp: le_u64(bytes, 45),
                prev_price: le_u64(bytes, 53),
                prev_timestamp: le_u64(bytes, 61),
                bump: bytes.subrange(69, 70),
            },
        )
    }
}

/// The fields of a product from its quote mint on, where the quote currency
/// was `quote_currency` and ended at offset `at`.
pub open spec fn parse_product_tail(
    bytes: Seq<u8>,
    version: u16,
    status: ProductStatus,
    asset_type: AssetType,
    quote_currency: Seq<char>,
    at: int,
) -> Result<ProductView, DecodeError> {
    if !holds(bytes, at, 32) {
        Err(DecodeError::UnexpectedLength)
    } else {
        match text_at(bytes, at + 32) {
            Err(e) => Err(e),
            Ok((base_currency, end)) => {
                if !holds(bytes, end, PRODUCT_TAIL_LEN as int) {
                    Err(DecodeError::UnexpectedLength)
                } else {
                    Ok(
                        ProductView {
                            version,
                            status,
                            asset_type,
                            quote_currency,
                            quote_mint: bytes.subrange(at, at + 32),
                            base_currency,
                            base_mint: bytes.subrange(end, end + 32),
                            price_account: bytes.subrange(end + 32, end + 64),
                            expo: le_i32(bytes, end + 64),
                            max_price: le_u64(bytes, end + 68),
                            min_price: le_u64(bytes, end + 76),
                            window_size: le_u64(bytes, end + 84),
                            controller: bytes.subrange(end + 92, end + 124),
                            bump: bytes.subrange(end + 124, end + 125),
                        },
                    )
                }
            },
        }
    }
}

/// The product laid out at the start of `bytes`. Fields follow one another
/// without gaps, in the order of [`Product`]; what comes after the record is
/// ignored. The first field that cannot be read decides the error.
pub open spec fn parse_product(bytes: Seq<u8>) -> Result<ProductView, DecodeError> {
    if bytes.len() < 3 {
        Err(DecodeError::UnexpectedLength)
    } else if bytes[2] > 2 {
        Err(DecodeError::InvalidVariant)
    } else if bytes.len() < 4 {
        Err(DecodeError::UnexpectedLength)
    } else if bytes[3] > 1 {
        Err(DecodeError::InvalidVariant)
    } else {
        match text_at(bytes, 4) {
            Err(e) => Err(e),
            Ok((quote_currency, at)) => parse_product_tail(
                bytes,
                le_u16(bytes, 0),
                product_status_of(bytes[2]),
                asset_type_of(bytes[3]),
                quote_currency,
                at,
            ),
        }
    }
}

impl Default for Product {
    fn default() -> (product: Product)
        ensures
            product@ == default_product(),
    {
        let product = Product {
            version: 0,
            status: ProductStatus::Unknown,
            asset_type: AssetType::Crypto,
            quote_currency: String::new(),
            quote_mint: Pubkey::default(),
            base_currency: String::new(),
            base_mint: Pubkey::default(),
            price_account: Pubkey::default(),
            expo: 0,
            max_price: 0,
            min_price: 0,
            window_size: 0,
            controller: Pubkey::default(),
            bump: [0u8; 1],
        };
        assert(product.bump@ =~= seq![0u8]);
        product
    }
}

impl Default for RenecPrice {
    fn default() -> (price: RenecPrice)
        ensures
            price@ == default_price(),
    {
        let price = RenecPrice {
            version: 0,
            status: PriceStatus::Unknown,
            product_account: Pubkey::default(),
            price: 0,
            num_publishers: 0,
            timestamp: 0,
            prev_price: 0,
            prev_timestamp: 0,
            bump: [0u8; 1],
        };
        assert(price.bump@ =~= seq![0u8]);
        price
    }
}

/// Reads the tag of a product status at `at`.
fn read_product_status(bytes: &[u8], at: usize) -> (field: Result<ProductStatus, DecodeError>)
    ensures
        !holds(bytes@, at as int, 1) ==> field == Err::<ProductStatus, DecodeError>(
            DecodeError::UnexpectedLength,
        ),
        holds(bytes@, at as int, 1) && bytes@[at as int] > 2 ==> field == Err::<
            ProductStatus,
            DecodeError,
        >(DecodeError::InvalidVariant),
        holds(bytes@, at as int, 1) && bytes@[at as int] <= 2 ==> field == Ok::<
            ProductStatus,
            DecodeError,
        >(product_status_of(bytes@[at as int])),
{
    let tag = read_u8(bytes, at)?;
    if tag == 0 {
        Ok(ProductStatus::Unknown)
    } else if tag == 1 {
        Ok(ProductStatus::Offline)
    } else if tag == 2 {
        Ok(ProductStatus::Online)
    } else {
        Err(DecodeError::InvalidVariant)
    }
}

/// Reads the tag of a price status at `at`.
fn read_price_status(bytes: &[u8], at: usize) -> (field: Result<PriceStatus, DecodeError>)
    ensures
        !holds(bytes@, at as int, 1) ==> field == Err::<PriceStatus, DecodeError>(
            DecodeError::UnexpectedLength,
        ),
        holds(bytes@, at as int, 1) && bytes@[at as int] > 2 ==> field == Err::<
            PriceStatus,
            DecodeError,
        >(DecodeError::InvalidVariant),
        holds(bytes@, at as int, 1) && bytes@[at as int] <= 2 ==> field == Ok::<
            PriceStatus,
            DecodeError,
        >(price_status_of(bytes@[at as int])),
{
    let tag = read_u8(bytes, at)?;
    if tag == 0 {
        Ok(PriceStatus::Unknown)
    } else if tag == 1 {
        Ok(PriceStatus::Offline)
    } else if tag == 2 {
        Ok(PriceStatus::Online)
    } else {
        Err(DecodeError::InvalidVariant)
    }
}

/// Reads the tag of an asset class at `at`.
fn read_asset_type(bytes: &[u8], at: usize) -> (field: Result<AssetType, DecodeError>)
    ensures
        !holds(bytes@, at as int, 1) ==> field == Err::<AssetType, DecodeError>(
            DecodeError::UnexpectedLength,
        ),
        holds(bytes@, at as int, 1) && bytes@[at as int] > 1 ==> field == Err::<
            AssetType,
            DecodeError,
        >(DecodeError::InvalidVariant),
        holds(bytes@, at as int, 1) && bytes@[at as int] <= 1 ==> field == Ok::<
            AssetType,
            DecodeError,
        >(asset_type_of(bytes@[at as int])),
{
    let tag = read_u8(bytes, at)?;
    if tag == 0 {
        Ok(AssetType::Forex)
    } else if tag == 1 {
        Ok(AssetType::Crypto)
    } else {
        Err(DecodeError::InvalidVariant)
    }
}

impl RenecPrice {
    /// Decodes the price record at the start of `bytes`.
    pub fn deserialize(bytes: &[u8]) -> (record: Result<RenecPrice, DecodeError>)
        ensures
            match record {
                Ok(price) => parse_price(bytes@) == Ok::<RenecPriceView, DecodeError>(price@),
                Err(e) => parse_price(bytes@) == Err::<RenecPriceView, DecodeError>(e),
            },
    {
        let version = read_u16(bytes, 0)?;
        let status = read_price_status(bytes, 2)?;
        let product_account = read_pubkey(bytes, 3)?;
        let price = read_u64(bytes, 35)?;
        let num_publishers = read_u16(bytes, 43)?;
        let timestamp = read_u64(bytes, 45)?;
        let prev_price = read_u64(bytes, 53)?;
        let prev_timestamp = read_u64(bytes, 61)?;
        let bump = read_array::<1>(bytes, 69)?;
        Ok(
            RenecPrice {
                version,
                status,
                product_account,
                price,
                num_publishers,
                timestamp,
                prev_price,
                prev_timestamp,
                bump,
            },
        )
    }
}

impl Product {
    /// Decodes the product at the start of `bytes`.
    pub fn deserialize(bytes: &[u8]) -> (record: Result<Product, DecodeError>)
        ensures
            match record {
                Ok(product) => parse_product(bytes@) == Ok::<ProductView, DecodeError>(product@),
                Err(e) => parse_product(bytes@) == Err::<ProductView, DecodeError>(e),
            },
    {
        let total = bytes.len();
        let version = read_u16(bytes, 0)?;
        let status = read_product_status(bytes, 2)?;
        let asset_type = read_asset_type(bytes, 3)?;
        let (quote_currency, at) = read_text(bytes, 4)?;
        let quote_mint = read_pubkey(bytes, at)?;
        let (base_currency, end) = read_text(bytes, at + 32)?;
        if total - end < PRODUCT_TAIL_LEN {
            return Err(DecodeError::UnexpectedLength);
        }
        let base_mint = read_pubkey(bytes, end)?;
        let price_account = read_pubkey(bytes, end + 32)?;
        let expo = read_i32(bytes, end + 64)?;
        let max_price = read_u64(bytes, end + 68)?;
        let min_price = read_u64(bytes, end + 76)?;
        let window_size = read_u64(bytes, end + 84)?;
        let controller = read_pubkey(bytes, end + 92)?;
        let bump = read_array::<1>(bytes, end + 124)?;
        Ok(
            Product {
                version,
                status,
                asset_type,
                quote_currency,
                quote_mint,
                base_currency,
                base_mint,
                price_account,
                expo,
                max_price,
                min_price,
                window_size,
                controller,
                bump,
            },
        )
    }
}

} // verus!
