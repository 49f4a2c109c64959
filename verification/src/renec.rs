//! The Renec feed: validation of a product and its price record, and the
//! conversion of a price into a decimal.

use vstd::prelude::*;
use vstd::arithmetic::power::pow;
use vstd::slice::slice_subrange;
use crate::account::{Clock, OracleAccount};
use crate::error::{DecodeError, LendingError, OracleError};
use crate::math::{checked_pow10, Decimal, WAD};
use crate::price::{
    default_price, default_product, parse_price, parse_product, PriceStatus, Product, ProductStatus,
    ProductView, RenecPrice, RenecPriceView,
};
use crate::program_ids::RENEC_ORACLE_MAINNET;
use crate::pubkey::{base58_text, pubkey_to_string, NULL_PUBKEY};

verus! {

/// The price account of the reUSD/reVND market, which is quoted the other
/// way round.
pub const REUSD_REVND: &'static str = "8yZZmgHQLUJRUtvoCReqY19KHYtSXWpxdCpbeExmHzvK";

/// Number of bytes at the start of an account's data that come before the
/// record and are not looked at.
pub const RECORD_OFFSET: usize = 8;

/// A price older than this many seconds is stale.
pub const STALE_AFTER_SLOTS_ELAPSED: u64 = 60;

/// The exponent taken for a price that is read without its product.
pub const DEFAULT_EXPO: i32 = -2;

/// The price accounts of the markets that are quoted the other way round, in
/// base 58.
pub open spec fn reverse_pairs() -> Seq<Seq<char>> {
    seq![REUSD_REVND@]
}

/// The table behind [`reverse_pairs`].
pub fn reverse_pair_table() -> (table: Vec<&'static str>)
    ensures
        market_texts(table@) == reverse_pairs(),
{
    let table = vec![REUSD_REVND];
    assert(market_texts(table@) =~= reverse_pairs());
    table
}

/// The texts of the entries of a table of markets.
pub open spec fn market_texts(table: Seq<&'static str>) -> Seq<Seq<char>> {
    Seq::new(table.len(), |i: int| table[i]@)
}

/// Whether a table of price accounts, each in base 58, lists the account
/// with this base-58 text.
pub fn lists_market(table: &Vec<&'static str>, price_key: &str) -> (listed: bool)
    ensures
        listed == market_texts(table@).contains(price_key@),
{
    let key = price_key.to_owned();
    let mut i: usize = 0;
    while i < table.len()
        invariant
            i <= table@.len(),
            key@ == price_key@,
            forall|j: int| 0 <= j < i ==> market_texts(table@)[j] != price_key@,
        decreases table@.len() - i,
    {
        let entry = table[i].to_owned();
        if entry == key {
            assert(market_texts(table@)[i as int] == price_key@);
            return true;
        }
        i += 1;
    }
    false
}

/// Whether the price account with this base-58 text belongs to a market that
/// is quoted the other way round.
pub fn is_reverse_pair(price_key: &str) -> (reverse: bool)
    ensures
        reverse == reverse_pairs().contains(price_key@),
{
    lists_market(&reverse_pair_table(), price_key)
}

/// A price's magnitude with the power of ten that scales it.
#[derive(Clone, Copy, Debug, PartialEq, Eq, Structural)]
pub struct PriceCalculator {
    /// The magnitude.
    pub price: u64,
    /// The power of ten; never positive in a value made by [`Self::new`].
    pub expo: i32,
}

impl PriceCalculator {
    /// Pairs a magnitude with its exponent. A positive exponent is refused.
    pub fn new(price: u64, expo: i32) -> (calculator: Result<PriceCalculator, OracleError>)
        ensures
            expo > 0 ==> calculator == Err::<PriceCalculator, OracleError>(
                OracleError::Lending(LendingError::ExpoPositiveNonSupport),
            ),
            expo <= 0 ==> calculator == Ok::<PriceCalculator, OracleError>(
                PriceCalculator { price, expo },
            ),
    {
        if expo > 0 {
            return Err(OracleError::Lending(LendingError::ExpoPositiveNonSupport));
        }
        Ok(PriceCalculator { price, expo })
    }
}

/// The number of decimal places that an exponent stands for.
pub open spec fn places(expo: i32) -> nat {
    if expo < 0 {
        (-expo) as nat
    } else {
        expo as nat
    }
}

/// The decimal that a magnitude and an exponent stand for: the magnitude
/// divided by ten to the number of places, or, for a market quoted the other
/// way round, that power divided by the magnitude. Both are rounded towards
/// zero at the eighteenth fractional digit.
pub open spec fn canonical_price(price: u64, expo: i32, is_reverse: bool) -> Result<
    Decimal,
    OracleError,
> {
    let decimals = pow(10, places(expo));
    if decimals > u64::MAX {
        Err(OracleError::Lending(LendingError::MathOverflow))
    } else if is_reverse {
        if price == 0 {
            Err(OracleError::Lending(LendingError::MathOverflow))
        } else {
            Ok(Decimal((decimals * WAD / (price as int)) as u128))
        }
    } else {
        Ok(Decimal((price * WAD / decimals) as u128))
    }
}

/// Converts a price into a decimal.
pub fn price_calculator_to_decimal(price_calculator: &PriceCalculator, is_reverse: bool) -> (decimal:
    Result<Decimal, OracleError>)
    ensures
        decimal == canonical_price(price_calculator.price, price_calculator.expo, is_reverse),
{
    let price = price_calculator.price;
    let expo = price_calculator.expo;
    if expo == i32::MIN {
        proof {
            crate::math::lemma_pow10_fits(places(expo));
        }
        return Err(OracleError::Lending(LendingError::MathOverflow));
    }
    let exponent: u32 = if expo < 0 {
        (-expo) as u32
    } else {
        expo as u32
    };
    let decimals = match checked_pow10(exponent) {
        Some(decimals) => decimals,
        None => {
            return Err(OracleError::Lending(LendingError::MathOverflow));
        },
    };
    if is_reverse {
        Decimal::from(decimals).try_div(price)
    } else {
        proof {
            crate::math::lemma_pow10_fits(places(expo));
        }
        Decimal::from(price).try_div(decimals)
    }
}

/// Converts a clock reading into an unsigned count of seconds.
pub fn to_timestamp_u64(t: i64) -> (seconds: Result<u64, LendingError>)
    ensures
        t >= 0 ==> seconds == Ok::<u64, LendingError>(t as u64),
        t < 0 ==> seconds == Err::<u64, LendingError>(LendingError::InvalidTimestampConversion),
{
    match u64::try_from(t) {
        Ok(seconds) => Ok(seconds),
        Err(_) => Err(LendingError::InvalidTimestampConversion),
    }
}

/// Whether the account is owned by the Renec oracle program.
pub open spec fn renec_owned(account: &OracleAccount) -> bool {
    account.owner@ == RENEC_ORACLE_MAINNET@
}

/// Whether the account is owned by the Renec oracle program.
pub fn is_renec_oracle(account: &OracleAccount) -> (owned: bool)
    ensures
        owned == renec_owned(account),
{
    account.owner.has_bytes(&RENEC_ORACLE_MAINNET)
}

/// The part of an account's data that holds its record: what follows the
/// first [`RECORD_OFFSET`] bytes. Data too short to have such a part holds
/// no record at all.
pub open spec fn record_bytes(data: Seq<u8>) -> Seq<u8> {
    if data.len() >= RECORD_OFFSET {
        data.skip(RECORD_OFFSET as int)
    } else {
        Seq::empty()
    }
}

/// The part of an account's data that holds its record.
fn record_region(data: &Vec<u8>) -> (region: &[u8])
    ensures
        region@ == record_bytes(data@),
{
    let bytes = data.as_slice();
    let region = if bytes.len() >= RECORD_OFFSET {
        slice_subrange(bytes, RECORD_OFFSET, bytes.len())
    } else {
        slice_subrange(bytes, 0, 0)
    };
    assert(region@ =~= record_bytes(data@));
    region
}

/// The product that an account holds, or the default product where its
/// data cannot be decoded.
pub open spec fn product_of(account: &OracleAccount) -> ProductView {
    match parse_product(record_bytes(account.data@)) {
        Ok(product) => product,
        Err(_) => default_product(),
    }
}

/// The price record that an account holds, or the default record where its
/// data cannot be decoded.
pub open spec fn price_of(account: &OracleAccount) -> RenecPriceView {
    match parse_price(record_bytes(account.data@)) {
        Ok(price) => price,
        Err(_) => default_price(),
    }
}

/// Whether a price of time `timestamp` is fresh at time `now`: not more than
/// [`STALE_AFTER_SLOTS_ELAPSED`] seconds old.
pub open spec fn is_fresh(now: int, timestamp: int) -> bool {
    now - STALE_AFTER_SLOTS_ELAPSED <= timestamp
}

/// Whether the price account belongs to a market that is quoted the other
/// way round.
pub open spec fn is_reverse_market(price_info: &OracleAccount) -> bool {
    reverse_pairs().contains(base58_text(price_info.key@))
}

/// The outcome of validating a product and its price record, and the price
/// where they pass. The checks are made in this order, and the first that
/// fails decides the error.
pub open spec fn checked_price(
    price_info: &OracleAccount,
    price_product: &OracleAccount,
    clock: &Clock,
) -> Result<(Decimal, Decimal), OracleError> {
    let product = product_of(price_product);
    let price = price_of(price_info);
    if !renec_owned(price_info) || !renec_owned(price_product) {
        Err(OracleError::Lending(LendingError::InvalidRenecOracleAccount))
    } else if product.price_account != price_info.key@ {
        Err(OracleError::Lending(LendingError::InvalidPriceOfProductOracle))
    } else if price_info.key@ == NULL_PUBKEY@ {
        Err(OracleError::Lending(LendingError::NullOracleConfig))
    } else if product.status != ProductStatus::Online {
        Err(OracleError::Lending(LendingError::UnavailableProduct))
    } else if price.status != PriceStatus::Online {
        Err(OracleError::Lending(LendingError::UnavailablePriceInfo))
    } else if clock.unix_timestamp < 0 {
        Err(OracleError::Lending(LendingError::InvalidTimestampConversion))
    } else if !is_fresh(clock.unix_timestamp as int, price.timestamp as int) {
        Err(OracleError::Lending(LendingError::PriceTooOld))
    } else if product.expo > 0 {
        Err(OracleError::Lending(LendingError::ExpoPositiveNonSupport))
    } else {
        match canonical_price(price.price, product.expo, is_reverse_market(price_info)) {
            Ok(market_price) => Ok((market_price, market_price)),
            Err(e) => Err(e),
        }
    }
}

/// Decodes the product that an account holds; where that fails, the default
/// product takes its place.
fn product_or_default(account: &OracleAccount) -> (product: Product)
    ensures
        product@ == product_of(account),
{
    match Product::deserialize(record_region(&account.data)) {
        Ok(product) => product,
        Err(_) => Product::default(),
    }
}

/// Decodes the price record that an account holds; where that fails, the
/// default record takes its place.
fn price_or_default(account: &OracleAccount) -> (price: RenecPrice)
    ensures
        price@ == price_of(account),
{
    match RenecPrice::deserialize(record_region(&account.data)) {
        Ok(price) => price,
        Err(_) => RenecPrice::default(),
    }
}

/// Whether the price account belongs to a market that is quoted the other
/// way round.
fn reverse_market(price_info: &OracleAccount) -> (reverse: bool)
    ensures
        reverse == is_reverse_market(price_info),
{
    let price_key = pubkey_to_string(&price_info.key);
    is_reverse_pair(price_key.as_str())
}

/// The price of a Renec feed and its moving average, which is the price
/// itself, after the product and the price record have passed every check.
pub fn get_renec_oracle_price(
    price_info: &OracleAccount,
    price_product: &OracleAccount,
    clock: &Clock,
) -> (quote: Result<(Decimal, Decimal), OracleError>)
    ensures
        quote == checked_price(price_info, price_product, clock),
{
    if !is_renec_oracle(price_info) {
        return Err(OracleError::Lending(LendingError::InvalidRenecOracleAccount));
    }
    if !is_renec_oracle(price_product) {
        return Err(OracleError::Lending(LendingError::InvalidRenecOracleAccount));
    }
    let oracle_product_info = product_or_default(price_product);
    if !(oracle_product_info.price_account == price_info.key) {
        return Err(OracleError::Lending(LendingError::InvalidPriceOfProductOracle));
    }
    if price_info.key.has_bytes(&NULL_PUBKEY) {
        return Err(OracleError::Lending(LendingError::NullOracleConfig));
    }
    if oracle_product_info.status != ProductStatus::Online {
        return Err(OracleError::Lending(LendingError::UnavailableProduct));
    }
    let oracle_price_info = price_or_default(price_info);
    if oracle_price_info.status != PriceStatus::Online {
        return Err(OracleError::Lending(LendingError::UnavailablePriceInfo));
    }
    let now = match to_timestamp_u64(clock.unix_timestamp) {
        Ok(now) => now,
        Err(e) => {
            return Err(OracleError::Lending(e));
        },
    };
    if now >= STALE_AFTER_SLOTS_ELAPSED && now - STALE_AFTER_SLOTS_ELAPSED
        > oracle_price_info.timestamp {
        return Err(OracleError::Lending(LendingError::PriceTooOld));
    }
    let price_calculator = PriceCalculator::new(oracle_price_info.price, oracle_product_info.expo)?;
    let is_reverse = reverse_market(price_info);
    let market_price = price_calculator_to_decimal(&price_calculator, is_reverse)?;
    let ema_price = market_price;
    Ok((market_price, ema_price))
}

/// The outcome of reading a price without its product. The checks are made
/// in this order, and the first that fails decides the error.
pub open spec fn unchecked_price(price_info: &OracleAccount) -> Result<Decimal, OracleError> {
    if !renec_owned(price_info) {
        Err(OracleError::Lending(LendingError::InvalidRenecOracleAccount))
    } else if price_info.key@ == NULL_PUBKEY@ {
        Err(OracleError::Lending(LendingError::NullOracleConfig))
    } else {
        match parse_price(record_bytes(price_info.data@)) {
            Err(e) => Err(OracleError::Decode(e)),
            Ok(price) => if price.status != PriceStatus::Online {
                Err(OracleError::Lending(LendingError::UnavailablePriceInfo))
            } else {
                canonical_price(price.price, DEFAULT_EXPO, is_reverse_market(price_info))
            },
        }
    }
}

/// The price of a Renec feed, read without its product and without regard
/// to its age, at the exponent [`DEFAULT_EXPO`].
pub fn get_renec_oracle_price_unchecked_with_default_expo(price_info: &OracleAccount) -> (quote:
    Result<Decimal, OracleError>)
    ensures
        quote == unchecked_price(price_info),
{
    if !is_renec_oracle(price_info) {
        return Err(OracleError::Lending(LendingError::InvalidRenecOracleAccount));
    }
    if price_info.key.has_bytes(&NULL_PUBKEY) {
        return Err(OracleError::Lending(LendingError::NullOracleConfig));
    }
    let oracle_price_info = match RenecPrice::deserialize(record_region(&price_info.data)) {
        Ok(price) => price,
        Err(e) => {
            return Err(OracleError::Decode(e));
        },
    };
    if oracle_price_info.status != PriceStatus::Online {
        return Err(OracleError::Lending(LendingError::UnavailablePriceInfo));
    }
    let price_calculator = PriceCalculator::new(oracle_price_info.price, DEFAULT_EXPO)?;
    let is_reverse = reverse_market(price_info);
    price_calculator_to_decimal(&price_calculator, is_reverse)
}

/// The outcome of checking that a product belongs to a price account. A
/// price account with the null identifier passes whatever else holds.
pub open spec fn checked_keys(price_info: &OracleAccount, product_info: &OracleAccount) -> Result<
    (),
    OracleError,
> {
    if price_info.key@ == NULL_PUBKEY@ {
        Ok(())
    } else if !renec_owned(price_info) || !renec_owned(product_info) {
        Err(OracleError::Lending(LendingError::InvalidRenecOracleAccount))
    } else if product_of(product_info).price_account != price_info.key@ {
        Err(OracleError::Lending(LendingError::InvalidPriceOfProductOracle))
    } else {
        Ok(())
    }
}

/// Checks that a product belongs to a price account.
pub fn validate_renec_keys(price_info: &OracleAccount, product_info: &OracleAccount) -> (outcome:
    Result<(), OracleError>)
    ensures
        outcome == checked_keys(price_info, product_info),
{
    if price_info.key.has_bytes(&NULL_PUBKEY) {
        return Ok(());
    }
    if !is_renec_oracle(price_info) {
        return Err(OracleError::Lending(LendingError::InvalidRenecOracleAccount));
    }
    if !is_renec_oracle(product_info) {
        return Err(OracleError::Lending(LendingError::InvalidRenecOracleAccount));
    }
    let oracle_product_info = product_or_default(product_info);
    if !(oracle_product_info.price_account == price_info.key) {
        return Err(OracleError::Lending(LendingError::InvalidPriceOfProductOracle));
    }
    Ok(())
}

} // verus!
