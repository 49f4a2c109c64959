use oracles::error::{DecodeError, LendingError, OracleError};
use oracles::program_ids::{PYTH_MAINNET, RENEC_ORACLE_MAINNET};
use oracles::renec::{
    get_renec_oracle_price, get_renec_oracle_price_unchecked_with_default_expo, is_renec_oracle,
    validate_renec_keys, DEFAULT_EXPO, RECORD_OFFSET, REUSD_REVND, STALE_AFTER_SLOTS_ELAPSED,
};
use oracles::{Clock, Decimal, OracleAccount, Pubkey, NULL_PUBKEY};
use solana_program::pubkey::Pubkey as SolanaPubkey;
use std::str::FromStr;

const NOW: i64 = 1_700_000_000;
const PRICE_KEY: [u8; 32] = [9; 32];
const PRODUCT_KEY: [u8; 32] = [8; 32];
const ONLINE: u8 = 2;
const OFFLINE: u8 = 1;

fn lending(error: LendingError) -> OracleError {
    OracleError::Lending(error)
}

fn field<T: borsh::BorshSerialize>(value: T) -> Vec<u8> {
    borsh::to_vec(&value).unwrap()
}

fn price_data(status: u8, price: u64, timestamp: u64) -> Vec<u8> {
    let mut data = vec![0xd1u8; 8];
    data.extend(field(1u16));
    data.extend(field(status));
    data.extend(field(PRODUCT_KEY));
    data.extend(field(price));
    data.extend(field(5u16));
    data.extend(field(timestamp));
    data.extend(field(price));
    data.extend(field(timestamp));
    data.extend(field([1u8]));
    data
}

fn product_data(status: u8, price_account: [u8; 32], expo: i32) -> Vec<u8> {
    let mut data = vec![0xd2u8; 8];
    data.extend(field(1u16));
    data.extend(field(status));
    data.extend(field(0u8));
    data.extend(field(String::from("USD")));
    data.extend(field([1u8; 32]));
    data.extend(field(String::from("VND")));
    data.extend(field([2u8; 32]));
    data.extend(field(price_account));
    data.extend(field(expo));
    data.extend(field(u64::MAX));
    data.extend(field(0u64));
    data.extend(field(10u64));
    data.extend(field([3u8; 32]));
    data.extend(field([1u8]));
    data
}

fn renec_account(key: [u8; 32], data: Vec<u8>) -> OracleAccount {
    OracleAccount { key: Pubkey { bytes: key }, owner: Pubkey { bytes: RENEC_ORACLE_MAINNET }, data }
}

fn live_price(price: u64) -> OracleAccount {
    renec_account(PRICE_KEY, price_data(ONLINE, price, NOW as u64))
}

fn live_product(expo: i32) -> OracleAccount {
    renec_account(PRODUCT_KEY, product_data(ONLINE, PRICE_KEY, expo))
}

fn clock() -> Clock {
    Clock { unix_timestamp: NOW }
}

fn reversed_market_key() -> [u8; 32] {
    SolanaPubkey::from_str(REUSD_REVND).unwrap().to_bytes()
}

#[test]
fn the_policy_constants_are_fixed() {
    assert_eq!(STALE_AFTER_SLOTS_ELAPSED, 60);
    assert_eq!(DEFAULT_EXPO, -2);
    assert_eq!(RECORD_OFFSET, 8);
    assert_eq!(REUSD_REVND, "8yZZmgHQLUJRUtvoCReqY19KHYtSXWpxdCpbeExmHzvK");
}

#[test]
fn ownership_by_the_renec_program_is_recognised() {
    assert!(is_renec_oracle(&live_price(1)));
    let mut foreign = live_price(1);
    foreign.owner = Pubkey { bytes: PYTH_MAINNET };
    assert!(!is_renec_oracle(&foreign));
    foreign.owner = foreign.key;
    assert!(!is_renec_oracle(&foreign));
}

#[test]
fn a_live_pair_is_priced_with_an_equal_average() {
    let quote = get_renec_oracle_price(&live_price(24_500_000_000), &live_product(-6), &clock());
    let expected = Decimal(24_500 * 10u128.pow(18));
    assert_eq!(quote, Ok((expected, expected)));
}

#[test]
fn a_live_pair_keeps_its_fractional_digits() {
    let quote = get_renec_oracle_price(&live_price(2_546_734), &live_product(-2), &clock());
    let expected = Decimal(25_467_340_000_000_000_000_000);
    assert_eq!(quote, Ok((expected, expected)));
}

#[test]
fn the_reversed_market_is_priced_by_the_reciprocal() {
    let key = reversed_market_key();
    let price = renec_account(key, price_data(ONLINE, 500, NOW as u64));
    let product = renec_account(PRODUCT_KEY, product_data(ONLINE, key, -2));
    let expected = Decimal(200_000_000_000_000_000);
    assert_eq!(get_renec_oracle_price(&price, &product, &clock()), Ok((expected, expected)));
}

#[test]
fn a_market_next_to_the_reversed_one_is_priced_directly() {
    let mut key = reversed_market_key();
    key[31] ^= 1;
    let price = renec_account(key, price_data(ONLINE, 500, NOW as u64));
    let product = renec_account(PRODUCT_KEY, product_data(ONLINE, key, -2));
    let expected = Decimal(5 * 10u128.pow(18));
    assert_eq!(get_renec_oracle_price(&price, &product, &clock()), Ok((expected, expected)));
}

#[test]
fn the_reversed_market_with_magnitude_zero_is_math_overflow() {
    let key = reversed_market_key();
    let price = renec_account(key, price_data(ONLINE, 0, NOW as u64));
    let product = renec_account(PRODUCT_KEY, product_data(ONLINE, key, -2));
    assert_eq!(
        get_renec_oracle_price(&price, &product, &clock()),
        Err(lending(LendingError::MathOverflow))
    );
}

#[test]
fn a_price_account_of_another_owner_is_refused() {
    let mut price = live_price(100);
    price.owner = Pubkey { bytes: PYTH_MAINNET };
    assert_eq!(
        get_renec_oracle_price(&price, &live_product(-2), &clock()),
        Err(lending(LendingError::InvalidRenecOracleAccount))
    );
}

#[test]
fn a_product_account_of_another_owner_is_refused() {
    let mut product = live_product(-2);
    product.owner = Pubkey { bytes: [0; 32] };
    assert_eq!(
        get_renec_oracle_price(&live_price(100), &product, &clock()),
        Err(lending(LendingError::InvalidRenecOracleAccount))
    );
}

#[test]
fn a_product_of_another_price_account_is_refused() {
    let product = renec_account(PRODUCT_KEY, product_data(ONLINE, [7; 32], -2));
    assert_eq!(
        get_renec_oracle_price(&live_price(100), &product, &clock()),
        Err(lending(LendingError::InvalidPriceOfProductOracle))
    );
}

#[test]
fn a_product_of_another_price_account_is_refused_whatever_the_rest() {
    let product = renec_account(PRODUCT_KEY, product_data(OFFLINE, [7; 32], 5));
    let price = renec_account(PRICE_KEY, price_data(OFFLINE, 0, 0));
    for now in [-1, 0, 59, NOW, i64::MAX] {
        assert_eq!(
            get_renec_oracle_price(&price, &product, &Clock { unix_timestamp: now }),
            Err(lending(LendingError::InvalidPriceOfProductOracle))
        );
    }
}

#[test]
fn the_null_price_account_is_refused_by_price_retrieval() {
    let price = renec_account(NULL_PUBKEY, price_data(ONLINE, 100, NOW as u64));
    let product = renec_account(PRODUCT_KEY, product_data(ONLINE, NULL_PUBKEY, -2));
    assert_eq!(
        get_renec_oracle_price(&price, &product, &clock()),
        Err(lending(LendingError::NullOracleConfig))
    );
}

#[test]
fn an_offline_product_is_refused() {
    for status in [0, OFFLINE] {
        let product = renec_account(PRODUCT_KEY, product_data(status, PRICE_KEY, -2));
        assert_eq!(
            get_renec_oracle_price(&live_price(100), &product, &clock()),
            Err(lending(LendingError::UnavailableProduct))
        );
    }
}

#[test]
fn an_offline_price_is_refused() {
    for status in [0, OFFLINE] {
        let price = renec_account(PRICE_KEY, price_data(status, 100, NOW as u64));
        assert_eq!(
            get_renec_oracle_price(&price, &live_product(-2), &clock()),
            Err(lending(LendingError::UnavailablePriceInfo))
        );
    }
}

#[test]
fn a_negative_clock_is_refused() {
    assert_eq!(
        get_renec_oracle_price(&live_price(100), &live_product(-2), &Clock { unix_timestamp: -1 }),
        Err(lending(LendingError::InvalidTimestampConversion))
    );
}

#[test]
fn a_price_older_than_sixty_seconds_is_too_old() {
    let product = live_product(-2);
    for age in [61u64, 62, 3_600, NOW as u64] {
        let price = renec_account(PRICE_KEY, price_data(ONLINE, 100, NOW as u64 - age));
        assert_eq!(
            get_renec_oracle_price(&price, &product, &clock()),
            Err(lending(LendingError::PriceTooOld))
        );
    }
}

#[test]
fn a_price_exactly_sixty_seconds_old_is_fresh() {
    let price = renec_account(PRICE_KEY, price_data(ONLINE, 100, NOW as u64 - 60));
    let expected = Decimal(10u128.pow(18));
    assert_eq!(
        get_renec_oracle_price(&price, &live_product(-2), &clock()),
        Ok((expected, expected))
    );
}

#[test]
fn a_price_from_the_future_is_fresh() {
    let price = renec_account(PRICE_KEY, price_data(ONLINE, 100, u64::MAX));
    assert!(get_renec_oracle_price(&price, &live_product(-2), &clock()).is_ok());
}

#[test]
fn in_the_first_minute_every_price_is_fresh() {
    let price = renec_account(PRICE_KEY, price_data(ONLINE, 100, 0));
    for now in [0, 1, 59, 60] {
        let quote = get_renec_oracle_price(&price, &live_product(-2), &Clock { unix_timestamp: now });
        assert!(quote.is_ok());
    }
    assert_eq!(
        get_renec_oracle_price(&price, &live_product(-2), &Clock { unix_timestamp: 61 }),
        Err(lending(LendingError::PriceTooOld))
    );
}

#[test]
fn a_positive_exponent_is_refused() {
    for price in [0, 100] {
        assert_eq!(
            get_renec_oracle_price(&live_price(price), &live_product(1), &clock()),
            Err(lending(LendingError::ExpoPositiveNonSupport))
        );
    }
}

#[test]
fn a_positive_exponent_is_refused_in_the_reversed_market_too() {
    let key = reversed_market_key();
    let price = renec_account(key, price_data(ONLINE, 0, NOW as u64));
    let product = renec_account(PRODUCT_KEY, product_data(ONLINE, key, 3));
    assert_eq!(
        get_renec_oracle_price(&price, &product, &clock()),
        Err(lending(LendingError::ExpoPositiveNonSupport))
    );
}

#[test]
fn an_exponent_beyond_nineteen_places_is_math_overflow() {
    assert_eq!(
        get_renec_oracle_price(&live_price(100), &live_product(-20), &clock()),
        Err(lending(LendingError::MathOverflow))
    );
    assert!(get_renec_oracle_price(&live_price(100), &live_product(-19), &clock()).is_ok());
}

#[test]
fn exponent_zero_prices_at_the_magnitude() {
    let expected = Decimal::from(123u64);
    assert_eq!(
        get_renec_oracle_price(&live_price(123), &live_product(0), &clock()),
        Ok((expected, expected))
    );
}

#[test]
fn a_corrupt_product_degrades_to_the_default_product() {
    let mut data = product_data(ONLINE, PRICE_KEY, -2);
    data[8 + 2] = 7;
    let product = renec_account(PRODUCT_KEY, data);
    assert_eq!(
        get_renec_oracle_price(&live_price(100), &product, &clock()),
        Err(lending(LendingError::InvalidPriceOfProductOracle))
    );
    let zero_keyed = renec_account([0; 32], price_data(ONLINE, 100, NOW as u64));
    assert_eq!(
        get_renec_oracle_price(&zero_keyed, &product, &clock()),
        Err(lending(LendingError::UnavailableProduct))
    );
}

#[test]
fn a_corrupt_price_record_degrades_to_the_default_record() {
    let mut data = price_data(ONLINE, 100, NOW as u64);
    data.truncate(8 + 40);
    let price = renec_account(PRICE_KEY, data);
    assert_eq!(
        get_renec_oracle_price(&price, &live_product(-2), &clock()),
        Err(lending(LendingError::UnavailablePriceInfo))
    );
}

#[test]
fn data_without_room_for_a_record_degrades_like_a_corrupt_record() {
    for len in [0usize, 1, 7, 8] {
        let product = renec_account(PRODUCT_KEY, vec![0; len]);
        assert_eq!(
            get_renec_oracle_price(&live_price(100), &product, &clock()),
            Err(lending(LendingError::InvalidPriceOfProductOracle))
        );
        let price = renec_account(PRICE_KEY, vec![0; len]);
        assert_eq!(
            get_renec_oracle_price(&price, &live_product(-2), &clock()),
            Err(lending(LendingError::UnavailablePriceInfo))
        );
        assert_eq!(
            get_renec_oracle_price_unchecked_with_default_expo(&price),
            Err(OracleError::Decode(DecodeError::UnexpectedLength))
        );
    }
}

#[test]
fn the_header_is_not_looked_at() {
    let mut price = live_price(100);
    let mut product = live_product(-2);
    let expected = get_renec_oracle_price(&price, &product, &clock());
    assert!(expected.is_ok());
    for i in 0..8 {
        price.data[i] = i as u8;
        product.data[i] = 255 - i as u8;
    }
    assert_eq!(get_renec_oracle_price(&price, &product, &clock()), expected);
}

#[test]
fn the_unchecked_price_takes_two_places() {
    let price = renec_account(PRICE_KEY, price_data(ONLINE, 2_546_734, 0));
    assert_eq!(
        get_renec_oracle_price_unchecked_with_default_expo(&price),
        Ok(Decimal(25_467_340_000_000_000_000_000))
    );
}

#[test]
fn the_unchecked_price_of_the_reversed_market_is_the_reciprocal() {
    let price = renec_account(reversed_market_key(), price_data(ONLINE, 500, 0));
    assert_eq!(
        get_renec_oracle_price_unchecked_with_default_expo(&price),
        Ok(Decimal(200_000_000_000_000_000))
    );
    let empty = renec_account(reversed_market_key(), price_data(ONLINE, 0, 0));
    assert_eq!(
        get_renec_oracle_price_unchecked_with_default_expo(&empty),
        Err(lending(LendingError::MathOverflow))
    );
}

#[test]
fn the_unchecked_price_checks_owner_null_key_and_status() {
    let mut foreign = live_price(100);
    foreign.owner = Pubkey { bytes: PYTH_MAINNET };
    assert_eq!(
        get_renec_oracle_price_unchecked_with_default_expo(&foreign),
        Err(lending(LendingError::InvalidRenecOracleAccount))
    );
    let null = renec_account(NULL_PUBKEY, price_data(ONLINE, 100, 0));
    assert_eq!(
        get_renec_oracle_price_unchecked_with_default_expo(&null),
        Err(lending(LendingError::NullOracleConfig))
    );
    let offline = renec_account(PRICE_KEY, price_data(OFFLINE, 100, 0));
    assert_eq!(
        get_renec_oracle_price_unchecked_with_default_expo(&offline),
        Err(lending(LendingError::UnavailablePriceInfo))
    );
}

#[test]
fn the_unchecked_price_reports_a_corrupt_record_as_it_is() {
    let mut data = price_data(ONLINE, 100, 0);
    data[8 + 2] = 3;
    assert_eq!(
        get_renec_oracle_price_unchecked_with_default_expo(&renec_account(PRICE_KEY, data)),
        Err(OracleError::Decode(DecodeError::InvalidVariant))
    );
    let mut data = price_data(ONLINE, 100, 0);
    data.pop();
    assert_eq!(
        get_renec_oracle_price_unchecked_with_default_expo(&renec_account(PRICE_KEY, data)),
        Err(OracleError::Decode(DecodeError::UnexpectedLength))
    );
}

#[test]
fn key_validation_passes_a_matching_pair() {
    assert_eq!(validate_renec_keys(&live_price(100), &live_product(-2)), Ok(()));
    let offline = renec_account(PRODUCT_KEY, product_data(OFFLINE, PRICE_KEY, 7));
    assert_eq!(validate_renec_keys(&live_price(100), &offline), Ok(()));
}

#[test]
fn key_validation_passes_the_null_price_account_unconditionally() {
    let mut price = renec_account(NULL_PUBKEY, Vec::new());
    let mut product = renec_account(PRODUCT_KEY, Vec::new());
    assert_eq!(validate_renec_keys(&price, &product), Ok(()));
    price.owner = Pubkey { bytes: PYTH_MAINNET };
    product.owner = Pubkey { bytes: [0; 32] };
    assert_eq!(validate_renec_keys(&price, &product), Ok(()));
    assert_eq!(validate_renec_keys(&price, &live_product(-2)), Ok(()));
}

#[test]
fn key_validation_refuses_accounts_of_another_owner() {
    let refused = Err(lending(LendingError::InvalidRenecOracleAccount));
    let mut price = live_price(100);
    price.owner = Pubkey { bytes: PYTH_MAINNET };
    assert_eq!(validate_renec_keys(&price, &live_product(-2)), refused);
    let mut product = live_product(-2);
    product.owner = Pubkey { bytes: PYTH_MAINNET };
    assert_eq!(validate_renec_keys(&live_price(100), &product), refused);
    assert_eq!(validate_renec_keys(&price, &product), refused);
}

#[test]
fn key_validation_refuses_a_product_of_another_price_account() {
    let product = renec_account(PRODUCT_KEY, product_data(ONLINE, [7; 32], -2));
    assert_eq!(
        validate_renec_keys(&live_price(100), &product),
        Err(lending(LendingError::InvalidPriceOfProductOracle))
    );
    let corrupt = renec_account(PRODUCT_KEY, vec![0; 20]);
    assert_eq!(
        validate_renec_keys(&live_price(100), &corrupt),
        Err(lending(LendingError::InvalidPriceOfProductOracle))
    );
    let zero_keyed = renec_account([0; 32], Vec::new());
    assert_eq!(validate_renec_keys(&zero_keyed, &corrupt), Ok(()));
}
