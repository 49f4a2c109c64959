use oracles::error::DecodeError;
use oracles::price::{AssetType, PriceStatus, Product, ProductStatus, RenecPrice};
use oracles::wire::{read_i32, read_pubkey, read_text, read_u16, read_u32, read_u64, read_u8};
use oracles::Pubkey;

fn field<T: borsh::BorshSerialize>(value: T) -> Vec<u8> {
    borsh::to_vec(&value).unwrap()
}

fn sample_price() -> RenecPrice {
    RenecPrice {
        version: 0x0102,
        status: PriceStatus::Online,
        product_account: Pubkey { bytes: [7; 32] },
        price: 24_500_000_000,
        num_publishers: 3,
        timestamp: 1_700_000_000,
        prev_price: 24_400_000_000,
        prev_timestamp: 1_699_999_990,
        bump: [254],
    }
}

fn price_status_tag(status: PriceStatus) -> u8 {
    match status {
        PriceStatus::Unknown => 0,
        PriceStatus::Offline => 1,
        PriceStatus::Online => 2,
    }
}

fn product_status_tag(status: ProductStatus) -> u8 {
    match status {
        ProductStatus::Unknown => 0,
        ProductStatus::Offline => 1,
        ProductStatus::Online => 2,
    }
}

fn asset_type_tag(asset_type: AssetType) -> u8 {
    match asset_type {
        AssetType::Forex => 0,
        AssetType::Crypto => 1,
    }
}

fn price_bytes(price: &RenecPrice) -> Vec<u8> {
    let mut bytes = Vec::new();
    bytes.extend(field(price.version));
    bytes.extend(field(price_status_tag(price.status)));
    bytes.extend(field(price.product_account.bytes));
    bytes.extend(field(price.price));
    bytes.extend(field(price.num_publishers));
    bytes.extend(field(price.timestamp));
    bytes.extend(field(price.prev_price));
    bytes.extend(field(price.prev_timestamp));
    bytes.extend(field(price.bump));
    bytes
}

fn sample_product() -> Product {
    Product {
        version: 1,
        status: ProductStatus::Online,
        asset_type: AssetType::Forex,
        quote_currency: String::from("USD"),
        quote_mint: Pubkey { bytes: [1; 32] },
        base_currency: String::from("VND"),
        base_mint: Pubkey { bytes: [2; 32] },
        price_account: Pubkey { bytes: [3; 32] },
        expo: -6,
        max_price: 30_000_000_000,
        min_price: 20_000_000_000,
        window_size: 10,
        controller: Pubkey { bytes: [4; 32] },
        bump: [255],
    }
}

fn product_bytes(product: &Product) -> Vec<u8> {
    let mut bytes = Vec::new();
    bytes.extend(field(product.version));
    bytes.extend(field(product_status_tag(product.status)));
    bytes.extend(field(asset_type_tag(product.asset_type)));
    bytes.extend(field(product.quote_currency.clone()));
    bytes.extend(field(product.quote_mint.bytes));
    bytes.extend(field(product.base_currency.clone()));
    bytes.extend(field(product.base_mint.bytes));
    bytes.extend(field(product.price_account.bytes));
    bytes.extend(field(product.expo));
    bytes.extend(field(product.max_price));
    bytes.extend(field(product.min_price));
    bytes.extend(field(product.window_size));
    bytes.extend(field(product.controller.bytes));
    bytes.extend(field(product.bump));
    bytes
}

#[test]
fn integers_are_read_little_endian() {
    let bytes = [0x01u8, 0x02, 0x03, 0x04, 0x05, 0x06, 0x07, 0x08, 0x09];
    assert_eq!(read_u8(&bytes, 8), Ok(0x09));
    assert_eq!(read_u16(&bytes, 0), Ok(0x0201));
    assert_eq!(read_u16(&bytes, 7), Ok(0x0908));
    assert_eq!(read_u32(&bytes, 1), Ok(0x0504_0302));
    assert_eq!(read_u64(&bytes, 0), Ok(0x0807_0605_0403_0201));
    assert_eq!(read_u64(&bytes, 1), Ok(0x0908_0706_0504_0302));
    assert_eq!(read_i32(&bytes, 0), Ok(0x0403_0201));
}

#[test]
fn integers_agree_with_the_standard_conversions() {
    for value in [0u64, 1, 255, 256, 65_535, 65_536, u32::MAX as u64, 1 << 32, u64::MAX] {
        assert_eq!(read_u64(&value.to_le_bytes(), 0), Ok(value));
        assert_eq!(read_u64(&field(value), 0), Ok(value));
    }
    for value in [0u32, 1, 255, 256, 0x7fff_ffff, 0x8000_0000, u32::MAX] {
        assert_eq!(read_u32(&value.to_le_bytes(), 0), Ok(value));
    }
    for value in [0u16, 1, 255, 256, u16::MAX] {
        assert_eq!(read_u16(&value.to_le_bytes(), 0), Ok(value));
    }
}

#[test]
fn signed_integers_are_two_s_complement() {
    for value in [0i32, 1, -1, -2, -6, 19, -19, i32::MAX, i32::MIN, i32::MIN + 1] {
        assert_eq!(read_i32(&value.to_le_bytes(), 0), Ok(value));
        assert_eq!(read_i32(&field(value), 0), Ok(value));
    }
    assert_eq!(read_i32(&[0xfe, 0xff, 0xff, 0xff], 0), Ok(-2));
}

#[test]
fn a_field_that_runs_past_the_end_is_refused() {
    let bytes = [0u8; 8];
    assert_eq!(read_u8(&bytes, 8), Err(DecodeError::UnexpectedLength));
    assert_eq!(read_u8(&bytes, usize::MAX), Err(DecodeError::UnexpectedLength));
    assert_eq!(read_u16(&bytes, 7), Err(DecodeError::UnexpectedLength));
    assert_eq!(read_u16(&bytes, usize::MAX), Err(DecodeError::UnexpectedLength));
    assert_eq!(read_u32(&bytes, 5), Err(DecodeError::UnexpectedLength));
    assert_eq!(read_i32(&bytes, 5), Err(DecodeError::UnexpectedLength));
    assert_eq!(read_u64(&bytes, 1), Err(DecodeError::UnexpectedLength));
    assert_eq!(read_u64(&bytes, usize::MAX - 3), Err(DecodeError::UnexpectedLength));
    assert_eq!(read_pubkey(&bytes, 0), Err(DecodeError::UnexpectedLength));
    assert_eq!(read_u64(&[], 0), Err(DecodeError::UnexpectedLength));
}

#[test]
fn an_identifier_is_read_byte_for_byte() {
    let bytes: Vec<u8> = (0u8..40).collect();
    let key = read_pubkey(&bytes, 5).unwrap();
    let expected: Vec<u8> = (5u8..37).collect();
    assert_eq!(key.bytes.to_vec(), expected);
    assert!(read_pubkey(&bytes, 8).is_ok());
    assert_eq!(read_pubkey(&bytes, 9), Err(DecodeError::UnexpectedLength));
}

#[test]
fn text_is_read_with_its_length_prefix() {
    let mut bytes = vec![9u8];
    bytes.extend(field(String::from("USD")));
    bytes.push(77);
    assert_eq!(bytes.len(), 1 + 4 + 3 + 1);
    assert_eq!(read_text(&bytes, 1), Ok((String::from("USD"), 8)));
    assert_eq!(read_text(&field(String::new()), 0), Ok((String::new(), 4)));
}

#[test]
fn text_beyond_ascii_is_decoded() {
    let text = String::from("đồng ₫ 💱");
    let bytes = field(text.clone());
    assert_eq!(read_text(&bytes, 0), Ok((text, bytes.len())));
}

#[test]
fn text_that_is_cut_short_is_refused() {
    let bytes = field(String::from("USD"));
    assert_eq!(read_text(&bytes[..6], 0), Err(DecodeError::UnexpectedLength));
    assert_eq!(read_text(&bytes[..3], 0), Err(DecodeError::UnexpectedLength));
    assert_eq!(read_text(&bytes, 1), Err(DecodeError::UnexpectedLength));
    assert_eq!(read_text(&[0xff, 0xff, 0xff, 0xff, 0], 0), Err(DecodeError::UnexpectedLength));
}

#[test]
fn text_that_is_not_utf8_is_refused() {
    assert_eq!(read_text(&[2, 0, 0, 0, 0xc3, 0x28], 0), Err(DecodeError::InvalidUtf8));
    assert_eq!(read_text(&[1, 0, 0, 0, 0xff], 0), Err(DecodeError::InvalidUtf8));
    assert_eq!(read_text(&[3, 0, 0, 0, 0xed, 0xa0, 0x80], 0), Err(DecodeError::InvalidUtf8));
}

#[test]
fn a_price_record_is_decoded_field_by_field() {
    let price = sample_price();
    let bytes = price_bytes(&price);
    assert_eq!(bytes.len(), 70);
    assert_eq!(RenecPrice::deserialize(&bytes), Ok(price));
}

#[test]
fn each_price_status_is_decoded() {
    for status in [PriceStatus::Unknown, PriceStatus::Offline, PriceStatus::Online] {
        let mut price = sample_price();
        price.status = status;
        assert_eq!(RenecPrice::deserialize(&price_bytes(&price)), Ok(price));
    }
}

#[test]
fn bytes_after_a_price_record_are_ignored() {
    let price = sample_price();
    let mut bytes = price_bytes(&price);
    bytes.extend([0xaa; 100]);
    assert_eq!(RenecPrice::deserialize(&bytes), Ok(price));
}

#[test]
fn a_price_record_that_is_cut_short_is_refused() {
    let bytes = price_bytes(&sample_price());
    for len in 0..bytes.len() {
        assert_eq!(RenecPrice::deserialize(&bytes[..len]), Err(DecodeError::UnexpectedLength));
    }
}

#[test]
fn an_unknown_price_status_is_refused() {
    let mut bytes = price_bytes(&sample_price());
    bytes[2] = 3;
    assert_eq!(RenecPrice::deserialize(&bytes), Err(DecodeError::InvalidVariant));
    bytes[2] = 255;
    assert_eq!(RenecPrice::deserialize(&bytes), Err(DecodeError::InvalidVariant));
    assert_eq!(RenecPrice::deserialize(&bytes[..3]), Err(DecodeError::InvalidVariant));
    assert_eq!(RenecPrice::deserialize(&bytes[..2]), Err(DecodeError::UnexpectedLength));
}

#[test]
fn the_default_price_record_holds_nothing() {
    let price = RenecPrice::default();
    assert_eq!(
        price,
        RenecPrice {
            version: 0,
            status: PriceStatus::Unknown,
            product_account: Pubkey { bytes: [0; 32] },
            price: 0,
            num_publishers: 0,
            timestamp: 0,
            prev_price: 0,
            prev_timestamp: 0,
            bump: [0],
        }
    );
    assert_eq!(RenecPrice::deserialize(&[0u8; 70]), Ok(price));
}

#[test]
fn a_product_is_decoded_field_by_field() {
    let product = sample_product();
    let bytes = product_bytes(&product);
    assert_eq!(bytes.len(), 4 + 7 + 32 + 7 + 125);
    assert_eq!(Product::deserialize(&bytes), Ok(product));
}

#[test]
fn a_product_with_long_and_empty_text_is_decoded() {
    let mut product = sample_product();
    product.quote_currency = String::new();
    product.base_currency = "đồng".repeat(100);
    product.status = ProductStatus::Offline;
    product.asset_type = AssetType::Crypto;
    product.expo = i32::MIN;
    product.max_price = u64::MAX;
    let bytes = product_bytes(&product);
    assert_eq!(Product::deserialize(&bytes), Ok(product));
}

#[test]
fn bytes_after_a_product_are_ignored() {
    let product = sample_product();
    let mut bytes = product_bytes(&product);
    bytes.extend([0x55; 64]);
    assert_eq!(Product::deserialize(&bytes), Ok(product));
}

#[test]
fn a_product_that_is_cut_short_is_refused() {
    let bytes = product_bytes(&sample_product());
    for len in 0..bytes.len() {
        assert_eq!(Product::deserialize(&bytes[..len]), Err(DecodeError::UnexpectedLength));
    }
}

#[test]
fn an_unknown_product_tag_is_refused() {
    let mut bytes = product_bytes(&sample_product());
    bytes[2] = 3;
    assert_eq!(Product::deserialize(&bytes), Err(DecodeError::InvalidVariant));
    bytes[2] = 2;
    bytes[3] = 2;
    assert_eq!(Product::deserialize(&bytes), Err(DecodeError::InvalidVariant));
    assert_eq!(Product::deserialize(&bytes[..4]), Err(DecodeError::InvalidVariant));
    assert_eq!(Product::deserialize(&bytes[..3]), Err(DecodeError::UnexpectedLength));
}

#[test]
fn a_product_with_text_that_is_not_utf8_is_refused() {
    let mut bytes = product_bytes(&sample_product());
    bytes[8] = 0xff;
    assert_eq!(Product::deserialize(&bytes), Err(DecodeError::InvalidUtf8));
    let mut bytes = product_bytes(&sample_product());
    bytes[4 + 7 + 32 + 4] = 0x80;
    assert_eq!(Product::deserialize(&bytes), Err(DecodeError::InvalidUtf8));
}

#[test]
fn the_first_field_that_fails_decides() {
    let mut bytes = product_bytes(&sample_product());
    bytes[2] = 9;
    bytes[3] = 9;
    bytes[8] = 0xff;
    assert_eq!(Product::deserialize(&bytes), Err(DecodeError::InvalidVariant));
    bytes[2] = 0;
    assert_eq!(Product::deserialize(&bytes), Err(DecodeError::InvalidVariant));
    bytes[3] = 0;
    assert_eq!(Product::deserialize(&bytes), Err(DecodeError::InvalidUtf8));
    assert_eq!(Product::deserialize(&bytes[..10]), Err(DecodeError::UnexpectedLength));
}

#[test]
fn the_default_product_holds_nothing() {
    let product = Product::default();
    assert_eq!(
        product,
        Product {
            version: 0,
            status: ProductStatus::Unknown,
            asset_type: AssetType::Crypto,
            quote_currency: String::new(),
            quote_mint: Pubkey { bytes: [0; 32] },
            base_currency: String::new(),
            base_mint: Pubkey { bytes: [0; 32] },
            price_account: Pubkey { bytes: [0; 32] },
            expo: 0,
            max_price: 0,
            min_price: 0,
            window_size: 0,
            controller: Pubkey { bytes: [0; 32] },
            bump: [0],
        }
    );
}

#[test]
fn the_default_tags_are_those_of_an_empty_record() {
    assert_eq!(AssetType::default(), AssetType::Crypto);
    assert_eq!(ProductStatus::default(), ProductStatus::Unknown);
    assert_eq!(PriceStatus::default(), PriceStatus::Unknown);
}

#[test]
fn decoding_agrees_with_borsh_on_primitive_fields() {
    let bytes = field(String::from("reVND"));
    let mut rest: &[u8] = &bytes;
    let text: String = borsh::BorshDeserialize::deserialize(&mut rest).unwrap();
    assert_eq!(read_text(&bytes, 0), Ok((text, bytes.len() - rest.len())));
    let bad = [2u8, 0, 0, 0, 0xc3, 0x28];
    let mut rest: &[u8] = &bad;
    let refused: Result<String, _> = borsh::BorshDeserialize::deserialize(&mut rest);
    assert!(refused.is_err());
    assert!(read_text(&bad, 0).is_err());
    let short = [5u8, 0, 0, 0, b'a'];
    let mut rest: &[u8] = &short;
    let refused: Result<String, _> = borsh::BorshDeserialize::deserialize(&mut rest);
    assert!(refused.is_err());
    assert!(read_text(&short, 0).is_err());
}
