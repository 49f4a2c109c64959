//! The records of a Renec feed written out as bytes, and that decoding is
//! the inverse of writing.

use vstd::prelude::*;
use vstd::arithmetic::div_mod::{lemma_fundamental_div_mod, lemma_fundamental_div_mod_converse};
use vstd::utf8::{
    decode_utf8, decode_utf8_encode_utf8, encode_utf8, encode_utf8_decode_utf8,
    encode_utf8_valid_utf8, valid_utf8,
};
use crate::error::DecodeError;
use crate::price::{
    parse_price, parse_product, parse_product_tail, AssetType, PriceStatus, ProductStatus,
    ProductView, RenecPriceView,
};
use crate::wire::{holds, le_i32, le_u16, le_u32, le_u64, text_at};

verus! {

/// The two little-endian bytes of a number.
pub open spec fn u16_bytes(value: u16) -> Seq<u8> {
    seq![(value % 0x100) as u8, (value / 0x100) as u8]
}

/// The four little-endian bytes of a number.
pub open spec fn u32_bytes(value: u32) -> Seq<u8> {
    seq![
        (value % 0x100) as u8,
        (value / 0x100 % 0x100) as u8,
        (value / 0x1_0000 % 0x100) as u8,
        (value / 0x100_0000) as u8,
    ]
}

/// The eight little-endian bytes of a number.
pub open spec fn u64_bytes(value: u64) -> Seq<u8> {
    u32_bytes((value % 0x1_0000_0000) as u32) + u32_bytes((value / 0x1_0000_0000) as u32)
}

/// The four little-endian bytes of a signed number in two's complement.
pub open spec fn i32_bytes(value: i32) -> Seq<u8> {
    if value < 0 {
        u32_bytes((value + 0x1_0000_0000) as u32)
    } else {
        u32_bytes(value as u32)
    }
}

/// A text field: the length of the text's UTF-8 bytes, then those bytes.
pub open spec fn text_bytes(text: Seq<char>) -> Seq<u8> {
    u32_bytes(encode_utf8(text).len() as u32) + encode_utf8(text)
}

/// The bytes of `field` stand in `bytes` from offset `at` on.
pub open spec fn stands_at(bytes: Seq<u8>, at: int, field: Seq<u8>) -> bool {
    holds(bytes, at, field.len() as int) && bytes.subrange(at, at + field.len()) == field
}

/// A 16-bit number that was written at an offset is read there.
pub proof fn lemma_u16_written_is_read(bytes: Seq<u8>, at: int, value: u16)
    requires
        stands_at(bytes, at, u16_bytes(value)),
    ensures
        le_u16(bytes, at) == value,
{
    let field = bytes.subrange(at, at + 2);
    assert(field[0] == bytes[at] && field[1] == bytes[at + 1]);
}

/// The 16-bit number that is read at an offset is written there.
pub proof fn lemma_u16_read_is_written(bytes: Seq<u8>, at: int)
    requires
        holds(bytes, at, 2),
    ensures
        stands_at(bytes, at, u16_bytes(le_u16(bytes, at))),
{
    assert(bytes.subrange(at, at + 2) =~= u16_bytes(le_u16(bytes, at)));
}

/// A 32-bit number is the sum of its four digits to base 256.
proof fn lemma_u32_is_sum_of_digits(value: int)
    requires
        0 <= value <= u32::MAX,
    ensures
        value == value % 0x100 + 0x100 * (value / 0x100 % 0x100) + 0x1_0000 * (value / 0x1_0000
            % 0x100) + 0x100_0000 * (value / 0x100_0000),
        0 <= value / 0x100_0000 < 0x100,
{
    let upper_three = value / 0x100;
    let upper_two = upper_three / 0x100;
    let top = upper_two / 0x100;
    lemma_fundamental_div_mod(value, 0x100);
    lemma_fundamental_div_mod(upper_three, 0x100);
    lemma_fundamental_div_mod(upper_two, 0x100);
    lemma_fundamental_div_mod_converse(
        value,
        0x1_0000,
        upper_two,
        value % 0x100 + 0x100 * (upper_three % 0x100),
    );
    lemma_fundamental_div_mod_converse(
        value,
        0x100_0000,
        top,
        value % 0x100 + 0x100 * (upper_three % 0x100) + 0x1_0000 * (upper_two % 0x100),
    );
}

/// A 32-bit number that was written at an offset is read there.
pub proof fn lemma_u32_written_is_read(bytes: Seq<u8>, at: int, value: u32)
    requires
        stands_at(bytes, at, u32_bytes(value)),
    ensures
        le_u32(bytes, at) == value,
{
    let field = bytes.subrange(at, at + 4);
    assert(field[0] == bytes[at] && field[1] == bytes[at + 1] && field[2] == bytes[at + 2]
        && field[3] == bytes[at + 3]);
    lemma_u32_is_sum_of_digits(value as int);
}

/// The four digits to base 256 of a number are found again by division.
proof fn lemma_digits_of_u32(b0: int, b1: int, b2: int, b3: int)
    requires
        0 <= b0 < 0x100,
        0 <= b1 < 0x100,
        0 <= b2 < 0x100,
        0 <= b3 < 0x100,
    ensures
        ({
            let value = b0 + 0x100 * b1 + 0x1_0000 * b2 + 0x100_0000 * b3;
            &&& 0 <= value <= u32::MAX
            &&& value % 0x100 == b0
            &&& value / 0x100 % 0x100 == b1
            &&& value / 0x1_0000 % 0x100 == b2
            &&& value / 0x100_0000 == b3
        }),
{
    let value = b0 + 0x100 * b1 + 0x1_0000 * b2 + 0x100_0000 * b3;
    let upper_three = b1 + 0x100 * b2 + 0x1_0000 * b3;
    let upper_two = b2 + 0x100 * b3;
    lemma_fundamental_div_mod_converse(value, 0x100, upper_three, b0);
    lemma_fundamental_div_mod_converse(upper_three, 0x100, upper_two, b1);
    lemma_fundamental_div_mod_converse(value, 0x1_0000, upper_two, b0 + 0x100 * b1);
    lemma_fundamental_div_mod_converse(upper_two, 0x100, b3, b2);
    lemma_fundamental_div_mod_converse(value, 0x100_0000, b3, b0 + 0x100 * b1 + 0x1_0000 * b2);
}

/// The 32-bit number that is read at an offset is written there.
pub proof fn lemma_u32_read_is_written(bytes: Seq<u8>, at: int)
    requires
        holds(bytes, at, 4),
    ensures
        stands_at(bytes, at, u32_bytes(le_u32(bytes, at))),
{
    lemma_digits_of_u32(
        bytes[at] as int,
        bytes[at + 1] as int,
        bytes[at + 2] as int,
        bytes[at + 3] as int,
    );
    assert(bytes.subrange(at, at + 4) =~= u32_bytes(le_u32(bytes, at)));
}

/// Two fields that stand one after the other stand there as one field, and
/// the other way round.
pub proof fn lemma_stands_at_concat(bytes: Seq<u8>, at: int, first: Seq<u8>, second: Seq<u8>)
    ensures
        stands_at(bytes, at, first + second) <==> stands_at(bytes, at, first) && stands_at(
            bytes,
            at + first.len(),
            second,
        ),
{
    let whole = first + second;
    if stands_at(bytes, at, whole) {
        assert(bytes.subrange(at, at + first.len()) =~= whole.subrange(0, first.len() as int));
        assert(whole.subrange(0, first.len() as int) =~= first);
        assert(bytes.subrange(at + first.len(), at + first.len() + second.len())
            =~= whole.subrange(first.len() as int, whole.len() as int));
        assert(whole.subrange(first.len() as int, whole.len() as int) =~= second);
    }
    if stands_at(bytes, at, first) && stands_at(bytes, at + first.len(), second) {
        assert(bytes.subrange(at, at + whole.len()) =~= bytes.subrange(at, at + first.len())
            + bytes.subrange(at + first.len(), at + first.len() + second.len()));
    }
}

/// A 64-bit number that was written at an offset is read there.
pub proof fn lemma_u64_written_is_read(bytes: Seq<u8>, at: int, value: u64)
    requires
        stands_at(bytes, at, u64_bytes(value)),
    ensures
        le_u64(bytes, at) == value,
{
    let low = (value % 0x1_0000_0000) as u32;
    let high = (value / 0x1_0000_0000) as u32;
    lemma_stands_at_concat(bytes, at, u32_bytes(low), u32_bytes(high));
    lemma_u32_written_is_read(bytes, at, low);
    lemma_u32_written_is_read(bytes, at + 4, high);
}

/// The 64-bit number that is read at an offset is written there.
pub proof fn lemma_u64_read_is_written(bytes: Seq<u8>, at: int)
    requires
        holds(bytes, at, 8),
    ensures
        stands_at(bytes, at, u64_bytes(le_u64(bytes, at))),
{
    let low = le_u32(bytes, at);
    let high = le_u32(bytes, at + 4);
    let value = le_u64(bytes, at);
    assert(value == low + 0x1_0000_0000 * high);
    assert(value % 0x1_0000_0000 == low && value / 0x1_0000_0000 == high);
    lemma_u32_read_is_written(bytes, at);
    lemma_u32_read_is_written(bytes, at + 4);
    lemma_stands_at_concat(bytes, at, u32_bytes(low), u32_bytes(high));
}

/// A signed 32-bit number that was written at an offset is read there.
pub proof fn lemma_i32_written_is_read(bytes: Seq<u8>, at: int, value: i32)
    requires
        stands_at(bytes, at, i32_bytes(value)),
    ensures
        le_i32(bytes, at) == value,
{
    if value < 0 {
        lemma_u32_written_is_read(bytes, at, (value + 0x1_0000_0000) as u32);
    } else {
        lemma_u32_written_is_read(bytes, at, value as u32);
    }
}

/// The signed 32-bit number that is read at an offset is written there.
pub proof fn lemma_i32_read_is_written(bytes: Seq<u8>, at: int)
    requires
        holds(bytes, at, 4),
    ensures
        stands_at(bytes, at, i32_bytes(le_i32(bytes, at))),
{
    lemma_u32_read_is_written(bytes, at);
}

/// A text that was written at an offset is read there, and the next field
/// starts where its bytes end.
pub proof fn lemma_text_written_is_read(bytes: Seq<u8>, at: int, text: Seq<char>)
    requires
        0 <= at,
        encode_utf8(text).len() <= u32::MAX,
        stands_at(bytes, at, text_bytes(text)),
    ensures
        text_at(bytes, at) == Ok::<(Seq<char>, int), DecodeError>(
            (text, at + text_bytes(text).len()),
        ),
{
    let body = encode_utf8(text);
    let prefix = u32_bytes(body.len() as u32);
    lemma_stands_at_concat(bytes, at, prefix, body);
    lemma_u32_written_is_read(bytes, at, body.len() as u32);
    encode_utf8_valid_utf8(text);
    encode_utf8_decode_utf8(text);
}

/// The text that is read at an offset is written there, up to the offset
/// where the next field starts.
pub proof fn lemma_text_read_is_written(bytes: Seq<u8>, at: int)
    requires
        0 <= at,
        text_at(bytes, at) is Ok,
    ensures
        encode_utf8(text_at(bytes, at)->Ok_0.0).len() <= u32::MAX,
        stands_at(bytes, at, text_bytes(text_at(bytes, at)->Ok_0.0)),
        text_at(bytes, at)->Ok_0.1 == at + text_bytes(text_at(bytes, at)->Ok_0.0).len(),
{
    let (text, end) = text_at(bytes, at)->Ok_0;
    let body = bytes.subrange(at + 4, end);
    lemma_u32_read_is_written(bytes, at);
    decode_utf8_encode_utf8(body);
    assert(encode_utf8(text) == body);
    lemma_stands_at_concat(bytes, at, u32_bytes(body.len() as u32), body);
}

/// The tag byte of an asset class.
pub open spec fn asset_type_tag(asset_type: AssetType) -> u8 {
    match asset_type {
        AssetType::Forex => 0,
        AssetType::Crypto => 1,
    }
}

/// The tag byte of a product status.
pub open spec fn product_status_tag(status: ProductStatus) -> u8 {
    match status {
        ProductStatus::Unknown => 0,
        ProductStatus::Offline => 1,
        ProductStatus::Online => 2,
    }
}

/// The tag byte of a price status.
pub open spec fn price_status_tag(status: PriceStatus) -> u8 {
    match status {
        PriceStatus::Unknown => 0,
        PriceStatus::Offline => 1,
        PriceStatus::Online => 2,
    }
}

/// The values are those of a price record: its identifier has 32 bytes and
/// its padding one.
pub open spec fn is_price_record(price: RenecPriceView) -> bool {
    price.product_account.len() == 32 && price.bump.len() == 1
}

/// A price record written out: its fields one after the other.
pub open spec fn price_layout(price: RenecPriceView) -> Seq<u8> {
    u16_bytes(price.version) + seq![price_status_tag(price.status)] + price.product_account
        + u64_bytes(price.price) + u16_bytes(price.num_publishers) + u64_bytes(price.timestamp)
        + u64_bytes(price.prev_price) + u64_bytes(price.prev_timestamp) + price.bump
}

/// Each field of a price record stands at its offset.
pub open spec fn price_fields_stand(bytes: Seq<u8>, price: RenecPriceView) -> bool {
    &&& stands_at(bytes, 0, u16_bytes(price.version))
    &&& stands_at(bytes, 2, seq![price_status_tag(price.status)])
    &&& stands_at(bytes, 3, price.product_account)
    &&& stands_at(bytes, 35, u64_bytes(price.price))
    &&& stands_at(bytes, 43, u16_bytes(price.num_publishers))
    &&& stands_at(bytes, 45, u64_bytes(price.timestamp))
    &&& stands_at(bytes, 53, u64_bytes(price.prev_price))
    &&& stands_at(bytes, 61, u64_bytes(price.prev_timestamp))
    &&& stands_at(bytes, 69, price.bump)
}

/// A price record stands at the start of a region exactly when each of its
/// fields stands at its offset.
proof fn lemma_price_layout_by_fields(bytes: Seq<u8>, price: RenecPriceView)
    requires
        is_price_record(price),
    ensures
        price_layout(price).len() == 70,
        stands_at(bytes, 0, price_layout(price)) <==> price_fields_stand(bytes, price),
{
    let f0 = u16_bytes(price.version);
    let f1 = seq![price_status_tag(price.status)];
    let f2 = price.product_account;
    let f3 = u64_bytes(price.price);
    let f4 = u16_bytes(price.num_publishers);
    let f5 = u64_bytes(price.timestamp);
    let f6 = u64_bytes(price.prev_price);
    let f7 = u64_bytes(price.prev_timestamp);
    let f8 = price.bump;
    lemma_stands_at_concat(bytes, 0, f0, f1);
    lemma_stands_at_concat(bytes, 0, f0 + f1, f2);
    lemma_stands_at_concat(bytes, 0, f0 + f1 + f2, f3);
    lemma_stands_at_concat(bytes, 0, f0 + f1 + f2 + f3, f4);
    lemma_stands_at_concat(bytes, 0, f0 + f1 + f2 + f3 + f4, f5);
    lemma_stands_at_concat(bytes, 0, f0 + f1 + f2 + f3 + f4 + f5, f6);
    lemma_stands_at_concat(bytes, 0, f0 + f1 + f2 + f3 + f4 + f5 + f6, f7);
    lemma_stands_at_concat(bytes, 0, f0 + f1 + f2 + f3 + f4 + f5 + f6 + f7, f8);
}

/// Decoding gives back a price record that was written, whatever follows
/// it.
pub proof fn lemma_price_written_is_decoded(price: RenecPriceView, rest: Seq<u8>)
    requires
        is_price_record(price),
    ensures
        parse_price(price_layout(price) + rest) == Ok::<RenecPriceView, DecodeError>(price),
{
    let bytes = price_layout(price) + rest;
    lemma_price_layout_by_fields(bytes, price);
    assert(bytes.subrange(0, 70) =~= price_layout(price));
    lemma_u16_written_is_read(bytes, 0, price.version);
    assert(bytes.subrange(2, 3)[0] == bytes[2]);
    lemma_u64_written_is_read(bytes, 35, price.price);
    lemma_u16_written_is_read(bytes, 43, price.num_publishers);
    lemma_u64_written_is_read(bytes, 45, price.timestamp);
    lemma_u64_written_is_read(bytes, 53, price.prev_price);
    lemma_u64_written_is_read(bytes, 61, price.prev_timestamp);
}

/// A price record that is decoded from a region is written at its start.
pub proof fn lemma_price_decoded_is_written(bytes: Seq<u8>)
    requires
        parse_price(bytes) is Ok,
    ensures
        is_price_record(parse_price(bytes)->Ok_0),
        stands_at(bytes, 0, price_layout(parse_price(bytes)->Ok_0)),
{
    let price = parse_price(bytes)->Ok_0;
    lemma_price_layout_by_fields(bytes, price);
    lemma_u16_read_is_written(bytes, 0);
    assert(bytes.subrange(2, 3) =~= seq![price_status_tag(price.status)]);
    lemma_u64_read_is_written(bytes, 35);
    lemma_u16_read_is_written(bytes, 43);
    lemma_u64_read_is_written(bytes, 45);
    lemma_u64_read_is_written(bytes, 53);
    lemma_u64_read_is_written(bytes, 61);
}

/// The values are those of a product: each identifier has 32 bytes, the
/// padding one, and the length of each text fits its prefix.
pub open spec fn is_product_record(product: ProductView) -> bool {
    &&& encode_utf8(product.quote_currency).len() <= u32::MAX
    &&& product.quote_mint.len() == 32
    &&& encode_utf8(product.base_currency).len() <= u32::MAX
    &&& product.base_mint.len() == 32
    &&& product.price_account.len() == 32
    &&& product.controller.len() == 32
    &&& product.bump.len() == 1
}

/// A product written out: its fields one after the other.
pub open spec fn product_layout(product: ProductView) -> Seq<u8> {
    u16_bytes(product.version) + seq![product_status_tag(product.status)] + seq![
        asset_type_tag(product.asset_type),
    ] + text_bytes(product.quote_currency) + product.quote_mint + text_bytes(product.base_currency)
        + product.base_mint + product.price_account + i32_bytes(product.expo) + u64_bytes(
        product.max_price,
    ) + u64_bytes(product.min_price) + u64_bytes(product.window_size) + product.controller
        + product.bump
}

/// The offset at which the quote mint of a product stands.
pub open spec fn quote_mint_offset(product: ProductView) -> int {
    4 + text_bytes(product.quote_currency).len() as int
}

/// The offset at which the base mint of a product stands.
pub open spec fn base_mint_offset(product: ProductView) -> int {
    quote_mint_offset(product) + 32 + text_bytes(product.base_currency).len()
}

/// Each field of a product stands at its offset.
pub open spec fn product_fields_stand(bytes: Seq<u8>, product: ProductView) -> bool {
    let at = quote_mint_offset(product);
    let end = base_mint_offset(product);
    &&& stands_at(bytes, 0, u16_bytes(product.version))
    &&& stands_at(bytes, 2, seq![product_status_tag(product.status)])
    &&& stands_at(bytes, 3, seq![asset_type_tag(product.asset_type)])
    &&& stands_at(bytes, 4, text_bytes(product.quote_currency))
    &&& stands_at(bytes, at, product.quote_mint)
    &&& stands_at(bytes, at + 32, text_bytes(product.base_currency))
    &&& stands_at(bytes, end, product.base_mint)
    &&& stands_at(bytes, end + 32, product.price_account)
    &&& stands_at(bytes, end + 64, i32_bytes(product.expo))
    &&& stands_at(bytes, end + 68, u64_bytes(product.max_price))
    &&& stands_at(bytes, end + 76, u64_bytes(product.min_price))
    &&& stands_at(bytes, end + 84, u64_bytes(product.window_size))
    &&& stands_at(bytes, end + 92, product.controller)
    &&& stands_at(bytes, end + 124, product.bump)
}

/// A product stands at the start of a region exactly when each of its
/// fields stands at its offset.
proof fn lemma_product_layout_by_fields(bytes: Seq<u8>, product: ProductView)
    requires
        is_product_record(product),
    ensures
        product_layout(product).len() == base_mint_offset(product) + 125,
        stands_at(bytes, 0, product_layout(product)) <==> product_fields_stand(bytes, product),
{
    let f0 = u16_bytes(product.version);
    let f1 = seq![product_status_tag(product.status)];
    let f2 = seq![asset_type_tag(product.asset_type)];
    let f3 = text_bytes(product.quote_currency);
    let f4 = product.quote_mint;
    let f5 = text_bytes(product.base_currency);
    let f6 = product.base_mint;
    let f7 = product.price_account;
    let f8 = i32_bytes(product.expo);
    let f9 = u64_bytes(product.max_price);
    let f10 = u64_bytes(product.min_price);
    let f11 = u64_bytes(product.window_size);
    let f12 = product.controller;
    let f13 = product.bump;
    lemma_stands_at_concat(bytes, 0, f0, f1);
    lemma_stands_at_concat(bytes, 0, f0 + f1, f2);
    lemma_stands_at_concat(bytes, 0, f0 + f1 + f2, f3);
    lemma_stands_at_concat(bytes, 0, f0 + f1 + f2 + f3, f4);
    lemma_stands_at_concat(bytes, 0, f0 + f1 + f2 + f3 + f4, f5);
    lemma_stands_at_concat(bytes, 0, f0 + f1 + f2 + f3 + f4 + f5, f6);
    lemma_stands_at_concat(bytes, 0, f0 + f1 + f2 + f3 + f4 + f5 + f6, f7);
    lemma_stands_at_concat(bytes, 0, f0 + f1 + f2 + f3 + f4 + f5 + f6 + f7, f8);
    lemma_stands_at_concat(bytes, 0, f0 + f1 + f2 + f3 + f4 + f5 + f6 + f7 + f8, f9);
    lemma_stands_at_concat(bytes, 0, f0 + f1 + f2 + f3 + f4 + f5 + f6 + f7 + f8 + f9, f10);
    lemma_stands_at_concat(bytes, 0, f0 + f1 + f2 + f3 + f4 + f5 + f6 + f7 + f8 + f9 + f10, f11);
    lemma_stands_at_concat(
        bytes,
        0,
        f0 + f1 + f2 + f3 + f4 + f5 + f6 + f7 + f8 + f9 + f10 + f11,
        f12,
    );
    lemma_stands_at_concat(
        bytes,
        0,
        f0 + f1 + f2 + f3 + f4 + f5 + f6 + f7 + f8 + f9 + f10 + f11 + f12,
        f13,
    );
}

/// Where each field of a product stands at its offset, the fields from the
/// quote mint on are decoded as they are.
proof fn lemma_product_tail_is_decoded(bytes: Seq<u8>, product: ProductView)
    requires
        is_product_record(product),
        product_fields_stand(bytes, product),
    ensures
        parse_product_tail(
            bytes,
            product.version,
            product.status,
            product.asset_type,
            product.quote_currency,
            quote_mint_offset(product),
        ) == Ok::<ProductView, DecodeError>(product),
{
    let at = quote_mint_offset(product);
    let end = base_mint_offset(product);
    lemma_text_written_is_read(bytes, at + 32, product.base_currency);
    lemma_i32_written_is_read(bytes, end + 64, product.expo);
    lemma_u64_written_is_read(bytes, end + 68, product.max_price);
    lemma_u64_written_is_read(bytes, end + 76, product.min_price);
    lemma_u64_written_is_read(bytes, end + 84, product.window_size);
    assert(holds(bytes, end, 125));
}

/// Decoding gives back a product that was written, whatever follows it.
pub proof fn lemma_product_written_is_decoded(product: ProductView, rest: Seq<u8>)
    requires
        is_product_record(product),
    ensures
        parse_product(product_layout(product) + rest) == Ok::<ProductView, DecodeError>(product),
{
    let bytes = product_layout(product) + rest;
    assert(product_fields_stand(bytes, product)) by {
        lemma_product_layout_by_fields(bytes, product);
        assert(bytes.subrange(0, product_layout(product).len() as int) =~= product_layout(
            product,
        ));
    }
    lemma_product_tail_is_decoded(bytes, product);
    lemma_u16_written_is_read(bytes, 0, product.version);
    assert(bytes[2] == product_status_tag(product.status)) by {
        assert(bytes.subrange(2, 3)[0] == bytes[2]);
    }
    assert(bytes[3] == asset_type_tag(product.asset_type)) by {
        assert(bytes.subrange(3, 4)[0] == bytes[3]);
    }
    lemma_text_written_is_read(bytes, 4, product.quote_currency);
}

/// A product that is decoded from a region is written at its start.
pub proof fn lemma_product_decoded_is_written(bytes: Seq<u8>)
    requires
        parse_product(bytes) is Ok,
    ensures
        is_product_record(parse_product(bytes)->Ok_0),
        stands_at(bytes, 0, product_layout(parse_product(bytes)->Ok_0)),
{
    let product = parse_product(bytes)->Ok_0;
    let at = text_at(bytes, 4)->Ok_0.1;
    let end = text_at(bytes, at + 32)->Ok_0.1;
    lemma_text_read_is_written(bytes, 4);
    lemma_text_read_is_written(bytes, at + 32);
    assert(at == quote_mint_offset(product));
    assert(end == base_mint_offset(product));
    lemma_product_layout_by_fields(bytes, product);
    lemma_u16_read_is_written(bytes, 0);
    assert(bytes.subrange(2, 3) =~= seq![product_status_tag(product.status)]);
    assert(bytes.subrange(3, 4) =~= seq![asset_type_tag(product.asset_type)]);
    lemma_i32_read_is_written(bytes, end + 64);
    lemma_u64_read_is_written(bytes, end + 68);
    lemma_u64_read_is_written(bytes, end + 76);
    lemma_u64_read_is_written(bytes, end + 84);
}

} // verus!
