//! The record that the voucher program keeps of a voucher for the repayment
//! of debt.

use vstd::prelude::*;
use vstd::utf8::encode_utf8;
use crate::account::OracleAccount;
use crate::error::{DecodeError, OracleError};
use crate::pubkey::Pubkey;
use crate::wire::{
    holds, le_i64, le_u128, le_u32, le_u64, read_array, read_bool, read_i64, read_pubkey,
    read_u128, read_u32, read_u64, read_u8,
};

verus! {

/// A voucher that discounts the repayment of debt.
#[derive(Debug, Default, PartialEq)]
pub struct RepayDebtVoucher {
    /// The mark that the voucher program puts on records of this kind.
    pub discriminator: [u8; 8],
    /// The discount, in percent.
    pub discount_percentage: u8,
    /// The largest amount that is discounted, in USD.
    pub maximum_amount: u64,
    /// The time from which the voucher applies.
    pub start_time: i64,
    /// The time until which the voucher applies.
    pub end_time: i64,
    /// The mint of the voucher's token.
    pub nft_mint: Pubkey,
    /// The authority over that token.
    pub authority: Pubkey,
    /// The market that the voucher is for.
    pub market: Pubkey,
    /// Whether the voucher applies to every token.
    pub is_universal_discount: bool,
    /// Reserved.
    pub _reserve_field: [u8; 15],
    /// Reserved.
    pub _reserve: [u128; 3],
    /// The tokens that the voucher applies to.
    pub eligible_tokens: Vec<Pubkey>,
}

/// What a [`RepayDebtVoucher`] holds, as mathematical values.
pub ghost struct RepayDebtVoucherView {
    pub discriminator: Seq<u8>,
    pub discount_percentage: u8,
    pub maximum_amount: u64,
    pub start_time: i64,
    pub end_time: i64,
    pub nft_mint: Seq<u8>,
    pub authority: Seq<u8>,
    pub market: Seq<u8>,
    pub is_universal_discount: bool,
    pub reserve_field: Seq<u8>,
    pub reserve: Seq<u128>,
    pub eligible_tokens: Seq<Seq<u8>>,
}

impl View for RepayDebtVoucher {
    type V = RepayDebtVoucherView;

    open spec fn view(&self) -> RepayDebtVoucherView {
        RepayDebtVoucherView {
            discriminator: self.discriminator@,
            discount_percentage: self.discount_percentage,
            maximum_amount: self.maximum_amount,
            start_time: self.start_time,
            end_time: self.end_time,
            nft_mint: self.nft_mint@,
            authority: self.authority@,
            market: self.market@,
            is_universal_discount: self.is_universal_discount,
            reserve_field: self._reserve_field@,
            reserve: self._reserve@,
            eligible_tokens: Seq::new(
                self.eligible_tokens@.len(),
                |i: int| self.eligible_tokens@[i]@,
            ),
        }
    }
}

/// Number of bytes that a voucher takes before its list of tokens.
pub const VOUCHER_HEAD_LEN: usize = 197;

/// The voucher laid out in `bytes`. Fields follow one another without gaps,
/// in the order of [`RepayDebtVoucher`]; the list of tokens is a 32-bit count
/// and then that many identifiers, and the record ends where the region
/// does. The first field that cannot be read decides the error.
pub open spec fn parse_voucher(bytes: Seq<u8>) -> Result<RepayDebtVoucherView, DecodeError> {
    if bytes.len() < 130 {
        Err(DecodeError::UnexpectedLength)
    } else if bytes[129] > 1 {
        Err(DecodeError::InvalidBool)
    } else if bytes.len() < VOUCHER_HEAD_LEN {
        Err(DecodeError::UnexpectedLength)
    } else {
        let count = le_u32(bytes, 193) as int;
        if bytes.len() < VOUCHER_HEAD_LEN + 32 * count {
            Err(DecodeError::UnexpectedLength)
        } else if bytes.len() > VOUCHER_HEAD_LEN + 32 * count {
            Err(DecodeError::TrailingBytes)
        } else {
            Ok(
                RepayDebtVoucherView {
                    discriminator: bytes.subrange(0, 8),
                    discount_percentage: bytes[8],
                    maximum_amount: le_u64(bytes, 9),
                    start_time: le_i64(bytes, 17),
                    end_time: le_i64(bytes, 25),
                    nft_mint: bytes.subrange(33, 65),
                    authority: bytes.subrange(65, 97),
                    market: bytes.subrange(97, 129),
                    is_universal_discount: bytes[129] == 1,
                    reserve_field: bytes.subrange(130, 145),
                    reserve: Seq::new(3, |i: int| le_u128(bytes, 145 + 16 * i)),
                    eligible_tokens: Seq::new(
                        count as nat,
                        |i: int| bytes.subrange(197 + 32 * i, 229 + 32 * i),
                    ),
                },
            )
        }
    }
}

/// The SHA-256 digest of `data`, as `solana_program::hash::hash` computes
/// it.
pub uninterp spec fn sha256(data: Seq<u8>) -> Seq<u8>;

/// Calls `solana_program::hash::hash` on the data and takes the digest's
/// bytes. The digest depends on the data alone; nothing else is claimed of
/// it.
#[verifier::external_body]
fn hash(data: &[u8]) -> (digest: [u8; 32])
    ensures
        digest@ == sha256(data@),
{
    solana_program::hash::hash(data).to_bytes()
}

/// The text whose digest marks an account of the voucher program.
pub const ACCOUNT_NAMESPACE: &'static str = "account:";

/// The name of this record in the voucher program.
pub const ACCOUNT_NAME: &'static str = "RepayDebtVoucher";

/// The mark that a digest gives: its first eight bytes.
pub fn discriminator_of(digest: &[u8; 32]) -> (mark: [u8; 8])
    ensures
        mark@ == digest@.subrange(0, 8),
{
    let mut mark: [u8; 8] = [0u8; 8];
    let mut i: usize = 0;
    while i < 8
        invariant
            i <= 8,
            forall|j: int| 0 <= j < i ==> mark@[j] == digest@[j],
        decreases 8 - i,
    {
        mark[i] = digest[i];
        i += 1;
    }
    assert(mark@ =~= digest@.subrange(0, 8));
    mark
}

impl RepayDebtVoucher {
    /// The mark that the voucher program puts on records of this kind: the
    /// first eight bytes of the digest of the namespace followed by the
    /// record's name.
    pub fn discriminator() -> (mark: [u8; 8])
        ensures
            mark@ == sha256(encode_utf8(ACCOUNT_NAMESPACE@) + encode_utf8(ACCOUNT_NAME@)).subrange(
                0,
                8,
            ),
    {
        let mut concatenated_bytes: Vec<u8> = Vec::new();
        concatenated_bytes.extend_from_slice(ACCOUNT_NAMESPACE.as_bytes());
        concatenated_bytes.extend_from_slice(ACCOUNT_NAME.as_bytes());
        assert(concatenated_bytes@ =~= encode_utf8(ACCOUNT_NAMESPACE@) + encode_utf8(
            ACCOUNT_NAME@,
        ));
        let hashed = hash(concatenated_bytes.as_slice());
        discriminator_of(&hashed)
    }

    /// Decodes the voucher that fills `bytes`.
    pub fn try_from_slice(bytes: &[u8]) -> (record: Result<RepayDebtVoucher, DecodeError>)
        ensures
            match record {
                Ok(voucher) => parse_voucher(bytes@) == Ok::<RepayDebtVoucherView, DecodeError>(
                    voucher@,
                ),
                Err(e) => parse_voucher(bytes@) == Err::<RepayDebtVoucherView, DecodeError>(e),
            },
    {
        let total = bytes.len();
        let discriminator = read_array::<8>(bytes, 0)?;
        let discount_percentage = read_u8(bytes, 8)?;
        let maximum_amount = read_u64(bytes, 9)?;
        let start_time = read_i64(bytes, 17)?;
        let end_time = read_i64(bytes, 25)?;
        let nft_mint = read_pubkey(bytes, 33)?;
        let authority = read_pubkey(bytes, 65)?;
        let market = read_pubkey(bytes, 97)?;
        let is_universal_discount = read_bool(bytes, 129)?;
        let reserve_field = read_array::<15>(bytes, 130)?;
        let reserve_0 = read_u128(bytes, 145)?;
        let reserve_1 = read_u128(bytes, 161)?;
        let reserve_2 = read_u128(bytes, 177)?;
        let reserve: [u128; 3] = [reserve_0, reserve_1, reserve_2];
        let count = read_u32(bytes, 193)?;
        let room = (total - VOUCHER_HEAD_LEN) as u64;
        if room < 32 * (count as u64) {
            return Err(DecodeError::UnexpectedLength);
        }
        if room > 32 * (count as u64) {
            return Err(DecodeError::TrailingBytes);
        }
        let mut eligible_tokens: Vec<Pubkey> = Vec::new();
        let mut i: usize = 0;
        while i < count as usize
            invariant
                i <= count,
                total == bytes@.len(),
                total == VOUCHER_HEAD_LEN + 32 * count,
                eligible_tokens@.len() == i,
                forall|j: int|
                    0 <= j < i ==> (#[trigger] eligible_tokens@[j])@ == bytes@.subrange(
                        197 + 32 * j,
                        229 + 32 * j,
                    ),
            decreases count - i,
        {
            let token = read_pubkey(bytes, VOUCHER_HEAD_LEN + 32 * i)?;
            eligible_tokens.push(token);
            i += 1;
        }
        let voucher = RepayDebtVoucher {
            discriminator,
            discount_percentage,
            maximum_amount,
            start_time,
            end_time,
            nft_mint,
            authority,
            market,
            is_universal_discount,
            _reserve_field: reserve_field,
            _reserve: reserve,
            eligible_tokens,
        };
        proof {
            let parsed = parse_voucher(bytes@)->Ok_0;
            assert(voucher@.reserve =~= parsed.reserve);
            assert(voucher@.eligible_tokens =~= parsed.eligible_tokens);
        }
        Ok(voucher)
    }

    /// Decodes the voucher that fills an account's data.
    pub fn try_from_account(repay_debt_voucher: &OracleAccount) -> (record: Result<
        RepayDebtVoucher,
        OracleError,
    >)
        ensures
            match record {
                Ok(voucher) => parse_voucher(repay_debt_voucher.data@) == Ok::<
                    RepayDebtVoucherView,
                    DecodeError,
                >(voucher@),
                Err(OracleError::Decode(cause)) => parse_voucher(repay_debt_voucher.data@) == Err::<
                    RepayDebtVoucherView,
                    DecodeError,
                >(cause),
                Err(OracleError::Lending(_)) => false,
            },
    {
        match RepayDebtVoucher::try_from_slice(repay_debt_voucher.data.as_slice()) {
            Ok(voucher) => Ok(voucher),
            Err(e) => Err(OracleError::Decode(e)),
        }
    }
}

} // verus!
