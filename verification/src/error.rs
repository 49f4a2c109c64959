//! The closed set of failures that price retrieval can report.

use vstd::prelude::*;

verus! {

/// Why a feed was rejected or a price could not be computed.
#[derive(Clone, Copy, Debug, PartialEq, Eq, Structural)]
pub enum LendingError {
    /// An arithmetic step left the range of its type, or divided by zero.
    MathOverflow,
    /// The account is owned by none of the known feed programs.
    InvalidOracleConfig,
    /// The price account is the null identifier: no oracle is configured.
    NullOracleConfig,
    /// An account is not owned by the Renec oracle program.
    InvalidRenecOracleAccount,
    /// The product record names another price account than the one supplied.
    InvalidPriceOfProductOracle,
    /// The product is not online.
    UnavailableProduct,
    /// The price record is not online.
    UnavailablePriceInfo,
    /// The price record is older than the freshness window allows.
    PriceTooOld,
    /// The clock reading is negative.
    InvalidTimestampConversion,
    /// The exponent is positive, which no integrated feed needs.
    ExpoPositiveNonSupport,
}

/// Why a byte region does not hold a record.
#[derive(Clone, Copy, Debug, PartialEq, Eq, Structural)]
pub enum DecodeError {
    /// The region ends before the field does.
    UnexpectedLength,
    /// A tag byte names no variant of its enumeration.
    InvalidVariant,
    /// The bytes of a text field are not UTF-8.
    InvalidUtf8,
    /// The byte of a truth value is neither 0 nor 1.
    InvalidBool,
    /// The region goes on after the record, where nothing may follow it.
    TrailingBytes,
}

/// A failure of any operation of this crate.
#[derive(Clone, Copy, Debug, PartialEq, Eq, Structural)]
pub enum OracleError {
    /// A rule of the protocol was broken.
    Lending(LendingError),
    /// A record could not be decoded, on a path that reports this as it is.
    Decode(DecodeError),
}

} // verus!
