//! Price normalisation for a lending protocol: untrusted on-chain price feeds
//! are classified, decoded, validated and converted into one fixed-point
//! decimal.

pub mod account;
pub mod error;
pub mod laws;
pub mod layout;
pub mod math;
pub mod oracle;
pub mod price;
pub mod program_ids;
pub mod pubkey;
pub mod renec;
pub mod repay_debt_voucher;
pub mod wire;

pub use account::{Clock, OracleAccount};
pub use error::{DecodeError, LendingError, OracleError};
pub use math::Decimal;
pub use oracle::{
    get_oracle_type, get_single_price, get_single_price_unchecked, validate_pyth_alike_keys,
    KeyRoutine, OracleType, PriceRoutine, Routed, UncheckedPriceRoutine,
};
pub use pubkey::{Pubkey, NULL_PUBKEY};
pub use renec::REUSD_REVND;
