//! Classification of feed accounts by their owner, and the entry points
//! that route an account to the pipeline of its feed family.
//!
//! Renec feeds are handled here. For the other families this crate decides
//! which of their routines has to run and leaves running it to the caller,
//! who holds them.

use vstd::prelude::*;
use crate::account::{Clock, OracleAccount};
use crate::error::{LendingError, OracleError};
use crate::math::Decimal;
use crate::program_ids::{
    PYTH_MAINNET, PYTH_PULL_MAINNET, RENEC_ORACLE_MAINNET, SWITCHBOARD_ON_DEMAND_MAINNET,
    SWITCHBOARD_V2_MAINNET,
};
use crate::renec::{
    checked_keys, checked_price, get_renec_oracle_price,
    get_renec_oracle_price_unchecked_with_default_expo, is_renec_oracle, unchecked_price,
    validate_renec_keys,
};

verus! {

/// The feed family that an account belongs to.
#[derive(Clone, Copy, Debug, PartialEq, Eq, Structural)]
pub enum OracleType {
    /// Pyth.
    Pyth,
    /// Switchboard v2.
    Switchboard,
    /// Pyth's pull oracle.
    PythPull,
    /// Switchboard On-Demand.
    SbOnDemand,
    /// The Renec oracle.
    Renec,
}

/// The routines of other feed families that give a validated price. They
/// live outside this crate and take the price account and the clock.
#[derive(Clone, Copy, Debug, PartialEq, Eq, Structural)]
pub enum PriceRoutine {
    /// The Pyth price with its moving average.
    Pyth,
    /// The price of Pyth's pull oracle with its moving average.
    PythPull,
    /// The Switchboard price, of either generation, which has no moving
    /// average.
    Switchboard,
}

/// The routines of other feed families that give a price as it stands. They
/// live outside this crate and take the price account; those of Switchboard
/// take the clock too.
#[derive(Clone, Copy, Debug, PartialEq, Eq, Structural)]
pub enum UncheckedPriceRoutine {
    /// The Pyth price.
    Pyth,
    /// The price of Pyth's pull oracle.
    PythPull,
    /// The Switchboard v2 price.
    SwitchboardV2 {
        /// Whether the routine is to refuse a stale price.
        check_staleness: bool,
    },
    /// The Switchboard On-Demand price.
    SwitchboardOnDemand {
        /// Whether the routine is to refuse a stale price.
        check_staleness: bool,
    },
}

/// The routines of other feed families that validate the keys of a feed.
/// They live outside this crate and take the price account.
#[derive(Clone, Copy, Debug, PartialEq, Eq, Structural)]
pub enum KeyRoutine {
    /// The key validator of the Pyth family, which serves every family but
    /// the Renec oracle.
    Pyth,
}

/// Where an answer comes from.
#[derive(Debug, PartialEq, Eq)]
pub enum Routed<T, R> {
    /// The account is a Renec feed, and this is the answer.
    Computed(T),
    /// The account belongs to another family, and this routine of it gives
    /// the answer.
    Delegated(R),
}

/// The family of an account owned by `owner`. The owners are tried in this
/// order, and the first that matches decides.
pub open spec fn oracle_type_of(owner: Seq<u8>) -> Result<OracleType, OracleError> {
    if owner == RENEC_ORACLE_MAINNET@ {
        Ok(OracleType::Renec)
    } else if owner == PYTH_MAINNET@ {
        Ok(OracleType::Pyth)
    } else if owner == PYTH_PULL_MAINNET@ {
        Ok(OracleType::PythPull)
    } else if owner == SWITCHBOARD_V2_MAINNET@ {
        Ok(OracleType::Switchboard)
    } else if owner == SWITCHBOARD_ON_DEMAND_MAINNET@ {
        Ok(OracleType::SbOnDemand)
    } else {
        Err(OracleError::Lending(LendingError::InvalidOracleConfig))
    }
}

/// Classifies an account by its owner.
pub fn get_oracle_type(oracle_info: &OracleAccount) -> (oracle_type: Result<OracleType, OracleError>)
    ensures
        oracle_type == oracle_type_of(oracle_info.owner@),
{
    if is_renec_oracle(oracle_info) {
        Ok(OracleType::Renec)
    } else if oracle_info.owner.has_bytes(&PYTH_MAINNET) {
        Ok(OracleType::Pyth)
    } else if oracle_info.owner.has_bytes(&PYTH_PULL_MAINNET) {
        Ok(OracleType::PythPull)
    } else if oracle_info.owner.has_bytes(&SWITCHBOARD_V2_MAINNET) {
        Ok(OracleType::Switchboard)
    } else if oracle_info.owner.has_bytes(&SWITCHBOARD_ON_DEMAND_MAINNET) {
        Ok(OracleType::SbOnDemand)
    } else {
        Err(OracleError::Lending(LendingError::InvalidOracleConfig))
    }
}

/// The validated price of an account and, for the families that have one,
/// its moving average.
pub open spec fn single_price(
    oracle_account_info: &OracleAccount,
    oracle_product_info: &OracleAccount,
    clock: &Clock,
) -> Result<Routed<(Decimal, Option<Decimal>), PriceRoutine>, OracleError> {
    match oracle_type_of(oracle_account_info.owner@) {
        Err(e) => Err(e),
        Ok(OracleType::Pyth) => Ok(Routed::Delegated(PriceRoutine::Pyth)),
        Ok(OracleType::PythPull) => Ok(Routed::Delegated(PriceRoutine::PythPull)),
        Ok(OracleType::Switchboard) => Ok(Routed::Delegated(PriceRoutine::Switchboard)),
        Ok(OracleType::SbOnDemand) => Ok(Routed::Delegated(PriceRoutine::Switchboard)),
        Ok(OracleType::Renec) => match checked_price(
            oracle_account_info,
            oracle_product_info,
            clock,
        ) {
            Ok((price, ema)) => Ok(Routed::Computed((price, Some(ema)))),
            Err(e) => Err(e),
        },
    }
}

/// The validated price of an account and, for the families that have one,
/// its moving average.
pub fn get_single_price(
    oracle_account_info: &OracleAccount,
    oracle_product_info: &OracleAccount,
    clock: &Clock,
) -> (quote: Result<Routed<(Decimal, Option<Decimal>), PriceRoutine>, OracleError>)
    ensures
        quote == single_price(oracle_account_info, oracle_product_info, clock),
{
    match get_oracle_type(oracle_account_info)? {
        OracleType::Pyth => Ok(Routed::Delegated(PriceRoutine::Pyth)),
        OracleType::PythPull => Ok(Routed::Delegated(PriceRoutine::PythPull)),
        OracleType::Renec => {
            let price = get_renec_oracle_price(oracle_account_info, oracle_product_info, clock)?;
            Ok(Routed::Computed((price.0, Some(price.1))))
        },
        OracleType::Switchboard => Ok(Routed::Delegated(PriceRoutine::Switchboard)),
        OracleType::SbOnDemand => Ok(Routed::Delegated(PriceRoutine::Switchboard)),
    }
}

/// The price of an account as it stands. What is left unchecked depends on
/// the family; that the account was validated by other means is for the
/// caller to see to.
pub open spec fn single_price_unchecked(oracle_account_info: &OracleAccount) -> Result<
    Routed<Decimal, UncheckedPriceRoutine>,
    OracleError,
> {
    match oracle_type_of(oracle_account_info.owner@) {
        Err(e) => Err(e),
        Ok(OracleType::Pyth) => Ok(Routed::Delegated(UncheckedPriceRoutine::Pyth)),
        Ok(OracleType::PythPull) => Ok(Routed::Delegated(UncheckedPriceRoutine::PythPull)),
        Ok(OracleType::Switchboard) => Ok(
            Routed::Delegated(UncheckedPriceRoutine::SwitchboardV2 { check_staleness: false }),
        ),
        Ok(OracleType::SbOnDemand) => Ok(
            Routed::Delegated(UncheckedPriceRoutine::SwitchboardOnDemand { check_staleness: true }),
        ),
        Ok(OracleType::Renec) => match unchecked_price(oracle_account_info) {
            Ok(price) => Ok(Routed::Computed(price)),
            Err(e) => Err(e),
        },
    }
}

/// The price of an account as it stands. The clock is read by routines of
/// other families only: a Renec feed is priced whatever its age.
pub fn get_single_price_unchecked(oracle_account_info: &OracleAccount, _clock: &Clock) -> (quote:
    Result<Routed<Decimal, UncheckedPriceRoutine>, OracleError>)
    ensures
        quote == single_price_unchecked(oracle_account_info),
{
    match get_oracle_type(oracle_account_info)? {
        OracleType::Pyth => Ok(Routed::Delegated(UncheckedPriceRoutine::Pyth)),
        OracleType::PythPull => Ok(Routed::Delegated(UncheckedPriceRoutine::PythPull)),
        OracleType::Renec => {
            let price = get_renec_oracle_price_unchecked_with_default_expo(oracle_account_info)?;
            Ok(Routed::Computed(price))
        },
        OracleType::Switchboard => Ok(
            Routed::Delegated(UncheckedPriceRoutine::SwitchboardV2 { check_staleness: false }),
        ),
        OracleType::SbOnDemand => Ok(
            Routed::Delegated(UncheckedPriceRoutine::SwitchboardOnDemand { check_staleness: true }),
        ),
    }
}

/// The outcome of validating the keys of a feed: for a Renec price account
/// the check of its product, for any other family that family's validator.
pub open spec fn pyth_alike_keys(
    price_info: &OracleAccount,
    product_info: &OracleAccount,
) -> Result<Routed<(), KeyRoutine>, OracleError> {
    match oracle_type_of(price_info.owner@) {
        Err(e) => Err(e),
        Ok(OracleType::Renec) => match checked_keys(price_info, product_info) {
            Ok(()) => Ok(Routed::Computed(())),
            Err(e) => Err(e),
        },
        Ok(_) => Ok(Routed::Delegated(KeyRoutine::Pyth)),
    }
}

/// Validates the keys of a feed.
pub fn validate_pyth_alike_keys(price_info: &OracleAccount, product_info: &OracleAccount) -> (outcome:
    Result<Routed<(), KeyRoutine>, OracleError>)
    ensures
        outcome == pyth_alike_keys(price_info, product_info),
{
    match get_oracle_type(price_info)? {
        OracleType::Renec => {
            validate_renec_keys(price_info, product_info)?;
            Ok(Routed::Computed(()))
        },
        _ => Ok(Routed::Delegated(KeyRoutine::Pyth)),
    }
}

} // verus!
