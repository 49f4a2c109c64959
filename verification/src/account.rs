//! What price retrieval reads of its surroundings: snapshots of accounts and
//! of the clock.

use vstd::prelude::*;
use crate::pubkey::Pubkey;

verus! {

/// A snapshot of one account, taken when a price is asked for.
#[derive(Debug)]
pub struct OracleAccount {
    /// The account's own identifier.
    pub key: Pubkey,
    /// The program that owns the account.
    pub owner: Pubkey,
    /// The account's data region.
    pub data: Vec<u8>,
}

/// A reading of the clock.
#[derive(Clone, Copy, Debug)]
pub struct Clock {
    /// Seconds since the Unix epoch.
    pub unix_timestamp: i64,
}

} // verus!
