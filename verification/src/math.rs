//! Fixed-point decimals with eighteen fractional digits.

use vstd::prelude::*;
use vstd::arithmetic::power::{pow, lemma_pow0, lemma_pow_increases, lemma_pow_positive};
use vstd::std_specs::convert::FromSpecImpl;
use crate::error::{LendingError, OracleError};

verus! {

/// The scale of a [`Decimal`]: the number one is held as `WAD`.
pub const WAD: u64 = 1_000_000_000_000_000_000;

/// A non-negative decimal number, held as a count of units of `1 / WAD`.
#[derive(Clone, Copy, Debug, PartialEq, Eq, Structural)]
pub struct Decimal(pub u128);

impl View for Decimal {
    type V = nat;

    /// The number of units of `1 / WAD` that make up the value.
    open spec fn view(&self) -> nat {
        self.0 as nat
    }
}

impl From<u64> for Decimal {
    fn from(val: u64) -> (ret: Decimal) {
        assert(val * WAD <= u128::MAX) by (nonlinear_arith)
            requires
                val <= u64::MAX,
                WAD == 1_000_000_000_000_000_000,
        ;
        Decimal(val as u128 * (WAD as u128))
    }
}

impl FromSpecImpl<u64> for Decimal {
    open spec fn obeys_from_spec() -> bool {
        true
    }

    open spec fn from_spec(val: u64) -> Decimal {
        Decimal((val * WAD) as u128)
    }
}

impl Decimal {
    /// Divides by a whole number, rounding towards zero. Division by zero is
    /// reported as `MathOverflow`.
    pub fn try_div(self, rhs: u64) -> (quotient: Result<Decimal, OracleError>)
        ensures
            rhs == 0 ==> quotient == Err::<Decimal, OracleError>(
                OracleError::Lending(LendingError::MathOverflow),
            ),
            rhs != 0 ==> quotient == Ok::<Decimal, OracleError>(Decimal(self.0 / (rhs as u128))),
    {
        if rhs == 0 {
            return Err(OracleError::Lending(LendingError::MathOverflow));
        }
        Ok(Decimal(self.0 / (rhs as u128)))
    }
}

/// Ten to the power `exp`, or `None` where that does not fit in 64 bits.
pub fn checked_pow10(exp: u32) -> (power: Option<u64>)
    ensures
        match power {
            Some(p) => p == pow(10, exp as nat),
            None => pow(10, exp as nat) > u64::MAX,
        },
{
    let mut acc: u64 = 1;
    let mut i: u32 = 0;
    proof {
        lemma_pow0(10);
    }
    while i < exp
        invariant
            i <= exp,
            acc == pow(10, i as nat),
        decreases exp - i,
    {
        proof {
            reveal(pow);
            assert(pow(10, (i + 1) as nat) == 10 * pow(10, i as nat));
        }
        if acc > u64::MAX / 10 {
            proof {
                lemma_pow_increases(10, (i + 1) as nat, exp as nat);
            }
            return None;
        }
        acc = acc * 10;
        i += 1;
    }
    Some(acc)
}

/// Ten to a power fits in 64 bits exactly when the power is at most 19.
pub proof fn lemma_pow10_fits(exp: nat)
    ensures
        pow(10, exp) <= u64::MAX <==> exp <= 19,
        pow(10, exp) >= 1,
{
    lemma_pow_positive(10, exp);
    reveal_with_fuel(pow, 21);
    assert(pow(10, 19) == 10_000_000_000_000_000_000);
    assert(pow(10, 20) == 100_000_000_000_000_000_000);
    if exp <= 19 {
        lemma_pow_increases(10, exp, 19);
    } else {
        lemma_pow_increases(10, 20, exp);
    }
}

} // verus!
