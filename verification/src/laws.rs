//! What holds of price retrieval on all inputs.

use vstd::prelude::*;
use vstd::arithmetic::power::{lemma_pow0, pow};
use crate::account::{Clock, OracleAccount};
use crate::error::{LendingError, OracleError};
use crate::math::{lemma_pow10_fits, Decimal, WAD};
use crate::oracle::{
    oracle_type_of, pyth_alike_keys, single_price, KeyRoutine, OracleType, PriceRoutine, Routed,
};
use crate::price::{PriceStatus, ProductStatus};
use crate::program_ids::{
    PYTH_MAINNET, PYTH_PULL_MAINNET, RENEC_ORACLE_MAINNET, SWITCHBOARD_ON_DEMAND_MAINNET,
    SWITCHBOARD_V2_MAINNET,
};
use crate::pubkey::NULL_PUBKEY;
use crate::renec::{
    canonical_price, checked_keys, checked_price, is_fresh, is_reverse_market, places, price_of,
    product_of, renec_owned,
};

verus! {

/// A product and its price record pass every check that comes before the
/// age of the price is looked at: both accounts are owned by the Renec
/// oracle program, the product names the price account, the price account
/// is not the null identifier, both records are online, and the clock is
/// not negative.
pub open spec fn is_live_pair(
    price_info: &OracleAccount,
    price_product: &OracleAccount,
    clock: &Clock,
) -> bool {
    &&& renec_owned(price_info)
    &&& renec_owned(price_product)
    &&& product_of(price_product).price_account == price_info.key@
    &&& price_info.key@ != NULL_PUBKEY@
    &&& product_of(price_product).status == ProductStatus::Online
    &&& price_of(price_info).status == PriceStatus::Online
    &&& clock.unix_timestamp >= 0
}

/// A live pair with a fresh price, an exponent from -19 to 0 and, in a
/// market quoted the other way round, a magnitude other than zero is priced
/// at the magnitude over ten to the number of places, or in such a market
/// at that power over the magnitude, and its moving average is the same
/// value.
pub proof fn lemma_live_pair_is_priced(
    price_info: &OracleAccount,
    price_product: &OracleAccount,
    clock: &Clock,
)
    requires
        is_live_pair(price_info, price_product, clock),
        is_fresh(clock.unix_timestamp as int, price_of(price_info).timestamp as int),
        -19 <= product_of(price_product).expo <= 0,
        is_reverse_market(price_info) ==> price_of(price_info).price != 0,
    ensures
        ({
            let magnitude = price_of(price_info).price as int;
            let decimals = pow(10, places(product_of(price_product).expo));
            let value = if is_reverse_market(price_info) {
                decimals * WAD / magnitude
            } else {
                magnitude * WAD / decimals
            };
            &&& 0 <= value <= u128::MAX
            &&& checked_price(price_info, price_product, clock) == Ok::<
                (Decimal, Decimal),
                OracleError,
            >((Decimal(value as u128), Decimal(value as u128)))
            &&& single_price(price_info, price_product, clock) == Ok::<
                Routed<(Decimal, Option<Decimal>), PriceRoutine>,
                OracleError,
            >(Routed::Computed((Decimal(value as u128), Some(Decimal(value as u128)))))
        }),
{
    let magnitude = price_of(price_info).price as int;
    let decimals = pow(10, places(product_of(price_product).expo));
    lemma_pow10_fits(places(product_of(price_product).expo));
    if is_reverse_market(price_info) {
        assert(0 <= decimals * WAD / magnitude <= decimals * WAD) by (nonlinear_arith)
            requires
                magnitude >= 1,
                decimals >= 1,
                WAD >= 1,
        ;
        assert(decimals * WAD <= u128::MAX) by (nonlinear_arith)
            requires
                1 <= decimals <= u64::MAX,
                WAD == 1_000_000_000_000_000_000,
        ;
    } else {
        assert(0 <= magnitude * WAD / decimals <= magnitude * WAD) by (nonlinear_arith)
            requires
                magnitude >= 0,
                decimals >= 1,
                WAD >= 1,
        ;
        assert(magnitude * WAD <= u128::MAX) by (nonlinear_arith)
            requires
                0 <= magnitude <= u64::MAX,
                WAD == 1_000_000_000_000_000_000,
        ;
    }
}

/// A price more than sixty seconds old is refused as too old, whatever its
/// magnitude and exponent.
pub proof fn lemma_stale_price_is_refused(
    price_info: &OracleAccount,
    price_product: &OracleAccount,
    clock: &Clock,
)
    requires
        is_live_pair(price_info, price_product, clock),
        price_of(price_info).timestamp < clock.unix_timestamp - 60,
    ensures
        checked_price(price_info, price_product, clock) == Err::<(Decimal, Decimal), OracleError>(
            OracleError::Lending(LendingError::PriceTooOld),
        ),
        single_price(price_info, price_product, clock) == Err::<
            Routed<(Decimal, Option<Decimal>), PriceRoutine>,
            OracleError,
        >(OracleError::Lending(LendingError::PriceTooOld)),
{
}

/// A price exactly sixty seconds old is still fresh: it is not refused as
/// too old, and with an exponent from -19 to 0 and a magnitude that can be
/// divided by it is priced.
pub proof fn lemma_price_at_the_boundary_is_fresh(
    price_info: &OracleAccount,
    price_product: &OracleAccount,
    clock: &Clock,
)
    requires
        is_live_pair(price_info, price_product, clock),
        price_of(price_info).timestamp == clock.unix_timestamp - 60,
    ensures
        is_fresh(clock.unix_timestamp as int, price_of(price_info).timestamp as int),
        checked_price(price_info, price_product, clock) != Err::<(Decimal, Decimal), OracleError>(
            OracleError::Lending(LendingError::PriceTooOld),
        ),
        -19 <= product_of(price_product).expo <= 0 && (is_reverse_market(price_info)
            ==> price_of(price_info).price != 0) ==> checked_price(
            price_info,
            price_product,
            clock,
        ) is Ok,
{
    if -19 <= product_of(price_product).expo <= 0 && (is_reverse_market(price_info) ==> price_of(
        price_info,
    ).price != 0) {
        lemma_live_pair_is_priced(price_info, price_product, clock);
    }
}

/// A product that names another price account than the one supplied is
/// refused, whatever the statuses, the clock and the age of the price, once
/// both accounts are owned by the Renec oracle program. Key validation
/// refuses it in the same way, unless the price account is the null
/// identifier.
pub proof fn lemma_foreign_product_is_refused(
    price_info: &OracleAccount,
    price_product: &OracleAccount,
    clock: &Clock,
)
    requires
        renec_owned(price_info),
        renec_owned(price_product),
        product_of(price_product).price_account != price_info.key@,
    ensures
        checked_price(price_info, price_product, clock) == Err::<(Decimal, Decimal), OracleError>(
            OracleError::Lending(LendingError::InvalidPriceOfProductOracle),
        ),
        single_price(price_info, price_product, clock) == Err::<
            Routed<(Decimal, Option<Decimal>), PriceRoutine>,
            OracleError,
        >(OracleError::Lending(LendingError::InvalidPriceOfProductOracle)),
        price_info.key@ != NULL_PUBKEY@ ==> checked_keys(price_info, price_product) == Err::<
            (),
            OracleError,
        >(OracleError::Lending(LendingError::InvalidPriceOfProductOracle)),
{
}

/// Key validation of the Renec feed passes a price account with the null
/// identifier whatever else holds, and so does the routed key validation
/// once that account is classified as a Renec feed. Any other price account
/// is refused where it or the product is not owned by the Renec oracle
/// program.
pub proof fn lemma_null_key_passes_key_validation(
    price_info: &OracleAccount,
    product_info: &OracleAccount,
)
    ensures
        price_info.key@ == NULL_PUBKEY@ ==> checked_keys(price_info, product_info) == Ok::<
            (),
            OracleError,
        >(()),
        price_info.key@ == NULL_PUBKEY@ && renec_owned(price_info) ==> pyth_alike_keys(
            price_info,
            product_info,
        ) == Ok::<Routed<(), KeyRoutine>, OracleError>(Routed::Computed(())),
        price_info.key@ != NULL_PUBKEY@ && !(renec_owned(price_info) && renec_owned(product_info))
            ==> checked_keys(price_info, product_info) == Err::<(), OracleError>(
            OracleError::Lending(LendingError::InvalidRenecOracleAccount),
        ),
{
}

/// With exponent zero the price is the magnitude itself, or in a market
/// quoted the other way round its reciprocal, which does not exist for a
/// magnitude of zero.
pub proof fn lemma_exponent_zero(price: u64)
    ensures
        pow(10, places(0)) == 1,
        price * WAD <= u128::MAX,
        canonical_price(price, 0, false) == Ok::<Decimal, OracleError>(
            Decimal((price * WAD) as u128),
        ),
        price != 0 ==> canonical_price(price, 0, true) == Ok::<Decimal, OracleError>(
            Decimal((WAD / price) as u128),
        ),
        price == 0 ==> canonical_price(price, 0, true) == Err::<Decimal, OracleError>(
            OracleError::Lending(LendingError::MathOverflow),
        ),
{
    lemma_pow0(10);
    assert(price * WAD <= u128::MAX) by (nonlinear_arith)
        requires
            0 <= price <= u64::MAX,
            WAD == 1_000_000_000_000_000_000,
    ;
    assert(price * WAD / 1 == price * WAD);
    assert(1 * WAD == WAD);
}

/// A product with a positive exponent is refused for that reason alone,
/// whatever the magnitude of its price and the direction of its market.
pub proof fn lemma_positive_exponent_is_refused(
    price_info: &OracleAccount,
    price_product: &OracleAccount,
    clock: &Clock,
)
    requires
        is_live_pair(price_info, price_product, clock),
        is_fresh(clock.unix_timestamp as int, price_of(price_info).timestamp as int),
        product_of(price_product).expo > 0,
    ensures
        checked_price(price_info, price_product, clock) == Err::<(Decimal, Decimal), OracleError>(
            OracleError::Lending(LendingError::ExpoPositiveNonSupport),
        ),
        single_price(price_info, price_product, clock) == Err::<
            Routed<(Decimal, Option<Decimal>), PriceRoutine>,
            OracleError,
        >(OracleError::Lending(LendingError::ExpoPositiveNonSupport)),
{
}

/// Each of the five known owners is classified as its own family, and every
/// other owner is refused.
pub proof fn lemma_owners_classify(owner: Seq<u8>)
    ensures
        oracle_type_of(RENEC_ORACLE_MAINNET@) == Ok::<OracleType, OracleError>(OracleType::Renec),
        oracle_type_of(PYTH_MAINNET@) == Ok::<OracleType, OracleError>(OracleType::Pyth),
        oracle_type_of(PYTH_PULL_MAINNET@) == Ok::<OracleType, OracleError>(OracleType::PythPull),
        oracle_type_of(SWITCHBOARD_V2_MAINNET@) == Ok::<OracleType, OracleError>(
            OracleType::Switchboard,
        ),
        oracle_type_of(SWITCHBOARD_ON_DEMAND_MAINNET@) == Ok::<OracleType, OracleError>(
            OracleType::SbOnDemand,
        ),
        owner != RENEC_ORACLE_MAINNET@ && owner != PYTH_MAINNET@ && owner != PYTH_PULL_MAINNET@
            && owner != SWITCHBOARD_V2_MAINNET@ && owner != SWITCHBOARD_ON_DEMAND_MAINNET@
            ==> oracle_type_of(owner) == Err::<OracleType, OracleError>(
            OracleError::Lending(LendingError::InvalidOracleConfig),
        ),
{
    assert(RENEC_ORACLE_MAINNET@[0] == 62);
    assert(PYTH_MAINNET@[0] == 220);
    assert(PYTH_PULL_MAINNET@[0] == 12);
    assert(SWITCHBOARD_V2_MAINNET@[1] == 136);
    assert(SWITCHBOARD_ON_DEMAND_MAINNET@[1] == 115);
    assert(SWITCHBOARD_V2_MAINNET@[0] == 6);
    assert(SWITCHBOARD_ON_DEMAND_MAINNET@[0] == 6);
}

} // verus!
