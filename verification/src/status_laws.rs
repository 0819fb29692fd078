//! What the reports say, on what is stored and given.

use crate::errors::{Abort, RebalancerAdminError};
use crate::math::lemma_quotient_fits;
use crate::plain::{given, in_range};
use crate::pool::Reserves;
use crate::state::RebalancerAdmin;
use crate::status::{Config, PoolStatus};
use vstd::prelude::*;

verus! {

/// Every configuration value is the stored one, or else its default.
pub proof fn law_configuration(admin: RebalancerAdmin, config: Config)
    requires
        call_ensures(RebalancerAdmin::get_config, (&admin,), config),
    ensures
        config.sac == admin.sac->0,
        config.pool == admin.pool->0,
        config.quote_token == admin.quote_token->0,
        config.oracle == admin.oracle->0,
        config.owner == admin.owner->0,
        config.quote_price == given(admin.quote_price, 0),
        config.upper_bps == given(admin.upper_bps, 500),
        config.lower_bps == given(admin.lower_bps, 500),
        config.max_mint == given(admin.max_mint, 100_000_000_000),
        config.max_quote_spend == given(admin.max_quote_spend, 50_000_000_000),
        config.ljoule_is_token0 == given(admin.ljoule_is_token0, true),
        config.max_stale_ledgers == given(admin.max_stale_ledgers, 1_000),
        config.cooldown_ledgers == given(admin.cooldown_ledgers, 12),
        config.min_reserve == given(admin.min_reserve, 10_000_000),
{
}

/// The prices on record are the stored ones, and both must be stored.
pub proof fn law_prices_on_record(
    admin: RebalancerAdmin,
    prices: Result<(i128, i128), RebalancerAdminError>,
)
    requires
        call_ensures(RebalancerAdmin::recorded_prices, (&admin,), prices),
    ensures
        prices is Ok <==> admin.quote_price is Some && admin.price_data is Some,
        prices matches Ok(pair) ==> admin.quote_price == Some(pair.0) && admin.price_data->0.price
            == pair.1,
        prices matches Err(error) ==> error == RebalancerAdminError::QuotePriceNotSet,
{
}

/// The report on the pool needs both prices, and something of either token in
/// the pool. The pool's price is what the quote token in the pool is worth per
/// LJOULE, rounded down. The deviation is the distance from the oracle price in
/// ten thousandths of it, rounded toward zero.
pub proof fn law_report(
    admin: RebalancerAdmin,
    reserves: Reserves,
    abort: Option<Abort>,
    status: Result<PoolStatus, RebalancerAdminError>,
)
    requires
        admin.wf(),
        call_ensures(RebalancerAdmin::check_get_status, (&admin, reserves), abort),
        call_ensures(RebalancerAdmin::get_status, (&admin, reserves), status),
        abort is None,
    ensures
        status == Err::<PoolStatus, _>(RebalancerAdminError::QuotePriceNotSet) <==> !(
        admin.quote_price is Some && admin.price_data is Some),
        status == Err::<PoolStatus, _>(RebalancerAdminError::PoolEmpty) <==> admin.quote_price is
            Some && admin.price_data is Some && (reserves.quote <= 0 || reserves.ljoule <= 0),
        status is Ok <==> admin.quote_price is Some && admin.price_data is Some && reserves.quote
            > 0 && reserves.ljoule > 0,
        status matches Ok(report) ==> {
            let worth = reserves.quote * admin.quote_price->0;
            let oracle_price = admin.price_data->0.price;
            let price = report.pool_ljoule_usd_x7;
            let distance = 10_000 * (price - oracle_price);
            let rest = distance - report.deviation_bps * oracle_price;
            &&& report.reserve_quote == reserves.quote
            &&& report.reserve_ljoule == reserves.ljoule
            &&& report.quote_usd_x7 == admin.quote_price->0
            &&& report.oracle_ljoule_usd_x7 == oracle_price
            &&& price * reserves.ljoule <= worth < (price + 1) * reserves.ljoule
            &&& -oracle_price < rest < oracle_price
            &&& distance >= 0 ==> rest >= 0
            &&& distance <= 0 ==> rest <= 0
        },
        call_requires(RebalancerAdmin::get_status, (&admin, reserves)),
{
    if admin.quote_price is Some && admin.price_data is Some && reserves.quote > 0
        && reserves.ljoule > 0 {
        let rl = reserves.ljoule as int;
        let lj = admin.price_data->0.price as int;
        let worth = reserves.quote * admin.quote_price->0;
        assert(worth >= 0) by (nonlinear_arith)
            requires
                reserves.quote > 0,
                admin.quote_price->0 > 0,
                worth == reserves.quote * admin.quote_price->0,
        ;
        lemma_quotient_fits(worth, rl);
        let price = worth / rl;
        assert(price * rl <= worth < (price + 1) * rl) by (nonlinear_arith)
            requires
                rl > 0,
                price == worth / rl,
        ;
        let distance = 10_000 * (price - lj);
        lemma_quotient_fits(distance, lj);
        let n = if distance >= 0 {
            distance
        } else {
            -distance
        };
        let d = n / lj;
        assert(0 <= n - d * lj < lj && (n == 0 ==> n - d * lj == 0)) by (nonlinear_arith)
            requires
                lj > 0,
                n >= 0,
                d == n / lj,
        ;
        assert((-d) * lj == -(d * lj)) by (nonlinear_arith);
    }
}

/// The report traps where the contract was not set up, and where it comes to
/// comparing the prices and an intermediate result is out of range: the worth
/// of the quote token in the pool, or ten thousand times the distance of the
/// pool's price `price` from the oracle price.
pub proof fn law_report_traps_when(
    admin: RebalancerAdmin,
    reserves: Reserves,
    price: int,
    abort: Option<Abort>,
)
    requires
        admin.wf(),
        call_ensures(RebalancerAdmin::check_get_status, (&admin, reserves), abort),
    ensures
        abort == Some(Abort::NotInitialized) <==> admin.initialized != Some(true),
        abort is Some ==> abort == Some(Abort::NotInitialized) || abort == Some(Abort::Arithmetic),
        admin.initialized == Some(true) && !(admin.quote_price is Some && admin.price_data is Some
            && reserves.quote > 0 && reserves.ljoule > 0) ==> abort is None,
        admin.initialized == Some(true) && admin.quote_price is Some && admin.price_data is Some
            && reserves.quote > 0 && reserves.ljoule > 0 && price * reserves.ljoule
            <= reserves.quote * admin.quote_price->0 < (price + 1) * reserves.ljoule ==> (
        abort is None <==> in_range(reserves.quote * admin.quote_price->0) && in_range(
            10_000 * (price - admin.price_data->0.price),
        )),
{
    if admin.quote_price is Some && admin.price_data is Some && reserves.quote > 0
        && reserves.ljoule > 0 {
        let rl = reserves.ljoule as int;
        let worth = reserves.quote * admin.quote_price->0;
        assert(worth >= 0) by (nonlinear_arith)
            requires
                reserves.quote > 0,
                admin.quote_price->0 > 0,
                worth == reserves.quote * admin.quote_price->0,
        ;
        let q = worth / rl;
        assert(price * rl <= worth < (price + 1) * rl ==> price == q) by (nonlinear_arith)
            requires
                rl > 0,
                worth >= 0,
                q == worth / rl,
        ;
    }
}

} // verus!
