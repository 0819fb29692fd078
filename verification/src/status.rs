//! Read-only reports.

use crate::address::Address;
use crate::errors::{Abort, RebalancerAdminError};
use crate::math::{fits, lemma_quotient_fits, quotient};
use crate::pool::Reserves;
use crate::state::{
    or_default, RebalancerAdmin, DEFAULT_BAND_BPS, DEFAULT_COOLDOWN_LEDGERS, DEFAULT_MAX_MINT,
    DEFAULT_MAX_QUOTE_SPEND, DEFAULT_MAX_STALE_LEDGERS, DEFAULT_MIN_RESERVE,
};
use vstd::prelude::*;

verus! {

/// The pool's price against the oracle's. Prices are in 7-decimal fixed point.
#[derive(Clone, Copy, Debug, PartialEq, Eq, Structural)]
pub struct PoolStatus {
    pub reserve_quote: i128,
    pub reserve_ljoule: i128,
    pub pool_ljoule_usd_x7: i128,
    pub oracle_ljoule_usd_x7: i128,
    pub quote_usd_x7: i128,
    /// Distance of the pool's price from the oracle's, in basis points of the
    /// oracle's.
    pub deviation_bps: i128,
}

/// All configuration values.
#[derive(Clone, Copy, Debug, PartialEq, Eq)]
pub struct Config {
    pub sac: Address,
    pub pool: Address,
    pub quote_token: Address,
    pub oracle: Address,
    pub owner: Address,
    pub quote_price: i128,
    pub upper_bps: u32,
    pub lower_bps: u32,
    pub max_mint: i128,
    pub max_quote_spend: i128,
    pub ljoule_is_token0: bool,
    pub max_stale_ledgers: u32,
    pub cooldown_ledgers: u32,
    pub min_reserve: i128,
}

/// Price of LJOULE in the pool: what the pool pays in the quote token per
/// LJOULE, rounded down, at the quote token's price.
pub open spec fn pool_price(reserves: Reserves, quote_usd: i128) -> int {
    quotient(reserves.quote * quote_usd, reserves.ljoule as int)
}

/// Distance of `price` from `reference` in basis points of `reference`,
/// rounded toward zero.
pub open spec fn deviation(price: int, reference: int) -> int {
    quotient((price - reference) * 10_000, reference)
}

impl RebalancerAdmin {
    /// Why the report on the pool's price traps: an intermediate result leaves
    /// its type.
    pub open spec fn get_status_abort(self, reserves: Reserves) -> Option<Abort> {
        if !self.is_initialized() {
            Some(Abort::NotInitialized)
        } else if self.prices() matches Ok((quote_usd, ljoule_usd)) && reserves.quote > 0
            && reserves.ljoule > 0 && !{
            &&& fits(reserves.quote * quote_usd)
            &&& fits(pool_price(reserves, quote_usd) - ljoule_usd)
            &&& fits((pool_price(reserves, quote_usd) - ljoule_usd) * 10_000)
        } {
            Some(Abort::Arithmetic)
        } else {
            None
        }
    }

    /// The report on the pool's price, or why there is none.
    pub open spec fn status(self, reserves: Reserves) -> Result<PoolStatus, RebalancerAdminError> {
        match self.prices() {
            Err(error) => Err(error),
            Ok((quote_usd, ljoule_usd)) => if reserves.quote <= 0 || reserves.ljoule <= 0 {
                Err(RebalancerAdminError::PoolEmpty)
            } else {
                let price = pool_price(reserves, quote_usd);
                Ok(
                    PoolStatus {
                        reserve_quote: reserves.quote,
                        reserve_ljoule: reserves.ljoule,
                        pool_ljoule_usd_x7: price as i128,
                        oracle_ljoule_usd_x7: ljoule_usd,
                        quote_usd_x7: quote_usd,
                        deviation_bps: deviation(price, ljoule_usd as int) as i128,
                    },
                )
            },
        }
    }

    /// All configuration values, with the defaults for those that were never
    /// stored.
    pub open spec fn config(self) -> Config {
        Config {
            sac: self.sac->0,
            pool: self.pool->0,
            quote_token: self.quote_token->0,
            oracle: self.oracle->0,
            owner: self.owner->0,
            quote_price: or_default(self.quote_price, 0),
            upper_bps: self.upper(),
            lower_bps: self.lower(),
            max_mint: self.most_minted(),
            max_quote_spend: self.most_spent(),
            ljoule_is_token0: or_default(self.ljoule_is_token0, true),
            max_stale_ledgers: self.max_stale(),
            cooldown_ledgers: self.cooldown(),
            min_reserve: self.smallest_reserve(),
        }
    }

    /// Returns why the report on the pool's price traps, or `None` where it
    /// does not.
    pub fn check_get_status(&self, reserves: Reserves) -> (abort: Option<Abort>)
        requires
            self.wf(),
        ensures
            abort == self.get_status_abort(reserves),
    {
        if !self.require_initialized() {
            return Some(Abort::NotInitialized);
        }
        let (quote_usd, ljoule_usd) = match self.recorded_prices() {
            Ok(prices) => prices,
            Err(_) => return None,
        };
        if reserves.quote <= 0 || reserves.ljoule <= 0 {
            return None;
        }
        let value = match reserves.quote.checked_mul(quote_usd) {
            Some(value) => value,
            None => return Some(Abort::Arithmetic),
        };
        match (value / reserves.ljoule).checked_sub(ljoule_usd) {
            Some(distance) => match distance.checked_mul(10_000) {
                Some(_) => None,
                None => Some(Abort::Arithmetic),
            },
            None => Some(Abort::Arithmetic),
        }
    }

    /// Returns the pool's price against the oracle's, where the pool's
    /// reserves are `reserves`.
    pub fn get_status(&self, reserves: Reserves) -> (status: Result<
        PoolStatus,
        RebalancerAdminError,
    >)
        requires
            self.wf(),
            self.get_status_abort(reserves) is None,
        ensures
            status == self.status(reserves),
    {
        let (quote_usd, ljoule_usd) = match self.recorded_prices() {
            Ok(prices) => prices,
            Err(error) => return Err(error),
        };
        if reserves.quote <= 0 || reserves.ljoule <= 0 {
            return Err(RebalancerAdminError::PoolEmpty);
        }
        let pool_ljoule_usd = reserves.quote * quote_usd / reserves.ljoule;
        proof {
            lemma_quotient_fits(reserves.quote * quote_usd, reserves.ljoule as int);
            lemma_quotient_fits((pool_ljoule_usd - ljoule_usd) * 10_000, ljoule_usd as int);
        }
        let deviation_bps = (pool_ljoule_usd - ljoule_usd) * 10_000 / ljoule_usd;
        Ok(
            PoolStatus {
                reserve_quote: reserves.quote,
                reserve_ljoule: reserves.ljoule,
                pool_ljoule_usd_x7: pool_ljoule_usd,
                oracle_ljoule_usd_x7: ljoule_usd,
                quote_usd_x7: quote_usd,
                deviation_bps,
            },
        )
    }

    /// Returns all configuration values, with the defaults for those that were
    /// never stored.
    pub fn get_config(&self) -> (config: Config)
        requires
            self.wf(),
            self.entry_abort() is None,
        ensures
            config == self.config(),
    {
        Config {
            sac: self.sac.unwrap(),
            pool: self.pool.unwrap(),
            quote_token: self.quote_token.unwrap(),
            oracle: self.oracle.unwrap(),
            owner: self.owner.unwrap(),
            quote_price: self.quote_price.unwrap_or(0),
            upper_bps: self.upper_bps.unwrap_or(DEFAULT_BAND_BPS),
            lower_bps: self.lower_bps.unwrap_or(DEFAULT_BAND_BPS),
            max_mint: self.max_mint.unwrap_or(DEFAULT_MAX_MINT),
            max_quote_spend: self.max_quote_spend.unwrap_or(DEFAULT_MAX_QUOTE_SPEND),
            ljoule_is_token0: self.ljoule_is_token0.unwrap_or(true),
            max_stale_ledgers: self.max_stale_ledgers.unwrap_or(DEFAULT_MAX_STALE_LEDGERS),
            cooldown_ledgers: self.cooldown_ledgers.unwrap_or(DEFAULT_COOLDOWN_LEDGERS),
            min_reserve: self.min_reserve.unwrap_or(DEFAULT_MIN_RESERVE),
        }
    }
}

} // verus!
