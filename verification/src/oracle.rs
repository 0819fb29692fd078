//! The oracle's price feed.

use crate::errors::RebalancerAdminError;
use crate::math::fits;
use crate::state::{or_default, Entry, RebalancerAdmin};
use vstd::math::abs;
use vstd::prelude::*;

verus! {

/// A price that was accepted.
#[derive(Clone, Copy, Debug, PartialEq, Eq, Structural)]
pub struct PriceData {
    /// LJOULE/USD price in 7-decimal fixed point (7630 is $0.000763).
    pub price: i128,
    /// Number of the update or override that brought the price. Numbers
    /// strictly increase, so that none can be replayed.
    pub nonce: u64,
    /// Ledger sequence number at which the price was accepted.
    pub ledger: u32,
}

/// Lowest price that is accepted, until bounds are configured: $0.0001.
pub const DEFAULT_PRICE_FLOOR: i128 = 1_000;

/// Highest price that is accepted, until bounds are configured: $0.01.
pub const DEFAULT_PRICE_CEILING: i128 = 100_000;

/// Most that one call mints, until it is configured: 10,000 LJOULE.
pub const DEFAULT_MINT_CAP: i128 = 100_000_000_000;

/// Largest swing of the price in one update, in basis points: 20 percent.
pub const MAX_SWING_BPS: i128 = 2_000;

impl RebalancerAdmin {
    /// The number of the last accepted price, zero before the first.
    pub open spec fn nonce(self) -> u64 {
        match self.price_data {
            Some(data) => data.nonce,
            None => 0,
        }
    }

    /// Most that one call mints.
    pub open spec fn cap(self) -> i128 {
        or_default(self.mint_cap, DEFAULT_MINT_CAP)
    }

    /// Lowest price that is accepted.
    pub open spec fn floor(self) -> i128 {
        or_default(self.price_floor, DEFAULT_PRICE_FLOOR)
    }

    /// Highest price that is accepted.
    pub open spec fn ceiling(self) -> i128 {
        or_default(self.price_ceiling, DEFAULT_PRICE_CEILING)
    }

    /// Whether a price lies within the bounds.
    pub open spec fn in_bounds(self, price: i128) -> bool {
        self.floor() <= price <= self.ceiling()
    }
}

/// Whether a price moves from `old_price` to `new_price` by at most the
/// largest swing, measured against `old_price`.
pub open spec fn swing_allowed(old_price: int, new_price: int) -> bool {
    abs(new_price - old_price) * 10_000 <= MAX_SWING_BPS * old_price
}

/// Whether the two sides of the swing's comparison stay within their type.
pub open spec fn swing_defined(old_price: int, new_price: int) -> bool {
    let swing = abs(new_price - old_price) as int;
    &&& fits(swing)
    &&& fits(swing * 10_000)
    &&& fits(MAX_SWING_BPS * old_price)
}

/// Returns the last accepted price.
pub fn get_price_data(admin: &RebalancerAdmin) -> (data: Option<PriceData>)
    ensures
        data == admin.price_data,
{
    admin.price_data
}

/// Replaces the last accepted price.
pub fn set_price_data(admin: &mut RebalancerAdmin, data: &PriceData)
    ensures
        *final(admin) == (RebalancerAdmin { price_data: Some(*data), ..*old(admin) }),
{
    admin.store(Entry::PriceData(*data));
}

/// Returns the number of the last accepted price, zero before the first.
pub fn get_nonce(admin: &RebalancerAdmin) -> (nonce: u64)
    ensures
        nonce == admin.nonce(),
{
    match get_price_data(admin) {
        Some(data) => data.nonce,
        None => 0,
    }
}

/// Returns the most that one call mints.
pub fn get_mint_cap(admin: &RebalancerAdmin) -> (cap: i128)
    ensures
        cap == admin.cap(),
{
    admin.mint_cap.unwrap_or(DEFAULT_MINT_CAP)
}

/// Returns the lowest price that is accepted.
pub fn get_price_floor(admin: &RebalancerAdmin) -> (floor: i128)
    ensures
        floor == admin.floor(),
{
    admin.price_floor.unwrap_or(DEFAULT_PRICE_FLOOR)
}

/// Returns the highest price that is accepted.
pub fn get_price_ceiling(admin: &RebalancerAdmin) -> (ceiling: i128)
    ensures
        ceiling == admin.ceiling(),
{
    admin.price_ceiling.unwrap_or(DEFAULT_PRICE_CEILING)
}

/// Checks that a price lies within the bounds.
pub fn check_bounds(admin: &RebalancerAdmin, price: i128) -> (checked: Result<
    (),
    RebalancerAdminError,
>)
    ensures
        checked == if admin.in_bounds(price) {
            Ok::<(), RebalancerAdminError>(())
        } else {
            Err(RebalancerAdminError::PriceOutOfBounds)
        },
{
    let floor = get_price_floor(admin);
    let ceiling = get_price_ceiling(admin);
    if price < floor || price > ceiling {
        return Err(RebalancerAdminError::PriceOutOfBounds);
    }
    Ok(())
}

/// Circuit breaker: rejects a swing of more than 20 percent of the previous
/// price.
pub fn check_circuit_breaker(old_price: i128, new_price: i128) -> (checked: Result<
    (),
    RebalancerAdminError,
>)
    requires
        swing_defined(old_price as int, new_price as int),
    ensures
        checked == if swing_allowed(old_price as int, new_price as int) {
            Ok::<(), RebalancerAdminError>(())
        } else {
            Err(RebalancerAdminError::CircuitBreakerTripped)
        },
{
    let diff = if new_price > old_price {
        new_price - old_price
    } else {
        old_price - new_price
    };
    if diff * 10_000 > MAX_SWING_BPS * old_price {
        return Err(RebalancerAdminError::CircuitBreakerTripped);
    }
    Ok(())
}

/// Returns whether the two sides of the swing's comparison stay within their
/// type.
pub fn swing_is_defined(old_price: i128, new_price: i128) -> (defined: bool)
    ensures
        defined == swing_defined(old_price as int, new_price as int),
{
    let diff = if new_price > old_price {
        new_price.checked_sub(old_price)
    } else {
        old_price.checked_sub(new_price)
    };
    match diff {
        Some(diff) => diff.checked_mul(10_000).is_some() && old_price.checked_mul(
            MAX_SWING_BPS,
        ).is_some(),
        None => false,
    }
}

} // verus!
