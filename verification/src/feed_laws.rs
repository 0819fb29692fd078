//! What the operations on the price feed do, on what is stored and given.

use crate::effects::{Effect, Event};
use crate::errors::{Abort, RebalancerAdminError};
use crate::oracle;
use crate::oracle::PriceData;
use crate::plain::{given, in_range};
use crate::state::{Entry, RebalancerAdmin};
use vstd::prelude::*;

verus! {

/// Whether a price lies within the bounds that are stored, or else between
/// $0.0001 and $0.01.
pub open spec fn within_bounds(admin: RebalancerAdmin, price: i128) -> bool {
    given(admin.price_floor, 1_000) <= price <= given(admin.price_ceiling, 100_000)
}

/// Whether an update comes later than the stored price, and with a number above
/// zero.
pub open spec fn is_next(admin: RebalancerAdmin, nonce: u64) -> bool {
    nonce > 0 && (admin.price_data matches Some(data) ==> nonce > data.nonce)
}

/// Whether a price lies between 80 and 120 percent of the stored one, if there
/// is one.
pub open spec fn is_near(admin: RebalancerAdmin, price: i128) -> bool {
    admin.price_data matches Some(data) ==> 8 * data.price <= 10 * price <= 12 * data.price
}

/// An update of the price is accepted if and only if its number is above the
/// last one, its price is within the bounds, and the price has moved by at most
/// 20 percent, up or down. The first of these that does not hold is the reason
/// for which it is refused.
pub proof fn law_update_is_accepted_when(
    admin: &mut RebalancerAdmin,
    price: i128,
    nonce: u64,
    ledger: u32,
    outcome: (Vec<Effect>, Result<(), RebalancerAdminError>),
)
    requires
        call_ensures(RebalancerAdmin::update_price, (admin, price, nonce, ledger), outcome),
    ensures
        outcome.1 is Ok <==> is_next(*old(admin), nonce) && within_bounds(*old(admin), price)
            && is_near(*old(admin), price),
        outcome.1 == Err::<(), _>(RebalancerAdminError::NonceTooLow) <==> !is_next(
            *old(admin),
            nonce,
        ),
        outcome.1 == Err::<(), _>(RebalancerAdminError::PriceOutOfBounds) <==> is_next(
            *old(admin),
            nonce,
        ) && !within_bounds(*old(admin), price),
        outcome.1 == Err::<(), _>(RebalancerAdminError::CircuitBreakerTripped) <==> is_next(
            *old(admin),
            nonce,
        ) && within_bounds(*old(admin), price) && !is_near(*old(admin), price),
{
}

/// An accepted update stores the price with its number and the ledger, and
/// announces it; a refused one changes nothing. Either way the oracle must
/// agree first, and the stored data is kept alive for 30 days once less than
/// one is left.
pub proof fn law_update_is_stored(
    admin: &mut RebalancerAdmin,
    price: i128,
    nonce: u64,
    ledger: u32,
    outcome: (Vec<Effect>, Result<(), RebalancerAdminError>),
    reported: (i128, u32),
)
    requires
        call_ensures(RebalancerAdmin::update_price, (admin, price, nonce, ledger), outcome),
    ensures
        outcome.0@.len() >= 2,
        outcome.0@[0] == (Effect::RequireAuth { address: old(admin).oracle->0 }),
        outcome.0@[1] == (Effect::ExtendTtl { threshold: 17_280, extend_to: 518_400 }),
        outcome.1 is Ok ==> {
            let data = PriceData { price, nonce, ledger };
            &&& *final(admin) == (RebalancerAdmin { price_data: Some(data), ..*old(admin) })
            &&& outcome.0@.len() == 4
            &&& outcome.0@[2] == (Effect::Store { entry: Entry::PriceData(data) })
            &&& outcome.0@[3] == (Effect::Publish {
                event: Event::PriceUpdated { price_scaled: price, nonce },
            })
            &&& call_ensures(RebalancerAdmin::get_price, (&*final(admin),), reported) ==> reported
                == (price, ledger)
        },
        outcome.1 is Err ==> *final(admin) == *old(admin) && outcome.0@.len() == 2,
{
}

/// An update that was accepted, and any with a lower number, is refused when it
/// is sent again.
pub proof fn law_update_is_refused_again(
    admin: &mut RebalancerAdmin,
    price: i128,
    nonce: u64,
    ledger: u32,
    outcome: (Vec<Effect>, Result<(), RebalancerAdminError>),
    again: &mut RebalancerAdmin,
    other_price: i128,
    other_nonce: u64,
    other_ledger: u32,
    other_outcome: (Vec<Effect>, Result<(), RebalancerAdminError>),
)
    requires
        call_ensures(RebalancerAdmin::update_price, (admin, price, nonce, ledger), outcome),
        call_ensures(
            RebalancerAdmin::update_price,
            (again, other_price, other_nonce, other_ledger),
            other_outcome,
        ),
        outcome.1 is Ok,
        other_nonce <= nonce,
    ensures
        *final(admin) == *old(again) ==> other_outcome.1 == Err::<(), _>(
            RebalancerAdminError::NonceTooLow,
        ) && *final(again) == *old(again),
{
}

/// An update can be judged unless the contract was not set up, or the last step
/// of judging it, the comparison with the stored price, goes out of range.
pub proof fn law_update_traps_when(
    admin: RebalancerAdmin,
    price: i128,
    nonce: u64,
    abort: Option<Abort>,
)
    requires
        call_ensures(RebalancerAdmin::check_update_price, (&admin, price, nonce), abort),
    ensures
        abort == Some(Abort::NotInitialized) <==> admin.initialized != Some(true),
        abort == Some(Abort::Arithmetic) <==> {
            &&& admin.initialized == Some(true)
            &&& is_next(admin, nonce)
            &&& within_bounds(admin, price)
            &&& admin.price_data matches Some(data) && !{
                &&& in_range(data.price - price)
                &&& in_range(price - data.price)
                &&& in_range(10_000 * (data.price - price))
                &&& in_range(10_000 * (price - data.price))
                &&& in_range(2_000 * data.price)
            }
        },
        abort is Some ==> abort == Some(Abort::NotInitialized) || abort == Some(Abort::Arithmetic),
{
}

/// Wherever an update does not trap, it can be made.
pub proof fn law_update_can_be_made(
    admin: &mut RebalancerAdmin,
    price: i128,
    nonce: u64,
    ledger: u32,
)
    requires
        admin.wf(),
        call_ensures(
            RebalancerAdmin::check_update_price,
            (&*admin, price, nonce),
            None::<Abort>,
        ),
    ensures
        call_requires(RebalancerAdmin::update_price, (old(admin), price, nonce, ledger)),
{
}

/// An override of the price is accepted if and only if its number is above that
/// of the stored price, if there is one, and its price is within the bounds. It
/// may be any distance from the stored price. Accepted, it is stored and
/// announced; refused, it changes nothing. Either way the owner must agree
/// first.
pub proof fn law_override(
    admin: &mut RebalancerAdmin,
    price: i128,
    nonce: u64,
    ledger: u32,
    outcome: (Vec<Effect>, Result<(), RebalancerAdminError>),
    reported: (i128, u32),
)
    requires
        call_ensures(RebalancerAdmin::owner_set_price, (admin, price, nonce, ledger), outcome),
    ensures
        outcome.1 == Err::<(), _>(RebalancerAdminError::NonceTooLow) <==> (
        old(admin).price_data matches Some(data) && nonce <= data.nonce),
        outcome.1 == Err::<(), _>(RebalancerAdminError::PriceOutOfBounds) <==> (
        old(admin).price_data matches Some(data) ==> nonce > data.nonce) && !within_bounds(
            *old(admin),
            price,
        ),
        outcome.1 is Ok <==> (old(admin).price_data matches Some(data) ==> nonce > data.nonce)
            && within_bounds(*old(admin), price),
        outcome.0@.len() >= 1,
        outcome.0@[0] == (Effect::RequireAuth { address: old(admin).owner->0 }),
        outcome.1 is Ok ==> {
            let data = PriceData { price, nonce, ledger };
            &&& *final(admin) == (RebalancerAdmin { price_data: Some(data), ..*old(admin) })
            &&& outcome.0@.len() == 3
            &&& outcome.0@[1] == (Effect::Store { entry: Entry::PriceData(data) })
            &&& outcome.0@[2] == (Effect::Publish {
                event: Event::PriceOverride { price_scaled: price, nonce },
            })
            &&& call_ensures(RebalancerAdmin::get_price, (&*final(admin),), reported) ==> reported
                == (price, ledger)
        },
        outcome.1 is Err ==> *final(admin) == *old(admin) && outcome.0@.len() == 1,
{
}

/// An override can be made on any contract that was set up.
pub proof fn law_override_can_be_made(
    admin: &mut RebalancerAdmin,
    price: i128,
    nonce: u64,
    ledger: u32,
)
    requires
        admin.wf(),
        admin.initialized == Some(true),
    ensures
        call_requires(RebalancerAdmin::owner_set_price, (old(admin), price, nonce, ledger)),
{
}

/// The price that is reported is the stored one, with its ledger, and zeros
/// where there is none.
pub proof fn law_reported_price(admin: RebalancerAdmin, reported: (i128, u32))
    requires
        call_ensures(RebalancerAdmin::get_price, (&admin,), reported),
    ensures
        admin.price_data matches Some(data) ==> reported == (data.price, data.ledger),
        admin.price_data is None ==> reported == (0i128, 0u32),
        admin.initialized == Some(true) ==> call_requires(RebalancerAdmin::get_price, (&admin,)),
{
}

/// The oracle sets the price of the quote token. Any positive price is stored
/// and announced, and nothing else changes.
pub proof fn law_quote_price_is_stored(
    admin: &mut RebalancerAdmin,
    price: i128,
    outcome: (Vec<Effect>, Result<(), RebalancerAdminError>),
)
    requires
        call_ensures(RebalancerAdmin::set_quote_price, (admin, price), outcome),
    ensures
        outcome.1 is Ok,
        *final(admin) == (RebalancerAdmin { quote_price: Some(price), ..*old(admin) }),
        outcome.0@ == seq![
            Effect::RequireAuth { address: old(admin).oracle->0 },
            Effect::ExtendTtl { threshold: 17_280, extend_to: 518_400 },
            Effect::Store { entry: Entry::QuotePrice(price) },
            Effect::Publish { event: Event::QuotePriceSet { price } },
        ],
{
}

/// Setting the price of the quote token traps where the contract was not set
/// up, and where the price is not positive, and nowhere else.
pub proof fn law_quote_price_traps_when(
    admin: &mut RebalancerAdmin,
    price: i128,
    abort: Option<Abort>,
)
    requires
        admin.wf(),
        call_ensures(RebalancerAdmin::check_set_quote_price, (&*admin, price), abort),
    ensures
        abort == Some(Abort::NotInitialized) <==> old(admin).initialized != Some(true),
        abort == Some(Abort::PriceNotPositive) <==> old(admin).initialized == Some(true) && price
            <= 0,
        abort is None <==> old(admin).initialized == Some(true) && price > 0,
        old(admin).initialized == Some(true) && price > 0 ==> call_requires(
            RebalancerAdmin::set_quote_price,
            (old(admin), price),
        ),
{
}

/// The owner sets the price bounds. They are stored and announced, nothing else
/// changes, and from then on prices are held to them and they are read back.
pub proof fn law_bounds_are_stored(
    admin: &mut RebalancerAdmin,
    floor: i128,
    ceiling: i128,
    effects: Vec<Effect>,
    bounds: (i128, i128),
    price: i128,
    checked: Result<(), RebalancerAdminError>,
)
    requires
        call_ensures(RebalancerAdmin::set_price_bounds, (admin, floor, ceiling), effects),
    ensures
        *final(admin) == (RebalancerAdmin {
            price_floor: Some(floor),
            price_ceiling: Some(ceiling),
            ..*old(admin)
        }),
        effects@ == seq![
            Effect::RequireAuth { address: old(admin).owner->0 },
            Effect::Store { entry: Entry::PriceFloor(floor) },
            Effect::Store { entry: Entry::PriceCeiling(ceiling) },
            Effect::Publish { event: Event::PriceBoundsSet { floor, ceiling } },
        ],
        call_ensures(RebalancerAdmin::price_bounds, (&*final(admin),), bounds) ==> bounds == (
            floor,
            ceiling,
        ),
        call_ensures(oracle::check_bounds, (&*final(admin), price), checked) ==> (checked is Ok
            <==> floor <= price <= ceiling),
{
}

/// Setting the price bounds traps where the contract was not set up, and where
/// they are not positive or leave nothing between them, and nowhere else.
pub proof fn law_bounds_trap_when(
    admin: &mut RebalancerAdmin,
    floor: i128,
    ceiling: i128,
    abort: Option<Abort>,
)
    requires
        admin.wf(),
        call_ensures(RebalancerAdmin::check_set_price_bounds, (&*admin, floor, ceiling), abort),
    ensures
        abort == Some(Abort::NotInitialized) <==> old(admin).initialized != Some(true),
        abort == Some(Abort::InvalidBounds) <==> old(admin).initialized == Some(true) && (floor <= 0
            || ceiling <= floor),
        abort is None <==> old(admin).initialized == Some(true) && 0 < floor < ceiling,
        old(admin).initialized == Some(true) && 0 < floor < ceiling ==> call_requires(
            RebalancerAdmin::set_price_bounds,
            (old(admin), floor, ceiling),
        ),
{
}

/// The owner sets the mint cap. It is stored, nothing else changes, and it is
/// read back.
pub proof fn law_cap_is_stored(
    admin: &mut RebalancerAdmin,
    cap: i128,
    effects: Vec<Effect>,
    read: i128,
)
    requires
        call_ensures(RebalancerAdmin::set_mint_cap, (admin, cap), effects),
    ensures
        *final(admin) == (RebalancerAdmin { mint_cap: Some(cap), ..*old(admin) }),
        effects@ == seq![
            Effect::RequireAuth { address: old(admin).owner->0 },
            Effect::Store { entry: Entry::MintCap(cap) },
        ],
        call_ensures(RebalancerAdmin::mint_cap, (&*final(admin),), read) ==> read == cap,
{
}

/// Setting the mint cap traps where the contract was not set up, and where the
/// cap is not positive, and nowhere else.
pub proof fn law_cap_traps_when(admin: &mut RebalancerAdmin, cap: i128, abort: Option<Abort>)
    requires
        admin.wf(),
        call_ensures(RebalancerAdmin::check_set_mint_cap, (&*admin, cap), abort),
    ensures
        abort == Some(Abort::NotInitialized) <==> old(admin).initialized != Some(true),
        abort == Some(Abort::CapNotPositive) <==> old(admin).initialized == Some(true) && cap <= 0,
        abort is None <==> old(admin).initialized == Some(true) && cap > 0,
        old(admin).initialized == Some(true) && cap > 0 ==> call_requires(
            RebalancerAdmin::set_mint_cap,
            (old(admin), cap),
        ),
{
}

/// The limits of the feed are those that are stored, or else $0.0001, $0.01 and
/// 10,000 LJOULE.
pub proof fn law_limits_in_force(
    admin: RebalancerAdmin,
    bounds: (i128, i128),
    cap: i128,
    floor: i128,
    ceiling: i128,
    cap_again: i128,
)
    requires
        call_ensures(RebalancerAdmin::price_bounds, (&admin,), bounds),
        call_ensures(RebalancerAdmin::mint_cap, (&admin,), cap),
        call_ensures(oracle::get_price_floor, (&admin,), floor),
        call_ensures(oracle::get_price_ceiling, (&admin,), ceiling),
        call_ensures(oracle::get_mint_cap, (&admin,), cap_again),
    ensures
        floor == given(admin.price_floor, 1_000),
        ceiling == given(admin.price_ceiling, 100_000),
        bounds == (floor, ceiling),
        cap == given(admin.mint_cap, 100_000_000_000),
        cap_again == cap,
{
}

/// The stored price is read and written as a whole. Its number is the last one,
/// and zero stands for none.
pub proof fn law_price_data_is_one_entry(
    admin: &mut RebalancerAdmin,
    data: PriceData,
    read: Option<PriceData>,
    nonce: u64,
)
    requires
        call_ensures(oracle::set_price_data, (admin, &data), ()),
        call_ensures(oracle::get_price_data, (&*admin,), read),
        call_ensures(oracle::get_nonce, (&*admin,), nonce),
    ensures
        *final(admin) == (RebalancerAdmin { price_data: Some(data), ..*old(admin) }),
        read == old(admin).price_data,
        read is Some ==> nonce == read->0.nonce,
        read is None ==> nonce == 0,
{
}

/// A price passes the bounds if and only if it lies between them, both ends
/// included.
pub proof fn law_bounds_admit(
    admin: RebalancerAdmin,
    price: i128,
    checked: Result<(), RebalancerAdminError>,
)
    requires
        call_ensures(oracle::check_bounds, (&admin, price), checked),
    ensures
        checked is Ok <==> given(admin.price_floor, 1_000) <= price <= given(
            admin.price_ceiling,
            100_000,
        ),
        checked is Err ==> checked == Err::<(), _>(RebalancerAdminError::PriceOutOfBounds),
{
}

/// The circuit breaker lets a price through if and only if it lies between 80
/// and 120 percent of the previous one, both ends included.
pub proof fn law_breaker_admits(
    old_price: i128,
    new_price: i128,
    checked: Result<(), RebalancerAdminError>,
    defined: bool,
)
    requires
        call_ensures(oracle::check_circuit_breaker, (old_price, new_price), checked),
        call_ensures(oracle::swing_is_defined, (old_price, new_price), defined),
    ensures
        checked is Ok <==> 8 * old_price <= 10 * new_price <= 12 * old_price,
        checked is Err ==> checked == Err::<(), _>(RebalancerAdminError::CircuitBreakerTripped),
        defined <==> {
            &&& in_range(if new_price > old_price {
                10_000 * (new_price - old_price)
            } else {
                10_000 * (old_price - new_price)
            })
            &&& in_range(2_000 * old_price)
        },
        defined ==> call_requires(oracle::check_circuit_breaker, (old_price, new_price)),
{
}

} // verus!
