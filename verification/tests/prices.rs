use rebalancer_admin::address::Address;
use rebalancer_admin::effects::{Effect, Event};
use rebalancer_admin::errors::{Abort, RebalancerAdminError};
use rebalancer_admin::oracle::{
    check_bounds, check_circuit_breaker, get_mint_cap, get_nonce, get_price_ceiling,
    get_price_data, get_price_floor, set_price_data, swing_is_defined, PriceData,
};
use rebalancer_admin::state::{Entry, RebalancerAdmin};

fn address(letter: u8) -> Address {
    Address { strkey: [letter; 56] }
}

fn contract() -> RebalancerAdmin {
    let mut admin = RebalancerAdmin::new();
    admin.initialize(
        address(b'S'),
        address(b'P'),
        address(b'Q'),
        address(b'O'),
        address(b'W'),
        true,
    );
    admin
}

fn renewal() -> Effect {
    Effect::ExtendTtl { threshold: 17_280, extend_to: 518_400 }
}

#[test]
fn breaker_admits_a_fifth_either_way() {
    let tripped = Err(RebalancerAdminError::CircuitBreakerTripped);
    assert_eq!(check_circuit_breaker(10_000, 10_000), Ok(()));
    assert_eq!(check_circuit_breaker(10_000, 12_000), Ok(()));
    assert_eq!(check_circuit_breaker(10_000, 12_001), tripped);
    assert_eq!(check_circuit_breaker(10_000, 8_000), Ok(()));
    assert_eq!(check_circuit_breaker(10_000, 7_999), tripped);
    assert_eq!(check_circuit_breaker(0, 0), Ok(()));
    assert_eq!(check_circuit_breaker(0, 1), tripped);
    assert_eq!(check_circuit_breaker(-10, -10), tripped);
}

#[test]
fn breaker_is_undefined_beyond_the_range() {
    assert!(swing_is_defined(10_000, 12_000));
    assert!(!swing_is_defined(i128::MIN, 1));
    assert!(!swing_is_defined(1, i128::MAX / 10_000 + 2));
    assert!(!swing_is_defined(i128::MAX / 2_000 + 1, i128::MAX / 2_000 + 1));
}

#[test]
fn defaults_hold_before_anything_is_set() {
    let admin = RebalancerAdmin::new();
    assert_eq!(get_price_data(&admin), None);
    assert_eq!(get_nonce(&admin), 0);
    assert_eq!(get_price_floor(&admin), 1_000);
    assert_eq!(get_price_ceiling(&admin), 100_000);
    assert_eq!(get_mint_cap(&admin), 100_000_000_000);
    assert_eq!(admin.mint_cap(), 100_000_000_000);
    assert_eq!(admin.price_bounds(), (1_000, 100_000));
    assert_eq!(contract().get_price(), (0, 0));
}

#[test]
fn stored_price_is_read_back() {
    let mut admin = RebalancerAdmin::new();
    let data = PriceData { price: 7_630, nonce: 9, ledger: 44 };
    set_price_data(&mut admin, &data);
    assert_eq!(get_price_data(&admin), Some(data));
    assert_eq!(get_nonce(&admin), 9);
}

#[test]
fn bounds_hold_at_both_ends() {
    let admin = contract();
    let out = Err(RebalancerAdminError::PriceOutOfBounds);
    assert_eq!(check_bounds(&admin, 999), out);
    assert_eq!(check_bounds(&admin, 1_000), Ok(()));
    assert_eq!(check_bounds(&admin, 100_000), Ok(()));
    assert_eq!(check_bounds(&admin, 100_001), out);
}

#[test]
fn first_update_is_stored() {
    let mut admin = contract();
    assert_eq!(admin.check_update_price(7_630, 1), None);
    let (effects, result) = admin.update_price(7_630, 1, 50);
    assert_eq!(result, Ok(()));
    let data = PriceData { price: 7_630, nonce: 1, ledger: 50 };
    assert_eq!(
        effects,
        vec![
            Effect::RequireAuth { address: address(b'O') },
            renewal(),
            Effect::Store { entry: Entry::PriceData(data) },
            Effect::Publish { event: Event::PriceUpdated { price_scaled: 7_630, nonce: 1 } },
        ]
    );
    assert_eq!(admin.get_price(), (7_630, 50));
    assert_eq!(admin.price_data, Some(data));
}

#[test]
fn refused_updates_change_nothing() {
    let mut admin = contract();
    admin.update_price(10_000, 5, 50);
    let before = admin;
    let refusals = [
        (10_000, 0, RebalancerAdminError::NonceTooLow),
        (10_000, 5, RebalancerAdminError::NonceTooLow),
        (999, 6, RebalancerAdminError::PriceOutOfBounds),
        (100_001, 6, RebalancerAdminError::PriceOutOfBounds),
        (12_001, 6, RebalancerAdminError::CircuitBreakerTripped),
        (7_999, 6, RebalancerAdminError::CircuitBreakerTripped),
        // The number is looked at first, then the bounds.
        (999, 5, RebalancerAdminError::NonceTooLow),
    ];
    for (price, nonce, error) in refusals {
        assert_eq!(admin.check_update_price(price, nonce), None);
        let (effects, result) = admin.update_price(price, nonce, 60);
        assert_eq!(result, Err(error));
        assert_eq!(effects, vec![Effect::RequireAuth { address: address(b'O') }, renewal()]);
        assert_eq!(admin, before);
    }
}

#[test]
fn no_update_is_replayed() {
    let mut admin = contract();
    assert_eq!(admin.update_price(10_000, 1, 50).1, Ok(()));
    assert_eq!(admin.update_price(10_000, 1, 51).1, Err(RebalancerAdminError::NonceTooLow));
    assert_eq!(admin.update_price(11_000, 2, 52).1, Ok(()));
    assert_eq!(admin.update_price(10_000, 1, 53).1, Err(RebalancerAdminError::NonceTooLow));
    assert_eq!(admin.get_price(), (11_000, 52));
}

#[test]
fn first_update_needs_a_positive_number() {
    let mut admin = contract();
    assert_eq!(admin.update_price(10_000, 0, 50).1, Err(RebalancerAdminError::NonceTooLow));
}

#[test]
fn update_beyond_the_range_traps() {
    let mut admin = contract();
    admin.set_price_bounds(1, i128::MAX);
    admin.update_price(1, 1, 50);
    assert_eq!(admin.check_update_price(i128::MAX, 2), Some(Abort::Arithmetic));
    assert_eq!(admin.check_update_price(i128::MAX, 1), None);
    assert_eq!(RebalancerAdmin::new().check_update_price(1, 1), Some(Abort::NotInitialized));
}

#[test]
fn owner_overrides_the_breaker() {
    let mut admin = contract();
    admin.update_price(10_000, 5, 50);
    let (effects, result) = admin.owner_set_price(90_000, 6, 60);
    assert_eq!(result, Ok(()));
    let data = PriceData { price: 90_000, nonce: 6, ledger: 60 };
    assert_eq!(
        effects,
        vec![
            Effect::RequireAuth { address: address(b'W') },
            Effect::Store { entry: Entry::PriceData(data) },
            Effect::Publish { event: Event::PriceOverride { price_scaled: 90_000, nonce: 6 } },
        ]
    );
    assert_eq!(admin.get_price(), (90_000, 60));
}

#[test]
fn owner_is_bound_by_the_number() {
    let mut admin = contract();
    admin.update_price(10_000, 5, 50);
    let before = admin;
    for (price, nonce) in [(10_000, 5), (10_000, 1), (90_000, 0), (100_001, 5)] {
        let (effects, result) = admin.owner_set_price(price, nonce, 60);
        assert_eq!(result, Err(RebalancerAdminError::NonceTooLow));
        assert_eq!(effects, vec![Effect::RequireAuth { address: address(b'W') }]);
        assert_eq!(admin, before);
    }
}

#[test]
fn owner_may_set_the_first_price_under_any_number() {
    let mut admin = contract();
    assert_eq!(admin.owner_set_price(10_000, 0, 60).1, Ok(()));
    let low = Err(RebalancerAdminError::NonceTooLow);
    assert_eq!(admin.owner_set_price(10_000, 0, 61).1, low);
    assert_eq!(admin.update_price(10_000, 0, 61).1, low);
    assert_eq!(admin.update_price(10_000, 1, 61).1, Ok(()));
}

#[test]
fn no_update_is_replayed_past_an_override() {
    let mut admin = contract();
    let low = Err(RebalancerAdminError::NonceTooLow);
    assert_eq!(admin.update_price(10_000, 5, 50).1, Ok(()));
    assert_eq!(admin.owner_set_price(10_000, 1, 51).1, low);
    assert_eq!(admin.update_price(10_000, 5, 52).1, low);
    assert_eq!(admin.owner_set_price(20_000, 6, 53).1, Ok(()));
    admin.set_price_bounds(1, 1_000_000);
    admin.set_oracle(address(b'N'));
    assert_eq!(admin.update_price(20_000, 5, 54).1, low);
    assert_eq!(admin.update_price(20_000, 6, 54).1, low);
    assert_eq!(admin.owner_set_price(20_000, 6, 54).1, low);
    assert_eq!(admin.update_price(20_000, 7, 54).1, Ok(()));
}

#[test]
fn owner_is_bound_by_the_bounds() {
    let mut admin = contract();
    let before = admin;
    let (effects, result) = admin.owner_set_price(100_001, 1, 60);
    assert_eq!(result, Err(RebalancerAdminError::PriceOutOfBounds));
    assert_eq!(effects, vec![Effect::RequireAuth { address: address(b'W') }]);
    assert_eq!(admin, before);
}

#[test]
fn quote_price_is_stored() {
    let mut admin = contract();
    let (effects, result) = admin.set_quote_price(10_000_000);
    assert_eq!(result, Ok(()));
    assert_eq!(
        effects,
        vec![
            Effect::RequireAuth { address: address(b'O') },
            renewal(),
            Effect::Store { entry: Entry::QuotePrice(10_000_000) },
            Effect::Publish { event: Event::QuotePriceSet { price: 10_000_000 } },
        ]
    );
    assert_eq!(admin.quote_price, Some(10_000_000));
    assert_eq!(admin.check_set_quote_price(1), None);
    assert_eq!(admin.check_set_quote_price(0), Some(Abort::PriceNotPositive));
    assert_eq!(RebalancerAdmin::new().check_set_quote_price(0), Some(Abort::NotInitialized));
}

#[test]
fn bounds_are_set_and_read_back() {
    let mut admin = contract();
    let effects = admin.set_price_bounds(5, 6);
    assert_eq!(
        effects,
        vec![
            Effect::RequireAuth { address: address(b'W') },
            Effect::Store { entry: Entry::PriceFloor(5) },
            Effect::Store { entry: Entry::PriceCeiling(6) },
            Effect::Publish { event: Event::PriceBoundsSet { floor: 5, ceiling: 6 } },
        ]
    );
    assert_eq!(admin.price_bounds(), (5, 6));
    assert_eq!(admin.check_set_price_bounds(1, 2), None);
    assert_eq!(admin.check_set_price_bounds(0, 2), Some(Abort::InvalidBounds));
    assert_eq!(admin.check_set_price_bounds(2, 2), Some(Abort::InvalidBounds));
    assert_eq!(RebalancerAdmin::new().check_set_price_bounds(1, 2), Some(Abort::NotInitialized));
}

#[test]
fn mint_cap_is_set_and_read_back() {
    let mut admin = contract();
    let effects = admin.set_mint_cap(77);
    assert_eq!(
        effects,
        vec![
            Effect::RequireAuth { address: address(b'W') },
            Effect::Store { entry: Entry::MintCap(77) },
        ]
    );
    assert_eq!(admin.mint_cap(), 77);
    assert_eq!(admin.check_set_mint_cap(1), None);
    assert_eq!(admin.check_set_mint_cap(0), Some(Abort::CapNotPositive));
    assert_eq!(RebalancerAdmin::new().check_set_mint_cap(1), Some(Abort::NotInitialized));
}
