use rebalancer_admin::address::Address;
use rebalancer_admin::effects::{Effect, Event};
use rebalancer_admin::errors::{Abort, RebalancerAdminError};
use rebalancer_admin::pool::Reserves;
use rebalancer_admin::state::{DataKey, Entry, RebalancerAdmin};
use rebalancer_admin::status::{Config, PoolStatus};

fn address(letter: u8) -> Address {
    Address { strkey: [letter; 56] }
}

fn contract() -> RebalancerAdmin {
    let mut admin = RebalancerAdmin::new();
    admin.initialize(
        address(b'S'),
        address(b'P'),
        address(b'Q'),
        address(b'O'),
        address(b'W'),
        true,
    );
    admin
}

/// Carries the writes among the effects out on another copy of the storage.
fn replay(admin: &mut RebalancerAdmin, effects: &[Effect]) {
    for effect in effects {
        match effect {
            Effect::Store { entry } => admin.store(*entry),
            Effect::SetSacAddress { sac } => admin.sac = Some(*sac),
            _ => {}
        }
    }
}

#[test]
fn set_up_stores_parties_and_defaults() {
    let mut admin = RebalancerAdmin::new();
    assert!(!admin.require_initialized());
    assert_eq!(admin.check_initialize(), None);
    let effects = admin.initialize(
        address(b'S'),
        address(b'P'),
        address(b'Q'),
        address(b'O'),
        address(b'W'),
        false,
    );
    assert_eq!(effects.len(), 15);
    assert_eq!(effects[0], Effect::SetSacAddress { sac: address(b'S') });
    assert_eq!(effects[13], Effect::Store { entry: Entry::Initialized(true) });
    assert_eq!(
        effects[14],
        Effect::Publish { event: Event::Initialized { sac: address(b'S'), pool: address(b'P') } }
    );
    let mut copy = RebalancerAdmin::new();
    replay(&mut copy, &effects);
    assert_eq!(copy, admin);
    assert_eq!(
        admin.get_config(),
        Config {
            sac: address(b'S'),
            pool: address(b'P'),
            quote_token: address(b'Q'),
            oracle: address(b'O'),
            owner: address(b'W'),
            quote_price: 0,
            upper_bps: 500,
            lower_bps: 500,
            max_mint: 100_000_000_000,
            max_quote_spend: 50_000_000_000,
            ljoule_is_token0: false,
            max_stale_ledgers: 1000,
            cooldown_ledgers: 12,
            min_reserve: 10_000_000,
        }
    );
}

#[test]
fn set_up_happens_once() {
    assert_eq!(contract().check_initialize(), Some(Abort::AlreadyInitialized));
    assert_eq!(contract().check_entry(), None);
    assert_eq!(RebalancerAdmin::new().check_entry(), Some(Abort::NotInitialized));
}

#[test]
fn parties_are_known_after_set_up() {
    let admin = contract();
    assert_eq!(admin.require_oracle(), address(b'O'));
    assert_eq!(admin.require_owner(), address(b'W'));
    assert!(admin.require_oracle_or_owner(&address(b'O')));
    assert!(admin.require_oracle_or_owner(&address(b'W')));
    assert!(!admin.require_oracle_or_owner(&address(b'S')));
}

#[test]
fn owner_hands_the_token_over() {
    let effects = contract().set_admin(address(b'N'), address(b'X'));
    assert_eq!(
        effects,
        vec![
            Effect::RequireAuth { address: address(b'W') },
            Effect::RequireAuth { address: address(b'X') },
            Effect::SetAdmin { new_admin: address(b'N') },
            Effect::Publish { event: Event::SacAdminChanged { new_admin: address(b'N') } },
        ]
    );
}

#[test]
fn owner_authorizes_holders() {
    let effects = contract().set_authorized(address(b'H'), false, address(b'X'));
    assert_eq!(
        effects,
        vec![
            Effect::RequireAuth { address: address(b'W') },
            Effect::RequireAuth { address: address(b'X') },
            Effect::SetAuthorized { id: address(b'H'), authorize: false },
            Effect::Publish {
                event: Event::AuthorizationChanged { id: address(b'H'), authorize: false },
            },
        ]
    );
}

#[test]
fn minting_raises_the_supply() {
    let mut admin = contract();
    admin.mint(address(b'H'), 30, address(b'W'));
    let effects = admin.mint(address(b'H'), 70, address(b'O'));
    assert_eq!(
        effects,
        vec![
            Effect::RequireAuth { address: address(b'O') },
            Effect::Mint { to: address(b'H'), amount: 70 },
            Effect::Store { entry: Entry::TotalMinted(100) },
            Effect::Publish { event: Event::Minted { to: address(b'H'), amount: 70 } },
        ]
    );
    assert_eq!(admin.total_minted(), 100);
    assert_eq!(admin.total_burned(), 0);
    assert_eq!(admin.circulating_supply(), 100);
}

#[test]
fn clawing_back_lowers_the_supply() {
    let mut admin = contract();
    admin.mint(address(b'H'), 100, address(b'W'));
    let effects = admin.clawback(address(b'H'), 40, address(b'W'));
    assert_eq!(
        effects,
        vec![
            Effect::RequireAuth { address: address(b'W') },
            Effect::Clawback { from: address(b'H'), amount: 40 },
            Effect::Store { entry: Entry::TotalBurned(40) },
            Effect::Publish { event: Event::Clawback { from: address(b'H'), amount: 40 } },
        ]
    );
    assert_eq!(admin.total_burned(), 40);
    assert_eq!(admin.circulating_supply(), 60);
}

#[test]
fn supply_operations_trap() {
    let mut admin = contract();
    let blank = RebalancerAdmin::new();
    let oracle = address(b'O');
    assert_eq!(admin.check_mint(100_000_000_000, oracle), None);
    assert_eq!(admin.check_mint(100_000_000_001, oracle), Some(Abort::MintCapExceeded));
    assert_eq!(admin.check_mint(1, address(b'X')), Some(Abort::NotOracleOrOwner));
    assert_eq!(blank.check_mint(1, oracle), Some(Abort::NotInitialized));
    assert_eq!(admin.check_clawback(i128::MAX, oracle), None);
    assert_eq!(admin.check_clawback(1, address(b'X')), Some(Abort::NotOracleOrOwner));
    assert_eq!(blank.check_clawback(1, oracle), Some(Abort::NotInitialized));
    admin.total_minted = Some(i128::MAX);
    admin.total_burned = Some(i128::MAX);
    assert_eq!(admin.check_mint(1, oracle), Some(Abort::Arithmetic));
    assert_eq!(admin.check_clawback(1, oracle), Some(Abort::Arithmetic));
    assert_eq!(admin.check_circulating_supply(), None);
    assert_eq!(admin.circulating_supply(), 0);
    admin.total_burned = Some(-1);
    assert_eq!(admin.check_circulating_supply(), Some(Abort::Arithmetic));
}

#[test]
fn anyone_funds_and_the_owner_withdraws() {
    let admin = contract();
    let this = address(b'C');
    assert_eq!(
        admin.fund_quote(this, address(b'H'), 9),
        vec![
            Effect::RequireAuth { address: address(b'H') },
            Effect::Transfer {
                token: address(b'Q'),
                from: address(b'H'),
                to: this,
                amount: 9,
            },
            Effect::Publish { event: Event::Funded { from: address(b'H'), amount: 9 } },
        ]
    );
    assert_eq!(
        admin.withdraw(this, address(b'T'), address(b'H'), 8),
        vec![
            Effect::RequireAuth { address: address(b'W') },
            Effect::Transfer {
                token: address(b'T'),
                from: this,
                to: address(b'H'),
                amount: 8,
            },
            Effect::Publish {
                event: Event::Withdraw { token: address(b'T'), to: address(b'H'), amount: 8 },
            },
        ]
    );
    assert_eq!(admin.check_transfer(1), None);
    assert_eq!(admin.check_transfer(0), Some(Abort::AmountNotPositive));
    assert_eq!(RebalancerAdmin::new().check_transfer(1), Some(Abort::NotInitialized));
}

#[test]
fn oracle_and_pool_are_changed() {
    let mut admin = contract();
    let mut copy = admin;
    let effects = admin.set_oracle(address(b'N'));
    assert_eq!(
        effects,
        vec![
            Effect::RequireAuth { address: address(b'W') },
            Effect::Store { entry: Entry::Oracle(address(b'N')) },
            Effect::Publish { event: Event::OracleChanged { oracle: address(b'N') } },
        ]
    );
    replay(&mut copy, &effects);
    let effects = admin.set_pool(address(b'R'), false);
    assert_eq!(
        effects,
        vec![
            Effect::RequireAuth { address: address(b'W') },
            Effect::Store { entry: Entry::Pool(address(b'R')) },
            Effect::Store { entry: Entry::LjouleIsToken0(false) },
            Effect::Publish { event: Event::PoolChanged { pool: address(b'R') } },
        ]
    );
    replay(&mut copy, &effects);
    assert_eq!(copy, admin);
    let config = admin.get_config();
    assert_eq!(config.oracle, address(b'N'));
    assert_eq!(config.pool, address(b'R'));
    assert!(!config.ljoule_is_token0);
    assert_eq!(config.owner, address(b'W'));
}

#[test]
fn parameters_are_changed() {
    let mut admin = contract();
    let mut copy = admin;
    let effects = admin.set_params(1, 9_999, 2, 3, 0, 4);
    assert_eq!(effects.len(), 8);
    assert_eq!(effects[0], Effect::RequireAuth { address: address(b'W') });
    assert_eq!(
        effects[7],
        Effect::Publish {
            event: Event::ParamsUpdated {
                upper_bps: 1,
                lower_bps: 9_999,
                max_mint: 2,
                max_quote_spend: 3,
            },
        }
    );
    replay(&mut copy, &effects);
    assert_eq!(copy, admin);
    let config = admin.get_config();
    assert_eq!((config.upper_bps, config.lower_bps), (1, 9_999));
    assert_eq!((config.max_mint, config.max_quote_spend), (2, 3));
    assert_eq!((config.cooldown_ledgers, config.min_reserve), (0, 4));
}

#[test]
fn parameters_out_of_range_trap() {
    let admin = contract();
    assert_eq!(admin.check_set_params(1, 1, 1, 1, 1), None);
    assert_eq!(admin.check_set_params(0, 0, 0, 0, 0), Some(Abort::InvalidUpperBps));
    assert_eq!(admin.check_set_params(10_000, 1, 1, 1, 1), Some(Abort::InvalidUpperBps));
    assert_eq!(admin.check_set_params(1, 10_000, 1, 1, 1), Some(Abort::InvalidLowerBps));
    assert_eq!(admin.check_set_params(1, 1, 0, 1, 1), Some(Abort::MaxMintNotPositive));
    assert_eq!(admin.check_set_params(1, 1, 1, 0, 1), Some(Abort::MaxQuoteSpendNotPositive));
    assert_eq!(admin.check_set_params(1, 1, 1, 1, 0), Some(Abort::MinReserveNotPositive));
    let blank = RebalancerAdmin::new();
    assert_eq!(blank.check_set_params(0, 0, 0, 0, 0), Some(Abort::NotInitialized));
}

#[test]
fn staleness_limit_is_changed() {
    let mut admin = contract();
    let effects = admin.set_max_stale(7);
    assert_eq!(
        effects,
        vec![
            Effect::RequireAuth { address: address(b'W') },
            Effect::Store { entry: Entry::MaxStaleLedgers(7) },
            Effect::Publish { event: Event::MaxStaleChanged { max_stale_ledgers: 7 } },
        ]
    );
    assert_eq!(admin.get_config().max_stale_ledgers, 7);
    assert_eq!(admin.check_set_max_stale(1), None);
    assert_eq!(admin.check_set_max_stale(0), Some(Abort::MaxStaleNotPositive));
    assert_eq!(RebalancerAdmin::new().check_set_max_stale(1), Some(Abort::NotInitialized));
}

#[test]
fn owner_upgrades_the_code() {
    assert_eq!(
        contract().upgrade([7; 32]),
        vec![
            Effect::RequireAuth { address: address(b'W') },
            Effect::ExtendTtl { threshold: 17_280, extend_to: 518_400 },
            Effect::UpdateWasm { wasm_hash: [7; 32] },
        ]
    );
}

#[test]
fn status_compares_the_prices() {
    let mut admin = contract();
    let reserves = Reserves { ljoule: 1_000_000_000_000, quote: 1_100_000_000 };
    let unset = Err(RebalancerAdminError::QuotePriceNotSet);
    assert_eq!(admin.get_status(reserves), unset);
    admin.set_quote_price(10_000_000);
    assert_eq!(admin.get_status(reserves), unset);
    assert_eq!(admin.recorded_prices(), Err(RebalancerAdminError::QuotePriceNotSet));
    admin.update_price(10_000, 1, 5);
    assert_eq!(admin.recorded_prices(), Ok((10_000_000, 10_000)));
    assert_eq!(
        admin.get_status(reserves),
        Ok(PoolStatus {
            reserve_quote: 1_100_000_000,
            reserve_ljoule: 1_000_000_000_000,
            pool_ljoule_usd_x7: 11_000,
            oracle_ljoule_usd_x7: 10_000,
            quote_usd_x7: 10_000_000,
            deviation_bps: 1_000,
        })
    );
    let empty = Err(RebalancerAdminError::PoolEmpty);
    assert_eq!(admin.get_status(Reserves { ljoule: 0, quote: 1 }), empty);
    assert_eq!(admin.get_status(Reserves { ljoule: 1, quote: 0 }), empty);
}

#[test]
fn negative_deviation_rounds_toward_zero() {
    let mut admin = contract();
    admin.set_quote_price(1);
    admin.update_price(30_000, 1, 5);
    // 29,999 against 30,000 is a third of a basis point.
    let status = admin.get_status(Reserves { ljoule: 1, quote: 29_999 });
    assert_eq!(status.map(|s| s.deviation_bps), Ok(0));
    let status = admin.get_status(Reserves { ljoule: 1, quote: 29_996 });
    assert_eq!(status.map(|s| s.deviation_bps), Ok(-1));
}

#[test]
fn status_beyond_the_range_traps() {
    let mut admin = contract();
    let vast = Reserves { ljoule: 1, quote: i128::MAX };
    assert_eq!(admin.check_get_status(vast), None);
    admin.set_quote_price(1);
    admin.update_price(10_000, 1, 5);
    assert_eq!(admin.check_get_status(vast), Some(Abort::Arithmetic));
    admin.set_quote_price(2);
    assert_eq!(admin.check_get_status(vast), Some(Abort::Arithmetic));
    assert_eq!(admin.check_get_status(Reserves { ljoule: 1, quote: 1 }), None);
    assert_eq!(RebalancerAdmin::new().check_get_status(vast), Some(Abort::NotInitialized));
}

#[test]
fn well_formedness_is_noticed() {
    assert!(RebalancerAdmin::new().is_well_formed());
    assert!(contract().is_well_formed());
    let broken = [
        RebalancerAdmin { owner: None, ..contract() },
        RebalancerAdmin { sac: None, ..contract() },
        RebalancerAdmin { quote_price: Some(0), ..contract() },
        RebalancerAdmin { price_floor: Some(1), ..contract() },
        RebalancerAdmin { price_floor: Some(2), price_ceiling: Some(2), ..contract() },
        RebalancerAdmin { mint_cap: Some(0), ..contract() },
        RebalancerAdmin { upper_bps: Some(10_000), ..contract() },
        RebalancerAdmin { lower_bps: Some(0), ..contract() },
        RebalancerAdmin { max_mint: Some(-1), ..contract() },
        RebalancerAdmin { max_stale_ledgers: Some(0), ..contract() },
    ];
    for admin in broken {
        assert!(!admin.is_well_formed());
    }
}

#[test]
fn storing_touches_one_key() {
    let mut admin = contract();
    let entry = Entry::MintCap(5);
    assert_eq!(entry.key(), DataKey::MintCap);
    let before = admin;
    admin.store(entry);
    assert_eq!(admin, RebalancerAdmin { mint_cap: Some(5), ..before });
}

#[test]
fn errors_keep_their_numbers() {
    assert_eq!(RebalancerAdminError::Unauthorized.code(), 1);
    assert_eq!(RebalancerAdminError::NoRebalanceNeeded.code(), 2);
    assert_eq!(RebalancerAdminError::InsufficientQuote.code(), 3);
    assert_eq!(RebalancerAdminError::PoolEmpty.code(), 4);
    assert_eq!(RebalancerAdminError::QuotePriceNotSet.code(), 5);
    assert_eq!(RebalancerAdminError::AlreadyInitialized.code(), 6);
    assert_eq!(RebalancerAdminError::NotInitialized.code(), 7);
    assert_eq!(RebalancerAdminError::OracleStale.code(), 8);
    assert_eq!(RebalancerAdminError::CooldownActive.code(), 9);
    assert_eq!(RebalancerAdminError::SwapSlippage.code(), 10);
    assert_eq!(RebalancerAdminError::PriceOutOfBounds.code(), 11);
    assert_eq!(RebalancerAdminError::CircuitBreakerTripped.code(), 12);
    assert_eq!(RebalancerAdminError::NonceTooLow.code(), 13);
    assert_eq!(RebalancerAdminError::MintCapExceeded.code(), 14);
}

#[test]
fn events_and_traps_keep_their_names() {
    assert_eq!(Event::MaxStaleChanged { max_stale_ledgers: 1 }.topic(), "max_stale_changed");
    assert_eq!(Event::QuotePriceSet { price: 1 }.topic(), "quote_price_set");
    assert_eq!(Event::Clawback { from: address(b'H'), amount: 1 }.topic(), "clawback");
    assert_eq!(Abort::NotInitialized.message(), "Contract not initialized");
    assert_eq!(Abort::NotOracleOrOwner.message(), "Unauthorized: must be oracle or owner");
    assert_eq!(Abort::MaxStaleNotPositive.message(), "Must be positive");
}
