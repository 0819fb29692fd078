use rebalancer_admin::address::Address;
use rebalancer_admin::effects::{Effect, Event};
use rebalancer_admin::errors::{Abort, RebalancerAdminError};
use rebalancer_admin::pool::{BalanceQuery, Reserves};
use rebalancer_admin::rebalance::{Order, Progress, Quotes};
use rebalancer_admin::state::{Entry, RebalancerAdmin};

const LEDGER: u32 = 5_000;

fn address(letter: u8) -> Address {
    Address { strkey: [letter; 56] }
}

/// A contract with a quote token of $1 and LJOULE at $0.001.
fn contract() -> RebalancerAdmin {
    let mut admin = RebalancerAdmin::new();
    admin.initialize(
        address(b'S'),
        address(b'P'),
        address(b'Q'),
        address(b'O'),
        address(b'W'),
        true,
    );
    admin.set_quote_price(10_000_000);
    admin.update_price(10_000, 1, LEDGER);
    admin
}

/// Runs a rebalance to its end, with the given balances in the order in which
/// they are asked for.
fn run(
    admin: &mut RebalancerAdmin,
    ledger: u32,
    balances: &[i128],
) -> (Vec<Effect>, Result<(), RebalancerAdminError>) {
    assert_eq!(admin.check_rebalance(ledger), None);
    let (mut effects, started) = admin.rebalance(ledger);
    let mut progress = match started {
        Ok(progress) => progress,
        Err(error) => return (effects, Err(error)),
    };
    let mut balances = balances.iter();
    while admin.query(address(b'C'), &progress).is_some() {
        let balance = *balances.next().unwrap();
        assert_eq!(admin.check_resume(progress, balance), None);
        let (more, next) = admin.resume(address(b'C'), progress, balance);
        effects.extend(more);
        progress = match next {
            Ok(progress) => progress,
            Err(error) => return (effects, Err(error)),
        };
    }
    assert_eq!(balances.next(), None);
    (effects, Ok(()))
}

fn opening() -> Vec<Effect> {
    vec![
        Effect::RequireAuth { address: address(b'O') },
        Effect::ExtendTtl { threshold: 17_280, extend_to: 518_400 },
    ]
}

#[test]
fn overpriced_pool_is_sold_into_up_to_the_limit() {
    let mut admin = contract();
    let before = admin;
    let pool = [1_000_000_000_000, 2_000_000_000, 1_000_000_000_000, 2_000_000_000];
    let (effects, result) = run(&mut admin, LEDGER, &pool);
    assert_eq!(result, Ok(()));
    let mut expected = opening();
    expected.extend([
        Effect::Mint { to: address(b'C'), amount: 100_000_000_000 },
        Effect::Store { entry: Entry::TotalMinted(100_000_000_000) },
        Effect::Transfer {
            token: address(b'S'),
            from: address(b'C'),
            to: address(b'P'),
            amount: 100_000_000_000,
        },
        Effect::Swap {
            pool: address(b'P'),
            amount0_out: 0,
            amount1_out: 181_322_178,
            to: address(b'C'),
        },
        Effect::Publish {
            event: Event::RebalanceMint {
                mint_amount: 100_000_000_000,
                usdc_received: 181_322_178,
                reserve_quote: 2_000_000_000,
                reserve_ljoule: 1_000_000_000_000,
            },
        },
        Effect::Store { entry: Entry::LastRebalanceLedger(LEDGER) },
    ]);
    assert_eq!(effects, expected);
    assert_eq!(
        admin,
        RebalancerAdmin {
            total_minted: Some(100_000_000_000),
            last_rebalance_ledger: Some(LEDGER),
            ..before
        }
    );
}

#[test]
fn overpriced_pool_is_sold_into_toward_the_midpoint() {
    let mut admin = contract();
    let pool = [1_000_000_000_000, 1_100_000_000, 1_000_000_000_000, 1_100_000_000];
    let (effects, result) = run(&mut admin, LEDGER, &pool);
    assert_eq!(result, Ok(()));
    assert_eq!(effects[2], Effect::Mint { to: address(b'C'), amount: 35_939_540_565 });
    assert_eq!(
        effects[5],
        Effect::Swap {
            pool: address(b'P'),
            amount0_out: 0,
            amount1_out: 38_051_445,
            to: address(b'C'),
        }
    );
    assert_eq!(admin.total_minted(), 35_939_540_565);
    // The sale leaves the pool just above the midpoint of the upper half.
    let ljoule = 1_000_000_000_000i128 + 35_939_540_565;
    let quote = 1_100_000_000i128 - 38_051_445;
    assert!(ljoule * 10_000 * 10_250 <= quote * 10_000_000 * 10_000);
    assert!(quote * 10_000_000 * 10_000 <= ljoule * 10_000 * 10_252);
}

#[test]
fn sale_into_a_pool_far_above_the_band_does_not_overshoot() {
    let mut admin = contract();
    admin.owner_set_price(1_000, 2, LEDGER);
    let pool = [100_000_000_000, 12_000_000, 100_000_000_000, 12_000_000];
    let (effects, result) = run(&mut admin, LEDGER, &pool);
    assert_eq!(result, Ok(()));
    assert_eq!(effects[2], Effect::Mint { to: address(b'C'), amount: 8_200_356_160 });
    assert_eq!(
        effects[5],
        Effect::Swap {
            pool: address(b'P'),
            amount0_out: 0,
            amount1_out: 906_941,
            to: address(b'C'),
        }
    );
    let after = Reserves { ljoule: 108_200_356_160, quote: 11_093_059 };
    assert_eq!(admin.get_status(after).map(|s| s.deviation_bps), Ok(250));
}

#[test]
fn sale_into_a_large_pool_is_sized_exactly() {
    // The product of the reserves and the price is far beyond 128 bits.
    let mut admin = contract();
    admin.owner_set_price(1_000, 2, LEDGER);
    admin.set_params(500, 500, i128::MAX, 1, 12, 1);
    let (ljoule, quote): (i128, i128) = (1_000_000_000_000_000_000, 1_000_000_000_000_000);
    let (effects, result) = run(&mut admin, LEDGER, &[ljoule, quote, ljoule, quote]);
    assert_eq!(result, Ok(()));
    assert_eq!(
        effects[2],
        Effect::Mint { to: address(b'C'), amount: 2_123_475_237_772_121_310 }
    );
    assert_eq!(
        effects[5],
        Effect::Swap {
            pool: address(b'P'),
            amount0_out: 0,
            amount1_out: 679_189_485_021_033,
            to: address(b'C'),
        }
    );
}

#[test]
fn sale_ends_in_the_band_but_for_the_fee() {
    // With 61 basis points the fee leaves the price inside the band.
    let mut admin = contract();
    admin.set_params(61, 500, i128::MAX, 1, 12, 1);
    let (ljoule, quote): (i128, i128) = (1_000_000_000_000, 1_000_000_000_000_000);
    let (_, result) = run(&mut admin, LEDGER, &[ljoule, quote, ljoule, quote]);
    assert_eq!(result, Ok(()));
    assert_eq!(admin.total_minted(), 997_503_366_584_588);
    let ljoule = ljoule + 997_503_366_584_588;
    let quote = quote - 998_995_490_613_200;
    assert!(ljoule * 10_000 <= quote * 10_000_000);
    assert!(quote * 10_000_000 * 10_000 <= ljoule * 10_000 * 10_061);
}

#[test]
fn poor_sale_is_reported() {
    let mut admin = contract();
    // The pool has lost most of its quote token between the two readings.
    let pool = [1_000_000_000_000, 2_000_000_000, 1_000_000_000_000, 100_000_000];
    let (effects, result) = run(&mut admin, LEDGER, &pool);
    assert_eq!(result, Ok(()));
    assert_eq!(effects.len(), 9);
    assert_eq!(
        effects[6],
        Effect::Publish {
            event: Event::SlippageWarning {
                received: 9_066_108,
                expected: 100_000_000,
                minimum: 80_000_000,
            },
        }
    );
}

#[test]
fn underpriced_pool_is_bought_back_from() {
    let mut admin = contract();
    let before = admin;
    let balances = [
        1_000_000_000_000,
        500_000_000,
        207_106_781,
        1_000_000_000_000,
        500_000_000,
        300_000_000_000,
    ];
    let (effects, result) = run(&mut admin, LEDGER, &balances);
    assert_eq!(result, Ok(()));
    let mut expected = opening();
    expected.extend([
        Effect::Transfer {
            token: address(b'Q'),
            from: address(b'C'),
            to: address(b'P'),
            amount: 207_106_781,
        },
        Effect::Swap {
            pool: address(b'P'),
            amount0_out: 292_271_351_203,
            amount1_out: 0,
            to: address(b'C'),
        },
        // Everything that the contract holds is burned.
        Effect::Clawback { from: address(b'C'), amount: 300_000_000_000 },
        Effect::Store { entry: Entry::TotalBurned(300_000_000_000) },
        Effect::Publish {
            event: Event::RebalanceBuyback {
                quote_to_spend: 207_106_781,
                ljoule_received: 292_271_351_203,
                reserve_quote: 500_000_000,
                reserve_ljoule: 1_000_000_000_000,
            },
        },
        Effect::Store { entry: Entry::LastRebalanceLedger(LEDGER) },
    ]);
    assert_eq!(effects, expected);
    assert_eq!(
        admin,
        RebalancerAdmin {
            total_burned: Some(300_000_000_000),
            last_rebalance_ledger: Some(LEDGER),
            ..before
        }
    );
    // The pool does not overshoot the oracle price.
    let quote = 500_000_000i128 + 207_106_781;
    let ljoule = 1_000_000_000_000i128 - 292_271_351_203;
    assert!(quote * 10_000_000 <= ljoule * 10_000);
}

#[test]
fn nothing_held_is_not_burned() {
    let mut admin = contract();
    let balances =
        [1_000_000_000_000, 500_000_000, 207_106_781, 1_000_000_000_000, 500_000_000, 0];
    let (effects, result) = run(&mut admin, LEDGER, &balances);
    assert_eq!(result, Ok(()));
    assert_eq!(effects.len(), 6);
    assert_eq!(admin.total_burned, None);
}

#[test]
fn poor_buyback_is_reported() {
    let mut admin = contract();
    let balances = [
        1_000_000_000_000,
        500_000_000,
        207_106_781,
        100_000_000_000,
        500_000_000,
        1,
    ];
    let (effects, _) = run(&mut admin, LEDGER, &balances);
    assert_eq!(
        effects[4],
        Effect::Publish {
            event: Event::SlippageWarning {
                received: 29_227_135_120,
                expected: 207_106_781_000,
                minimum: 165_685_424_800,
            },
        }
    );
}

#[test]
fn buyback_is_limited() {
    let mut admin = contract();
    admin.set_params(500, 500, 1, 1_000, 12, 1);
    let reserves = Reserves { ljoule: 1_000_000_000_000, quote: 500_000_000 };
    let quotes = Quotes { ledger: LEDGER, quote_usd: 10_000_000, ljoule_usd: 10_000 };
    let progress = Progress::PoolQuote { quotes, ljoule: reserves.ljoule };
    let (effects, next) = admin.resume(address(b'C'), progress, reserves.quote);
    assert_eq!(effects, vec![]);
    assert_eq!(next, Ok(Progress::OwnQuote { order: Order { quotes, reserves, amount: 1_000 } }));
}

#[test]
fn balanced_pool_is_left_alone() {
    let mut admin = contract();
    let before = admin;
    for quote in [1_000_000_000i128, 950_000_000, 1_050_000_000] {
        let (effects, result) = run(&mut admin, LEDGER, &[1_000_000_000_000, quote]);
        assert_eq!(result, Err(RebalancerAdminError::NoRebalanceNeeded));
        assert_eq!(effects, opening());
        assert_eq!(admin, before);
    }
}

#[test]
fn gap_of_nothing_is_left_alone() {
    let mut admin = contract();
    admin.set_params(500, 500, 1_000, 1_000, 12, 1);
    // 10 LJOULE-units against so little quote token that the rounded target
    // is what is there already.
    let quotes = Quotes { ledger: LEDGER, quote_usd: 106, ljoule_usd: 10 };
    let progress = Progress::PoolQuote { quotes, ljoule: 10 };
    let (_, next) = admin.resume(address(b'C'), progress, 1);
    assert_eq!(next, Err(RebalancerAdminError::NoRebalanceNeeded));
    let quotes = Quotes { ledger: LEDGER, quote_usd: 10, ljoule_usd: 11 };
    let progress = Progress::PoolQuote { quotes, ljoule: 10 };
    let (_, next) = admin.resume(address(b'C'), progress, 10);
    assert_eq!(next, Err(RebalancerAdminError::NoRebalanceNeeded));
}

#[test]
fn small_pool_is_left_alone() {
    let mut admin = contract();
    let before = admin;
    let empty = Err(RebalancerAdminError::PoolEmpty);
    assert_eq!(run(&mut admin, LEDGER, &[9_999_999, 10_000_000]).1, empty);
    assert_eq!(run(&mut admin, LEDGER, &[10_000_000, 9_999_999]).1, empty);
    assert_eq!(admin, before);
}

#[test]
fn buyback_without_funds_is_refused() {
    let mut admin = contract();
    let before = admin;
    let balances = [1_000_000_000_000, 500_000_000, 207_106_780];
    let (effects, result) = run(&mut admin, LEDGER, &balances);
    assert_eq!(result, Err(RebalancerAdminError::InsufficientQuote));
    assert_eq!(effects, opening());
    assert_eq!(admin, before);
}

#[test]
fn rebalance_pauses_after_another() {
    let mut admin = contract();
    let pool = [1_000_000_000_000, 1_100_000_000, 1_000_000_000_000, 1_100_000_000];
    assert_eq!(run(&mut admin, LEDGER, &pool).1, Ok(()));
    let active = Err(RebalancerAdminError::CooldownActive);
    assert_eq!(run(&mut admin, LEDGER, &[]), (opening(), active));
    assert_eq!(run(&mut admin, LEDGER + 11, &[]).1, active);
    assert_eq!(run(&mut admin, LEDGER + 12, &pool).1, Ok(()));
}

#[test]
fn stale_price_is_not_acted_on() {
    let mut admin = contract();
    let stale = Err(RebalancerAdminError::OracleStale);
    assert_eq!(run(&mut admin, LEDGER + 1_001, &[]), (opening(), stale));
    assert_eq!(
        run(&mut admin, LEDGER + 1_000, &[0, 0]).1,
        Err(RebalancerAdminError::PoolEmpty)
    );
}

#[test]
fn missing_prices_are_not_acted_on() {
    let unset = Err(RebalancerAdminError::QuotePriceNotSet);
    let mut admin = RebalancerAdmin { quote_price: None, ..contract() };
    assert_eq!(run(&mut admin, LEDGER, &[]).1, unset);
    let mut admin = RebalancerAdmin { price_data: None, ..contract() };
    assert_eq!(run(&mut admin, LEDGER, &[]).1, unset);
}

#[test]
fn rebalance_traps_before_the_ledgers_on_record() {
    let mut admin = contract();
    assert_eq!(admin.check_rebalance(LEDGER - 1), Some(Abort::Arithmetic));
    admin.last_rebalance_ledger = Some(LEDGER);
    admin.price_data = None;
    assert_eq!(admin.check_rebalance(LEDGER - 1), Some(Abort::Arithmetic));
    assert_eq!(admin.check_rebalance(LEDGER), None);
    assert_eq!(RebalancerAdmin::new().check_rebalance(1), Some(Abort::NotInitialized));
}

#[test]
fn steps_beyond_the_range_trap() {
    let mut admin = contract();
    let quotes = Quotes { ledger: LEDGER, quote_usd: 10_000_000, ljoule_usd: 10_000 };
    let order = Order {
        quotes,
        reserves: Reserves { ljoule: 1, quote: 1 },
        amount: 1_000,
    };
    let overflow = Some(Abort::Arithmetic);
    let deciding = Progress::PoolQuote { quotes, ljoule: 1_000_000_000_000 };
    assert_eq!(admin.check_resume(deciding, i128::MAX), overflow);
    let priceless = Quotes { ljoule_usd: 0, ..quotes };
    let undecided = Progress::PoolQuote { quotes: priceless, ljoule: 1_000_000_000_000 };
    assert_eq!(admin.check_resume(undecided, 2_000_000_000), overflow);
    assert_eq!(admin.check_resume(deciding, 2_000_000_000), None);
    let selling = Progress::MintPoolQuote { order, ljoule: 1 };
    assert_eq!(admin.check_resume(selling, i128::MAX), overflow);
    assert_eq!(admin.check_resume(selling, 1), None);
    let buying = Progress::BuyPoolQuote { order, ljoule: i128::MAX };
    assert_eq!(admin.check_resume(buying, 1), overflow);
    let burning = Progress::OwnLjoule { order, ljoule_received: 1 };
    assert_eq!(admin.check_resume(burning, i128::MAX), None);
    admin.total_burned = Some(1);
    assert_eq!(admin.check_resume(burning, i128::MAX), overflow);
    admin.total_minted = Some(i128::MAX);
    assert_eq!(admin.check_resume(deciding, 2_000_000_000), overflow);
    let blank = RebalancerAdmin::new();
    assert_eq!(blank.check_resume(deciding, 1), Some(Abort::NotInitialized));
}

#[test]
fn steps_ask_for_the_balances_they_need() {
    let admin = contract();
    let this = address(b'C');
    let quotes = Quotes { ledger: LEDGER, quote_usd: 10_000_000, ljoule_usd: 10_000 };
    let order = Order { quotes, reserves: Reserves { ljoule: 1, quote: 1 }, amount: 1 };
    let pool_ljoule = Some(BalanceQuery { token: address(b'S'), holder: address(b'P') });
    let pool_quote = Some(BalanceQuery { token: address(b'Q'), holder: address(b'P') });
    let own_ljoule = Some(BalanceQuery { token: address(b'S'), holder: this });
    let own_quote = Some(BalanceQuery { token: address(b'Q'), holder: this });
    assert_eq!(admin.query(this, &Progress::PoolLjoule { quotes }), pool_ljoule);
    assert_eq!(admin.query(this, &Progress::PoolQuote { quotes, ljoule: 1 }), pool_quote);
    assert_eq!(admin.query(this, &Progress::MintPoolLjoule { order }), pool_ljoule);
    assert_eq!(admin.query(this, &Progress::MintPoolQuote { order, ljoule: 1 }), pool_quote);
    assert_eq!(admin.query(this, &Progress::OwnQuote { order }), own_quote);
    assert_eq!(admin.query(this, &Progress::BuyPoolLjoule { order }), pool_ljoule);
    assert_eq!(admin.query(this, &Progress::BuyPoolQuote { order, ljoule: 1 }), pool_quote);
    assert_eq!(admin.query(this, &Progress::OwnLjoule { order, ljoule_received: 1 }), own_ljoule);
    assert_eq!(admin.query(this, &Progress::Done), None);
}

#[test]
fn reported_deviation_is_acted_on() {
    let mut admin = contract();
    let reserves = Reserves { ljoule: 1_000_000_000_000, quote: 1_060_000_000 };
    let status = admin.get_status(reserves);
    assert_eq!(status.map(|s| s.deviation_bps), Ok(600));
    let pool = [reserves.ljoule, reserves.quote, reserves.ljoule, reserves.quote];
    assert_eq!(run(&mut admin, LEDGER, &pool).1, Ok(()));
    assert!(admin.total_minted() > 0);
}

#[test]
fn underpriced_pool_is_reported() {
    let mut admin = contract();
    let reserves = Reserves { ljoule: 1_000_000_000_000, quote: 949_999_999 };
    assert_eq!(admin.get_status(reserves).map(|s| s.deviation_bps), Ok(-501));
    let balances = [reserves.ljoule, reserves.quote, 0];
    assert_eq!(
        run(&mut admin, LEDGER, &balances).1,
        Err(RebalancerAdminError::InsufficientQuote)
    );
}

#[test]
fn buyback_comes_up_to_the_peg_but_for_the_fee() {
    let mut admin = contract();
    admin.set_params(500, 31, 1, i128::MAX, 12, 1);
    let (ljoule, quote): (i128, i128) = (10_000_000_000_000_000, 10_000_000);
    let balances = [ljoule, quote, i128::MAX, ljoule, quote, 0];
    let (effects, result) = run(&mut admin, LEDGER, &balances);
    assert_eq!(result, Ok(()));
    assert_eq!(
        effects[2],
        Effect::Transfer {
            token: address(b'Q'),
            from: address(b'C'),
            to: address(b'P'),
            amount: 9_990_000_000,
        }
    );
    assert_eq!(
        effects[3],
        Effect::Swap {
            pool: address(b'P'),
            amount0_out: 9_989_969_939_909_910,
            amount1_out: 0,
            to: address(b'C'),
        }
    );
    let ljoule = ljoule - 9_989_969_939_909_910;
    let quote = quote + 9_990_000_000;
    let held = quote - 29_970_000;
    assert!(quote * 10_000_000 <= ljoule * 10_000);
    assert!(ljoule * 10_000 * 9_969 <= quote * 10_000_000 * 10_000);
    assert!(10_000 * (ljoule - 1) * held < (quote + 1) * (quote + 1) * 10_000_000);
}

#[test]
fn sale_into_a_small_pool_ends_in_the_band() {
    let mut admin = contract();
    admin.set_quote_price(10_000);
    admin.set_params(500, 500, i128::MAX, 1, 12, 1);
    let (effects, result) = run(&mut admin, LEDGER, &[1_000, 2_000, 1_000, 2_000]);
    assert_eq!(result, Ok(()));
    assert_eq!(effects[2], Effect::Mint { to: address(b'C'), amount: 396 });
    assert_eq!(
        effects[5],
        Effect::Swap {
            pool: address(b'P'),
            amount0_out: 0,
            amount1_out: 565,
            to: address(b'C'),
        }
    );
    let after = Reserves { ljoule: 1_396, quote: 1_435 };
    assert_eq!(admin.get_status(after).map(|s| s.deviation_bps), Ok(279));
}

#[test]
fn pause_lasts_through_other_operations() {
    let mut admin = contract();
    let pool = [1_000_000_000_000, 1_100_000_000, 1_000_000_000_000, 1_100_000_000];
    assert_eq!(run(&mut admin, LEDGER, &pool).1, Ok(()));
    admin.set_pool(address(b'R'), false);
    admin.set_oracle(address(b'N'));
    admin.update_price(11_000, 2, LEDGER + 5);
    admin.mint(address(b'T'), 1, address(b'W'));
    let active = Err(RebalancerAdminError::CooldownActive);
    assert_eq!(admin.rebalance(LEDGER + 11).1, active);
    // The pause is the one that is configured by then.
    admin.set_params(500, 500, 1, 1, 20, 1);
    assert_eq!(admin.rebalance(LEDGER + 19).1, active);
    assert!(admin.rebalance(LEDGER + 20).1.is_ok());
}
