use rebalancer_admin::address::Address;
use rebalancer_admin::effects::Effect;
use rebalancer_admin::pool::{
    calculate_output, get_pool_reserves, output_is_defined, pool_swap, trade_is_defined,
    BalanceQuery, Reserves,
};
use rebalancer_admin::state::RebalancerAdmin;

fn address(letter: u8) -> Address {
    Address { strkey: [letter; 56] }
}

fn contract(ljoule_is_token0: bool) -> RebalancerAdmin {
    let mut admin = RebalancerAdmin::new();
    admin.initialize(
        address(b'S'),
        address(b'P'),
        address(b'Q'),
        address(b'O'),
        address(b'W'),
        ljoule_is_token0,
    );
    admin
}

#[test]
fn addresses_are_equal_by_every_character() {
    let mut other = address(b'A');
    assert!(other == address(b'A'));
    other.strkey[55] = b'B';
    assert!(other != address(b'A'));
    other.strkey[55] = b'A';
    other.strkey[0] = b'B';
    assert!(other != address(b'A'));
}

#[test]
fn output_follows_the_formula() {
    assert_eq!(calculate_output(1_000_000, 2_000_000, 1_000), 1_992);
    assert_eq!(calculate_output(1_000_000_000_000, 2_000_000_000, 100_000_000_000), 181_322_178);
}

#[test]
fn fee_is_rounded_up() {
    // The fee on one unit is one unit, so that nothing is left to trade.
    assert_eq!(calculate_output(1_000, 1_000_000, 1), 0);
    // 1.002 rounds up to 2: 332 are left of 334.
    assert_eq!(calculate_output(1_000, 1_000_000, 334), 1_000_000 * 332 / 1_332);
    assert_eq!(calculate_output(1_000, 1_000_000, 0), 0);
}

#[test]
fn negative_input_rounds_toward_zero() {
    assert_eq!(calculate_output(1_000_000, 2_000_000, -1_000), -1_997);
}

#[test]
fn output_is_the_largest_that_keeps_the_product() {
    for amount in [1i128, 2, 333, 334, 1_000, 12_345, 999_999, 5_000_000] {
        let (reserve_in, reserve_out) = (1_000_000i128, 3_000_001i128);
        let out = calculate_output(reserve_in, reserve_out, amount);
        let net = amount - (amount * 3 + 999) / 1000;
        let product = reserve_in * reserve_out;
        assert!((reserve_in + net) * (reserve_out - out) >= product);
        assert!((reserve_in + net) * (reserve_out - out - 1) < product);
        assert!((reserve_in + amount) * (reserve_out - out) >= product);
    }
}

#[test]
fn output_is_undefined_beyond_the_range() {
    assert!(output_is_defined(1_000_000, 2_000_000, 1_000));
    assert!(!output_is_defined(1, 1, i128::MAX));
    assert!(!output_is_defined(1, 1, i128::MAX / 3));
    assert!(!output_is_defined(1, i128::MAX, 1_000));
    assert!(!output_is_defined(i128::MAX, 1, 1_000));
    assert!(!output_is_defined(0, 5, 0));
    assert!(!output_is_defined(-997, 5, 1_000));
}

#[test]
fn reserves_are_the_balances_of_the_pool() {
    let (ljoule, quote) = get_pool_reserves(&contract(true));
    assert_eq!(ljoule, BalanceQuery { token: address(b'S'), holder: address(b'P') });
    assert_eq!(quote, BalanceQuery { token: address(b'Q'), holder: address(b'P') });
}

#[test]
fn selling_ljoule_pays_the_other_token() {
    let reserves = Reserves { ljoule: 1_000_000, quote: 2_000_000 };
    let this = address(b'C');
    let sold = Effect::Transfer {
        token: address(b'S'),
        from: this,
        to: address(b'P'),
        amount: 1_000,
    };
    let (effects, out) = pool_swap(&contract(true), this, address(b'S'), 1_000, reserves);
    assert_eq!(out, 1_992);
    assert_eq!(
        effects,
        vec![
            sold,
            Effect::Swap { pool: address(b'P'), amount0_out: 0, amount1_out: 1_992, to: this },
        ]
    );
    let (effects, out) = pool_swap(&contract(false), this, address(b'S'), 1_000, reserves);
    assert_eq!(out, 1_992);
    assert_eq!(
        effects,
        vec![
            sold,
            Effect::Swap { pool: address(b'P'), amount0_out: 1_992, amount1_out: 0, to: this },
        ]
    );
}

#[test]
fn buying_ljoule_pays_ljoule() {
    let reserves = Reserves { ljoule: 2_000_000, quote: 1_000_000 };
    let this = address(b'C');
    let paid = Effect::Transfer {
        token: address(b'Q'),
        from: this,
        to: address(b'P'),
        amount: 1_000,
    };
    let (effects, out) = pool_swap(&contract(true), this, address(b'Q'), 1_000, reserves);
    assert_eq!(out, 1_992);
    assert_eq!(
        effects,
        vec![
            paid,
            Effect::Swap { pool: address(b'P'), amount0_out: 1_992, amount1_out: 0, to: this },
        ]
    );
    let (effects, _) = pool_swap(&contract(false), this, address(b'Q'), 1_000, reserves);
    assert_eq!(
        effects,
        vec![
            paid,
            Effect::Swap { pool: address(b'P'), amount0_out: 0, amount1_out: 1_992, to: this },
        ]
    );
}

#[test]
fn trade_is_checked_in_its_direction() {
    let admin = contract(true);
    let reserves = Reserves { ljoule: 1, quote: i128::MAX };
    assert!(!trade_is_defined(&admin, address(b'S'), 1_000, reserves));
    let reserves = Reserves { ljoule: 0, quote: 1 };
    assert!(!trade_is_defined(&admin, address(b'S'), 0, reserves));
    assert!(trade_is_defined(&admin, address(b'Q'), 0, reserves));
}

#[test]
fn trade_lowers_the_price_of_what_it_sells() {
    let (reserve_in, reserve_out): (i128, i128) = (1_000_000, 3_000_000);
    for amount_in in [1i128, 2, 1_000, 1_000_000] {
        let out = calculate_output(reserve_in, reserve_out, amount_in);
        assert!((reserve_out - out) * reserve_in < reserve_out * (reserve_in + amount_in));
        assert!(out * reserve_in <= reserve_out * amount_in);
    }
    assert_eq!(calculate_output(reserve_in, reserve_out, 1), 0);
}
