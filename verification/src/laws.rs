//! What holds of the operations together.

use crate::address::Address;
use crate::effects::{units_burned, units_minted, Effect};
use crate::errors::{Abort, RebalancerAdminError};
use crate::math::{lemma_isqrt_exists, lemma_root_of_quotient, quotient};
use crate::oracle::{swing_allowed, PriceData};
use crate::pool::{keeps_k, net_input, swap_fee, swap_output, Reserves};
use crate::rebalance::{
    ljoule_worth, quote_worth, reserve_at, reserve_at_peg, Order, Progress, Quotes, Side,
};
use crate::state::{
    or_default, DataKey, Entry, RebalancerAdmin, DEFAULT_BAND_BPS, DEFAULT_COOLDOWN_LEDGERS,
    DEFAULT_MAX_MINT, DEFAULT_MAX_QUOTE_SPEND, DEFAULT_MAX_STALE_LEDGERS, DEFAULT_MIN_RESERVE,
};
use crate::status::{deviation, pool_price, Config};
use vstd::prelude::*;

verus! {

// ---------------------------------------------------------------------------
// Storage

/// Nothing is stored at first.
pub proof fn law_nothing_is_stored_at_first(key: DataKey)
    ensures
        RebalancerAdmin::blank().sac is None,
        RebalancerAdmin::blank().entry(key) is None,
{
}

/// Writing an entry changes what is stored under its key, and nothing else.
pub proof fn law_store_touches_one_key(admin: RebalancerAdmin, entry: Entry, key: DataKey)
    ensures
        admin.with_entry(entry).sac == admin.sac,
        admin.with_entry(entry).entry(key) == if key == entry.key_spec() {
            Some(entry)
        } else {
            admin.entry(key)
        },
{
}

/// Effects that write nothing under a key leave what is stored there.
pub proof fn law_unwritten_entries_stay(
    admin: RebalancerAdmin,
    effects: Seq<Effect>,
    key: DataKey,
)
    requires
        forall|i: int|
            0 <= i < effects.len() ==> !(#[trigger] effects[i] matches Effect::Store { entry }
                && entry.key_spec() == key),
    ensures
        admin.replay(effects).entry(key) == admin.entry(key),
    decreases effects.len(),
{
    if effects.len() > 0 {
        let before = effects.drop_last();
        assert forall|i: int| 0 <= i < before.len() implies !(
        #[trigger] before[i] matches Effect::Store { entry } && entry.key_spec() == key) by {
            assert(before[i] == effects[i]);
        }
        law_unwritten_entries_stay(admin, before, key);
        let last = effects[effects.len() - 1];
        if last is Store {
            law_store_touches_one_key(admin.replay(before), last->entry, key);
        }
    }
}

// ---------------------------------------------------------------------------
// Histories

proof fn lemma_concatenation(admin: RebalancerAdmin, first: Seq<Effect>, second: Seq<Effect>)
    ensures
        admin.replay(first + second) == admin.replay(first).replay(second),
        units_minted(first + second) == units_minted(first) + units_minted(second),
        units_burned(first + second) == units_burned(first) + units_burned(second),
    decreases second.len(),
{
    if second.len() == 0 {
        assert(first + second =~= first);
    } else {
        assert((first + second).drop_last() =~= first + second.drop_last());
        lemma_concatenation(admin, first, second.drop_last());
    }
}

/// What holds of each operation holds of several operations in a row, with
/// their effects one after the other.
pub proof fn law_operations_compose(
    first: RebalancerAdmin,
    second: RebalancerAdmin,
    third: RebalancerAdmin,
    effects: Seq<Effect>,
    more_effects: Seq<Effect>,
)
    requires
        first.leads_to(second, effects),
        second.leads_to(third, more_effects),
    ensures
        first.leads_to(third, effects + more_effects),
{
    lemma_concatenation(first, effects, more_effects);
}

/// All effects of a history, in order.
pub open spec fn all_effects(history: Seq<Seq<Effect>>) -> Seq<Effect>
    decreases history.len(),
{
    if history.len() == 0 {
        seq![]
    } else {
        all_effects(history.drop_last()) + history.last()
    }
}

/// What holds of each operation holds of a whole history of operations.
pub proof fn law_history_composes(states: Seq<RebalancerAdmin>, history: Seq<Seq<Effect>>)
    requires
        states.len() == history.len() + 1,
        states[0].wf(),
        forall|i: int|
            0 <= i < history.len() ==> #[trigger] states[i].leads_to(states[i + 1], history[i]),
    ensures
        states[0].leads_to(states.last(), all_effects(history)),
    decreases history.len(),
{
    if history.len() > 0 {
        let n = history.len() - 1;
        let earlier = states.drop_last();
        let before = history.drop_last();
        assert forall|i: int| 0 <= i < before.len() implies #[trigger] earlier[i].leads_to(
            earlier[i + 1],
            before[i],
        ) by {
            assert(states[i].leads_to(states[i + 1], history[i]));
        }
        law_history_composes(earlier, before);
        assert(states[n].leads_to(states[n + 1], history[n]));
        law_operations_compose(
            states[0],
            earlier.last(),
            states.last(),
            all_effects(before),
            history[n],
        );
    }
}

/// Over the whole life of a contract, whatever operations it went through, its
/// storage is what their effects wrote, and its totals are what the effects
/// minted and burned.
pub proof fn law_supply_of_history(states: Seq<RebalancerAdmin>, history: Seq<Seq<Effect>>)
    requires
        states.len() == history.len() + 1,
        states[0].wf(),
        states[0].minted() == 0,
        states[0].burned() == 0,
        forall|i: int|
            0 <= i < history.len() ==> #[trigger] states[i].leads_to(states[i + 1], history[i]),
    ensures
        states.last().wf(),
        states.last() == states[0].replay(all_effects(history)),
        states.last().minted() == units_minted(all_effects(history)),
        states.last().burned() == units_burned(all_effects(history)),
{
    law_history_composes(states, history);
}

/// A contract is set up once: after that, whatever it goes through, setting it
/// up traps, and its owner, token and quote token are those of its set-up.
pub proof fn law_set_up_once(
    admin: RebalancerAdmin,
    later: RebalancerAdmin,
    effects: Seq<Effect>,
)
    requires
        admin.is_initialized(),
        admin.leads_to(later, effects),
    ensures
        later.initialize_abort() == Some(Abort::AlreadyInitialized),
        later.owner == admin.owner,
        later.sac == admin.sac,
        later.quote_token == admin.quote_token,
{
}

// ---------------------------------------------------------------------------
// Price feed

/// The circuit breaker lets a price through if and only if it lies between 80
/// and 120 percent of the previous one.
pub proof fn law_swing_is_at_most_a_fifth(old_price: int, new_price: int)
    ensures
        swing_allowed(old_price, new_price) <==> 8 * old_price <= 10 * new_price <= 12 * old_price,
{
}

/// An update that is accepted brings a price within the bounds, within 20
/// percent of the last price, and a number above the last one.
pub proof fn law_accepted_updates_are_sound(admin: RebalancerAdmin, price: i128, nonce: u64)
    requires
        admin.price_verdict(price, nonce) is Ok,
    ensures
        admin.floor() <= price <= admin.ceiling(),
        nonce > admin.nonce(),
        admin.price_data matches Some(data) ==> 8 * data.price <= 10 * price <= 12 * data.price,
{
}

/// An override that is accepted brings a price within the bounds, and a number
/// above that of the stored price, if there is one.
pub proof fn law_accepted_overrides_are_sound(admin: RebalancerAdmin, price: i128, nonce: u64)
    requires
        admin.override_verdict(price, nonce) is Ok,
    ensures
        admin.floor() <= price <= admin.ceiling(),
        admin.price_data is Some ==> nonce > admin.nonce(),
{
}

/// The number of the stored price never falls, whatever operations the
/// contract goes through, and a price once stored is never lost. Where the
/// price changes, its number rises.
pub proof fn law_numbers_increase(
    admin: RebalancerAdmin,
    later: RebalancerAdmin,
    effects: Seq<Effect>,
)
    requires
        admin.leads_to(later, effects),
    ensures
        later.nonce() >= admin.nonce(),
        admin.price_data is Some ==> later.price_data is Some,
        admin.price_data is Some && later.price_data != admin.price_data ==> later.nonce()
            > admin.nonce(),
{
}

/// Once a price is accepted, be it an update or an override, neither is ever
/// accepted again with the same or a lower number, whatever operations come in
/// between. So none can be replayed.
pub proof fn law_no_update_is_replayed(
    admin: RebalancerAdmin,
    data: PriceData,
    later: RebalancerAdmin,
    effects: Seq<Effect>,
    price: i128,
    nonce: u64,
)
    requires
        (RebalancerAdmin { price_data: Some(data), ..admin }).leads_to(later, effects),
        nonce <= data.nonce,
    ensures
        later.price_verdict(price, nonce) == Err::<(), RebalancerAdminError>(
            RebalancerAdminError::NonceTooLow,
        ),
        later.override_verdict(price, nonce) == Err::<(), RebalancerAdminError>(
            RebalancerAdminError::NonceTooLow,
        ),
{
}

/// A price that was set is read back, with the ledger in which it was set.
pub proof fn law_price_is_read_back(admin: RebalancerAdmin, data: PriceData)
    ensures
        (RebalancerAdmin { price_data: Some(data), ..admin }).price_report() == (
            data.price,
            data.ledger,
        ),
{
}

/// Bounds and a mint cap that were set are read back.
pub proof fn law_limits_are_read_back(
    admin: RebalancerAdmin,
    floor: i128,
    ceiling: i128,
    cap: i128,
)
    ensures
        (RebalancerAdmin {
            price_floor: Some(floor),
            price_ceiling: Some(ceiling),
            ..admin
        }).floor() == floor,
        (RebalancerAdmin {
            price_floor: Some(floor),
            price_ceiling: Some(ceiling),
            ..admin
        }).ceiling() == ceiling,
        (RebalancerAdmin { mint_cap: Some(cap), ..admin }).cap() == cap,
{
}

// ---------------------------------------------------------------------------
// Configuration

/// A contract that was just set up has the parties it was given, and the
/// default parameters.
pub proof fn law_set_up_is_read_back(
    admin: RebalancerAdmin,
    sac: Address,
    pool: Address,
    quote_token: Address,
    oracle: Address,
    owner: Address,
    ljoule_is_token0: bool,
)
    ensures
        (RebalancerAdmin {
            sac: Some(sac),
            pool: Some(pool),
            quote_token: Some(quote_token),
            oracle: Some(oracle),
            owner: Some(owner),
            ljoule_is_token0: Some(ljoule_is_token0),
            upper_bps: Some(DEFAULT_BAND_BPS),
            lower_bps: Some(DEFAULT_BAND_BPS),
            max_mint: Some(DEFAULT_MAX_MINT),
            max_quote_spend: Some(DEFAULT_MAX_QUOTE_SPEND),
            max_stale_ledgers: Some(DEFAULT_MAX_STALE_LEDGERS),
            cooldown_ledgers: Some(DEFAULT_COOLDOWN_LEDGERS),
            min_reserve: Some(DEFAULT_MIN_RESERVE),
            initialized: Some(true),
            ..admin
        }).config() == (Config {
            sac,
            pool,
            quote_token,
            oracle,
            owner,
            quote_price: or_default(admin.quote_price, 0),
            upper_bps: 500,
            lower_bps: 500,
            max_mint: 100_000_000_000,
            max_quote_spend: 50_000_000_000,
            ljoule_is_token0,
            max_stale_ledgers: 1000,
            cooldown_ledgers: 12,
            min_reserve: 10_000_000,
        }),
{
}

// ---------------------------------------------------------------------------
// Supply

/// Nobody but the oracle and the owner mints or claws back, and no call mints
/// more than the cap.
pub proof fn law_minting_is_limited(admin: RebalancerAdmin, amount: i128, operator: Address)
    ensures
        admin.mint_abort(amount, operator) is None ==> admin.is_oracle_or_owner(operator) && amount
            <= admin.cap(),
        admin.clawback_abort(amount, operator) is None ==> admin.is_oracle_or_owner(operator),
{
}

// ---------------------------------------------------------------------------
// Pool

/// The fee is 0.3 percent rounded up, and never more than the input.
pub proof fn law_fee_is_rounded_up(amount_in: int)
    requires
        amount_in >= 0,
    ensures
        3 * amount_in <= 1000 * swap_fee(amount_in) < 3 * amount_in + 1000,
        0 <= swap_fee(amount_in) <= amount_in,
{
}

/// The calculated output is the largest that passes the pair's check: an
/// output keeps the product of the reserves if and only if it is no larger.
pub proof fn law_output_is_the_largest(
    reserve_in: int,
    reserve_out: int,
    amount_in: int,
    amount_out: int,
)
    requires
        reserve_in > 0,
        reserve_out >= 0,
        amount_in >= 0,
    ensures
        keeps_k(reserve_in, reserve_out, amount_in, amount_out) <==> amount_out <= swap_output(
            reserve_in,
            reserve_out,
            amount_in,
        ),
        0 <= swap_output(reserve_in, reserve_out, amount_in) <= reserve_out,
{
    law_fee_is_rounded_up(amount_in);
    let net = net_input(amount_in);
    let total = reserve_in + net;
    let value = reserve_out * net;
    assert(value >= 0) by (nonlinear_arith)
        requires
            reserve_out >= 0,
            net >= 0,
            value == reserve_out * net,
    ;
    let out = value / total;
    assert(total * (reserve_out - amount_out) - reserve_in * reserve_out == value - total
        * amount_out) by (nonlinear_arith)
        requires
            total == reserve_in + net,
            value == reserve_out * net,
    ;
    assert(total * amount_out <= value <==> amount_out <= out) by (nonlinear_arith)
        requires
            total > 0,
            out == value / total,
    ;
    assert(0 <= out <= reserve_out) by (nonlinear_arith)
        requires
            total > 0,
            value >= 0,
            out == value / total,
            value == reserve_out * net,
            net <= total,
            reserve_out >= 0,
    ;
}

/// No trade shrinks the product of the reserves: the fee stays in the pool.
pub proof fn law_product_never_shrinks(reserve_in: int, reserve_out: int, amount_in: int)
    requires
        reserve_in > 0,
        reserve_out >= 0,
        amount_in >= 0,
    ensures
        (reserve_in + amount_in) * (reserve_out - swap_output(reserve_in, reserve_out, amount_in))
            >= reserve_in * reserve_out,
{
    let out = swap_output(reserve_in, reserve_out, amount_in);
    law_output_is_the_largest(reserve_in, reserve_out, amount_in, out);
    law_fee_is_rounded_up(amount_in);
    let net = net_input(amount_in);
    let left = reserve_out - out;
    assert((reserve_in + amount_in) * left >= reserve_in * reserve_out) by (nonlinear_arith)
        requires
            (reserve_in + net) * left >= reserve_in * reserve_out,
            net <= amount_in,
            left >= 0,
    ;
}

/// A trade lowers the price of the token that it brings: what the pool holds of
/// the other token, per unit of this one, shrinks. So selling LJOULE pushes its
/// price down, and buying it back pushes it up. And a trade is never paid more
/// than the price before it.
pub proof fn law_trade_lowers_what_it_sells(reserve_in: int, reserve_out: int, amount_in: int)
    requires
        reserve_in > 0,
        reserve_out > 0,
        amount_in > 0,
    ensures
        (reserve_out - swap_output(reserve_in, reserve_out, amount_in)) * reserve_in < reserve_out
            * (reserve_in + amount_in),
        swap_output(reserve_in, reserve_out, amount_in) * reserve_in <= reserve_out * amount_in,
{
    let out = swap_output(reserve_in, reserve_out, amount_in);
    law_output_is_the_largest(reserve_in, reserve_out, amount_in, out);
    law_fee_is_rounded_up(amount_in);
    let net = net_input(amount_in);
    assert((reserve_out - out) * reserve_in < reserve_out * (reserve_in + amount_in))
        by (nonlinear_arith)
        requires
            reserve_in > 0,
            reserve_out > 0,
            amount_in > 0,
            out >= 0,
    ;
    assert(out * reserve_in <= reserve_out * net) by (nonlinear_arith)
        requires
            (reserve_in + net) * (reserve_out - out) >= reserve_in * reserve_out,
            net >= 0,
            out >= 0,
    ;
    assert(reserve_out * net <= reserve_out * amount_in) by (nonlinear_arith)
        requires
            reserve_out > 0,
            net <= amount_in,
    ;
}

// ---------------------------------------------------------------------------
// Rebalancing

/// A pool that is large enough and prices LJOULE at the oracle price is left
/// alone.
pub proof fn law_balanced_pool_is_left_alone(
    admin: RebalancerAdmin,
    quotes: Quotes,
    reserves: Reserves,
)
    requires
        admin.wf(),
        quotes.ljoule_usd > 0,
        !admin.is_too_small(reserves),
        reserves.quote * quotes.quote_usd == quotes.ljoule_usd * reserves.ljoule,
    ensures
        admin.decision(quotes, reserves) == Err::<Progress, RebalancerAdminError>(
            RebalancerAdminError::NoRebalanceNeeded,
        ),
{
    let worth = ljoule_worth(quotes, reserves);
    assert(worth > 0) by (nonlinear_arith)
        requires
            quotes.ljoule_usd > 0,
            reserves.ljoule > 0,
            worth == quotes.ljoule_usd * reserves.ljoule,
    ;
    assert(worth * (10_000 - admin.lower()) <= worth * 10_000 <= worth * (10_000 + admin.upper()))
        by (nonlinear_arith)
        requires
            worth > 0,
            admin.lower() >= 0,
            admin.upper() >= 0,
    ;
}

/// The reserve at which a sale aims is the exact answer for a pool that keeps
/// the product of its reserves: with it, the price is at or above the one that
/// is aimed at, and with one unit more it is below.
pub proof fn law_sale_reserve_is_exact(quotes: Quotes, reserves: Reserves, bps: int)
    requires
        quotes.quote_usd > 0,
        quotes.ljoule_usd > 0,
        reserves.quote > 0,
        reserves.ljoule > 0,
        bps >= 0,
    ensures
        ({
            let target = reserve_at(quotes, reserves, bps);
            let price = quotes.ljoule_usd * (10_000 + bps);
            let worth = reserves.quote * quotes.quote_usd * 10_000 * reserves.ljoule;
            &&& target >= 0
            &&& target * target * price <= worth < (target + 1) * (target + 1) * price
        }),
{
    let target = reserve_at(quotes, reserves, bps);
    let price = quotes.ljoule_usd * (10_000 + bps);
    let worth = quote_worth(quotes, reserves) * reserves.ljoule;
    assert(worth > 0) by (nonlinear_arith)
        requires
            reserves.quote > 0,
            reserves.ljoule > 0,
            quotes.quote_usd > 0,
            worth == reserves.quote * quotes.quote_usd * 10_000 * reserves.ljoule,
    ;
    assert(price > 0) by (nonlinear_arith)
        requires
            quotes.ljoule_usd > 0,
            bps >= 0,
            price == quotes.ljoule_usd * (10_000 + bps),
    ;
    lemma_isqrt_exists(quotient(worth, price));
    lemma_root_of_quotient(worth, price, target);
}

/// What the pool holds after a sale of `amount` of LJOULE.
pub open spec fn after_sale(reserves: Reserves, amount: int) -> (int, int) {
    (
        reserves.ljoule + amount,
        reserves.quote - swap_output(reserves.ljoule as int, reserves.quote as int, amount),
    )
}

/// A rebalance that mints does so because the pool overprices LJOULE. It mints
/// something, and no more than allowed; and after the sale, against the
/// reserves on which it was decided, the pool prices LJOULE at or above the
/// middle of the band's upper half. A sale never overshoots.
///
/// Unless the limit stopped it, the sale also comes down to that price, but
/// for the fee and for rounding: counting only what was sold net of the fee,
/// with one unit less of the quote token, and with one unit more of LJOULE,
/// the price is below.
pub proof fn law_mint_aims_at_the_midpoint(
    admin: RebalancerAdmin,
    quotes: Quotes,
    reserves: Reserves,
    order: Order,
)
    requires
        admin.wf(),
        quotes.quote_usd > 0,
        quotes.ljoule_usd > 0,
        admin.decision(quotes, reserves) == Ok::<Progress, RebalancerAdminError>(
            Progress::MintPoolLjoule { order },
        ),
    ensures
        order.quotes == quotes,
        order.reserves == reserves,
        quote_worth(quotes, reserves) > ljoule_worth(quotes, reserves) * (10_000 + admin.upper()),
        0 < order.amount <= admin.most_minted(),
        ({
            let (ljoule, quote) = after_sale(reserves, order.amount as int);
            let price = quotes.ljoule_usd * (10_000 + admin.upper() / 2);
            &&& ljoule * price <= quote * quotes.quote_usd * 10_000
            &&& order.amount < admin.most_minted() ==> (quote - 1) * quotes.quote_usd * 10_000 * (
            reserves.ljoule + net_input(order.amount as int)) < (ljoule + 1) * (ljoule + 1) * price
        }),
{
    let rq = reserves.quote as int;
    let rl = reserves.ljoule as int;
    let amount = order.amount as int;
    let unit = quotes.quote_usd * 10_000;
    let price = quotes.ljoule_usd * (10_000 + (admin.upper() / 2) as int);
    let target = reserve_at(quotes, reserves, (admin.upper() / 2) as int);
    let (ljoule, quote) = after_sale(reserves, amount);
    let out = swap_output(rl, rq, amount);
    law_sale_reserve_is_exact(quotes, reserves, (admin.upper() / 2) as int);
    law_product_never_shrinks(rl, rq, amount);
    law_output_is_the_largest(rl, rq, amount, out);
    law_output_is_the_largest(rl, rq, amount, out + 1);
    law_fee_is_rounded_up(amount);
    assert(0 < ljoule <= target);
    assert(rq * quotes.quote_usd * 10_000 * rl == rl * rq * unit) by (nonlinear_arith)
        requires
            unit == quotes.quote_usd * 10_000,
    ;
    assert(ljoule * ljoule * price <= rl * rq * unit) by (nonlinear_arith)
        requires
            0 < ljoule <= target,
            target * target * price <= rl * rq * unit,
            price > 0,
    ;
    assert(rl * rq * unit <= ljoule * quote * unit) by (nonlinear_arith)
        requires
            rl * rq <= ljoule * quote,
            unit > 0,
    ;
    assert(ljoule * price <= quote * unit) by (nonlinear_arith)
        requires
            ljoule > 0,
            ljoule * ljoule * price <= ljoule * quote * unit,
    ;
    assert(quote * unit == quote * quotes.quote_usd * 10_000) by (nonlinear_arith)
        requires
            unit == quotes.quote_usd * 10_000,
    ;
    if order.amount < admin.most_minted() {
        let held = rl + net_input(amount);
        assert(ljoule == target);
        assert(held * (quote - 1) < rl * rq);
        assert((quote - 1) * quotes.quote_usd * 10_000 * held == held * (quote - 1) * unit)
            by (nonlinear_arith)
            requires
                unit == quotes.quote_usd * 10_000,
        ;
        assert(held * (quote - 1) * unit < rl * rq * unit) by (nonlinear_arith)
            requires
                held * (quote - 1) < rl * rq,
                unit > 0,
        ;
    }
}

/// A sale, whether or not a limit stopped it, leaves the pool at or above the
/// oracle price. One that no limit stopped leaves it inside the band, wherever
/// the band has room above the middle of its upper half for the fee and for
/// rounding: for the pool to hold one unit more of LJOULE than was aimed at,
/// and one unit more of the quote token.
pub proof fn law_sale_ends_in_the_band(
    admin: RebalancerAdmin,
    quotes: Quotes,
    reserves: Reserves,
    order: Order,
)
    requires
        admin.wf(),
        quotes.quote_usd > 0,
        quotes.ljoule_usd > 0,
        admin.decision(quotes, reserves) == Ok::<Progress, RebalancerAdminError>(
            Progress::MintPoolLjoule { order },
        ),
    ensures
        ({
            let (ljoule, quote) = after_sale(reserves, order.amount as int);
            let held = reserves.ljoule + net_input(order.amount as int);
            let price = quotes.ljoule_usd * (10_000 + admin.upper() / 2);
            let has_room = (ljoule + 1) * (ljoule + 1) * price + quotes.quote_usd * 10_000 * held
                <= quotes.ljoule_usd * ljoule * (10_000 + admin.upper()) * held;
            &&& quotes.ljoule_usd * ljoule <= quote * quotes.quote_usd
            &&& order.amount < admin.most_minted() && has_room ==> quote * quotes.quote_usd
                * 10_000 <= quotes.ljoule_usd * ljoule * (10_000 + admin.upper())
        }),
{
    law_mint_aims_at_the_midpoint(admin, quotes, reserves, order);
    law_fee_is_rounded_up(order.amount as int);
    let (ljoule, quote) = after_sale(reserves, order.amount as int);
    let oracle_price = quotes.ljoule_usd as int;
    let unit = quotes.quote_usd * 10_000;
    let held = reserves.ljoule + net_input(order.amount as int);
    let mid = 10_000 + (admin.upper() / 2) as int;
    let limit = oracle_price * ljoule * (10_000 + admin.upper());
    let next = (ljoule + 1) * (ljoule + 1) * (oracle_price * mid);
    assert(oracle_price * ljoule * 10_000 <= ljoule * (oracle_price * mid)) by (nonlinear_arith)
        requires
            oracle_price > 0,
            ljoule > 0,
            mid >= 10_000,
    ;
    if order.amount < admin.most_minted() && next + unit * held <= limit * held {
        assert((quote - 1) * quotes.quote_usd * 10_000 * held + unit * held == (quote
            * quotes.quote_usd * 10_000) * held) by (nonlinear_arith)
            requires
                unit == quotes.quote_usd * 10_000,
        ;
        let worth = quote * quotes.quote_usd * 10_000;
        assert(worth < limit) by (nonlinear_arith)
            requires
                worth * held < limit * held,
                held > 0,
        ;
    }
}

/// A sale that no limit stopped ends inside the band where the band's upper
/// width is at least 61 basis points, just over twice the fee, and at least
/// 100,000 units of either token are in the pool afterwards.
pub proof fn law_wide_band_holds_a_sale(
    admin: RebalancerAdmin,
    quotes: Quotes,
    reserves: Reserves,
    order: Order,
)
    requires
        admin.wf(),
        quotes.quote_usd > 0,
        quotes.ljoule_usd > 0,
        admin.decision(quotes, reserves) == Ok::<Progress, RebalancerAdminError>(
            Progress::MintPoolLjoule { order },
        ),
        order.amount < admin.most_minted(),
        admin.upper() >= 61,
        after_sale(reserves, order.amount as int).0 >= 100_000,
        after_sale(reserves, order.amount as int).1 >= 100_000,
    ensures
        ({
            let (ljoule, quote) = after_sale(reserves, order.amount as int);
            &&& quotes.ljoule_usd * ljoule <= quote * quotes.quote_usd
            &&& quote * quotes.quote_usd * 10_000 <= quotes.ljoule_usd * ljoule * (10_000
                + admin.upper())
        }),
{
    law_mint_aims_at_the_midpoint(admin, quotes, reserves, order);
    law_sale_ends_in_the_band(admin, quotes, reserves, order);
    law_fee_is_rounded_up(order.amount as int);
    let (ljoule, quote) = after_sale(reserves, order.amount as int);
    let oracle_price = quotes.ljoule_usd as int;
    let unit = quotes.quote_usd * 10_000;
    let held = reserves.ljoule + net_input(order.amount as int);
    let mid = 10_000 + (admin.upper() / 2) as int;
    let edge = 10_000 + admin.upper() as int;
    let next = (ljoule + 1) * (ljoule + 1);
    assert(100_000 * edge >= 100_309 * mid);
    lemma_room_for_fee(ljoule, held);
    assert(99_999 * (ljoule * edge * held) >= 100_000 * (mid * next)) by (nonlinear_arith)
        requires
            100_000 * edge >= 100_309 * mid,
            99_999 * 100_309 * (ljoule * held) >= 10_000_000_000 * next,
            mid > 0,
            ljoule * held > 0,
    ;
    // The room for one unit of the quote token is less than the hundred
    // thousandth part of what the pool holds of it.
    assert(99_999 * (unit * held) <= (quote - 1) * quotes.quote_usd * 10_000 * held)
        by (nonlinear_arith)
        requires
            unit == quotes.quote_usd * 10_000,
            unit > 0,
            held > 0,
            quote - 1 >= 99_999,
    ;
    let aim = next * (oracle_price * mid);
    let limit = oracle_price * ljoule * edge * held;
    assert(99_999 * limit >= 100_000 * aim) by (nonlinear_arith)
        requires
            99_999 * (ljoule * edge * held) >= 100_000 * (mid * next),
            oracle_price > 0,
            aim == next * (oracle_price * mid),
            limit == oracle_price * ljoule * edge * held,
    ;
}

/// A reserve of at least 100,000 units, and what is held of it without the fee:
/// their product, raised by 309 parts in a hundred thousand and lowered by one
/// for rounding, is no less than the next square.
proof fn lemma_room_for_fee(reserve: int, held: int)
    requires
        reserve >= 100_000,
        1_000 * held >= 997 * reserve - 999,
    ensures
        99_999 * 100_309 * (reserve * held) >= 10_000_000_000 * ((reserve + 1) * (reserve + 1)),
        held > 0,
        reserve * held > 0,
        (reserve + 1) * (reserve + 1) > 0,
{
    let next = (reserve + 1) * (reserve + 1);
    let base = reserve * (997 * reserve - 999);
    assert(99_999 * 100_309 * base >= 10_000_000_000_000 * next && base > 0 && next > 0)
        by (nonlinear_arith)
        requires
            reserve >= 100_000,
            next == (reserve + 1) * (reserve + 1),
            base == reserve * (997 * reserve - 999),
    ;
    let product = reserve * held;
    assert(1_000 * product >= base) by (nonlinear_arith)
        requires
            1_000 * held >= 997 * reserve - 999,
            reserve > 0,
            base == reserve * (997 * reserve - 999),
            product == reserve * held,
    ;
    assert(99_999 * 100_309 * product >= 10_000_000_000 * next) by (nonlinear_arith)
        requires
            1_000 * product >= base,
            99_999 * 100_309 * base >= 10_000_000_000_000 * next,
    ;
}

/// The reserve at which a buyback aims is the exact answer for a pool that
/// keeps the product of its reserves: its square, at the quote token's price,
/// is what the product is worth at the oracle price, and no larger integer
/// does as well.
pub proof fn law_peg_reserve_is_exact(quotes: Quotes, reserves: Reserves)
    requires
        quotes.quote_usd > 0,
        quotes.ljoule_usd > 0,
        reserves.quote > 0,
        reserves.ljoule > 0,
    ensures
        ({
            let target = reserve_at_peg(quotes, reserves);
            let product = reserves.quote * reserves.ljoule;
            &&& target >= 0
            &&& target * target * quotes.quote_usd <= product * quotes.ljoule_usd
            &&& product * quotes.ljoule_usd < (target + 1) * (target + 1) * quotes.quote_usd
        }),
{
    let target = reserve_at_peg(quotes, reserves);
    let value = reserves.quote * reserves.ljoule * quotes.ljoule_usd;
    let quote_usd = quotes.quote_usd as int;
    assert(value > 0) by (nonlinear_arith)
        requires
            reserves.quote > 0,
            reserves.ljoule > 0,
            quotes.ljoule_usd > 0,
            value == reserves.quote * reserves.ljoule * quotes.ljoule_usd,
    ;
    lemma_isqrt_exists(quotient(value, quote_usd));
    lemma_root_of_quotient(value, quote_usd, target);
}

/// What the pool holds after a buyback that spends `amount` of the quote token.
pub open spec fn after_buyback(reserves: Reserves, amount: int) -> (int, int) {
    (
        reserves.ljoule - swap_output(reserves.quote as int, reserves.ljoule as int, amount),
        reserves.quote + amount,
    )
}

/// A rebalance that buys back does so because the pool underprices LJOULE. It
/// spends something, and no more than allowed; and after the trade, against the
/// reserves on which it was decided, the pool prices LJOULE at most at the
/// oracle price. A buyback never overshoots.
///
/// Unless the limit stopped it, the buyback also comes up to that price, but
/// for the fee and for rounding: counting only what was spent net of the fee,
/// with one unit less of LJOULE, and with one unit more of the quote token, the
/// price is above.
pub proof fn law_buyback_stops_at_the_peg(
    admin: RebalancerAdmin,
    quotes: Quotes,
    reserves: Reserves,
    order: Order,
)
    requires
        admin.wf(),
        quotes.quote_usd > 0,
        quotes.ljoule_usd > 0,
        admin.decision(quotes, reserves) == Ok::<Progress, RebalancerAdminError>(
            Progress::OwnQuote { order },
        ),
    ensures
        order.quotes == quotes,
        order.reserves == reserves,
        quote_worth(quotes, reserves) < ljoule_worth(quotes, reserves) * (10_000 - admin.lower()),
        0 < order.amount <= admin.most_spent(),
        ({
            let (ljoule, quote) = after_buyback(reserves, order.amount as int);
            let held = reserves.quote + net_input(order.amount as int);
            &&& quote * quotes.quote_usd <= quotes.ljoule_usd * ljoule
            &&& order.amount < admin.most_spent() ==> quotes.ljoule_usd * (ljoule - 1) * held < (
            quote + 1) * (quote + 1) * quotes.quote_usd
        }),
{
    let rq = reserves.quote as int;
    let rl = reserves.ljoule as int;
    let spent = order.amount as int;
    let quote_usd = quotes.quote_usd as int;
    let ljoule_usd = quotes.ljoule_usd as int;
    let target = reserve_at_peg(quotes, reserves);
    let (ljoule, quote) = after_buyback(reserves, spent);
    let out = swap_output(rq, rl, spent);
    law_peg_reserve_is_exact(quotes, reserves);
    law_product_never_shrinks(rq, rl, spent);
    law_output_is_the_largest(rq, rl, spent, out + 1);
    assert(quote * quote * quote_usd <= rq * rl * ljoule_usd) by (nonlinear_arith)
        requires
            0 < quote <= target,
            target * target * quote_usd <= rq * rl * ljoule_usd,
            quote_usd > 0,
    ;
    assert(rq * rl * ljoule_usd <= quote * ljoule * ljoule_usd) by (nonlinear_arith)
        requires
            rq * rl <= quote * ljoule,
            ljoule_usd > 0,
    ;
    assert(quote * quote_usd <= ljoule_usd * ljoule) by (nonlinear_arith)
        requires
            quote > 0,
            quote * quote * quote_usd <= quote * ljoule * ljoule_usd,
    ;
    if order.amount < admin.most_spent() {
        let held = rq + net_input(spent);
        assert(quote == target);
        assert(held * (ljoule - 1) < rq * rl);
        assert(ljoule_usd * (ljoule - 1) * held < rq * rl * ljoule_usd) by (nonlinear_arith)
            requires
                held * (ljoule - 1) < rq * rl,
                ljoule_usd > 0,
        ;
    }
}

/// A buyback, whether or not a limit stopped it, leaves the pool at or below
/// the oracle price. One that no limit stopped leaves it inside the band,
/// wherever the band has room below the oracle price for the fee and for
/// rounding: for the pool to hold one unit more of the quote token than was
/// aimed at, and one unit more of LJOULE.
pub proof fn law_buyback_ends_in_the_band(
    admin: RebalancerAdmin,
    quotes: Quotes,
    reserves: Reserves,
    order: Order,
)
    requires
        admin.wf(),
        quotes.quote_usd > 0,
        quotes.ljoule_usd > 0,
        admin.decision(quotes, reserves) == Ok::<Progress, RebalancerAdminError>(
            Progress::OwnQuote { order },
        ),
    ensures
        ({
            let (ljoule, quote) = after_buyback(reserves, order.amount as int);
            let held = reserves.quote + net_input(order.amount as int);
            let has_room = ((quote + 1) * (quote + 1) * quotes.quote_usd + quotes.ljoule_usd
                * held) * (10_000 - admin.lower()) <= quote * quotes.quote_usd * 10_000 * held;
            &&& quote * quotes.quote_usd <= quotes.ljoule_usd * ljoule
            &&& order.amount < admin.most_spent() && has_room ==> quotes.ljoule_usd * ljoule * (
            10_000 - admin.lower()) <= quote * quotes.quote_usd * 10_000
        }),
{
    law_buyback_stops_at_the_peg(admin, quotes, reserves, order);
    law_fee_is_rounded_up(order.amount as int);
    let (ljoule, quote) = after_buyback(reserves, order.amount as int);
    let oracle_price = quotes.ljoule_usd as int;
    let held = reserves.quote + net_input(order.amount as int);
    let edge = 10_000 - admin.lower();
    let next = (quote + 1) * (quote + 1) * quotes.quote_usd;
    let worth = quote * quotes.quote_usd * 10_000;
    if order.amount < admin.most_spent() && (next + oracle_price * held) * edge <= worth * held {
        assert(oracle_price * ljoule * edge <= worth) by (nonlinear_arith)
            requires
                oracle_price * (ljoule - 1) * held < next,
                (next + oracle_price * held) * edge <= worth * held,
                edge > 0,
                held > 0,
        ;
    }
}

/// A buyback that no limit stopped ends inside the band where the band's lower
/// width is at least 31 basis points, just over the fee, and at least 100,000
/// units of either token are in the pool afterwards.
pub proof fn law_wide_band_holds_a_buyback(
    admin: RebalancerAdmin,
    quotes: Quotes,
    reserves: Reserves,
    order: Order,
)
    requires
        admin.wf(),
        quotes.quote_usd > 0,
        quotes.ljoule_usd > 0,
        admin.decision(quotes, reserves) == Ok::<Progress, RebalancerAdminError>(
            Progress::OwnQuote { order },
        ),
        order.amount < admin.most_spent(),
        admin.lower() >= 31,
        after_buyback(reserves, order.amount as int).0 >= 100_000,
        after_buyback(reserves, order.amount as int).1 >= 100_000,
    ensures
        ({
            let (ljoule, quote) = after_buyback(reserves, order.amount as int);
            &&& quote * quotes.quote_usd <= quotes.ljoule_usd * ljoule
            &&& quotes.ljoule_usd * ljoule * (10_000 - admin.lower()) <= quote * quotes.quote_usd
                * 10_000
        }),
{
    law_buyback_stops_at_the_peg(admin, quotes, reserves, order);
    law_buyback_ends_in_the_band(admin, quotes, reserves, order);
    law_fee_is_rounded_up(order.amount as int);
    let (ljoule, quote) = after_buyback(reserves, order.amount as int);
    let oracle_price = quotes.ljoule_usd as int;
    let quote_usd = quotes.quote_usd as int;
    let held = reserves.quote + net_input(order.amount as int);
    let edge = 10_000 - admin.lower();
    let square = (quote + 1) * (quote + 1);
    lemma_room_for_fee(quote, held);
    assert(1_000_000_000 >= 100_309 * edge);
    // What the product of the reserve and of what is held of it exceeds the
    // next square by, once the band's width is added.
    assert(99_999 * (quote * 10_000 * held) >= 100_000 * (square * edge)) by (nonlinear_arith)
        requires
            1_000_000_000 >= 100_309 * edge,
            99_999 * 100_309 * (quote * held) >= 10_000_000_000 * square,
            edge > 0,
            quote * held > 0,
            square > 0,
    ;
    // The room for one unit of LJOULE is less than the hundred thousandth part
    // of what the pool holds of it.
    assert(99_999 * (oracle_price * held) <= oracle_price * (ljoule - 1) * held)
        by (nonlinear_arith)
        requires
            oracle_price > 0,
            held > 0,
            ljoule - 1 >= 99_999,
    ;
    let next = square * quote_usd;
    let room = next + oracle_price * held;
    assert(99_999 * room <= 100_000 * next);
    assert(room * edge <= quote * quote_usd * 10_000 * held) by (nonlinear_arith)
        requires
            99_999 * room <= 100_000 * next,
            next == square * quote_usd,
            99_999 * (quote * 10_000 * held) >= 100_000 * (square * edge),
            edge > 0,
            quote_usd > 0,
    ;
}

/// How many balances a rebalance can still ask for.
pub open spec fn steps_left(progress: Progress) -> nat {
    match progress {
        Progress::PoolLjoule { .. } => 6,
        Progress::PoolQuote { .. } => 5,
        Progress::OwnQuote { .. } => 4,
        Progress::BuyPoolLjoule { .. } => 3,
        Progress::BuyPoolQuote { .. } => 2,
        Progress::OwnLjoule { .. } => 1,
        Progress::MintPoolLjoule { .. } => 2,
        Progress::MintPoolQuote { .. } => 1,
        Progress::Done => 0,
    }
}

/// Every rebalance ends: each step that is not refused brings it closer.
pub proof fn law_rebalance_ends(admin: RebalancerAdmin, progress: Progress, balance: i128)
    requires
        progress !is Done,
    ensures
        admin.next_progress(progress, balance) matches Ok(next) ==> steps_left(next) < steps_left(
            progress,
        ),
        steps_left(progress) == 0 <==> progress is Done,
{
}

/// Whether a rebalance that has come this far may still be refused.
pub open spec fn may_be_refused(progress: Progress) -> bool {
    progress is PoolLjoule || progress is PoolQuote || progress is OwnQuote
}

/// A rebalance is refused only before it has changed anything: it is only ever
/// refused at certain points, and the steps up to such a point ask nothing of
/// the ledger and leave the storage as it was.
pub proof fn law_refusal_comes_before_any_change(
    admin: RebalancerAdmin,
    this: Address,
    progress: Progress,
    balance: i128,
)
    ensures
        admin.next_progress(progress, balance) is Err ==> may_be_refused(progress),
        admin.next_progress(progress, balance) matches Ok(next) ==> (may_be_refused(next) ==> {
            &&& may_be_refused(progress)
            &&& admin.step_effects(this, progress, balance).len() == 0
            &&& admin.step_storage(progress, balance) == admin
        }),
{
}

/// A rebalance that ends by minting changes two things in the storage: the
/// total minted, by what was minted, and the ledger of the last rebalance.
pub proof fn law_mint_rebalance(
    admin: RebalancerAdmin,
    quotes: Quotes,
    reserves: Reserves,
    order: Order,
    later: Reserves,
)
    requires
        admin.decision(quotes, reserves) == Ok::<Progress, RebalancerAdminError>(
            Progress::MintPoolLjoule { order },
        ),
    ensures
        ({
            let minted = admin.step_storage(
                Progress::PoolQuote { quotes, ljoule: reserves.ljoule },
                reserves.quote,
            );
            let asked = minted.step_storage(Progress::MintPoolLjoule { order }, later.ljoule);
            let sold = asked.step_storage(
                Progress::MintPoolQuote { order, ljoule: later.ljoule },
                later.quote,
            );
            sold == (RebalancerAdmin {
                total_minted: Some((admin.minted() + order.amount) as i128),
                last_rebalance_ledger: Some(quotes.ledger),
                ..admin
            })
        }),
{
    assert(reserves == (Reserves { ljoule: reserves.ljoule, quote: reserves.quote }));
}

/// A rebalance that ends by buying back burns all LJOULE that the contract
/// then holds, if it holds any. It changes two things in the storage: the
/// total burned, by that amount, and the ledger of the last rebalance.
pub proof fn law_buyback_rebalance(
    admin: RebalancerAdmin,
    this: Address,
    quotes: Quotes,
    reserves: Reserves,
    order: Order,
    later: Reserves,
    held: i128,
)
    requires
        admin.decision(quotes, reserves) == Ok::<Progress, RebalancerAdminError>(
            Progress::OwnQuote { order },
        ),
    ensures
        ({
            let buying = Progress::BuyPoolQuote { order, ljoule: later.ljoule };
            let bought = admin.next_progress(buying, later.quote)->Ok_0;
            &&& admin.step_storage(buying, later.quote) == admin
            &&& admin.step_storage(bought, held) == (RebalancerAdmin {
                total_burned: if held > 0 {
                    Some((admin.burned() + held) as i128)
                } else {
                    admin.total_burned
                },
                last_rebalance_ledger: Some(quotes.ledger),
                ..admin
            })
            &&& held > 0 ==> admin.step_effects(this, bought, held)[0] == (Effect::Clawback {
                from: this,
                amount: held,
            })
        }),
{
}

/// After a rebalance in one ledger, none starts until the pause is over,
/// whatever operations come in between, as long as none of them is another
/// rebalance. The pause is the one that is then configured.
pub proof fn law_cooldown(
    admin: RebalancerAdmin,
    last: u32,
    later: RebalancerAdmin,
    effects: Seq<Effect>,
    ledger: u32,
)
    requires
        admin.last_rebalance_ledger == Some(last),
        admin.leads_to(later, effects),
        forall|i: int|
            0 <= i < effects.len() ==> !(#[trigger] effects[i] matches Effect::Store { entry }
                && entry.key_spec() == DataKey::LastRebalanceLedger),
        0 < last <= ledger,
        ledger - last < later.cooldown(),
    ensures
        later.quotes(ledger) == Err::<Quotes, RebalancerAdminError>(
            RebalancerAdminError::CooldownActive,
        ),
{
    law_unwritten_entries_stay(admin, effects, DataKey::LastRebalanceLedger);
    assert(later.entry(DataKey::LastRebalanceLedger) == Some(Entry::LastRebalanceLedger(last)));
}

/// A rebalance acts on the recorded prices only while the oracle's is fresh.
pub proof fn law_rebalance_acts_on_fresh_prices(admin: RebalancerAdmin, ledger: u32)
    ensures
        admin.quotes(ledger) matches Ok(quotes) ==> {
            &&& quotes.ledger == ledger
            &&& admin.quote_price == Some(quotes.quote_usd)
            &&& admin.price_data is Some
            &&& admin.price_data->0.price == quotes.ljoule_usd
            &&& ledger - admin.price_data->0.ledger <= admin.max_stale()
            &&& !admin.is_cooling_down(ledger)
        },
{
}

/// The report on the pool agrees with what a rebalance does: a deviation above
/// the band is one that a rebalance sees as overpriced.
pub proof fn law_reported_deviation_is_acted_on(
    admin: RebalancerAdmin,
    quotes: Quotes,
    reserves: Reserves,
)
    requires
        admin.wf(),
        quotes.quote_usd > 0,
        quotes.ljoule_usd > 0,
        !admin.is_too_small(reserves),
        deviation(pool_price(reserves, quotes.quote_usd), quotes.ljoule_usd as int)
            > admin.upper(),
    ensures
        admin.side(quotes, reserves) == Ok::<Side, RebalancerAdminError>(Side::Above),
{
    let rq = reserves.quote as int;
    let rl = reserves.ljoule as int;
    let quote_usd = quotes.quote_usd as int;
    let lj = quotes.ljoule_usd as int;
    let u = admin.upper() as int;
    let value = rq * quote_usd;
    assert(value > 0) by (nonlinear_arith)
        requires
            rq > 0,
            quote_usd > 0,
            value == rq * quote_usd,
    ;
    let price = value / rl;
    assert(price * rl <= value) by (nonlinear_arith)
        requires
            rl > 0,
            value > 0,
            price == value / rl,
    ;
    let distance = (price - lj) * 10_000;
    if distance < 0 {
        assert((-distance) / lj >= 0) by (nonlinear_arith)
            requires
                distance < 0,
                lj > 0,
        ;
    }
    let dev = distance / lj;
    assert(dev * lj <= distance) by (nonlinear_arith)
        requires
            lj > 0,
            distance >= 0,
            dev == distance / lj,
    ;
    assert(u * lj < dev * lj) by (nonlinear_arith)
        requires
            u < dev,
            lj > 0,
    ;
    assert(lj * (10_000 + u) == lj * 10_000 + u * lj) by (nonlinear_arith);
    assert(lj * (10_000 + u) < price * 10_000);
    assert(lj * (10_000 + u) * rl < price * 10_000 * rl) by (nonlinear_arith)
        requires
            lj * (10_000 + u) < price * 10_000,
            rl > 0,
    ;
    assert(price * 10_000 * rl == price * rl * 10_000) by (nonlinear_arith);
    assert(lj * rl * (10_000 + u) == lj * (10_000 + u) * rl) by (nonlinear_arith);
}

/// A pool that a rebalance sees as underpriced is reported with a deviation at
/// or below the band.
pub proof fn law_underpriced_pool_is_reported(
    admin: RebalancerAdmin,
    quotes: Quotes,
    reserves: Reserves,
)
    requires
        admin.wf(),
        quotes.quote_usd > 0,
        quotes.ljoule_usd > 0,
        admin.side(quotes, reserves) == Ok::<Side, RebalancerAdminError>(Side::Below),
    ensures
        deviation(pool_price(reserves, quotes.quote_usd), quotes.ljoule_usd as int)
            <= -admin.lower(),
{
    let rl = reserves.ljoule as int;
    let lj = quotes.ljoule_usd as int;
    let edge = 10_000 - admin.lower();
    let value = reserves.quote * quotes.quote_usd;
    assert(value > 0) by (nonlinear_arith)
        requires
            reserves.quote > 0,
            quotes.quote_usd > 0,
            value == reserves.quote * quotes.quote_usd,
    ;
    let price = value / rl;
    assert(price * 10_000 < lj * edge) by (nonlinear_arith)
        requires
            rl > 0,
            value > 0,
            price == value / rl,
            value * 10_000 < lj * rl * edge,
    ;
    let distance = (lj - price) * 10_000;
    assert(distance > admin.lower() * lj) by (nonlinear_arith)
        requires
            price * 10_000 < lj * edge,
            edge == 10_000 - admin.lower(),
            distance == (lj - price) * 10_000,
    ;
    assert(distance / lj >= admin.lower()) by (nonlinear_arith)
        requires
            lj > 0,
            distance > admin.lower() * lj,
            admin.lower() >= 0,
    ;
    assert(distance > 0) by (nonlinear_arith)
        requires
            lj > 0,
            distance > admin.lower() * lj,
            admin.lower() >= 0,
    ;
}

} // verus!
