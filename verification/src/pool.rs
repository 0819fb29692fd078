//! The Soroswap V2 pair that trades LJOULE against the quote token.

use crate::address::Address;
use crate::effects::Effect;
use crate::math::{checked_quotient, fits, lemma_quotient_fits, quotient};
use crate::state::{or_default, RebalancerAdmin};
use vstd::prelude::*;

verus! {

/// A balance that is to be read from the ledger.
#[derive(Clone, Copy, Debug, PartialEq, Eq)]
pub struct BalanceQuery {
    pub token: Address,
    pub holder: Address,
}

/// What the pool holds of either token.
#[derive(Clone, Copy, Debug, PartialEq, Eq, Structural)]
pub struct Reserves {
    pub ljoule: i128,
    pub quote: i128,
}

/// The pool's fee on an input: 0.3 percent, rounded up.
pub open spec fn swap_fee(amount_in: int) -> int {
    quotient(amount_in * 3 + 999, 1000)
}

/// What is left of an input after the fee.
pub open spec fn net_input(amount_in: int) -> int {
    amount_in - swap_fee(amount_in)
}

/// What the pool gives for an input.
pub open spec fn swap_output(reserve_in: int, reserve_out: int, amount_in: int) -> int {
    quotient(reserve_out * net_input(amount_in), reserve_in + net_input(amount_in))
}

/// Whether every step of the output's computation stays within its type.
pub open spec fn swap_defined(reserve_in: int, reserve_out: int, amount_in: int) -> bool {
    &&& fits(amount_in * 3)
    &&& fits(amount_in * 3 + 999)
    &&& fits(net_input(amount_in))
    &&& fits(reserve_out * net_input(amount_in))
    &&& fits(reserve_in + net_input(amount_in))
    &&& reserve_in + net_input(amount_in) != 0
    &&& fits(swap_output(reserve_in, reserve_out, amount_in))
}

/// The pair's own condition on a trade: with the fee set aside, the product of
/// the reserves does not shrink.
pub open spec fn keeps_k(
    reserve_in: int,
    reserve_out: int,
    amount_in: int,
    amount_out: int,
) -> bool {
    (reserve_in + net_input(amount_in)) * (reserve_out - amount_out) >= reserve_in * reserve_out
}

/// Calculates the output amount of a trade, as the pair's check admits it.
pub fn calculate_output(reserve_in: i128, reserve_out: i128, amount_in: i128) -> (amount_out: i128)
    requires
        swap_defined(reserve_in as int, reserve_out as int, amount_in as int),
    ensures
        amount_out == swap_output(reserve_in as int, reserve_out as int, amount_in as int),
{
    let fee = (amount_in * 3 + 999) / 1000;
    let amount_in_net = amount_in - fee;
    proof {
        lemma_quotient_fits(reserve_out * amount_in_net, reserve_in + amount_in_net);
    }
    (reserve_out * amount_in_net) / (reserve_in + amount_in_net)
}

/// Returns whether every step of the output's computation stays within its
/// type.
pub fn output_is_defined(reserve_in: i128, reserve_out: i128, amount_in: i128) -> (defined: bool)
    ensures
        defined == swap_defined(reserve_in as int, reserve_out as int, amount_in as int),
{
    let padded = match amount_in.checked_mul(3) {
        Some(tripled) => match tripled.checked_add(999) {
            Some(padded) => padded,
            None => return false,
        },
        None => return false,
    };
    let net = match amount_in.checked_sub(padded / 1000) {
        Some(net) => net,
        None => return false,
    };
    match (reserve_out.checked_mul(net), reserve_in.checked_add(net)) {
        (Some(product), Some(total)) => checked_quotient(product, total).is_some(),
        _ => false,
    }
}

/// The two balances that make up the pool's reserves, LJOULE first.
pub open spec fn reserve_queries(admin: RebalancerAdmin) -> (BalanceQuery, BalanceQuery) {
    (
        BalanceQuery { token: admin.sac->0, holder: admin.pool->0 },
        BalanceQuery { token: admin.quote_token->0, holder: admin.pool->0 },
    )
}

/// Returns the two balances that make up the pool's reserves: what the pool
/// holds of LJOULE, and what it holds of the quote token.
pub fn get_pool_reserves(admin: &RebalancerAdmin) -> (queries: (BalanceQuery, BalanceQuery))
    requires
        admin.wf(),
        admin.is_initialized(),
    ensures
        queries == reserve_queries(*admin),
{
    let pool = admin.pool.unwrap();
    (
        BalanceQuery { token: admin.sac.unwrap(), holder: pool },
        BalanceQuery { token: admin.quote_token.unwrap(), holder: pool },
    )
}

/// The reserves as a trade of `token_in` meets them: of the token that it
/// brings, and of the token that it takes.
pub open spec fn trade_reserves(
    admin: RebalancerAdmin,
    token_in: Address,
    reserves: Reserves,
) -> (int, int) {
    if token_in == admin.sac->0 {
        (reserves.ljoule as int, reserves.quote as int)
    } else {
        (reserves.quote as int, reserves.ljoule as int)
    }
}

/// What a trade of `token_in` brings.
pub open spec fn trade_output(
    admin: RebalancerAdmin,
    token_in: Address,
    amount_in: int,
    reserves: Reserves,
) -> int {
    let (reserve_in, reserve_out) = trade_reserves(admin, token_in, reserves);
    swap_output(reserve_in, reserve_out, amount_in)
}

/// Whether what a trade of `token_in` brings can be computed.
pub open spec fn trade_defined(
    admin: RebalancerAdmin,
    token_in: Address,
    amount_in: int,
    reserves: Reserves,
) -> bool {
    let (reserve_in, reserve_out) = trade_reserves(admin, token_in, reserves);
    swap_defined(reserve_in, reserve_out, amount_in)
}

/// Whether a trade of `token_in` is paid out in the pair's first token.
pub open spec fn pays_token0(admin: RebalancerAdmin, token_in: Address) -> bool {
    (token_in == admin.sac->0) != or_default(admin.ljoule_is_token0, true)
}

/// The requests that carry out a trade: the input goes to the pool, and the
/// pool pays the output in the other token.
pub open spec fn trade_effects(
    admin: RebalancerAdmin,
    this: Address,
    token_in: Address,
    amount_in: i128,
    amount_out: i128,
) -> Seq<Effect> {
    let pool = admin.pool->0;
    let out0 = pays_token0(admin, token_in);
    seq![
        Effect::Transfer { token: token_in, from: this, to: pool, amount: amount_in },
        Effect::Swap {
            pool,
            amount0_out: if out0 { amount_out } else { 0 },
            amount1_out: if out0 { 0 } else { amount_out },
            to: this,
        },
    ]
}

/// Trades `amount_in` of `token_in` through the pool, whose reserves are
/// `reserves`, on behalf of the contract at `this`. Returns what the ledger is
/// to carry out, and the amount of the other token that it brings.
pub fn pool_swap(
    admin: &RebalancerAdmin,
    this: Address,
    token_in: Address,
    amount_in: i128,
    reserves: Reserves,
) -> (trade: (Vec<Effect>, i128))
    requires
        admin.wf(),
        admin.is_initialized(),
        trade_defined(*admin, token_in, amount_in as int, reserves),
    ensures
        trade.1 == trade_output(*admin, token_in, amount_in as int, reserves),
        trade.0@ == trade_effects(*admin, this, token_in, amount_in, trade.1),
{
    let pool = admin.pool.unwrap();
    let sac_address = admin.sac.unwrap();
    let ljoule_is_token0 = admin.ljoule_is_token0.unwrap_or(true);

    let selling_ljoule = token_in == sac_address;
    let (reserve_in, reserve_out): (i128, i128) = if selling_ljoule {
        (reserves.ljoule, reserves.quote)
    } else {
        (reserves.quote, reserves.ljoule)
    };
    let amount_out = calculate_output(reserve_in, reserve_out, amount_in);

    let (amount0_out, amount1_out): (i128, i128) = if selling_ljoule {
        if ljoule_is_token0 {
            (0, amount_out)
        } else {
            (amount_out, 0)
        }
    } else {
        if ljoule_is_token0 {
            (amount_out, 0)
        } else {
            (0, amount_out)
        }
    };
    let effects = vec![
        Effect::Transfer { token: token_in, from: this, to: pool, amount: amount_in },
        Effect::Swap { pool, amount0_out, amount1_out, to: this },
    ];
    (effects, amount_out)
}

/// Returns whether what a trade of `token_in` brings can be computed.
pub fn trade_is_defined(
    admin: &RebalancerAdmin,
    token_in: Address,
    amount_in: i128,
    reserves: Reserves,
) -> (defined: bool)
    requires
        admin.wf(),
        admin.is_initialized(),
    ensures
        defined == trade_defined(*admin, token_in, amount_in as int, reserves),
{
    if token_in == admin.sac.unwrap() {
        output_is_defined(reserves.ljoule, reserves.quote, amount_in)
    } else {
        output_is_defined(reserves.quote, reserves.ljoule, amount_in)
    }
}

} // verus!
