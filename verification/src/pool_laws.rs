//! What a trade with the pool does, on what is stored and given.

use crate::address::Address;
use crate::effects::Effect;
use crate::laws::{law_fee_is_rounded_up, law_output_is_the_largest};
use crate::math::lemma_quotient_fits;
use crate::plain::in_range;
use crate::pool;
use crate::pool::{BalanceQuery, Reserves};
use crate::state::RebalancerAdmin;
use vstd::prelude::*;

verus! {

/// What is left of an amount once 0.3 percent of it, rounded up to a whole
/// unit, are taken off.
pub open spec fn without_fee(amount: int) -> int {
    amount - (3 * amount + 999) / 1_000
}

/// Whether an output is the right one for a trade: the most that can leave the
/// pool if, with the fee set aside, the product of the reserves is not to
/// shrink.
pub open spec fn is_payout(reserve_in: int, reserve_out: int, amount_in: int, out: int) -> bool {
    let filled = reserve_in + without_fee(amount_in);
    &&& filled * (reserve_out - out) >= reserve_in * reserve_out
    &&& filled * (reserve_out - (out + 1)) < reserve_in * reserve_out
}

/// Whether a trade can be calculated in 128 bits.
pub open spec fn can_be_calculated(reserve_in: int, reserve_out: int, amount_in: int) -> bool {
    &&& in_range(3 * amount_in + 999)
    &&& in_range(reserve_out * without_fee(amount_in))
    &&& in_range(reserve_in + without_fee(amount_in))
    &&& reserve_in + without_fee(amount_in) != 0
}

/// The terms in which a trade's output is calculated, in plain arithmetic.
pub proof fn lemma_trade_terms(reserve_in: int, reserve_out: int, amount_in: int)
    requires
        reserve_in >= 0,
        reserve_out >= 0,
        amount_in >= 0,
    ensures
        without_fee(amount_in) == pool::net_input(amount_in),
        0 <= without_fee(amount_in) <= amount_in,
        can_be_calculated(reserve_in, reserve_out, amount_in) <==> pool::swap_defined(
            reserve_in,
            reserve_out,
            amount_in,
        ),
        reserve_in + without_fee(amount_in) > 0 ==> {
            let out = pool::swap_output(reserve_in, reserve_out, amount_in);
            &&& 0 <= out <= reserve_out
            &&& is_payout(reserve_in, reserve_out, amount_in, out)
        },
{
    law_fee_is_rounded_up(amount_in);
    let net = pool::net_input(amount_in);
    let total = reserve_in + net;
    assert(reserve_out * net >= 0) by (nonlinear_arith)
        requires
            reserve_out >= 0,
            net >= 0,
    ;
    if in_range(reserve_out * net) && in_range(total) && total != 0 {
        lemma_quotient_fits(reserve_out * net, total);
    }
    if reserve_in > 0 {
        let out = pool::swap_output(reserve_in, reserve_out, amount_in);
        law_output_is_the_largest(reserve_in, reserve_out, amount_in, out);
        law_output_is_the_largest(reserve_in, reserve_out, amount_in, out + 1);
    } else if net > 0 {
        assert((reserve_out * net) / net == reserve_out) by (nonlinear_arith)
            requires
                net > 0,
        ;
        assert(net * (reserve_out - reserve_out) == 0 && net * (reserve_out - (reserve_out + 1)) < 0
            && reserve_in * reserve_out == 0) by (nonlinear_arith)
            requires
                net > 0,
                reserve_in == 0,
        ;
    }
}

/// The pool pays out as much as it can without its product shrinking, with a
/// fee of 0.3 percent of the input set aside, rounded up. It never pays out
/// more than it has.
pub proof fn law_payout(reserve_in: i128, reserve_out: i128, amount_in: i128, out: i128)
    requires
        reserve_in >= 0,
        reserve_out >= 0,
        amount_in >= 0,
        reserve_in + without_fee(amount_in as int) > 0,
        call_ensures(pool::calculate_output, (reserve_in, reserve_out, amount_in), out),
    ensures
        is_payout(reserve_in as int, reserve_out as int, amount_in as int, out as int),
        0 <= out <= reserve_out,
        can_be_calculated(reserve_in as int, reserve_out as int, amount_in as int)
            ==> call_requires(pool::calculate_output, (reserve_in, reserve_out, amount_in)),
{
    lemma_trade_terms(reserve_in as int, reserve_out as int, amount_in as int);
}

/// The output of a trade can be calculated unless an intermediate result is out
/// of range, or there is nothing to divide by.
pub proof fn law_payout_is_defined(
    reserve_in: i128,
    reserve_out: i128,
    amount_in: i128,
    defined: bool,
)
    requires
        reserve_in >= 0,
        reserve_out >= 0,
        amount_in >= 0,
        call_ensures(pool::output_is_defined, (reserve_in, reserve_out, amount_in), defined),
    ensures
        defined <==> can_be_calculated(reserve_in as int, reserve_out as int, amount_in as int),
{
    lemma_trade_terms(reserve_in as int, reserve_out as int, amount_in as int);
}

/// The reserves are what the stored pool holds of the administered token, and
/// what it holds of the stored quote token.
pub proof fn law_reserves(admin: RebalancerAdmin, queries: (BalanceQuery, BalanceQuery))
    requires
        call_ensures(pool::get_pool_reserves, (&admin,), queries),
    ensures
        queries.0.token == admin.sac->0,
        queries.0.holder == admin.pool->0,
        queries.1.token == admin.quote_token->0,
        queries.1.holder == admin.pool->0,
        admin.wf() && admin.initialized == Some(true) ==> call_requires(
            pool::get_pool_reserves,
            (&admin,),
        ),
{
}

/// Whether a trade consists of handing the input to the pool and having the
/// pool pay the output, all of it in the other token and none of it in the one
/// that was sold. The administered token is the pair's first token unless the
/// opposite is stored.
pub open spec fn is_trade(
    admin: RebalancerAdmin,
    this: Address,
    sells_ljoule: bool,
    token_in: Address,
    amount_in: i128,
    out: int,
    first: Effect,
    second: Effect,
) -> bool {
    &&& first == (Effect::Transfer {
        token: token_in,
        from: this,
        to: admin.pool->0,
        amount: amount_in,
    })
    &&& second is Swap
    &&& second->Swap_pool == admin.pool->0
    &&& second->Swap_to == this
    &&& admin.ljoule_is_token0 != Some(false) ==> {
        let (of_ljoule, of_quote) = (second->amount0_out, second->amount1_out);
        if sells_ljoule {
            of_ljoule == 0 && of_quote == out
        } else {
            of_ljoule == out && of_quote == 0
        }
    }
    &&& admin.ljoule_is_token0 == Some(false) ==> {
        let (of_quote, of_ljoule) = (second->amount0_out, second->amount1_out);
        if sells_ljoule {
            of_ljoule == 0 && of_quote == out
        } else {
            of_ljoule == out && of_quote == 0
        }
    }
}

/// Trading with the pool sells exactly the input, at the right output for the
/// reserves, and is paid in the token that was not sold.
pub proof fn law_trade(
    admin: RebalancerAdmin,
    this: Address,
    token_in: Address,
    amount_in: i128,
    reserves: Reserves,
    trade: (Vec<Effect>, i128),
)
    requires
        reserves.ljoule >= 0,
        reserves.quote >= 0,
        amount_in >= 0,
        admin.sac->0 == token_in ==> reserves.ljoule + without_fee(amount_in as int) > 0,
        admin.sac->0 != token_in ==> reserves.quote + without_fee(amount_in as int) > 0,
        call_ensures(pool::pool_swap, (&admin, this, token_in, amount_in, reserves), trade),
    ensures
        ({
            let sells_ljoule = admin.sac->0 == token_in;
            let (reserve_in, reserve_out) = if sells_ljoule {
                (reserves.ljoule as int, reserves.quote as int)
            } else {
                (reserves.quote as int, reserves.ljoule as int)
            };
            &&& is_payout(reserve_in, reserve_out, amount_in as int, trade.1 as int)
            &&& trade.0@.len() == 2
            &&& is_trade(
                admin,
                this,
                sells_ljoule,
                token_in,
                amount_in,
                trade.1 as int,
                trade.0@[0],
                trade.0@[1],
            )
            &&& admin.wf() && admin.initialized == Some(true) && can_be_calculated(
                reserve_in,
                reserve_out,
                amount_in as int,
            ) ==> call_requires(pool::pool_swap, (&admin, this, token_in, amount_in, reserves))
        }),
{
    lemma_trade_terms(reserves.ljoule as int, reserves.quote as int, amount_in as int);
    lemma_trade_terms(reserves.quote as int, reserves.ljoule as int, amount_in as int);
}

/// If the order of the pair's tokens is the other way round, the same trade
/// brings the same, and the pair's two outputs change places.
pub proof fn law_trade_in_either_order(
    admin: RebalancerAdmin,
    this: Address,
    token_in: Address,
    amount_in: i128,
    reserves: Reserves,
    trade: (Vec<Effect>, i128),
    mirrored: (Vec<Effect>, i128),
)
    requires
        call_ensures(
            pool::pool_swap,
            (
                &(RebalancerAdmin { ljoule_is_token0: Some(true), ..admin }),
                this,
                token_in,
                amount_in,
                reserves,
            ),
            trade,
        ),
        call_ensures(
            pool::pool_swap,
            (
                &(RebalancerAdmin { ljoule_is_token0: Some(false), ..admin }),
                this,
                token_in,
                amount_in,
                reserves,
            ),
            mirrored,
        ),
    ensures
        trade.1 == mirrored.1,
        trade.0@.len() == 2 && mirrored.0@.len() == 2,
        trade.0@[0] == mirrored.0@[0],
        trade.0@[1]->amount0_out == mirrored.0@[1]->amount1_out,
        trade.0@[1]->amount1_out == mirrored.0@[1]->amount0_out,
{
}

/// A trade can be calculated if and only if its output can, for the reserves as
/// the trade meets them.
pub proof fn law_trade_is_defined(
    admin: RebalancerAdmin,
    token_in: Address,
    amount_in: i128,
    reserves: Reserves,
    defined: bool,
)
    requires
        reserves.ljoule >= 0,
        reserves.quote >= 0,
        amount_in >= 0,
        call_ensures(pool::trade_is_defined, (&admin, token_in, amount_in, reserves), defined),
    ensures
        admin.sac->0 == token_in ==> (defined <==> can_be_calculated(
            reserves.ljoule as int,
            reserves.quote as int,
            amount_in as int,
        )),
        admin.sac->0 != token_in ==> (defined <==> can_be_calculated(
            reserves.quote as int,
            reserves.ljoule as int,
            amount_in as int,
        )),
{
    lemma_trade_terms(reserves.ljoule as int, reserves.quote as int, amount_in as int);
    lemma_trade_terms(reserves.quote as int, reserves.ljoule as int, amount_in as int);
}

} // verus!
