//! What a rebalance does at each step, on what is stored and given.

use crate::address::Address;
use crate::effects::{Effect, Event};
use crate::errors::{Abort, RebalancerAdminError};
use crate::laws::{law_peg_reserve_is_exact, law_sale_reserve_is_exact};
use crate::math::lemma_isqrt_exists;
use crate::plain::{given, in_range};
use crate::pool::{swap_output, BalanceQuery, Reserves};
use crate::pool_laws::{can_be_calculated, is_payout, is_trade, lemma_trade_terms, without_fee};
use crate::rebalance::{
    least_received, reserve_at, reserve_at_peg, worth_defined, worth_in, Order, Progress, Quotes,
};
use crate::state::{Entry, RebalancerAdmin};
use vstd::prelude::*;

verus! {

// ---------------------------------------------------------------------------
// Start

/// Whether fewer ledgers have passed since the last rebalance, if there was
/// one, than are stored as the pause, or else than 12.
pub open spec fn pauses(admin: RebalancerAdmin, ledger: u32) -> bool {
    &&& admin.last_rebalance_ledger is Some
    &&& admin.last_rebalance_ledger->0 > 0
    &&& ledger - admin.last_rebalance_ledger->0 < given(admin.cooldown_ledgers, 12)
}

/// Whether a price of the quote token and one of LJOULE are stored.
pub open spec fn has_prices(admin: RebalancerAdmin) -> bool {
    admin.quote_price is Some && admin.price_data is Some
}

/// Whether the price of LJOULE is older than the age that is stored, or else
/// than 1,000 ledgers.
pub open spec fn is_outdated(admin: RebalancerAdmin, ledger: u32) -> bool {
    ledger - admin.price_data->0.ledger > given(admin.max_stale_ledgers, 1_000)
}

/// A rebalance starts if and only if the pause is over, both prices are on
/// record, and the price of LJOULE is not older than is allowed by what is
/// stored. The first of these that does not hold is the reason for which it is
/// refused. It then goes by those prices, and by nothing older.
pub proof fn law_rebalance_starts_when(
    admin: RebalancerAdmin,
    ledger: u32,
    started: (Vec<Effect>, Result<Progress, RebalancerAdminError>),
)
    requires
        call_ensures(RebalancerAdmin::rebalance, (&admin, ledger), started),
    ensures
        started.1 is Ok <==> !pauses(admin, ledger) && has_prices(admin) && !is_outdated(
            admin,
            ledger,
        ),
        started.1 == Err::<Progress, _>(RebalancerAdminError::CooldownActive) <==> pauses(
            admin,
            ledger,
        ),
        started.1 == Err::<Progress, _>(RebalancerAdminError::QuotePriceNotSet) <==> !pauses(
            admin,
            ledger,
        ) && !has_prices(admin),
        started.1 == Err::<Progress, _>(RebalancerAdminError::OracleStale) <==> !pauses(
            admin,
            ledger,
        ) && has_prices(admin) && is_outdated(admin, ledger),
        started.1 matches Ok(progress) ==> progress == (Progress::PoolLjoule {
            quotes: Quotes {
                ledger,
                quote_usd: admin.quote_price->0,
                ljoule_usd: admin.price_data->0.price,
            },
        }),
        started.0@ == seq![
            Effect::RequireAuth { address: admin.oracle->0 },
            Effect::ExtendTtl { threshold: 17_280, extend_to: 518_400 },
        ],
{
}

/// Starting a rebalance traps where the contract was not set up, and where a
/// ledger that it compares with is still to come, and nowhere else.
pub proof fn law_rebalance_traps_when(admin: RebalancerAdmin, ledger: u32, abort: Option<Abort>)
    requires
        admin.wf(),
        call_ensures(RebalancerAdmin::check_rebalance, (&admin, ledger), abort),
    ensures
        ({
            let set_up = admin.initialized == Some(true);
            let early = admin.last_rebalance_ledger is Some && ledger
                < admin.last_rebalance_ledger->0;
            let unborn = !pauses(admin, ledger) && has_prices(admin) && ledger
                < admin.price_data->0.ledger;
            &&& abort == Some(Abort::NotInitialized) <==> !set_up
            &&& abort == Some(Abort::Arithmetic) <==> set_up && (early || unborn)
            &&& abort is None <==> set_up && !early && !unborn
            &&& set_up && !early && !unborn ==> call_requires(
                RebalancerAdmin::rebalance,
                (&admin, ledger),
            )
        }),
{
}

/// After the allowed age was changed to `ledgers`, a rebalance is refused for
/// the age of the price exactly where that many ledgers have passed and one
/// more.
pub proof fn law_age_is_in_force(
    admin: &mut RebalancerAdmin,
    ledgers: u32,
    effects: Vec<Effect>,
    ledger: u32,
    started: (Vec<Effect>, Result<Progress, RebalancerAdminError>),
)
    requires
        call_ensures(RebalancerAdmin::set_max_stale, (admin, ledgers), effects),
        has_prices(*admin),
        admin.last_rebalance_ledger is None,
    ensures
        call_ensures(RebalancerAdmin::rebalance, (&*final(admin), ledger), started) ==> {
            &&& started.1 is Ok <==> ledger <= old(admin).price_data->0.ledger + ledgers
            &&& started.1 is Err ==> started.1 == Err::<Progress, _>(
                RebalancerAdminError::OracleStale,
            )
        },
{
}

/// The balances that are asked for: those of the stored pool, or of the
/// contract itself, in the administered token or in the stored quote token.
pub proof fn law_balances_asked_for(
    admin: RebalancerAdmin,
    this: Address,
    progress: Progress,
    query: Option<BalanceQuery>,
)
    requires
        call_ensures(RebalancerAdmin::query, (&admin, this, &progress), query),
    ensures
        query is None <==> progress is Done,
        progress is PoolLjoule || progress is MintPoolLjoule || progress is BuyPoolLjoule
            ==> query->0.holder == admin.pool->0 && query->0.token == admin.sac->0,
        progress is PoolQuote || progress is MintPoolQuote || progress is BuyPoolQuote
            ==> query->0.holder == admin.pool->0 && query->0.token == admin.quote_token->0,
        progress is OwnQuote ==> query->0.holder == this && query->0.token
            == admin.quote_token->0,
        progress is OwnLjoule ==> query->0.holder == this && query->0.token == admin.sac->0,
        admin.wf() && admin.initialized == Some(true) ==> call_requires(
            RebalancerAdmin::query,
            (&admin, this, &progress),
        ),
{
}

/// A step that does not trap can be made.
pub proof fn law_step_can_be_made(
    admin: &mut RebalancerAdmin,
    this: Address,
    progress: Progress,
    balance: i128,
)
    requires
        admin.wf(),
        call_ensures(
            RebalancerAdmin::check_resume,
            (&*admin, progress, balance),
            None::<Abort>,
        ),
    ensures
        call_requires(RebalancerAdmin::resume, (old(admin), this, progress, balance)),
{
}

/// A step that only takes note of the pool's LJOULE asks nothing of the ledger,
/// stores nothing, never traps, and goes on to ask for the pool's quote token.
/// A rebalance that is done stays done.
pub proof fn law_first_reading(
    admin: &mut RebalancerAdmin,
    this: Address,
    progress: Progress,
    balance: i128,
    step: (Vec<Effect>, Result<Progress, RebalancerAdminError>),
    abort: Option<Abort>,
)
    requires
        progress is PoolLjoule || progress is MintPoolLjoule || progress is BuyPoolLjoule
            || progress is Done,
        call_ensures(RebalancerAdmin::resume, (admin, this, progress, balance), step),
        call_ensures(RebalancerAdmin::check_resume, (&*admin, progress, balance), abort),
    ensures
        step.0@.len() == 0,
        *final(admin) == *old(admin),
        progress matches Progress::PoolLjoule { quotes } ==> step.1 == Ok::<
            Progress,
            RebalancerAdminError,
        >(Progress::PoolQuote { quotes, ljoule: balance }),
        progress matches Progress::MintPoolLjoule { order } ==> step.1 == Ok::<
            Progress,
            RebalancerAdminError,
        >(Progress::MintPoolQuote { order, ljoule: balance }),
        progress matches Progress::BuyPoolLjoule { order } ==> step.1 == Ok::<
            Progress,
            RebalancerAdminError,
        >(Progress::BuyPoolQuote { order, ljoule: balance }),
        progress is Done ==> step.1 == Ok::<Progress, RebalancerAdminError>(Progress::Done),
        abort == Some(Abort::NotInitialized) <==> old(admin).initialized != Some(true),
        abort is None <==> old(admin).initialized == Some(true),
{
}

// ---------------------------------------------------------------------------
// Decision

/// Whether the pool holds less of either token than is stored as the smallest
/// reserve, or else than one whole token.
pub open spec fn is_small(admin: RebalancerAdmin, ljoule: i128, quote: i128) -> bool {
    quote < given(admin.min_reserve, 10_000_000) || ljoule < given(admin.min_reserve, 10_000_000)
}

/// Whether the quote token in the pool is worth more than the LJOULE in it, at
/// the oracle price raised by the stored upper width, or else by five percent.
pub open spec fn is_overpriced(
    admin: RebalancerAdmin,
    quotes: Quotes,
    ljoule: i128,
    quote: i128,
) -> bool {
    quote * quotes.quote_usd * 10_000 > quotes.ljoule_usd * ljoule * (10_000 + given(
        admin.upper_bps,
        500,
    ))
}

/// Whether the quote token in the pool is worth less than the LJOULE in it, at
/// the oracle price lowered by the stored lower width, or else by five percent.
pub open spec fn is_underpriced(
    admin: RebalancerAdmin,
    quotes: Quotes,
    ljoule: i128,
    quote: i128,
) -> bool {
    quote * quotes.quote_usd * 10_000 < quotes.ljoule_usd * ljoule * (10_000 - given(
        admin.lower_bps,
        500,
    ))
}

/// Whether the pool, holding `stock` of LJOULE and its product unchanged, still
/// prices LJOULE at or above the oracle price raised by half of the upper
/// width.
pub open spec fn reaches_midpoint(
    admin: RebalancerAdmin,
    quotes: Quotes,
    ljoule: i128,
    quote: i128,
    stock: int,
) -> bool {
    stock * stock * (quotes.ljoule_usd * (10_000 + given(admin.upper_bps, 500) as int / 2))
        <= quote * quotes.quote_usd * 10_000 * ljoule
}

/// Whether the pool, holding `stock` of the quote token and its product
/// unchanged, prices LJOULE at most at the oracle price.
pub open spec fn stays_below_peg(quotes: Quotes, ljoule: i128, quote: i128, stock: int) -> bool {
    stock * stock * quotes.quote_usd <= quote * ljoule * quotes.ljoule_usd
}

/// Whether an amount is the one to mint and sell: as much as the stored limit,
/// or else 10,000 LJOULE, and the midpoint of the band's upper half allow.
pub open spec fn is_sale(
    admin: RebalancerAdmin,
    quotes: Quotes,
    ljoule: i128,
    quote: i128,
    amount: int,
) -> bool {
    &&& 0 < amount <= given(admin.max_mint, 100_000_000_000)
    &&& reaches_midpoint(admin, quotes, ljoule, quote, ljoule + amount)
    &&& amount == given(admin.max_mint, 100_000_000_000) || !reaches_midpoint(
        admin,
        quotes,
        ljoule,
        quote,
        ljoule + amount + 1,
    )
}

/// Whether an amount is the one to spend on a buyback: as much as the stored
/// limit, or else 5,000 of the quote token, and the oracle price allow.
pub open spec fn is_purchase(
    admin: RebalancerAdmin,
    quotes: Quotes,
    ljoule: i128,
    quote: i128,
    amount: int,
) -> bool {
    &&& 0 < amount <= given(admin.max_quote_spend, 50_000_000_000)
    &&& stays_below_peg(quotes, ljoule, quote, quote + amount)
    &&& amount == given(admin.max_quote_spend, 50_000_000_000) || !stays_below_peg(
        quotes,
        ljoule,
        quote,
        quote + amount + 1,
    )
}

/// Below and at a root, and only there, a square is within the bound.
proof fn lemma_below_root(root: int, x: int, factor: int, bound: int)
    requires
        root >= 0,
        x >= 0,
        factor > 0,
        root * root * factor <= bound < (root + 1) * (root + 1) * factor,
    ensures
        x * x * factor <= bound <==> x <= root,
{
    if x <= root {
        assert(x * x * factor <= root * root * factor) by (nonlinear_arith)
            requires
                0 <= x <= root,
                factor > 0,
        ;
    } else {
        assert((root + 1) * (root + 1) * factor <= x * x * factor) by (nonlinear_arith)
            requires
                0 <= root + 1 <= x,
                factor > 0,
        ;
    }
}

/// The targets of a rebalance, in plain arithmetic.
proof fn lemma_targets(
    admin: RebalancerAdmin,
    quotes: Quotes,
    ljoule: i128,
    quote: i128,
    stock: int,
)
    requires
        quotes.quote_usd > 0,
        quotes.ljoule_usd > 0,
        ljoule > 0,
        quote > 0,
        stock >= 0,
    ensures
        ({
            let reserves = Reserves { ljoule, quote };
            &&& reaches_midpoint(admin, quotes, ljoule, quote, stock) <==> stock <= reserve_at(
                quotes,
                reserves,
                (admin.upper() / 2) as int,
            )
            &&& stays_below_peg(quotes, ljoule, quote, stock) <==> stock <= reserve_at_peg(
                quotes,
                reserves,
            )
        }),
{
    let reserves = Reserves { ljoule, quote };
    let half = (admin.upper() / 2) as int;
    law_sale_reserve_is_exact(quotes, reserves, half);
    law_peg_reserve_is_exact(quotes, reserves);
    let price = quotes.ljoule_usd * (10_000 + half);
    assert(price > 0) by (nonlinear_arith)
        requires
            quotes.ljoule_usd > 0,
            half >= 0,
            price == quotes.ljoule_usd * (10_000 + half),
    ;
    lemma_below_root(
        reserve_at(quotes, reserves, half),
        stock,
        price,
        quote * quotes.quote_usd * 10_000 * ljoule,
    );
    lemma_below_root(
        reserve_at_peg(quotes, reserves),
        stock,
        quotes.quote_usd as int,
        quote * ljoule * quotes.ljoule_usd,
    );
}

/// The decision, on seeing the reserves. A pool with too little in it is left
/// alone, and so is one whose price lies within the band. If LJOULE is
/// overpriced, the right amount is minted for sale; if it is underpriced, the
/// right amount is set aside for a buyback; and if there is no such amount, the
/// pool is left alone.
pub proof fn law_decision(
    admin: &mut RebalancerAdmin,
    this: Address,
    quotes: Quotes,
    ljoule: i128,
    quote: i128,
    step: (Vec<Effect>, Result<Progress, RebalancerAdminError>),
)
    requires
        admin.wf(),
        quotes.quote_usd > 0,
        quotes.ljoule_usd > 0,
        call_ensures(
            RebalancerAdmin::resume,
            (admin, this, Progress::PoolQuote { quotes, ljoule }, quote),
            step,
        ),
    ensures
        ({
            let small = is_small(*old(admin), ljoule, quote);
            let over = !small && is_overpriced(*old(admin), quotes, ljoule, quote);
            let under = !small && is_underpriced(*old(admin), quotes, ljoule, quote);
            let sells = over && reaches_midpoint(*old(admin), quotes, ljoule, quote, ljoule + 1);
            let buys = under && stays_below_peg(quotes, ljoule, quote, quote + 1);
            &&& !(over && under)
            &&& step.1 == Err::<Progress, _>(RebalancerAdminError::PoolEmpty) <==> small
            &&& step.1 == Err::<Progress, _>(RebalancerAdminError::NoRebalanceNeeded) <==> !small
                && !sells && !buys
            &&& sells ==> {
                let order = step.1->Ok_0->MintPoolLjoule_order;
                &&& step.1 is Ok && step.1->Ok_0 is MintPoolLjoule
                &&& order.quotes == quotes
                &&& order.reserves == (Reserves { ljoule, quote })
                &&& is_sale(*old(admin), quotes, ljoule, quote, order.amount as int)
            }
            &&& buys ==> {
                let order = step.1->Ok_0->OwnQuote_order;
                &&& step.1 is Ok && step.1->Ok_0 is OwnQuote
                &&& order.quotes == quotes
                &&& order.reserves == (Reserves { ljoule, quote })
                &&& is_purchase(*old(admin), quotes, ljoule, quote, order.amount as int)
            }
        }),
{
    let before = *admin;
    if !is_small(before, ljoule, quote) {
        let reserves = Reserves { ljoule, quote };
        let worth = quotes.ljoule_usd * ljoule;
        assert(worth > 0) by (nonlinear_arith)
            requires
                quotes.ljoule_usd > 0,
                ljoule > 0,
                worth == quotes.ljoule_usd * ljoule,
        ;
        assert(worth * (10_000 - before.lower()) < worth * (10_000 + before.upper()))
            by (nonlinear_arith)
            requires
                worth > 0,
                before.lower() > 0,
                before.upper() > 0,
        ;
        lemma_targets(before, quotes, ljoule, quote, ljoule + 1);
        lemma_targets(before, quotes, ljoule, quote, quote + 1);
        if step.1 is Ok {
            let amount = match step.1->Ok_0 {
                Progress::MintPoolLjoule { order } => order.amount,
                Progress::OwnQuote { order } => order.amount,
                _ => 0,
            };
            lemma_targets(before, quotes, ljoule, quote, ljoule + amount);
            lemma_targets(before, quotes, ljoule, quote, ljoule + amount + 1);
            lemma_targets(before, quotes, ljoule, quote, quote + amount);
            lemma_targets(before, quotes, ljoule, quote, quote + amount + 1);
        }
    }
}

/// A decision to sell mints exactly the amount, to the contract itself, and
/// adds it to the total minted. Any other decision asks nothing of the ledger
/// and stores nothing.
pub proof fn law_decision_mints(
    admin: &mut RebalancerAdmin,
    this: Address,
    quotes: Quotes,
    ljoule: i128,
    quote: i128,
    step: (Vec<Effect>, Result<Progress, RebalancerAdminError>),
)
    requires
        call_ensures(
            RebalancerAdmin::resume,
            (admin, this, Progress::PoolQuote { quotes, ljoule }, quote),
            step,
        ),
    ensures
        step.1 is Ok && step.1->Ok_0 is MintPoolLjoule && in_range(
            given(old(admin).total_minted, 0) + step.1->Ok_0->MintPoolLjoule_order.amount,
        ) ==> {
            let order = step.1->Ok_0->MintPoolLjoule_order;
            let total = final(admin).total_minted;
            &&& total is Some
            &&& total->0 == given(old(admin).total_minted, 0) + order.amount
            &&& *final(admin) == (RebalancerAdmin { total_minted: total, ..*old(admin) })
            &&& step.0@.len() == 2
            &&& step.0@[0] == (Effect::Mint { to: this, amount: order.amount })
            &&& step.0@[1] == (Effect::Store { entry: Entry::TotalMinted(total->0) })
        },
        !(step.1 is Ok && step.1->Ok_0 is MintPoolLjoule) ==> *final(admin) == *old(admin)
            && step.0@.len() == 0,
{
}

/// The decision traps where the contract was not set up, and where a number
/// that it comes to is out of range: one of the worths that are compared; for a
/// sale of `amount`, the total minted; for a buyback, the product of the
/// reserves at the oracle price. It traps nowhere else.
pub proof fn law_decision_traps_when(
    admin: RebalancerAdmin,
    quotes: Quotes,
    ljoule: i128,
    quote: i128,
    amount: i128,
    abort: Option<Abort>,
)
    requires
        admin.wf(),
        quotes.quote_usd > 0,
        quotes.ljoule_usd > 0,
        call_ensures(
            RebalancerAdmin::check_resume,
            (&admin, Progress::PoolQuote { quotes, ljoule }, quote),
            abort,
        ),
    ensures
        ({
            let small = is_small(admin, ljoule, quote);
            let over = is_overpriced(admin, quotes, ljoule, quote);
            let under = is_underpriced(admin, quotes, ljoule, quote);
            let worth = quotes.ljoule_usd * ljoule;
            let compared = {
                &&& in_range(quote * quotes.quote_usd * 10_000)
                &&& in_range(worth * (10_000 + given(admin.upper_bps, 500)))
            };
            &&& abort == Some(Abort::NotInitialized) <==> admin.initialized != Some(true)
            &&& abort is Some ==> abort == Some(Abort::NotInitialized) || abort == Some(
                Abort::Arithmetic,
            )
            &&& admin.initialized == Some(true) ==> {
                &&& small ==> abort is None
                &&& !small && !compared ==> abort is Some
                &&& !small && compared && !over && !under ==> abort is None
                &&& !small && compared && over && !reaches_midpoint(
                    admin,
                    quotes,
                    ljoule,
                    quote,
                    ljoule + 1,
                ) ==> abort is None
                &&& !small && compared && over && is_sale(
                    admin,
                    quotes,
                    ljoule,
                    quote,
                    amount as int,
                ) ==> (abort is None <==> in_range(given(admin.total_minted, 0) + amount))
                &&& !small && compared && under ==> (abort is None <==> in_range(
                    quote * ljoule * quotes.ljoule_usd,
                ))
            }
        }),
{
    if !is_small(admin, ljoule, quote) {
        let reserves = Reserves { ljoule, quote };
        let worth = quotes.ljoule_usd * ljoule;
        let (up, low) = (admin.upper() as int, admin.lower() as int);
        assert(worth > 0 && worth <= worth * (10_000 + up)) by (nonlinear_arith)
            requires
                quotes.ljoule_usd > 0,
                ljoule > 0,
                up > 0,
                worth == quotes.ljoule_usd * ljoule,
        ;
        assert(0 <= worth * (10_000 - low) <= worth * (10_000 + up)) by (nonlinear_arith)
            requires
                worth > 0,
                0 < low < 10_000,
                up > 0,
        ;
        let held = quote * quotes.quote_usd;
        assert(held > 0) by (nonlinear_arith)
            requires
                quote > 0,
                quotes.quote_usd > 0,
                held == quote * quotes.quote_usd,
        ;
        let product = quote * ljoule;
        let value = product * quotes.ljoule_usd;
        assert(0 < product <= value) by (nonlinear_arith)
            requires
                quote > 0,
                ljoule > 0,
                quotes.ljoule_usd > 0,
                product == quote * ljoule,
                value == product * quotes.ljoule_usd,
        ;
        let square = value / (quotes.quote_usd as int);
        assert(0 <= square <= value) by (nonlinear_arith)
            requires
                value > 0,
                quotes.quote_usd > 0,
                square == value / (quotes.quote_usd as int),
        ;
        let root = reserve_at_peg(quotes, reserves);
        lemma_isqrt_exists(square);
        if square > 0 {
            assert(root <= square) by (nonlinear_arith)
                requires
                    0 <= root,
                    root * root <= square,
            ;
        }
        lemma_targets(admin, quotes, ljoule, quote, ljoule + 1);
        if amount > 0 {
            lemma_targets(admin, quotes, ljoule, quote, ljoule + amount);
            lemma_targets(admin, quotes, ljoule, quote, ljoule + amount + 1);
        }
    }
}

// ---------------------------------------------------------------------------
// Sale

/// Whether a report on a trade is the right one: a warning with what came of
/// the trade, what it should have brought by the prices, and 80 percent of that
/// rounded down, if less than that came of it; and nothing otherwise.
pub open spec fn is_report(
    received: int,
    amount: i128,
    price: i128,
    price_of_other: i128,
    report: Seq<Effect>,
) -> bool {
    let expected = (amount * price) / (price_of_other as int);
    let minimum = expected * 80 / 100;
    if received < minimum {
        &&& report.len() == 1
        &&& report[0] is Publish
        &&& report[0]->event is SlippageWarning
        &&& report[0]->event->received == received
        &&& report[0]->event->expected == expected
        &&& report[0]->event->minimum == minimum
    } else {
        report.len() == 0
    }
}

/// Whether what a trade should bring can be calculated in 128 bits.
pub open spec fn can_be_expected(amount: i128, price: i128, price_of_other: i128) -> bool {
    in_range(amount * price) && in_range((amount * price) / (price_of_other as int) * 80)
}

/// What a trade should bring, in plain arithmetic.
proof fn lemma_expectation(amount: i128, price: i128, price_of_other: i128)
    requires
        amount >= 0,
        price > 0,
        price_of_other > 0,
    ensures
        ({
            let expected = (amount * price) / (price_of_other as int);
            &&& expected == worth_in(amount, price, price_of_other)
            &&& 0 <= expected <= amount * price
            &&& expected * 80 / 100 == least_received(expected)
            &&& can_be_expected(amount, price, price_of_other) <==> worth_defined(
                amount,
                price,
                price_of_other,
            )
        }),
{
    let value = amount * price;
    let other = price_of_other as int;
    let expected = value / other;
    assert(value >= 0) by (nonlinear_arith)
        requires
            amount >= 0,
            price > 0,
            value == amount * price,
    ;
    assert(0 <= expected <= value) by (nonlinear_arith)
        requires
            value >= 0,
            other > 0,
            expected == value / other,
    ;
}

/// What was minted is sold through the pool, for the quote token, at the right
/// output for the reserves as they are then, whichever of the pair's tokens is
/// LJOULE. A poor sale is reported, the sale is announced, the ledger is
/// recorded as that of the last rebalance, and the rebalance is done.
pub proof fn law_sale(
    admin: &mut RebalancerAdmin,
    this: Address,
    order: Order,
    ljoule: i128,
    quote: i128,
    step: (Vec<Effect>, Result<Progress, RebalancerAdminError>),
    received: int,
)
    requires
        admin.wf(),
        ljoule >= 0,
        quote >= 0,
        order.amount >= 0,
        ljoule + without_fee(order.amount as int) > 0,
        order.quotes.quote_usd > 0,
        order.quotes.ljoule_usd > 0,
        can_be_expected(order.amount, order.quotes.ljoule_usd, order.quotes.quote_usd),
        is_payout(ljoule as int, quote as int, order.amount as int, received),
        call_ensures(
            RebalancerAdmin::resume,
            (admin, this, Progress::MintPoolQuote { order, ljoule }, quote),
            step,
        ),
    ensures
        step.1 == Ok::<Progress, RebalancerAdminError>(Progress::Done),
        *final(admin) == (RebalancerAdmin {
            last_rebalance_ledger: Some(order.quotes.ledger),
            ..*old(admin)
        }),
        step.0@.len() >= 4,
        is_trade(
            *old(admin),
            this,
            true,
            old(admin).sac->0,
            order.amount,
            received,
            step.0@[0],
            step.0@[1],
        ),
        is_report(
            received,
            order.amount,
            order.quotes.ljoule_usd,
            order.quotes.quote_usd,
            step.0@.subrange(2, step.0@.len() - 2),
        ),
        step.0@[step.0@.len() - 2] matches Effect::Publish { event }
            && event matches Event::RebalanceMint {
            mint_amount,
            usdc_received,
            reserve_quote,
            reserve_ljoule,
        } && mint_amount == order.amount && usdc_received == received && reserve_quote
            == order.reserves.quote && reserve_ljoule == order.reserves.ljoule,
        step.0@[step.0@.len() - 1] == (Effect::Store {
            entry: Entry::LastRebalanceLedger(order.quotes.ledger),
        }),
{
    lemma_trade_terms(ljoule as int, quote as int, order.amount as int);
    lemma_expectation(order.amount, order.quotes.ljoule_usd, order.quotes.quote_usd);
    lemma_one_payout(
        ljoule as int,
        quote as int,
        order.amount as int,
        received,
        swap_output(ljoule as int, quote as int, order.amount as int),
    );
}

/// Only one output is the right one for a trade.
proof fn lemma_one_payout(reserve_in: int, reserve_out: int, amount_in: int, a: int, b: int)
    requires
        reserve_in + without_fee(amount_in) > 0,
        is_payout(reserve_in, reserve_out, amount_in, a),
        is_payout(reserve_in, reserve_out, amount_in, b),
    ensures
        a == b,
{
    let filled = reserve_in + without_fee(amount_in);
    assert(a == b) by (nonlinear_arith)
        requires
            filled > 0,
            filled * (reserve_out - a) >= reserve_in * reserve_out,
            filled * (reserve_out - (a + 1)) < reserve_in * reserve_out,
            filled * (reserve_out - b) >= reserve_in * reserve_out,
            filled * (reserve_out - (b + 1)) < reserve_in * reserve_out,
    ;
}

/// A sale traps where the contract was not set up, and where the output or what
/// it should be cannot be calculated, and nowhere else.
pub proof fn law_sale_traps_when(
    admin: RebalancerAdmin,
    order: Order,
    ljoule: i128,
    quote: i128,
    abort: Option<Abort>,
)
    requires
        admin.wf(),
        ljoule >= 0,
        quote >= 0,
        order.amount >= 0,
        order.quotes.quote_usd > 0,
        order.quotes.ljoule_usd > 0,
        call_ensures(
            RebalancerAdmin::check_resume,
            (&admin, Progress::MintPoolQuote { order, ljoule }, quote),
            abort,
        ),
    ensures
        ({
            let defined = can_be_calculated(ljoule as int, quote as int, order.amount as int)
                && can_be_expected(order.amount, order.quotes.ljoule_usd, order.quotes.quote_usd);
            &&& abort == Some(Abort::NotInitialized) <==> admin.initialized != Some(true)
            &&& abort == Some(Abort::Arithmetic) <==> admin.initialized == Some(true) && !defined
            &&& abort is None <==> admin.initialized == Some(true) && defined
        }),
{
    lemma_trade_terms(ljoule as int, quote as int, order.amount as int);
    lemma_expectation(order.amount, order.quotes.ljoule_usd, order.quotes.quote_usd);
}

// ---------------------------------------------------------------------------
// Buyback

/// A buyback goes on if and only if the contract holds at least what it is to
/// spend. Up to here nothing is asked of the ledger and nothing is stored, and
/// the step traps only where the contract was not set up.
pub proof fn law_buyback_needs_funds(
    admin: &mut RebalancerAdmin,
    this: Address,
    order: Order,
    funds: i128,
    step: (Vec<Effect>, Result<Progress, RebalancerAdminError>),
    abort: Option<Abort>,
)
    requires
        call_ensures(
            RebalancerAdmin::resume,
            (admin, this, Progress::OwnQuote { order }, funds),
            step,
        ),
        call_ensures(
            RebalancerAdmin::check_resume,
            (&*admin, Progress::OwnQuote { order }, funds),
            abort,
        ),
    ensures
        funds >= order.amount ==> step.1 == Ok::<Progress, RebalancerAdminError>(
            Progress::BuyPoolLjoule { order },
        ),
        funds < order.amount ==> step.1 == Err::<Progress, _>(
            RebalancerAdminError::InsufficientQuote,
        ),
        step.0@.len() == 0,
        *final(admin) == *old(admin),
        abort == Some(Abort::NotInitialized) <==> old(admin).initialized != Some(true),
        abort is None <==> old(admin).initialized == Some(true),
{
}

/// What the pool holds of the token that a purchase brings, and of the token
/// that it takes. Should LJOULE be its own quote token, a purchase is a sale.
pub open spec fn purchase_reserves(
    admin: RebalancerAdmin,
    ljoule: i128,
    quote: i128,
) -> (int, int) {
    if admin.quote_token->0 == admin.sac->0 {
        (ljoule as int, quote as int)
    } else {
        (quote as int, ljoule as int)
    }
}

/// The quote token that was set aside is spent through the pool, on LJOULE, at
/// the right output for the reserves as they are then, whichever of the pair's
/// tokens is LJOULE. A poor purchase is reported, nothing is stored, and the
/// rebalance goes on to burn.
pub proof fn law_purchase(
    admin: &mut RebalancerAdmin,
    this: Address,
    order: Order,
    ljoule: i128,
    quote: i128,
    step: (Vec<Effect>, Result<Progress, RebalancerAdminError>),
    received: int,
)
    requires
        admin.wf(),
        ljoule >= 0,
        quote >= 0,
        order.amount >= 0,
        purchase_reserves(*admin, ljoule, quote).0 + without_fee(order.amount as int) > 0,
        order.quotes.quote_usd > 0,
        order.quotes.ljoule_usd > 0,
        can_be_expected(order.amount, order.quotes.quote_usd, order.quotes.ljoule_usd),
        is_payout(
            purchase_reserves(*admin, ljoule, quote).0,
            purchase_reserves(*admin, ljoule, quote).1,
            order.amount as int,
            received,
        ),
        call_ensures(
            RebalancerAdmin::resume,
            (admin, this, Progress::BuyPoolQuote { order, ljoule }, quote),
            step,
        ),
    ensures
        step.1 matches Ok(progress) && progress matches Progress::OwnLjoule {
            order: same_order,
            ljoule_received,
        } && same_order == order && ljoule_received == received,
        *final(admin) == *old(admin),
        step.0@.len() >= 2,
        is_trade(
            *old(admin),
            this,
            old(admin).quote_token->0 == old(admin).sac->0,
            old(admin).quote_token->0,
            order.amount,
            received,
            step.0@[0],
            step.0@[1],
        ),
        is_report(
            received,
            order.amount,
            order.quotes.quote_usd,
            order.quotes.ljoule_usd,
            step.0@.subrange(2, step.0@.len() as int),
        ),
{
    let (reserve_in, reserve_out) = purchase_reserves(*admin, ljoule, quote);
    let amount = order.amount as int;
    lemma_trade_terms(reserve_in, reserve_out, amount);
    lemma_expectation(order.amount, order.quotes.quote_usd, order.quotes.ljoule_usd);
    lemma_one_payout(
        reserve_in,
        reserve_out,
        amount,
        received,
        swap_output(reserve_in, reserve_out, amount),
    );
}

/// A purchase traps where the contract was not set up, and where the output or
/// what it should be cannot be calculated, and nowhere else.
pub proof fn law_purchase_traps_when(
    admin: RebalancerAdmin,
    order: Order,
    ljoule: i128,
    quote: i128,
    abort: Option<Abort>,
)
    requires
        admin.wf(),
        ljoule >= 0,
        quote >= 0,
        order.amount >= 0,
        order.quotes.quote_usd > 0,
        order.quotes.ljoule_usd > 0,
        call_ensures(
            RebalancerAdmin::check_resume,
            (&admin, Progress::BuyPoolQuote { order, ljoule }, quote),
            abort,
        ),
    ensures
        ({
            let (reserve_in, reserve_out) = purchase_reserves(admin, ljoule, quote);
            let defined = can_be_calculated(reserve_in, reserve_out, order.amount as int)
                && can_be_expected(order.amount, order.quotes.quote_usd, order.quotes.ljoule_usd);
            &&& abort == Some(Abort::NotInitialized) <==> admin.initialized != Some(true)
            &&& abort == Some(Abort::Arithmetic) <==> admin.initialized == Some(true) && !defined
            &&& abort is None <==> admin.initialized == Some(true) && defined
        }),
{
    lemma_trade_terms(ljoule as int, quote as int, order.amount as int);
    lemma_trade_terms(quote as int, ljoule as int, order.amount as int);
    lemma_expectation(order.amount, order.quotes.quote_usd, order.quotes.ljoule_usd);
}

/// All LJOULE that the contract holds after a purchase is burned, if it holds
/// any, and added to the total burned. The buyback is announced with what was
/// spent and bought, the ledger is recorded as that of the last rebalance, and
/// the rebalance is done.
pub proof fn law_burn(
    admin: &mut RebalancerAdmin,
    this: Address,
    order: Order,
    received: i128,
    held: i128,
    step: (Vec<Effect>, Result<Progress, RebalancerAdminError>),
)
    requires
        held > 0 ==> in_range(given(admin.total_burned, 0) + held),
        call_ensures(
            RebalancerAdmin::resume,
            (admin, this, Progress::OwnLjoule { order, ljoule_received: received }, held),
            step,
        ),
    ensures
        step.1 == Ok::<Progress, RebalancerAdminError>(Progress::Done),
        ({
            let announced = Effect::Publish {
                event: Event::RebalanceBuyback {
                    quote_to_spend: order.amount,
                    ljoule_received: received,
                    reserve_quote: order.reserves.quote,
                    reserve_ljoule: order.reserves.ljoule,
                },
            };
            let recorded = Effect::Store {
                entry: Entry::LastRebalanceLedger(order.quotes.ledger),
            };
            &&& held > 0 ==> {
                let total = final(admin).total_burned;
                &&& total is Some && total->0 == given(old(admin).total_burned, 0) + held
                &&& *final(admin) == (RebalancerAdmin {
                    total_burned: total,
                    last_rebalance_ledger: Some(order.quotes.ledger),
                    ..*old(admin)
                })
                &&& step.0@ == seq![
                    Effect::Clawback { from: this, amount: held },
                    Effect::Store { entry: Entry::TotalBurned(total->0) },
                    announced,
                    recorded,
                ]
            }
            &&& held <= 0 ==> {
                &&& *final(admin) == (RebalancerAdmin {
                    last_rebalance_ledger: Some(order.quotes.ledger),
                    ..*old(admin)
                })
                &&& step.0@ == seq![announced, recorded]
            }
        }),
{
}

/// Burning traps where the contract was not set up, and where the total burned
/// would be out of range, and nowhere else.
pub proof fn law_burn_traps_when(
    admin: RebalancerAdmin,
    order: Order,
    received: i128,
    held: i128,
    abort: Option<Abort>,
)
    requires
        admin.wf(),
        call_ensures(
            RebalancerAdmin::check_resume,
            (&admin, Progress::OwnLjoule { order, ljoule_received: received }, held),
            abort,
        ),
    ensures
        ({
            let counted = held <= 0 || in_range(given(admin.total_burned, 0) + held);
            &&& abort == Some(Abort::NotInitialized) <==> admin.initialized != Some(true)
            &&& abort == Some(Abort::Arithmetic) <==> admin.initialized == Some(true) && !counted
            &&& abort is None <==> admin.initialized == Some(true) && counted
        }),
{
}

} // verus!
