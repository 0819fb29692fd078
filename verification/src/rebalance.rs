//! Rebalancing: minting and selling while LJOULE is overpriced in the pool,
//! buying back and burning while it is underpriced.
//!
//! A rebalance needs balances that only the ledger knows. It therefore runs in
//! steps. [`RebalancerAdmin::rebalance`] starts it, [`RebalancerAdmin::query`]
//! says which balance the next step needs, and [`RebalancerAdmin::resume`]
//! takes that balance and goes on, until the run is done or refused.

use crate::address::Address;
use crate::effects::{
    authorized_by, lemma_units_burned_push, lemma_units_minted_push, Effect, Event, TTL_EXTEND_TO,
    TTL_THRESHOLD,
};
use crate::errors::{Abort, RebalancerAdminError};
use crate::math::{
    checked_quotient, fits, isqrt, isqrt_of_product, lemma_quotient_fits, quotient, sqrt_floor,
};
use crate::oracle;
use crate::pool::{
    get_pool_reserves, pool_swap, reserve_queries, trade_defined, trade_effects, trade_is_defined,
    trade_output, BalanceQuery, Reserves,
};
use crate::state::{
    lemma_one_by_one, lemma_replay_push, or_default, Entry, RebalancerAdmin, DEFAULT_BAND_BPS,
    DEFAULT_COOLDOWN_LEDGERS, DEFAULT_MAX_MINT, DEFAULT_MAX_QUOTE_SPEND,
    DEFAULT_MAX_STALE_LEDGERS, DEFAULT_MIN_RESERVE,
};
use vstd::prelude::*;

verus! {

/// The prices on which a rebalance acts, and the ledger in which it runs.
#[derive(Clone, Copy, Debug, PartialEq, Eq, Structural)]
pub struct Quotes {
    pub ledger: u32,
    /// USD price of the quote token.
    pub quote_usd: i128,
    /// USD price of LJOULE, from the oracle.
    pub ljoule_usd: i128,
}

/// A trade that a rebalance has settled on.
#[derive(Clone, Copy, Debug, PartialEq, Eq, Structural)]
pub struct Order {
    pub quotes: Quotes,
    /// The reserves on which the decision was made.
    pub reserves: Reserves,
    /// What is sold to the pool.
    pub amount: i128,
}

/// How far a rebalance has come. Every variant but the last waits for a
/// balance.
#[derive(Clone, Copy, Debug, PartialEq, Eq, Structural)]
pub enum Progress {
    /// Waits for the pool's LJOULE, to decide.
    PoolLjoule { quotes: Quotes },
    /// Waits for the pool's quote token, to decide.
    PoolQuote { quotes: Quotes, ljoule: i128 },
    /// Has minted; waits for the pool's LJOULE, to sell.
    MintPoolLjoule { order: Order },
    /// Has minted; waits for the pool's quote token, to sell.
    MintPoolQuote { order: Order, ljoule: i128 },
    /// Wants to buy back; waits for the contract's own quote token.
    OwnQuote { order: Order },
    /// Can buy back; waits for the pool's LJOULE, to buy.
    BuyPoolLjoule { order: Order },
    /// Can buy back; waits for the pool's quote token, to buy.
    BuyPoolQuote { order: Order, ljoule: i128 },
    /// Has bought back; waits for the contract's own LJOULE, to burn it.
    OwnLjoule { order: Order, ljoule_received: i128 },
    /// Nothing is left to do.
    Done,
}

/// On which side of the band the pool's price lies.
#[derive(Clone, Copy, Debug, PartialEq, Eq, Structural)]
pub enum Side {
    Above,
    Below,
}

impl RebalancerAdmin {
    /// Ledger of the last rebalance, zero before the first.
    pub open spec fn last_rebalance(self) -> u32 {
        or_default(self.last_rebalance_ledger, 0)
    }

    /// Pause between two rebalances, in ledgers.
    pub open spec fn cooldown(self) -> u32 {
        or_default(self.cooldown_ledgers, DEFAULT_COOLDOWN_LEDGERS)
    }

    /// Allowed age of the oracle price, in ledgers.
    pub open spec fn max_stale(self) -> u32 {
        or_default(self.max_stale_ledgers, DEFAULT_MAX_STALE_LEDGERS)
    }

    /// Smallest reserve of either token with which the pool is rebalanced.
    pub open spec fn smallest_reserve(self) -> i128 {
        or_default(self.min_reserve, DEFAULT_MIN_RESERVE)
    }

    /// Width of the band above the oracle price, in basis points.
    pub open spec fn upper(self) -> u32 {
        or_default(self.upper_bps, DEFAULT_BAND_BPS)
    }

    /// Width of the band below the oracle price, in basis points.
    pub open spec fn lower(self) -> u32 {
        or_default(self.lower_bps, DEFAULT_BAND_BPS)
    }

    /// Most that one rebalance mints.
    pub open spec fn most_minted(self) -> i128 {
        or_default(self.max_mint, DEFAULT_MAX_MINT)
    }

    /// Most that one rebalance spends.
    pub open spec fn most_spent(self) -> i128 {
        or_default(self.max_quote_spend, DEFAULT_MAX_QUOTE_SPEND)
    }

    /// Whether the pause after the last rebalance is not over yet.
    pub open spec fn is_cooling_down(self, ledger: u32) -> bool {
        self.last_rebalance() > 0 && ledger - self.last_rebalance() < self.cooldown()
    }

    /// Why a rebalance traps before it reads any balance: a ledger number that
    /// lies before one on record.
    pub open spec fn rebalance_abort(self, ledger: u32) -> Option<Abort> {
        if !self.is_initialized() {
            Some(Abort::NotInitialized)
        } else if self.last_rebalance() > 0 && ledger < self.last_rebalance() {
            Some(Abort::Arithmetic)
        } else if !self.is_cooling_down(ledger) && self.quote_price is Some && (
        self.price_data matches Some(data) && ledger < data.ledger) {
            Some(Abort::Arithmetic)
        } else {
            None
        }
    }

    /// The prices that are on record, or why there are none to go by.
    pub open spec fn prices(self) -> Result<(i128, i128), RebalancerAdminError> {
        match (self.quote_price, self.price_data) {
            (Some(quote_usd), Some(data)) => Ok((quote_usd, data.price)),
            _ => Err(RebalancerAdminError::QuotePriceNotSet),
        }
    }

    /// The prices on which a rebalance in `ledger` acts, or why it does not
    /// act: too soon after the last one, without prices, or with an oracle
    /// price that is too old.
    pub open spec fn quotes(self, ledger: u32) -> Result<Quotes, RebalancerAdminError> {
        if self.is_cooling_down(ledger) {
            Err(RebalancerAdminError::CooldownActive)
        } else {
            match self.prices() {
                Err(error) => Err(error),
                Ok((quote_usd, ljoule_usd)) => if ledger - self.price_data->0.ledger
                    > self.max_stale() {
                    Err(RebalancerAdminError::OracleStale)
                } else {
                    Ok(Quotes { ledger, quote_usd, ljoule_usd })
                },
            }
        }
    }
}

/// Worth of the quote token in the pool, times ten thousand.
pub open spec fn quote_worth(quotes: Quotes, reserves: Reserves) -> int {
    reserves.quote * quotes.quote_usd * 10_000
}

/// Worth of the LJOULE in the pool, at the oracle price.
pub open spec fn ljoule_worth(quotes: Quotes, reserves: Reserves) -> int {
    quotes.ljoule_usd * reserves.ljoule
}

/// Amount of LJOULE with which the pool would price LJOULE at the oracle price
/// raised by `bps` basis points, if the product of its reserves stays the same.
pub open spec fn reserve_at(quotes: Quotes, reserves: Reserves, bps: int) -> int {
    sqrt_floor(
        quotient(
            quote_worth(quotes, reserves) * reserves.ljoule,
            quotes.ljoule_usd * (10_000 + bps),
        ),
    )
}

/// Amount of the quote token with which the pool would price LJOULE at the
/// oracle price, if the product of its reserves stays the same.
pub open spec fn reserve_at_peg(quotes: Quotes, reserves: Reserves) -> int {
    let product = reserves.quote * reserves.ljoule;
    sqrt_floor(quotient(product * quotes.ljoule_usd, quotes.quote_usd as int))
}

/// Quote token that is missing from the pool, to the oracle price.
pub open spec fn buyback_gap(quotes: Quotes, reserves: Reserves) -> int {
    reserve_at_peg(quotes, reserves) - reserves.quote
}

/// Whether the amount to spend can be computed.
pub open spec fn buyback_defined(quotes: Quotes, reserves: Reserves) -> bool {
    let product = reserves.quote * reserves.ljoule;
    &&& fits(product)
    &&& fits(product * quotes.ljoule_usd)
    &&& quotes.quote_usd != 0
    &&& fits(quotient(product * quotes.ljoule_usd, quotes.quote_usd as int))
    &&& fits(buyback_gap(quotes, reserves))
}

/// The smaller of two amounts.
pub open spec fn at_most(amount: int, limit: i128) -> i128 {
    if amount > limit {
        limit
    } else {
        amount as i128
    }
}

/// What `amount` of one token is worth in units of another, by their prices.
pub open spec fn worth_in(amount: i128, price: i128, price_of_other: i128) -> int {
    quotient(amount * price, price_of_other as int)
}

/// What a sale of freshly minted LJOULE should bring.
pub open spec fn sale_worth(order: Order) -> int {
    worth_in(order.amount, order.quotes.ljoule_usd, order.quotes.quote_usd)
}

/// What a buyback should bring.
pub open spec fn buyback_worth(order: Order) -> int {
    worth_in(order.amount, order.quotes.quote_usd, order.quotes.ljoule_usd)
}

/// What has to come of a trade that should bring `expected`, if it is not to
/// be reported: 80 percent.
pub open spec fn least_received(expected: int) -> int {
    quotient(expected * 80, 100)
}

/// Whether what a trade should bring can be computed.
pub open spec fn worth_defined(amount: i128, price: i128, price_of_other: i128) -> bool {
    &&& fits(amount * price)
    &&& price_of_other != 0
    &&& fits(worth_in(amount, price, price_of_other))
    &&& fits(worth_in(amount, price, price_of_other) * 80)
}

/// The report on a trade: a warning where it brought less than 80 percent of
/// what it should have, and nothing otherwise.
pub open spec fn slippage_report(received: i128, expected: int) -> Seq<Effect> {
    if received < least_received(expected) {
        seq![
            Effect::Publish {
                event: Event::SlippageWarning {
                    received,
                    expected: expected as i128,
                    minimum: least_received(expected) as i128,
                },
            },
        ]
    } else {
        seq![]
    }
}

impl RebalancerAdmin {
    /// Whether the pool holds too little of either token to be rebalanced.
    pub open spec fn is_too_small(self, reserves: Reserves) -> bool {
        reserves.quote < self.smallest_reserve() || reserves.ljoule < self.smallest_reserve()
    }

    /// On which side of the band around the oracle price the pool's price
    /// lies, or why the pool is left alone.
    pub open spec fn side(self, quotes: Quotes, reserves: Reserves) -> Result<
        Side,
        RebalancerAdminError,
    > {
        if self.is_too_small(reserves) {
            Err(RebalancerAdminError::PoolEmpty)
        } else if quote_worth(quotes, reserves) > ljoule_worth(quotes, reserves) * (10_000
            + self.upper()) {
            Ok(Side::Above)
        } else if quote_worth(quotes, reserves) < ljoule_worth(quotes, reserves) * (10_000
            - self.lower()) {
            Ok(Side::Below)
        } else {
            Err(RebalancerAdminError::NoRebalanceNeeded)
        }
    }

    /// LJOULE that has to be sold to the pool for a price in the middle of the
    /// band's upper half.
    pub open spec fn mint_gap(self, quotes: Quotes, reserves: Reserves) -> int {
        reserve_at(quotes, reserves, (self.upper() / 2) as int) - reserves.ljoule
    }

    /// What a rebalance does on seeing the reserves: mint and go on to sell,
    /// go on to buy back, or nothing, for the given reason.
    pub open spec fn decision(self, quotes: Quotes, reserves: Reserves) -> Result<
        Progress,
        RebalancerAdminError,
    > {
        match self.side(quotes, reserves) {
            Err(error) => Err(error),
            Ok(Side::Above) => if self.mint_gap(quotes, reserves) <= 0 {
                Err(RebalancerAdminError::NoRebalanceNeeded)
            } else {
                let amount = at_most(self.mint_gap(quotes, reserves), self.most_minted());
                Ok(Progress::MintPoolLjoule { order: Order { quotes, reserves, amount } })
            },
            Ok(Side::Below) => if buyback_gap(quotes, reserves) <= 0 {
                Err(RebalancerAdminError::NoRebalanceNeeded)
            } else {
                let amount = at_most(buyback_gap(quotes, reserves), self.most_spent());
                Ok(Progress::OwnQuote { order: Order { quotes, reserves, amount } })
            },
        }
    }

    /// Whether the comparison with the band stays within its type.
    pub open spec fn side_defined(self, quotes: Quotes, reserves: Reserves) -> bool {
        self.is_too_small(reserves) || {
            &&& fits(reserves.quote * quotes.quote_usd)
            &&& fits(quote_worth(quotes, reserves))
            &&& fits(ljoule_worth(quotes, reserves))
            &&& fits(ljoule_worth(quotes, reserves) * (10_000 + self.upper()))
            &&& fits(ljoule_worth(quotes, reserves) * (10_000 - self.lower()))
        }
    }

    /// Whether the amount to mint can be computed and recorded.
    pub open spec fn mint_defined(self, quotes: Quotes, reserves: Reserves) -> bool {
        let gap = self.mint_gap(quotes, reserves);
        &&& quotes.ljoule_usd > 0
        &&& gap > 0 ==> fits(self.minted() + at_most(gap, self.most_minted()))
    }

    /// Whether everything that the decision takes can be computed.
    pub open spec fn decision_defined(self, quotes: Quotes, reserves: Reserves) -> bool {
        self.side_defined(quotes, reserves) && match self.side(quotes, reserves) {
            Err(_) => true,
            Ok(Side::Above) => self.mint_defined(quotes, reserves),
            Ok(Side::Below) => buyback_defined(quotes, reserves),
        }
    }

    /// The balance that the next step of a rebalance of the contract at `this`
    /// needs.
    pub open spec fn next_query(self, this: Address, progress: Progress) -> Option<BalanceQuery> {
        match progress {
            Progress::PoolLjoule { .. } => Some(reserve_queries(self).0),
            Progress::PoolQuote { .. } => Some(reserve_queries(self).1),
            Progress::MintPoolLjoule { .. } => Some(reserve_queries(self).0),
            Progress::MintPoolQuote { .. } => Some(reserve_queries(self).1),
            Progress::OwnQuote { .. } => Some(
                BalanceQuery { token: self.quote_token->0, holder: this },
            ),
            Progress::BuyPoolLjoule { .. } => Some(reserve_queries(self).0),
            Progress::BuyPoolQuote { .. } => Some(reserve_queries(self).1),
            Progress::OwnLjoule { .. } => Some(BalanceQuery { token: self.sac->0, holder: this }),
            Progress::Done => None,
        }
    }

    /// What a sale of freshly minted LJOULE brings.
    pub open spec fn sale_output(self, order: Order, reserves: Reserves) -> int {
        trade_output(self, self.sac->0, order.amount as int, reserves)
    }

    /// What a buyback brings.
    pub open spec fn buyback_output(self, order: Order, reserves: Reserves) -> int {
        trade_output(self, self.quote_token->0, order.amount as int, reserves)
    }

    /// Why a step of a rebalance traps.
    pub open spec fn resume_abort(self, progress: Progress, balance: i128) -> Option<Abort> {
        let defined = match progress {
            Progress::PoolQuote { quotes, ljoule } => self.decision_defined(
                quotes,
                Reserves { ljoule, quote: balance },
            ),
            Progress::MintPoolQuote { order, ljoule } => trade_defined(
                self,
                self.sac->0,
                order.amount as int,
                Reserves { ljoule, quote: balance },
            ) && worth_defined(order.amount, order.quotes.ljoule_usd, order.quotes.quote_usd),
            Progress::BuyPoolQuote { order, ljoule } => trade_defined(
                self,
                self.quote_token->0,
                order.amount as int,
                Reserves { ljoule, quote: balance },
            ) && worth_defined(order.amount, order.quotes.quote_usd, order.quotes.ljoule_usd),
            Progress::OwnLjoule { .. } => balance > 0 ==> fits(self.burned() + balance),
            _ => true,
        };
        if !self.is_initialized() {
            Some(Abort::NotInitialized)
        } else if !defined {
            Some(Abort::Arithmetic)
        } else {
            None
        }
    }

    /// Where a rebalance stands after a step, or why it is refused.
    pub open spec fn next_progress(self, progress: Progress, balance: i128) -> Result<
        Progress,
        RebalancerAdminError,
    > {
        match progress {
            Progress::PoolLjoule { quotes } => Ok(Progress::PoolQuote { quotes, ljoule: balance }),
            Progress::PoolQuote { quotes, ljoule } => self.decision(
                quotes,
                Reserves { ljoule, quote: balance },
            ),
            Progress::MintPoolLjoule { order } => Ok(
                Progress::MintPoolQuote { order, ljoule: balance },
            ),
            Progress::MintPoolQuote { .. } => Ok(Progress::Done),
            Progress::OwnQuote { order } => if balance < order.amount {
                Err(RebalancerAdminError::InsufficientQuote)
            } else {
                Ok(Progress::BuyPoolLjoule { order })
            },
            Progress::BuyPoolLjoule { order } => Ok(
                Progress::BuyPoolQuote { order, ljoule: balance },
            ),
            Progress::BuyPoolQuote { order, ljoule } => Ok(
                Progress::OwnLjoule {
                    order,
                    ljoule_received: self.buyback_output(
                        order,
                        Reserves { ljoule, quote: balance },
                    ) as i128,
                },
            ),
            Progress::OwnLjoule { .. } => Ok(Progress::Done),
            Progress::Done => Ok(Progress::Done),
        }
    }

    /// What a step of a rebalance asks of the ledger.
    pub open spec fn step_effects(
        self,
        this: Address,
        progress: Progress,
        balance: i128,
    ) -> Seq<Effect> {
        match progress {
            Progress::PoolQuote { quotes, ljoule } => match self.decision(
                quotes,
                Reserves { ljoule, quote: balance },
            ) {
                Ok(Progress::MintPoolLjoule { order }) => seq![
                    Effect::Mint { to: this, amount: order.amount },
                    Effect::Store {
                        entry: Entry::TotalMinted((self.minted() + order.amount) as i128),
                    },
                ],
                _ => seq![],
            },
            Progress::MintPoolQuote { order, ljoule } => {
                let received = self.sale_output(order, Reserves { ljoule, quote: balance }) as i128;
                trade_effects(self, this, self.sac->0, order.amount, received) + slippage_report(
                    received,
                    sale_worth(order),
                ) + seq![
                    Effect::Publish {
                        event: Event::RebalanceMint {
                            mint_amount: order.amount,
                            usdc_received: received,
                            reserve_quote: order.reserves.quote,
                            reserve_ljoule: order.reserves.ljoule,
                        },
                    },
                    Effect::Store { entry: Entry::LastRebalanceLedger(order.quotes.ledger) },
                ]
            },
            Progress::BuyPoolQuote { order, ljoule } => {
                let received = self.buyback_output(
                    order,
                    Reserves { ljoule, quote: balance },
                ) as i128;
                trade_effects(self, this, self.quote_token->0, order.amount, received)
                    + slippage_report(received, buyback_worth(order))
            },
            Progress::OwnLjoule { order, ljoule_received } => (if balance > 0 {
                seq![
                    Effect::Clawback { from: this, amount: balance },
                    Effect::Store { entry: Entry::TotalBurned((self.burned() + balance) as i128) },
                ]
            } else {
                seq![]
            }) + seq![
                Effect::Publish {
                    event: Event::RebalanceBuyback {
                        quote_to_spend: order.amount,
                        ljoule_received,
                        reserve_quote: order.reserves.quote,
                        reserve_ljoule: order.reserves.ljoule,
                    },
                },
                Effect::Store { entry: Entry::LastRebalanceLedger(order.quotes.ledger) },
            ],
            _ => seq![],
        }
    }

    /// The storage after a step of a rebalance.
    pub open spec fn step_storage(self, progress: Progress, balance: i128) -> RebalancerAdmin {
        match progress {
            Progress::PoolQuote { quotes, ljoule } => match self.decision(
                quotes,
                Reserves { ljoule, quote: balance },
            ) {
                Ok(Progress::MintPoolLjoule { order }) => RebalancerAdmin {
                    total_minted: Some((self.minted() + order.amount) as i128),
                    ..self
                },
                _ => self,
            },
            Progress::MintPoolQuote { order, .. } => RebalancerAdmin {
                last_rebalance_ledger: Some(order.quotes.ledger),
                ..self
            },
            Progress::OwnLjoule { order, .. } => RebalancerAdmin {
                total_burned: if balance > 0 {
                    Some((self.burned() + balance) as i128)
                } else {
                    self.total_burned
                },
                last_rebalance_ledger: Some(order.quotes.ledger),
                ..self
            },
            _ => self,
        }
    }
}

/// A trade touches neither the storage nor the supply.
proof fn lemma_trade_is_inert(admin: RebalancerAdmin, effects: Seq<Effect>)
    requires
        admin.wf(),
        effects.len() == 2,
        effects[0] is Transfer,
        effects[1] is Swap,
    ensures
        admin.leads_to(admin, effects),
{
    lemma_one_by_one(admin, effects);
}

/// A report on a trade touches neither the storage nor the supply.
proof fn lemma_report_is_inert(
    earlier: RebalancerAdmin,
    later: RebalancerAdmin,
    effects: Seq<Effect>,
    received: i128,
    expected: int,
)
    requires
        earlier.leads_to(later, effects),
    ensures
        earlier.leads_to(later, effects + slippage_report(received, expected)),
{
    broadcast use lemma_replay_push, lemma_units_burned_push, lemma_units_minted_push;

    let report = slippage_report(received, expected);
    if report.len() == 0 {
        assert(effects + report =~= effects);
    } else {
        assert(effects + report =~= effects.push(report[0]));
    }
}

/// Reports a trade that brought `received` of a token for `amount` of another.
fn report_slippage(
    effects: &mut Vec<Effect>,
    received: i128,
    amount: i128,
    price: i128,
    price_of_other: i128,
)
    requires
        worth_defined(amount, price, price_of_other),
    ensures
        final(effects)@ == old(effects)@ + slippage_report(
            received,
            worth_in(amount, price, price_of_other),
        ),
{
    proof {
        lemma_quotient_fits(amount * price, price_of_other as int);
    }
    let expected = amount * price / price_of_other;
    let minimum = expected * 80 / 100;
    if received < minimum {
        effects.push(
            Effect::Publish { event: Event::SlippageWarning { received, expected, minimum } },
        );
    }
}

/// Returns whether what a trade should bring can be computed.
fn worth_is_defined(amount: i128, price: i128, price_of_other: i128) -> (defined: bool)
    ensures
        defined == worth_defined(amount, price, price_of_other),
{
    match amount.checked_mul(price) {
        Some(value) => match checked_quotient(value, price_of_other) {
            Some(expected) => expected.checked_mul(80).is_some(),
            None => false,
        },
        None => false,
    }
}

impl RebalancerAdmin {
    /// Returns why a rebalance traps before it reads any balance, or `None`
    /// where it does not.
    pub fn check_rebalance(&self, ledger: u32) -> (abort: Option<Abort>)
        ensures
            abort == self.rebalance_abort(ledger),
    {
        let last_rebalance = self.last_rebalance_ledger.unwrap_or(0);
        let cooldown_ledgers = self.cooldown_ledgers.unwrap_or(DEFAULT_COOLDOWN_LEDGERS);
        if !self.require_initialized() {
            return Some(Abort::NotInitialized);
        }
        if last_rebalance > 0 {
            if ledger < last_rebalance {
                return Some(Abort::Arithmetic);
            }
            if ledger - last_rebalance < cooldown_ledgers {
                return None;
            }
        }
        match (self.quote_price, self.price_data) {
            (Some(_), Some(data)) => if ledger < data.ledger {
                Some(Abort::Arithmetic)
            } else {
                None
            },
            _ => None,
        }
    }

    /// Returns the USD prices of the quote token and of LJOULE that are on
    /// record.
    pub fn recorded_prices(&self) -> (prices: Result<(i128, i128), RebalancerAdminError>)
        ensures
            prices == self.prices(),
    {
        let quote_usd = match self.quote_price {
            Some(price) => price,
            None => return Err(RebalancerAdminError::QuotePriceNotSet),
        };
        match oracle::get_price_data(self) {
            Some(data) => Ok((quote_usd, data.price)),
            None => Err(RebalancerAdminError::QuotePriceNotSet),
        }
    }

    /// Starts a rebalance in `ledger`: at the oracle's request, if the pause
    /// after the last one is over and the prices are on record and fresh.
    /// Returns what the ledger is to carry out, and then either how far the
    /// rebalance has come or why it is refused.
    pub fn rebalance(&self, ledger: u32) -> (started: (
        Vec<Effect>,
        Result<Progress, RebalancerAdminError>,
    ))
        requires
            self.wf(),
            self.rebalance_abort(ledger) is None,
        ensures
            started.0@ == seq![
                Effect::RequireAuth { address: self.oracle->0 },
                Effect::ExtendTtl { threshold: TTL_THRESHOLD, extend_to: TTL_EXTEND_TO },
            ],
            authorized_by(started.0@, self.oracle->0),
            started.1 == match self.quotes(ledger) {
                Ok(quotes) => Ok::<Progress, RebalancerAdminError>(Progress::PoolLjoule { quotes }),
                Err(error) => Err(error),
            },
            self.leads_to(*self, started.0@),
    {
        let effects = vec![
            Effect::RequireAuth { address: self.require_oracle() },
            Effect::ExtendTtl { threshold: TTL_THRESHOLD, extend_to: TTL_EXTEND_TO },
        ];
        proof {
            lemma_one_by_one(*self, effects@);
        }

        let cooldown_ledgers = self.cooldown_ledgers.unwrap_or(DEFAULT_COOLDOWN_LEDGERS);
        let last_rebalance = self.last_rebalance_ledger.unwrap_or(0);
        if last_rebalance > 0 && ledger - last_rebalance < cooldown_ledgers {
            return (effects, Err(RebalancerAdminError::CooldownActive));
        }
        let quote_usd = match self.quote_price {
            Some(price) => price,
            None => return (effects, Err(RebalancerAdminError::QuotePriceNotSet)),
        };
        let price_data = match oracle::get_price_data(self) {
            Some(data) => data,
            None => return (effects, Err(RebalancerAdminError::QuotePriceNotSet)),
        };
        let max_stale = self.max_stale_ledgers.unwrap_or(DEFAULT_MAX_STALE_LEDGERS);
        if ledger - price_data.ledger > max_stale {
            return (effects, Err(RebalancerAdminError::OracleStale));
        }
        let quotes = Quotes { ledger, quote_usd, ljoule_usd: price_data.price };
        (effects, Ok(Progress::PoolLjoule { quotes }))
    }

    /// Compares the pool's price with the band around the oracle price.
    fn compare_with_band(&self, quotes: Quotes, reserves: Reserves) -> (side: Result<
        Side,
        RebalancerAdminError,
    >)
        requires
            self.side_defined(quotes, reserves),
        ensures
            side == self.side(quotes, reserves),
    {
        let min_reserve = self.min_reserve.unwrap_or(DEFAULT_MIN_RESERVE);
        if reserves.quote < min_reserve || reserves.ljoule < min_reserve {
            return Err(RebalancerAdminError::PoolEmpty);
        }
        let upper_bps = self.upper_bps.unwrap_or(DEFAULT_BAND_BPS);
        let lower_bps = self.lower_bps.unwrap_or(DEFAULT_BAND_BPS);

        let lhs = reserves.quote * quotes.quote_usd * 10_000;
        let rhs_upper = quotes.ljoule_usd * reserves.ljoule * (10_000 + upper_bps as i128);
        let rhs_lower = quotes.ljoule_usd * reserves.ljoule * (10_000 - lower_bps as i128);
        if lhs > rhs_upper {
            Ok(Side::Above)
        } else if lhs < rhs_lower {
            Ok(Side::Below)
        } else {
            Err(RebalancerAdminError::NoRebalanceNeeded)
        }
    }

    /// Returns whether the comparison with the band stays within its type.
    fn band_is_defined(&self, quotes: Quotes, reserves: Reserves) -> (defined: bool)
        ensures
            defined == self.side_defined(quotes, reserves),
    {
        let min_reserve = self.min_reserve.unwrap_or(DEFAULT_MIN_RESERVE);
        if reserves.quote < min_reserve || reserves.ljoule < min_reserve {
            return true;
        }
        let upper_bps = self.upper_bps.unwrap_or(DEFAULT_BAND_BPS);
        let lower_bps = self.lower_bps.unwrap_or(DEFAULT_BAND_BPS);
        let lhs = match reserves.quote.checked_mul(quotes.quote_usd) {
            Some(value) => value.checked_mul(10_000).is_some(),
            None => false,
        };
        let rhs = match quotes.ljoule_usd.checked_mul(reserves.ljoule) {
            Some(value) => value.checked_mul(10_000 + upper_bps as i128).is_some()
                && value.checked_mul(10_000 - lower_bps as i128).is_some(),
            None => false,
        };
        lhs && rhs
    }

    /// Returns how much LJOULE the pool holds once enough of it is sold there
    /// to bring the price down to the middle of the band's upper half.
    fn midpoint_reserve(&self, quotes: Quotes, reserves: Reserves) -> (target: i128)
        requires
            self.wf(),
            self.side_defined(quotes, reserves),
            self.side(quotes, reserves) == Ok::<Side, RebalancerAdminError>(Side::Above),
            quotes.ljoule_usd > 0,
        ensures
            target == reserve_at(quotes, reserves, (self.upper() / 2) as int),
            target >= reserves.ljoule,
    {
        let upper_bps = self.upper_bps.unwrap_or(DEFAULT_BAND_BPS);
        let worth = reserves.quote * quotes.quote_usd * 10_000;
        proof {
            let price = quotes.ljoule_usd * (10_000 + (upper_bps / 2) as int);
            let edge = quotes.ljoule_usd * reserves.ljoule * (10_000 + upper_bps);
            assert(0 < price <= reserves.ljoule * price <= edge) by (nonlinear_arith)
                requires
                    quotes.ljoule_usd > 0,
                    reserves.ljoule > 0,
                    price == quotes.ljoule_usd * (10_000 + (upper_bps / 2) as int),
                    edge == quotes.ljoule_usd * reserves.ljoule * (10_000 + upper_bps),
            ;
        }
        let target_ljoule_price = quotes.ljoule_usd * (10_000 + upper_bps as i128 / 2);
        isqrt_of_product(worth, reserves.ljoule, target_ljoule_price)
    }

    /// Mints LJOULE to the contract at `this`, to sell it through the pool and
    /// push the price down to the middle of the band's upper half.
    fn do_mint_rebalance(&mut self, this: Address, quotes: Quotes, reserves: Reserves) -> (step: (
        Vec<Effect>,
        Result<Progress, RebalancerAdminError>,
    ))
        requires
            old(self).wf(),
            old(self).is_initialized(),
            old(self).side_defined(quotes, reserves),
            old(self).side(quotes, reserves) == Ok::<Side, RebalancerAdminError>(Side::Above),
            old(self).mint_defined(quotes, reserves),
        ensures
            step.0@ == old(self).step_effects(
                this,
                Progress::PoolQuote { quotes, ljoule: reserves.ljoule },
                reserves.quote,
            ),
            step.1 == old(self).decision(quotes, reserves),
            *final(self) == old(self).step_storage(
                Progress::PoolQuote { quotes, ljoule: reserves.ljoule },
                reserves.quote,
            ),
            old(self).leads_to(*final(self), step.0@),
    {
        assert(reserves == (Reserves { ljoule: reserves.ljoule, quote: reserves.quote }));
        let max_mint = self.max_mint.unwrap_or(DEFAULT_MAX_MINT);
        let mut mint_amount: i128 = self.midpoint_reserve(quotes, reserves) - reserves.ljoule;
        if mint_amount <= 0 {
            let effects: Vec<Effect> = Vec::new();
            return (effects, Err(RebalancerAdminError::NoRebalanceNeeded));
        }
        if mint_amount > max_mint {
            mint_amount = max_mint;
        }
        let entry = Entry::TotalMinted(self.total_minted() + mint_amount);
        self.store(entry);
        let effects = vec![
            Effect::Mint { to: this, amount: mint_amount },
            Effect::Store { entry },
        ];
        proof {
            lemma_one_by_one(*old(self), effects@);
        }
        let order = Order { quotes, reserves, amount: mint_amount };
        (effects, Ok(Progress::MintPoolLjoule { order }))
    }

    /// Returns whether the amount to mint can be computed and recorded.
    fn mint_is_defined(&self, quotes: Quotes, reserves: Reserves) -> (defined: bool)
        requires
            self.wf(),
            self.side_defined(quotes, reserves),
            self.side(quotes, reserves) == Ok::<Side, RebalancerAdminError>(Side::Above),
        ensures
            defined == self.mint_defined(quotes, reserves),
    {
        if quotes.ljoule_usd <= 0 {
            return false;
        }
        let max_mint = self.max_mint.unwrap_or(DEFAULT_MAX_MINT);
        let gap: i128 = self.midpoint_reserve(quotes, reserves) - reserves.ljoule;
        let amount = if gap > max_mint {
            max_mint
        } else {
            gap
        };
        gap <= 0 || self.total_minted().checked_add(amount).is_some()
    }

    /// Settles on how much of the quote token to spend on LJOULE, to push the
    /// price up.
    fn do_buyback_rebalance(&self, quotes: Quotes, reserves: Reserves) -> (progress: Result<
        Progress,
        RebalancerAdminError,
    >)
        requires
            self.side(quotes, reserves) == Ok::<Side, RebalancerAdminError>(Side::Below),
            buyback_defined(quotes, reserves),
        ensures
            progress == self.decision(quotes, reserves),
    {
        let max_quote_spend = self.max_quote_spend.unwrap_or(DEFAULT_MAX_QUOTE_SPEND);
        let k = reserves.quote * reserves.ljoule;
        proof {
            lemma_quotient_fits(k * quotes.ljoule_usd, quotes.quote_usd as int);
        }
        let target_reserve_quote = isqrt(k * quotes.ljoule_usd / quotes.quote_usd);
        let mut quote_to_spend: i128 = target_reserve_quote - reserves.quote;
        if quote_to_spend <= 0 {
            return Err(RebalancerAdminError::NoRebalanceNeeded);
        }
        if quote_to_spend > max_quote_spend {
            quote_to_spend = max_quote_spend;
        }
        let order = Order { quotes, reserves, amount: quote_to_spend };
        Ok(Progress::OwnQuote { order })
    }

    /// Returns whether the amount to spend can be computed.
    fn buyback_is_defined(&self, quotes: Quotes, reserves: Reserves) -> (defined: bool)
        ensures
            defined == buyback_defined(quotes, reserves),
    {
        let value = match reserves.quote.checked_mul(reserves.ljoule) {
            Some(k) => match k.checked_mul(quotes.ljoule_usd) {
                Some(value) => value,
                None => return false,
            },
            None => return false,
        };
        match checked_quotient(value, quotes.quote_usd) {
            Some(square) => isqrt(square).checked_sub(reserves.quote).is_some(),
            None => false,
        }
    }

    /// Sells freshly minted LJOULE through the pool and ends the rebalance.
    fn sell_minted(&mut self, this: Address, order: Order, reserves: Reserves) -> (effects: Vec<
        Effect,
    >)
        requires
            old(self).wf(),
            old(self).resume_abort(
                Progress::MintPoolQuote { order, ljoule: reserves.ljoule },
                reserves.quote,
            ) is None,
        ensures
            effects@ == old(self).step_effects(
                this,
                Progress::MintPoolQuote { order, ljoule: reserves.ljoule },
                reserves.quote,
            ),
            *final(self) == old(self).step_storage(
                Progress::MintPoolQuote { order, ljoule: reserves.ljoule },
                reserves.quote,
            ),
            old(self).leads_to(*final(self), effects@),
    {
        assert(reserves == (Reserves { ljoule: reserves.ljoule, quote: reserves.quote }));
        let sac_address = self.sac.unwrap();
        let (mut effects, usdc_received) = pool_swap(
            self,
            this,
            sac_address,
            order.amount,
            reserves,
        );
        let ghost traded = effects@;
        report_slippage(
            &mut effects,
            usdc_received,
            order.amount,
            order.quotes.ljoule_usd,
            order.quotes.quote_usd,
        );
        proof {
            broadcast use lemma_replay_push, lemma_units_burned_push, lemma_units_minted_push;

            lemma_trade_is_inert(*old(self), traded);
            lemma_report_is_inert(
                *old(self),
                *old(self),
                traded,
                usdc_received,
                sale_worth(order),
            );
        }
        effects.push(
            Effect::Publish {
                event: Event::RebalanceMint {
                    mint_amount: order.amount,
                    usdc_received,
                    reserve_quote: order.reserves.quote,
                    reserve_ljoule: order.reserves.ljoule,
                },
            },
        );
        let entry = Entry::LastRebalanceLedger(order.quotes.ledger);
        self.store(entry);
        effects.push(Effect::Store { entry });
        effects
    }

    /// Buys LJOULE back through the pool. Returns what the ledger is to carry
    /// out, and how much LJOULE it brings.
    fn buy_back(&self, this: Address, order: Order, reserves: Reserves) -> (bought: (
        Vec<Effect>,
        i128,
    ))
        requires
            self.wf(),
            self.resume_abort(
                Progress::BuyPoolQuote { order, ljoule: reserves.ljoule },
                reserves.quote,
            ) is None,
        ensures
            bought.0@ == self.step_effects(
                this,
                Progress::BuyPoolQuote { order, ljoule: reserves.ljoule },
                reserves.quote,
            ),
            bought.1 == self.buyback_output(order, reserves),
            self.leads_to(*self, bought.0@),
    {
        assert(reserves == (Reserves { ljoule: reserves.ljoule, quote: reserves.quote }));
        let quote_addr = self.quote_token.unwrap();
        let (mut effects, ljoule_received) = pool_swap(
            self,
            this,
            quote_addr,
            order.amount,
            reserves,
        );
        proof {
            lemma_trade_is_inert(*self, effects@);
            lemma_report_is_inert(
                *self,
                *self,
                effects@,
                ljoule_received,
                buyback_worth(order),
            );
        }
        report_slippage(
            &mut effects,
            ljoule_received,
            order.amount,
            order.quotes.quote_usd,
            order.quotes.ljoule_usd,
        );
        (effects, ljoule_received)
    }

    /// Burns all LJOULE that the contract at `this` holds and ends the
    /// rebalance.
    fn burn_bought(
        &mut self,
        this: Address,
        order: Order,
        ljoule_received: i128,
        ljoule_balance: i128,
    ) -> (effects: Vec<Effect>)
        requires
            old(self).wf(),
            old(self).resume_abort(
                Progress::OwnLjoule { order, ljoule_received },
                ljoule_balance,
            ) is None,
        ensures
            effects@ == old(self).step_effects(
                this,
                Progress::OwnLjoule { order, ljoule_received },
                ljoule_balance,
            ),
            *final(self) == old(self).step_storage(
                Progress::OwnLjoule { order, ljoule_received },
                ljoule_balance,
            ),
            old(self).leads_to(*final(self), effects@),
    {
        broadcast use lemma_replay_push, lemma_units_burned_push, lemma_units_minted_push;

        let mut effects: Vec<Effect> = Vec::new();
        if ljoule_balance > 0 {
            effects.push(Effect::Clawback { from: this, amount: ljoule_balance });
            let entry = Entry::TotalBurned(self.total_burned() + ljoule_balance);
            self.store(entry);
            effects.push(Effect::Store { entry });
        }
        effects.push(
            Effect::Publish {
                event: Event::RebalanceBuyback {
                    quote_to_spend: order.amount,
                    ljoule_received,
                    reserve_quote: order.reserves.quote,
                    reserve_ljoule: order.reserves.ljoule,
                },
            },
        );
        let entry = Entry::LastRebalanceLedger(order.quotes.ledger);
        self.store(entry);
        effects.push(Effect::Store { entry });
        effects
    }

    /// Returns the balance that the next step of a rebalance of the contract
    /// at `this` needs, or `None` where the rebalance is done.
    pub fn query(&self, this: Address, progress: &Progress) -> (query: Option<BalanceQuery>)
        requires
            self.wf(),
            self.is_initialized(),
        ensures
            query == self.next_query(this, *progress),
    {
        let (pool_ljoule, pool_quote) = get_pool_reserves(self);
        match progress {
            Progress::PoolLjoule { .. } => Some(pool_ljoule),
            Progress::PoolQuote { .. } => Some(pool_quote),
            Progress::MintPoolLjoule { .. } => Some(pool_ljoule),
            Progress::MintPoolQuote { .. } => Some(pool_quote),
            Progress::OwnQuote { .. } => Some(
                BalanceQuery { token: self.quote_token.unwrap(), holder: this },
            ),
            Progress::BuyPoolLjoule { .. } => Some(pool_ljoule),
            Progress::BuyPoolQuote { .. } => Some(pool_quote),
            Progress::OwnLjoule { .. } => Some(
                BalanceQuery { token: self.sac.unwrap(), holder: this },
            ),
            Progress::Done => None,
        }
    }

    /// Returns why a step of a rebalance traps, or `None` where it does not.
    pub fn check_resume(&self, progress: Progress, balance: i128) -> (abort: Option<Abort>)
        requires
            self.wf(),
        ensures
            abort == self.resume_abort(progress, balance),
    {
        if !self.require_initialized() {
            return Some(Abort::NotInitialized);
        }
        let defined = match progress {
            Progress::PoolQuote { quotes, ljoule } => {
                let reserves = Reserves { ljoule, quote: balance };
                self.band_is_defined(quotes, reserves) && match self.compare_with_band(
                    quotes,
                    reserves,
                ) {
                    Err(_) => true,
                    Ok(Side::Above) => self.mint_is_defined(quotes, reserves),
                    Ok(Side::Below) => self.buyback_is_defined(quotes, reserves),
                }
            },
            Progress::MintPoolQuote { order, ljoule } => trade_is_defined(
                self,
                self.sac.unwrap(),
                order.amount,
                Reserves { ljoule, quote: balance },
            ) && worth_is_defined(order.amount, order.quotes.ljoule_usd, order.quotes.quote_usd),
            Progress::BuyPoolQuote { order, ljoule } => trade_is_defined(
                self,
                self.quote_token.unwrap(),
                order.amount,
                Reserves { ljoule, quote: balance },
            ) && worth_is_defined(order.amount, order.quotes.quote_usd, order.quotes.ljoule_usd),
            Progress::OwnLjoule { .. } => balance <= 0 || self.total_burned().checked_add(
                balance,
            ).is_some(),
            _ => true,
        };
        if defined {
            None
        } else {
            Some(Abort::Arithmetic)
        }
    }

    /// Goes on with a rebalance of the contract at `this`, given the balance
    /// that it was waiting for. Returns what the ledger is to carry out, and
    /// then either how far the rebalance has come or why it is refused.
    pub fn resume(&mut self, this: Address, progress: Progress, balance: i128) -> (step: (
        Vec<Effect>,
        Result<Progress, RebalancerAdminError>,
    ))
        requires
            old(self).wf(),
            old(self).resume_abort(progress, balance) is None,
        ensures
            step.0@ == old(self).step_effects(this, progress, balance),
            step.1 == old(self).next_progress(progress, balance),
            *final(self) == old(self).step_storage(progress, balance),
            old(self).leads_to(*final(self), step.0@),
            step.1 is Err ==> step.0@.len() == 0 && *final(self) == *old(self),
    {
        let nothing: Vec<Effect> = Vec::new();
        match progress {
            Progress::PoolLjoule { quotes } => (
                nothing,
                Ok(Progress::PoolQuote { quotes, ljoule: balance }),
            ),
            Progress::PoolQuote { quotes, ljoule } => {
                let reserves = Reserves { ljoule, quote: balance };
                match self.compare_with_band(quotes, reserves) {
                    Err(error) => (nothing, Err(error)),
                    Ok(Side::Above) => self.do_mint_rebalance(this, quotes, reserves),
                    Ok(Side::Below) => (nothing, self.do_buyback_rebalance(quotes, reserves)),
                }
            },
            Progress::MintPoolLjoule { order } => (
                nothing,
                Ok(Progress::MintPoolQuote { order, ljoule: balance }),
            ),
            Progress::MintPoolQuote { order, ljoule } => (
                self.sell_minted(this, order, Reserves { ljoule, quote: balance }),
                Ok(Progress::Done),
            ),
            Progress::OwnQuote { order } => if balance < order.amount {
                (nothing, Err(RebalancerAdminError::InsufficientQuote))
            } else {
                (nothing, Ok(Progress::BuyPoolLjoule { order }))
            },
            Progress::BuyPoolLjoule { order } => (
                nothing,
                Ok(Progress::BuyPoolQuote { order, ljoule: balance }),
            ),
            Progress::BuyPoolQuote { order, ljoule } => {
                let (effects, ljoule_received) = self.buy_back(
                    this,
                    order,
                    Reserves { ljoule, quote: balance },
                );
                (effects, Ok(Progress::OwnLjoule { order, ljoule_received }))
            },
            Progress::OwnLjoule { order, ljoule_received } => (
                self.burn_bought(this, order, ljoule_received, balance),
                Ok(Progress::Done),
            ),
            Progress::Done => (nothing, Ok(Progress::Done)),
        }
    }
}

} // verus!
