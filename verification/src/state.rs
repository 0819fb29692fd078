//! The contract's instance storage.

use crate::address::Address;
use crate::effects::{units_burned, units_minted, Effect};
use crate::oracle::PriceData;
use vstd::prelude::*;

verus! {

/// Allowed age of the oracle price, in ledgers, until it is configured (about
/// 83 minutes).
pub const DEFAULT_MAX_STALE_LEDGERS: u32 = 1000;

/// Pause between two rebalances, in ledgers, until it is configured (about a
/// minute).
pub const DEFAULT_COOLDOWN_LEDGERS: u32 = 12;

/// Smallest reserve of either token with which the pool is rebalanced, until
/// it is configured (one token of 7 decimals).
pub const DEFAULT_MIN_RESERVE: i128 = 10_000_000;

/// Width of the price band on either side of the oracle price, in basis
/// points, until it is configured.
pub const DEFAULT_BAND_BPS: u32 = 500;

/// Most that one rebalance mints, until it is configured.
pub const DEFAULT_MAX_MINT: i128 = 100_000_000_000;

/// Most that one rebalance spends, until it is configured.
pub const DEFAULT_MAX_QUOTE_SPEND: i128 = 50_000_000_000;

/// Storage keys.
#[derive(Clone, Copy, Debug, PartialEq, Eq, Structural)]
pub enum DataKey {
    Pool,
    QuoteToken,
    LjouleIsToken0,
    Oracle,
    Owner,
    PriceData,
    QuotePrice,
    PriceFloor,
    PriceCeiling,
    MintCap,
    UpperBps,
    LowerBps,
    MaxMint,
    MaxQuoteSpend,
    MaxStaleLedgers,
    CooldownLedgers,
    LastRebalanceLedger,
    MinReserve,
    TotalMinted,
    TotalBurned,
    Initialized,
}

/// A value together with the key under which it is stored.
#[derive(Clone, Copy, Debug, PartialEq, Eq)]
pub enum Entry {
    Pool(Address),
    QuoteToken(Address),
    LjouleIsToken0(bool),
    Oracle(Address),
    Owner(Address),
    PriceData(PriceData),
    QuotePrice(i128),
    PriceFloor(i128),
    PriceCeiling(i128),
    MintCap(i128),
    UpperBps(u32),
    LowerBps(u32),
    MaxMint(i128),
    MaxQuoteSpend(i128),
    MaxStaleLedgers(u32),
    CooldownLedgers(u32),
    LastRebalanceLedger(u32),
    MinReserve(i128),
    TotalMinted(i128),
    TotalBurned(i128),
    Initialized(bool),
}

impl Entry {
    /// The key under which the value is stored.
    pub open spec fn key_spec(self) -> DataKey {
        match self {
            Entry::Pool(_) => DataKey::Pool,
            Entry::QuoteToken(_) => DataKey::QuoteToken,
            Entry::LjouleIsToken0(_) => DataKey::LjouleIsToken0,
            Entry::Oracle(_) => DataKey::Oracle,
            Entry::Owner(_) => DataKey::Owner,
            Entry::PriceData(_) => DataKey::PriceData,
            Entry::QuotePrice(_) => DataKey::QuotePrice,
            Entry::PriceFloor(_) => DataKey::PriceFloor,
            Entry::PriceCeiling(_) => DataKey::PriceCeiling,
            Entry::MintCap(_) => DataKey::MintCap,
            Entry::UpperBps(_) => DataKey::UpperBps,
            Entry::LowerBps(_) => DataKey::LowerBps,
            Entry::MaxMint(_) => DataKey::MaxMint,
            Entry::MaxQuoteSpend(_) => DataKey::MaxQuoteSpend,
            Entry::MaxStaleLedgers(_) => DataKey::MaxStaleLedgers,
            Entry::CooldownLedgers(_) => DataKey::CooldownLedgers,
            Entry::LastRebalanceLedger(_) => DataKey::LastRebalanceLedger,
            Entry::MinReserve(_) => DataKey::MinReserve,
            Entry::TotalMinted(_) => DataKey::TotalMinted,
            Entry::TotalBurned(_) => DataKey::TotalBurned,
            Entry::Initialized(_) => DataKey::Initialized,
        }
    }

    /// Returns the key under which the value is stored.
    pub fn key(&self) -> (key: DataKey)
        ensures
            key == self.key_spec(),
    {
        match self {
            Entry::Pool(_) => DataKey::Pool,
            Entry::QuoteToken(_) => DataKey::QuoteToken,
            Entry::LjouleIsToken0(_) => DataKey::LjouleIsToken0,
            Entry::Oracle(_) => DataKey::Oracle,
            Entry::Owner(_) => DataKey::Owner,
            Entry::PriceData(_) => DataKey::PriceData,
            Entry::QuotePrice(_) => DataKey::QuotePrice,
            Entry::PriceFloor(_) => DataKey::PriceFloor,
            Entry::PriceCeiling(_) => DataKey::PriceCeiling,
            Entry::MintCap(_) => DataKey::MintCap,
            Entry::UpperBps(_) => DataKey::UpperBps,
            Entry::LowerBps(_) => DataKey::LowerBps,
            Entry::MaxMint(_) => DataKey::MaxMint,
            Entry::MaxQuoteSpend(_) => DataKey::MaxQuoteSpend,
            Entry::MaxStaleLedgers(_) => DataKey::MaxStaleLedgers,
            Entry::CooldownLedgers(_) => DataKey::CooldownLedgers,
            Entry::LastRebalanceLedger(_) => DataKey::LastRebalanceLedger,
            Entry::MinReserve(_) => DataKey::MinReserve,
            Entry::TotalMinted(_) => DataKey::TotalMinted,
            Entry::TotalBurned(_) => DataKey::TotalBurned,
            Entry::Initialized(_) => DataKey::Initialized,
        }
    }
}

/// The contract, as what its instance storage holds: for every key the value
/// that is stored under it, if there is one, and the address of the
/// administered token.
#[derive(Clone, Copy, Debug, PartialEq, Eq)]
pub struct RebalancerAdmin {
    /// Address of the administered token, the Stellar Asset Contract (SAC) of
    /// LumenJoule.
    pub sac: Option<Address>,
    pub pool: Option<Address>,
    pub quote_token: Option<Address>,
    pub ljoule_is_token0: Option<bool>,
    pub oracle: Option<Address>,
    pub owner: Option<Address>,
    pub price_data: Option<PriceData>,
    pub quote_price: Option<i128>,
    pub price_floor: Option<i128>,
    pub price_ceiling: Option<i128>,
    pub mint_cap: Option<i128>,
    pub upper_bps: Option<u32>,
    pub lower_bps: Option<u32>,
    pub max_mint: Option<i128>,
    pub max_quote_spend: Option<i128>,
    pub max_stale_ledgers: Option<u32>,
    pub cooldown_ledgers: Option<u32>,
    pub last_rebalance_ledger: Option<u32>,
    pub min_reserve: Option<i128>,
    pub total_minted: Option<i128>,
    pub total_burned: Option<i128>,
    pub initialized: Option<bool>,
}

/// The value of an entry, or `default` where it was never stored.
pub open spec fn or_default<T>(stored: Option<T>, default: T) -> T {
    match stored {
        Some(value) => value,
        None => default,
    }
}

/// A stored value as the entry that holds it.
pub open spec fn tagged<T>(stored: Option<T>, tag: spec_fn(T) -> Entry) -> Option<Entry> {
    match stored {
        Some(value) => Some(tag(value)),
        None => None,
    }
}

/// Whether an entry, if it is stored, holds a positive amount.
pub open spec fn positive_if_stored(stored: Option<i128>) -> bool {
    stored matches Some(value) ==> value > 0
}

/// Whether an entry, if it is stored, holds a band width above zero and below
/// one hundred percent.
pub open spec fn band_if_stored(stored: Option<u32>) -> bool {
    stored matches Some(bps) ==> 0 < bps < 10_000
}

impl RebalancerAdmin {
    /// Whether the contract was set up.
    pub open spec fn is_initialized(self) -> bool {
        self.initialized == Some(true)
    }

    /// What holds of the storage at all times: once the contract is set up it
    /// knows every party it deals with, and every stored setting is within the
    /// limits that are enforced when it is set.
    pub open spec fn wf(self) -> bool {
        &&& self.is_initialized() ==> {
            &&& self.sac is Some
            &&& self.pool is Some
            &&& self.quote_token is Some
            &&& self.oracle is Some
            &&& self.owner is Some
        }
        &&& self.price_data matches Some(data) ==> data.price > 0
        &&& positive_if_stored(self.quote_price)
        &&& positive_if_stored(self.price_floor)
        &&& self.price_floor is Some == self.price_ceiling is Some
        &&& (self.price_floor matches Some(floor) ==> floor < self.price_ceiling->0)
        &&& positive_if_stored(self.mint_cap)
        &&& band_if_stored(self.upper_bps)
        &&& band_if_stored(self.lower_bps)
        &&& positive_if_stored(self.max_mint)
        &&& positive_if_stored(self.max_quote_spend)
        &&& positive_if_stored(self.min_reserve)
        &&& (self.max_stale_ledgers matches Some(ledgers) ==> ledgers > 0)
    }

    /// The storage in which nothing is stored.
    pub open spec fn blank() -> RebalancerAdmin {
        RebalancerAdmin {
            sac: None,
            pool: None,
            quote_token: None,
            ljoule_is_token0: None,
            oracle: None,
            owner: None,
            price_data: None,
            quote_price: None,
            price_floor: None,
            price_ceiling: None,
            mint_cap: None,
            upper_bps: None,
            lower_bps: None,
            max_mint: None,
            max_quote_spend: None,
            max_stale_ledgers: None,
            cooldown_ledgers: None,
            last_rebalance_ledger: None,
            min_reserve: None,
            total_minted: None,
            total_burned: None,
            initialized: None,
        }
    }

    /// The entry stored under `key`, if there is one.
    pub open spec fn entry(self, key: DataKey) -> Option<Entry> {
        match key {
            DataKey::Pool => tagged(self.pool, |v| Entry::Pool(v)),
            DataKey::QuoteToken => tagged(self.quote_token, |v| Entry::QuoteToken(v)),
            DataKey::LjouleIsToken0 => tagged(self.ljoule_is_token0, |v| Entry::LjouleIsToken0(v)),
            DataKey::Oracle => tagged(self.oracle, |v| Entry::Oracle(v)),
            DataKey::Owner => tagged(self.owner, |v| Entry::Owner(v)),
            DataKey::PriceData => tagged(self.price_data, |v| Entry::PriceData(v)),
            DataKey::QuotePrice => tagged(self.quote_price, |v| Entry::QuotePrice(v)),
            DataKey::PriceFloor => tagged(self.price_floor, |v| Entry::PriceFloor(v)),
            DataKey::PriceCeiling => tagged(self.price_ceiling, |v| Entry::PriceCeiling(v)),
            DataKey::MintCap => tagged(self.mint_cap, |v| Entry::MintCap(v)),
            DataKey::UpperBps => tagged(self.upper_bps, |v| Entry::UpperBps(v)),
            DataKey::LowerBps => tagged(self.lower_bps, |v| Entry::LowerBps(v)),
            DataKey::MaxMint => tagged(self.max_mint, |v| Entry::MaxMint(v)),
            DataKey::MaxQuoteSpend => tagged(self.max_quote_spend, |v| Entry::MaxQuoteSpend(v)),
            DataKey::MaxStaleLedgers => tagged(
                self.max_stale_ledgers,
                |v| Entry::MaxStaleLedgers(v),
            ),
            DataKey::CooldownLedgers => tagged(
                self.cooldown_ledgers,
                |v| Entry::CooldownLedgers(v),
            ),
            DataKey::LastRebalanceLedger => tagged(
                self.last_rebalance_ledger,
                |v| Entry::LastRebalanceLedger(v),
            ),
            DataKey::MinReserve => tagged(self.min_reserve, |v| Entry::MinReserve(v)),
            DataKey::TotalMinted => tagged(self.total_minted, |v| Entry::TotalMinted(v)),
            DataKey::TotalBurned => tagged(self.total_burned, |v| Entry::TotalBurned(v)),
            DataKey::Initialized => tagged(self.initialized, |v| Entry::Initialized(v)),
        }
    }

    /// The storage after `entry` was written.
    pub open spec fn with_entry(self, entry: Entry) -> RebalancerAdmin {
        match entry {
            Entry::Pool(v) => RebalancerAdmin { pool: Some(v), ..self },
            Entry::QuoteToken(v) => RebalancerAdmin { quote_token: Some(v), ..self },
            Entry::LjouleIsToken0(v) => RebalancerAdmin { ljoule_is_token0: Some(v), ..self },
            Entry::Oracle(v) => RebalancerAdmin { oracle: Some(v), ..self },
            Entry::Owner(v) => RebalancerAdmin { owner: Some(v), ..self },
            Entry::PriceData(v) => RebalancerAdmin { price_data: Some(v), ..self },
            Entry::QuotePrice(v) => RebalancerAdmin { quote_price: Some(v), ..self },
            Entry::PriceFloor(v) => RebalancerAdmin { price_floor: Some(v), ..self },
            Entry::PriceCeiling(v) => RebalancerAdmin { price_ceiling: Some(v), ..self },
            Entry::MintCap(v) => RebalancerAdmin { mint_cap: Some(v), ..self },
            Entry::UpperBps(v) => RebalancerAdmin { upper_bps: Some(v), ..self },
            Entry::LowerBps(v) => RebalancerAdmin { lower_bps: Some(v), ..self },
            Entry::MaxMint(v) => RebalancerAdmin { max_mint: Some(v), ..self },
            Entry::MaxQuoteSpend(v) => RebalancerAdmin { max_quote_spend: Some(v), ..self },
            Entry::MaxStaleLedgers(v) => RebalancerAdmin { max_stale_ledgers: Some(v), ..self },
            Entry::CooldownLedgers(v) => RebalancerAdmin { cooldown_ledgers: Some(v), ..self },
            Entry::LastRebalanceLedger(v) => RebalancerAdmin {
                last_rebalance_ledger: Some(v),
                ..self
            },
            Entry::MinReserve(v) => RebalancerAdmin { min_reserve: Some(v), ..self },
            Entry::TotalMinted(v) => RebalancerAdmin { total_minted: Some(v), ..self },
            Entry::TotalBurned(v) => RebalancerAdmin { total_burned: Some(v), ..self },
            Entry::Initialized(v) => RebalancerAdmin { initialized: Some(v), ..self },
        }
    }

    /// The storage after the ledger carried out `effect`.
    pub open spec fn after(self, effect: Effect) -> RebalancerAdmin {
        match effect {
            Effect::Store { entry } => self.with_entry(entry),
            Effect::SetSacAddress { sac } => RebalancerAdmin { sac: Some(sac), ..self },
            _ => self,
        }
    }

    /// The storage after the ledger carried out `effects` in order.
    pub open spec fn replay(self, effects: Seq<Effect>) -> RebalancerAdmin
        decreases effects.len(),
    {
        if effects.len() == 0 {
            self
        } else {
            self.replay(effects.drop_last()).after(effects.last())
        }
    }

    /// Returns a storage in which nothing is stored yet.
    pub fn new() -> (admin: RebalancerAdmin)
        ensures
            admin == RebalancerAdmin::blank(),
            admin.wf(),
    {
        RebalancerAdmin {
            sac: None,
            pool: None,
            quote_token: None,
            ljoule_is_token0: None,
            oracle: None,
            owner: None,
            price_data: None,
            quote_price: None,
            price_floor: None,
            price_ceiling: None,
            mint_cap: None,
            upper_bps: None,
            lower_bps: None,
            max_mint: None,
            max_quote_spend: None,
            max_stale_ledgers: None,
            cooldown_ledgers: None,
            last_rebalance_ledger: None,
            min_reserve: None,
            total_minted: None,
            total_burned: None,
            initialized: None,
        }
    }

    /// Writes an entry.
    pub fn store(&mut self, entry: Entry)
        ensures
            *final(self) == old(self).with_entry(entry),
    {
        match entry {
            Entry::Pool(v) => self.pool = Some(v),
            Entry::QuoteToken(v) => self.quote_token = Some(v),
            Entry::LjouleIsToken0(v) => self.ljoule_is_token0 = Some(v),
            Entry::Oracle(v) => self.oracle = Some(v),
            Entry::Owner(v) => self.owner = Some(v),
            Entry::PriceData(v) => self.price_data = Some(v),
            Entry::QuotePrice(v) => self.quote_price = Some(v),
            Entry::PriceFloor(v) => self.price_floor = Some(v),
            Entry::PriceCeiling(v) => self.price_ceiling = Some(v),
            Entry::MintCap(v) => self.mint_cap = Some(v),
            Entry::UpperBps(v) => self.upper_bps = Some(v),
            Entry::LowerBps(v) => self.lower_bps = Some(v),
            Entry::MaxMint(v) => self.max_mint = Some(v),
            Entry::MaxQuoteSpend(v) => self.max_quote_spend = Some(v),
            Entry::MaxStaleLedgers(v) => self.max_stale_ledgers = Some(v),
            Entry::CooldownLedgers(v) => self.cooldown_ledgers = Some(v),
            Entry::LastRebalanceLedger(v) => self.last_rebalance_ledger = Some(v),
            Entry::MinReserve(v) => self.min_reserve = Some(v),
            Entry::TotalMinted(v) => self.total_minted = Some(v),
            Entry::TotalBurned(v) => self.total_burned = Some(v),
            Entry::Initialized(v) => self.initialized = Some(v),
        }
    }

    /// Returns whether the storage is one that the contract can have written.
    pub fn is_well_formed(&self) -> (ok: bool)
        ensures
            ok == self.wf(),
    {
        let parties = !self.require_initialized() || (self.sac.is_some() && self.pool.is_some()
            && self.quote_token.is_some() && self.oracle.is_some() && self.owner.is_some());
        let price = match self.price_data {
            Some(data) => data.price > 0,
            None => true,
        };
        let bounds = match (self.price_floor, self.price_ceiling) {
            (Some(floor), Some(ceiling)) => floor > 0 && floor < ceiling,
            (None, None) => true,
            _ => false,
        };
        let stale = match self.max_stale_ledgers {
            Some(ledgers) => ledgers > 0,
            None => true,
        };
        parties && price && bounds && stale && positive_or_absent(self.quote_price)
            && positive_or_absent(self.mint_cap) && band_or_absent(self.upper_bps)
            && band_or_absent(self.lower_bps) && positive_or_absent(self.max_mint)
            && positive_or_absent(self.max_quote_spend) && positive_or_absent(self.min_reserve)
    }

    /// Returns whether the contract was set up.
    pub fn require_initialized(&self) -> (ok: bool)
        ensures
            ok == self.is_initialized(),
    {
        self.initialized.unwrap_or(false)
    }
}

/// Effects carried out one at a time.
pub broadcast proof fn lemma_replay_push(
    admin: RebalancerAdmin,
    effects: Seq<Effect>,
    effect: Effect,
)
    ensures
        #[trigger] admin.replay(effects.push(effect)) == admin.replay(effects).after(effect),
{
    assert(effects.push(effect).drop_last() =~= effects);
}

/// What effects do to the storage and to the supply, followed one effect at a
/// time from the last to the first.
pub proof fn lemma_one_by_one(admin: RebalancerAdmin, effects: Seq<Effect>)
    ensures
        effects.take(effects.len() as int) == effects,
        effects.take(0) == Seq::<Effect>::empty(),
        forall|n: int|
            #![trigger admin.replay(effects.take(n))]
            0 < n <= effects.len() ==> admin.replay(effects.take(n)) == admin.replay(
                effects.take(n - 1),
            ).after(effects[n - 1]),
        forall|n: int|
            #![trigger units_minted(effects.take(n))]
            0 < n <= effects.len() ==> units_minted(effects.take(n)) == units_minted(
                effects.take(n - 1),
            ) + effects[n - 1].minted(),
        forall|n: int|
            #![trigger units_burned(effects.take(n))]
            0 < n <= effects.len() ==> units_burned(effects.take(n)) == units_burned(
                effects.take(n - 1),
            ) + effects[n - 1].burned(),
{
    assert forall|n: int|
        #![trigger admin.replay(effects.take(n))]
        0 < n <= effects.len() implies admin.replay(effects.take(n)) == admin.replay(
        effects.take(n - 1),
    ).after(effects[n - 1]) by {
        assert(effects.take(n).drop_last() == effects.take(n - 1));
    }
    assert forall|n: int|
        #![trigger units_minted(effects.take(n))]
        0 < n <= effects.len() implies units_minted(effects.take(n)) == units_minted(
        effects.take(n - 1),
    ) + effects[n - 1].minted() by {
        assert(effects.take(n).drop_last() == effects.take(n - 1));
    }
    assert forall|n: int|
        #![trigger units_burned(effects.take(n))]
        0 < n <= effects.len() implies units_burned(effects.take(n)) == units_burned(
        effects.take(n - 1),
    ) + effects[n - 1].burned() by {
        assert(effects.take(n).drop_last() == effects.take(n - 1));
    }
}

fn positive_or_absent(stored: Option<i128>) -> (ok: bool)
    ensures
        ok == positive_if_stored(stored),
{
    match stored {
        Some(value) => value > 0,
        None => true,
    }
}

fn band_or_absent(stored: Option<u32>) -> (ok: bool)
    ensures
        ok == band_if_stored(stored),
{
    match stored {
        Some(bps) => 0 < bps && bps < 10_000,
        None => true,
    }
}

} // verus!
