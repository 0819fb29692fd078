//! Set-up, supply and configuration of the contract.

use crate::address::Address;
use crate::effects::{
    authorized_by, units_burned, units_minted, Effect, Event, TTL_EXTEND_TO, TTL_THRESHOLD,
};
use crate::errors::Abort;
use crate::math::fits;
use crate::oracle;
use crate::state::{
    lemma_one_by_one, or_default, Entry, RebalancerAdmin, DEFAULT_BAND_BPS,
    DEFAULT_COOLDOWN_LEDGERS, DEFAULT_MAX_MINT, DEFAULT_MAX_QUOTE_SPEND,
    DEFAULT_MAX_STALE_LEDGERS, DEFAULT_MIN_RESERVE,
};
use vstd::prelude::*;

verus! {

impl RebalancerAdmin {
    /// All units of the token that the contract ever minted.
    pub open spec fn minted(self) -> i128 {
        or_default(self.total_minted, 0)
    }

    /// All units of the token that the contract ever burned.
    pub open spec fn burned(self) -> i128 {
        or_default(self.total_burned, 0)
    }

    /// Whether a price is stored whose number is above that of the price that
    /// was stored earlier, if there was one.
    pub open spec fn has_newer_price(self, earlier: RebalancerAdmin) -> bool {
        self.price_data is Some && (earlier.price_data is Some ==> self.nonce() > earlier.nonce())
    }

    /// What holds between the storage before and after an operation and the
    /// effects that the operation asks for: the effects write exactly what has
    /// changed, the totals follow what is minted and burned, the storage stays
    /// well formed, a price gives way only to one with a higher number, and a
    /// contract that was set up stays so, with the same owner, the same token
    /// and the same quote token.
    pub open spec fn leads_to(self, later: RebalancerAdmin, effects: Seq<Effect>) -> bool {
        &&& later == self.replay(effects)
        &&& later.minted() - self.minted() == units_minted(effects)
        &&& later.burned() - self.burned() == units_burned(effects)
        &&& later.wf()
        &&& later.price_data == self.price_data || later.has_newer_price(self)
        &&& self.is_initialized() ==> {
            &&& later.is_initialized()
            &&& later.owner == self.owner
            &&& later.sac == self.sac
            &&& later.quote_token == self.quote_token
        }
    }

    /// Whether an address is the oracle's or the owner's.
    pub open spec fn is_oracle_or_owner(self, operator: Address) -> bool {
        self.oracle == Some(operator) || self.owner == Some(operator)
    }

    /// Why any operation on a contract that was not set up traps.
    pub open spec fn entry_abort(self) -> Option<Abort> {
        if self.is_initialized() {
            None
        } else {
            Some(Abort::NotInitialized)
        }
    }

    /// Why setting the contract up traps.
    pub open spec fn initialize_abort(self) -> Option<Abort> {
        if self.is_initialized() {
            Some(Abort::AlreadyInitialized)
        } else {
            None
        }
    }

    /// Why minting traps.
    pub open spec fn mint_abort(self, amount: i128, operator: Address) -> Option<Abort> {
        if !self.is_initialized() {
            Some(Abort::NotInitialized)
        } else if !self.is_oracle_or_owner(operator) {
            Some(Abort::NotOracleOrOwner)
        } else if amount > self.cap() {
            Some(Abort::MintCapExceeded)
        } else if !fits(self.minted() + amount) {
            Some(Abort::Arithmetic)
        } else {
            None
        }
    }

    /// Why clawing back traps.
    pub open spec fn clawback_abort(self, amount: i128, operator: Address) -> Option<Abort> {
        if !self.is_initialized() {
            Some(Abort::NotInitialized)
        } else if !self.is_oracle_or_owner(operator) {
            Some(Abort::NotOracleOrOwner)
        } else if !fits(self.burned() + amount) {
            Some(Abort::Arithmetic)
        } else {
            None
        }
    }

    /// Why moving an amount of a token in or out of the contract traps.
    pub open spec fn transfer_abort(self, amount: i128) -> Option<Abort> {
        if !self.is_initialized() {
            Some(Abort::NotInitialized)
        } else if amount <= 0 {
            Some(Abort::AmountNotPositive)
        } else {
            None
        }
    }

    /// Why changing the rebalancing parameters traps.
    pub open spec fn set_params_abort(
        self,
        upper_bps: u32,
        lower_bps: u32,
        max_mint: i128,
        max_quote_spend: i128,
        min_reserve: i128,
    ) -> Option<Abort> {
        if !self.is_initialized() {
            Some(Abort::NotInitialized)
        } else if !(0 < upper_bps < 10_000) {
            Some(Abort::InvalidUpperBps)
        } else if !(0 < lower_bps < 10_000) {
            Some(Abort::InvalidLowerBps)
        } else if max_mint <= 0 {
            Some(Abort::MaxMintNotPositive)
        } else if max_quote_spend <= 0 {
            Some(Abort::MaxQuoteSpendNotPositive)
        } else if min_reserve <= 0 {
            Some(Abort::MinReserveNotPositive)
        } else {
            None
        }
    }

    /// Why changing the allowed age of the oracle price traps.
    pub open spec fn set_max_stale_abort(self, max_stale_ledgers: u32) -> Option<Abort> {
        if !self.is_initialized() {
            Some(Abort::NotInitialized)
        } else if max_stale_ledgers == 0 {
            Some(Abort::MaxStaleNotPositive)
        } else {
            None
        }
    }

    /// Returns the oracle's address, which must authorize the oracle's
    /// operations.
    pub fn require_oracle(&self) -> (oracle: Address)
        requires
            self.wf(),
            self.is_initialized(),
        ensures
            self.oracle == Some(oracle),
    {
        self.oracle.unwrap()
    }

    /// Returns the owner's address, which must authorize the owner's
    /// operations.
    pub fn require_owner(&self) -> (owner: Address)
        requires
            self.wf(),
            self.is_initialized(),
        ensures
            self.owner == Some(owner),
    {
        self.owner.unwrap()
    }

    /// Returns whether an address is the oracle's or the owner's.
    pub fn require_oracle_or_owner(&self, operator: &Address) -> (ok: bool)
        requires
            self.wf(),
            self.is_initialized(),
        ensures
            ok == self.is_oracle_or_owner(*operator),
    {
        let oracle = self.oracle.unwrap();
        let owner = self.owner.unwrap();
        *operator == oracle || *operator == owner
    }

    /// Returns why any operation on a contract that was not set up traps, or
    /// `None` where it was.
    pub fn check_entry(&self) -> (abort: Option<Abort>)
        ensures
            abort == self.entry_abort(),
    {
        if self.require_initialized() {
            None
        } else {
            Some(Abort::NotInitialized)
        }
    }

    /// Returns why setting the contract up traps, or `None` where it does not.
    pub fn check_initialize(&self) -> (abort: Option<Abort>)
        ensures
            abort == self.initialize_abort(),
    {
        if self.require_initialized() {
            Some(Abort::AlreadyInitialized)
        } else {
            None
        }
    }

    /// Sets the contract up with the token that it administers, the pool and
    /// its quote token, the oracle and the owner, and with the default
    /// parameters.
    pub fn initialize(
        &mut self,
        sac: Address,
        pool: Address,
        quote_token: Address,
        oracle: Address,
        owner: Address,
        ljoule_is_token0: bool,
    ) -> (effects: Vec<Effect>)
        requires
            old(self).wf(),
            old(self).initialize_abort() is None,
        ensures
            *final(self) == (RebalancerAdmin {
                sac: Some(sac),
                pool: Some(pool),
                quote_token: Some(quote_token),
                oracle: Some(oracle),
                owner: Some(owner),
                ljoule_is_token0: Some(ljoule_is_token0),
                upper_bps: Some(DEFAULT_BAND_BPS),
                lower_bps: Some(DEFAULT_BAND_BPS),
                max_mint: Some(DEFAULT_MAX_MINT),
                max_quote_spend: Some(DEFAULT_MAX_QUOTE_SPEND),
                max_stale_ledgers: Some(DEFAULT_MAX_STALE_LEDGERS),
                cooldown_ledgers: Some(DEFAULT_COOLDOWN_LEDGERS),
                min_reserve: Some(DEFAULT_MIN_RESERVE),
                initialized: Some(true),
                ..*old(self)
            }),
            effects@ == seq![
                Effect::SetSacAddress { sac },
                Effect::Store { entry: Entry::Pool(pool) },
                Effect::Store { entry: Entry::QuoteToken(quote_token) },
                Effect::Store { entry: Entry::Oracle(oracle) },
                Effect::Store { entry: Entry::Owner(owner) },
                Effect::Store { entry: Entry::LjouleIsToken0(ljoule_is_token0) },
                Effect::Store { entry: Entry::UpperBps(DEFAULT_BAND_BPS) },
                Effect::Store { entry: Entry::LowerBps(DEFAULT_BAND_BPS) },
                Effect::Store { entry: Entry::MaxMint(DEFAULT_MAX_MINT) },
                Effect::Store { entry: Entry::MaxQuoteSpend(DEFAULT_MAX_QUOTE_SPEND) },
                Effect::Store { entry: Entry::MaxStaleLedgers(DEFAULT_MAX_STALE_LEDGERS) },
                Effect::Store { entry: Entry::CooldownLedgers(DEFAULT_COOLDOWN_LEDGERS) },
                Effect::Store { entry: Entry::MinReserve(DEFAULT_MIN_RESERVE) },
                Effect::Store { entry: Entry::Initialized(true) },
                Effect::Publish { event: Event::Initialized { sac, pool } },
            ],
            old(self).leads_to(*final(self), effects@),
    {
        let effects = vec![
            Effect::SetSacAddress { sac },
            Effect::Store { entry: Entry::Pool(pool) },
            Effect::Store { entry: Entry::QuoteToken(quote_token) },
            Effect::Store { entry: Entry::Oracle(oracle) },
            Effect::Store { entry: Entry::Owner(owner) },
            Effect::Store { entry: Entry::LjouleIsToken0(ljoule_is_token0) },
            Effect::Store { entry: Entry::UpperBps(DEFAULT_BAND_BPS) },
            Effect::Store { entry: Entry::LowerBps(DEFAULT_BAND_BPS) },
            Effect::Store { entry: Entry::MaxMint(DEFAULT_MAX_MINT) },
            Effect::Store { entry: Entry::MaxQuoteSpend(DEFAULT_MAX_QUOTE_SPEND) },
            Effect::Store { entry: Entry::MaxStaleLedgers(DEFAULT_MAX_STALE_LEDGERS) },
            Effect::Store { entry: Entry::CooldownLedgers(DEFAULT_COOLDOWN_LEDGERS) },
            Effect::Store { entry: Entry::MinReserve(DEFAULT_MIN_RESERVE) },
            Effect::Store { entry: Entry::Initialized(true) },
            Effect::Publish { event: Event::Initialized { sac, pool } },
        ];
        self.sac = Some(sac);
        self.pool = Some(pool);
        self.quote_token = Some(quote_token);
        self.oracle = Some(oracle);
        self.owner = Some(owner);
        self.ljoule_is_token0 = Some(ljoule_is_token0);
        self.upper_bps = Some(DEFAULT_BAND_BPS);
        self.lower_bps = Some(DEFAULT_BAND_BPS);
        self.max_mint = Some(DEFAULT_MAX_MINT);
        self.max_quote_spend = Some(DEFAULT_MAX_QUOTE_SPEND);
        self.max_stale_ledgers = Some(DEFAULT_MAX_STALE_LEDGERS);
        self.cooldown_ledgers = Some(DEFAULT_COOLDOWN_LEDGERS);
        self.min_reserve = Some(DEFAULT_MIN_RESERVE);
        self.initialized = Some(true);
        proof {
            lemma_one_by_one(*old(self), effects@);
        }
        effects
    }

    /// Hands the administration of the token to `new_admin`, at the owner's
    /// request.
    pub fn set_admin(&self, new_admin: Address, operator: Address) -> (effects: Vec<Effect>)
        requires
            self.wf(),
            self.entry_abort() is None,
        ensures
            effects@ == seq![
                Effect::RequireAuth { address: self.owner->0 },
                Effect::RequireAuth { address: operator },
                Effect::SetAdmin { new_admin },
                Effect::Publish { event: Event::SacAdminChanged { new_admin } },
            ],
            authorized_by(effects@, self.owner->0),
            self.leads_to(*self, effects@),
    {
        let effects = vec![
            Effect::RequireAuth { address: self.require_owner() },
            Effect::RequireAuth { address: operator },
            Effect::SetAdmin { new_admin },
            Effect::Publish { event: Event::SacAdminChanged { new_admin } },
        ];
        proof {
            lemma_one_by_one(*self, effects@);
        }
        effects
    }

    /// Allows or forbids `id` to use its balance of the token, at the owner's
    /// request.
    pub fn set_authorized(&self, id: Address, authorize: bool, operator: Address) -> (effects: Vec<
        Effect,
    >)
        requires
            self.wf(),
            self.entry_abort() is None,
        ensures
            effects@ == seq![
                Effect::RequireAuth { address: self.owner->0 },
                Effect::RequireAuth { address: operator },
                Effect::SetAuthorized { id, authorize },
                Effect::Publish { event: Event::AuthorizationChanged { id, authorize } },
            ],
            authorized_by(effects@, self.owner->0),
            self.leads_to(*self, effects@),
    {
        let effects = vec![
            Effect::RequireAuth { address: self.require_owner() },
            Effect::RequireAuth { address: operator },
            Effect::SetAuthorized { id, authorize },
            Effect::Publish { event: Event::AuthorizationChanged { id, authorize } },
        ];
        proof {
            lemma_one_by_one(*self, effects@);
        }
        effects
    }

    /// Returns why minting traps, or `None` where it does not.
    pub fn check_mint(&self, amount: i128, operator: Address) -> (abort: Option<Abort>)
        requires
            self.wf(),
        ensures
            abort == self.mint_abort(amount, operator),
    {
        if !self.require_initialized() {
            Some(Abort::NotInitialized)
        } else if !self.require_oracle_or_owner(&operator) {
            Some(Abort::NotOracleOrOwner)
        } else if amount > oracle::get_mint_cap(self) {
            Some(Abort::MintCapExceeded)
        } else if self.total_minted().checked_add(amount).is_none() {
            Some(Abort::Arithmetic)
        } else {
            None
        }
    }

    /// Mints `amount` units of the token to `to`, at the request of the oracle
    /// or the owner.
    pub fn mint(&mut self, to: Address, amount: i128, operator: Address) -> (effects: Vec<Effect>)
        requires
            old(self).wf(),
            old(self).mint_abort(amount, operator) is None,
        ensures
            *final(self) == (RebalancerAdmin {
                total_minted: Some((old(self).minted() + amount) as i128),
                ..*old(self)
            }),
            effects@ == seq![
                Effect::RequireAuth { address: operator },
                Effect::Mint { to, amount },
                Effect::Store { entry: Entry::TotalMinted((old(self).minted() + amount) as i128) },
                Effect::Publish { event: Event::Minted { to, amount } },
            ],
            authorized_by(effects@, operator),
            old(self).leads_to(*final(self), effects@),
    {
        let entry = Entry::TotalMinted(self.total_minted() + amount);
        self.store(entry);
        let effects = vec![
            Effect::RequireAuth { address: operator },
            Effect::Mint { to, amount },
            Effect::Store { entry },
            Effect::Publish { event: Event::Minted { to, amount } },
        ];
        proof {
            lemma_one_by_one(*old(self), effects@);
        }
        effects
    }

    /// Returns why clawing back traps, or `None` where it does not.
    pub fn check_clawback(&self, amount: i128, operator: Address) -> (abort: Option<Abort>)
        requires
            self.wf(),
        ensures
            abort == self.clawback_abort(amount, operator),
    {
        if !self.require_initialized() {
            Some(Abort::NotInitialized)
        } else if !self.require_oracle_or_owner(&operator) {
            Some(Abort::NotOracleOrOwner)
        } else if self.total_burned().checked_add(amount).is_none() {
            Some(Abort::Arithmetic)
        } else {
            None
        }
    }

    /// Destroys `amount` units of the token that `from` holds, at the request
    /// of the oracle or the owner.
    pub fn clawback(&mut self, from: Address, amount: i128, operator: Address) -> (effects: Vec<
        Effect,
    >)
        requires
            old(self).wf(),
            old(self).clawback_abort(amount, operator) is None,
        ensures
            *final(self) == (RebalancerAdmin {
                total_burned: Some((old(self).burned() + amount) as i128),
                ..*old(self)
            }),
            effects@ == seq![
                Effect::RequireAuth { address: operator },
                Effect::Clawback { from, amount },
                Effect::Store { entry: Entry::TotalBurned((old(self).burned() + amount) as i128) },
                Effect::Publish { event: Event::Clawback { from, amount } },
            ],
            authorized_by(effects@, operator),
            old(self).leads_to(*final(self), effects@),
    {
        let entry = Entry::TotalBurned(self.total_burned() + amount);
        self.store(entry);
        let effects = vec![
            Effect::RequireAuth { address: operator },
            Effect::Clawback { from, amount },
            Effect::Store { entry },
            Effect::Publish { event: Event::Clawback { from, amount } },
        ];
        proof {
            lemma_one_by_one(*old(self), effects@);
        }
        effects
    }

    /// Returns all units of the token that the contract ever minted.
    pub fn total_minted(&self) -> (total: i128)
        ensures
            total == self.minted(),
    {
        self.total_minted.unwrap_or(0)
    }

    /// Returns all units of the token that the contract ever burned.
    pub fn total_burned(&self) -> (total: i128)
        ensures
            total == self.burned(),
    {
        self.total_burned.unwrap_or(0)
    }

    /// Returns the units of the token that are left: what was minted less what
    /// was burned.
    pub fn circulating_supply(&self) -> (supply: i128)
        requires
            fits(self.minted() - self.burned()),
        ensures
            supply == self.minted() - self.burned(),
    {
        self.total_minted() - self.total_burned()
    }

    /// Returns why asking for the circulating supply traps, or `None` where it
    /// does not.
    pub fn check_circulating_supply(&self) -> (abort: Option<Abort>)
        ensures
            abort == if fits(self.minted() - self.burned()) {
                None::<Abort>
            } else {
                Some(Abort::Arithmetic)
            },
    {
        match self.total_minted().checked_sub(self.total_burned()) {
            Some(_) => None,
            None => Some(Abort::Arithmetic),
        }
    }

    /// Returns why moving an amount of a token in or out of the contract
    /// traps, or `None` where it does not.
    pub fn check_transfer(&self, amount: i128) -> (abort: Option<Abort>)
        ensures
            abort == self.transfer_abort(amount),
    {
        if !self.require_initialized() {
            Some(Abort::NotInitialized)
        } else if amount <= 0 {
            Some(Abort::AmountNotPositive)
        } else {
            None
        }
    }

    /// Moves `amount` of the quote token from `from` to the contract at
    /// `this`, to be spent on buybacks.
    pub fn fund_quote(&self, this: Address, from: Address, amount: i128) -> (effects: Vec<Effect>)
        requires
            self.wf(),
            self.transfer_abort(amount) is None,
        ensures
            effects@ == seq![
                Effect::RequireAuth { address: from },
                Effect::Transfer { token: self.quote_token->0, from, to: this, amount },
                Effect::Publish { event: Event::Funded { from, amount } },
            ],
            authorized_by(effects@, from),
            self.leads_to(*self, effects@),
    {
        let effects = vec![
            Effect::RequireAuth { address: from },
            Effect::Transfer { token: self.quote_token.unwrap(), from, to: this, amount },
            Effect::Publish { event: Event::Funded { from, amount } },
        ];
        proof {
            lemma_one_by_one(*self, effects@);
        }
        effects
    }

    /// Moves `amount` of any token from the contract at `this` to `to`, at the
    /// owner's request.
    pub fn withdraw(&self, this: Address, token: Address, to: Address, amount: i128) -> (effects:
        Vec<Effect>)
        requires
            self.wf(),
            self.transfer_abort(amount) is None,
        ensures
            effects@ == seq![
                Effect::RequireAuth { address: self.owner->0 },
                Effect::Transfer { token, from: this, to, amount },
                Effect::Publish { event: Event::Withdraw { token, to, amount } },
            ],
            authorized_by(effects@, self.owner->0),
            self.leads_to(*self, effects@),
    {
        let effects = vec![
            Effect::RequireAuth { address: self.require_owner() },
            Effect::Transfer { token, from: this, to, amount },
            Effect::Publish { event: Event::Withdraw { token, to, amount } },
        ];
        proof {
            lemma_one_by_one(*self, effects@);
        }
        effects
    }

    /// Changes the oracle, at the owner's request.
    pub fn set_oracle(&mut self, oracle: Address) -> (effects: Vec<Effect>)
        requires
            old(self).wf(),
            old(self).entry_abort() is None,
        ensures
            *final(self) == (RebalancerAdmin { oracle: Some(oracle), ..*old(self) }),
            effects@ == seq![
                Effect::RequireAuth { address: old(self).owner->0 },
                Effect::Store { entry: Entry::Oracle(oracle) },
                Effect::Publish { event: Event::OracleChanged { oracle } },
            ],
            authorized_by(effects@, old(self).owner->0),
            old(self).leads_to(*final(self), effects@),
    {
        let effects = vec![
            Effect::RequireAuth { address: self.require_owner() },
            Effect::Store { entry: Entry::Oracle(oracle) },
            Effect::Publish { event: Event::OracleChanged { oracle } },
        ];
        self.oracle = Some(oracle);
        proof {
            lemma_one_by_one(*old(self), effects@);
        }
        effects
    }

    /// Changes the pool, at the owner's request.
    pub fn set_pool(&mut self, pool: Address, ljoule_is_token0: bool) -> (effects: Vec<Effect>)
        requires
            old(self).wf(),
            old(self).entry_abort() is None,
        ensures
            *final(self) == (RebalancerAdmin {
                pool: Some(pool),
                ljoule_is_token0: Some(ljoule_is_token0),
                ..*old(self)
            }),
            effects@ == seq![
                Effect::RequireAuth { address: old(self).owner->0 },
                Effect::Store { entry: Entry::Pool(pool) },
                Effect::Store { entry: Entry::LjouleIsToken0(ljoule_is_token0) },
                Effect::Publish { event: Event::PoolChanged { pool } },
            ],
            authorized_by(effects@, old(self).owner->0),
            old(self).leads_to(*final(self), effects@),
    {
        let effects = vec![
            Effect::RequireAuth { address: self.require_owner() },
            Effect::Store { entry: Entry::Pool(pool) },
            Effect::Store { entry: Entry::LjouleIsToken0(ljoule_is_token0) },
            Effect::Publish { event: Event::PoolChanged { pool } },
        ];
        self.pool = Some(pool);
        self.ljoule_is_token0 = Some(ljoule_is_token0);
        proof {
            lemma_one_by_one(*old(self), effects@);
        }
        effects
    }

    /// Returns why changing the rebalancing parameters traps, or `None` where
    /// it does not.
    pub fn check_set_params(
        &self,
        upper_bps: u32,
        lower_bps: u32,
        max_mint: i128,
        max_quote_spend: i128,
        min_reserve: i128,
    ) -> (abort: Option<Abort>)
        ensures
            abort == self.set_params_abort(
                upper_bps,
                lower_bps,
                max_mint,
                max_quote_spend,
                min_reserve,
            ),
    {
        if !self.require_initialized() {
            Some(Abort::NotInitialized)
        } else if !(upper_bps > 0 && upper_bps < 10_000) {
            Some(Abort::InvalidUpperBps)
        } else if !(lower_bps > 0 && lower_bps < 10_000) {
            Some(Abort::InvalidLowerBps)
        } else if max_mint <= 0 {
            Some(Abort::MaxMintNotPositive)
        } else if max_quote_spend <= 0 {
            Some(Abort::MaxQuoteSpendNotPositive)
        } else if min_reserve <= 0 {
            Some(Abort::MinReserveNotPositive)
        } else {
            None
        }
    }

    /// Changes the rebalancing parameters, at the owner's request.
    pub fn set_params(
        &mut self,
        upper_bps: u32,
        lower_bps: u32,
        max_mint: i128,
        max_quote_spend: i128,
        cooldown_ledgers: u32,
        min_reserve: i128,
    ) -> (effects: Vec<Effect>)
        requires
            old(self).wf(),
            old(self).set_params_abort(
                upper_bps,
                lower_bps,
                max_mint,
                max_quote_spend,
                min_reserve,
            ) is None,
        ensures
            *final(self) == (RebalancerAdmin {
                upper_bps: Some(upper_bps),
                lower_bps: Some(lower_bps),
                max_mint: Some(max_mint),
                max_quote_spend: Some(max_quote_spend),
                cooldown_ledgers: Some(cooldown_ledgers),
                min_reserve: Some(min_reserve),
                ..*old(self)
            }),
            effects@ == seq![
                Effect::RequireAuth { address: old(self).owner->0 },
                Effect::Store { entry: Entry::UpperBps(upper_bps) },
                Effect::Store { entry: Entry::LowerBps(lower_bps) },
                Effect::Store { entry: Entry::MaxMint(max_mint) },
                Effect::Store { entry: Entry::MaxQuoteSpend(max_quote_spend) },
                Effect::Store { entry: Entry::CooldownLedgers(cooldown_ledgers) },
                Effect::Store { entry: Entry::MinReserve(min_reserve) },
                Effect::Publish {
                    event: Event::ParamsUpdated { upper_bps, lower_bps, max_mint, max_quote_spend },
                },
            ],
            authorized_by(effects@, old(self).owner->0),
            old(self).leads_to(*final(self), effects@),
    {
        let effects = vec![
            Effect::RequireAuth { address: self.require_owner() },
            Effect::Store { entry: Entry::UpperBps(upper_bps) },
            Effect::Store { entry: Entry::LowerBps(lower_bps) },
            Effect::Store { entry: Entry::MaxMint(max_mint) },
            Effect::Store { entry: Entry::MaxQuoteSpend(max_quote_spend) },
            Effect::Store { entry: Entry::CooldownLedgers(cooldown_ledgers) },
            Effect::Store { entry: Entry::MinReserve(min_reserve) },
            Effect::Publish {
                event: Event::ParamsUpdated { upper_bps, lower_bps, max_mint, max_quote_spend },
            },
        ];
        self.upper_bps = Some(upper_bps);
        self.lower_bps = Some(lower_bps);
        self.max_mint = Some(max_mint);
        self.max_quote_spend = Some(max_quote_spend);
        self.cooldown_ledgers = Some(cooldown_ledgers);
        self.min_reserve = Some(min_reserve);
        proof {
            lemma_one_by_one(*old(self), effects@);
        }
        effects
    }

    /// Returns why changing the allowed age of the oracle price traps, or
    /// `None` where it does not.
    pub fn check_set_max_stale(&self, max_stale_ledgers: u32) -> (abort: Option<Abort>)
        ensures
            abort == self.set_max_stale_abort(max_stale_ledgers),
    {
        if !self.require_initialized() {
            Some(Abort::NotInitialized)
        } else if max_stale_ledgers == 0 {
            Some(Abort::MaxStaleNotPositive)
        } else {
            None
        }
    }

    /// Changes the allowed age of the oracle price, at the owner's request.
    pub fn set_max_stale(&mut self, max_stale_ledgers: u32) -> (effects: Vec<Effect>)
        requires
            old(self).wf(),
            old(self).set_max_stale_abort(max_stale_ledgers) is None,
        ensures
            *final(self) == (RebalancerAdmin {
                max_stale_ledgers: Some(max_stale_ledgers),
                ..*old(self)
            }),
            effects@ == seq![
                Effect::RequireAuth { address: old(self).owner->0 },
                Effect::Store { entry: Entry::MaxStaleLedgers(max_stale_ledgers) },
                Effect::Publish { event: Event::MaxStaleChanged { max_stale_ledgers } },
            ],
            authorized_by(effects@, old(self).owner->0),
            old(self).leads_to(*final(self), effects@),
    {
        let effects = vec![
            Effect::RequireAuth { address: self.require_owner() },
            Effect::Store { entry: Entry::MaxStaleLedgers(max_stale_ledgers) },
            Effect::Publish { event: Event::MaxStaleChanged { max_stale_ledgers } },
        ];
        self.max_stale_ledgers = Some(max_stale_ledgers);
        proof {
            lemma_one_by_one(*old(self), effects@);
        }
        effects
    }

    /// Replaces the code of the contract, at the owner's request.
    pub fn upgrade(&self, wasm_hash: [u8; 32]) -> (effects: Vec<Effect>)
        requires
            self.wf(),
            self.entry_abort() is None,
        ensures
            effects@ == seq![
                Effect::RequireAuth { address: self.owner->0 },
                Effect::ExtendTtl { threshold: TTL_THRESHOLD, extend_to: TTL_EXTEND_TO },
                Effect::UpdateWasm { wasm_hash },
            ],
            authorized_by(effects@, self.owner->0),
            self.leads_to(*self, effects@),
    {
        let effects = vec![
            Effect::RequireAuth { address: self.require_owner() },
            Effect::ExtendTtl { threshold: TTL_THRESHOLD, extend_to: TTL_EXTEND_TO },
            Effect::UpdateWasm { wasm_hash },
        ];
        proof {
            lemma_one_by_one(*self, effects@);
        }
        effects
    }
}

} // verus!
