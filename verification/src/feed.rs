//! Operations on the price feed and its limits.

use crate::effects::{
    authorized_by, lemma_units_burned_push, lemma_units_minted_push, Effect, Event, TTL_EXTEND_TO,
    TTL_THRESHOLD,
};
use crate::errors::{Abort, RebalancerAdminError};
use crate::oracle;
use crate::oracle::{swing_allowed, swing_defined, swing_is_defined, PriceData};
use crate::state::{lemma_one_by_one, lemma_replay_push, Entry, RebalancerAdmin};
use vstd::prelude::*;

verus! {

impl RebalancerAdmin {
    /// Why setting the price of the quote token traps.
    pub open spec fn set_quote_price_abort(self, price: i128) -> Option<Abort> {
        if !self.is_initialized() {
            Some(Abort::NotInitialized)
        } else if price <= 0 {
            Some(Abort::PriceNotPositive)
        } else {
            None
        }
    }

    /// Why updating the price of LJOULE traps: the comparison with the last
    /// price, where it comes to that, leaves its type.
    pub open spec fn update_price_abort(self, price_scaled: i128, nonce: u64) -> Option<Abort> {
        if !self.is_initialized() {
            Some(Abort::NotInitialized)
        } else if nonce > self.nonce() && self.in_bounds(price_scaled) && (
        self.price_data matches Some(data) && !swing_defined(
            data.price as int,
            price_scaled as int,
        )) {
            Some(Abort::Arithmetic)
        } else {
            None
        }
    }

    /// Whether an update of the price is accepted, or why it is refused: a
    /// number that is not above the last one, a price out of bounds, or too
    /// large a swing from the last price.
    pub open spec fn price_verdict(self, price_scaled: i128, nonce: u64) -> Result<
        (),
        RebalancerAdminError,
    > {
        if nonce <= self.nonce() {
            Err(RebalancerAdminError::NonceTooLow)
        } else if !self.in_bounds(price_scaled) {
            Err(RebalancerAdminError::PriceOutOfBounds)
        } else if self.price_data matches Some(data) && !swing_allowed(
            data.price as int,
            price_scaled as int,
        ) {
            Err(RebalancerAdminError::CircuitBreakerTripped)
        } else {
            Ok(())
        }
    }

    /// Whether an override of the price is accepted, or why it is refused: a
    /// number that is not above that of the stored price, if there is one, or
    /// a price out of bounds.
    pub open spec fn override_verdict(self, price_scaled: i128, nonce: u64) -> Result<
        (),
        RebalancerAdminError,
    > {
        if self.price_data is Some && nonce <= self.nonce() {
            Err(RebalancerAdminError::NonceTooLow)
        } else if !self.in_bounds(price_scaled) {
            Err(RebalancerAdminError::PriceOutOfBounds)
        } else {
            Ok(())
        }
    }

    /// The price of LJOULE and the ledger in which it was set, or zeros before
    /// the first update.
    pub open spec fn price_report(self) -> (i128, u32) {
        match self.price_data {
            Some(data) => (data.price, data.ledger),
            None => (0, 0),
        }
    }

    /// Why setting the price bounds traps.
    pub open spec fn set_price_bounds_abort(self, floor: i128, ceiling: i128) -> Option<Abort> {
        if !self.is_initialized() {
            Some(Abort::NotInitialized)
        } else if !(0 < floor < ceiling) {
            Some(Abort::InvalidBounds)
        } else {
            None
        }
    }

    /// Why setting the mint cap traps.
    pub open spec fn set_mint_cap_abort(self, cap: i128) -> Option<Abort> {
        if !self.is_initialized() {
            Some(Abort::NotInitialized)
        } else if cap <= 0 {
            Some(Abort::CapNotPositive)
        } else {
            None
        }
    }

    /// Returns why setting the price of the quote token traps, or `None` where
    /// it does not.
    pub fn check_set_quote_price(&self, price: i128) -> (abort: Option<Abort>)
        ensures
            abort == self.set_quote_price_abort(price),
    {
        if !self.require_initialized() {
            Some(Abort::NotInitialized)
        } else if price <= 0 {
            Some(Abort::PriceNotPositive)
        } else {
            None
        }
    }

    /// Sets the USD price of the quote token, in 7-decimal fixed point, at the
    /// oracle's request.
    pub fn set_quote_price(&mut self, price: i128) -> (outcome: (
        Vec<Effect>,
        Result<(), RebalancerAdminError>,
    ))
        requires
            old(self).wf(),
            old(self).set_quote_price_abort(price) is None,
        ensures
            *final(self) == (RebalancerAdmin { quote_price: Some(price), ..*old(self) }),
            outcome.0@ == seq![
                Effect::RequireAuth { address: old(self).oracle->0 },
                Effect::ExtendTtl { threshold: TTL_THRESHOLD, extend_to: TTL_EXTEND_TO },
                Effect::Store { entry: Entry::QuotePrice(price) },
                Effect::Publish { event: Event::QuotePriceSet { price } },
            ],
            authorized_by(outcome.0@, old(self).oracle->0),
            outcome.1 is Ok,
            old(self).leads_to(*final(self), outcome.0@),
    {
        let effects = vec![
            Effect::RequireAuth { address: self.require_oracle() },
            Effect::ExtendTtl { threshold: TTL_THRESHOLD, extend_to: TTL_EXTEND_TO },
            Effect::Store { entry: Entry::QuotePrice(price) },
            Effect::Publish { event: Event::QuotePriceSet { price } },
        ];
        self.quote_price = Some(price);
        proof {
            lemma_one_by_one(*old(self), effects@);
        }
        (effects, Ok(()))
    }

    /// Returns why updating the price of LJOULE traps, or `None` where it does
    /// not.
    pub fn check_update_price(&self, price_scaled: i128, nonce: u64) -> (abort: Option<Abort>)
        ensures
            abort == self.update_price_abort(price_scaled, nonce),
    {
        if !self.require_initialized() {
            return Some(Abort::NotInitialized);
        }
        if nonce <= oracle::get_nonce(self) || oracle::check_bounds(self, price_scaled).is_err() {
            return None;
        }
        match oracle::get_price_data(self) {
            Some(old_data) => if swing_is_defined(old_data.price, price_scaled) {
                None
            } else {
                Some(Abort::Arithmetic)
            },
            None => None,
        }
    }

    /// Updates the USD price of LJOULE, in 7-decimal fixed point, at the
    /// oracle's request in `ledger`. The update's number must be above the
    /// last one, the price within the bounds, and no more than 20 percent away
    /// from the last price, if there is one.
    pub fn update_price(&mut self, price_scaled: i128, nonce: u64, ledger: u32) -> (outcome: (
        Vec<Effect>,
        Result<(), RebalancerAdminError>,
    ))
        requires
            old(self).wf(),
            old(self).update_price_abort(price_scaled, nonce) is None,
        ensures
            outcome.1 == old(self).price_verdict(price_scaled, nonce),
            outcome.1 is Ok ==> {
                let data = PriceData { price: price_scaled, nonce, ledger };
                &&& *final(self) == (RebalancerAdmin { price_data: Some(data), ..*old(self) })
                &&& outcome.0@ == seq![
                    Effect::RequireAuth { address: old(self).oracle->0 },
                    Effect::ExtendTtl { threshold: TTL_THRESHOLD, extend_to: TTL_EXTEND_TO },
                    Effect::Store { entry: Entry::PriceData(data) },
                    Effect::Publish { event: Event::PriceUpdated { price_scaled, nonce } },
                ]
            },
            outcome.1 is Err ==> {
                &&& *final(self) == *old(self)
                &&& outcome.0@ == seq![
                    Effect::RequireAuth { address: old(self).oracle->0 },
                    Effect::ExtendTtl { threshold: TTL_THRESHOLD, extend_to: TTL_EXTEND_TO },
                ]
            },
            authorized_by(outcome.0@, old(self).oracle->0),
            old(self).leads_to(*final(self), outcome.0@),
    {
        broadcast use lemma_replay_push, lemma_units_burned_push, lemma_units_minted_push;

        let mut effects = vec![
            Effect::RequireAuth { address: self.require_oracle() },
            Effect::ExtendTtl { threshold: TTL_THRESHOLD, extend_to: TTL_EXTEND_TO },
        ];
        proof {
            lemma_one_by_one(*old(self), effects@);
        }

        let old_nonce = oracle::get_nonce(self);
        if nonce <= old_nonce {
            return (effects, Err(RebalancerAdminError::NonceTooLow));
        }
        if let Err(error) = oracle::check_bounds(self, price_scaled) {
            return (effects, Err(error));
        }
        if let Some(old_data) = oracle::get_price_data(self) {
            if let Err(error) = oracle::check_circuit_breaker(old_data.price, price_scaled) {
                return (effects, Err(error));
            }
        }
        let data = PriceData { price: price_scaled, nonce, ledger };
        oracle::set_price_data(self, &data);
        effects.push(Effect::Store { entry: Entry::PriceData(data) });
        effects.push(Effect::Publish { event: Event::PriceUpdated { price_scaled, nonce } });
        assert(effects@[0] == (Effect::RequireAuth { address: old(self).oracle->0 }));
        (effects, Ok(()))
    }

    /// Returns the price of LJOULE and the ledger in which it was set, or
    /// zeros before the first update.
    pub fn get_price(&self) -> (price: (i128, u32))
        requires
            self.entry_abort() is None,
        ensures
            price == self.price_report(),
    {
        match oracle::get_price_data(self) {
            Some(data) => (data.price, data.ledger),
            None => (0, 0),
        }
    }

    /// Overrides the price of LJOULE in an emergency, at the owner's request
    /// in `ledger`. The override's number must be above that of the stored
    /// price, if there is one, and the price within the bounds; it may be any
    /// distance from the last one.
    pub fn owner_set_price(&mut self, price_scaled: i128, nonce: u64, ledger: u32) -> (outcome: (
        Vec<Effect>,
        Result<(), RebalancerAdminError>,
    ))
        requires
            old(self).wf(),
            old(self).entry_abort() is None,
        ensures
            outcome.1 == old(self).override_verdict(price_scaled, nonce),
            outcome.1 is Ok ==> {
                let data = PriceData { price: price_scaled, nonce, ledger };
                &&& *final(self) == (RebalancerAdmin { price_data: Some(data), ..*old(self) })
                &&& outcome.0@ == seq![
                    Effect::RequireAuth { address: old(self).owner->0 },
                    Effect::Store { entry: Entry::PriceData(data) },
                    Effect::Publish { event: Event::PriceOverride { price_scaled, nonce } },
                ]
            },
            outcome.1 is Err ==> {
                &&& *final(self) == *old(self)
                &&& outcome.0@ == seq![Effect::RequireAuth { address: old(self).owner->0 }]
            },
            authorized_by(outcome.0@, old(self).owner->0),
            old(self).leads_to(*final(self), outcome.0@),
    {
        broadcast use lemma_replay_push, lemma_units_burned_push, lemma_units_minted_push;

        let mut effects: Vec<Effect> = Vec::new();
        effects.push(Effect::RequireAuth { address: self.require_owner() });
        assert(effects@[0] == (Effect::RequireAuth { address: old(self).owner->0 }));
        if let Some(old_data) = oracle::get_price_data(self) {
            if nonce <= old_data.nonce {
                return (effects, Err(RebalancerAdminError::NonceTooLow));
            }
        }
        if let Err(error) = oracle::check_bounds(self, price_scaled) {
            return (effects, Err(error));
        }
        let data = PriceData { price: price_scaled, nonce, ledger };
        oracle::set_price_data(self, &data);
        effects.push(Effect::Store { entry: Entry::PriceData(data) });
        effects.push(Effect::Publish { event: Event::PriceOverride { price_scaled, nonce } });
        assert(effects@[0] == (Effect::RequireAuth { address: old(self).owner->0 }));
        (effects, Ok(()))
    }

    /// Returns why setting the price bounds traps, or `None` where it does
    /// not.
    pub fn check_set_price_bounds(&self, floor: i128, ceiling: i128) -> (abort: Option<Abort>)
        ensures
            abort == self.set_price_bounds_abort(floor, ceiling),
    {
        if !self.require_initialized() {
            Some(Abort::NotInitialized)
        } else if !(floor > 0 && ceiling > floor) {
            Some(Abort::InvalidBounds)
        } else {
            None
        }
    }

    /// Sets the price bounds, at the owner's request.
    pub fn set_price_bounds(&mut self, floor: i128, ceiling: i128) -> (effects: Vec<Effect>)
        requires
            old(self).wf(),
            old(self).set_price_bounds_abort(floor, ceiling) is None,
        ensures
            *final(self) == (RebalancerAdmin {
                price_floor: Some(floor),
                price_ceiling: Some(ceiling),
                ..*old(self)
            }),
            effects@ == seq![
                Effect::RequireAuth { address: old(self).owner->0 },
                Effect::Store { entry: Entry::PriceFloor(floor) },
                Effect::Store { entry: Entry::PriceCeiling(ceiling) },
                Effect::Publish { event: Event::PriceBoundsSet { floor, ceiling } },
            ],
            authorized_by(effects@, old(self).owner->0),
            old(self).leads_to(*final(self), effects@),
    {
        let effects = vec![
            Effect::RequireAuth { address: self.require_owner() },
            Effect::Store { entry: Entry::PriceFloor(floor) },
            Effect::Store { entry: Entry::PriceCeiling(ceiling) },
            Effect::Publish { event: Event::PriceBoundsSet { floor, ceiling } },
        ];
        self.price_floor = Some(floor);
        self.price_ceiling = Some(ceiling);
        proof {
            lemma_one_by_one(*old(self), effects@);
        }
        effects
    }

    /// Returns why setting the mint cap traps, or `None` where it does not.
    pub fn check_set_mint_cap(&self, cap: i128) -> (abort: Option<Abort>)
        ensures
            abort == self.set_mint_cap_abort(cap),
    {
        if !self.require_initialized() {
            Some(Abort::NotInitialized)
        } else if cap <= 0 {
            Some(Abort::CapNotPositive)
        } else {
            None
        }
    }

    /// Sets the most that one call mints, at the owner's request.
    pub fn set_mint_cap(&mut self, cap: i128) -> (effects: Vec<Effect>)
        requires
            old(self).wf(),
            old(self).set_mint_cap_abort(cap) is None,
        ensures
            *final(self) == (RebalancerAdmin { mint_cap: Some(cap), ..*old(self) }),
            effects@ == seq![
                Effect::RequireAuth { address: old(self).owner->0 },
                Effect::Store { entry: Entry::MintCap(cap) },
            ],
            authorized_by(effects@, old(self).owner->0),
            old(self).leads_to(*final(self), effects@),
    {
        let effects = vec![
            Effect::RequireAuth { address: self.require_owner() },
            Effect::Store { entry: Entry::MintCap(cap) },
        ];
        self.mint_cap = Some(cap);
        proof {
            lemma_one_by_one(*old(self), effects@);
        }
        effects
    }

    /// Returns the most that one call mints.
    pub fn mint_cap(&self) -> (cap: i128)
        ensures
            cap == self.cap(),
    {
        oracle::get_mint_cap(self)
    }

    /// Returns the price bounds, the lower one first.
    pub fn price_bounds(&self) -> (bounds: (i128, i128))
        ensures
            bounds == (self.floor(), self.ceiling()),
    {
        (oracle::get_price_floor(self), oracle::get_price_ceiling(self))
    }
}

} // verus!
