//! What the contract asks of the ledger.
//!
//! An entry point does not touch the ledger itself. It returns the effects
//! that the ledger is to carry out, in order.

use crate::address::Address;
use crate::state::Entry;
use vstd::prelude::*;

verus! {

/// Remaining lifetime, in ledgers, below which the stored data is renewed
/// (about one day).
pub const TTL_THRESHOLD: u32 = 17_280;

/// Lifetime, in ledgers, that a renewal restores (about 30 days).
pub const TTL_EXTEND_TO: u32 = 518_400;

/// A single request to the ledger. If the ledger cannot carry it out, the
/// invocation traps.
#[derive(Clone, Copy, Debug, PartialEq, Eq)]
pub enum Effect {
    /// Demand that the address has authorized this invocation.
    RequireAuth { address: Address },
    /// Renew the stored data if less than `threshold` ledgers are left to it.
    ExtendTtl { threshold: u32, extend_to: u32 },
    /// Write an entry of the contract's instance storage.
    Store { entry: Entry },
    /// Record the address of the token that this contract administers.
    SetSacAddress { sac: Address },
    /// Hand the administration of the token to another address.
    SetAdmin { new_admin: Address },
    /// Allow or forbid an address to use its balance of the token.
    SetAuthorized { id: Address, authorize: bool },
    /// Create units of the token.
    Mint { to: Address, amount: i128 },
    /// Destroy units of the token.
    Clawback { from: Address, amount: i128 },
    /// Move units of any token.
    Transfer { token: Address, from: Address, to: Address, amount: i128 },
    /// Have the pool pay out what was bought with an earlier transfer to it.
    Swap { pool: Address, amount0_out: i128, amount1_out: i128, to: Address },
    /// Replace the code of the contract.
    UpdateWasm { wasm_hash: [u8; 32] },
    /// Publish an event.
    Publish { event: Event },
}

/// An event, with the data that is published under its topic.
#[derive(Clone, Copy, Debug, PartialEq, Eq)]
pub enum Event {
    Initialized { sac: Address, pool: Address },
    SacAdminChanged { new_admin: Address },
    AuthorizationChanged { id: Address, authorize: bool },
    Minted { to: Address, amount: i128 },
    Clawback { from: Address, amount: i128 },
    QuotePriceSet { price: i128 },
    PriceUpdated { price_scaled: i128, nonce: u64 },
    PriceOverride { price_scaled: i128, nonce: u64 },
    PriceBoundsSet { floor: i128, ceiling: i128 },
    SlippageWarning { received: i128, expected: i128, minimum: i128 },
    RebalanceMint {
        mint_amount: i128,
        usdc_received: i128,
        reserve_quote: i128,
        reserve_ljoule: i128,
    },
    RebalanceBuyback {
        quote_to_spend: i128,
        ljoule_received: i128,
        reserve_quote: i128,
        reserve_ljoule: i128,
    },
    Funded { from: Address, amount: i128 },
    Withdraw { token: Address, to: Address, amount: i128 },
    OracleChanged { oracle: Address },
    PoolChanged { pool: Address },
    ParamsUpdated { upper_bps: u32, lower_bps: u32, max_mint: i128, max_quote_spend: i128 },
    MaxStaleChanged { max_stale_ledgers: u32 },
}

impl Event {
    /// The topic under which the event is published.
    pub open spec fn topic_spec(self) -> Seq<char> {
        match self {
            Event::Initialized { .. } => "initialized"@,
            Event::SacAdminChanged { .. } => "sac_admin_changed"@,
            Event::AuthorizationChanged { .. } => "authorization_changed"@,
            Event::Minted { .. } => "minted"@,
            Event::Clawback { .. } => "clawback"@,
            Event::QuotePriceSet { .. } => "quote_price_set"@,
            Event::PriceUpdated { .. } => "price_updated"@,
            Event::PriceOverride { .. } => "price_override"@,
            Event::PriceBoundsSet { .. } => "price_bounds_set"@,
            Event::SlippageWarning { .. } => "slippage_warning"@,
            Event::RebalanceMint { .. } => "rebalance_mint"@,
            Event::RebalanceBuyback { .. } => "rebalance_buyback"@,
            Event::Funded { .. } => "funded"@,
            Event::Withdraw { .. } => "withdraw"@,
            Event::OracleChanged { .. } => "oracle_changed"@,
            Event::PoolChanged { .. } => "pool_changed"@,
            Event::ParamsUpdated { .. } => "params_updated"@,
            Event::MaxStaleChanged { .. } => "max_stale_changed"@,
        }
    }

    /// Returns the topic under which the event is published.
    pub fn topic(&self) -> (topic: &'static str)
        ensures
            topic@ == self.topic_spec(),
    {
        match self {
            Event::Initialized { .. } => "initialized",
            Event::SacAdminChanged { .. } => "sac_admin_changed",
            Event::AuthorizationChanged { .. } => "authorization_changed",
            Event::Minted { .. } => "minted",
            Event::Clawback { .. } => "clawback",
            Event::QuotePriceSet { .. } => "quote_price_set",
            Event::PriceUpdated { .. } => "price_updated",
            Event::PriceOverride { .. } => "price_override",
            Event::PriceBoundsSet { .. } => "price_bounds_set",
            Event::SlippageWarning { .. } => "slippage_warning",
            Event::RebalanceMint { .. } => "rebalance_mint",
            Event::RebalanceBuyback { .. } => "rebalance_buyback",
            Event::Funded { .. } => "funded",
            Event::Withdraw { .. } => "withdraw",
            Event::OracleChanged { .. } => "oracle_changed",
            Event::PoolChanged { .. } => "pool_changed",
            Event::ParamsUpdated { .. } => "params_updated",
            Event::MaxStaleChanged { .. } => "max_stale_changed",
        }
    }
}

impl Effect {
    /// The number of units of the token that the effect creates.
    pub open spec fn minted(self) -> int {
        match self {
            Effect::Mint { amount, .. } => amount as int,
            _ => 0,
        }
    }

    /// The number of units of the token that the effect destroys.
    pub open spec fn burned(self) -> int {
        match self {
            Effect::Clawback { amount, .. } => amount as int,
            _ => 0,
        }
    }
}

/// The number of units of the token that the effects create.
pub open spec fn units_minted(effects: Seq<Effect>) -> int
    decreases effects.len(),
{
    if effects.len() == 0 {
        0
    } else {
        units_minted(effects.drop_last()) + effects.last().minted()
    }
}

/// The number of units of the token that the effects destroy.
pub open spec fn units_burned(effects: Seq<Effect>) -> int
    decreases effects.len(),
{
    if effects.len() == 0 {
        0
    } else {
        units_burned(effects.drop_last()) + effects.last().burned()
    }
}

/// Units minted, one effect at a time.
pub broadcast proof fn lemma_units_minted_push(effects: Seq<Effect>, effect: Effect)
    ensures
        #[trigger] units_minted(effects.push(effect)) == units_minted(effects) + effect.minted(),
{
    assert(effects.push(effect).drop_last() =~= effects);
}

/// Units burned, one effect at a time.
pub broadcast proof fn lemma_units_burned_push(effects: Seq<Effect>, effect: Effect)
    ensures
        #[trigger] units_burned(effects.push(effect)) == units_burned(effects) + effect.burned(),
{
    assert(effects.push(effect).drop_last() =~= effects);
}

/// Whether an effect changes nothing on the ledger but the lifetime of what is
/// stored there.
pub open spec fn is_harmless(effect: Effect) -> bool {
    effect is RequireAuth || effect is ExtendTtl
}

/// Whether the effects demand `address`'s authorization before they change
/// anything.
pub open spec fn authorized_by(effects: Seq<Effect>, address: Address) -> bool {
    exists|i: int|
        #![trigger effects[i]]
        0 <= i < effects.len() && effects[i] == (Effect::RequireAuth { address }) && forall|j: int|
            0 <= j < i ==> is_harmless(#[trigger] effects[j])
}

} // verus!
