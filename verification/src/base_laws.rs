//! What holds of the storage, of errors and events, and of the arithmetic that
//! everything else rests on.

use crate::effects::{
    lemma_units_burned_push, lemma_units_minted_push, units_burned, units_minted, Effect, Event,
};
use crate::errors::{Abort, RebalancerAdminError};
use crate::math;
use crate::state::{lemma_replay_push, DataKey, Entry, RebalancerAdmin};
use vstd::prelude::*;

verus! {

// ---------------------------------------------------------------------------
// Storage

/// A new storage holds nothing.
pub proof fn law_new_storage(admin: RebalancerAdmin)
    requires
        call_ensures(RebalancerAdmin::new, (), admin),
    ensures
        admin.sac is None,
        admin.pool is None,
        admin.quote_token is None,
        admin.ljoule_is_token0 is None,
        admin.oracle is None,
        admin.owner is None,
        admin.price_data is None,
        admin.quote_price is None,
        admin.price_floor is None,
        admin.price_ceiling is None,
        admin.mint_cap is None,
        admin.upper_bps is None,
        admin.lower_bps is None,
        admin.max_mint is None,
        admin.max_quote_spend is None,
        admin.max_stale_ledgers is None,
        admin.cooldown_ledgers is None,
        admin.last_rebalance_ledger is None,
        admin.min_reserve is None,
        admin.total_minted is None,
        admin.total_burned is None,
        admin.initialized is None,
{
}

/// Writing an entry fills the field of its name with its value, and nothing
/// else; and the entry is kept under the key of that name.
pub proof fn law_entry_fills_its_field(admin: &mut RebalancerAdmin, entry: Entry, key: DataKey)
    requires
        call_ensures(RebalancerAdmin::store, (admin, entry), ()),
        call_ensures(Entry::key, (&entry,), key),
    ensures
        entry matches Entry::Pool(v) ==> *final(admin) == (RebalancerAdmin {
            pool: Some(v),
            ..*old(admin)
        }) && key == DataKey::Pool,
        entry matches Entry::QuoteToken(v) ==> *final(admin) == (RebalancerAdmin {
            quote_token: Some(v),
            ..*old(admin)
        }) && key == DataKey::QuoteToken,
        entry matches Entry::LjouleIsToken0(v) ==> *final(admin) == (RebalancerAdmin {
            ljoule_is_token0: Some(v),
            ..*old(admin)
        }) && key == DataKey::LjouleIsToken0,
        entry matches Entry::Oracle(v) ==> *final(admin) == (RebalancerAdmin {
            oracle: Some(v),
            ..*old(admin)
        }) && key == DataKey::Oracle,
        entry matches Entry::Owner(v) ==> *final(admin) == (RebalancerAdmin {
            owner: Some(v),
            ..*old(admin)
        }) && key == DataKey::Owner,
        entry matches Entry::PriceData(v) ==> *final(admin) == (RebalancerAdmin {
            price_data: Some(v),
            ..*old(admin)
        }) && key == DataKey::PriceData,
        entry matches Entry::QuotePrice(v) ==> *final(admin) == (RebalancerAdmin {
            quote_price: Some(v),
            ..*old(admin)
        }) && key == DataKey::QuotePrice,
        entry matches Entry::PriceFloor(v) ==> *final(admin) == (RebalancerAdmin {
            price_floor: Some(v),
            ..*old(admin)
        }) && key == DataKey::PriceFloor,
        entry matches Entry::PriceCeiling(v) ==> *final(admin) == (RebalancerAdmin {
            price_ceiling: Some(v),
            ..*old(admin)
        }) && key == DataKey::PriceCeiling,
        entry matches Entry::MintCap(v) ==> *final(admin) == (RebalancerAdmin {
            mint_cap: Some(v),
            ..*old(admin)
        }) && key == DataKey::MintCap,
        entry matches Entry::UpperBps(v) ==> *final(admin) == (RebalancerAdmin {
            upper_bps: Some(v),
            ..*old(admin)
        }) && key == DataKey::UpperBps,
        entry matches Entry::LowerBps(v) ==> *final(admin) == (RebalancerAdmin {
            lower_bps: Some(v),
            ..*old(admin)
        }) && key == DataKey::LowerBps,
        entry matches Entry::MaxMint(v) ==> *final(admin) == (RebalancerAdmin {
            max_mint: Some(v),
            ..*old(admin)
        }) && key == DataKey::MaxMint,
        entry matches Entry::MaxQuoteSpend(v) ==> *final(admin) == (RebalancerAdmin {
            max_quote_spend: Some(v),
            ..*old(admin)
        }) && key == DataKey::MaxQuoteSpend,
        entry matches Entry::MaxStaleLedgers(v) ==> *final(admin) == (RebalancerAdmin {
            max_stale_ledgers: Some(v),
            ..*old(admin)
        }) && key == DataKey::MaxStaleLedgers,
        entry matches Entry::CooldownLedgers(v) ==> *final(admin) == (RebalancerAdmin {
            cooldown_ledgers: Some(v),
            ..*old(admin)
        }) && key == DataKey::CooldownLedgers,
        entry matches Entry::LastRebalanceLedger(v) ==> *final(admin) == (RebalancerAdmin {
            last_rebalance_ledger: Some(v),
            ..*old(admin)
        }) && key == DataKey::LastRebalanceLedger,
        entry matches Entry::MinReserve(v) ==> *final(admin) == (RebalancerAdmin {
            min_reserve: Some(v),
            ..*old(admin)
        }) && key == DataKey::MinReserve,
        entry matches Entry::TotalMinted(v) ==> *final(admin) == (RebalancerAdmin {
            total_minted: Some(v),
            ..*old(admin)
        }) && key == DataKey::TotalMinted,
        entry matches Entry::TotalBurned(v) ==> *final(admin) == (RebalancerAdmin {
            total_burned: Some(v),
            ..*old(admin)
        }) && key == DataKey::TotalBurned,
        entry matches Entry::Initialized(v) ==> *final(admin) == (RebalancerAdmin {
            initialized: Some(v),
            ..*old(admin)
        }) && key == DataKey::Initialized,
{
}

/// A contract counts as set up if and only if that is what is stored.
pub proof fn law_set_up_is_stored(admin: RebalancerAdmin, ok: bool)
    requires
        call_ensures(RebalancerAdmin::require_initialized, (&admin,), ok),
    ensures
        ok <==> admin.initialized == Some(true),
{
}

/// What a storage must be for the operations to work on it, and no more than
/// that: once the contract is set up, all parties are known; prices, amounts
/// and the allowed age are positive where they are stored; the price bounds are
/// stored together and leave room between them; and the widths of the band lie
/// above zero and below one hundred percent.
pub proof fn law_well_formed_storage(admin: RebalancerAdmin, ok: bool)
    requires
        call_ensures(RebalancerAdmin::is_well_formed, (&admin,), ok),
    ensures
        ok == admin.wf(),
        ok <==> {
            &&& admin.initialized == Some(true) ==> admin.sac is Some && admin.pool is Some
                && admin.quote_token is Some && admin.oracle is Some && admin.owner is Some
            &&& admin.price_data is Some ==> admin.price_data->0.price >= 1
            &&& admin.quote_price is Some ==> admin.quote_price->0 >= 1
            &&& admin.price_floor is Some ==> admin.price_ceiling is Some && 1
                <= admin.price_floor->0 < admin.price_ceiling->0
            &&& admin.price_ceiling is Some ==> admin.price_floor is Some
            &&& admin.mint_cap is Some ==> admin.mint_cap->0 >= 1
            &&& admin.upper_bps is Some ==> 1 <= admin.upper_bps->0 <= 9_999
            &&& admin.lower_bps is Some ==> 1 <= admin.lower_bps->0 <= 9_999
            &&& admin.max_mint is Some ==> admin.max_mint->0 >= 1
            &&& admin.max_quote_spend is Some ==> admin.max_quote_spend->0 >= 1
            &&& admin.min_reserve is Some ==> admin.min_reserve->0 >= 1
            &&& admin.max_stale_ledgers is Some ==> admin.max_stale_ledgers->0 >= 1
        },
{
}

/// What one more effect does to what is stored: a write writes its entry, the
/// recording of the token's address records it, and nothing else leaves a
/// trace.
pub proof fn law_effect_on_storage(
    admin: RebalancerAdmin,
    effects: Seq<Effect>,
    effect: Effect,
    written: &mut RebalancerAdmin,
)
    requires
        *written == admin.replay(effects),
    ensures
        admin.replay(Seq::empty()) == admin,
        effect matches Effect::Store { entry } ==> (call_ensures(
            RebalancerAdmin::store,
            (old(written), entry),
            (),
        ) ==> *final(written) == admin.replay(effects.push(effect))),
        effect matches Effect::SetSacAddress { sac } ==> admin.replay(effects.push(effect)) == (
        RebalancerAdmin { sac: Some(sac), ..*old(written) }),
        !(effect is Store) && !(effect is SetSacAddress) ==> admin.replay(effects.push(effect))
            == *old(written),
{
    lemma_replay_push(admin, effects, effect);
}

/// What one more effect does to the supply: minting adds to what is minted, a
/// clawback to what is burned, by its amount, and nothing else counts.
pub proof fn law_effect_on_supply(effects: Seq<Effect>, effect: Effect)
    ensures
        units_minted(Seq::empty()) == 0,
        units_burned(Seq::empty()) == 0,
        units_minted(effects.push(effect)) - units_minted(effects)
            == if effect is Mint {
            effect->Mint_amount as int
        } else {
            0
        },
        units_burned(effects.push(effect)) - units_burned(effects)
            == if effect is Clawback {
            effect->Clawback_amount as int
        } else {
            0
        },
{
    lemma_units_minted_push(effects, effect);
    lemma_units_burned_push(effects, effect);
}

// ---------------------------------------------------------------------------
// Errors and events

/// The numbers under which errors are reported. No two errors share one.
pub proof fn law_error_codes(error: RebalancerAdminError, code: u32)
    requires
        call_ensures(RebalancerAdminError::code, (error,), code),
    ensures
        1 <= code <= 14,
        error is Unauthorized <==> code == 1,
        error is NoRebalanceNeeded <==> code == 2,
        error is InsufficientQuote <==> code == 3,
        error is PoolEmpty <==> code == 4,
        error is QuotePriceNotSet <==> code == 5,
        error is AlreadyInitialized <==> code == 6,
        error is NotInitialized <==> code == 7,
        error is OracleStale <==> code == 8,
        error is CooldownActive <==> code == 9,
        error is SwapSlippage <==> code == 10,
        error is PriceOutOfBounds <==> code == 11,
        error is CircuitBreakerTripped <==> code == 12,
        error is NonceTooLow <==> code == 13,
        error is MintCapExceeded <==> code == 14,
{
}

/// The messages that go with traps.
pub proof fn law_trap_messages(abort: Abort, message: &'static str)
    requires
        call_ensures(Abort::message, (abort,), message),
    ensures
        abort is NotInitialized ==> message@ == "Contract not initialized"@,
        abort is AlreadyInitialized ==> message@ == "Already initialized"@,
        abort is NotOracleOrOwner ==> message@ == "Unauthorized: must be oracle or owner"@,
        abort is MintCapExceeded ==> message@ == "Mint cap exceeded"@,
        abort is PriceNotPositive ==> message@ == "Price must be positive"@,
        abort is InvalidBounds ==> message@ == "Invalid bounds"@,
        abort is CapNotPositive ==> message@ == "Cap must be positive"@,
        abort is AmountNotPositive ==> message@ == "Amount must be positive"@,
        abort is InvalidUpperBps ==> message@ == "Invalid upper_bps"@,
        abort is InvalidLowerBps ==> message@ == "Invalid lower_bps"@,
        abort is MaxMintNotPositive ==> message@ == "max_mint must be positive"@,
        abort is MaxQuoteSpendNotPositive ==> message@ == "max_quote_spend must be positive"@,
        abort is MinReserveNotPositive ==> message@ == "min_reserve must be positive"@,
        abort is MaxStaleNotPositive ==> message@ == "Must be positive"@,
        abort is Arithmetic ==> message@ == "arithmetic overflow"@,
{
}

/// The topics under which events are published.
pub proof fn law_event_topics(event: Event, topic: &'static str)
    requires
        call_ensures(Event::topic, (&event,), topic),
    ensures
        event is Initialized ==> topic@ == "initialized"@,
        event is SacAdminChanged ==> topic@ == "sac_admin_changed"@,
        event is AuthorizationChanged ==> topic@ == "authorization_changed"@,
        event is Minted ==> topic@ == "minted"@,
        event is Clawback ==> topic@ == "clawback"@,
        event is QuotePriceSet ==> topic@ == "quote_price_set"@,
        event is PriceUpdated ==> topic@ == "price_updated"@,
        event is PriceOverride ==> topic@ == "price_override"@,
        event is PriceBoundsSet ==> topic@ == "price_bounds_set"@,
        event is SlippageWarning ==> topic@ == "slippage_warning"@,
        event is RebalanceMint ==> topic@ == "rebalance_mint"@,
        event is RebalanceBuyback ==> topic@ == "rebalance_buyback"@,
        event is Funded ==> topic@ == "funded"@,
        event is Withdraw ==> topic@ == "withdraw"@,
        event is OracleChanged ==> topic@ == "oracle_changed"@,
        event is PoolChanged ==> topic@ == "pool_changed"@,
        event is ParamsUpdated ==> topic@ == "params_updated"@,
        event is MaxStaleChanged ==> topic@ == "max_stale_changed"@,
{
}

// ---------------------------------------------------------------------------
// Arithmetic

/// Division rounds toward zero: what remains is smaller than the divisor, and
/// on the same side of zero as the dividend. There is a quotient unless the
/// divisor is zero, or the quotient is out of range.
pub proof fn law_division(a: i128, b: i128, q: Option<i128>)
    requires
        call_ensures(math::checked_quotient, (a, b), q),
    ensures
        q is None <==> b == 0 || (a == i128::MIN && b == -1),
        q matches Some(q) ==> {
            let rest = a - q * b;
            &&& -rest < if b > 0 { b as int } else { -b }
            &&& rest < if b > 0 { b as int } else { -b }
            &&& a >= 0 ==> rest >= 0
            &&& a <= 0 ==> rest <= 0
        },
{
    if b != 0 {
        math::lemma_quotient_fits(a as int, b as int);
    }
    if q is Some {
        let n = if a >= 0 {
            a as int
        } else {
            -a
        };
        let d = b as int;
        let e = n / d;
        assert(0 <= n - e * d < if d > 0 { d } else { -d }) by (nonlinear_arith)
            requires
                d != 0,
                e == n / d,
        ;
        let rest = a - q->0 * b;
        assert(rest == if a >= 0 { n - e * d } else { -(n - e * d) }) by (nonlinear_arith)
            requires
                rest == a - q->0 * b,
                q->0 == if a >= 0 { e } else { -e },
                d == b,
                n == if a >= 0 { a as int } else { -a },
        ;
        assert(n == 0 ==> n - e * d == 0) by (nonlinear_arith)
            requires
                d != 0,
                e == n / d,
        ;
    }
}

/// The integer square root exists for every number: the largest natural number
/// whose square is at most `n`, and zero below zero.
pub proof fn law_square_root(n: i128, r: i128)
    requires
        call_ensures(math::isqrt, (n,), r),
    ensures
        r >= 0,
        n >= 0 ==> r * r <= n < (r + 1) * (r + 1),
        n < 0 ==> r == 0,
        call_requires(math::isqrt, (n,)),
{
    if n == 0 {
        assert(r * r == 0 && (r + 1) * (r + 1) == 1) by (nonlinear_arith)
            requires
                r == 0,
        ;
    }
}

/// The root of a product over a divisor is the largest natural number whose
/// square, times the divisor, is at most the product.
pub proof fn law_root_of_product(a: i128, b: i128, d: i128, r: i128)
    requires
        b >= 0,
        d > 0,
        b * d <= a,
        call_ensures(math::isqrt_of_product, (a, b, d), r),
    ensures
        r >= 0,
        r * r * d <= a * b < (r + 1) * (r + 1) * d,
        call_requires(math::isqrt_of_product, (a, b, d)),
{
    assert(a * b >= 0) by (nonlinear_arith)
        requires
            b >= 0,
            d > 0,
            b * d <= a,
    ;
    math::lemma_root_of_quotient(a * b, d as int, r as int);
}

/// Fractions are compared by cross-multiplication.
pub proof fn law_fractions(a: i128, b: i128, c: i128, d: i128, ok: bool)
    requires
        a >= 0,
        b > 0,
        c >= 0,
        d > 0,
        call_ensures(math::fraction_at_most, (a, b, c, d), ok),
    ensures
        ok <==> a * d <= c * b,
        call_requires(math::fraction_at_most, (a, b, c, d)),
{
}

} // verus!
