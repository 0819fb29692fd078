//! What the operations on set-up, supply and configuration do, on what is
//! stored and given.

use crate::address::Address;
use crate::effects::{Effect, Event};
use crate::errors::Abort;
use crate::plain::{given, in_range};
use crate::state::{Entry, RebalancerAdmin};
use crate::status::Config;
use vstd::prelude::*;

verus! {

// ---------------------------------------------------------------------------
// Parties

/// Setting the contract up gives it its parties and the default parameters, and
/// leaves the rest alone. The configuration is then read back.
pub proof fn law_set_up(
    admin: &mut RebalancerAdmin,
    sac: Address,
    pool: Address,
    quote_token: Address,
    oracle: Address,
    owner: Address,
    ljoule_is_token0: bool,
    effects: Vec<Effect>,
    config: Config,
)
    requires
        call_ensures(
            RebalancerAdmin::initialize,
            (admin, sac, pool, quote_token, oracle, owner, ljoule_is_token0),
            effects,
        ),
    ensures
        *final(admin) == (RebalancerAdmin {
            sac: Some(sac),
            pool: Some(pool),
            quote_token: Some(quote_token),
            oracle: Some(oracle),
            owner: Some(owner),
            ljoule_is_token0: Some(ljoule_is_token0),
            upper_bps: Some(500),
            lower_bps: Some(500),
            max_mint: Some(100_000_000_000),
            max_quote_spend: Some(50_000_000_000),
            max_stale_ledgers: Some(1_000),
            cooldown_ledgers: Some(12),
            min_reserve: Some(10_000_000),
            initialized: Some(true),
            ..*old(admin)
        }),
        call_ensures(RebalancerAdmin::get_config, (&*final(admin),), config) ==> config == (
        Config {
            sac,
            pool,
            quote_token,
            oracle,
            owner,
            quote_price: given(old(admin).quote_price, 0),
            upper_bps: 500,
            lower_bps: 500,
            max_mint: 100_000_000_000,
            max_quote_spend: 50_000_000_000,
            ljoule_is_token0,
            max_stale_ledgers: 1_000,
            cooldown_ledgers: 12,
            min_reserve: 10_000_000,
        }),
{
}

/// What setting the contract up asks of the ledger: to record the token's
/// address, to write every entry that was set, the mark of the set-up last, and
/// to announce it.
pub proof fn law_set_up_is_written(
    admin: &mut RebalancerAdmin,
    sac: Address,
    pool: Address,
    quote_token: Address,
    oracle: Address,
    owner: Address,
    ljoule_is_token0: bool,
    effects: Vec<Effect>,
)
    requires
        call_ensures(
            RebalancerAdmin::initialize,
            (admin, sac, pool, quote_token, oracle, owner, ljoule_is_token0),
            effects,
        ),
    ensures
        effects@ == seq![
            Effect::SetSacAddress { sac },
            Effect::Store { entry: Entry::Pool(pool) },
            Effect::Store { entry: Entry::QuoteToken(quote_token) },
            Effect::Store { entry: Entry::Oracle(oracle) },
            Effect::Store { entry: Entry::Owner(owner) },
            Effect::Store { entry: Entry::LjouleIsToken0(ljoule_is_token0) },
            Effect::Store { entry: Entry::UpperBps(500) },
            Effect::Store { entry: Entry::LowerBps(500) },
            Effect::Store { entry: Entry::MaxMint(100_000_000_000) },
            Effect::Store { entry: Entry::MaxQuoteSpend(50_000_000_000) },
            Effect::Store { entry: Entry::MaxStaleLedgers(1_000) },
            Effect::Store { entry: Entry::CooldownLedgers(12) },
            Effect::Store { entry: Entry::MinReserve(10_000_000) },
            Effect::Store { entry: Entry::Initialized(true) },
            Effect::Publish { event: Event::Initialized { sac, pool } },
        ],
{
}

/// A contract is set up if and only if it was not before.
pub proof fn law_set_up_traps_when(
    admin: &mut RebalancerAdmin,
    sac: Address,
    pool: Address,
    quote_token: Address,
    oracle: Address,
    owner: Address,
    ljoule_is_token0: bool,
    abort: Option<Abort>,
)
    requires
        admin.wf(),
        call_ensures(RebalancerAdmin::check_initialize, (&*admin,), abort),
    ensures
        abort == Some(Abort::AlreadyInitialized) <==> old(admin).initialized == Some(true),
        abort is None <==> old(admin).initialized != Some(true),
        old(admin).initialized != Some(true) ==> call_requires(
            RebalancerAdmin::initialize,
            (old(admin), sac, pool, quote_token, oracle, owner, ljoule_is_token0),
        ),
{
}

/// Who counts as the oracle, as the owner, and as either of them.
pub proof fn law_parties(
    admin: RebalancerAdmin,
    operator: Address,
    oracle: Address,
    owner: Address,
    either: bool,
)
    requires
        call_ensures(RebalancerAdmin::require_oracle, (&admin,), oracle),
        call_ensures(RebalancerAdmin::require_owner, (&admin,), owner),
        call_ensures(RebalancerAdmin::require_oracle_or_owner, (&admin, &operator), either),
    ensures
        admin.oracle == Some(oracle),
        admin.owner == Some(owner),
        either <==> operator == oracle || operator == owner,
        admin.wf() && admin.initialized == Some(true) ==> {
            &&& call_requires(RebalancerAdmin::require_oracle, (&admin,))
            &&& call_requires(RebalancerAdmin::require_owner, (&admin,))
            &&& call_requires(RebalancerAdmin::require_oracle_or_owner, (&admin, &operator))
        },
{
}

/// Two addresses are equal if and only if all their characters are.
pub proof fn law_equal_addresses(a: Address, b: Address, equal: bool)
    requires
        call_ensures(<Address as PartialEq>::eq, (&a, &b), equal),
    ensures
        equal <==> forall|i: int| 0 <= i < 56 ==> a.strkey[i] == b.strkey[i],
{
    if forall|i: int| 0 <= i < 56 ==> a.strkey[i] == b.strkey[i] {
        assert(a.strkey =~= b.strkey);
    }
}

/// Every operation but the set-up, and but those that only read a number, traps
/// on a contract that was not set up, and those that have no condition of their
/// own trap nowhere else.
pub proof fn law_entry(
    admin: &mut RebalancerAdmin,
    party: Address,
    operator: Address,
    flag: bool,
    hash: [u8; 32],
    abort: Option<Abort>,
)
    requires
        admin.wf(),
        call_ensures(RebalancerAdmin::check_entry, (&*admin,), abort),
    ensures
        abort == Some(Abort::NotInitialized) <==> old(admin).initialized != Some(true),
        abort is None <==> old(admin).initialized == Some(true),
        old(admin).initialized == Some(true) ==> {
            &&& call_requires(RebalancerAdmin::set_admin, (&*old(admin), party, operator))
            &&& call_requires(
                RebalancerAdmin::set_authorized,
                (&*old(admin), party, flag, operator),
            )
            &&& call_requires(RebalancerAdmin::set_oracle, (old(admin), party))
            &&& call_requires(RebalancerAdmin::set_pool, (old(admin), party, flag))
            &&& call_requires(RebalancerAdmin::upgrade, (&*old(admin), hash))
            &&& call_requires(RebalancerAdmin::get_config, (&*old(admin),))
        },
{
}

/// The owner, and whoever asks, must agree before the administration of the
/// token changes hands, or before a holder is allowed or forbidden to use the
/// token. That much is announced, and nothing is stored.
pub proof fn law_token_administration(
    admin: RebalancerAdmin,
    party: Address,
    operator: Address,
    authorize: bool,
    handed: Vec<Effect>,
    allowed: Vec<Effect>,
)
    requires
        call_ensures(RebalancerAdmin::set_admin, (&admin, party, operator), handed),
        call_ensures(
            RebalancerAdmin::set_authorized,
            (&admin, party, authorize, operator),
            allowed,
        ),
    ensures
        handed@ == seq![
            Effect::RequireAuth { address: admin.owner->0 },
            Effect::RequireAuth { address: operator },
            Effect::SetAdmin { new_admin: party },
            Effect::Publish { event: Event::SacAdminChanged { new_admin: party } },
        ],
        allowed@ == seq![
            Effect::RequireAuth { address: admin.owner->0 },
            Effect::RequireAuth { address: operator },
            Effect::SetAuthorized { id: party, authorize },
            Effect::Publish { event: Event::AuthorizationChanged { id: party, authorize } },
        ],
{
}

// ---------------------------------------------------------------------------
// Supply

/// Minting traps for one of four reasons, and nowhere else: the contract was
/// not set up; the operator is neither the stored oracle nor the stored owner;
/// the amount is above the stored cap, or else above 10,000 LJOULE; or the
/// total goes out of range. So the oracle may mint, and so may the owner.
pub proof fn law_mint_traps_when(
    admin: &mut RebalancerAdmin,
    to: Address,
    amount: i128,
    operator: Address,
    abort: Option<Abort>,
)
    requires
        admin.wf(),
        call_ensures(RebalancerAdmin::check_mint, (&*admin, amount, operator), abort),
    ensures
        ({
            let set_up = old(admin).initialized == Some(true);
            let entitled = old(admin).oracle == Some(operator) || old(admin).owner == Some(
                operator,
            );
            let capped = amount <= given(old(admin).mint_cap, 100_000_000_000);
            let counted = in_range(given(old(admin).total_minted, 0) + amount);
            &&& abort == Some(Abort::NotInitialized) <==> !set_up
            &&& abort == Some(Abort::NotOracleOrOwner) <==> set_up && !entitled
            &&& abort == Some(Abort::MintCapExceeded) <==> set_up && entitled && !capped
            &&& abort == Some(Abort::Arithmetic) <==> set_up && entitled && capped && !counted
            &&& abort is None <==> set_up && entitled && capped && counted
            &&& set_up && entitled && capped && counted ==> call_requires(
                RebalancerAdmin::mint,
                (old(admin), to, amount, operator),
            )
        }),
{
}

/// Minting creates exactly the amount, for the given holder, once the operator
/// has agreed. It raises the total minted and the circulating supply by that
/// amount, and changes nothing else.
pub proof fn law_mint(
    admin: &mut RebalancerAdmin,
    to: Address,
    amount: i128,
    operator: Address,
    effects: Vec<Effect>,
    before: (i128, i128, i128),
    after: (i128, i128, i128),
)
    requires
        call_ensures(RebalancerAdmin::mint, (admin, to, amount, operator), effects),
        in_range(given(admin.total_minted, 0) + amount),
        call_ensures(RebalancerAdmin::total_minted, (&*admin,), before.0),
        call_ensures(RebalancerAdmin::total_burned, (&*admin,), before.1),
        call_ensures(RebalancerAdmin::circulating_supply, (&*admin,), before.2),
    ensures
        effects@.len() == 4,
        effects@[0] == (Effect::RequireAuth { address: operator }),
        effects@[1] == (Effect::Mint { to, amount }),
        effects@[2] matches Effect::Store { entry } && entry matches Entry::TotalMinted(total)
            && total == before.0 + amount,
        effects@[3] == (Effect::Publish { event: Event::Minted { to, amount } }),
        final(admin).total_minted is Some && *final(admin) == (RebalancerAdmin {
            total_minted: final(admin).total_minted,
            ..*old(admin)
        }),
        call_ensures(RebalancerAdmin::total_minted, (&*final(admin),), after.0) ==> after.0
            == before.0 + amount,
        call_ensures(RebalancerAdmin::total_burned, (&*final(admin),), after.1) ==> after.1
            == before.1,
        call_ensures(RebalancerAdmin::circulating_supply, (&*final(admin),), after.2) ==> after.2
            == before.2 + amount,
{
}

/// Clawing back traps for one of three reasons, and nowhere else: the contract
/// was not set up; the operator is neither the stored oracle nor the stored
/// owner; or the total goes out of range.
pub proof fn law_clawback_traps_when(
    admin: &mut RebalancerAdmin,
    from: Address,
    amount: i128,
    operator: Address,
    abort: Option<Abort>,
)
    requires
        admin.wf(),
        call_ensures(RebalancerAdmin::check_clawback, (&*admin, amount, operator), abort),
    ensures
        ({
            let set_up = old(admin).initialized == Some(true);
            let entitled = old(admin).oracle == Some(operator) || old(admin).owner == Some(
                operator,
            );
            let counted = in_range(given(old(admin).total_burned, 0) + amount);
            &&& abort == Some(Abort::NotInitialized) <==> !set_up
            &&& abort == Some(Abort::NotOracleOrOwner) <==> set_up && !entitled
            &&& abort == Some(Abort::Arithmetic) <==> set_up && entitled && !counted
            &&& abort is None <==> set_up && entitled && counted
            &&& set_up && entitled && counted ==> call_requires(
                RebalancerAdmin::clawback,
                (old(admin), from, amount, operator),
            )
        }),
{
}

/// Clawing back destroys exactly the amount, of the given holder, once the
/// operator has agreed. It raises the total burned and lowers the circulating
/// supply by that amount, and changes nothing else.
pub proof fn law_clawback(
    admin: &mut RebalancerAdmin,
    from: Address,
    amount: i128,
    operator: Address,
    effects: Vec<Effect>,
    before: (i128, i128, i128),
    after: (i128, i128, i128),
)
    requires
        call_ensures(RebalancerAdmin::clawback, (admin, from, amount, operator), effects),
        in_range(given(admin.total_burned, 0) + amount),
        call_ensures(RebalancerAdmin::total_minted, (&*admin,), before.0),
        call_ensures(RebalancerAdmin::total_burned, (&*admin,), before.1),
        call_ensures(RebalancerAdmin::circulating_supply, (&*admin,), before.2),
    ensures
        effects@.len() == 4,
        effects@[0] == (Effect::RequireAuth { address: operator }),
        effects@[1] == (Effect::Clawback { from, amount }),
        effects@[2] matches Effect::Store { entry } && entry matches Entry::TotalBurned(total)
            && total == before.1 + amount,
        effects@[3] == (Effect::Publish { event: Event::Clawback { from, amount } }),
        final(admin).total_burned is Some && *final(admin) == (RebalancerAdmin {
            total_burned: final(admin).total_burned,
            ..*old(admin)
        }),
        call_ensures(RebalancerAdmin::total_minted, (&*final(admin),), after.0) ==> after.0
            == before.0,
        call_ensures(RebalancerAdmin::total_burned, (&*final(admin),), after.1) ==> after.1
            == before.1 + amount,
        call_ensures(RebalancerAdmin::circulating_supply, (&*final(admin),), after.2) ==> after.2
            == before.2 - amount,
{
}

/// The totals are those that are stored, and zero at first. What circulates is
/// the difference, and asking for it traps only where that goes out of range.
pub proof fn law_supply_is_read(
    admin: RebalancerAdmin,
    minted: i128,
    burned: i128,
    supply: i128,
    abort: Option<Abort>,
)
    requires
        call_ensures(RebalancerAdmin::total_minted, (&admin,), minted),
        call_ensures(RebalancerAdmin::total_burned, (&admin,), burned),
        call_ensures(RebalancerAdmin::circulating_supply, (&admin,), supply),
        call_ensures(RebalancerAdmin::check_circulating_supply, (&admin,), abort),
    ensures
        minted == given(admin.total_minted, 0),
        burned == given(admin.total_burned, 0),
        supply == minted - burned,
        abort == Some(Abort::Arithmetic) <==> !in_range(minted - burned),
        abort is None <==> in_range(minted - burned),
        in_range(minted - burned) ==> call_requires(
            RebalancerAdmin::circulating_supply,
            (&admin,),
        ),
{
}

// ---------------------------------------------------------------------------
// Funds

/// Funding moves the amount of the quote token from the funder, who must agree,
/// to the contract. Withdrawing moves it, in any token, from the contract to
/// the receiver, if the owner agrees. Both are announced, and nothing is
/// stored.
pub proof fn law_funds(
    admin: RebalancerAdmin,
    this: Address,
    token: Address,
    party: Address,
    amount: i128,
    funded: Vec<Effect>,
    withdrawn: Vec<Effect>,
)
    requires
        call_ensures(RebalancerAdmin::fund_quote, (&admin, this, party, amount), funded),
        call_ensures(RebalancerAdmin::withdraw, (&admin, this, token, party, amount), withdrawn),
    ensures
        funded@ == seq![
            Effect::RequireAuth { address: party },
            Effect::Transfer { token: admin.quote_token->0, from: party, to: this, amount },
            Effect::Publish { event: Event::Funded { from: party, amount } },
        ],
        withdrawn@ == seq![
            Effect::RequireAuth { address: admin.owner->0 },
            Effect::Transfer { token, from: this, to: party, amount },
            Effect::Publish { event: Event::Withdraw { token, to: party, amount } },
        ],
{
}

/// Moving funds traps where the contract was not set up, and where the amount
/// is not positive, and nowhere else.
pub proof fn law_funds_trap_when(
    admin: RebalancerAdmin,
    this: Address,
    token: Address,
    party: Address,
    amount: i128,
    abort: Option<Abort>,
)
    requires
        admin.wf(),
        call_ensures(RebalancerAdmin::check_transfer, (&admin, amount), abort),
    ensures
        abort == Some(Abort::NotInitialized) <==> admin.initialized != Some(true),
        abort == Some(Abort::AmountNotPositive) <==> admin.initialized == Some(true) && amount <= 0,
        abort is None <==> admin.initialized == Some(true) && amount > 0,
        admin.initialized == Some(true) && amount > 0 ==> {
            &&& call_requires(RebalancerAdmin::fund_quote, (&admin, this, party, amount))
            &&& call_requires(RebalancerAdmin::withdraw, (&admin, this, token, party, amount))
        },
{
}

// ---------------------------------------------------------------------------
// Configuration

/// The owner changes the oracle. It is stored and announced, nothing else
/// changes, and from then on it is the oracle who must agree.
pub proof fn law_oracle_is_changed(
    admin: &mut RebalancerAdmin,
    oracle: Address,
    effects: Vec<Effect>,
    asked: Address,
)
    requires
        call_ensures(RebalancerAdmin::set_oracle, (admin, oracle), effects),
    ensures
        *final(admin) == (RebalancerAdmin { oracle: Some(oracle), ..*old(admin) }),
        effects@ == seq![
            Effect::RequireAuth { address: old(admin).owner->0 },
            Effect::Store { entry: Entry::Oracle(oracle) },
            Effect::Publish { event: Event::OracleChanged { oracle } },
        ],
        call_ensures(RebalancerAdmin::require_oracle, (&*final(admin),), asked) ==> asked
            == oracle,
{
}

/// The owner changes the pool. It is stored together with the order of its
/// tokens, the pool is announced, and nothing else changes.
pub proof fn law_pool_is_changed(
    admin: &mut RebalancerAdmin,
    pool: Address,
    ljoule_is_token0: bool,
    effects: Vec<Effect>,
    config: Config,
)
    requires
        call_ensures(RebalancerAdmin::set_pool, (admin, pool, ljoule_is_token0), effects),
    ensures
        *final(admin) == (RebalancerAdmin {
            pool: Some(pool),
            ljoule_is_token0: Some(ljoule_is_token0),
            ..*old(admin)
        }),
        effects@ == seq![
            Effect::RequireAuth { address: old(admin).owner->0 },
            Effect::Store { entry: Entry::Pool(pool) },
            Effect::Store { entry: Entry::LjouleIsToken0(ljoule_is_token0) },
            Effect::Publish { event: Event::PoolChanged { pool } },
        ],
        call_ensures(RebalancerAdmin::get_config, (&*final(admin),), config) ==> config.pool
            == pool && config.ljoule_is_token0 == ljoule_is_token0,
{
}

/// The owner changes the rebalancing parameters. Each is stored under its own
/// name and read back from there, and nothing else changes.
pub proof fn law_params_are_changed(
    admin: &mut RebalancerAdmin,
    upper_bps: u32,
    lower_bps: u32,
    max_mint: i128,
    max_quote_spend: i128,
    cooldown_ledgers: u32,
    min_reserve: i128,
    effects: Vec<Effect>,
    config: Config,
)
    requires
        call_ensures(
            RebalancerAdmin::set_params,
            (
                admin,
                upper_bps,
                lower_bps,
                max_mint,
                max_quote_spend,
                cooldown_ledgers,
                min_reserve,
            ),
            effects,
        ),
    ensures
        *final(admin) == (RebalancerAdmin {
            upper_bps: Some(upper_bps),
            lower_bps: Some(lower_bps),
            max_mint: Some(max_mint),
            max_quote_spend: Some(max_quote_spend),
            cooldown_ledgers: Some(cooldown_ledgers),
            min_reserve: Some(min_reserve),
            ..*old(admin)
        }),
        effects@ == seq![
            Effect::RequireAuth { address: old(admin).owner->0 },
            Effect::Store { entry: Entry::UpperBps(upper_bps) },
            Effect::Store { entry: Entry::LowerBps(lower_bps) },
            Effect::Store { entry: Entry::MaxMint(max_mint) },
            Effect::Store { entry: Entry::MaxQuoteSpend(max_quote_spend) },
            Effect::Store { entry: Entry::CooldownLedgers(cooldown_ledgers) },
            Effect::Store { entry: Entry::MinReserve(min_reserve) },
            Effect::Publish {
                event: Event::ParamsUpdated { upper_bps, lower_bps, max_mint, max_quote_spend },
            },
        ],
        call_ensures(RebalancerAdmin::get_config, (&*final(admin),), config) ==> {
            &&& config.upper_bps == upper_bps
            &&& config.lower_bps == lower_bps
            &&& config.max_mint == max_mint
            &&& config.max_quote_spend == max_quote_spend
            &&& config.cooldown_ledgers == cooldown_ledgers
            &&& config.min_reserve == min_reserve
        },
{
}

/// Changing the rebalancing parameters traps where the contract was not set up,
/// and at the first parameter that is not allowed: a width of the band must lie
/// above zero and below one hundred percent, an amount above zero. It traps
/// nowhere else.
pub proof fn law_params_trap_when(
    admin: &mut RebalancerAdmin,
    upper_bps: u32,
    lower_bps: u32,
    max_mint: i128,
    max_quote_spend: i128,
    cooldown_ledgers: u32,
    min_reserve: i128,
    abort: Option<Abort>,
)
    requires
        admin.wf(),
        call_ensures(
            RebalancerAdmin::check_set_params,
            (&*admin, upper_bps, lower_bps, max_mint, max_quote_spend, min_reserve),
            abort,
        ),
    ensures
        ({
            let set_up = old(admin).initialized == Some(true);
            let upper = 1 <= upper_bps <= 9_999;
            let lower = 1 <= lower_bps <= 9_999;
            &&& abort == Some(Abort::NotInitialized) <==> !set_up
            &&& abort == Some(Abort::InvalidUpperBps) <==> set_up && !upper
            &&& abort == Some(Abort::InvalidLowerBps) <==> set_up && upper && !lower
            &&& abort == Some(Abort::MaxMintNotPositive) <==> set_up && upper && lower && max_mint
                <= 0
            &&& abort == Some(Abort::MaxQuoteSpendNotPositive) <==> set_up && upper && lower
                && max_mint > 0 && max_quote_spend <= 0
            &&& abort == Some(Abort::MinReserveNotPositive) <==> set_up && upper && lower
                && max_mint > 0 && max_quote_spend > 0 && min_reserve <= 0
            &&& abort is None <==> set_up && upper && lower && max_mint > 0 && max_quote_spend > 0
                && min_reserve > 0
            &&& set_up && upper && lower && max_mint > 0 && max_quote_spend > 0 && min_reserve > 0
                ==> call_requires(
                RebalancerAdmin::set_params,
                (
                    old(admin),
                    upper_bps,
                    lower_bps,
                    max_mint,
                    max_quote_spend,
                    cooldown_ledgers,
                    min_reserve,
                ),
            )
        }),
{
}

/// The owner changes the allowed age of the oracle price. It is stored,
/// announced and read back, and nothing else changes.
pub proof fn law_age_is_changed(
    admin: &mut RebalancerAdmin,
    ledgers: u32,
    effects: Vec<Effect>,
    config: Config,
)
    requires
        call_ensures(RebalancerAdmin::set_max_stale, (admin, ledgers), effects),
    ensures
        *final(admin) == (RebalancerAdmin { max_stale_ledgers: Some(ledgers), ..*old(admin) }),
        effects@ == seq![
            Effect::RequireAuth { address: old(admin).owner->0 },
            Effect::Store { entry: Entry::MaxStaleLedgers(ledgers) },
            Effect::Publish { event: Event::MaxStaleChanged { max_stale_ledgers: ledgers } },
        ],
        call_ensures(RebalancerAdmin::get_config, (&*final(admin),), config)
            ==> config.max_stale_ledgers == ledgers,
{
}

/// Changing the allowed age traps where the contract was not set up, and where
/// the age is zero, and nowhere else.
pub proof fn law_age_traps_when(admin: &mut RebalancerAdmin, ledgers: u32, abort: Option<Abort>)
    requires
        admin.wf(),
        call_ensures(RebalancerAdmin::check_set_max_stale, (&*admin, ledgers), abort),
    ensures
        abort == Some(Abort::NotInitialized) <==> old(admin).initialized != Some(true),
        abort == Some(Abort::MaxStaleNotPositive) <==> old(admin).initialized == Some(true)
            && ledgers == 0,
        abort is None <==> old(admin).initialized == Some(true) && ledgers > 0,
        old(admin).initialized == Some(true) && ledgers > 0 ==> call_requires(
            RebalancerAdmin::set_max_stale,
            (old(admin), ledgers),
        ),
{
}

/// The owner replaces the code by the one with the given hash, and the stored
/// data is kept alive.
pub proof fn law_upgrade(admin: RebalancerAdmin, hash: [u8; 32], effects: Vec<Effect>)
    requires
        call_ensures(RebalancerAdmin::upgrade, (&admin, hash), effects),
    ensures
        effects@ == seq![
            Effect::RequireAuth { address: admin.owner->0 },
            Effect::ExtendTtl { threshold: 17_280, extend_to: 518_400 },
            Effect::UpdateWasm { wasm_hash: hash },
        ],
{
}

} // verus!
