//! How the contract turns a request down: by an error that the caller can
//! handle, or by trapping.

use vstd::prelude::*;

verus! {

/// Errors that an entry point returns to its caller.
#[derive(Copy, Clone, Debug, Eq, PartialEq, PartialOrd, Ord, Structural)]
pub enum RebalancerAdminError {
    Unauthorized,
    NoRebalanceNeeded,
    InsufficientQuote,
    PoolEmpty,
    QuotePriceNotSet,
    AlreadyInitialized,
    NotInitialized,
    OracleStale,
    CooldownActive,
    SwapSlippage,
    PriceOutOfBounds,
    CircuitBreakerTripped,
    NonceTooLow,
    MintCapExceeded,
}

impl RebalancerAdminError {
    /// The number under which the error is reported on the ledger.
    pub open spec fn code_spec(self) -> u32 {
        match self {
            RebalancerAdminError::Unauthorized => 1,
            RebalancerAdminError::NoRebalanceNeeded => 2,
            RebalancerAdminError::InsufficientQuote => 3,
            RebalancerAdminError::PoolEmpty => 4,
            RebalancerAdminError::QuotePriceNotSet => 5,
            RebalancerAdminError::AlreadyInitialized => 6,
            RebalancerAdminError::NotInitialized => 7,
            RebalancerAdminError::OracleStale => 8,
            RebalancerAdminError::CooldownActive => 9,
            RebalancerAdminError::SwapSlippage => 10,
            RebalancerAdminError::PriceOutOfBounds => 11,
            RebalancerAdminError::CircuitBreakerTripped => 12,
            RebalancerAdminError::NonceTooLow => 13,
            RebalancerAdminError::MintCapExceeded => 14,
        }
    }

    /// Returns the number under which the error is reported on the ledger.
    pub fn code(self) -> (code: u32)
        ensures
            code == self.code_spec(),
    {
        match self {
            RebalancerAdminError::Unauthorized => 1,
            RebalancerAdminError::NoRebalanceNeeded => 2,
            RebalancerAdminError::InsufficientQuote => 3,
            RebalancerAdminError::PoolEmpty => 4,
            RebalancerAdminError::QuotePriceNotSet => 5,
            RebalancerAdminError::AlreadyInitialized => 6,
            RebalancerAdminError::NotInitialized => 7,
            RebalancerAdminError::OracleStale => 8,
            RebalancerAdminError::CooldownActive => 9,
            RebalancerAdminError::SwapSlippage => 10,
            RebalancerAdminError::PriceOutOfBounds => 11,
            RebalancerAdminError::CircuitBreakerTripped => 12,
            RebalancerAdminError::NonceTooLow => 13,
            RebalancerAdminError::MintCapExceeded => 14,
        }
    }
}

/// Reasons for which an invocation traps. A trap undoes everything that the
/// invocation did.
#[derive(Copy, Clone, Debug, Eq, PartialEq, Structural)]
pub enum Abort {
    NotInitialized,
    AlreadyInitialized,
    NotOracleOrOwner,
    MintCapExceeded,
    PriceNotPositive,
    InvalidBounds,
    CapNotPositive,
    AmountNotPositive,
    InvalidUpperBps,
    InvalidLowerBps,
    MaxMintNotPositive,
    MaxQuoteSpendNotPositive,
    MinReserveNotPositive,
    MaxStaleNotPositive,
    /// An intermediate result leaves its integer type, or a divisor is zero.
    Arithmetic,
}

impl Abort {
    /// The message that goes with the trap.
    pub open spec fn message_spec(self) -> Seq<char> {
        match self {
            Abort::NotInitialized => "Contract not initialized"@,
            Abort::AlreadyInitialized => "Already initialized"@,
            Abort::NotOracleOrOwner => "Unauthorized: must be oracle or owner"@,
            Abort::MintCapExceeded => "Mint cap exceeded"@,
            Abort::PriceNotPositive => "Price must be positive"@,
            Abort::InvalidBounds => "Invalid bounds"@,
            Abort::CapNotPositive => "Cap must be positive"@,
            Abort::AmountNotPositive => "Amount must be positive"@,
            Abort::InvalidUpperBps => "Invalid upper_bps"@,
            Abort::InvalidLowerBps => "Invalid lower_bps"@,
            Abort::MaxMintNotPositive => "max_mint must be positive"@,
            Abort::MaxQuoteSpendNotPositive => "max_quote_spend must be positive"@,
            Abort::MinReserveNotPositive => "min_reserve must be positive"@,
            Abort::MaxStaleNotPositive => "Must be positive"@,
            Abort::Arithmetic => "arithmetic overflow"@,
        }
    }

    /// Returns the message that goes with the trap.
    pub fn message(self) -> (message: &'static str)
        ensures
            message@ == self.message_spec(),
    {
        match self {
            Abort::NotInitialized => "Contract not initialized",
            Abort::AlreadyInitialized => "Already initialized",
            Abort::NotOracleOrOwner => "Unauthorized: must be oracle or owner",
            Abort::MintCapExceeded => "Mint cap exceeded",
            Abort::PriceNotPositive => "Price must be positive",
            Abort::InvalidBounds => "Invalid bounds",
            Abort::CapNotPositive => "Cap must be positive",
            Abort::AmountNotPositive => "Amount must be positive",
            Abort::InvalidUpperBps => "Invalid upper_bps",
            Abort::InvalidLowerBps => "Invalid lower_bps",
            Abort::MaxMintNotPositive => "max_mint must be positive",
            Abort::MaxQuoteSpendNotPositive => "max_quote_spend must be positive",
            Abort::MinReserveNotPositive => "min_reserve must be positive",
            Abort::MaxStaleNotPositive => "Must be positive",
            Abort::Arithmetic => "arithmetic overflow",
        }
    }
}

} // verus!
