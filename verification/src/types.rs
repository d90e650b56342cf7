//! Plain data of the market: accounts, pools, predictions and configuration.

use vstd::prelude::*;

verus! {

/// Shortest admissible time, in seconds, between creating a pool and its close.
pub const MIN_POOL_DURATION: u64 = 3600;

/// Largest number of outcomes a pool may offer.
pub const MAX_OPTIONS_COUNT: u32 = 100;

/// Smallest number of outcomes a pool may offer.
pub const MIN_OPTIONS_COUNT: u32 = 2;

/// Largest liquidity a creator may seed a pool with, in base units of the asset.
pub const MAX_INITIAL_LIQUIDITY: i128 = 100_000_000_000_000;

/// Stake, in base units, from which a prediction is also reported as a high-value one.
pub const HIGH_VALUE_THRESHOLD: i128 = 1_000_000;

/// Largest fee rate, in basis points.
pub const MAX_FEE_BPS: u32 = 10_000;

/// Largest length of a pool's description, in bytes.
pub const MAX_DESCRIPTION_LEN: usize = 256;

/// Largest length of a pool's metadata URL, in bytes.
pub const MAX_METADATA_URL_LEN: usize = 512;

/// Number of outcomes from which every stake also reports the whole stake table as changed.
pub const BATCH_SIGNAL_OPTIONS: u32 = 16;

/// Identity of an account or contract, by the text the host knows it under.
#[derive(Debug, PartialEq, Eq)]
pub struct Address {
    pub key: String,
}

impl View for Address {
    type V = Seq<char>;

    open spec fn view(&self) -> Seq<char> {
        self.key@
    }
}

impl Clone for Address {
    fn clone(&self) -> (copy: Self)
        ensures
            copy == *self,
    {
        Address { key: self.key.clone() }
    }
}

impl Address {
    /// The address named by `key`.
    pub fn new(key: &str) -> (address: Address)
        ensures
            address@ == key@,
    {
        Address { key: key.to_owned() }
    }

    /// Whether two addresses name the same account.
    pub fn same(&self, other: &Address) -> (equal: bool)
        ensures
            equal == (self@ == other@),
    {
        self.key == other.key
    }
}

/// Where a pool stands in its life. `Resolved` and `Canceled` are final.
#[derive(Clone, Copy, Debug, PartialEq, Eq, Structural)]
pub enum MarketState {
    Active,
    Resolved,
    Canceled,
}

impl MarketState {
    /// The number under which the state is stored and reported.
    pub open spec fn spec_code(self) -> u32 {
        match self {
            MarketState::Active => 0,
            MarketState::Resolved => 1,
            MarketState::Canceled => 2,
        }
    }

    /// The number under which the state is stored and reported.
    pub fn code(&self) -> (code: u32)
        ensures
            code == self.spec_code(),
    {
        match self {
            MarketState::Active => 0,
            MarketState::Resolved => 1,
            MarketState::Canceled => 2,
        }
    }

    /// The state stored under `code`, if there is one.
    pub fn from_code(code: u32) -> (state: Option<MarketState>)
        ensures
            code > 2 <==> state is None,
            state matches Some(s) ==> s.spec_code() == code,
    {
        if code == 0 {
            Some(MarketState::Active)
        } else if code == 1 {
            Some(MarketState::Resolved)
        } else if code == 2 {
            Some(MarketState::Canceled)
        } else {
            None
        }
    }

    /// Whether the state is final: no transition leaves it.
    pub open spec fn is_final(self) -> bool {
        self != MarketState::Active
    }
}

/// One user's stake in one pool.
#[derive(Clone, Copy, Debug, PartialEq, Eq, Structural)]
pub struct Prediction {
    /// Amount staked, in base units of the pool's asset.
    pub amount: i128,
    /// Index of the outcome the stake is placed on.
    pub outcome: u32,
}

/// One prediction market.
#[derive(Debug, PartialEq, Eq)]
pub struct Pool {
    /// Time after which no stake is accepted.
    pub end_time: u64,
    pub resolved: bool,
    pub canceled: bool,
    pub state: MarketState,
    /// Winning outcome; meaningful once the pool is resolved.
    pub outcome: u32,
    /// The asset that stakes are paid in.
    pub token: Address,
    /// Everything staked in the pool, the creator's liquidity included.
    pub total_stake: i128,
    pub description: String,
    pub metadata_url: String,
    /// Number of outcomes; stakes go on outcomes `0 .. options_count`.
    pub options_count: u32,
    /// What the creator seeded the pool with.
    pub initial_liquidity: i128,
    pub creator: Address,
    pub category: String,
}

impl Clone for Pool {
    fn clone(&self) -> (copy: Self)
        ensures
            copy == *self,
    {
        Pool {
            end_time: self.end_time,
            resolved: self.resolved,
            canceled: self.canceled,
            state: self.state,
            outcome: self.outcome,
            token: self.token.clone(),
            total_stake: self.total_stake,
            description: self.description.clone(),
            metadata_url: self.metadata_url.clone(),
            options_count: self.options_count,
            initial_liquidity: self.initial_liquidity,
            creator: self.creator.clone(),
            category: self.category.clone(),
        }
    }
}

/// The contract's settings.
#[derive(Debug, PartialEq, Eq)]
pub struct Config {
    /// Fee rate in basis points.
    pub fee_bps: u32,
    pub treasury: Address,
    /// The collaborator that answers which address holds which role.
    pub access_control: Address,
    /// Seconds that must pass after a pool's close before it can be resolved.
    pub resolution_delay: u64,
}

impl Clone for Config {
    fn clone(&self) -> (copy: Self)
        ensures
            copy == *self,
    {
        Config {
            fee_bps: self.fee_bps,
            treasury: self.treasury.clone(),
            access_control: self.access_control.clone(),
            resolution_delay: self.resolution_delay,
        }
    }
}

/// One line of a user's prediction history: the stake and the pool it is in.
#[derive(Clone, Copy, Debug, PartialEq, Eq, Structural)]
pub struct UserPredictionDetail {
    pub pool_id: u64,
    pub amount: i128,
    pub user_outcome: u32,
    pub pool_end_time: u64,
    pub pool_state: MarketState,
    pub pool_outcome: u32,
}

} // verus!
