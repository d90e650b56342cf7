//! What an operation leaves for the world outside: the signals it emits and the
//! asset transfers it asks for.

use crate::access::Operation;
use crate::types::Address;
use vstd::prelude::*;

verus! {

/// The contract was given its configuration.
#[derive(Debug, PartialEq, Eq)]
pub struct InitEvent {
    pub access_control: Address,
    pub treasury: Address,
    pub fee_bps: u32,
    pub resolution_delay: u64,
}

/// The contract was paused.
#[derive(Debug, PartialEq, Eq)]
pub struct PauseEvent {
    pub admin: Address,
}

/// The contract was taken out of its pause.
#[derive(Debug, PartialEq, Eq)]
pub struct UnpauseEvent {
    pub admin: Address,
}

/// The fee rate changed.
#[derive(Debug, PartialEq, Eq)]
pub struct FeeUpdateEvent {
    pub admin: Address,
    pub fee_bps: u32,
}

/// The treasury address changed.
#[derive(Debug, PartialEq, Eq)]
pub struct TreasuryUpdateEvent {
    pub admin: Address,
    pub treasury: Address,
}

/// The resolution delay changed.
#[derive(Debug, PartialEq, Eq)]
pub struct ResolutionDelayUpdateEvent {
    pub admin: Address,
    pub delay: u64,
}

/// A pool's resolution delay has passed: it can be resolved.
#[derive(Clone, Copy, Debug, PartialEq, Eq, Structural)]
pub struct PoolReadyForResolutionEvent {
    pub pool_id: u64,
    pub timestamp: u64,
}

/// A pool was created.
#[derive(Debug, PartialEq, Eq)]
pub struct PoolCreatedEvent {
    pub pool_id: u64,
    pub end_time: u64,
    pub token: Address,
    pub options_count: u32,
    pub metadata_url: String,
    pub initial_liquidity: i128,
    pub category: String,
}

/// A pool's creator seeded it with liquidity.
#[derive(Debug, PartialEq, Eq)]
pub struct InitialLiquidityProvidedEvent {
    pub pool_id: u64,
    pub creator: Address,
    pub amount: i128,
}

/// A pool was resolved to an outcome.
#[derive(Debug, PartialEq, Eq)]
pub struct PoolResolvedEvent {
    pub pool_id: u64,
    pub operator: Address,
    pub outcome: u32,
}

/// A pool was resolved by an oracle, on the proof it gave.
#[derive(Debug, PartialEq, Eq)]
pub struct OracleResolvedEvent {
    pub pool_id: u64,
    pub oracle: Address,
    pub outcome: u32,
    pub proof: String,
}

/// A pool was canceled.
#[derive(Debug, PartialEq, Eq)]
pub struct PoolCanceledEvent {
    pub pool_id: u64,
    pub caller: Address,
    /// Why the pool was canceled, where a reason was recorded.
    pub reason: Option<String>,
    pub operator: Address,
}

/// A stake was placed.
#[derive(Debug, PartialEq, Eq)]
pub struct PredictionPlacedEvent {
    pub pool_id: u64,
    pub user: Address,
    pub amount: i128,
    pub outcome: u32,
}

/// A user was paid from a settled pool.
#[derive(Debug, PartialEq, Eq)]
pub struct WinningsClaimedEvent {
    pub pool_id: u64,
    pub user: Address,
    pub amount: i128,
}

/// Alert: a caller without the role tried to resolve a pool.
#[derive(Debug, PartialEq, Eq)]
pub struct UnauthorizedResolveAttemptEvent {
    pub caller: Address,
    pub pool_id: u64,
    pub timestamp: u64,
}

/// Alert: a caller without the role tried a guarded operation.
#[derive(Debug, PartialEq, Eq)]
pub struct UnauthorizedAdminAttemptEvent {
    pub caller: Address,
    pub operation: Operation,
    pub timestamp: u64,
}

/// Alert: a user who has claimed from a pool tried to claim from it again.
#[derive(Debug, PartialEq, Eq)]
pub struct SuspiciousDoubleClaimEvent {
    pub user: Address,
    pub pool_id: u64,
    pub timestamp: u64,
}

/// Alert: the contract was paused.
#[derive(Debug, PartialEq, Eq)]
pub struct ContractPausedAlertEvent {
    pub admin: Address,
    pub timestamp: u64,
}

/// A stake at or above the high-value threshold was placed.
#[derive(Debug, PartialEq, Eq)]
pub struct HighValuePredictionEvent {
    pub pool_id: u64,
    pub user: Address,
    pub amount: i128,
    pub outcome: u32,
    pub threshold: i128,
}

/// Figures of a resolution: what was staked in all and on the winning outcome.
/// A winning stake of zero says that nobody backed the outcome.
#[derive(Clone, Copy, Debug, PartialEq, Eq, Structural)]
pub struct PoolResolvedDiagEvent {
    pub pool_id: u64,
    pub outcome: u32,
    pub total_stake: i128,
    pub winning_stake: i128,
    pub timestamp: u64,
}

/// The stake table of a pool with many outcomes changed.
#[derive(Clone, Copy, Debug, PartialEq, Eq, Structural)]
pub struct OutcomeStakesUpdatedEvent {
    pub pool_id: u64,
    pub options_count: u32,
    pub total_stake: i128,
}

/// An asset was put on the allow-list.
#[derive(Debug, PartialEq, Eq)]
pub struct TokenWhitelistAddedEvent {
    pub admin: Address,
    pub token: Address,
}

/// An asset was taken off the allow-list.
#[derive(Debug, PartialEq, Eq)]
pub struct TokenWhitelistRemovedEvent {
    pub admin: Address,
    pub token: Address,
}

/// A signal for whoever watches the contract.
#[derive(Debug, PartialEq, Eq)]
pub enum Event {
    Init(InitEvent),
    Pause(PauseEvent),
    Unpause(UnpauseEvent),
    FeeUpdate(FeeUpdateEvent),
    TreasuryUpdate(TreasuryUpdateEvent),
    ResolutionDelayUpdate(ResolutionDelayUpdateEvent),
    PoolReadyForResolution(PoolReadyForResolutionEvent),
    PoolCreated(PoolCreatedEvent),
    InitialLiquidityProvided(InitialLiquidityProvidedEvent),
    PoolResolved(PoolResolvedEvent),
    OracleResolved(OracleResolvedEvent),
    PoolCanceled(PoolCanceledEvent),
    PredictionPlaced(PredictionPlacedEvent),
    WinningsClaimed(WinningsClaimedEvent),
    UnauthorizedResolveAttempt(UnauthorizedResolveAttemptEvent),
    UnauthorizedAdminAttempt(UnauthorizedAdminAttemptEvent),
    SuspiciousDoubleClaim(SuspiciousDoubleClaimEvent),
    ContractPausedAlert(ContractPausedAlertEvent),
    HighValuePrediction(HighValuePredictionEvent),
    PoolResolvedDiag(PoolResolvedDiagEvent),
    OutcomeStakesUpdated(OutcomeStakesUpdatedEvent),
    TokenWhitelistAdded(TokenWhitelistAddedEvent),
    TokenWhitelistRemoved(TokenWhitelistRemovedEvent),
}

/// An end of a transfer: the contract itself, or an account.
#[derive(Debug, PartialEq, Eq)]
pub enum Party {
    Contract,
    Account(Address),
}

/// A request to move `amount` of the asset `token` from one party to another.
#[derive(Debug, PartialEq, Eq)]
pub struct Transfer {
    pub token: Address,
    pub from: Party,
    pub to: Party,
    pub amount: i128,
}

} // verus!
