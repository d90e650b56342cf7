//! Settlement core of a pari-mutuel prediction market.
//!
//! Users stake an asset on one of several outcomes of a future event. After the
//! event an authorized party declares the winning outcome, and each winner is
//! owed a share of everything staked, in proportion to their stake.
//!
//! The library holds the rules and the state of such a market as plain values.
//! It moves no asset and asks no one for a role: it is told the time and whether
//! the caller holds the role an operation asks for, and it records the transfers
//! and events that the host is to carry out.
//!
//! The rules come in layers. [`settlement`], [`lifecycle`], [`stakes`],
//! [`index`] and [`access`] each speak of one thing at a time: a payout, a
//! pool, a stake table, a list of pool ids, a caller at the gateway. [`market`]
//! keeps the books of one pool. [`contract`] is the contract as a whole, with
//! one method for each entry point, and [`model`] says in plain mathematics
//! what each of them does. [`laws`] and [`conservation`] prove what holds over
//! all calls: that the books balance, that a settled pool stays settled, that
//! nobody is paid twice, and that a pool pays out no more than it holds.

pub mod access;
pub mod accounts;
pub mod conservation;
pub mod contract;
pub mod error;
pub mod events;
pub mod index;
pub mod laws;
pub mod lifecycle;
pub mod market;
pub mod model;
pub mod preservation;
pub mod settlement;
pub mod stakes;
pub mod types;

pub use access::{DummyAccessControl, Operation, ROLE_ADMIN, ROLE_OPERATOR, ROLE_ORACLE};
pub use contract::{OracleCallback, PredifiContract};
pub use error::{Failure, Fault, PredifiError};
pub use events::{
    ContractPausedAlertEvent, Event, FeeUpdateEvent, HighValuePredictionEvent, InitEvent,
    InitialLiquidityProvidedEvent, OracleResolvedEvent, OutcomeStakesUpdatedEvent, Party,
    PauseEvent, PoolCanceledEvent, PoolCreatedEvent, PoolReadyForResolutionEvent,
    PoolResolvedDiagEvent, PoolResolvedEvent, PredictionPlacedEvent, ResolutionDelayUpdateEvent,
    SuspiciousDoubleClaimEvent, TokenWhitelistAddedEvent, TokenWhitelistRemovedEvent, Transfer,
    TreasuryUpdateEvent, UnauthorizedAdminAttemptEvent, UnauthorizedResolveAttemptEvent,
    UnpauseEvent, WinningsClaimedEvent,
};
pub use types::{Address, Config, MarketState, Pool, Prediction, UserPredictionDetail};
