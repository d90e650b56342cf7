//! The contract as plain mathematics: what it has stored, and what each entry
//! point makes of that.
//!
//! Every entry point is a function from the state before the call and the
//! call's arguments to the state after it and what the caller is told. A call
//! that is abandoned leaves the state as it was. A call that is denied leaves
//! the state as it was but for an alert among the events, where one is due.

use crate::access::{admission, Operation};
use crate::error::{Failure, Fault, PredifiError};
use crate::events::{
    ContractPausedAlertEvent, Event, FeeUpdateEvent, HighValuePredictionEvent,
    InitEvent, InitialLiquidityProvidedEvent, OracleResolvedEvent, OutcomeStakesUpdatedEvent,
    Party, PauseEvent, PoolCanceledEvent, PoolCreatedEvent, PoolReadyForResolutionEvent,
    PoolResolvedDiagEvent, PoolResolvedEvent, PredictionPlacedEvent,
    ResolutionDelayUpdateEvent, SuspiciousDoubleClaimEvent, TokenWhitelistAddedEvent,
    TokenWhitelistRemovedEvent, Transfer, TreasuryUpdateEvent, UnauthorizedAdminAttemptEvent,
    UnauthorizedResolveAttemptEvent, UnpauseEvent, WinningsClaimedEvent,
};
use crate::index::{backward_page, forward_page};
use crate::lifecycle::{
    byte_len, cancel_failure, canceled_pool, creation_fault, opened_pool, ready_failure,
    resolve_failure, resolved_pool,
};
use crate::market::MarketView;
use crate::stakes::stake_at;
use crate::types::{
    Address, Config, UserPredictionDetail, BATCH_SIGNAL_OPTIONS, HIGH_VALUE_THRESHOLD,
    MAX_FEE_BPS,
};
use vstd::prelude::*;

verus! {

/// Everything the contract has stored, and everything it has handed out.
#[verifier::ext_equal]
pub struct ContractState {
    /// The settings, once the contract is initialized.
    pub config: Option<Config>,
    pub paused: bool,
    /// The pools with their books; a pool's id is its place in the sequence.
    pub markets: Seq<MarketView>,
    /// For each user, the pools they staked in, oldest first.
    pub user_index: Map<Seq<char>, Seq<u64>>,
    /// For each category, the pools created under it, oldest first.
    pub category_index: Map<Seq<char>, Seq<u64>>,
    /// The assets that stakes may be paid in.
    pub whitelist: Set<Seq<char>>,
    /// The signals emitted so far, oldest first.
    pub events: Seq<Event>,
    /// The transfers asked for so far, oldest first.
    pub transfers: Seq<Transfer>,
}

impl ContractState {
    /// The state of a contract that has never been called.
    pub open spec fn empty() -> ContractState {
        ContractState {
            config: None,
            paused: false,
            markets: Seq::empty(),
            user_index: Map::total(|user: Seq<char>| Seq::empty()),
            category_index: Map::total(|category: Seq<char>| Seq::empty()),
            whitelist: Set::empty(),
            events: Seq::empty(),
            transfers: Seq::empty(),
        }
    }

    /// Whether a pool has the id `pool_id`.
    pub open spec fn has_pool(self, pool_id: u64) -> bool {
        pool_id < self.markets.len()
    }

    /// The pool with the id `pool_id`, with its books.
    pub open spec fn market(self, pool_id: u64) -> MarketView {
        self.markets[pool_id as int]
    }

    /// What holds of the state whatever calls were made.
    ///
    /// The books of every pool are in order. Both indices list only pools that
    /// exist, a user's index only pools that the user has a stake in, and no
    /// list or counter has outgrown its type.
    pub open spec fn inv(self) -> bool {
        &&& self.markets.len() <= u64::MAX
        &&& forall|id: int| 0 <= id < self.markets.len() ==> (#[trigger] self.markets[id]).inv()
        &&& forall|user: Seq<char>| #[trigger] self.user_index.dom().contains(user)
        &&& forall|user: Seq<char>| (#[trigger] self.user_index[user]).len() <= u32::MAX
        &&& forall|user: Seq<char>, k: int|
            0 <= k < self.user_index[user].len() ==> {
                &&& (#[trigger] self.user_index[user][k]) < self.markets.len()
                &&& self.markets[self.user_index[user][k] as int].has_stake(user)
            }
        &&& forall|category: Seq<char>| #[trigger] self.category_index.dom().contains(category)
        &&& forall|category: Seq<char>|
            (#[trigger] self.category_index[category]).len() <= u32::MAX
        &&& forall|category: Seq<char>, k: int|
            0 <= k < self.category_index[category].len() ==> (
            #[trigger] self.category_index[category][k]) < self.markets.len()
    }

    /// The state with `event` emitted.
    pub open spec fn emit(self, event: Event) -> ContractState {
        ContractState { events: self.events.push(event), ..self }
    }

    /// The state with `transfer` asked for.
    pub open spec fn request(self, transfer: Transfer) -> ContractState {
        ContractState { transfers: self.transfers.push(transfer), ..self }
    }

    /// The state with the books of pool `pool_id` replaced by `market`.
    pub open spec fn with_market(self, pool_id: u64, market: MarketView) -> ContractState {
        ContractState { markets: self.markets.update(pool_id as int, market), ..self }
    }

    /// The state with the settings replaced by `config`.
    pub open spec fn with_config(self, config: Config) -> ContractState {
        ContractState { config: Some(config), ..self }
    }

    /// Initializing: gives the contract its settings where it has none, and
    /// changes nothing where it has. Settings with a fee rate above its bound
    /// are not taken.
    pub open spec fn init(
        self,
        access_control: Address,
        treasury: Address,
        fee_bps: u32,
        resolution_delay: u64,
    ) -> (ContractState, Result<(), Fault>) {
        if self.config is Some {
            (self, Ok(()))
        } else if fee_bps > MAX_FEE_BPS {
            (self, Err(Fault::FeeTooHigh))
        } else {
            (
                self.with_config(
                    Config { fee_bps, treasury, access_control, resolution_delay },
                ).emit(
                    Event::Init(InitEvent { access_control, treasury, fee_bps, resolution_delay }),
                ),
                Ok(()),
            )
        }
    }

    /// The gateway before a guarded operation: why `caller` may not go on, if
    /// so, and the state that the refusal leaves. A caller who is stopped for
    /// want of the role is reported by an alert.
    pub open spec fn gate(
        self,
        caller: Address,
        authorized: bool,
        operation: Operation,
        now: u64,
        guarded: bool,
    ) -> Option<(ContractState, Failure)> {
        match admission(guarded, self.paused, self.config is Some, authorized) {
            None => None,
            Some(failure) => if failure == Failure::Denied(PredifiError::Unauthorized) {
                Some(
                    (
                        self.emit(
                            Event::UnauthorizedAdminAttempt(
                                UnauthorizedAdminAttemptEvent { caller, operation, timestamp: now },
                            ),
                        ),
                        failure,
                    ),
                )
            } else {
                Some((self, failure))
            },
        }
    }

    /// Pausing.
    pub open spec fn pause(
        self,
        admin: Address,
        authorized: bool,
        now: u64,
    ) -> (ContractState, Result<(), Failure>) {
        match self.gate(admin, authorized, Operation::Pause, now, false) {
            Some((state, failure)) => (state, Err(failure)),
            None => (
                ContractState { paused: true, ..self }.emit(
                    Event::ContractPausedAlert(ContractPausedAlertEvent { admin, timestamp: now }),
                ).emit(Event::Pause(PauseEvent { admin })),
                Ok(()),
            ),
        }
    }

    /// Ending the pause.
    pub open spec fn unpause(
        self,
        admin: Address,
        authorized: bool,
        now: u64,
    ) -> (ContractState, Result<(), Failure>) {
        match self.gate(admin, authorized, Operation::Unpause, now, false) {
            Some((state, failure)) => (state, Err(failure)),
            None => (
                ContractState { paused: false, ..self }.emit(
                    Event::Unpause(UnpauseEvent { admin }),
                ),
                Ok(()),
            ),
        }
    }

    /// Setting the fee rate.
    pub open spec fn set_fee_bps(
        self,
        admin: Address,
        authorized: bool,
        fee_bps: u32,
        now: u64,
    ) -> (ContractState, Result<(), Failure>) {
        match self.gate(admin, authorized, Operation::SetFeeBps, now, true) {
            Some((state, failure)) => (state, Err(failure)),
            None => if fee_bps > MAX_FEE_BPS {
                (self, Err(Failure::Aborted(Fault::FeeTooHigh)))
            } else {
                (
                    self.with_config(Config { fee_bps, ..self.config->Some_0 }).emit(
                        Event::FeeUpdate(FeeUpdateEvent { admin, fee_bps }),
                    ),
                    Ok(()),
                )
            },
        }
    }

    /// Setting the treasury.
    pub open spec fn set_treasury(
        self,
        admin: Address,
        authorized: bool,
        treasury: Address,
        now: u64,
    ) -> (ContractState, Result<(), Failure>) {
        match self.gate(admin, authorized, Operation::SetTreasury, now, true) {
            Some((state, failure)) => (state, Err(failure)),
            None => (
                self.with_config(Config { treasury, ..self.config->Some_0 }).emit(
                    Event::TreasuryUpdate(TreasuryUpdateEvent { admin, treasury }),
                ),
                Ok(()),
            ),
        }
    }

    /// Setting the resolution delay.
    pub open spec fn set_resolution_delay(
        self,
        admin: Address,
        authorized: bool,
        delay: u64,
        now: u64,
    ) -> (ContractState, Result<(), Failure>) {
        match self.gate(admin, authorized, Operation::SetResolutionDelay, now, true) {
            Some((state, failure)) => (state, Err(failure)),
            None => (
                self.with_config(Config { resolution_delay: delay, ..self.config->Some_0 }).emit(
                    Event::ResolutionDelayUpdate(ResolutionDelayUpdateEvent { admin, delay }),
                ),
                Ok(()),
            ),
        }
    }

    /// Putting an asset on the allow-list.
    pub open spec fn add_token_to_whitelist(
        self,
        admin: Address,
        authorized: bool,
        token: Address,
        now: u64,
    ) -> (ContractState, Result<(), Failure>) {
        match self.gate(admin, authorized, Operation::AddTokenToWhitelist, now, true) {
            Some((state, failure)) => (state, Err(failure)),
            None => (
                ContractState { whitelist: self.whitelist.insert(token@), ..self }.emit(
                    Event::TokenWhitelistAdded(TokenWhitelistAddedEvent { admin, token }),
                ),
                Ok(()),
            ),
        }
    }

    /// Taking an asset off the allow-list.
    pub open spec fn remove_token_from_whitelist(
        self,
        admin: Address,
        authorized: bool,
        token: Address,
        now: u64,
    ) -> (ContractState, Result<(), Failure>) {
        match self.gate(admin, authorized, Operation::RemoveTokenFromWhitelist, now, true) {
            Some((state, failure)) => (state, Err(failure)),
            None => (
                ContractState { whitelist: self.whitelist.remove(token@), ..self }.emit(
                    Event::TokenWhitelistRemoved(TokenWhitelistRemovedEvent { admin, token }),
                ),
                Ok(()),
            ),
        }
    }

    /// Why a pool with these settings cannot be created at time `now`, if it
    /// cannot.
    pub open spec fn create_failure(
        self,
        end_time: u64,
        token: Address,
        options_count: u32,
        description: String,
        metadata_url: String,
        initial_liquidity: i128,
        category: String,
        now: u64,
    ) -> Option<Failure> {
        if self.paused {
            Some(Failure::Aborted(Fault::Paused))
        } else if !self.whitelist.contains(token@) {
            Some(Failure::Denied(PredifiError::TokenNotWhitelisted))
        } else {
            match creation_fault(
                now,
                end_time,
                options_count,
                initial_liquidity,
                byte_len(description@),
                byte_len(metadata_url@),
            ) {
                Some(fault) => Some(Failure::Aborted(fault)),
                None => if self.category_index[category@].len() >= u32::MAX || self.markets.len()
                    >= u64::MAX {
                    Some(Failure::Aborted(Fault::Overflow))
                } else {
                    None
                },
            }
        }
    }

    /// Creating a pool. The new pool has the next id, is listed last under its
    /// category, and is active with the creator's liquidity as its total. The
    /// liquidity, where there is any, is asked of the creator.
    pub open spec fn create_pool(
        self,
        creator: Address,
        end_time: u64,
        token: Address,
        options_count: u32,
        description: String,
        metadata_url: String,
        initial_liquidity: i128,
        category: String,
        now: u64,
    ) -> (ContractState, Result<u64, Failure>) {
        match self.create_failure(
            end_time,
            token,
            options_count,
            description,
            metadata_url,
            initial_liquidity,
            category,
            now,
        ) {
            Some(failure) => (self, Err(failure)),
            None => {
                let pool_id = self.markets.len() as u64;
                let pool = opened_pool(
                    creator,
                    end_time,
                    token,
                    options_count,
                    description,
                    metadata_url,
                    initial_liquidity,
                    category,
                );
                let stored = ContractState {
                    markets: self.markets.push(MarketView::opened(pool)),
                    category_index: self.category_index.insert(
                        category@,
                        self.category_index[category@].push(pool_id),
                    ),
                    ..self
                };
                let created = Event::PoolCreated(
                    PoolCreatedEvent {
                        pool_id,
                        end_time,
                        token,
                        options_count,
                        metadata_url,
                        initial_liquidity,
                        category,
                    },
                );
                if initial_liquidity > 0 {
                    (
                        stored.request(
                            Transfer {
                                token,
                                from: Party::Account(creator),
                                to: Party::Contract,
                                amount: initial_liquidity,
                            },
                        ).emit(created).emit(
                            Event::InitialLiquidityProvided(
                                InitialLiquidityProvidedEvent {
                                    pool_id,
                                    creator,
                                    amount: initial_liquidity,
                                },
                            ),
                        ),
                        Ok(pool_id),
                    )
                } else {
                    (stored.emit(created), Ok(pool_id))
                }
            },
        }
    }

    /// Resolving a pool, by an operator or, where `evidence` is given, by an
    /// oracle. The pause is looked at first, then the settings, the caller's
    /// role, whether the pool exists, and then what the pool itself says.
    pub open spec fn resolve(
        self,
        caller: Address,
        authorized: bool,
        pool_id: u64,
        outcome: u32,
        evidence: Option<String>,
        now: u64,
    ) -> (ContractState, Result<(), Failure>) {
        if let Some(failure) = admission(true, self.paused, self.config is Some, authorized) {
            if failure == Failure::Denied(PredifiError::Unauthorized) {
                (
                    self.emit(
                        Event::UnauthorizedResolveAttempt(
                            UnauthorizedResolveAttemptEvent { caller, pool_id, timestamp: now },
                        ),
                    ),
                    Err(failure),
                )
            } else {
                (self, Err(failure))
            }
        } else if !self.has_pool(pool_id) {
            (self, Err(Failure::Aborted(Fault::PoolNotFound)))
        } else {
            let market = self.market(pool_id);
            match resolve_failure(market.pool, self.config->Some_0.resolution_delay, outcome, now) {
                Some(failure) => (self, Err(failure)),
                None => {
                    let stored = self.with_market(
                        pool_id,
                        market.with_pool(resolved_pool(market.pool, outcome)),
                    );
                    let announced = match evidence {
                        Some(evidence) => stored.emit(
                            Event::OracleResolved(
                                OracleResolvedEvent {
                                    pool_id,
                                    oracle: caller,
                                    outcome,
                                    proof: evidence,
                                },
                            ),
                        ),
                        None => stored,
                    };
                    (
                        announced.emit(
                            Event::PoolResolved(
                                PoolResolvedEvent { pool_id, operator: caller, outcome },
                            ),
                        ).emit(
                            Event::PoolResolvedDiag(
                                PoolResolvedDiagEvent {
                                    pool_id,
                                    outcome,
                                    total_stake: market.pool.total_stake,
                                    winning_stake: stake_at(market.stakes, outcome as int),
                                    timestamp: now,
                                },
                            ),
                        ),
                        Ok(()),
                    )
                },
            }
        }
    }

    /// Resolving a pool as an operator.
    pub open spec fn resolve_pool(
        self,
        operator: Address,
        authorized: bool,
        pool_id: u64,
        outcome: u32,
        now: u64,
    ) -> (ContractState, Result<(), Failure>) {
        self.resolve(operator, authorized, pool_id, outcome, None, now)
    }

    /// Resolving a pool as an oracle, on `evidence`.
    pub open spec fn oracle_resolve(
        self,
        oracle: Address,
        authorized: bool,
        pool_id: u64,
        outcome: u32,
        evidence: String,
        now: u64,
    ) -> (ContractState, Result<(), Failure>) {
        self.resolve(oracle, authorized, pool_id, outcome, Some(evidence), now)
    }

    /// Asking whether a pool is ready to be resolved. Anyone may ask, paused or
    /// not; nothing changes but that a pool found ready is announced.
    pub open spec fn mark_pool_ready(
        self,
        pool_id: u64,
        now: u64,
    ) -> (ContractState, Result<(), Failure>) {
        if !self.has_pool(pool_id) {
            (self, Err(Failure::Aborted(Fault::PoolNotFound)))
        } else if self.market(pool_id).pool.state != crate::types::MarketState::Active {
            (self, Err(Failure::Denied(PredifiError::InvalidPoolState)))
        } else if self.config is None {
            (self, Err(Failure::Aborted(Fault::NotInitialized)))
        } else {
            match ready_failure(
                self.market(pool_id).pool,
                self.config->Some_0.resolution_delay,
                now,
            ) {
                Some(error) => (self, Err(Failure::Denied(error))),
                None => (
                    self.emit(
                        Event::PoolReadyForResolution(
                            PoolReadyForResolutionEvent { pool_id, timestamp: now },
                        ),
                    ),
                    Ok(()),
                ),
            }
        }
    }

    /// Canceling a pool.
    pub open spec fn cancel_pool(
        self,
        operator: Address,
        authorized: bool,
        pool_id: u64,
        now: u64,
    ) -> (ContractState, Result<(), Failure>) {
        match self.gate(operator, authorized, Operation::CancelPool, now, true) {
            Some((state, failure)) => (state, Err(failure)),
            None => if !self.has_pool(pool_id) {
                (self, Err(Failure::Aborted(Fault::PoolNotFound)))
            } else {
                let market = self.market(pool_id);
                match cancel_failure(market.pool) {
                    Some(failure) => (self, Err(failure)),
                    None => (
                        self.with_market(
                            pool_id,
                            market.with_pool(canceled_pool(market.pool)),
                        ).emit(
                            Event::PoolCanceled(
                                PoolCanceledEvent {
                                    pool_id,
                                    caller: operator,
                                    reason: None,
                                    operator,
                                },
                            ),
                        ),
                        Ok(()),
                    ),
                }
            },
        }
    }

    /// Why `user` cannot stake `amount` on `outcome` of pool `pool_id` at time
    /// `now`, if so.
    pub open spec fn place_fault(
        self,
        user: Seq<char>,
        pool_id: u64,
        amount: i128,
        outcome: u32,
        now: u64,
    ) -> Option<Fault> {
        if self.paused {
            Some(Fault::Paused)
        } else if amount <= 0 {
            Some(Fault::AmountNotPositive)
        } else if !self.has_pool(pool_id) {
            Some(Fault::PoolNotFound)
        } else {
            match self.market(pool_id).place_fault(user, amount, outcome, now) {
                Some(fault) => Some(fault),
                None => if self.user_index[user].len() >= u32::MAX {
                    Some(Fault::Overflow)
                } else {
                    None
                },
            }
        }
    }

    /// Placing a stake. The stake is asked of the user, booked in the pool and
    /// listed last in the user's index.
    pub open spec fn place_prediction(
        self,
        user: Address,
        pool_id: u64,
        amount: i128,
        outcome: u32,
        now: u64,
    ) -> (ContractState, Result<(), Fault>) {
        match self.place_fault(user@, pool_id, amount, outcome, now) {
            Some(fault) => (self, Err(fault)),
            None => {
                let market = self.market(pool_id);
                let booked = market.with_stake(user, amount, outcome);
                let stored = ContractState {
                    markets: self.markets.update(pool_id as int, booked),
                    user_index: self.user_index.insert(user@, self.user_index[user@].push(pool_id)),
                    ..self
                }.request(
                    Transfer {
                        token: market.pool.token,
                        from: Party::Account(user),
                        to: Party::Contract,
                        amount,
                    },
                ).emit(
                    Event::PredictionPlaced(
                        PredictionPlacedEvent { pool_id, user, amount, outcome },
                    ),
                );
                let flagged = if amount >= HIGH_VALUE_THRESHOLD {
                    stored.emit(
                        Event::HighValuePrediction(
                            HighValuePredictionEvent {
                                pool_id,
                                user,
                                amount,
                                outcome,
                                threshold: HIGH_VALUE_THRESHOLD,
                            },
                        ),
                    )
                } else {
                    stored
                };
                if market.pool.options_count >= BATCH_SIGNAL_OPTIONS {
                    (
                        flagged.emit(
                            Event::OutcomeStakesUpdated(
                                OutcomeStakesUpdatedEvent {
                                    pool_id,
                                    options_count: market.pool.options_count,
                                    total_stake: booked.pool.total_stake,
                                },
                            ),
                        ),
                        Ok(()),
                    )
                } else {
                    (flagged, Ok(()))
                }
            },
        }
    }

    /// Claiming from a settled pool. A claim that is settled leaves a receipt,
    /// whatever it pays. What it pays is asked to be sent to the user. A second
    /// claim is denied and reported by an alert.
    pub open spec fn claim_winnings(
        self,
        user: Address,
        pool_id: u64,
        now: u64,
    ) -> (ContractState, Result<i128, Failure>) {
        if self.paused {
            (self, Err(Failure::Aborted(Fault::Paused)))
        } else if !self.has_pool(pool_id) {
            (self, Err(Failure::Aborted(Fault::PoolNotFound)))
        } else {
            let market = self.market(pool_id);
            match market.claim_result(user@) {
                Err(failure) => if failure == Failure::Denied(PredifiError::AlreadyClaimed) {
                    (
                        self.emit(
                            Event::SuspiciousDoubleClaim(
                                SuspiciousDoubleClaimEvent { user, pool_id, timestamp: now },
                            ),
                        ),
                        Err(failure),
                    )
                } else {
                    (self, Err(failure))
                },
                Ok(paid) => {
                    let stored = self.with_market(pool_id, market.with_receipt(user@));
                    match paid {
                        None => (stored, Ok(0)),
                        Some(amount) => (
                            stored.request(
                                Transfer {
                                    token: market.pool.token,
                                    from: Party::Contract,
                                    to: Party::Account(user),
                                    amount,
                                },
                            ).emit(
                                Event::WinningsClaimed(
                                    WinningsClaimedEvent { pool_id, user, amount },
                                ),
                            ),
                            Ok(amount),
                        ),
                    }
                },
            }
        }
    }

    /// One line of the history of `user`: their stake in pool `pool_id`, and
    /// where the pool stands.
    pub open spec fn detail(self, user: Seq<char>, pool_id: u64) -> UserPredictionDetail {
        let market = self.market(pool_id);
        let stake = market.prediction_of(user)->Some_0;
        UserPredictionDetail {
            pool_id,
            amount: stake.amount,
            user_outcome: stake.outcome,
            pool_end_time: market.pool.end_time,
            pool_state: market.pool.state,
            pool_outcome: market.pool.outcome,
        }
    }

    /// A page of the history of `user`, oldest first.
    pub open spec fn user_predictions(
        self,
        user: Seq<char>,
        offset: u32,
        limit: u32,
    ) -> Seq<UserPredictionDetail> {
        let page = forward_page(self.user_index[user], offset as int, limit as int);
        Seq::new(page.len(), |i: int| self.detail(user, page[i]))
    }

    /// A page of the pools of `category`, newest first.
    pub open spec fn pools_by_category(
        self,
        category: Seq<char>,
        offset: u32,
        limit: u32,
    ) -> Seq<u64> {
        backward_page(self.category_index[category], offset as int, limit as int)
    }

    /// What is staked on `outcome` of pool `pool_id`; nothing where there is no
    /// such pool or no such outcome.
    pub open spec fn outcome_stake(self, pool_id: u64, outcome: u32) -> i128 {
        if self.has_pool(pool_id) {
            stake_at(self.market(pool_id).stakes, outcome as int)
        } else {
            0
        }
    }
}

/// A call of an entry point that can change the state, with its arguments.
pub enum Call {
    Init { access_control: Address, treasury: Address, fee_bps: u32, resolution_delay: u64 },
    Pause { admin: Address, authorized: bool, now: u64 },
    Unpause { admin: Address, authorized: bool, now: u64 },
    SetFeeBps { admin: Address, authorized: bool, fee_bps: u32, now: u64 },
    SetTreasury { admin: Address, authorized: bool, treasury: Address, now: u64 },
    SetResolutionDelay { admin: Address, authorized: bool, delay: u64, now: u64 },
    AddTokenToWhitelist { admin: Address, authorized: bool, token: Address, now: u64 },
    RemoveTokenFromWhitelist { admin: Address, authorized: bool, token: Address, now: u64 },
    CreatePool {
        creator: Address,
        end_time: u64,
        token: Address,
        options_count: u32,
        description: String,
        metadata_url: String,
        initial_liquidity: i128,
        category: String,
        now: u64,
    },
    ResolvePool { operator: Address, authorized: bool, pool_id: u64, outcome: u32, now: u64 },
    OracleResolve {
        oracle: Address,
        authorized: bool,
        pool_id: u64,
        outcome: u32,
        evidence: String,
        now: u64,
    },
    MarkPoolReady { pool_id: u64, now: u64 },
    CancelPool { operator: Address, authorized: bool, pool_id: u64, now: u64 },
    PlacePrediction { user: Address, pool_id: u64, amount: i128, outcome: u32, now: u64 },
    ClaimWinnings { user: Address, pool_id: u64, now: u64 },
}

impl ContractState {
    /// The state after `call`.
    pub open spec fn apply(self, call: Call) -> ContractState {
        match call {
            Call::Init { access_control, treasury, fee_bps, resolution_delay } => self.init(
                access_control,
                treasury,
                fee_bps,
                resolution_delay,
            ).0,
            Call::Pause { admin, authorized, now } => self.pause(admin, authorized, now).0,
            Call::Unpause { admin, authorized, now } => self.unpause(admin, authorized, now).0,
            Call::SetFeeBps { admin, authorized, fee_bps, now } => self.set_fee_bps(
                admin,
                authorized,
                fee_bps,
                now,
            ).0,
            Call::SetTreasury { admin, authorized, treasury, now } => self.set_treasury(
                admin,
                authorized,
                treasury,
                now,
            ).0,
            Call::SetResolutionDelay { admin, authorized, delay, now } => self.set_resolution_delay(
                admin,
                authorized,
                delay,
                now,
            ).0,
            Call::AddTokenToWhitelist {
                admin,
                authorized,
                token,
                now,
            } => self.add_token_to_whitelist(admin, authorized, token, now).0,
            Call::RemoveTokenFromWhitelist {
                admin,
                authorized,
                token,
                now,
            } => self.remove_token_from_whitelist(admin, authorized, token, now).0,
            Call::CreatePool {
                creator,
                end_time,
                token,
                options_count,
                description,
                metadata_url,
                initial_liquidity,
                category,
                now,
            } => self.create_pool(
                creator,
                end_time,
                token,
                options_count,
                description,
                metadata_url,
                initial_liquidity,
                category,
                now,
            ).0,
            Call::ResolvePool { operator, authorized, pool_id, outcome, now } => self.resolve_pool(
                operator,
                authorized,
                pool_id,
                outcome,
                now,
            ).0,
            Call::OracleResolve {
                oracle,
                authorized,
                pool_id,
                outcome,
                evidence,
                now,
            } => self.oracle_resolve(oracle, authorized, pool_id, outcome, evidence, now).0,
            Call::MarkPoolReady { pool_id, now } => self.mark_pool_ready(pool_id, now).0,
            Call::CancelPool { operator, authorized, pool_id, now } => self.cancel_pool(
                operator,
                authorized,
                pool_id,
                now,
            ).0,
            Call::PlacePrediction { user, pool_id, amount, outcome, now } => self.place_prediction(
                user,
                pool_id,
                amount,
                outcome,
                now,
            ).0,
            Call::ClaimWinnings { user, pool_id, now } => self.claim_winnings(user, pool_id, now).0,
        }
    }

    /// Whether the stored fee rate, if one is stored, is within its bound.
    pub open spec fn fee_within_bound(self) -> bool {
        self.config matches Some(config) ==> config.fee_bps <= MAX_FEE_BPS
    }
}

} // verus!
