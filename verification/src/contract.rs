//! The contract as a whole: its storage, and one method for each entry point.
//!
//! The contract is told two things that it cannot know by itself: the time of
//! the call, `now`, and, for an operation that asks for a role, whether the
//! access-control collaborator says that the caller holds it, `authorized`.
//! That the caller signed the call is for the host to check before it calls.
//! What the contract wants done outside, it writes down: the events it emits
//! and the transfers it asks for.

use crate::access::{pass_gate, Operation};
use crate::accounts::AddressSet;
use crate::error::{Failure, Fault, PredifiError};
use crate::events::{
    ContractPausedAlertEvent, Event, FeeUpdateEvent, HighValuePredictionEvent, InitEvent,
    InitialLiquidityProvidedEvent, OracleResolvedEvent, OutcomeStakesUpdatedEvent, Party,
    PauseEvent, PoolCanceledEvent, PoolCreatedEvent, PoolReadyForResolutionEvent,
    PoolResolvedDiagEvent, PoolResolvedEvent, PredictionPlacedEvent, ResolutionDelayUpdateEvent,
    SuspiciousDoubleClaimEvent, TokenWhitelistAddedEvent, TokenWhitelistRemovedEvent, Transfer,
    TreasuryUpdateEvent, UnauthorizedAdminAttemptEvent, UnauthorizedResolveAttemptEvent,
    UnpauseEvent, WinningsClaimedEvent,
};
use crate::index::{forward_page, next_count, next_pool_id, PoolIndex};
use crate::lifecycle::{
    canceled_pool, check_amount, is_high_value, reports_whole_table, resolved_pool,
};
use crate::market::{Market, MarketView};
use crate::model::ContractState;
use crate::preservation::{
    lemma_claim_winnings_inv, lemma_create_pool_inv, lemma_inv_reads_books, lemma_lifecycle_inv,
    lemma_place_prediction_inv,
};
use crate::stakes::outcome_stake;
use crate::types::{
    Address, Config, MarketState, Pool, Prediction, UserPredictionDetail, HIGH_VALUE_THRESHOLD,
    MAX_FEE_BPS,
};
use vstd::prelude::*;

verus! {

/// A prediction-market contract with everything it has stored.
pub struct PredifiContract {
    config: Option<Config>,
    paused: bool,
    markets: Vec<Market>,
    user_index: PoolIndex,
    category_index: PoolIndex,
    whitelist: AddressSet,
    events: Vec<Event>,
    transfers: Vec<Transfer>,
}

impl View for PredifiContract {
    type V = ContractState;

    closed spec fn view(&self) -> ContractState {
        ContractState {
            config: self.config,
            paused: self.paused,
            markets: Seq::new(self.markets@.len(), |i: int| self.markets@[i]@),
            user_index: self.user_index@,
            category_index: self.category_index@,
            whitelist: self.whitelist@,
            events: self.events@,
            transfers: self.transfers@,
        }
    }
}

/// The entry point through which an oracle reports the outcome of a pool.
pub trait OracleCallback {
    /// Whether the contract is in order, so that it can be called.
    spec fn callable(&self) -> bool;

    /// Resolves pool `pool_id` to `outcome` on the word of `oracle`, which gives
    /// `evidence` for it. Asks for the oracle role.
    fn oracle_resolve(
        &mut self,
        oracle: &Address,
        authorized: bool,
        pool_id: u64,
        outcome: u32,
        evidence: String,
        now: u64,
    ) -> (done: Result<(), Failure>)
        requires
            old(self).callable(),
        ensures
            final(self).callable(),
    ;
}

impl OracleCallback for PredifiContract {
    open spec fn callable(&self) -> bool {
        self.wf()
    }

    /// Resolves pool `pool_id` to `outcome` on the word of an oracle, which gives
    /// `evidence` for it. Asks for the oracle role. The pool must be active, and
    /// the resolution delay after its close must have passed. Besides what every
    /// resolution announces, the oracle's evidence is put on record.
    fn oracle_resolve(
        &mut self,
        oracle: &Address,
        authorized: bool,
        pool_id: u64,
        outcome: u32,
        evidence: String,
        now: u64,
    ) -> (done: Result<(), Failure>)
        ensures
            (final(self)@, done) == old(self)@.oracle_resolve(
                *oracle,
                authorized,
                pool_id,
                outcome,
                evidence,
                now,
            ),
    {
        self.resolve(oracle, authorized, pool_id, outcome, Some(evidence), now)
    }
}

impl PredifiContract {
    /// The contract's storage is in order.
    pub closed spec fn wf(&self) -> bool {
        &&& self.user_index.wf()
        &&& self.category_index.wf()
        &&& self.whitelist.wf()
        &&& forall|i: int| 0 <= i < self.markets@.len() ==> (#[trigger] self.markets@[i]).wf()
        &&& self@.inv()
        &&& self@.fee_within_bound()
    }

    /// A contract whose storage is in order is in a state that is in order, and
    /// holds no fee rate above the bound.
    pub proof fn lemma_wf(&self)
        requires
            self.wf(),
        ensures
            self@.inv(),
            self@.fee_within_bound(),
    {
    }

    /// Whether `fee_bps` is a fee rate that the contract accepts.
    pub fn is_valid_fee_bps(fee_bps: u32) -> (valid: bool)
        ensures
            valid == (fee_bps <= MAX_FEE_BPS),
    {
        fee_bps <= MAX_FEE_BPS
    }

    /// A contract that has never been called.
    pub fn new() -> (contract: PredifiContract)
        ensures
            contract.wf(),
            contract@ == ContractState::empty(),
    {
        let contract = PredifiContract {
            config: None,
            paused: false,
            markets: Vec::new(),
            user_index: PoolIndex::new(),
            category_index: PoolIndex::new(),
            whitelist: AddressSet::new(),
            events: Vec::new(),
            transfers: Vec::new(),
        };
        contract
    }

    fn emit(&mut self, event: Event)
        requires
            old(self).wf(),
        ensures
            final(self).wf(),
            final(self)@ == old(self)@.emit(event),
    {
        self.events.push(event);
    }

    fn request(&mut self, transfer: Transfer)
        requires
            old(self).wf(),
        ensures
            final(self).wf(),
            final(self)@ == old(self)@.request(transfer),
    {
        self.transfers.push(transfer);
    }

    fn set_config(&mut self, config: Config)
        requires
            old(self).wf(),
            config.fee_bps <= MAX_FEE_BPS,
        ensures
            final(self).wf(),
            final(self)@ == old(self)@.with_config(config),
    {
        self.config = Some(config);
    }

    fn gate(
        &mut self,
        caller: &Address,
        authorized: bool,
        operation: Operation,
        now: u64,
        guarded: bool,
    ) -> (refused: Option<Failure>)
        requires
            old(self).wf(),
        ensures
            final(self).wf(),
            match old(self)@.gate(*caller, authorized, operation, now, guarded) {
                Some((state, failure)) => refused == Some(failure) && final(self)@ == state,
                None => refused is None && final(self)@ == old(self)@,
            },
    {
        match pass_gate(guarded, self.paused, self.config.is_some(), authorized) {
            Ok(()) => None,
            Err(failure) => {
                if failure == Failure::Denied(PredifiError::Unauthorized) {
                    self.emit(
                        Event::UnauthorizedAdminAttempt(
                            UnauthorizedAdminAttemptEvent {
                                caller: caller.clone(),
                                operation,
                                timestamp: now,
                            },
                        ),
                    );
                }
                Some(failure)
            },
        }
    }

    /// Gives the contract its settings. Where it has settings already, nothing
    /// happens. Settings with a fee rate above 10,000 basis points are not
    /// taken.
    pub fn init(
        &mut self,
        access_control: &Address,
        treasury: &Address,
        fee_bps: u32,
        resolution_delay: u64,
    ) -> (done: Result<(), Fault>)
        requires
            old(self).wf(),
        ensures
            final(self).wf(),
            (final(self)@, done) == old(self)@.init(
                *access_control,
                *treasury,
                fee_bps,
                resolution_delay,
            ),
    {
        if self.config.is_some() {
            return Ok(());
        }
        if !Self::is_valid_fee_bps(fee_bps) {
            return Err(Fault::FeeTooHigh);
        }
        self.set_config(
            Config {
                fee_bps,
                treasury: treasury.clone(),
                access_control: access_control.clone(),
                resolution_delay,
            },
        );
        self.emit(
            Event::Init(
                InitEvent {
                    access_control: access_control.clone(),
                    treasury: treasury.clone(),
                    fee_bps,
                    resolution_delay,
                },
            ),
        );
        Ok(())
    }

    /// Pauses the contract. Asks for the admin role.
    pub fn pause(
        &mut self,
        admin: &Address,
        authorized: bool,
        now: u64,
    ) -> (done: Result<(), Failure>)
        requires
            old(self).wf(),
        ensures
            final(self).wf(),
            (final(self)@, done) == old(self)@.pause(*admin, authorized, now),
    {
        if let Some(failure) = self.gate(admin, authorized, Operation::Pause, now, false) {
            return Err(failure);
        }
        self.paused = true;
        self.emit(
            Event::ContractPausedAlert(
                ContractPausedAlertEvent { admin: admin.clone(), timestamp: now },
            ),
        );
        self.emit(Event::Pause(PauseEvent { admin: admin.clone() }));
        Ok(())
    }

    /// Ends the pause. Asks for the admin role.
    pub fn unpause(
        &mut self,
        admin: &Address,
        authorized: bool,
        now: u64,
    ) -> (done: Result<(), Failure>)
        requires
            old(self).wf(),
        ensures
            final(self).wf(),
            (final(self)@, done) == old(self)@.unpause(*admin, authorized, now),
    {
        if let Some(failure) = self.gate(admin, authorized, Operation::Unpause, now, false) {
            return Err(failure);
        }
        self.paused = false;
        self.emit(Event::Unpause(UnpauseEvent { admin: admin.clone() }));
        Ok(())
    }

    /// Sets the fee rate, in basis points. Asks for the admin role. A rate above
    /// 10,000 is never stored.
    pub fn set_fee_bps(
        &mut self,
        admin: &Address,
        authorized: bool,
        fee_bps: u32,
        now: u64,
    ) -> (done: Result<(), Failure>)
        requires
            old(self).wf(),
        ensures
            final(self).wf(),
            (final(self)@, done) == old(self)@.set_fee_bps(*admin, authorized, fee_bps, now),
            fee_bps > MAX_FEE_BPS ==> done is Err,
    {
        if let Some(failure) = self.gate(admin, authorized, Operation::SetFeeBps, now, true) {
            return Err(failure);
        }
        if !Self::is_valid_fee_bps(fee_bps) {
            return Err(Failure::Aborted(Fault::FeeTooHigh));
        }
        let config = match &self.config {
            Some(config) => Config {
                fee_bps,
                treasury: config.treasury.clone(),
                access_control: config.access_control.clone(),
                resolution_delay: config.resolution_delay,
            },
            None => {
                return Err(Failure::Aborted(Fault::NotInitialized));
            },
        };
        self.set_config(config);
        self.emit(Event::FeeUpdate(FeeUpdateEvent { admin: admin.clone(), fee_bps }));
        Ok(())
    }

    /// Sets the treasury. Asks for the admin role.
    pub fn set_treasury(
        &mut self,
        admin: &Address,
        authorized: bool,
        treasury: &Address,
        now: u64,
    ) -> (done: Result<(), Failure>)
        requires
            old(self).wf(),
        ensures
            final(self).wf(),
            (final(self)@, done) == old(self)@.set_treasury(*admin, authorized, *treasury, now),
    {
        if let Some(failure) = self.gate(admin, authorized, Operation::SetTreasury, now, true) {
            return Err(failure);
        }
        let config = match &self.config {
            Some(config) => Config {
                fee_bps: config.fee_bps,
                treasury: treasury.clone(),
                access_control: config.access_control.clone(),
                resolution_delay: config.resolution_delay,
            },
            None => {
                return Err(Failure::Aborted(Fault::NotInitialized));
            },
        };
        self.set_config(config);
        self.emit(
            Event::TreasuryUpdate(
                TreasuryUpdateEvent { admin: admin.clone(), treasury: treasury.clone() },
            ),
        );
        Ok(())
    }

    /// Sets the resolution delay, in seconds. Asks for the admin role.
    pub fn set_resolution_delay(
        &mut self,
        admin: &Address,
        authorized: bool,
        delay: u64,
        now: u64,
    ) -> (done: Result<(), Failure>)
        requires
            old(self).wf(),
        ensures
            final(self).wf(),
            (final(self)@, done) == old(self)@.set_resolution_delay(*admin, authorized, delay, now),
    {
        if let Some(failure) = self.gate(
            admin,
            authorized,
            Operation::SetResolutionDelay,
            now,
            true,
        ) {
            return Err(failure);
        }
        let config = match &self.config {
            Some(config) => Config {
                fee_bps: config.fee_bps,
                treasury: config.treasury.clone(),
                access_control: config.access_control.clone(),
                resolution_delay: delay,
            },
            None => {
                return Err(Failure::Aborted(Fault::NotInitialized));
            },
        };
        self.set_config(config);
        self.emit(
            Event::ResolutionDelayUpdate(
                ResolutionDelayUpdateEvent { admin: admin.clone(), delay },
            ),
        );
        Ok(())
    }

    /// Puts `token` on the list of assets that stakes may be paid in. Asks for
    /// the admin role.
    pub fn add_token_to_whitelist(
        &mut self,
        admin: &Address,
        authorized: bool,
        token: &Address,
        now: u64,
    ) -> (done: Result<(), Failure>)
        requires
            old(self).wf(),
        ensures
            final(self).wf(),
            (final(self)@, done) == old(self)@.add_token_to_whitelist(
                *admin,
                authorized,
                *token,
                now,
            ),
    {
        if let Some(failure) = self.gate(
            admin,
            authorized,
            Operation::AddTokenToWhitelist,
            now,
            true,
        ) {
            return Err(failure);
        }
        self.whitelist.insert(token);
        assert(self@ =~= ContractState {
            whitelist: old(self)@.whitelist.insert(token@),
            ..old(self)@
        });
        self.emit(
            Event::TokenWhitelistAdded(
                TokenWhitelistAddedEvent { admin: admin.clone(), token: token.clone() },
            ),
        );
        Ok(())
    }

    /// Takes `token` off the list of assets that stakes may be paid in. Asks for
    /// the admin role.
    pub fn remove_token_from_whitelist(
        &mut self,
        admin: &Address,
        authorized: bool,
        token: &Address,
        now: u64,
    ) -> (done: Result<(), Failure>)
        requires
            old(self).wf(),
        ensures
            final(self).wf(),
            (final(self)@, done) == old(self)@.remove_token_from_whitelist(
                *admin,
                authorized,
                *token,
                now,
            ),
    {
        if let Some(failure) = self.gate(
            admin,
            authorized,
            Operation::RemoveTokenFromWhitelist,
            now,
            true,
        ) {
            return Err(failure);
        }
        self.whitelist.remove(token);
        assert(self@ =~= ContractState {
            whitelist: old(self)@.whitelist.remove(token@),
            ..old(self)@
        });
        self.emit(
            Event::TokenWhitelistRemoved(
                TokenWhitelistRemovedEvent { admin: admin.clone(), token: token.clone() },
            ),
        );
        Ok(())
    }

    /// Creates a pool that closes at `end_time` and offers `options_count`
    /// outcomes, and returns its id. Stakes in it are paid in `token`, which must
    /// be on the allow-list. The creator's liquidity, where there is any, is
    /// asked of the creator and is part of the pool's total from the start.
    pub fn create_pool(
        &mut self,
        creator: &Address,
        end_time: u64,
        token: &Address,
        options_count: u32,
        description: String,
        metadata_url: String,
        initial_liquidity: i128,
        category: String,
        now: u64,
    ) -> (created: Result<u64, Failure>)
        requires
            old(self).wf(),
        ensures
            final(self).wf(),
            (final(self)@, created) == old(self)@.create_pool(
                *creator,
                end_time,
                *token,
                options_count,
                description,
                metadata_url,
                initial_liquidity,
                category,
                now,
            ),
    {
        if self.paused {
            return Err(Failure::Aborted(Fault::Paused));
        }
        if !self.whitelist.contains(token) {
            return Err(Failure::Denied(PredifiError::TokenNotWhitelisted));
        }
        let listed_url = metadata_url.clone();
        let listed_category = category.clone();
        let pool = match Pool::open(
            creator.clone(),
            end_time,
            token.clone(),
            options_count,
            description,
            metadata_url,
            initial_liquidity,
            category,
            now,
        ) {
            Err(fault) => {
                return Err(Failure::Aborted(fault));
            },
            Ok(pool) => pool,
        };
        let pool_id = self.markets.len() as u64;
        if next_count(self.category_index.count(&listed_category)).is_err() || next_pool_id(
            pool_id,
        ).is_err() {
            return Err(Failure::Aborted(Fault::Overflow));
        }
        proof {
            MarketView::lemma_opened_inv(pool);
            lemma_create_pool_inv(
                old(self)@,
                *creator,
                end_time,
                *token,
                options_count,
                description,
                metadata_url,
                initial_liquidity,
                category,
                now,
            );
        }
        self.markets.push(Market::open(pool));
        self.category_index.append(&listed_category, pool_id);
        proof {
            let before = old(self)@;
            let stored = ContractState {
                markets: before.markets.push(MarketView::opened(pool)),
                category_index: before.category_index.insert(
                    category@,
                    before.category_index[category@].push(pool_id),
                ),
                ..before
            };
            assert(self@ =~= stored);
            lemma_inv_reads_books(
                before.create_pool(
                    *creator,
                    end_time,
                    *token,
                    options_count,
                    description,
                    metadata_url,
                    initial_liquidity,
                    category,
                    now,
                ).0,
                stored,
            );
        }
        if initial_liquidity > 0 {
            self.request(
                Transfer {
                    token: token.clone(),
                    from: Party::Account(creator.clone()),
                    to: Party::Contract,
                    amount: initial_liquidity,
                },
            );
        }
        self.emit(
            Event::PoolCreated(
                PoolCreatedEvent {
                    pool_id,
                    end_time,
                    token: token.clone(),
                    options_count,
                    metadata_url: listed_url,
                    initial_liquidity,
                    category: listed_category,
                },
            ),
        );
        if initial_liquidity > 0 {
            self.emit(
                Event::InitialLiquidityProvided(
                    InitialLiquidityProvidedEvent {
                        pool_id,
                        creator: creator.clone(),
                        amount: initial_liquidity,
                    },
                ),
            );
        }
        Ok(pool_id)
    }

    fn resolve(
        &mut self,
        caller: &Address,
        authorized: bool,
        pool_id: u64,
        outcome: u32,
        evidence: Option<String>,
        now: u64,
    ) -> (done: Result<(), Failure>)
        requires
            old(self).wf(),
        ensures
            final(self).wf(),
            (final(self)@, done) == old(self)@.resolve(
                *caller,
                authorized,
                pool_id,
                outcome,
                evidence,
                now,
            ),
    {
        if let Err(failure) = pass_gate(true, self.paused, self.config.is_some(), authorized) {
            if failure == Failure::Denied(PredifiError::Unauthorized) {
                self.emit(
                    Event::UnauthorizedResolveAttempt(
                        UnauthorizedResolveAttemptEvent {
                            caller: caller.clone(),
                            pool_id,
                            timestamp: now,
                        },
                    ),
                );
            }
            return Err(failure);
        }
        let delay = match &self.config {
            None => {
                return Err(Failure::Aborted(Fault::NotInitialized));
            },
            Some(config) => config.resolution_delay,
        };
        if pool_id >= self.markets.len() as u64 {
            return Err(Failure::Aborted(Fault::PoolNotFound));
        }
        let at = pool_id as usize;
        let total_stake = self.markets[at].pool().total_stake;
        let winning_stake = outcome_stake(self.markets[at].stakes(), outcome);
        proof {
            lemma_lifecycle_inv(old(self)@, *caller, authorized, pool_id, outcome, evidence, now);
        }
        if let Err(failure) = self.markets[at].resolve(delay, outcome, now) {
            assert(self@ =~= old(self)@);
            return Err(failure);
        }
        proof {
            let before = old(self)@;
            let market = before.market(pool_id);
            let stored = before.with_market(
                pool_id,
                market.with_pool(resolved_pool(market.pool, outcome)),
            );
            assert(self@ =~= stored);
            lemma_inv_reads_books(
                before.resolve(*caller, authorized, pool_id, outcome, evidence, now).0,
                stored,
            );
        }
        if let Some(evidence) = evidence {
            self.emit(
                Event::OracleResolved(
                    OracleResolvedEvent {
                        pool_id,
                        oracle: caller.clone(),
                        outcome,
                        proof: evidence,
                    },
                ),
            );
        }
        self.emit(
            Event::PoolResolved(PoolResolvedEvent { pool_id, operator: caller.clone(), outcome }),
        );
        self.emit(
            Event::PoolResolvedDiag(
                PoolResolvedDiagEvent {
                    pool_id,
                    outcome,
                    total_stake,
                    winning_stake,
                    timestamp: now,
                },
            ),
        );
        Ok(())
    }

    /// Resolves pool `pool_id` to `outcome`. Asks for the operator role. The
    /// pool must be active, and the resolution delay after its close must have
    /// passed: before that the call is denied, from that time on it is not.
    pub fn resolve_pool(
        &mut self,
        operator: &Address,
        authorized: bool,
        pool_id: u64,
        outcome: u32,
        now: u64,
    ) -> (done: Result<(), Failure>)
        requires
            old(self).wf(),
        ensures
            final(self).wf(),
            (final(self)@, done) == old(self)@.resolve_pool(
                *operator,
                authorized,
                pool_id,
                outcome,
                now,
            ),
    {
        self.resolve(operator, authorized, pool_id, outcome, None, now)
    }

    /// Announces that pool `pool_id` is ready to be resolved, where it is: the
    /// pool is active and the resolution delay after its close has passed.
    /// Anyone may call this, also while the contract is paused.
    pub fn mark_pool_ready(&mut self, pool_id: u64, now: u64) -> (done: Result<(), Failure>)
        requires
            old(self).wf(),
        ensures
            final(self).wf(),
            (final(self)@, done) == old(self)@.mark_pool_ready(pool_id, now),
    {
        if pool_id >= self.markets.len() as u64 {
            return Err(Failure::Aborted(Fault::PoolNotFound));
        }
        let at = pool_id as usize;
        if self.markets[at].pool().state != MarketState::Active {
            return Err(Failure::Denied(PredifiError::InvalidPoolState));
        }
        let delay = match &self.config {
            None => {
                return Err(Failure::Aborted(Fault::NotInitialized));
            },
            Some(config) => config.resolution_delay,
        };
        if let Err(error) = self.markets[at].pool().check_ready(delay, now) {
            return Err(Failure::Denied(error));
        }
        self.emit(
            Event::PoolReadyForResolution(PoolReadyForResolutionEvent { pool_id, timestamp: now }),
        );
        Ok(())
    }

    /// Cancels pool `pool_id`. Asks for the operator role. A resolved pool cannot
    /// be canceled. A canceled pool takes no more stakes, and pays every stake
    /// back on a claim.
    pub fn cancel_pool(
        &mut self,
        operator: &Address,
        authorized: bool,
        pool_id: u64,
        now: u64,
    ) -> (done: Result<(), Failure>)
        requires
            old(self).wf(),
        ensures
            final(self).wf(),
            (final(self)@, done) == old(self)@.cancel_pool(*operator, authorized, pool_id, now),
    {
        if let Some(failure) = self.gate(operator, authorized, Operation::CancelPool, now, true) {
            return Err(failure);
        }
        if pool_id >= self.markets.len() as u64 {
            return Err(Failure::Aborted(Fault::PoolNotFound));
        }
        let at = pool_id as usize;
        proof {
            lemma_lifecycle_inv(old(self)@, *operator, authorized, pool_id, 0, None, now);
        }
        if let Err(failure) = self.markets[at].cancel() {
            assert(self@ =~= old(self)@);
            return Err(failure);
        }
        proof {
            let before = old(self)@;
            let market = before.market(pool_id);
            let stored = before.with_market(pool_id, market.with_pool(canceled_pool(market.pool)));
            assert(self@ =~= stored);
            lemma_inv_reads_books(
                before.cancel_pool(*operator, authorized, pool_id, now).0,
                stored,
            );
        }
        self.emit(
            Event::PoolCanceled(
                PoolCanceledEvent {
                    pool_id,
                    caller: operator.clone(),
                    reason: None,
                    operator: operator.clone(),
                },
            ),
        );
        Ok(())
    }

    /// Places the stake of `amount` that `user` puts on `outcome` of pool
    /// `pool_id`. The pool must be active and not yet closed. The amount is asked
    /// of the user and added to the pool's total and to what is staked on the
    /// outcome. A user has one stake in a pool: a second one is turned away, and
    /// changes nothing.
    pub fn place_prediction(
        &mut self,
        user: &Address,
        pool_id: u64,
        amount: i128,
        outcome: u32,
        now: u64,
    ) -> (done: Result<(), Fault>)
        requires
            old(self).wf(),
        ensures
            final(self).wf(),
            (final(self)@, done) == old(self)@.place_prediction(
                *user,
                pool_id,
                amount,
                outcome,
                now,
            ),
    {
        if self.paused {
            return Err(Fault::Paused);
        }
        if let Err(fault) = check_amount(amount) {
            return Err(fault);
        }
        if pool_id >= self.markets.len() as u64 {
            return Err(Fault::PoolNotFound);
        }
        let at = pool_id as usize;
        if let Err(fault) = self.markets[at].check_place(user, amount, outcome, now) {
            return Err(fault);
        }
        if let Err(fault) = next_count(self.user_index.count(&user.key)) {
            return Err(fault);
        }
        let token = self.markets[at].pool().token.clone();
        let options_count = self.markets[at].pool().options_count;
        proof {
            lemma_place_prediction_inv(old(self)@, *user, pool_id, amount, outcome, now);
        }
        if let Err(fault) = self.markets[at].place(user, amount, outcome, now) {
            return Err(fault);
        }
        let total_stake = self.markets[at].pool().total_stake;
        self.user_index.append(&user.key, pool_id);
        proof {
            let before = old(self)@;
            let booked = before.market(pool_id).with_stake(*user, amount, outcome);
            let stored = ContractState {
                markets: before.markets.update(pool_id as int, booked),
                user_index: before.user_index.insert(
                    user@,
                    before.user_index[user@].push(pool_id),
                ),
                ..before
            };
            assert(self@ =~= stored);
            lemma_inv_reads_books(
                before.place_prediction(*user, pool_id, amount, outcome, now).0,
                stored,
            );
        }
        self.request(
            Transfer {
                token,
                from: Party::Account(user.clone()),
                to: Party::Contract,
                amount,
            },
        );
        self.emit(
            Event::PredictionPlaced(
                PredictionPlacedEvent { pool_id, user: user.clone(), amount, outcome },
            ),
        );
        if is_high_value(amount) {
            self.emit(
                Event::HighValuePrediction(
                    HighValuePredictionEvent {
                        pool_id,
                        user: user.clone(),
                        amount,
                        outcome,
                        threshold: HIGH_VALUE_THRESHOLD,
                    },
                ),
            );
        }
        if reports_whole_table(options_count) {
            self.emit(
                Event::OutcomeStakesUpdated(
                    OutcomeStakesUpdatedEvent { pool_id, options_count, total_stake },
                ),
            );
        }
        Ok(())
    }

    /// Settles the claim of `user` on pool `pool_id` and returns what the user
    /// is paid. The pool must be resolved or canceled. From a canceled pool the
    /// user is paid their stake; from a resolved pool a stake on the winning
    /// outcome is paid its share of the pool's total, and any other stake
    /// nothing. A settled claim leaves a receipt, and a user with a receipt is
    /// denied: nobody is paid twice.
    pub fn claim_winnings(
        &mut self,
        user: &Address,
        pool_id: u64,
        now: u64,
    ) -> (paid: Result<i128, Failure>)
        requires
            old(self).wf(),
        ensures
            final(self).wf(),
            (final(self)@, paid) == old(self)@.claim_winnings(*user, pool_id, now),
    {
        if self.paused {
            return Err(Failure::Aborted(Fault::Paused));
        }
        if pool_id >= self.markets.len() as u64 {
            return Err(Failure::Aborted(Fault::PoolNotFound));
        }
        let at = pool_id as usize;
        let token = self.markets[at].pool().token.clone();
        proof {
            lemma_claim_winnings_inv(old(self)@, *user, pool_id, now);
        }
        match self.markets[at].claim(user) {
            Err(failure) => {
                assert(self@ =~= old(self)@);
                if failure == Failure::Denied(PredifiError::AlreadyClaimed) {
                    self.emit(
                        Event::SuspiciousDoubleClaim(
                            SuspiciousDoubleClaimEvent {
                                user: user.clone(),
                                pool_id,
                                timestamp: now,
                            },
                        ),
                    );
                }
                Err(failure)
            },
            Ok(settled) => {
                proof {
                    let before = old(self)@;
                    let stored = before.with_market(
                        pool_id,
                        before.market(pool_id).with_receipt(user@),
                    );
                    assert(self@ =~= stored);
                    lemma_inv_reads_books(before.claim_winnings(*user, pool_id, now).0, stored);
                }
                match settled {
                    None => Ok(0),
                    Some(amount) => {
                        self.request(
                            Transfer {
                                token,
                                from: Party::Contract,
                                to: Party::Account(user.clone()),
                                amount,
                            },
                        );
                        self.emit(
                            Event::WinningsClaimed(
                                WinningsClaimedEvent { pool_id, user: user.clone(), amount },
                            ),
                        );
                        Ok(amount)
                    },
                }
            },
        }
    }

    /// A page of the stakes of `user`, oldest first: up to `limit` of them,
    /// after the first `offset`. Each comes with where its pool stands. The page
    /// is empty where `offset` is at or past the number of stakes, or `limit` is
    /// zero.
    pub fn get_user_predictions(
        &self,
        user: &Address,
        offset: u32,
        limit: u32,
    ) -> (page: Vec<UserPredictionDetail>)
        requires
            self.wf(),
        ensures
            page@ == self@.user_predictions(user@, offset, limit),
    {
        let pools = self.user_index.page_forward(&user.key, offset, limit);
        let pool_count = self.markets.len();
        let ghost listed = self@.user_index[user@];
        let mut page: Vec<UserPredictionDetail> = Vec::new();
        let mut i: usize = 0;
        while i < pools.len()
            invariant
                self.wf(),
                i <= pools@.len(),
                pool_count == self.markets@.len(),
                listed == self@.user_index[user@],
                pools@ == forward_page(listed, offset as int, limit as int),
                page@ == Seq::new(i as nat, |k: int| self@.detail(user@, pools@[k])),
            decreases pools@.len() - i,
        {
            let pool_id = pools[i];
            let market = &self.markets[pool_id as usize];
            let stake = match market.prediction_of(user) {
                Some(stake) => stake,
                None => Prediction { amount: 0, outcome: 0 },
            };
            page.push(
                UserPredictionDetail {
                    pool_id,
                    amount: stake.amount,
                    user_outcome: stake.outcome,
                    pool_end_time: market.pool().end_time,
                    pool_state: market.pool().state,
                    pool_outcome: market.pool().outcome,
                },
            );
            i = i + 1;
        }
        page
    }

    /// The stake table of pool `pool_id`: for each outcome, what is staked on
    /// it.
    pub fn get_pool_outcome_stakes(&self, pool_id: u64) -> (stakes: Result<Vec<i128>, Fault>)
        ensures
            stakes matches Ok(table) ==> self@.has_pool(pool_id) && table@ == self@.market(
                pool_id,
            ).stakes,
            stakes matches Err(fault) ==> !self@.has_pool(pool_id) && fault == Fault::PoolNotFound,
    {
        if pool_id >= self.markets.len() as u64 {
            return Err(Fault::PoolNotFound);
        }
        Ok(self.markets[pool_id as usize].stakes().clone())
    }

    /// What is staked on `outcome` of pool `pool_id`. Zero where there is no
    /// such pool, or the pool has no such outcome.
    pub fn get_outcome_stake(&self, pool_id: u64, outcome: u32) -> (stake: i128)
        ensures
            stake == self@.outcome_stake(pool_id, outcome),
    {
        if pool_id >= self.markets.len() as u64 {
            return 0;
        }
        outcome_stake(self.markets[pool_id as usize].stakes(), outcome)
    }

    /// A page of the pools created under `category`, newest first: up to `limit`
    /// of them, after the `offset` newest. The page is empty where `offset` is at
    /// or past the number of pools, or `limit` is zero.
    pub fn get_pools_by_category(
        &self,
        category: &String,
        offset: u32,
        limit: u32,
    ) -> (page: Vec<u64>)
        requires
            self.wf(),
        ensures
            page@ == self@.pools_by_category(category@, offset, limit),
    {
        self.category_index.page_backward(category, offset, limit)
    }

    /// How many pools have been created. The next pool will have this id.
    pub fn pool_count(&self) -> (count: u64)
        requires
            self.wf(),
        ensures
            count == self@.markets.len(),
    {
        self.markets.len() as u64
    }

    /// The pool with the id `pool_id`, if there is one.
    pub fn get_pool(&self, pool_id: u64) -> (pool: Option<Pool>)
        ensures
            pool == (if self@.has_pool(pool_id) {
                Some(self@.market(pool_id).pool)
            } else {
                None
            }),
    {
        if pool_id >= self.markets.len() as u64 {
            return None;
        }
        Some(self.markets[pool_id as usize].pool().clone())
    }

    /// The stake of `user` in pool `pool_id`, if there is one.
    pub fn get_prediction(&self, user: &Address, pool_id: u64) -> (stake: Option<Prediction>)
        requires
            self.wf(),
        ensures
            stake == (if self@.has_pool(pool_id) {
                self@.market(pool_id).prediction_of(user@)
            } else {
                None
            }),
    {
        if pool_id >= self.markets.len() as u64 {
            return None;
        }
        self.markets[pool_id as usize].prediction_of(user)
    }

    /// Whether `user` has claimed from pool `pool_id`.
    pub fn has_claimed(&self, user: &Address, pool_id: u64) -> (claimed: bool)
        ensures
            claimed == (self@.has_pool(pool_id) && self@.market(pool_id).receipts.contains(user@)),
    {
        if pool_id >= self.markets.len() as u64 {
            return false;
        }
        self.markets[pool_id as usize].has_claimed(user)
    }

    /// Whether stakes may be paid in `token`.
    pub fn is_token_allowed(&self, token: &Address) -> (allowed: bool)
        ensures
            allowed == self@.whitelist.contains(token@),
    {
        self.whitelist.contains(token)
    }

    /// Whether the contract is paused.
    pub fn is_paused(&self) -> (paused: bool)
        ensures
            paused == self@.paused,
    {
        self.paused
    }

    /// The settings, once the contract is initialized.
    pub fn get_config(&self) -> (config: Option<Config>)
        ensures
            config == self@.config,
    {
        match &self.config {
            Some(config) => Some(config.clone()),
            None => None,
        }
    }

    /// The events emitted so far, oldest first.
    pub fn events(&self) -> (events: &Vec<Event>)
        ensures
            events@ == self@.events,
    {
        &self.events
    }

    /// The transfers asked for so far, oldest first.
    pub fn transfers(&self) -> (transfers: &Vec<Transfer>)
        ensures
            transfers@ == self@.transfers,
    {
        &self.transfers
    }
}

} // verus!
