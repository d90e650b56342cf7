//! What holds of the contract over all its calls.

use crate::error::{Failure, PredifiError};
use crate::index::{backward_page, forward_page};
use crate::lifecycle::resolution_opens_at;
use crate::model::{Call, ContractState};
use crate::preservation::{
    lemma_admin_inv, lemma_claim_winnings_inv, lemma_create_pool_inv, lemma_init_inv,
    lemma_lifecycle_inv, lemma_place_prediction_inv,
};
use crate::types::{Address, MarketState, MAX_FEE_BPS};
use vstd::prelude::*;

verus! {

/// The state of a contract that has never been called is in order, and holds
/// no fee rate.
pub proof fn law_fresh_state_in_order()
    ensures
        ContractState::empty().inv(),
        ContractState::empty().fee_within_bound(),
{
}

/// Every call leaves the state in order: the books of every pool balance, with
/// the pool's total equal to the creator's liquidity and everything in its
/// stake table, and the table equal, outcome by outcome, to the stakes placed.
pub proof fn law_state_stays_in_order(state: ContractState, call: Call)
    requires
        state.inv(),
    ensures
        state.apply(call).inv(),
{
    match call {
        Call::Init { access_control, treasury, fee_bps, resolution_delay } => {
            lemma_init_inv(state, access_control, treasury, fee_bps, resolution_delay);
        },
        Call::Pause { admin, authorized, now } => {
            lemma_admin_inv(state, admin, authorized, 0, 0, admin, now);
        },
        Call::Unpause { admin, authorized, now } => {
            lemma_admin_inv(state, admin, authorized, 0, 0, admin, now);
        },
        Call::SetFeeBps { admin, authorized, fee_bps, now } => {
            lemma_admin_inv(state, admin, authorized, fee_bps, 0, admin, now);
        },
        Call::SetTreasury { admin, authorized, treasury, now } => {
            lemma_admin_inv(state, admin, authorized, 0, 0, treasury, now);
        },
        Call::SetResolutionDelay { admin, authorized, delay, now } => {
            lemma_admin_inv(state, admin, authorized, 0, delay, admin, now);
        },
        Call::AddTokenToWhitelist { admin, authorized, token, now } => {
            lemma_admin_inv(state, admin, authorized, 0, 0, token, now);
        },
        Call::RemoveTokenFromWhitelist { admin, authorized, token, now } => {
            lemma_admin_inv(state, admin, authorized, 0, 0, token, now);
        },
        Call::CreatePool {
            creator,
            end_time,
            token,
            options_count,
            description,
            metadata_url,
            initial_liquidity,
            category,
            now,
        } => {
            lemma_create_pool_inv(
                state,
                creator,
                end_time,
                token,
                options_count,
                description,
                metadata_url,
                initial_liquidity,
                category,
                now,
            );
        },
        Call::ResolvePool { operator, authorized, pool_id, outcome, now } => {
            lemma_lifecycle_inv(state, operator, authorized, pool_id, outcome, None, now);
        },
        Call::OracleResolve { oracle, authorized, pool_id, outcome, evidence, now } => {
            lemma_lifecycle_inv(state, oracle, authorized, pool_id, outcome, Some(evidence), now);
        },
        Call::MarkPoolReady { pool_id, now } => {
            let nobody = arbitrary::<Address>();
            lemma_lifecycle_inv(state, nobody, false, pool_id, 0, None, now);
        },
        Call::CancelPool { operator, authorized, pool_id, now } => {
            lemma_lifecycle_inv(state, operator, authorized, pool_id, 0, None, now);
        },
        Call::PlacePrediction { user, pool_id, amount, outcome, now } => {
            lemma_place_prediction_inv(state, user, pool_id, amount, outcome, now);
        },
        Call::ClaimWinnings { user, pool_id, now } => {
            lemma_claim_winnings_inv(state, user, pool_id, now);
        },
    }
}

/// What no call takes from a pool: its place, its receipts and, once it is
/// resolved or canceled, its state, its outcome and its flags.
pub open spec fn pool_kept(before: ContractState, after: ContractState, pool_id: u64) -> bool {
    &&& after.has_pool(pool_id)
    &&& forall|user: Seq<char>|
        before.market(pool_id).receipts.contains(user) ==> after.market(pool_id).receipts.contains(
            user,
        )
    &&& before.market(pool_id).pool.state != MarketState::Active ==> {
        let was = before.market(pool_id).pool;
        let is = after.market(pool_id).pool;
        &&& is.state == was.state
        &&& is.outcome == was.outcome
        &&& is.resolved == was.resolved
        &&& is.canceled == was.canceled
    }
}

proof fn lemma_admin_keeps(
    state: ContractState,
    admin: Address,
    authorized: bool,
    fee_bps: u32,
    delay: u64,
    address: Address,
    now: u64,
    pool_id: u64,
)
    requires
        state.has_pool(pool_id),
    ensures
        pool_kept(state, state.init(admin, address, fee_bps, delay).0, pool_id),
        pool_kept(state, state.pause(admin, authorized, now).0, pool_id),
        pool_kept(state, state.unpause(admin, authorized, now).0, pool_id),
        pool_kept(state, state.set_fee_bps(admin, authorized, fee_bps, now).0, pool_id),
        pool_kept(state, state.set_treasury(admin, authorized, address, now).0, pool_id),
        pool_kept(state, state.set_resolution_delay(admin, authorized, delay, now).0, pool_id),
        pool_kept(state, state.add_token_to_whitelist(admin, authorized, address, now).0, pool_id),
        pool_kept(
            state,
            state.remove_token_from_whitelist(admin, authorized, address, now).0,
            pool_id,
        ),
{
}

proof fn lemma_create_keeps(
    state: ContractState,
    creator: Address,
    end_time: u64,
    token: Address,
    options_count: u32,
    description: String,
    metadata_url: String,
    initial_liquidity: i128,
    category: String,
    now: u64,
    pool_id: u64,
)
    requires
        state.has_pool(pool_id),
    ensures
        pool_kept(
            state,
            state.create_pool(
                creator,
                end_time,
                token,
                options_count,
                description,
                metadata_url,
                initial_liquidity,
                category,
                now,
            ).0,
            pool_id,
        ),
{
}

proof fn lemma_lifecycle_keeps(
    state: ContractState,
    caller: Address,
    authorized: bool,
    target: u64,
    outcome: u32,
    evidence: Option<String>,
    now: u64,
    pool_id: u64,
)
    requires
        state.has_pool(pool_id),
    ensures
        pool_kept(
            state,
            state.resolve(caller, authorized, target, outcome, evidence, now).0,
            pool_id,
        ),
        pool_kept(state, state.mark_pool_ready(target, now).0, pool_id),
        pool_kept(state, state.cancel_pool(caller, authorized, target, now).0, pool_id),
{
}

proof fn lemma_stakes_and_claims_keep(
    state: ContractState,
    user: Address,
    target: u64,
    amount: i128,
    outcome: u32,
    now: u64,
    pool_id: u64,
)
    requires
        state.has_pool(pool_id),
    ensures
        pool_kept(state, state.place_prediction(user, target, amount, outcome, now).0, pool_id),
        pool_kept(state, state.claim_winnings(user, target, now).0, pool_id),
{
}

/// No call takes a pool away, or a receipt, or changes a settled pool's state,
/// outcome or flags.
pub proof fn lemma_pool_kept(state: ContractState, call: Call, pool_id: u64)
    requires
        state.has_pool(pool_id),
    ensures
        pool_kept(state, state.apply(call), pool_id),
{
    match call {
        Call::Init { access_control, treasury, fee_bps, resolution_delay } => {
            lemma_admin_keeps(
                state,
                access_control,
                false,
                fee_bps,
                resolution_delay,
                treasury,
                0,
                pool_id,
            );
        },
        Call::Pause { admin, authorized, now } => {
            lemma_admin_keeps(state, admin, authorized, 0, 0, admin, now, pool_id);
        },
        Call::Unpause { admin, authorized, now } => {
            lemma_admin_keeps(state, admin, authorized, 0, 0, admin, now, pool_id);
        },
        Call::SetFeeBps { admin, authorized, fee_bps, now } => {
            lemma_admin_keeps(state, admin, authorized, fee_bps, 0, admin, now, pool_id);
        },
        Call::SetTreasury { admin, authorized, treasury, now } => {
            lemma_admin_keeps(state, admin, authorized, 0, 0, treasury, now, pool_id);
        },
        Call::SetResolutionDelay { admin, authorized, delay, now } => {
            lemma_admin_keeps(state, admin, authorized, 0, delay, admin, now, pool_id);
        },
        Call::AddTokenToWhitelist { admin, authorized, token, now } => {
            lemma_admin_keeps(state, admin, authorized, 0, 0, token, now, pool_id);
        },
        Call::RemoveTokenFromWhitelist { admin, authorized, token, now } => {
            lemma_admin_keeps(state, admin, authorized, 0, 0, token, now, pool_id);
        },
        Call::CreatePool {
            creator,
            end_time,
            token,
            options_count,
            description,
            metadata_url,
            initial_liquidity,
            category,
            now,
        } => {
            lemma_create_keeps(
                state,
                creator,
                end_time,
                token,
                options_count,
                description,
                metadata_url,
                initial_liquidity,
                category,
                now,
                pool_id,
            );
        },
        Call::ResolvePool { operator, authorized, pool_id: target, outcome, now } => {
            lemma_lifecycle_keeps(state, operator, authorized, target, outcome, None, now, pool_id);
        },
        Call::OracleResolve { oracle, authorized, pool_id: target, outcome, evidence, now } => {
            lemma_lifecycle_keeps(
                state,
                oracle,
                authorized,
                target,
                outcome,
                Some(evidence),
                now,
                pool_id,
            );
        },
        Call::MarkPoolReady { pool_id: target, now } => {
            let nobody = arbitrary::<Address>();
            lemma_lifecycle_keeps(state, nobody, false, target, 0, None, now, pool_id);
        },
        Call::CancelPool { operator, authorized, pool_id: target, now } => {
            lemma_lifecycle_keeps(state, operator, authorized, target, 0, None, now, pool_id);
        },
        Call::PlacePrediction { user, pool_id: target, amount, outcome, now } => {
            lemma_stakes_and_claims_keep(state, user, target, amount, outcome, now, pool_id);
        },
        Call::ClaimWinnings { user, pool_id: target, now } => {
            lemma_stakes_and_claims_keep(state, user, target, 0, 0, now, pool_id);
        },
    }
}

/// A pool that is resolved or canceled stays as it is: no call changes its
/// state, its outcome or its flags. No call takes a pool away, either.
pub proof fn law_settled_pools_stay(state: ContractState, call: Call, pool_id: u64)
    requires
        state.has_pool(pool_id),
        state.market(pool_id).pool.state != MarketState::Active,
    ensures
        state.apply(call).has_pool(pool_id),
        state.apply(call).market(pool_id).pool.state == state.market(pool_id).pool.state,
        state.apply(call).market(pool_id).pool.outcome == state.market(pool_id).pool.outcome,
        state.apply(call).market(pool_id).pool.resolved == state.market(pool_id).pool.resolved,
        state.apply(call).market(pool_id).pool.canceled == state.market(pool_id).pool.canceled,
{
    lemma_pool_kept(state, call, pool_id);
}

/// A pool leaves the active state only for the resolved or the canceled one,
/// and with it has the flag of that state and no other.
pub proof fn law_pools_only_settle(state: ContractState, call: Call, pool_id: u64)
    requires
        state.inv(),
        state.has_pool(pool_id),
    ensures
        state.apply(call).has_pool(pool_id),
        ({
            let before = state.market(pool_id).pool;
            let after = state.apply(call).market(pool_id).pool;
            &&& after.state != before.state ==> before.state == MarketState::Active
            &&& after.resolved == (after.state == MarketState::Resolved)
            &&& after.canceled == (after.state == MarketState::Canceled)
        }),
{
    law_state_stays_in_order(state, call);
    lemma_pool_kept(state, call, pool_id);
}

/// A fee rate above 10,000 basis points is turned away whoever sets it, and the
/// settings stay as they are.
pub proof fn law_high_fee_rejected(
    state: ContractState,
    admin: Address,
    authorized: bool,
    fee_bps: u32,
    now: u64,
)
    requires
        fee_bps > MAX_FEE_BPS,
    ensures
        state.set_fee_bps(admin, authorized, fee_bps, now).1 is Err,
        state.set_fee_bps(admin, authorized, fee_bps, now).0.config == state.config,
{
}

/// Settings with a fee rate above 10,000 basis points are not taken at
/// initialization either.
pub proof fn law_high_fee_not_initialized(
    state: ContractState,
    access_control: Address,
    treasury: Address,
    fee_bps: u32,
    resolution_delay: u64,
)
    requires
        fee_bps > MAX_FEE_BPS,
    ensures
        state.init(access_control, treasury, fee_bps, resolution_delay).0 == state,
        state.config is None ==> state.init(
            access_control,
            treasury,
            fee_bps,
            resolution_delay,
        ).1 is Err,
{
}

/// The stored fee rate never exceeds 10,000 basis points: where it is within
/// the bound before a call, or none is stored, it is within the bound after.
pub proof fn law_fee_stays_bounded(state: ContractState, call: Call)
    requires
        state.fee_within_bound(),
    ensures
        state.apply(call).fee_within_bound(),
{
}

/// Before a pool's close and the resolution delay have passed, nobody resolves
/// it, whoever calls and with whatever role.
pub proof fn law_no_resolution_before_delay(
    state: ContractState,
    caller: Address,
    authorized: bool,
    pool_id: u64,
    outcome: u32,
    evidence: Option<String>,
    now: u64,
)
    requires
        state.has_pool(pool_id),
        state.config matches Some(config) ==> now < resolution_opens_at(
            state.market(pool_id).pool.end_time,
            config.resolution_delay,
        ),
    ensures
        state.resolve(caller, authorized, pool_id, outcome, evidence, now).1 is Err,
        state.resolve(caller, authorized, pool_id, outcome, evidence, now).0.markets
            == state.markets,
{
}

/// From the moment a pool's close and the resolution delay have passed, a
/// caller with the role resolves the pool, if it is active, to any outcome that
/// it offers.
pub proof fn law_resolution_after_delay(
    state: ContractState,
    caller: Address,
    pool_id: u64,
    outcome: u32,
    evidence: Option<String>,
    now: u64,
)
    requires
        state.inv(),
        !state.paused,
        state.config is Some,
        state.has_pool(pool_id),
        state.market(pool_id).pool.state == MarketState::Active,
        outcome < state.market(pool_id).pool.options_count,
        now >= resolution_opens_at(
            state.market(pool_id).pool.end_time,
            state.config->Some_0.resolution_delay,
        ),
    ensures
        state.resolve(caller, true, pool_id, outcome, evidence, now).1 is Ok,
        ({
            let after = state.resolve(caller, true, pool_id, outcome, evidence, now).0.market(
                pool_id,
            ).pool;
            after.state == MarketState::Resolved && after.outcome == outcome
        }),
{
}

/// Nobody is paid twice. A claim that is settled leaves a receipt. No call
/// takes a receipt away. And a claim by a user with a receipt is refused: it
/// asks for no transfer and leaves every book as it is.
pub proof fn law_no_double_payout(
    state: ContractState,
    user: Address,
    pool_id: u64,
    now: u64,
    between: Call,
    again: Address,
    later: u64,
)
    requires
        state.inv(),
        again@ == user@,
        state.claim_winnings(user, pool_id, now).1 is Ok,
    ensures
        ({
            let claimed = state.claim_winnings(user, pool_id, now).0;
            let meanwhile = claimed.apply(between);
            let second = meanwhile.claim_winnings(again, pool_id, later);
            &&& claimed.market(pool_id).receipts.contains(user@)
            &&& meanwhile.has_pool(pool_id)
            &&& meanwhile.market(pool_id).receipts.contains(user@)
            &&& second.1 is Err
            &&& !meanwhile.paused ==> second.1 == Err::<i128, Failure>(
                Failure::Denied(PredifiError::AlreadyClaimed),
            )
            &&& second.0.transfers == meanwhile.transfers
            &&& second.0.markets == meanwhile.markets
        }),
{
    let claimed = state.claim_winnings(user, pool_id, now).0;
    lemma_pool_kept(claimed, between, pool_id);
}

/// A page is empty where the offset is at or past the number of entries, or the
/// limit is zero; otherwise it holds as many entries as the limit allows and
/// the list has left.
pub proof fn law_page_sizes(list: Seq<u64>, offset: u32, limit: u32)
    ensures
        offset >= list.len() || limit == 0 ==> forward_page(list, offset as int, limit as int).len()
            == 0 && backward_page(list, offset as int, limit as int).len() == 0,
        offset < list.len() && limit > 0 ==> {
            let size = if limit <= list.len() - offset {
                limit as int
            } else {
                list.len() - offset
            };
            &&& forward_page(list, offset as int, limit as int).len() == size
            &&& backward_page(list, offset as int, limit as int).len() == size
        },
{
}

/// A forward page holds the entries in the order in which they came, from the
/// offset on; a backward page holds them newest first, the `offset` newest left
/// out.
pub proof fn law_page_order(list: Seq<u64>, offset: u32, limit: u32, i: int)
    requires
        0 <= i < forward_page(list, offset as int, limit as int).len(),
    ensures
        forward_page(list, offset as int, limit as int)[i] == list[offset + i],
        backward_page(list, offset as int, limit as int)[i] == list[list.len() - 1 - offset - i],
{
    law_page_sizes(list, offset, limit);
}

} // verus!
