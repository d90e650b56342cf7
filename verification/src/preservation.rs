//! That each call keeps the contract's state in order.

use crate::lifecycle::opened_pool;
use crate::market::MarketView;
use crate::model::ContractState;
use crate::types::Address;
use vstd::prelude::*;

verus! {

/// Whether a state is in order does not depend on what the contract has handed
/// out, nor on its settings, its pause or its allow-list.
pub proof fn lemma_inv_reads_books(state: ContractState, other: ContractState)
    requires
        state.inv(),
        other.markets == state.markets,
        other.user_index == state.user_index,
        other.category_index == state.category_index,
    ensures
        other.inv(),
{
}

/// Initializing keeps the state in order.
pub proof fn lemma_init_inv(
    state: ContractState,
    access_control: Address,
    treasury: Address,
    fee_bps: u32,
    resolution_delay: u64,
)
    requires
        state.inv(),
    ensures
        state.init(access_control, treasury, fee_bps, resolution_delay).0.inv(),
{
}

/// The calls that ask for the admin role keep the state in order.
pub proof fn lemma_admin_inv(
    state: ContractState,
    admin: Address,
    authorized: bool,
    fee_bps: u32,
    delay: u64,
    address: Address,
    now: u64,
)
    requires
        state.inv(),
    ensures
        state.pause(admin, authorized, now).0.inv(),
        state.unpause(admin, authorized, now).0.inv(),
        state.set_fee_bps(admin, authorized, fee_bps, now).0.inv(),
        state.set_treasury(admin, authorized, address, now).0.inv(),
        state.set_resolution_delay(admin, authorized, delay, now).0.inv(),
        state.add_token_to_whitelist(admin, authorized, address, now).0.inv(),
        state.remove_token_from_whitelist(admin, authorized, address, now).0.inv(),
{
}

/// Creating a pool keeps the state in order.
pub proof fn lemma_create_pool_inv(
    state: ContractState,
    creator: Address,
    end_time: u64,
    token: Address,
    options_count: u32,
    description: String,
    metadata_url: String,
    initial_liquidity: i128,
    category: String,
    now: u64,
)
    requires
        state.inv(),
    ensures
        state.create_pool(
            creator,
            end_time,
            token,
            options_count,
            description,
            metadata_url,
            initial_liquidity,
            category,
            now,
        ).0.inv(),
{
    if state.create_failure(
        end_time,
        token,
        options_count,
        description,
        metadata_url,
        initial_liquidity,
        category,
        now,
    ) is None {
        let pool = opened_pool(
            creator,
            end_time,
            token,
            options_count,
            description,
            metadata_url,
            initial_liquidity,
            category,
        );
        MarketView::lemma_opened_inv(pool);
        let pool_id = state.markets.len() as u64;
        let stored = ContractState {
            markets: state.markets.push(MarketView::opened(pool)),
            category_index: state.category_index.insert(
                category@,
                state.category_index[category@].push(pool_id),
            ),
            ..state
        };
        assert forall|user: Seq<char>, k: int| 0 <= k < stored.user_index[user].len() implies {
            &&& (#[trigger] stored.user_index[user][k]) < stored.markets.len()
            &&& stored.markets[stored.user_index[user][k] as int].has_stake(user)
        } by {}
    }
}

/// Resolving, asking whether a pool is ready, and canceling keep the state in
/// order.
pub proof fn lemma_lifecycle_inv(
    state: ContractState,
    caller: Address,
    authorized: bool,
    pool_id: u64,
    outcome: u32,
    evidence: Option<String>,
    now: u64,
)
    requires
        state.inv(),
    ensures
        state.resolve(caller, authorized, pool_id, outcome, evidence, now).0.inv(),
        state.mark_pool_ready(pool_id, now).0.inv(),
        state.cancel_pool(caller, authorized, pool_id, now).0.inv(),
{
    if state.has_pool(pool_id) && state.config is Some {
        let market = state.market(pool_id);
        market.lemma_settled_inv(state.config->Some_0.resolution_delay, outcome, now);
        assert forall|changed: MarketView|
            changed.inv() && changed.entries == market.entries implies (
            #[trigger] state.with_market(pool_id, changed)).inv() by {
            market.lemma_same_entries(changed);
            lemma_with_market_inv(state, pool_id, changed);
        }
    }
}

/// Replacing the books of a pool by books that are in order and hold the same
/// stakes keeps the state in order.
pub proof fn lemma_with_market_inv(state: ContractState, pool_id: u64, changed: MarketView)
    requires
        state.inv(),
        state.has_pool(pool_id),
        changed.inv(),
        forall|user: Seq<char>| state.market(pool_id).has_stake(user) ==> changed.has_stake(user),
    ensures
        state.with_market(pool_id, changed).inv(),
{
    let after = state.with_market(pool_id, changed);
    assert forall|user: Seq<char>, k: int| 0 <= k < after.user_index[user].len() implies {
        &&& (#[trigger] after.user_index[user][k]) < after.markets.len()
        &&& after.markets[after.user_index[user][k] as int].has_stake(user)
    } by {}
}

/// Placing a stake keeps the state in order.
pub proof fn lemma_place_prediction_inv(
    state: ContractState,
    user: Address,
    pool_id: u64,
    amount: i128,
    outcome: u32,
    now: u64,
)
    requires
        state.inv(),
    ensures
        state.place_prediction(user, pool_id, amount, outcome, now).0.inv(),
{
    if state.place_fault(user@, pool_id, amount, outcome, now) is None {
        let market = state.market(pool_id);
        let booked = market.with_stake(user, amount, outcome);
        market.lemma_with_stake_inv(user, amount, outcome, now);
        lemma_with_market_inv(state, pool_id, booked);
        let stored = ContractState {
            markets: state.markets.update(pool_id as int, booked),
            user_index: state.user_index.insert(user@, state.user_index[user@].push(pool_id)),
            ..state
        };
        assert forall|other: Seq<char>, k: int| 0 <= k < stored.user_index[other].len() implies {
            &&& (#[trigger] stored.user_index[other][k]) < stored.markets.len()
            &&& stored.markets[stored.user_index[other][k] as int].has_stake(other)
        } by {}
    }
}

/// Claiming keeps the state in order.
pub proof fn lemma_claim_winnings_inv(state: ContractState, user: Address, pool_id: u64, now: u64)
    requires
        state.inv(),
    ensures
        state.claim_winnings(user, pool_id, now).0.inv(),
{
    if state.has_pool(pool_id) {
        let market = state.market(pool_id);
        market.lemma_settled_inv(0, 0, 0);
        market.lemma_same_entries(market.with_receipt(user@));
        lemma_with_market_inv(state, pool_id, market.with_receipt(user@));
    }
}

} // verus!
