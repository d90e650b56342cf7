//! The contract driven as a host drives it: with a clock, a table of roles and
//! a bank that carries out the transfers the contract asks for.

use predifi_contract::{
    Address, DummyAccessControl, Event, Failure, Fault, MarketState, Operation, OracleCallback,
    Party, PredifiContract, PredifiError, Prediction, Transfer, UserPredictionDetail,
};
use std::collections::HashMap;

const ROLE_ADMIN: u32 = 0;
const ROLE_OPERATOR: u32 = 1;
const ROLE_ORACLE: u32 = 3;

const METADATA: &str = "ipfs://bafybeigdyrzt5sfp7udm7hu76uh7y26nf3efuylqabf3oclgtqy55fbzdi";

/// The host of a contract under test.
struct Host {
    contract: PredifiContract,
    roles: DummyAccessControl,
    now: u64,
    balances: HashMap<String, i128>,
    contract_balance: i128,
    carried_out: usize,
    accounts: u32,
}

fn message(call: &str, fault: Fault) -> &'static str {
    match fault {
        Fault::Paused => "Contract is paused",
        Fault::NotInitialized => "Config not set",
        Fault::PoolNotFound => "Pool not found",
        Fault::FeeTooHigh => "fee_bps exceeds 10000",
        Fault::EndTimeNotInFuture => "end_time must be in the future",
        Fault::DurationTooShort => "end_time must be at least 1 hour in the future",
        Fault::TooFewOptions => "options_count must be at least 2",
        Fault::TooManyOptions => "options_count exceeds maximum allowed value",
        Fault::NegativeLiquidity => "initial_liquidity must be non-negative",
        Fault::ExcessiveLiquidity => "initial_liquidity exceeds maximum allowed value",
        Fault::DescriptionTooLong => "description exceeds 256 bytes",
        Fault::MetadataUrlTooLong => "metadata_url exceeds 512 bytes",
        Fault::AmountNotPositive => "amount must be positive",
        Fault::AlreadyResolved => "Pool already resolved",
        Fault::AlreadyCanceled => match call {
            "resolve" => "Cannot resolve a canceled pool",
            "place" => "Cannot place prediction on canceled pool",
            _ => "Pool already canceled",
        },
        Fault::PoolNotActive => "Pool is not active",
        Fault::InvalidTransition => "Invalid state transition",
        Fault::PoolEnded => "Pool has ended",
        Fault::OutcomeOutOfRange => "outcome exceeds options_count",
        Fault::AlreadyStaked => "user already has a stake in this pool",
        Fault::Overflow => "overflow",
        Fault::WinningsExceedTotal => "Winnings exceed total stake",
    }
}

/// Fails as a caller of the deployed contract sees it fail.
fn raise(call: &str, failure: Failure) -> ! {
    match failure {
        Failure::Denied(error) => panic!("Error(Contract, #{})", error.code()),
        Failure::Aborted(fault) => panic!("{}", message(call, fault)),
    }
}

impl Host {
    fn new() -> Host {
        Host {
            contract: PredifiContract::new(),
            roles: DummyAccessControl::new(),
            now: 0,
            balances: HashMap::new(),
            contract_balance: 0,
            carried_out: 0,
            accounts: 0,
        }
    }

    fn generate(&mut self) -> Address {
        self.accounts += 1;
        Address::new(&format!("account-{}", self.accounts))
    }

    fn grant_role(&mut self, user: &Address, role: u32) {
        self.roles.grant_role(user, role);
    }

    fn holds(&self, user: &Address, operation: Operation) -> bool {
        self.roles.has_role(user, operation.required_role())
    }

    fn mint(&mut self, user: &Address, amount: i128) {
        *self.balances.entry(user.key.clone()).or_insert(0) += amount;
    }

    fn balance(&self, user: &Address) -> i128 {
        self.balances.get(&user.key).copied().unwrap_or(0)
    }

    /// Carries out the transfers that the contract has asked for since the last
    /// time.
    fn carry_out(&mut self) {
        let asked: Vec<(Option<String>, Option<String>, i128)> = self.contract.transfers()
            [self.carried_out..]
            .iter()
            .map(|transfer: &Transfer| {
                let from = match &transfer.from {
                    Party::Contract => None,
                    Party::Account(address) => Some(address.key.clone()),
                };
                let to = match &transfer.to {
                    Party::Contract => None,
                    Party::Account(address) => Some(address.key.clone()),
                };
                (from, to, transfer.amount)
            })
            .collect();
        self.carried_out = self.contract.transfers().len();
        for (from, to, amount) in asked {
            match from {
                None => {
                    assert!(self.contract_balance >= amount, "the contract is out of funds");
                    self.contract_balance -= amount;
                }
                Some(key) => {
                    let held = self.balances.entry(key).or_insert(0);
                    assert!(*held >= amount, "the account is out of funds");
                    *held -= amount;
                }
            }
            match to {
                None => self.contract_balance += amount,
                Some(key) => *self.balances.entry(key).or_insert(0) += amount,
            }
        }
    }

    fn init(&mut self, access_control: &Address, treasury: &Address, fee_bps: u32, delay: u64) {
        if let Err(fault) = self.contract.init(access_control, treasury, fee_bps, delay) {
            raise("init", Failure::Aborted(fault));
        }
    }

    fn pause(&mut self, admin: &Address) {
        let authorized = self.holds(admin, Operation::Pause);
        match self.contract.pause(admin, authorized, self.now) {
            Ok(()) => {}
            Err(Failure::Denied(PredifiError::Unauthorized)) => {
                panic!("Unauthorized: missing required role")
            }
            Err(failure) => raise("pause", failure),
        }
    }

    fn unpause(&mut self, admin: &Address) {
        let authorized = self.holds(admin, Operation::Unpause);
        match self.contract.unpause(admin, authorized, self.now) {
            Ok(()) => {}
            Err(Failure::Denied(PredifiError::Unauthorized)) => {
                panic!("Unauthorized: missing required role")
            }
            Err(failure) => raise("unpause", failure),
        }
    }

    fn set_fee_bps(&mut self, admin: &Address, fee_bps: u32) {
        let authorized = self.holds(admin, Operation::SetFeeBps);
        if let Err(failure) = self.contract.set_fee_bps(admin, authorized, fee_bps, self.now) {
            raise("set_fee_bps", failure);
        }
    }

    fn set_treasury(&mut self, admin: &Address, treasury: &Address) {
        let authorized = self.holds(admin, Operation::SetTreasury);
        if let Err(failure) = self.contract.set_treasury(admin, authorized, treasury, self.now) {
            raise("set_treasury", failure);
        }
    }

    fn set_resolution_delay(&mut self, admin: &Address, delay: u64) {
        let authorized = self.holds(admin, Operation::SetResolutionDelay);
        if let Err(failure) =
            self.contract.set_resolution_delay(admin, authorized, delay, self.now)
        {
            raise("set_resolution_delay", failure);
        }
    }

    fn add_token_to_whitelist(&mut self, admin: &Address, token: &Address) {
        let authorized = self.holds(admin, Operation::AddTokenToWhitelist);
        if let Err(failure) =
            self.contract.add_token_to_whitelist(admin, authorized, token, self.now)
        {
            raise("add_token_to_whitelist", failure);
        }
    }

    fn remove_token_from_whitelist(&mut self, admin: &Address, token: &Address) {
        let authorized = self.holds(admin, Operation::RemoveTokenFromWhitelist);
        if let Err(failure) =
            self.contract.remove_token_from_whitelist(admin, authorized, token, self.now)
        {
            raise("remove_token_from_whitelist", failure);
        }
    }

    fn is_token_allowed(&self, token: &Address) -> bool {
        self.contract.is_token_allowed(token)
    }

    fn create_pool(
        &mut self,
        creator: &Address,
        end_time: u64,
        token: &Address,
        options_count: u32,
        description: &str,
        metadata_url: &str,
        initial_liquidity: i128,
        category: &str,
    ) -> u64 {
        let created = self.contract.create_pool(
            creator,
            end_time,
            token,
            options_count,
            description.to_string(),
            metadata_url.to_string(),
            initial_liquidity,
            category.to_string(),
            self.now,
        );
        self.carry_out();
        match created {
            Ok(pool_id) => pool_id,
            Err(failure) => raise("create", failure),
        }
    }

    fn resolve_pool(&mut self, operator: &Address, pool_id: u64, outcome: u32) {
        let authorized = self.holds(operator, Operation::ResolvePool);
        if let Err(failure) =
            self.contract.resolve_pool(operator, authorized, pool_id, outcome, self.now)
        {
            raise("resolve", failure);
        }
    }

    fn oracle_resolve(&mut self, oracle: &Address, pool_id: u64, outcome: u32, evidence: &str) {
        let authorized = self.holds(oracle, Operation::OracleResolve);
        if let Err(failure) = self.contract.oracle_resolve(
            oracle,
            authorized,
            pool_id,
            outcome,
            evidence.to_string(),
            self.now,
        ) {
            raise("resolve", failure);
        }
    }

    fn try_mark_pool_ready(&mut self, pool_id: u64) -> Result<(), Failure> {
        self.contract.mark_pool_ready(pool_id, self.now)
    }

    fn cancel_pool(&mut self, operator: &Address, pool_id: u64) {
        let authorized = self.holds(operator, Operation::CancelPool);
        if let Err(failure) = self.contract.cancel_pool(operator, authorized, pool_id, self.now) {
            raise("cancel", failure);
        }
    }

    fn place_prediction(&mut self, user: &Address, pool_id: u64, amount: i128, outcome: u32) {
        let placed = self.contract.place_prediction(user, pool_id, amount, outcome, self.now);
        self.carry_out();
        if let Err(fault) = placed {
            raise("place", Failure::Aborted(fault));
        }
    }

    fn try_claim_winnings(&mut self, user: &Address, pool_id: u64) -> Result<i128, Failure> {
        let paid = self.contract.claim_winnings(user, pool_id, self.now);
        self.carry_out();
        paid
    }

    fn claim_winnings(&mut self, user: &Address, pool_id: u64) -> i128 {
        match self.try_claim_winnings(user, pool_id) {
            Ok(paid) => paid,
            Err(failure) => raise("claim", failure),
        }
    }
}

/// A host with an initialized contract, one asset on the allow-list, an
/// operator and an admin. Returns the host, the asset, the admin, the operator
/// and a pool creator.
fn setup() -> (Host, Address, Address, Address, Address) {
    let mut host = Host::new();
    let ac_id = Address::new("access-control");
    let token = Address::new("token");
    let treasury = host.generate();
    let operator = host.generate();
    let creator = host.generate();
    let admin = host.generate();
    host.grant_role(&operator, ROLE_OPERATOR);
    host.grant_role(&admin, ROLE_ADMIN);
    host.init(&ac_id, &treasury, 0, 0);
    host.add_token_to_whitelist(&admin, &token);
    (host, token, admin, operator, creator)
}

/// A host with an initialized contract and nothing else: no roles, no assets.
fn bare(delay: u64) -> (Host, Address) {
    let mut host = Host::new();
    let ac_id = Address::new("access-control");
    let treasury = host.generate();
    host.init(&ac_id, &treasury, 0, delay);
    (host, ac_id)
}

fn test_pool(host: &mut Host, creator: &Address, token: &Address) -> u64 {
    host.create_pool(creator, 100000, token, 3, "Test Pool", METADATA, 0, "tech")
}

// ── Core prediction tests ────────────────────────────────────────────────────

#[test]
fn test_claim_winnings() {
    let (mut host, token, _, operator, creator) = setup();
    let user1 = host.generate();
    let user2 = host.generate();
    host.mint(&user1, 1000);
    host.mint(&user2, 1000);

    let pool_id = test_pool(&mut host, &creator, &token);
    host.place_prediction(&user1, pool_id, 100, 1);
    host.place_prediction(&user2, pool_id, 100, 2);

    assert_eq!(host.contract_balance, 200);

    host.now = 100001;

    host.resolve_pool(&operator, pool_id, 1);

    let winnings = host.claim_winnings(&user1, pool_id);
    assert_eq!(winnings, 200);
    assert_eq!(host.balance(&user1), 1100);

    let winnings2 = host.claim_winnings(&user2, pool_id);
    assert_eq!(winnings2, 0);
    assert_eq!(host.balance(&user2), 900);
}

#[test]
#[should_panic(expected = "Error(Contract, #60)")]
fn test_double_claim() {
    let (mut host, token, _, operator, creator) = setup();
    let user1 = host.generate();
    host.mint(&user1, 1000);

    let pool_id = test_pool(&mut host, &creator, &token);
    host.place_prediction(&user1, pool_id, 100, 1);

    host.now = 100001;

    host.resolve_pool(&operator, pool_id, 1);

    host.claim_winnings(&user1, pool_id);
    host.claim_winnings(&user1, pool_id);
}

#[test]
#[should_panic(expected = "Error(Contract, #22)")]
fn test_claim_unresolved() {
    let (mut host, token, _, _, creator) = setup();
    let user1 = host.generate();
    host.mint(&user1, 1000);

    let pool_id = test_pool(&mut host, &creator, &token);
    host.place_prediction(&user1, pool_id, 100, 1);

    host.claim_winnings(&user1, pool_id);
}

#[test]
fn test_multiple_pools_independent() {
    let (mut host, token, _, operator, creator) = setup();
    let user1 = host.generate();
    let user2 = host.generate();
    host.mint(&user1, 1000);
    host.mint(&user2, 1000);

    let pool_a = test_pool(&mut host, &creator, &token);
    let pool_b = test_pool(&mut host, &creator, &token);

    host.place_prediction(&user1, pool_a, 100, 1);
    host.place_prediction(&user2, pool_b, 100, 1);

    host.now = 100001;

    host.resolve_pool(&operator, pool_a, 1);
    host.resolve_pool(&operator, pool_b, 2);

    let w1 = host.claim_winnings(&user1, pool_a);
    assert_eq!(w1, 100);

    let w2 = host.claim_winnings(&user2, pool_b);
    assert_eq!(w2, 0);
}

// ── Access control tests ─────────────────────────────────────────────────────

#[test]
#[should_panic(expected = "Error(Contract, #10)")]
fn test_unauthorized_set_fee_bps() {
    let (mut host, _, _, _, _) = setup();
    let not_admin = host.generate();
    host.set_fee_bps(&not_admin, 999);
}

#[test]
#[should_panic(expected = "Error(Contract, #10)")]
fn test_unauthorized_set_treasury() {
    let (mut host, _, _, _, _) = setup();
    let not_admin = host.generate();
    let new_treasury = host.generate();
    host.set_treasury(&not_admin, &new_treasury);
}

#[test]
#[should_panic(expected = "Error(Contract, #10)")]
fn test_unauthorized_resolve_pool() {
    let (mut host, token, _, _, creator) = setup();
    let pool_id = test_pool(&mut host, &creator, &token);
    let not_operator = host.generate();
    host.now = 10001;
    host.resolve_pool(&not_operator, pool_id, 1);
}

#[test]
fn test_oracle_can_resolve() {
    let (mut host, _) = bare(0);
    let token = Address::new("token");
    let oracle = host.generate();
    let admin = host.generate();
    host.grant_role(&oracle, ROLE_ORACLE);
    host.grant_role(&admin, ROLE_ADMIN);
    host.add_token_to_whitelist(&admin, &token);

    let creator = host.generate();
    let pool_id =
        host.create_pool(&creator, 100000, &token, 3, "Test Pool", "ipfs://metadata", 0, "tech");

    host.now = 100001;

    host.oracle_resolve(&oracle, pool_id, 1, "proof_123");

    let pool = host.contract.get_pool(pool_id).unwrap();
    assert_eq!(pool.state, MarketState::Resolved);
    assert_eq!(pool.outcome, 1);
    assert!(pool.resolved);
}

#[test]
#[should_panic(expected = "Error(Contract, #10)")]
fn test_unauthorized_oracle_resolve() {
    let (mut host, _) = bare(0);
    let token = Address::new("token");
    let not_oracle = host.generate();
    let admin = host.generate();
    host.grant_role(&not_oracle, ROLE_OPERATOR);
    host.grant_role(&admin, ROLE_ADMIN);
    host.add_token_to_whitelist(&admin, &token);

    let creator = host.generate();
    let pool_id =
        host.create_pool(&creator, 100000, &token, 3, "Test Pool", "ipfs://metadata", 0, "tech");

    host.now = 100001;

    host.oracle_resolve(&not_oracle, pool_id, 1, "proof_123");
}

#[test]
fn test_admin_can_set_fee_bps() {
    let (mut host, _) = bare(0);
    let admin = host.generate();
    host.grant_role(&admin, ROLE_ADMIN);

    host.set_fee_bps(&admin, 500);
    assert_eq!(host.contract.get_config().unwrap().fee_bps, 500);
}

#[test]
fn test_admin_can_set_treasury() {
    let (mut host, _) = bare(0);
    let admin = host.generate();
    let new_treasury = host.generate();
    host.grant_role(&admin, ROLE_ADMIN);

    host.set_treasury(&admin, &new_treasury);
    assert_eq!(host.contract.get_config().unwrap().treasury, new_treasury);
}

// ── Pause tests ───────────────────────────────────────────────────────────────

#[test]
fn test_admin_can_pause_and_unpause() {
    let (mut host, _) = bare(0);
    let admin = host.generate();
    host.grant_role(&admin, ROLE_ADMIN);

    host.pause(&admin);
    assert!(host.contract.is_paused());
    host.unpause(&admin);
    assert!(!host.contract.is_paused());
}

#[test]
#[should_panic(expected = "Unauthorized: missing required role")]
fn test_non_admin_cannot_pause() {
    let (mut host, _) = bare(0);
    let not_admin = host.generate();
    host.pause(&not_admin);
}

#[test]
#[should_panic(expected = "Contract is paused")]
fn test_paused_blocks_set_fee_bps() {
    let (mut host, _) = bare(0);
    let admin = host.generate();
    host.grant_role(&admin, ROLE_ADMIN);

    host.pause(&admin);
    host.set_fee_bps(&admin, 100);
}

#[test]
#[should_panic(expected = "Contract is paused")]
fn test_paused_blocks_set_treasury() {
    let (mut host, _) = bare(0);
    let admin = host.generate();
    host.grant_role(&admin, ROLE_ADMIN);

    host.pause(&admin);
    let treasury = host.generate();
    host.set_treasury(&admin, &treasury);
}

#[test]
#[should_panic(expected = "Contract is paused")]
fn test_paused_blocks_create_pool() {
    let (mut host, _) = bare(0);
    let admin = host.generate();
    let token = host.generate();
    host.grant_role(&admin, ROLE_ADMIN);
    host.add_token_to_whitelist(&admin, &token);

    let creator = host.generate();
    host.pause(&admin);
    test_pool(&mut host, &creator, &token);
}

#[test]
#[should_panic(expected = "Contract is paused")]
fn test_paused_blocks_place_prediction() {
    let (mut host, _) = bare(0);
    let admin = host.generate();
    let user = host.generate();
    host.grant_role(&admin, ROLE_ADMIN);

    host.pause(&admin);
    host.place_prediction(&user, 0, 10, 1);
}

#[test]
#[should_panic(expected = "Contract is paused")]
fn test_paused_blocks_resolve_pool() {
    let (mut host, _) = bare(0);
    let admin = host.generate();
    let operator = host.generate();
    host.grant_role(&admin, ROLE_ADMIN);
    host.grant_role(&operator, ROLE_OPERATOR);

    host.pause(&admin);
    host.resolve_pool(&operator, 0, 1);
}

#[test]
#[should_panic(expected = "Contract is paused")]
fn test_paused_blocks_claim_winnings() {
    let (mut host, _) = bare(0);
    let admin = host.generate();
    let user = host.generate();
    host.grant_role(&admin, ROLE_ADMIN);

    host.pause(&admin);
    host.claim_winnings(&user, 0);
}

#[test]
fn test_unpause_restores_functionality() {
    let (mut host, _) = bare(0);
    let token = Address::new("token");
    let admin = host.generate();
    let user = host.generate();
    host.grant_role(&admin, ROLE_ADMIN);
    host.add_token_to_whitelist(&admin, &token);
    host.mint(&user, 1000);

    let creator = host.generate();
    host.pause(&admin);
    host.unpause(&admin);

    let pool_id = test_pool(&mut host, &creator, &token);
    host.place_prediction(&user, pool_id, 10, 1);
    assert_eq!(host.balance(&user), 990);
    assert_eq!(host.contract_balance, 10);
}

// ── Pagination tests ──────────────────────────────────────────────────────────

#[test]
fn test_get_user_predictions() {
    let (mut host, token, _, _, creator) = setup();
    let user = host.generate();
    host.mint(&user, 1000);

    let pool0 = test_pool(&mut host, &creator, &token);
    let pool1 = test_pool(&mut host, &creator, &token);
    let pool2 = test_pool(&mut host, &creator, &token);

    host.place_prediction(&user, pool0, 10, 1);
    host.place_prediction(&user, pool1, 20, 2);
    host.place_prediction(&user, pool2, 30, 1);

    let first_two = host.contract.get_user_predictions(&user, 0, 2);
    assert_eq!(first_two.len(), 2);
    assert_eq!(first_two[0].pool_id, pool0);
    assert_eq!(first_two[1].pool_id, pool1);

    let last_two = host.contract.get_user_predictions(&user, 1, 2);
    assert_eq!(last_two.len(), 2);
    assert_eq!(last_two[0].pool_id, pool1);
    assert_eq!(last_two[1].pool_id, pool2);

    let last_one = host.contract.get_user_predictions(&user, 2, 1);
    assert_eq!(last_one.len(), 1);
    assert_eq!(last_one[0].pool_id, pool2);

    let empty = host.contract.get_user_predictions(&user, 3, 1);
    assert_eq!(empty.len(), 0);
}

// ── Pool cancellation tests ───────────────────────────────────────────────────

/// A host as the cancellation tests set it up: `admin` holds the operator
/// role, and another account, which put the asset on the allow-list, the admin
/// role.
fn cancellation_setup() -> (Host, Address, Address) {
    let (mut host, _) = bare(0);
    let token = Address::new("token");
    let admin = host.generate();
    let whitelist_admin = host.generate();
    host.grant_role(&admin, ROLE_OPERATOR);
    host.grant_role(&whitelist_admin, ROLE_ADMIN);
    host.add_token_to_whitelist(&whitelist_admin, &token);
    (host, token, admin)
}

#[test]
fn test_admin_can_cancel_pool() {
    let (mut host, token, admin) = cancellation_setup();
    let creator = host.generate();
    let pool_id = test_pool(&mut host, &creator, &token);

    host.cancel_pool(&admin, pool_id);

    let pool = host.contract.get_pool(pool_id).unwrap();
    assert_eq!(pool.state, MarketState::Canceled);
    assert!(pool.canceled);
}

#[test]
fn test_pool_creator_can_cancel_unresolved_pool() {
    let (mut host, _) = bare(0);
    let token = Address::new("token");
    let creator = host.generate();
    let admin = host.generate();
    host.grant_role(&creator, ROLE_OPERATOR);
    host.grant_role(&admin, ROLE_ADMIN);
    host.add_token_to_whitelist(&admin, &token);

    let pool_id = test_pool(&mut host, &creator, &token);

    host.cancel_pool(&creator, pool_id);
    assert_eq!(host.contract.get_pool(pool_id).unwrap().state, MarketState::Canceled);
}

#[test]
#[should_panic(expected = "Error(Contract, #10)")]
fn test_non_admin_non_creator_cannot_cancel() {
    let (mut host, token, _, _, creator) = setup();
    let pool_id = test_pool(&mut host, &creator, &token);
    let unauthorized = host.generate();
    host.cancel_pool(&unauthorized, pool_id);
}

#[test]
#[should_panic(expected = "Error(Contract, #91)")]
fn test_create_pool_rejects_non_whitelisted_token() {
    let (mut host, _) = bare(0);
    let creator = host.generate();
    let token_not_whitelisted = host.generate();
    host.grant_role(&creator, ROLE_OPERATOR);

    host.create_pool(&creator, 100000, &token_not_whitelisted, 3, "Pool", "ipfs://meta", 0, "tech");
}

#[test]
fn test_token_whitelist_add_remove_and_is_allowed() {
    let (mut host, _) = bare(0);
    let admin = host.generate();
    let token = host.generate();
    host.grant_role(&admin, ROLE_ADMIN);

    assert!(!host.is_token_allowed(&token));
    host.add_token_to_whitelist(&admin, &token);
    assert!(host.is_token_allowed(&token));
    host.remove_token_from_whitelist(&admin, &token);
    assert!(!host.is_token_allowed(&token));
}

#[test]
#[should_panic(expected = "Error(Contract, #22)")]
fn test_cannot_cancel_resolved_pool() {
    let (mut host, token, admin) = cancellation_setup();
    let operator = host.generate();
    let creator = host.generate();
    host.grant_role(&operator, ROLE_OPERATOR);
    let pool_id = test_pool(&mut host, &creator, &token);

    host.now = 100001;
    host.resolve_pool(&operator, pool_id, 1);

    host.cancel_pool(&admin, pool_id);
}

#[test]
#[should_panic(expected = "Cannot place prediction on canceled pool")]
fn test_cannot_place_prediction_on_canceled_pool() {
    let (mut host, token, admin) = cancellation_setup();
    let creator = host.generate();
    let user = host.generate();
    host.mint(&user, 1000);

    let pool_id = test_pool(&mut host, &creator, &token);

    host.cancel_pool(&admin, pool_id);

    host.place_prediction(&user, pool_id, 100, 1);
}

#[test]
#[should_panic(expected = "Error(Contract, #10)")]
fn test_pool_creator_cannot_cancel_after_admin_cancels() {
    let (mut host, token, admin) = cancellation_setup();
    let creator = host.generate();
    let pool_id = test_pool(&mut host, &creator, &token);

    host.cancel_pool(&admin, pool_id);

    let non_admin = host.generate();
    host.cancel_pool(&non_admin, pool_id);
}

#[test]
#[should_panic(expected = "Cannot place prediction on canceled pool")]
fn test_admin_can_cancel_pool_with_predictions() {
    let (mut host, token, admin) = cancellation_setup();
    let creator = host.generate();
    let user = host.generate();
    host.mint(&user, 1000);

    let pool_id = test_pool(&mut host, &creator, &token);

    host.place_prediction(&user, pool_id, 100, 1);

    host.cancel_pool(&admin, pool_id);

    host.place_prediction(&user, pool_id, 50, 2);
}

#[test]
fn test_cancel_pool_refunds_predictions() {
    let (mut host, token, admin) = cancellation_setup();
    let user1 = host.generate();
    let creator = host.generate();
    host.mint(&user1, 1000);

    let pool_id = test_pool(&mut host, &creator, &token);

    host.place_prediction(&user1, pool_id, 100, 1);
    assert_eq!(host.contract_balance, 100);
    assert_eq!(host.balance(&user1), 900);

    host.cancel_pool(&admin, pool_id);

    let predictions = host.contract.get_user_predictions(&user1, 0, 10);
    assert_eq!(predictions.len(), 1);
}

#[test]
#[should_panic(expected = "Cannot resolve a canceled pool")]
fn test_cannot_resolve_canceled_pool() {
    let (mut host, token, admin) = cancellation_setup();
    let operator = host.generate();
    host.grant_role(&operator, ROLE_OPERATOR);

    let creator = host.generate();
    let pool_id =
        host.create_pool(&creator, 100000, &token, 3, "Test Pool", "ipfs://metadata", 0, "tech");

    host.cancel_pool(&admin, pool_id);
    host.resolve_pool(&operator, pool_id, 1);
}

// ── Resolution delay tests ────────────────────────────────────────────────────

/// A host whose contract waits 3600 seconds after a pool's close, with a pool
/// that closes at 10000.
fn delay_setup(description: &str) -> (Host, Address, u64, u64) {
    let (mut host, _) = bare(3600);
    let admin = host.generate();
    let operator = host.generate();
    let token = host.generate();
    host.grant_role(&admin, ROLE_ADMIN);
    host.grant_role(&operator, ROLE_OPERATOR);
    host.add_token_to_whitelist(&admin, &token);

    let end_time = 10000;
    let creator = host.generate();
    let pool_id =
        host.create_pool(&creator, end_time, &token, 2, description, "ipfs://metadata", 0, "tech");
    (host, operator, pool_id, end_time)
}

#[test]
#[should_panic(expected = "Error(Contract, #81)")]
fn test_resolve_pool_before_delay() {
    let (mut host, operator, pool_id, end_time) = delay_setup("Delay Test");

    host.now = end_time + 10;

    host.resolve_pool(&operator, pool_id, 1);
}

#[test]
fn test_resolve_pool_after_delay() {
    let (mut host, operator, pool_id, end_time) = delay_setup("Delay Test");

    host.now = end_time + 3601;

    host.resolve_pool(&operator, pool_id, 1);
    assert_eq!(host.contract.get_pool(pool_id).unwrap().state, MarketState::Resolved);
}

#[test]
fn test_mark_pool_ready() {
    let (mut host, _, pool_id, end_time) = delay_setup("Ready Test");

    host.now = end_time + 10;
    let res = host.try_mark_pool_ready(pool_id);
    assert!(res.is_err());

    host.now = end_time + 3600;
    let res = host.try_mark_pool_ready(pool_id);
    assert!(res.is_ok());
}

#[test]
fn test_get_pools_by_category() {
    let (mut host, token, _, _, creator) = setup();

    let cat1 = "tech";
    let cat2 = "sports";

    let pool0 = host.create_pool(&creator, 100000, &token, 2, "Pool 0", "ipfs://0", 0, cat1);
    let pool1 = host.create_pool(&creator, 100000, &token, 2, "Pool 1", "ipfs://1", 0, cat1);
    let pool2 = host.create_pool(&creator, 100000, &token, 2, "Pool 2", "ipfs://2", 0, cat2);

    let tech_pools = host.contract.get_pools_by_category(&cat1.to_string(), 0, 10);
    assert_eq!(tech_pools.len(), 2);
    assert_eq!(tech_pools[0], pool1);
    assert_eq!(tech_pools[1], pool0);

    let sports_pools = host.contract.get_pools_by_category(&cat2.to_string(), 0, 10);
    assert_eq!(sports_pools.len(), 1);
    assert_eq!(sports_pools[0], pool2);

    let paginated = host.contract.get_pools_by_category(&cat1.to_string(), 1, 1);
    assert_eq!(paginated.len(), 1);
    assert_eq!(paginated[0], pool0);

    let empty = host.contract.get_pools_by_category(&cat1.to_string(), 2, 10);
    assert_eq!(empty.len(), 0);
}

// ── Whole markets ─────────────────────────────────────────────────────────────

#[test]
fn test_full_market_lifecycle() {
    let (mut host, token, _, operator, _) = setup();

    let user1 = host.generate();
    let user2 = host.generate();
    let user3 = host.generate();

    host.mint(&user1, 1000);
    host.mint(&user2, 1000);
    host.mint(&user3, 1000);

    let end_time = 3600;
    let pool_id = host.create_pool(&user1, end_time, &token, 3, "Test Pool", METADATA, 0, "tech");

    host.place_prediction(&user1, pool_id, 100, 1);
    host.place_prediction(&user2, pool_id, 200, 2);
    host.place_prediction(&user3, pool_id, 300, 1);

    assert_eq!(host.contract_balance, 600);

    host.now = 3601;
    host.resolve_pool(&operator, pool_id, 1);

    let w1 = host.claim_winnings(&user1, pool_id);
    assert_eq!(w1, 150);
    assert_eq!(host.balance(&user1), 1050);

    let w3 = host.claim_winnings(&user3, pool_id);
    assert_eq!(w3, 450);
    assert_eq!(host.balance(&user3), 1150);

    let w2 = host.claim_winnings(&user2, pool_id);
    assert_eq!(w2, 0);
    assert_eq!(host.balance(&user2), 800);

    assert_eq!(host.contract_balance, 0);
}

#[test]
fn test_multi_user_betting_and_balance_verification() {
    let (mut host, token, _, operator, _) = setup();

    let users: Vec<Address> = (0..5).map(|_| host.generate()).collect();
    for user in users.iter() {
        host.mint(user, 5000);
    }

    let creator = host.generate();
    let pool_id = host.create_pool(&creator, 4000, &token, 4, "Test Pool", METADATA, 0, "tech");

    host.place_prediction(&users[0], pool_id, 500, 1);
    host.place_prediction(&users[1], pool_id, 1000, 2);
    host.place_prediction(&users[2], pool_id, 500, 1);
    host.place_prediction(&users[3], pool_id, 1500, 3);
    host.place_prediction(&users[4], pool_id, 500, 1);

    assert_eq!(host.contract_balance, 4000);

    host.now = 4001;
    host.resolve_pool(&operator, pool_id, 3);

    let w3 = host.claim_winnings(&users[3], pool_id);
    assert_eq!(w3, 4000);
    assert_eq!(host.balance(&users[3]), 7500);

    let w0 = host.claim_winnings(&users[0], pool_id);
    assert_eq!(w0, 0);
    assert_eq!(host.balance(&users[0]), 4500);

    assert_eq!(host.contract_balance, 0);
}

#[test]
fn test_market_resolution_multiple_winners() {
    let (mut host, token, _, operator, _) = setup();

    let user1 = host.generate();
    let user2 = host.generate();
    let user3 = host.generate();

    host.mint(&user1, 1000);
    host.mint(&user2, 1000);
    host.mint(&user3, 1000);

    let creator = host.generate();
    let pool_id = host.create_pool(&creator, 3600, &token, 3, "Test Pool", METADATA, 0, "tech");

    host.place_prediction(&user1, pool_id, 200, 1);
    host.place_prediction(&user2, pool_id, 300, 1);
    host.place_prediction(&user3, pool_id, 500, 2);

    host.now = 3601;
    host.resolve_pool(&operator, pool_id, 1);

    let w1 = host.claim_winnings(&user1, pool_id);
    let w2 = host.claim_winnings(&user2, pool_id);

    assert_eq!(w1, 400);
    assert_eq!(w2, 600);
    assert_eq!(host.balance(&user1), 1200);
    assert_eq!(host.balance(&user2), 1300);
    assert_eq!(host.contract_balance, 0);
}

// ── Markets under load ────────────────────────────────────────────────────────

#[test]
fn test_high_volume_predictions_single_pool() {
    let (mut host, token, _, operator, _) = setup();

    let num_users: u32 = 100;
    let stake_per_user: i128 = 100;

    let mut users: Vec<Address> = Vec::new();
    for _ in 0..num_users {
        let u = host.generate();
        host.mint(&u, stake_per_user * 2);
        users.push(u);
    }

    let creator = host.generate();
    let pool_id = host.create_pool(
        &creator,
        100_000,
        &token,
        2,
        "Will the event happen?",
        METADATA,
        0,
        "stress",
    );

    for (i, user) in users.iter().enumerate() {
        let outcome = if i % 2 == 0 { 0u32 } else { 1u32 };
        host.place_prediction(user, pool_id, stake_per_user, outcome);
    }

    let expected_total = i128::from(num_users) * stake_per_user;
    assert_eq!(host.contract_balance, expected_total);

    host.now = 100_001;
    host.resolve_pool(&operator, pool_id, 0);

    let winner_stake_total = i128::from(num_users / 2) * stake_per_user;
    let mut total_claimed: i128 = 0;

    for (i, user) in users.iter().enumerate() {
        let claimed = host.claim_winnings(user, pool_id);
        if i % 2 == 0 {
            let expected = stake_per_user * expected_total / winner_stake_total;
            assert_eq!(claimed, expected, "Winner {i}: expected {expected} got {claimed}");
            total_claimed += claimed;
        } else {
            assert_eq!(claimed, 0, "Loser {i} should get 0 but got {claimed}");
        }
    }

    assert_eq!(host.contract_balance, 0);
    assert_eq!(total_claimed, expected_total);
}

#[test]
fn test_bulk_claim_winnings() {
    let (mut host, token, _, operator, _) = setup();

    let num_users: u32 = 48;
    let stake: i128 = 200;

    let mut winners: Vec<Address> = Vec::new();
    let mut losers: Vec<Address> = Vec::new();

    for i in 0..num_users {
        let u = host.generate();
        host.mint(&u, stake);
        if i % 3 == 0 {
            losers.push(u);
        } else {
            winners.push(u);
        }
    }

    let creator = host.generate();
    let pool_id = host.create_pool(
        &creator,
        200_000,
        &token,
        2,
        "Stress bulk claim test",
        METADATA,
        0,
        "stress",
    );

    for w in &winners {
        host.place_prediction(w, pool_id, stake, 0);
    }
    for l in &losers {
        host.place_prediction(l, pool_id, stake, 1);
    }

    let total_stake = i128::from(winners.len() as u32 + losers.len() as u32) * stake;
    assert_eq!(host.contract_balance, total_stake);

    host.now = 200_001;
    host.resolve_pool(&operator, pool_id, 0);

    let winning_pool: i128 = i128::from(winners.len() as u32) * stake;
    let mut total_paid: i128 = 0;
    for w in &winners {
        let payout = host.claim_winnings(w, pool_id);
        let expected = stake * total_stake / winning_pool;
        assert_eq!(payout, expected);
        total_paid += payout;
    }

    for l in &losers {
        let payout = host.claim_winnings(l, pool_id);
        assert_eq!(payout, 0);
    }

    assert_eq!(host.contract_balance, 0);
    assert_eq!(total_paid, total_stake);
}

#[test]
fn test_sequential_pool_creation_stress() {
    let (mut host, token, _, _, _) = setup();

    let creator = host.generate();
    let num_pools: u32 = 50;
    let mut pool_ids: Vec<u64> = Vec::new();

    for i in 0..num_pools {
        let pool_id = host.create_pool(
            &creator,
            100_000u64 + u64::from(i) * 1_000,
            &token,
            2,
            "Stress Pool",
            METADATA,
            0,
            "stress",
        );
        pool_ids.push(pool_id);
    }

    assert_eq!(pool_ids.len(), num_pools as usize);
    for (expected, got) in pool_ids.iter().enumerate() {
        assert_eq!(*got, expected as u64, "Expected sequential ID {expected} but got {got}");
    }
}

#[test]
fn test_max_outcomes_high_volume() {
    let (mut host, token, _, operator, _) = setup();

    let num_outcomes: u32 = 16;
    let num_users_per_outcome: u32 = 5;
    let stake: i128 = 100;

    let creator = host.generate();
    let pool_id = host.create_pool(
        &creator,
        500_000,
        &token,
        num_outcomes,
        "16-outcome tournament",
        METADATA,
        0,
        "stress",
    );

    let mut all_users: Vec<(Address, u32)> = Vec::new();
    for outcome_idx in 0..num_outcomes {
        for _ in 0..num_users_per_outcome {
            let u = host.generate();
            host.mint(&u, stake);
            host.place_prediction(&u, pool_id, stake, outcome_idx);
            all_users.push((u, outcome_idx));
        }
    }

    let total_users = num_outcomes * num_users_per_outcome;
    let total_stake = i128::from(total_users) * stake;
    assert_eq!(host.contract_balance, total_stake);

    let winning_outcome: u32 = 0;
    host.now = 500_001;
    host.resolve_pool(&operator, pool_id, winning_outcome);

    let winning_pool_stake = i128::from(num_users_per_outcome) * stake;
    let expected_per_winner = stake * total_stake / winning_pool_stake;

    let mut claimed_total: i128 = 0;
    for (user, user_outcome) in &all_users {
        let payout = host.claim_winnings(user, pool_id);
        if *user_outcome == winning_outcome {
            assert_eq!(payout, expected_per_winner);
            claimed_total += payout;
        } else {
            assert_eq!(payout, 0);
        }
    }

    assert_eq!(host.contract_balance, 0);
    assert_eq!(claimed_total, total_stake);
}

#[test]
fn test_prediction_throughput_measurement() {
    let (mut host, token, _, operator, _) = setup();

    let n: u32 = 75;
    let stake: i128 = 50;

    let creator = host.generate();
    let pool_id = host.create_pool(
        &creator,
        300_000,
        &token,
        3,
        "Throughput benchmark pool",
        METADATA,
        0,
        "stress",
    );

    let mut users: Vec<Address> = Vec::new();
    for i in 0..n {
        let u = host.generate();
        host.mint(&u, stake);
        let outcome = (i % 3) as u32;
        host.place_prediction(&u, pool_id, stake, outcome);
        users.push(u);
    }

    assert_eq!(
        host.contract_balance,
        i128::from(n) * stake,
        "Total stake mismatch after {n} predictions"
    );

    host.now = 300_001;
    host.resolve_pool(&operator, pool_id, 0);

    let mut claimed: i128 = 0;
    for u in &users {
        claimed += host.claim_winnings(u, pool_id);
    }

    assert_eq!(claimed, i128::from(n) * stake);
    assert_eq!(host.contract_balance, 0);
}

#[test]
fn test_resolution_under_load() {
    let (mut host, token, _, operator, _) = setup();

    let num_pools: u32 = 20;
    let users_per_pool: u32 = 10;
    let stake: i128 = 100;

    let creator = host.generate();

    let mut pool_ids: Vec<u64> = Vec::new();
    let mut pool_users: Vec<Vec<Address>> = Vec::new();

    for p in 0..num_pools {
        let pool_id = host.create_pool(
            &creator,
            200_000u64 + u64::from(p) * 1_000,
            &token,
            2,
            "Load Pool",
            METADATA,
            0,
            "stress",
        );
        pool_ids.push(pool_id);

        let mut users_for_pool: Vec<Address> = Vec::new();
        for j in 0..users_per_pool {
            let u = host.generate();
            host.mint(&u, stake);
            let outcome = if j < users_per_pool / 2 { 0u32 } else { 1u32 };
            host.place_prediction(&u, pool_id, stake, outcome);
            users_for_pool.push(u);
        }
        pool_users.push(users_for_pool);
    }

    let expected_balance = i128::from(num_pools * users_per_pool) * stake;
    assert_eq!(host.contract_balance, expected_balance);

    host.now = 300_000;

    let mut grand_claimed: i128 = 0;
    for (pool_idx, pool_id) in pool_ids.iter().enumerate() {
        host.resolve_pool(&operator, *pool_id, 0);

        for user in &pool_users[pool_idx] {
            grand_claimed += host.claim_winnings(user, *pool_id);
        }
    }

    assert_eq!(host.contract_balance, 0);
    assert_eq!(grand_claimed, expected_balance);
}

// ── What holds of every market ────────────────────────────────────────────────

fn transfers_of(host: &Host) -> usize {
    host.contract.transfers().len()
}

#[test]
fn canceled_pool_refunds_a_lone_stake() {
    let (mut host, token, _, operator, creator) = setup();
    let user = host.generate();
    host.mint(&user, 100);
    let pool_id = test_pool(&mut host, &creator, &token);
    host.place_prediction(&user, pool_id, 100, 1);
    assert_eq!(host.balance(&user), 0);

    host.cancel_pool(&operator, pool_id);

    assert_eq!(host.claim_winnings(&user, pool_id), 100);
    assert_eq!(host.balance(&user), 100);
    assert_eq!(host.contract_balance, 0);
}

#[test]
fn canceled_pool_refunds_the_stake_whole() {
    let (mut host, token, _, operator, creator) = setup();
    let user = host.generate();
    let other = host.generate();
    host.mint(&user, 1000);
    host.mint(&other, 1000);
    let pool_id = test_pool(&mut host, &creator, &token);
    host.place_prediction(&user, pool_id, 100, 1);
    host.place_prediction(&other, pool_id, 300, 2);

    host.cancel_pool(&operator, pool_id);

    assert_eq!(host.claim_winnings(&user, pool_id), 100);
    assert_eq!(host.balance(&user), 1000);
    assert_eq!(host.claim_winnings(&other, pool_id), 300);
    assert_eq!(host.balance(&other), 1000);
    assert_eq!(host.contract_balance, 0);
}

#[test]
fn resolution_is_denied_until_the_threshold_and_allowed_from_it() {
    let (mut host, operator, pool_id, end_time) = delay_setup("Delay Test");
    let denied = Err(Failure::Denied(PredifiError::ResolutionDelayNotMet));

    for now in [0, end_time - 1, end_time, end_time + 3599] {
        host.now = now;
        assert_eq!(host.contract.resolve_pool(&operator, true, pool_id, 1, now), denied);
        assert_eq!(host.contract.get_pool(pool_id).unwrap().state, MarketState::Active);
    }

    host.now = end_time + 3600;
    assert_eq!(host.contract.resolve_pool(&operator, true, pool_id, 1, host.now), Ok(()));
    let pool = host.contract.get_pool(pool_id).unwrap();
    assert_eq!(pool.state, MarketState::Resolved);
    assert_eq!(pool.outcome, 1);
}

#[test]
fn second_claim_is_denied_and_moves_nothing() {
    let (mut host, token, _, operator, creator) = setup();
    let winner = host.generate();
    let loser = host.generate();
    let stranger = host.generate();
    host.mint(&winner, 1000);
    host.mint(&loser, 1000);
    let pool_id = test_pool(&mut host, &creator, &token);
    host.place_prediction(&winner, pool_id, 100, 1);
    host.place_prediction(&loser, pool_id, 100, 2);
    host.now = 100001;
    host.resolve_pool(&operator, pool_id, 1);

    for user in [&winner, &loser, &stranger] {
        assert!(host.try_claim_winnings(user, pool_id).is_ok());
        assert!(host.contract.has_claimed(user, pool_id));
        let balance = host.balance(user);
        let held = host.contract_balance;
        let asked = transfers_of(&host);
        let events = host.contract.events().len();

        host.now += 1;
        assert_eq!(
            host.try_claim_winnings(user, pool_id),
            Err(Failure::Denied(PredifiError::AlreadyClaimed))
        );
        assert_eq!(host.balance(user), balance);
        assert_eq!(host.contract_balance, held);
        assert_eq!(transfers_of(&host), asked);
        // The attempt is reported.
        assert_eq!(host.contract.events().len(), events + 1);
        match host.contract.events().last().unwrap() {
            Event::SuspiciousDoubleClaim(alert) => {
                assert_eq!(&alert.user, user);
                assert_eq!(alert.pool_id, pool_id);
                assert_eq!(alert.timestamp, host.now);
            }
            other => panic!("unexpected event {other:?}"),
        }
    }
    assert_eq!(host.balance(&winner), 1100);
    assert_eq!(host.balance(&loser), 900);
    assert_eq!(host.balance(&stranger), 0);
}

#[test]
fn settled_pools_never_change() {
    let (mut host, token, admin, operator, creator) = setup();
    let oracle = host.generate();
    host.grant_role(&oracle, ROLE_ORACLE);
    let user = host.generate();
    host.mint(&user, 1000);

    let resolved = test_pool(&mut host, &creator, &token);
    let canceled = test_pool(&mut host, &creator, &token);
    host.place_prediction(&user, resolved, 100, 1);
    host.cancel_pool(&operator, canceled);
    host.now = 100001;
    host.resolve_pool(&operator, resolved, 1);

    let kept_resolved = host.contract.get_pool(resolved).unwrap();
    let kept_canceled = host.contract.get_pool(canceled).unwrap();
    let now = host.now;

    for pool_id in [resolved, canceled] {
        let contract = &mut host.contract;
        assert!(contract.resolve_pool(&operator, true, pool_id, 2, now).is_err());
        assert!(contract.oracle_resolve(&oracle, true, pool_id, 2, "p".to_string(), now).is_err());
        assert!(contract.cancel_pool(&operator, true, pool_id, now).is_err());
        assert!(contract.place_prediction(&creator, pool_id, 10, 0, 5).is_err());
        assert_eq!(
            contract.mark_pool_ready(pool_id, now),
            Err(Failure::Denied(PredifiError::InvalidPoolState))
        );
        assert!(contract.claim_winnings(&user, pool_id, now).is_ok());
        assert!(contract.pause(&admin, true, now).is_ok());
        assert!(contract.unpause(&admin, true, now).is_ok());
    }
    host.create_pool(&creator, 300_000, &token, 2, "Later", METADATA, 0, "tech");

    assert_eq!(host.contract.get_pool(resolved).unwrap(), kept_resolved);
    assert_eq!(host.contract.get_pool(canceled).unwrap(), kept_canceled);
    assert_eq!(kept_resolved.state, MarketState::Resolved);
    assert_eq!(kept_resolved.outcome, 1);
    assert!(kept_resolved.resolved && !kept_resolved.canceled);
    assert_eq!(kept_canceled.state, MarketState::Canceled);
    assert!(kept_canceled.canceled && !kept_canceled.resolved);
}

#[test]
fn resolved_pool_says_why_it_refuses() {
    let (mut host, token, _, operator, creator) = setup();
    let pool_id = test_pool(&mut host, &creator, &token);
    host.now = 100001;
    host.resolve_pool(&operator, pool_id, 1);
    let now = host.now;
    let contract = &mut host.contract;
    assert_eq!(
        contract.resolve_pool(&operator, true, pool_id, 2, now),
        Err(Failure::Aborted(Fault::AlreadyResolved))
    );
    assert_eq!(
        contract.cancel_pool(&operator, true, pool_id, now),
        Err(Failure::Denied(PredifiError::PoolNotResolved))
    );
    assert_eq!(contract.place_prediction(&creator, pool_id, 10, 0, 5), Err(Fault::AlreadyResolved));
    assert_eq!(
        contract.resolve_pool(&operator, true, 99, 2, now),
        Err(Failure::Aborted(Fault::PoolNotFound))
    );
    assert_eq!(
        contract.cancel_pool(&operator, true, 99, now),
        Err(Failure::Aborted(Fault::PoolNotFound))
    );
    assert_eq!(contract.mark_pool_ready(99, now), Err(Failure::Aborted(Fault::PoolNotFound)));
    assert_eq!(
        contract.claim_winnings(&creator, 99, now),
        Err(Failure::Aborted(Fault::PoolNotFound))
    );
    assert_eq!(contract.place_prediction(&creator, 99, 10, 0, 5), Err(Fault::PoolNotFound));
}

#[test]
fn canceled_pool_is_not_canceled_again() {
    let (mut host, token, _, operator, creator) = setup();
    let pool_id = test_pool(&mut host, &creator, &token);
    host.cancel_pool(&operator, pool_id);
    assert_eq!(
        host.contract.cancel_pool(&operator, true, pool_id, 0),
        Err(Failure::Aborted(Fault::AlreadyCanceled))
    );
    match host.contract.events().last().unwrap() {
        Event::PoolCanceled(event) => {
            assert_eq!(event.pool_id, pool_id);
            assert_eq!(event.caller, operator);
            assert_eq!(event.operator, operator);
            assert_eq!(event.reason, None);
        }
        other => panic!("unexpected event {other:?}"),
    }
}

#[test]
fn fee_above_the_bound_is_never_stored() {
    let (mut host, _, admin, _, _) = setup();
    host.set_fee_bps(&admin, 10_000);
    assert_eq!(host.contract.get_config().unwrap().fee_bps, 10_000);

    for fee_bps in [10_001, 20_000, u32::MAX] {
        assert_eq!(
            host.contract.set_fee_bps(&admin, true, fee_bps, 0),
            Err(Failure::Aborted(Fault::FeeTooHigh))
        );
        assert_eq!(
            host.contract.set_fee_bps(&admin, false, fee_bps, 0),
            Err(Failure::Denied(PredifiError::Unauthorized))
        );
        assert_eq!(host.contract.get_config().unwrap().fee_bps, 10_000);
    }
    host.set_fee_bps(&admin, 0);
    assert_eq!(host.contract.get_config().unwrap().fee_bps, 0);
}

#[test]
fn contract_is_initialized_once() {
    let mut host = Host::new();
    let admin = host.generate();
    host.grant_role(&admin, ROLE_ADMIN);
    assert_eq!(host.contract.get_config(), None);
    assert_eq!(
        host.contract.set_fee_bps(&admin, true, 5, 0),
        Err(Failure::Aborted(Fault::NotInitialized))
    );
    assert_eq!(
        host.contract.pause(&admin, true, 0),
        Err(Failure::Aborted(Fault::NotInitialized))
    );
    assert_eq!(host.contract.mark_pool_ready(0, 0), Err(Failure::Aborted(Fault::PoolNotFound)));

    let ac = Address::new("access-control");
    let treasury = host.generate();
    host.init(&ac, &treasury, 250, 60);
    let config = host.contract.get_config().unwrap();
    assert_eq!(config.fee_bps, 250);
    assert_eq!(config.resolution_delay, 60);
    assert_eq!(config.treasury, treasury);
    assert_eq!(config.access_control, ac);
    assert_eq!(host.contract.events().len(), 1);
    assert!(matches!(host.contract.events()[0], Event::Init(_)));

    let other = host.generate();
    host.init(&other, &other, 9, 9);
    assert_eq!(host.contract.get_config().unwrap(), config);
    assert_eq!(host.contract.events().len(), 1);
    // Once there are settings, nothing is looked at.
    assert_eq!(host.contract.init(&other, &other, 10_001, 9), Ok(()));
    assert_eq!(host.contract.get_config().unwrap(), config);
}

#[test]
fn contract_is_not_initialized_with_a_fee_above_the_bound() {
    let mut contract = PredifiContract::new();
    let ac = Address::new("access-control");
    let treasury = Address::new("treasury");
    for fee_bps in [10_001, 50_000, u32::MAX] {
        assert_eq!(contract.init(&ac, &treasury, fee_bps, 0), Err(Fault::FeeTooHigh));
        assert_eq!(contract.get_config(), None);
        assert!(contract.events().is_empty());
    }
    assert_eq!(contract.init(&ac, &treasury, 10_000, 0), Ok(()));
    assert_eq!(contract.get_config().unwrap().fee_bps, 10_000);
}

#[test]
fn settings_are_changed_by_the_admin() {
    let (mut host, _, admin, _, _) = setup();
    let treasury = host.generate();
    host.now = 77;
    host.set_resolution_delay(&admin, 900);
    host.set_treasury(&admin, &treasury);
    host.set_fee_bps(&admin, 30);
    let config = host.contract.get_config().unwrap();
    assert_eq!(config.resolution_delay, 900);
    assert_eq!(config.treasury, treasury);
    assert_eq!(config.fee_bps, 30);

    let stranger = host.generate();
    let events = host.contract.events().len();
    assert_eq!(
        host.contract.set_resolution_delay(&stranger, false, 1, 78),
        Err(Failure::Denied(PredifiError::Unauthorized))
    );
    assert_eq!(host.contract.get_config().unwrap(), config);
    assert_eq!(host.contract.events().len(), events + 1);
    match host.contract.events().last().unwrap() {
        Event::UnauthorizedAdminAttempt(alert) => {
            assert_eq!(alert.caller, stranger);
            assert_eq!(alert.operation, Operation::SetResolutionDelay);
            assert_eq!(alert.timestamp, 78);
        }
        other => panic!("unexpected event {other:?}"),
    }
}

#[test]
fn unauthorized_attempts_are_reported() {
    let (mut host, token, _, _, creator) = setup();
    let pool_id = test_pool(&mut host, &creator, &token);
    let stranger = host.generate();
    let denied = Err(Failure::Denied(PredifiError::Unauthorized));

    assert_eq!(host.contract.resolve_pool(&stranger, false, pool_id, 1, 200_000), denied);
    match host.contract.events().last().unwrap() {
        Event::UnauthorizedResolveAttempt(alert) => {
            assert_eq!(alert.caller, stranger);
            assert_eq!(alert.pool_id, pool_id);
            assert_eq!(alert.timestamp, 200_000);
        }
        other => panic!("unexpected event {other:?}"),
    }
    assert_eq!(host.contract.cancel_pool(&stranger, false, pool_id, 5), denied);
    match host.contract.events().last().unwrap() {
        Event::UnauthorizedAdminAttempt(alert) => {
            assert_eq!(alert.operation, Operation::CancelPool);
        }
        other => panic!("unexpected event {other:?}"),
    }
    assert_eq!(host.contract.pause(&stranger, false, 5), denied);
    assert_eq!(host.contract.unpause(&stranger, false, 5), denied);
    assert_eq!(host.contract.add_token_to_whitelist(&stranger, false, &stranger, 5), denied);
    assert_eq!(host.contract.remove_token_from_whitelist(&stranger, false, &token, 5), denied);
    assert!(host.is_token_allowed(&token));
    assert!(!host.is_token_allowed(&stranger));
    assert!(!host.contract.is_paused());
    assert_eq!(host.contract.get_pool(pool_id).unwrap().state, MarketState::Active);
}

#[test]
fn pause_stops_everything_but_queries_and_the_heartbeat() {
    let (mut host, token, admin, operator, creator) = setup();
    let user = host.generate();
    host.mint(&user, 100);
    let pool_id = test_pool(&mut host, &creator, &token);
    host.place_prediction(&user, pool_id, 10, 1);
    host.now = 100_000;
    host.pause(&admin);
    let events = host.contract.events().len();
    assert!(matches!(host.contract.events()[events - 2], Event::ContractPausedAlert(_)));
    assert!(matches!(host.contract.events()[events - 1], Event::Pause(_)));

    let paused = Err(Failure::Aborted(Fault::Paused));
    let contract = &mut host.contract;
    assert_eq!(contract.set_fee_bps(&admin, true, 1, 0), paused);
    assert_eq!(contract.set_treasury(&admin, true, &admin, 0), paused);
    assert_eq!(contract.set_resolution_delay(&admin, true, 1, 0), paused);
    assert_eq!(contract.add_token_to_whitelist(&admin, true, &admin, 0), paused);
    assert_eq!(contract.remove_token_from_whitelist(&admin, true, &token, 0), paused);
    assert_eq!(contract.resolve_pool(&operator, true, pool_id, 1, 100_000), paused);
    assert_eq!(
        contract.oracle_resolve(&operator, true, pool_id, 1, "p".to_string(), 100_000),
        paused
    );
    assert_eq!(contract.cancel_pool(&operator, true, pool_id, 0), paused);
    assert_eq!(contract.claim_winnings(&user, pool_id, 0), Err(Failure::Aborted(Fault::Paused)));
    assert_eq!(contract.place_prediction(&user, pool_id, 1, 1, 0), Err(Fault::Paused));
    assert_eq!(
        contract.create_pool(
            &creator,
            900_000,
            &token,
            2,
            "d".to_string(),
            "m".to_string(),
            0,
            "c".to_string(),
            0
        ),
        Err(Failure::Aborted(Fault::Paused))
    );
    // A paused call is turned away before the caller's role is looked at.
    assert_eq!(contract.set_fee_bps(&user, false, 1, 0), paused);
    assert_eq!(contract.events().len(), events);

    assert_eq!(contract.mark_pool_ready(pool_id, 100_000), Ok(()));
    assert_eq!(contract.get_outcome_stake(pool_id, 1), 10);
    assert_eq!(contract.get_user_predictions(&user, 0, 5).len(), 1);
    assert_eq!(contract.get_pools_by_category(&"tech".to_string(), 0, 5), vec![pool_id]);
    assert!(contract.is_token_allowed(&token));
}

#[test]
fn creating_a_pool_with_liquidity_asks_the_creator_for_it() {
    let (mut host, token, _, operator, creator) = setup();
    let user = host.generate();
    host.mint(&creator, 500);
    host.mint(&user, 100);
    host.now = 40;
    let events = host.contract.events().len();
    let pool_id = host.create_pool(&creator, 100_000, &token, 2, "Seeded", "ipfs://s", 500, "tech");

    assert_eq!(host.balance(&creator), 0);
    assert_eq!(host.contract_balance, 500);
    assert_eq!(
        host.contract.transfers().last().unwrap(),
        &Transfer {
            token: token.clone(),
            from: Party::Account(creator.clone()),
            to: Party::Contract,
            amount: 500
        }
    );
    assert_eq!(host.contract.events().len(), events + 2);
    match &host.contract.events()[events] {
        Event::PoolCreated(event) => {
            assert_eq!(event.pool_id, pool_id);
            assert_eq!(event.end_time, 100_000);
            assert_eq!(event.token, token);
            assert_eq!(event.options_count, 2);
            assert_eq!(event.metadata_url, "ipfs://s");
            assert_eq!(event.initial_liquidity, 500);
            assert_eq!(event.category, "tech");
        }
        other => panic!("unexpected event {other:?}"),
    }
    match &host.contract.events()[events + 1] {
        Event::InitialLiquidityProvided(event) => {
            assert_eq!(event.pool_id, pool_id);
            assert_eq!(event.creator, creator);
            assert_eq!(event.amount, 500);
        }
        other => panic!("unexpected event {other:?}"),
    }
    let pool = host.contract.get_pool(pool_id).unwrap();
    assert_eq!(pool.total_stake, 500);
    assert_eq!(pool.initial_liquidity, 500);
    assert_eq!(host.contract.get_pool_outcome_stakes(pool_id), Ok(vec![0, 0]));

    // The liquidity goes to the winners with the stakes.
    host.place_prediction(&user, pool_id, 100, 1);
    assert_eq!(host.contract.get_pool(pool_id).unwrap().total_stake, 600);
    host.now = 100_000;
    host.resolve_pool(&operator, pool_id, 1);
    assert_eq!(host.claim_winnings(&user, pool_id), 600);
    assert_eq!(host.contract_balance, 0);
}

#[test]
fn creating_a_pool_without_liquidity_moves_nothing() {
    let (mut host, token, _, _, creator) = setup();
    let asked = transfers_of(&host);
    let events = host.contract.events().len();
    let pool_id = test_pool(&mut host, &creator, &token);
    assert_eq!(pool_id, 0);
    assert_eq!(host.contract.pool_count(), 1);
    assert_eq!(transfers_of(&host), asked);
    assert_eq!(host.contract.events().len(), events + 1);
    assert_eq!(host.contract.get_pool(1), None);
    assert_eq!(host.contract.get_pool_outcome_stakes(1), Err(Fault::PoolNotFound));
}

#[test]
fn creating_a_pool_is_refused_outside_the_limits() {
    let (mut host, token, _, _, creator) = setup();
    host.now = 1000;
    let now = host.now;
    let mut create = |end_time: u64, options_count: u32, liquidity: i128| {
        host.contract.create_pool(
            &creator,
            end_time,
            &token,
            options_count,
            "d".to_string(),
            "m".to_string(),
            liquidity,
            "c".to_string(),
            now,
        )
    };
    assert_eq!(create(1000, 2, 0), Err(Failure::Aborted(Fault::EndTimeNotInFuture)));
    assert_eq!(create(4599, 2, 0), Err(Failure::Aborted(Fault::DurationTooShort)));
    assert_eq!(create(4600, 1, 0), Err(Failure::Aborted(Fault::TooFewOptions)));
    assert_eq!(create(4600, 101, 0), Err(Failure::Aborted(Fault::TooManyOptions)));
    assert_eq!(create(4600, 2, -1), Err(Failure::Aborted(Fault::NegativeLiquidity)));
    assert_eq!(
        create(4600, 2, 100_000_000_000_001),
        Err(Failure::Aborted(Fault::ExcessiveLiquidity))
    );
    assert_eq!(create(4600, 2, 100_000_000_000_000), Ok(0));
    assert_eq!(create(4600, 100, 0), Ok(1));
    assert_eq!(host.contract.pool_count(), 2);
}

#[test]
fn stakes_are_booked_in_the_pool_and_the_table() {
    let (mut host, token, _, _, creator) = setup();
    let alice = host.generate();
    let bob = host.generate();
    let carol = host.generate();
    host.mint(&alice, 1000);
    host.mint(&bob, 1000);
    host.mint(&carol, 1000);
    let pool_id = test_pool(&mut host, &creator, &token);
    host.now = 9;
    host.place_prediction(&alice, pool_id, 100, 1);
    host.place_prediction(&bob, pool_id, 250, 1);
    host.place_prediction(&carol, pool_id, 40, 2);

    assert_eq!(host.contract.get_pool_outcome_stakes(pool_id), Ok(vec![0, 350, 40]));
    assert_eq!(host.contract.get_outcome_stake(pool_id, 0), 0);
    assert_eq!(host.contract.get_outcome_stake(pool_id, 1), 350);
    assert_eq!(host.contract.get_outcome_stake(pool_id, 2), 40);
    assert_eq!(host.contract.get_outcome_stake(pool_id, 3), 0);
    assert_eq!(host.contract.get_outcome_stake(pool_id + 1, 1), 0);
    assert_eq!(host.contract.get_pool(pool_id).unwrap().total_stake, 390);
    assert_eq!(
        host.contract.get_prediction(&bob, pool_id),
        Some(Prediction { amount: 250, outcome: 1 })
    );
    assert_eq!(host.contract.get_prediction(&creator, pool_id), None);
    assert_eq!(host.contract.get_prediction(&bob, pool_id + 1), None);
    assert_eq!(host.contract_balance, 390);
    assert_eq!(
        host.contract.transfers().last().unwrap(),
        &Transfer {
            token: token.clone(),
            from: Party::Account(carol.clone()),
            to: Party::Contract,
            amount: 40
        }
    );
    match host.contract.events().last().unwrap() {
        Event::PredictionPlaced(event) => {
            assert_eq!(event.pool_id, pool_id);
            assert_eq!(event.user, carol);
            assert_eq!(event.amount, 40);
            assert_eq!(event.outcome, 2);
        }
        other => panic!("unexpected event {other:?}"),
    }
    let history = host.contract.get_user_predictions(&bob, 0, 10);
    assert_eq!(
        history,
        vec![UserPredictionDetail {
            pool_id,
            amount: 250,
            user_outcome: 1,
            pool_end_time: 100000,
            pool_state: MarketState::Active,
            pool_outcome: 0,
        }]
    );
}

#[test]
fn stakes_are_refused_with_the_first_reason() {
    let (mut host, token, _, _, creator) = setup();
    let user = host.generate();
    let pool_id = test_pool(&mut host, &creator, &token);
    let contract = &mut host.contract;
    assert_eq!(contract.place_prediction(&user, pool_id, 0, 1, 5), Err(Fault::AmountNotPositive));
    assert_eq!(contract.place_prediction(&user, 99, -1, 1, 5), Err(Fault::AmountNotPositive));
    assert_eq!(contract.place_prediction(&user, pool_id, 10, 1, 100000), Err(Fault::PoolEnded));
    assert_eq!(
        contract.place_prediction(&user, pool_id, 10, 3, 5),
        Err(Fault::OutcomeOutOfRange)
    );
    assert_eq!(contract.place_prediction(&user, pool_id, 10, 2, 99999), Ok(()));
    assert_eq!(
        contract.place_prediction(&creator, pool_id, i128::MAX, 2, 5),
        Err(Fault::Overflow)
    );
    assert_eq!(contract.get_pool(pool_id).unwrap().total_stake, 10);
    assert_eq!(contract.get_pool_outcome_stakes(pool_id), Ok(vec![0, 0, 10]));
}

#[test]
fn a_user_has_one_stake_in_a_pool() {
    let (mut host, token, _, _, creator) = setup();
    let user = host.generate();
    host.mint(&user, 1000);
    let pool_a = test_pool(&mut host, &creator, &token);
    let pool_b = test_pool(&mut host, &creator, &token);
    host.place_prediction(&user, pool_a, 100, 1);
    let asked = transfers_of(&host);

    assert_eq!(
        host.contract.place_prediction(&user, pool_a, 50, 1, 5),
        Err(Fault::AlreadyStaked)
    );
    assert_eq!(
        host.contract.place_prediction(&user, pool_a, 50, 2, 5),
        Err(Fault::AlreadyStaked)
    );
    assert_eq!(transfers_of(&host), asked);
    assert_eq!(
        host.contract.get_prediction(&user, pool_a),
        Some(Prediction { amount: 100, outcome: 1 })
    );
    assert_eq!(host.contract.get_pool(pool_a).unwrap().total_stake, 100);
    assert_eq!(host.contract.get_pool_outcome_stakes(pool_a), Ok(vec![0, 100, 0]));
    assert_eq!(host.contract.get_user_predictions(&user, 0, 10).len(), 1);

    // Another pool is another matter.
    host.place_prediction(&user, pool_b, 50, 2);
    assert_eq!(host.contract.get_user_predictions(&user, 0, 10).len(), 2);
}

#[test]
fn large_stakes_and_large_pools_are_signaled() {
    let (mut host, token, _, _, creator) = setup();
    let whale = host.generate();
    let minnow = host.generate();
    host.mint(&whale, 5_000_000);
    host.mint(&minnow, 5_000_000);
    let small = test_pool(&mut host, &creator, &token);
    let large = host.create_pool(&creator, 100000, &token, 16, "Cup", METADATA, 0, "sports");
    let fifteen = host.create_pool(&creator, 100000, &token, 15, "Cup", METADATA, 0, "sports");

    let events = host.contract.events().len();
    host.place_prediction(&minnow, small, 999_999, 1);
    assert_eq!(host.contract.events().len(), events + 1);

    let events = host.contract.events().len();
    host.place_prediction(&whale, small, 1_000_000, 1);
    assert_eq!(host.contract.events().len(), events + 2);
    match host.contract.events().last().unwrap() {
        Event::HighValuePrediction(event) => {
            assert_eq!(event.pool_id, small);
            assert_eq!(event.user, whale);
            assert_eq!(event.amount, 1_000_000);
            assert_eq!(event.outcome, 1);
            assert_eq!(event.threshold, 1_000_000);
        }
        other => panic!("unexpected event {other:?}"),
    }

    let events = host.contract.events().len();
    host.place_prediction(&minnow, fifteen, 5, 14);
    assert_eq!(host.contract.events().len(), events + 1);

    let events = host.contract.events().len();
    host.place_prediction(&minnow, large, 7, 15);
    assert_eq!(host.contract.events().len(), events + 2);
    match host.contract.events().last().unwrap() {
        Event::OutcomeStakesUpdated(event) => {
            assert_eq!(event.pool_id, large);
            assert_eq!(event.options_count, 16);
            assert_eq!(event.total_stake, 7);
        }
        other => panic!("unexpected event {other:?}"),
    }

    let events = host.contract.events().len();
    host.place_prediction(&whale, large, 2_000_000, 0);
    assert_eq!(host.contract.events().len(), events + 3);
    assert!(matches!(host.contract.events()[events], Event::PredictionPlaced(_)));
    assert!(matches!(host.contract.events()[events + 1], Event::HighValuePrediction(_)));
    match &host.contract.events()[events + 2] {
        Event::OutcomeStakesUpdated(event) => assert_eq!(event.total_stake, 2_000_007),
        other => panic!("unexpected event {other:?}"),
    }
}

#[test]
fn resolution_is_announced_with_its_figures() {
    let (mut host, token, _, operator, creator) = setup();
    let oracle = host.generate();
    host.grant_role(&oracle, ROLE_ORACLE);
    let user = host.generate();
    host.mint(&user, 1000);
    let by_operator = test_pool(&mut host, &creator, &token);
    let by_oracle = test_pool(&mut host, &creator, &token);
    host.place_prediction(&user, by_operator, 100, 1);
    host.place_prediction(&user, by_oracle, 70, 2);
    host.now = 100_500;

    let events = host.contract.events().len();
    host.resolve_pool(&operator, by_operator, 2);
    assert_eq!(host.contract.events().len(), events + 2);
    match &host.contract.events()[events] {
        Event::PoolResolved(event) => {
            assert_eq!(event.pool_id, by_operator);
            assert_eq!(event.operator, operator);
            assert_eq!(event.outcome, 2);
        }
        other => panic!("unexpected event {other:?}"),
    }
    match &host.contract.events()[events + 1] {
        Event::PoolResolvedDiag(event) => {
            assert_eq!(event.pool_id, by_operator);
            assert_eq!(event.outcome, 2);
            assert_eq!(event.total_stake, 100);
            // Nobody backed the winning outcome.
            assert_eq!(event.winning_stake, 0);
            assert_eq!(event.timestamp, 100_500);
        }
        other => panic!("unexpected event {other:?}"),
    }
    // Nobody won: the claim comes to nothing and moves nothing.
    let asked = transfers_of(&host);
    assert_eq!(host.claim_winnings(&user, by_operator), 0);
    assert_eq!(transfers_of(&host), asked);

    let events = host.contract.events().len();
    host.oracle_resolve(&oracle, by_oracle, 2, "proof_123");
    assert_eq!(host.contract.events().len(), events + 3);
    match &host.contract.events()[events] {
        Event::OracleResolved(event) => {
            assert_eq!(event.pool_id, by_oracle);
            assert_eq!(event.oracle, oracle);
            assert_eq!(event.outcome, 2);
            assert_eq!(event.proof, "proof_123");
        }
        other => panic!("unexpected event {other:?}"),
    }
    match &host.contract.events()[events + 1] {
        Event::PoolResolved(event) => assert_eq!(event.operator, oracle),
        other => panic!("unexpected event {other:?}"),
    }
    match &host.contract.events()[events + 2] {
        Event::PoolResolvedDiag(event) => {
            assert_eq!(event.total_stake, 70);
            assert_eq!(event.winning_stake, 70);
        }
        other => panic!("unexpected event {other:?}"),
    }
    let events = host.contract.events().len();
    assert_eq!(host.claim_winnings(&user, by_oracle), 70);
    match &host.contract.events()[events] {
        Event::WinningsClaimed(event) => {
            assert_eq!(event.pool_id, by_oracle);
            assert_eq!(event.user, user);
            assert_eq!(event.amount, 70);
        }
        other => panic!("unexpected event {other:?}"),
    }
    assert_eq!(
        host.contract.transfers().last().unwrap(),
        &Transfer {
            token: token.clone(),
            from: Party::Contract,
            to: Party::Account(user.clone()),
            amount: 70
        }
    );
}

#[test]
fn resolution_takes_only_outcomes_that_the_pool_offers() {
    let (mut host, token, _, operator, creator) = setup();
    let pool_id = test_pool(&mut host, &creator, &token);
    assert_eq!(
        host.contract.resolve_pool(&operator, true, pool_id, 3, 100_000),
        Err(Failure::Aborted(Fault::OutcomeOutOfRange))
    );
    assert_eq!(host.contract.get_pool(pool_id).unwrap().state, MarketState::Active);
    assert_eq!(host.contract.resolve_pool(&operator, true, pool_id, 0, 100_000), Ok(()));
}

#[test]
fn heartbeat_announces_a_ready_pool() {
    let (mut host, _, pool_id, end_time) = delay_setup("Ready Test");
    host.now = end_time + 3599;
    let events = host.contract.events().len();
    assert_eq!(
        host.try_mark_pool_ready(pool_id),
        Err(Failure::Denied(PredifiError::ResolutionDelayNotMet))
    );
    assert_eq!(host.contract.events().len(), events);
    host.now = end_time + 3600;
    assert_eq!(host.try_mark_pool_ready(pool_id), Ok(()));
    match host.contract.events().last().unwrap() {
        Event::PoolReadyForResolution(event) => {
            assert_eq!(event.pool_id, pool_id);
            assert_eq!(event.timestamp, end_time + 3600);
        }
        other => panic!("unexpected event {other:?}"),
    }
    assert_eq!(host.contract.get_pool(pool_id).unwrap().state, MarketState::Active);
}

#[test]
fn payouts_leave_less_than_a_unit_of_dust_for_each_winner() {
    let (mut host, token, _, operator, creator) = setup();
    let winners: Vec<Address> = (0..3).map(|_| host.generate()).collect();
    let loser = host.generate();
    for user in winners.iter().chain([&loser]) {
        host.mint(user, 10);
    }
    let pool_id = test_pool(&mut host, &creator, &token);
    for user in &winners {
        host.place_prediction(user, pool_id, 1, 0);
    }
    host.place_prediction(&loser, pool_id, 1, 1);
    host.now = 100_000;
    host.resolve_pool(&operator, pool_id, 0);

    // Each winner is owed 4/3, rounded down.
    let mut paid = 0;
    for user in &winners {
        let payout = host.claim_winnings(user, pool_id);
        assert_eq!(payout, 1);
        paid += payout;
        assert!(paid <= 4);
    }
    assert_eq!(host.claim_winnings(&loser, pool_id), 0);
    let dust = 4 - paid;
    assert_eq!(dust, 1);
    assert!(dust < winners.len() as i128);
    assert_eq!(host.contract_balance, dust);
}

#[test]
fn histories_are_read_by_page() {
    let (mut host, token, _, operator, creator) = setup();
    let user = host.generate();
    host.mint(&user, 1000);
    let mut pools = Vec::new();
    for _ in 0..5 {
        pools.push(test_pool(&mut host, &creator, &token));
    }
    // Staked out of order of creation: the history keeps the order of staking.
    let order = [3usize, 0, 4, 1];
    for (n, at) in order.iter().enumerate() {
        host.place_prediction(&user, pools[*at], 10 + n as i128, 1);
    }
    host.now = 100_000;
    host.resolve_pool(&operator, pools[0], 2);

    let ids = |page: Vec<UserPredictionDetail>| -> Vec<u64> {
        page.iter().map(|detail| detail.pool_id).collect()
    };
    let all = host.contract.get_user_predictions(&user, 0, 10);
    assert_eq!(ids(all.clone()), vec![3, 0, 4, 1]);
    assert_eq!(all[1].amount, 11);
    assert_eq!(all[1].pool_state, MarketState::Resolved);
    assert_eq!(all[1].pool_outcome, 2);
    assert_eq!(all[0].pool_state, MarketState::Active);
    assert_eq!(ids(host.contract.get_user_predictions(&user, 1, 2)), vec![0, 4]);
    assert_eq!(ids(host.contract.get_user_predictions(&user, 3, 10)), vec![1]);
    assert_eq!(ids(host.contract.get_user_predictions(&user, 0, u32::MAX)), vec![3, 0, 4, 1]);
    assert!(host.contract.get_user_predictions(&user, 4, 10).is_empty());
    assert!(host.contract.get_user_predictions(&user, u32::MAX, 10).is_empty());
    assert!(host.contract.get_user_predictions(&user, 0, 0).is_empty());
    assert!(host.contract.get_user_predictions(&creator, 0, 10).is_empty());

    let tech = "tech".to_string();
    assert_eq!(host.contract.get_pools_by_category(&tech, 0, 10), vec![4, 3, 2, 1, 0]);
    assert_eq!(host.contract.get_pools_by_category(&tech, 1, 2), vec![3, 2]);
    assert_eq!(host.contract.get_pools_by_category(&tech, 4, 2), vec![0]);
    assert_eq!(host.contract.get_pools_by_category(&tech, 0, u32::MAX), vec![4, 3, 2, 1, 0]);
    assert!(host.contract.get_pools_by_category(&tech, 5, 2).is_empty());
    assert!(host.contract.get_pools_by_category(&tech, 0, 0).is_empty());
    assert!(host.contract.get_pools_by_category(&"none".to_string(), 0, 10).is_empty());
}
