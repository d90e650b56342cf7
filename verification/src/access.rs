//! Roles, the operations that ask for one, and a table of grants.
//!
//! Who holds which role is decided outside the contract, by an access-control
//! collaborator. The contract puts one question to it per guarded operation,
//! "does this caller hold that role", and is handed the answer.

use crate::error::{Failure, Fault, PredifiError};
use crate::types::Address;
use vstd::prelude::*;

verus! {

/// The role that may pause, unpause and configure the contract.
pub const ROLE_ADMIN: u32 = 0;

/// The role that may resolve and cancel pools.
pub const ROLE_OPERATOR: u32 = 1;

/// The role under which an oracle may resolve pools.
pub const ROLE_ORACLE: u32 = 3;

/// An operation that only the holder of a role may perform.
#[derive(Clone, Copy, Debug, PartialEq, Eq, Structural)]
pub enum Operation {
    Pause,
    Unpause,
    SetFeeBps,
    SetTreasury,
    SetResolutionDelay,
    AddTokenToWhitelist,
    RemoveTokenFromWhitelist,
    ResolvePool,
    OracleResolve,
    CancelPool,
}

impl Operation {
    /// The role that the operation asks of its caller.
    pub open spec fn spec_required_role(self) -> u32 {
        match self {
            Operation::ResolvePool | Operation::CancelPool => ROLE_OPERATOR,
            Operation::OracleResolve => ROLE_ORACLE,
            _ => ROLE_ADMIN,
        }
    }

    /// The role that the operation asks of its caller.
    pub fn required_role(&self) -> (role: u32)
        ensures
            role == self.spec_required_role(),
    {
        match self {
            Operation::ResolvePool | Operation::CancelPool => ROLE_OPERATOR,
            Operation::OracleResolve => ROLE_ORACLE,
            _ => ROLE_ADMIN,
        }
    }

    /// The name under which a refused attempt at the operation is reported.
    pub open spec fn spec_name(self) -> Seq<char> {
        match self {
            Operation::Pause => "pause"@,
            Operation::Unpause => "unpause"@,
            Operation::SetFeeBps => "set_fee_bps"@,
            Operation::SetTreasury => "set_treasury"@,
            Operation::SetResolutionDelay => "set_resolution_delay"@,
            Operation::AddTokenToWhitelist => "add_token_to_whitelist"@,
            Operation::RemoveTokenFromWhitelist => "remove_token_from_whitelist"@,
            Operation::ResolvePool => "resolve_pool"@,
            Operation::OracleResolve => "oracle_resolve"@,
            Operation::CancelPool => "cancel_pool"@,
        }
    }

    /// The name under which a refused attempt at the operation is reported.
    pub fn name(&self) -> (name: &'static str)
        ensures
            name@ == self.spec_name(),
    {
        match self {
            Operation::Pause => "pause",
            Operation::Unpause => "unpause",
            Operation::SetFeeBps => "set_fee_bps",
            Operation::SetTreasury => "set_treasury",
            Operation::SetResolutionDelay => "set_resolution_delay",
            Operation::AddTokenToWhitelist => "add_token_to_whitelist",
            Operation::RemoveTokenFromWhitelist => "remove_token_from_whitelist",
            Operation::ResolvePool => "resolve_pool",
            Operation::OracleResolve => "oracle_resolve",
            Operation::CancelPool => "cancel_pool",
        }
    }
}

/// Turns the collaborator's answer into the gateway's decision: the caller
/// passes where the role is held and is refused as unauthorized where it is not.
pub fn require_role(has_role: bool) -> (decision: Result<(), PredifiError>)
    ensures
        decision == (if has_role {
            Ok::<(), PredifiError>(())
        } else {
            Err(PredifiError::Unauthorized)
        }),
{
    if has_role {
        Ok(())
    } else {
        Err(PredifiError::Unauthorized)
    }
}

/// Why the gateway stops a call of a guarded operation, if it does. The pause
/// is looked at first, and only for an operation that is `guarded` by it; then
/// whether the contract has its settings; then whether the caller holds the
/// role.
pub open spec fn admission(
    guarded: bool,
    paused: bool,
    initialized: bool,
    authorized: bool,
) -> Option<Failure> {
    if guarded && paused {
        Some(Failure::Aborted(Fault::Paused))
    } else if !initialized {
        Some(Failure::Aborted(Fault::NotInitialized))
    } else if !authorized {
        Some(Failure::Denied(PredifiError::Unauthorized))
    } else {
        None
    }
}

/// The gateway before a guarded operation: lets the call pass, or says why it
/// is stopped. A call that is stopped for want of the role is to be reported
/// by an alert.
pub fn pass_gate(
    guarded: bool,
    paused: bool,
    initialized: bool,
    authorized: bool,
) -> (decision: Result<(), Failure>)
    ensures
        decision == (match admission(guarded, paused, initialized, authorized) {
            Some(failure) => Err::<(), Failure>(failure),
            None => Ok(()),
        }),
{
    if guarded && paused {
        return Err(Failure::Aborted(Fault::Paused));
    }
    if !initialized {
        return Err(Failure::Aborted(Fault::NotInitialized));
    }
    match require_role(authorized) {
        Ok(()) => Ok(()),
        Err(error) => Err(Failure::Denied(error)),
    }
}

/// One grant: `user` holds `role`.
pub struct Grant {
    pub user: Address,
    pub role: u32,
}

/// A table of grants that answers as the access-control collaborator does. It
/// stands in for the collaborator wherever none is deployed.
pub struct DummyAccessControl {
    grants: Vec<Grant>,
}

impl DummyAccessControl {
    /// Whether the table holds a grant of `role` to the account named `user`.
    pub closed spec fn granted(&self, user: Seq<char>, role: u32) -> bool {
        exists|i: int|
            0 <= i < self.grants@.len() && (#[trigger] self.grants@[i]).user@ == user
                && self.grants@[i].role == role
    }

    /// The grants, as pairs of the text that names the user and the role.
    pub open spec fn view(&self) -> Set<(Seq<char>, u32)> {
        Set::new(|grant: (Seq<char>, u32)| self.granted(grant.0, grant.1))
    }

    /// A table without grants.
    pub fn new() -> (table: DummyAccessControl)
        ensures
            forall|user: Seq<char>, role: u32| !table.granted(user, role),
    {
        DummyAccessControl { grants: Vec::new() }
    }

    /// Grants `role` to `user`.
    pub fn grant_role(&mut self, user: &Address, role: u32)
        ensures
            forall|u: Seq<char>, r: u32|
                final(self).granted(u, r) == ((u == user@ && r == role) || old(self).granted(u, r)),
    {
        self.grants.push(Grant { user: user.clone(), role });
        proof {
            let before = *old(self);
            let after = *self;
            let last = before.grants@.len() as int;
            assert(after.grants@[last].user@ == user@ && after.grants@[last].role == role);
            assert forall|u: Seq<char>, r: u32| after.granted(u, r) == ((u == user@ && r == role)
                || before.granted(u, r)) by {
                if before.granted(u, r) {
                    let i = choose|i: int|
                        0 <= i < before.grants@.len() && (#[trigger] before.grants@[i]).user@ == u
                            && before.grants@[i].role == r;
                    assert(after.grants@[i] == before.grants@[i]);
                }
            }
        }
    }

    /// Whether `user` holds `role`.
    pub fn has_role(&self, user: &Address, role: u32) -> (held: bool)
        ensures
            held == self.granted(user@, role),
    {
        let mut i: usize = 0;
        while i < self.grants.len()
            invariant
                i <= self.grants@.len(),
                forall|j: int|
                    0 <= j < i ==> !((#[trigger] self.grants@[j]).user@ == user@
                        && self.grants@[j].role == role),
            decreases self.grants@.len() - i,
        {
            if self.grants[i].role == role && self.grants[i].user.same(user) {
                return true;
            }
            i = i + 1;
        }
        false
    }
}

} // verus!
