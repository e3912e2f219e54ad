use vstd::prelude::*;

use crate::addr::Addr;

verus! {

/// Creates the lock, free, with a fixed whitelist.
#[derive(Debug, PartialEq, Eq)]
pub struct InstantiateMsg {
    /// Identities allowed to take the lock.
    pub whitelist: Vec<Addr>,
}

/// Commands that change the lock.
#[derive(Debug, PartialEq, Eq)]
pub enum ExecuteMsg {
    /// Try to take the lock.
    Lock {},
    /// Release the lock.
    Unlock {},
}

/// Read-only questions.
#[derive(Debug, PartialEq, Eq)]
pub enum QueryMsg {
    /// The current lock record.
    Lock {},
    /// The whitelisted identities.
    Whitelist {},
}

/// Answer to `QueryMsg::Lock`.
#[derive(Debug, PartialEq, Eq)]
pub struct LockResponse {
    pub since_height: u64,
    pub owner: Option<Addr>,
}

/// Answer to `QueryMsg::Whitelist`.
#[derive(Debug, PartialEq, Eq)]
pub struct WhitelistResponse {
    pub members: Vec<Addr>,
}

/// Answer to any query.
#[derive(Debug, PartialEq, Eq)]
pub enum QueryResponse {
    Lock(LockResponse),
    Whitelist(WhitelistResponse),
}

} // verus!
