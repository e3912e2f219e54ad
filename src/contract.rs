use vstd::prelude::*;

use crate::addr::Addr;
use crate::error::{ContractError, Failure};
use crate::event::{attribute, attributes_view, decimal, decimal_string, Attribute};
use crate::msg::{
    ExecuteMsg, InstantiateMsg, LockResponse, QueryMsg, QueryResponse, WhitelistResponse,
};
use crate::state::{members_view, owner_view, Lock, LockModel, Whitelist};

verus! {

/// The lock as first stored: free since `height`.
pub open spec fn initial(height: u64) -> LockModel {
    LockModel { since_height: height, owner: None }
}

/// Taking the lock: only a member may, and only while it is free.
pub open spec fn acquire(
    members: Seq<Seq<char>>,
    lock: LockModel,
    caller: Seq<char>,
    height: u64,
) -> Result<LockModel, Failure> {
    if !members.contains(caller) {
        Err(Failure::Unauthorized("not whitelisted"@))
    } else if lock.owner is Some {
        Err(Failure::AlreadyLocked(lock.owner->Some_0))
    } else {
        Ok(LockModel { since_height: height, owner: Some(caller) })
    }
}

/// Releasing the lock: only while held, and only by its owner.
pub open spec fn release(lock: LockModel, caller: Seq<char>, height: u64) -> Result<
    LockModel,
    Failure,
> {
    if lock.owner is None {
        Err(Failure::AlreadyUnlocked)
    } else if caller != lock.owner->Some_0 {
        Err(Failure::Unauthorized("not owner of the lock"@))
    } else {
        Ok(LockModel { since_height: height, owner: None })
    }
}

/// The record emitted when `owner` takes the lock at `height`.
pub open spec fn lock_event(owner: Seq<char>, height: u64) -> Seq<(Seq<char>, Seq<char>)> {
    seq![
        ("method"@, "lock"@),
        ("owner"@, owner),
        ("since_height"@, decimal(height as nat)),
    ]
}

/// The record emitted when the lock is released at `height`.
pub open spec fn unlock_event(height: u64) -> Seq<(Seq<char>, Seq<char>)> {
    seq![
        ("method"@, "unlock"@),
        ("owner"@, "none"@),
        ("since_height"@, decimal(height as nat)),
    ]
}

/// Creates the two records: a free lock since `height`, and the whitelist
/// exactly as given.
pub fn instantiate(height: u64, msg: InstantiateMsg) -> (r: (Lock, Whitelist))
    ensures
        r.0@ == initial(height),
        r.1.members == msg.whitelist,
{
    let lock = Lock { since_height: height, owner: None };
    let whitelist = Whitelist { members: msg.whitelist };
    (lock, whitelist)
}

/// Runs a command for `sender` at `height`. On success `lock` holds the next
/// record; on failure it is left as it was.
pub fn execute(
    lock: &mut Lock,
    whitelist: &Whitelist,
    sender: &Addr,
    height: u64,
    msg: ExecuteMsg,
) -> (r: Result<Vec<Attribute>, ContractError>)
    ensures
        match msg {
            ExecuteMsg::Lock {  } => lock_committed(
                acquire(whitelist@, old(lock)@, sender@, height),
                *old(lock),
                *final(lock),
                r,
                lock_event(sender@, height),
            ),
            ExecuteMsg::Unlock {  } => lock_committed(
                release(old(lock)@, sender@, height),
                *old(lock),
                *final(lock),
                r,
                unlock_event(height),
            ),
        },
{
    match msg {
        ExecuteMsg::Lock {  } => execute_lock(lock, whitelist, sender, height),
        ExecuteMsg::Unlock {  } => execute_unlock(lock, sender, height),
    }
}

/// How a command's outcome shows: on success the new record is stored and
/// `event` emitted; on failure the error is returned and the record kept.
pub open spec fn lock_committed(
    outcome: Result<LockModel, Failure>,
    before: Lock,
    after: Lock,
    r: Result<Vec<Attribute>, ContractError>,
    event: Seq<(Seq<char>, Seq<char>)>,
) -> bool {
    match outcome {
        Ok(next) => r is Ok && after@ == next && attributes_view(r->Ok_0@) == event,
        Err(f) => r is Err && r->Err_0@ == f && after == before,
    }
}

/// Takes the lock for `sender` at `height`.
pub fn execute_lock(lock: &mut Lock, whitelist: &Whitelist, sender: &Addr, height: u64) -> (r:
    Result<Vec<Attribute>, ContractError>)
    ensures
        lock_committed(
            acquire(whitelist@, old(lock)@, sender@, height),
            *old(lock),
            *final(lock),
            r,
            lock_event(sender@, height),
        ),
{
    if !whitelist.contains(sender) {
        return Err(ContractError::Unauthorized { message: String::from_str("not whitelisted") });
    }
    if let Some(owner) = &lock.owner {
        return Err(ContractError::AlreadyLocked { address: owner.clone() });
    }
    lock.since_height = height;
    lock.owner = Some(sender.clone());
    let mut attrs: Vec<Attribute> = Vec::new();
    attrs.push(attribute("method", String::from_str("lock")));
    attrs.push(attribute("owner", String::from_str(sender.as_str())));
    attrs.push(attribute("since_height", decimal_string(height)));
    assert(attributes_view(attrs@) =~= lock_event(sender@, height));
    Ok(attrs)
}

/// Releases the lock held by `sender` at `height`.
pub fn execute_unlock(lock: &mut Lock, sender: &Addr, height: u64) -> (r: Result<
    Vec<Attribute>,
    ContractError,
>)
    ensures
        lock_committed(
            release(old(lock)@, sender@, height),
            *old(lock),
            *final(lock),
            r,
            unlock_event(height),
        ),
{
    let owner = match &lock.owner {
        None => {
            return Err(ContractError::AlreadyUnlocked);
        },
        Some(a) => a,
    };
    if *sender != *owner {
        return Err(
            ContractError::Unauthorized { message: String::from_str("not owner of the lock") },
        );
    }
    lock.since_height = height;
    lock.owner = None;
    let mut attrs: Vec<Attribute> = Vec::new();
    attrs.push(attribute("method", String::from_str("unlock")));
    attrs.push(attribute("owner", String::from_str("none")));
    attrs.push(attribute("since_height", decimal_string(height)));
    assert(attributes_view(attrs@) =~= unlock_event(height));
    Ok(attrs)
}

/// Answers a query from the stored records, changing nothing.
pub fn query(lock: &Lock, whitelist: &Whitelist, msg: QueryMsg) -> (r: QueryResponse)
    ensures
        match msg {
            QueryMsg::Lock {  } => r is Lock && r->Lock_0.since_height == lock.since_height
                && owner_view(r->Lock_0.owner) == lock@.owner,
            QueryMsg::Whitelist {  } => r is Whitelist && members_view(r->Whitelist_0.members@)
                == whitelist@,
        },
{
    match msg {
        QueryMsg::Lock {  } => QueryResponse::Lock(query_lock(lock)),
        QueryMsg::Whitelist {  } => QueryResponse::Whitelist(query_whitelist(whitelist)),
    }
}

/// The current lock record.
pub fn query_lock(lock: &Lock) -> (r: LockResponse)
    ensures
        r.since_height == lock.since_height,
        owner_view(r.owner) == lock@.owner,
{
    let copy = lock.clone();
    LockResponse { since_height: copy.since_height, owner: copy.owner }
}

/// The whitelisted identities, in stored order.
pub fn query_whitelist(whitelist: &Whitelist) -> (r: WhitelistResponse)
    ensures
        members_view(r.members@) == whitelist@,
{
    let copy = whitelist.clone();
    WhitelistResponse { members: copy.members }
}

} // verus!
