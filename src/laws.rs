use vstd::prelude::*;

use crate::addr::Addr;
use crate::contract::{acquire, lock_committed, lock_event, release, unlock_event};
use crate::error::{ContractError, Failure};
use crate::event::Attribute;
use crate::msg::LockResponse;
use crate::state::{owner_view, Lock, LockModel, Whitelist};

verus! {

/// An identity outside the whitelist is refused as unauthorized whatever
/// the lock's state, and the lock is left as it was.
pub proof fn lemma_outsider_cannot_acquire(
    whitelist: Whitelist,
    before: Lock,
    after: Lock,
    caller: Addr,
    height: u64,
    r: Result<Vec<Attribute>, ContractError>,
)
    requires
        !whitelist@.contains(caller@),
        lock_committed(
            acquire(whitelist@, before@, caller@, height),
            before,
            after,
            r,
            lock_event(caller@, height),
        ),
    ensures
        r is Err,
        r->Err_0@ is Unauthorized,
        after == before,
{
}

/// A member takes a free lock: it becomes the owner, since `height`.
pub proof fn lemma_member_acquires_free_lock(
    whitelist: Whitelist,
    before: Lock,
    after: Lock,
    caller: Addr,
    height: u64,
    r: Result<Vec<Attribute>, ContractError>,
)
    requires
        whitelist@.contains(caller@),
        before@.owner is None,
        lock_committed(
            acquire(whitelist@, before@, caller@, height),
            before,
            after,
            r,
            lock_event(caller@, height),
        ),
    ensures
        r is Ok,
        after@ == (LockModel { since_height: height, owner: Some(caller@) }),
{
}

/// A held lock cannot be taken, not even by its owner: the refusal names
/// the owner and the lock is left as it was.
pub proof fn lemma_held_lock_refuses_acquire(
    whitelist: Whitelist,
    before: Lock,
    after: Lock,
    owner: Addr,
    caller: Addr,
    height: u64,
    r: Result<Vec<Attribute>, ContractError>,
)
    requires
        whitelist@.contains(caller@),
        before@.owner == Some(owner@),
        lock_committed(
            acquire(whitelist@, before@, caller@, height),
            before,
            after,
            r,
            lock_event(caller@, height),
        ),
    ensures
        r is Err,
        r->Err_0@ == Failure::AlreadyLocked(owner@),
        after == before,
{
}

/// The owner releases a held lock: it becomes free, since `height`.
pub proof fn lemma_owner_releases(
    before: Lock,
    after: Lock,
    owner: Addr,
    height: u64,
    r: Result<Vec<Attribute>, ContractError>,
)
    requires
        before@.owner == Some(owner@),
        lock_committed(release(before@, owner@, height), before, after, r, unlock_event(height)),
    ensures
        r is Ok,
        after@ == (LockModel { since_height: height, owner: None }),
{
}

/// Anyone but the owner is refused as unauthorized when releasing a held
/// lock, and the lock is left as it was.
pub proof fn lemma_non_owner_cannot_release(
    before: Lock,
    after: Lock,
    owner: Addr,
    caller: Addr,
    height: u64,
    r: Result<Vec<Attribute>, ContractError>,
)
    requires
        before@.owner == Some(owner@),
        caller@ != owner@,
        lock_committed(release(before@, caller@, height), before, after, r, unlock_event(height)),
    ensures
        r is Err,
        r->Err_0@ is Unauthorized,
        after == before,
{
}

/// Releasing a free lock is refused as already unlocked, whoever asks,
/// and the lock is left as it was.
pub proof fn lemma_free_lock_refuses_release(
    before: Lock,
    after: Lock,
    caller: Addr,
    height: u64,
    r: Result<Vec<Attribute>, ContractError>,
)
    requires
        before@.owner is None,
        lock_committed(release(before@, caller@, height), before, after, r, unlock_event(height)),
    ensures
        r is Err,
        r->Err_0@ == Failure::AlreadyUnlocked,
        after == before,
{
}

/// Release is not idempotent: right after a successful release, a second
/// one, by anyone, is refused as already unlocked.
pub proof fn lemma_second_release_refused(
    first: Lock,
    second: Lock,
    third: Lock,
    caller: Addr,
    again: Addr,
    height: u64,
    later: u64,
    r1: Result<Vec<Attribute>, ContractError>,
    r2: Result<Vec<Attribute>, ContractError>,
)
    requires
        lock_committed(release(first@, caller@, height), first, second, r1, unlock_event(height)),
        r1 is Ok,
        lock_committed(release(second@, again@, later), second, third, r2, unlock_event(later)),
    ensures
        r2 is Err,
        r2->Err_0@ == Failure::AlreadyUnlocked,
        third == second,
{
}

/// A lock record answered as `query_lock` answers, from the state after a
/// command, is the record that command committed, or the earlier one if the
/// command failed.
pub proof fn lemma_query_reflects_commit(
    outcome: Result<LockModel, Failure>,
    before: Lock,
    after: Lock,
    r: Result<Vec<Attribute>, ContractError>,
    event: Seq<(Seq<char>, Seq<char>)>,
    answer: LockResponse,
)
    requires
        lock_committed(outcome, before, after, r, event),
        answer.since_height == after.since_height,
        owner_view(answer.owner) == after@.owner,
    ensures
        outcome is Ok ==> (LockModel { since_height: answer.since_height, owner: owner_view(answer.owner) })
            == outcome->Ok_0,
        outcome is Err ==> (LockModel { since_height: answer.since_height, owner: owner_view(answer.owner) }) == before@,
{
}

} // verus!
