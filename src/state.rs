use vstd::prelude::*;

use crate::addr::Addr;

verus! {

/// The mathematical value of a lock record: the owner is held by its text.
pub struct LockModel {
    pub since_height: u64,
    pub owner: Option<Seq<char>>,
}

/// The text of an optional identity.
pub open spec fn owner_view(owner: Option<Addr>) -> Option<Seq<char>> {
    match owner {
        Some(a) => Some(a@),
        None => None,
    }
}

/// The mutex record.
#[derive(Debug, PartialEq, Eq)]
pub struct Lock {
    /// Height of the latest transition, acquire or release.
    pub since_height: u64,
    /// Current owner; `None` while the lock is free.
    pub owner: Option<Addr>,
}

impl View for Lock {
    type V = LockModel;

    open spec fn view(&self) -> LockModel {
        LockModel { since_height: self.since_height, owner: owner_view(self.owner) }
    }
}

impl Lock {
    /// Whether someone holds the lock.
    pub fn is_locked(&self) -> (r: bool)
        ensures
            r == self.owner.is_some(),
            r == self@.owner.is_some(),
    {
        self.owner.is_some()
    }
}

impl Clone for Lock {
    fn clone(&self) -> (r: Lock)
        ensures
            r@ == self@,
    {
        let owner = match &self.owner {
            Some(a) => Some(a.clone()),
            None => None,
        };
        Lock { since_height: self.since_height, owner }
    }
}

/// The texts of a sequence of identities, in order.
pub open spec fn members_view(members: Seq<Addr>) -> Seq<Seq<char>> {
    members.map_values(|a: Addr| a@)
}

/// The identities allowed to take the lock, fixed once stored.
#[derive(Debug, PartialEq, Eq)]
pub struct Whitelist {
    /// Members in the order they were given; duplicates are kept.
    pub members: Vec<Addr>,
}

impl View for Whitelist {
    type V = Seq<Seq<char>>;

    open spec fn view(&self) -> Seq<Seq<char>> {
        members_view(self.members@)
    }
}

impl Whitelist {
    /// Whether `address` appears anywhere among the members.
    pub fn contains(&self, address: &Addr) -> (r: bool)
        ensures
            r == self@.contains(address@),
    {
        let mut i: usize = 0;
        while i < self.members.len()
            invariant
                i <= self.members@.len(),
                forall|j: int| 0 <= j < i ==> #[trigger] self.members@[j]@ != address@,
            decreases self.members@.len() - i,
        {
            if self.members[i] == *address {
                assert(self@[i as int] == address@);
                return true;
            }
            i = i + 1;
        }
        assert(!self@.contains(address@)) by {
            if self@.contains(address@) {
                let k = choose|k: int| 0 <= k < self@.len() && self@[k] == address@;
                assert(self.members@[k]@ == address@);
            }
        }
        false
    }
}

impl Clone for Whitelist {
    fn clone(&self) -> (r: Whitelist)
        ensures
            r@ == self@,
    {
        let mut members: Vec<Addr> = Vec::new();
        let mut i: usize = 0;
        while i < self.members.len()
            invariant
                i <= self.members@.len(),
                members@.len() == i,
                forall|j: int| 0 <= j < i ==> #[trigger] members@[j]@ == self.members@[j]@,
            decreases self.members@.len() - i,
        {
            members.push(self.members[i].clone());
            i = i + 1;
        }
        let r = Whitelist { members };
        assert(r@ =~= self@);
        r
    }
}

} // verus!
