//! The allocation store: at most one grant per account.

use vstd::prelude::*;
use vstd::hash_map::StringHashMap;
use crate::error::VestingError;
use crate::schedule::{Allocation, AllocationView};

verus! {

/// Every grant in the mapping has released no more than its total.
pub open spec fn all_well_formed(allocations: Map<Seq<char>, AllocationView>) -> bool {
    forall|account: Seq<char>|
        allocations.contains_key(account) ==> (#[trigger] allocations[account]).wf()
}

/// The grants of all beneficiaries, keyed by account name. Its view is the
/// mapping from account name to the content of that account's grant.
pub struct AllocationStore {
    records: StringHashMap<Allocation>,
}

impl View for AllocationStore {
    type V = Map<Seq<char>, AllocationView>;

    closed spec fn view(&self) -> Map<Seq<char>, AllocationView> {
        self.records@.map_values(|a: Allocation| a@)
    }
}

impl AllocationStore {
    /// What every store satisfies: each grant it holds is a valid `Allocation`.
    #[verifier::type_invariant]
    pub closed spec fn inv(&self) -> bool {
        forall|account: Seq<char>|
            self.records@.contains_key(account) ==> (#[trigger] self.records@[account]).inv()
    }

    /// A store that satisfies the invariant holds well-formed grants only.
    pub proof fn lemma_inv(&self)
        requires
            self.inv(),
        ensures
            all_well_formed(self@),
    {
        assert forall|account: Seq<char>| self@.contains_key(account) implies (
        #[trigger] self@[account]).wf() by {
            self.records@[account].lemma_inv();
        }
    }

    /// The store without any grant.
    pub fn new() -> (store: Self)
        ensures
            store@ == Map::<Seq<char>, AllocationView>::empty(),
    {
        let store = AllocationStore { records: StringHashMap::new() };
        assert(store@ =~= Map::<Seq<char>, AllocationView>::empty());
        store
    }

    /// Whether `account` has a grant.
    pub fn contains(&self, account: &String) -> (r: bool)
        ensures
            r == self@.contains_key(account@),
    {
        self.records.contains_key(account.as_str())
    }

    /// The grant of `account`, if it has one.
    pub fn get(&self, account: &String) -> (r: Option<Allocation>)
        ensures
            match r {
                Some(a) => self@.contains_key(account@) && a@ == self@[account@],
                None => !self@.contains_key(account@),
            },
    {
        match self.records.get(account.as_str()) {
            Some(a) => Some(*a),
            None => None,
        }
    }

    /// Records `allocation` as the grant of `account`, in place of any grant
    /// the account had; nothing of the earlier grant is kept.
    pub fn upsert(&mut self, account: String, allocation: Allocation)
        ensures
            final(self)@ == old(self)@.insert(account@, allocation@),
    {
        proof {
            use_type_invariant(&*self);
            use_type_invariant(&allocation);
        }
        // The map is taken out while it is changed, so that the store
        // satisfies its invariant at every step.
        let mut records = StringHashMap::new();
        std::mem::swap(&mut self.records, &mut records);
        records.insert(account, allocation);
        std::mem::swap(&mut self.records, &mut records);
        assert(self@ =~= old(self)@.insert(account@, allocation@));
    }

    /// Records on the grant of `account` that `amount` was released at
    /// `at_tick`; refuses with `NoAllocation`, changing nothing, when the
    /// account has no grant.
    pub fn apply_release(&mut self, account: &String, amount: u128, at_tick: u64) -> (r: Result<
        (),
        VestingError,
    >)
        requires
            old(self)@.contains_key(account@) ==> amount <= old(self)@[account@].unreleased(),
        ensures
            match r {
                Ok(_) => {
                    &&& old(self)@.contains_key(account@)
                    &&& final(self)@ == old(self)@.insert(
                        account@,
                        old(self)@[account@].with_release(amount as nat, at_tick as nat),
                    )
                },
                Err(e) => {
                    &&& e == VestingError::NoAllocation
                    &&& !old(self)@.contains_key(account@)
                    &&& final(self)@ == old(self)@
                },
            },
    {
        match self.get(account) {
            Some(found) => {
                let mut updated = found;
                updated.apply_release(amount, at_tick);
                self.upsert(account.clone(), updated);
                Ok(())
            },
            None => Err(VestingError::NoAllocation),
        }
    }
}

} // verus!
