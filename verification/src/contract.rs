//! The vesting contract: schedule parameters, the allocation store, the
//! global lock and the owner, with the operations that beneficiaries and the
//! owner may invoke.
//!
//! The contract never reads a clock or a caller's identity by itself: each
//! operation takes the current tick and the calling account as arguments.
//! A release records itself in the store and hands back the transfer to
//! carry out, so that no transfer is ever issued for an amount that the
//! store does not yet show as released.

use vstd::prelude::*;
use crate::error::VestingError;
use crate::schedule::{granted, schedule_admits, Allocation, AllocationView};
use crate::store::{all_well_formed, AllocationStore};
use crate::transfer::{TransferInstruction, TransferView};

verus! {

/// The length of a month, in seconds.
pub const MONTH_IN_SECONDS: u128 = 3600 * 24 * 30;

/// The number of ticks in `period` months: ten ticks every twelve seconds.
pub open spec fn block_length(period: nat) -> nat {
    period * MONTH_IN_SECONDS as nat * 10 / 12
}

/// The mathematical content of a [`VestingContract`].
pub struct ContractView {
    /// The token ledger that transfers are addressed to.
    pub token_contract: Seq<char>,
    /// The one account that may administer the contract.
    pub owner: Seq<char>,
    /// The grant of each account that has one.
    pub allocations: Map<Seq<char>, AllocationView>,
    /// Ticks after a grant during which nothing is released.
    pub lockin_block_length: nat,
    /// Ticks over which a grant unlocks in full.
    pub unlock_block_length: nat,
    /// While set, no account can release.
    pub lock_all_accounts: bool,
}

impl ContractView {
    /// Every grant is well formed.
    pub open spec fn wf(self) -> bool {
        all_well_formed(self.allocations)
    }

    /// What `caller` gets from the authorization gate: passage for the
    /// owner, and the refusal `NotOwner` for everyone else.
    pub open spec fn owner_check(self, caller: Seq<char>) -> Result<(), VestingError> {
        if caller == self.owner {
            Ok(())
        } else {
            Err(VestingError::NotOwner)
        }
    }

    /// What `caller` gets from a release at `tick`: the amount paid, or the
    /// refusal. An account without a grant is refused with `NoAllocation`;
    /// one with a grant is refused with `Locked` while every account is
    /// locked or its lock-in period is not over.
    pub open spec fn release_outcome(self, caller: Seq<char>, tick: nat) -> Result<
        nat,
        VestingError,
    > {
        if !self.allocations.contains_key(caller) {
            Err(VestingError::NoAllocation)
        } else if self.lock_all_accounts || !self.allocations[caller].lockin_elapsed(
            self.lockin_block_length,
            tick,
        ) {
            Err(VestingError::Locked)
        } else {
            Ok(self.allocations[caller].releasable(tick))
        }
    }

    /// The contract after `caller` asked for a release at `tick`: the
    /// caller's grant shows the release if it was paid, and nothing has
    /// changed if it was refused.
    pub open spec fn after_release(self, caller: Seq<char>, tick: nat) -> ContractView {
        if self.release_outcome(caller, tick) is Ok {
            ContractView {
                allocations: self.allocations.insert(
                    caller,
                    self.allocations[caller].released_at(tick),
                ),
                ..self
            }
        } else {
            self
        }
    }

    /// What `caller` gets from granting `total_amount` at `tick`: the new
    /// grant, or the refusal. Anyone but the owner is refused with
    /// `NotOwner`; the owner is refused with `InsufficientAmount` when the
    /// unlock period does not admit the total.
    pub open spec fn add_allocation_outcome(
        self,
        caller: Seq<char>,
        total_amount: nat,
        tick: nat,
    ) -> Result<AllocationView, VestingError> {
        if caller != self.owner {
            Err(VestingError::NotOwner)
        } else if !schedule_admits(total_amount, self.unlock_block_length) {
            Err(VestingError::InsufficientAmount)
        } else {
            Ok(granted(total_amount, self.unlock_block_length, self.lockin_block_length, tick))
        }
    }

    /// The contract after `caller` asked to grant `total_amount` to `account`
    /// at `tick`: the new grant stands in place of any grant the account
    /// had, or nothing has changed if the request was refused.
    pub open spec fn after_add_allocation(
        self,
        caller: Seq<char>,
        account: Seq<char>,
        total_amount: nat,
        tick: nat,
    ) -> ContractView {
        match self.add_allocation_outcome(caller, total_amount, tick) {
            Ok(allocation) => ContractView {
                allocations: self.allocations.insert(account, allocation),
                ..self
            },
            Err(_) => self,
        }
    }

    /// The contract after `caller` asked to set the global lock: the flag is
    /// set as asked if the caller is the owner, and nothing has changed
    /// otherwise.
    pub open spec fn after_set_lock_all_accounts(
        self,
        caller: Seq<char>,
        lock_all_accounts: bool,
    ) -> ContractView {
        if caller == self.owner {
            ContractView { lock_all_accounts, ..self }
        } else {
            self
        }
    }
}

/// The vesting ledger of one token: who was granted what, on which
/// schedule, and who may administer it.
pub struct VestingContract {
    token_contract: String,
    owner: String,
    allocations: AllocationStore,
    lockin_block_length: u128,
    unlock_block_length: u128,
    lock_all_accounts: bool,
}

impl View for VestingContract {
    type V = ContractView;

    closed spec fn view(&self) -> ContractView {
        ContractView {
            token_contract: self.token_contract@,
            owner: self.owner@,
            allocations: self.allocations@,
            lockin_block_length: self.lockin_block_length as nat,
            unlock_block_length: self.unlock_block_length as nat,
            lock_all_accounts: self.lock_all_accounts,
        }
    }
}

impl VestingContract {
    /// The contract for the token ledger `token_contract`, owned by `owner`,
    /// with a lock-in period of `lockin_period` months and an unlock period
    /// of `unlock_period` months. It starts without grants and unlocked.
    pub fn new(
        token_contract: String,
        lockin_period: u128,
        unlock_period: u128,
        owner: String,
    ) -> (c: Self)
        requires
            lockin_period * MONTH_IN_SECONDS * 10 <= u128::MAX,
            unlock_period * MONTH_IN_SECONDS * 10 <= u128::MAX,
        ensures
            c@ == (ContractView {
                token_contract: token_contract@,
                owner: owner@,
                allocations: Map::empty(),
                lockin_block_length: block_length(lockin_period as nat),
                unlock_block_length: block_length(unlock_period as nat),
                lock_all_accounts: false,
            }),
            c@.wf(),
    {
        let lockin_block_length: u128 = lockin_period * MONTH_IN_SECONDS * 10 / 12;
        let unlock_block_length: u128 = unlock_period * MONTH_IN_SECONDS * 10 / 12;
        VestingContract {
            token_contract,
            owner,
            allocations: AllocationStore::new(),
            lockin_block_length,
            unlock_block_length,
            lock_all_accounts: false,
        }
    }

    /// The contract with exactly the given content.
    pub fn from_parts(
        token_contract: String,
        owner: String,
        lockin_block_length: u128,
        unlock_block_length: u128,
        lock_all_accounts: bool,
        allocations: AllocationStore,
    ) -> (c: Self)
        ensures
            c@ == (ContractView {
                token_contract: token_contract@,
                owner: owner@,
                allocations: allocations@,
                lockin_block_length: lockin_block_length as nat,
                unlock_block_length: unlock_block_length as nat,
                lock_all_accounts,
            }),
            c@.wf(),
    {
        proof {
            use_type_invariant(&allocations);
            allocations.lemma_inv();
        }
        VestingContract {
            token_contract,
            owner,
            allocations,
            lockin_block_length,
            unlock_block_length,
            lock_all_accounts,
        }
    }

    /// The token ledger that transfers are addressed to.
    pub fn token_contract(&self) -> (r: &String)
        ensures
            r@ == self@.token_contract,
    {
        &self.token_contract
    }

    /// The account that may administer the contract.
    pub fn owner(&self) -> (r: &String)
        ensures
            r@ == self@.owner,
    {
        &self.owner
    }

    /// Ticks after a grant during which nothing is released.
    pub fn lockin_block_length(&self) -> (r: u128)
        ensures
            r == self@.lockin_block_length,
    {
        self.lockin_block_length
    }

    /// Ticks over which a grant unlocks in full.
    pub fn unlock_block_length(&self) -> (r: u128)
        ensures
            r == self@.unlock_block_length,
    {
        self.unlock_block_length
    }

    /// Whether every account is locked.
    pub fn lock_all_accounts(&self) -> (r: bool)
        ensures
            r == self@.lock_all_accounts,
    {
        self.lock_all_accounts
    }

    /// The grant of `account`, if it has one. In a contract no grant shows
    /// more released than granted.
    pub fn allocation(&self, account: &String) -> (r: Option<Allocation>)
        ensures
            self@.wf(),
            match r {
                Some(a) => {
                    &&& self@.allocations.contains_key(account@)
                    &&& a@ == self@.allocations[account@]
                },
                None => !self@.allocations.contains_key(account@),
            },
    {
        proof {
            use_type_invariant(&self.allocations);
            self.allocations.lemma_inv();
        }
        self.allocations.get(account)
    }

    /// Lets the owner pass and refuses everyone else with `NotOwner`.
    pub fn owner_only(&self, caller: &String) -> (r: Result<(), VestingError>)
        ensures
            r == self@.owner_check(caller@),
    {
        if *caller == self.owner {
            Ok(())
        } else {
            Err(VestingError::NotOwner)
        }
    }

    /// Releases to `caller` what its grant has unlocked by `current_tick`.
    ///
    /// On success the store shows the release, and the result is the
    /// transfer of that amount to the caller for the host to carry out; the
    /// amount is zero when nothing has unlocked since the last release. A
    /// refusal changes nothing and asks for no transfer. An account without
    /// a grant is refused with `NoAllocation`; one with a grant is refused
    /// with `Locked` while every account is locked or its lock-in period is
    /// not over. The contract is well formed before and after.
    pub fn release_vested_tokens(&mut self, caller: &String, current_tick: u64) -> (r: Result<
        TransferInstruction,
        VestingError,
    >)
        ensures
            match old(self)@.release_outcome(caller@, current_tick as nat) {
                Ok(amount) => r matches Ok(transfer) && transfer@ == (TransferView {
                    token_contract: old(self)@.token_contract,
                    receiver: caller@,
                    amount,
                }),
                Err(e) => r matches Err(refusal) && refusal == e,
            },
            final(self)@ == old(self)@.after_release(caller@, current_tick as nat),
            r is Err ==> final(self)@ == old(self)@,
            old(self)@.wf(),
            final(self)@.wf(),
    {
        proof {
            use_type_invariant(&self.allocations);
            self.allocations.lemma_inv();
        }
        let allocation = match self.allocations.get(caller) {
            Some(allocation) => allocation,
            None => {
                return Err(VestingError::NoAllocation);
            },
        };
        if self.lock_all_accounts {
            return Err(VestingError::Locked);
        }
        let amount = match allocation.compute_releasable(self.lockin_block_length, current_tick) {
            Ok(amount) => amount,
            Err(e) => {
                return Err(e);
            },
        };
        match self.allocations.apply_release(caller, amount, current_tick) {
            Ok(_) => {},
            Err(e) => {
                return Err(e);
            },
        }
        proof {
            use_type_invariant(&self.allocations);
            self.allocations.lemma_inv();
        }
        Ok(
            TransferInstruction {
                token_contract: self.token_contract.clone(),
                receiver: caller.clone(),
                amount,
            },
        )
    }

    /// Grants `total_amount` to `account_id` at `current_tick`, on the
    /// owner's request, and returns the grant.
    ///
    /// The grant replaces any grant the account had. Anyone but the owner is
    /// refused with `NotOwner`; the owner is refused with
    /// `InsufficientAmount` when the total does not exceed the unlock period
    /// or the unlock period is empty. A refusal changes nothing.
    pub fn add_allocation(
        &mut self,
        caller: &String,
        account_id: String,
        total_amount: u128,
        current_tick: u64,
    ) -> (r: Result<Allocation, VestingError>)
        ensures
            match old(self)@.add_allocation_outcome(
                caller@,
                total_amount as nat,
                current_tick as nat,
            ) {
                Ok(allocation) => r matches Ok(made) && made@ == allocation,
                Err(e) => r matches Err(refusal) && refusal == e,
            },
            final(self)@ == old(self)@.after_add_allocation(
                caller@,
                account_id@,
                total_amount as nat,
                current_tick as nat,
            ),
            r is Err ==> final(self)@ == old(self)@,
            old(self)@.wf(),
            final(self)@.wf(),
    {
        proof {
            use_type_invariant(&self.allocations);
            self.allocations.lemma_inv();
        }
        match self.owner_only(caller) {
            Ok(_) => {},
            Err(e) => {
                return Err(e);
            },
        }
        let allocation = match Allocation::create(
            total_amount,
            self.unlock_block_length,
            self.lockin_block_length,
            current_tick,
        ) {
            Ok(allocation) => allocation,
            Err(e) => {
                return Err(e);
            },
        };
        self.allocations.upsert(account_id, allocation);
        proof {
            use_type_invariant(&self.allocations);
            self.allocations.lemma_inv();
        }
        Ok(allocation)
    }

    /// Sets the global lock as asked, on the owner's request. Anyone but the
    /// owner is refused with `NotOwner`, and nothing changes.
    pub fn set_lock_all_accounts(&mut self, caller: &String, lock_all_accounts: bool) -> (r: Result<
        (),
        VestingError,
    >)
        ensures
            r == old(self)@.owner_check(caller@),
            final(self)@ == old(self)@.after_set_lock_all_accounts(caller@, lock_all_accounts),
            r is Err ==> final(self)@ == old(self)@,
            old(self)@.wf(),
            final(self)@.wf(),
    {
        proof {
            use_type_invariant(&self.allocations);
            self.allocations.lemma_inv();
        }
        match self.owner_only(caller) {
            Ok(_) => {},
            Err(e) => {
                return Err(e);
            },
        }
        self.lock_all_accounts = lock_all_accounts;
        Ok(())
    }
}

impl Default for VestingContract {
    /// The contract whose token ledger and owner both have the empty name:
    /// no grants, both periods empty, unlocked.
    fn default() -> (c: Self)
        ensures
            c@ == (ContractView {
                token_contract: Seq::empty(),
                owner: Seq::empty(),
                allocations: Map::empty(),
                lockin_block_length: 0,
                unlock_block_length: 0,
                lock_all_accounts: false,
            }),
            c@.wf(),
    {
        VestingContract {
            token_contract: String::new(),
            owner: String::new(),
            allocations: AllocationStore::new(),
            lockin_block_length: 0,
            unlock_block_length: 0,
            lock_all_accounts: false,
        }
    }
}

} // verus!
