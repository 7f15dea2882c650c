//! One beneficiary's grant and the arithmetic of its release schedule.
//!
//! A grant unlocks at a constant rate per tick once its lock-in period is
//! over. The mathematics is stated on [`AllocationView`], over unbounded
//! naturals; [`Allocation`] is the machine representation, and each of its
//! operations is tied to the mathematics by its contract.
//!
//! Three choices hold throughout. A release asked for during the lock-in
//! period is refused; it is never paid as zero. A tick that lies before the
//! tick it is measured from counts as no time passed. And the rate is the
//! whole quotient of total by unlock period, paid for every tick until the
//! total is reached: what the division leaves over is not lost, it is paid
//! last, after the unlock period has passed.

use vstd::prelude::*;
use crate::error::VestingError;

verus! {

/// The mathematical content of an [`Allocation`].
pub struct AllocationView {
    /// Tokens ever granted.
    pub total_amount: nat,
    /// Tokens released so far.
    pub released_amount: nat,
    /// Tick at which the grant was made.
    pub start_block: nat,
    /// Tick up to which the schedule has been paid out.
    pub last_released_block: nat,
    /// Tokens that unlock with each tick.
    pub per_block_release_amount: nat,
}

/// Whether a total is large enough for an unlock period to give a rate: the
/// period is not empty, and the total exceeds it.
pub open spec fn schedule_admits(total_amount: nat, unlock_block_length: nat) -> bool {
    0 < unlock_block_length < total_amount
}

/// The tick at which a lock-in period that starts at `start_block` ends,
/// held at the last tick a counter can show when it lies beyond it.
pub open spec fn lockin_end(start_block: nat, lockin_block_length: nat) -> nat {
    if start_block + lockin_block_length <= u64::MAX {
        start_block + lockin_block_length
    } else {
        u64::MAX as nat
    }
}

/// The grant of `total_amount` made at `tick`: nothing released, the rate the
/// whole quotient of total by unlock period, and the schedule anchored at the
/// end of the lock-in period.
pub open spec fn granted(
    total_amount: nat,
    unlock_block_length: nat,
    lockin_block_length: nat,
    tick: nat,
) -> AllocationView {
    AllocationView {
        total_amount,
        released_amount: 0,
        start_block: tick,
        last_released_block: lockin_end(tick, lockin_block_length),
        per_block_release_amount: total_amount / unlock_block_length,
    }
}

impl AllocationView {
    /// No more has been released than was granted.
    pub open spec fn wf(self) -> bool {
        self.released_amount <= self.total_amount
    }

    /// What is still to be released.
    pub open spec fn unreleased(self) -> nat {
        if self.released_amount <= self.total_amount {
            (self.total_amount - self.released_amount) as nat
        } else {
            0
        }
    }

    /// Whether the lock-in period is over at `tick`: strictly more than
    /// `lockin_block_length` ticks have passed since the grant. A tick before
    /// the grant counts as no time passed.
    pub open spec fn lockin_elapsed(self, lockin_block_length: nat, tick: nat) -> bool {
        tick - self.start_block > lockin_block_length
    }

    /// Ticks since the schedule was last paid out; none if `tick` lies before that.
    pub open spec fn elapsed(self, tick: nat) -> nat {
        if self.last_released_block <= tick {
            (tick - self.last_released_block) as nat
        } else {
            0
        }
    }

    /// What the rate has unlocked since the schedule was last paid out.
    pub open spec fn accrued(self, tick: nat) -> nat {
        self.elapsed(tick) * self.per_block_release_amount
    }

    /// What a release at `tick` pays: the accrued amount, capped by what is left.
    pub open spec fn releasable(self, tick: nat) -> nat {
        if self.accrued(tick) <= self.unreleased() {
            self.accrued(tick)
        } else {
            self.unreleased()
        }
    }

    /// The grant after `amount` was released at `tick`.
    pub open spec fn with_release(self, amount: nat, tick: nat) -> AllocationView {
        AllocationView {
            released_amount: self.released_amount + amount,
            last_released_block: tick,
            ..self
        }
    }

    /// The grant after a release at `tick` paid what was releasable.
    pub open spec fn released_at(self, tick: nat) -> AllocationView {
        self.with_release(self.releasable(tick), tick)
    }

    /// What the schedule has unlocked in all by `tick`, under a lock-in
    /// period of `lockin_block_length` ticks: the rate for each tick since
    /// the end of the lock-in period, capped by the total.
    pub open spec fn unlocked_by(self, lockin_block_length: nat, tick: nat) -> nat {
        let end = lockin_end(self.start_block, lockin_block_length);
        let due = if end <= tick {
            (tick - end) * self.per_block_release_amount
        } else {
            0
        };
        if due <= self.total_amount {
            due as nat
        } else {
            self.total_amount
        }
    }

    /// Whether the grant is on schedule: what it has released is what its
    /// schedule had unlocked in all by the tick of its last release.
    pub open spec fn on_schedule(self, lockin_block_length: nat) -> bool {
        &&& lockin_end(self.start_block, lockin_block_length) <= self.last_released_block
        &&& self.released_amount == self.unlocked_by(
            lockin_block_length,
            self.last_released_block,
        )
    }
}

/// A beneficiary's vesting grant. It never records more released than granted.
#[derive(Clone, Copy, Debug)]
pub struct Allocation {
    total_amount: u128,
    released_amount: u128,
    start_block: u64,
    last_released_block: u64,
    per_block_release_amount: u128,
}

impl View for Allocation {
    type V = AllocationView;

    closed spec fn view(&self) -> AllocationView {
        AllocationView {
            total_amount: self.total_amount as nat,
            released_amount: self.released_amount as nat,
            start_block: self.start_block as nat,
            last_released_block: self.last_released_block as nat,
            per_block_release_amount: self.per_block_release_amount as nat,
        }
    }
}

impl Allocation {
    /// What every `Allocation` satisfies: it records no more released than
    /// granted.
    #[verifier::type_invariant]
    pub closed spec fn inv(&self) -> bool {
        self.released_amount <= self.total_amount
    }

    /// The content of a value that satisfies the invariant is well formed,
    /// and each part of it fits the machine integer that holds it.
    pub proof fn lemma_inv(&self)
        requires
            self.inv(),
        ensures
            self@.wf(),
            self@.total_amount <= u128::MAX,
            self@.per_block_release_amount <= u128::MAX,
            self@.start_block <= u64::MAX,
            self@.last_released_block <= u64::MAX,
    {
    }

    /// Makes the grant of `total_amount` at `current_tick`, or refuses with
    /// `InsufficientAmount` when the total does not exceed the unlock period
    /// or the unlock period is empty.
    pub fn create(
        total_amount: u128,
        unlock_block_length: u128,
        lockin_block_length: u128,
        current_tick: u64,
    ) -> (r: Result<Allocation, VestingError>)
        ensures
            match r {
                Ok(a) => {
                    &&& schedule_admits(total_amount as nat, unlock_block_length as nat)
                    &&& a@ == granted(
                        total_amount as nat,
                        unlock_block_length as nat,
                        lockin_block_length as nat,
                        current_tick as nat,
                    )
                },
                Err(e) => {
                    &&& !schedule_admits(total_amount as nat, unlock_block_length as nat)
                    &&& e == VestingError::InsufficientAmount
                },
            },
    {
        if unlock_block_length == 0 || total_amount <= unlock_block_length {
            return Err(VestingError::InsufficientAmount);
        }
        let room: u64 = u64::MAX - current_tick;
        let last_released_block: u64 = if lockin_block_length <= room as u128 {
            current_tick + lockin_block_length as u64
        } else {
            u64::MAX
        };
        Ok(
            Allocation {
                total_amount,
                released_amount: 0,
                start_block: current_tick,
                last_released_block,
                per_block_release_amount: total_amount / unlock_block_length,
            },
        )
    }

    /// Rebuilds a grant from its recorded fields; `None` when they record
    /// more released than granted.
    pub fn from_parts(
        total_amount: u128,
        released_amount: u128,
        start_block: u64,
        last_released_block: u64,
        per_block_release_amount: u128,
    ) -> (r: Option<Allocation>)
        ensures
            r is Some <==> released_amount <= total_amount,
            r is Some ==> r.unwrap()@ == (AllocationView {
                total_amount: total_amount as nat,
                released_amount: released_amount as nat,
                start_block: start_block as nat,
                last_released_block: last_released_block as nat,
                per_block_release_amount: per_block_release_amount as nat,
            }),
    {
        if released_amount <= total_amount {
            Some(
                Allocation {
                    total_amount,
                    released_amount,
                    start_block,
                    last_released_block,
                    per_block_release_amount,
                },
            )
        } else {
            None
        }
    }

    /// Tokens ever granted.
    pub fn total_amount(&self) -> (r: u128)
        ensures
            r == self@.total_amount,
    {
        self.total_amount
    }

    /// Tokens released so far; never more than the total.
    pub fn released_amount(&self) -> (r: u128)
        ensures
            r == self@.released_amount,
            r <= self@.total_amount,
    {
        proof {
            use_type_invariant(self);
        }
        self.released_amount
    }

    /// Tick at which the grant was made.
    pub fn start_block(&self) -> (r: u64)
        ensures
            r == self@.start_block,
    {
        self.start_block
    }

    /// Tick up to which the schedule has been paid out.
    pub fn last_released_block(&self) -> (r: u64)
        ensures
            r == self@.last_released_block,
    {
        self.last_released_block
    }

    /// Tokens that unlock with each tick.
    pub fn per_block_release_amount(&self) -> (r: u128)
        ensures
            r == self@.per_block_release_amount,
    {
        self.per_block_release_amount
    }

    /// What is still to be released.
    pub fn unreleased_amount(&self) -> (r: u128)
        ensures
            r == self@.unreleased(),
    {
        self.total_amount.saturating_sub(self.released_amount)
    }

    /// Whether the lock-in period of `lockin_block_length` ticks is over at
    /// `current_tick`.
    pub fn lockin_elapsed(&self, lockin_block_length: u128, current_tick: u64) -> (r: bool)
        ensures
            r == self@.lockin_elapsed(lockin_block_length as nat, current_tick as nat),
    {
        let since_start: u64 = current_tick.saturating_sub(self.start_block);
        since_start as u128 > lockin_block_length
    }

    /// What a release at `current_tick` pays, or `Locked` while the lock-in
    /// period of `lockin_block_length` ticks is not over. The product of
    /// elapsed ticks and rate is taken exactly, however large.
    pub fn compute_releasable(&self, lockin_block_length: u128, current_tick: u64) -> (r: Result<
        u128,
        VestingError,
    >)
        ensures
            match r {
                Ok(amount) => {
                    &&& self@.lockin_elapsed(lockin_block_length as nat, current_tick as nat)
                    &&& amount == self@.releasable(current_tick as nat)
                },
                Err(e) => {
                    &&& !self@.lockin_elapsed(lockin_block_length as nat, current_tick as nat)
                    &&& e == VestingError::Locked
                },
            },
    {
        if !self.lockin_elapsed(lockin_block_length, current_tick) {
            return Err(VestingError::Locked);
        }
        let elapsed: u64 = current_tick.saturating_sub(self.last_released_block);
        let unreleased: u128 = self.unreleased_amount();
        let amount: u128 = match (elapsed as u128).checked_mul(self.per_block_release_amount) {
            Some(accrued) => if accrued <= unreleased {
                accrued
            } else {
                unreleased
            },
            None => unreleased,
        };
        Ok(amount)
    }

    /// Records that `amount` was released at `at_tick`.
    pub fn apply_release(&mut self, amount: u128, at_tick: u64)
        requires
            amount <= old(self)@.unreleased(),
        ensures
            final(self)@ == old(self)@.with_release(amount as nat, at_tick as nat),
    {
        proof {
            use_type_invariant(&*self);
        }
        self.released_amount = self.released_amount + amount;
        self.last_released_block = at_tick;
    }
}

} // verus!
