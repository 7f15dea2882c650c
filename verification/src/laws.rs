//! What holds of the ledger whatever is asked of it, proved over the
//! mathematical content of the contract.
//!
//! The laws come in three groups: those of a single grant and its
//! schedule, those of a single request to the contract, and those of every
//! state that the contract reaches through any sequence of requests.

use vstd::prelude::*;
use crate::contract::ContractView;
use crate::error::VestingError;
use crate::schedule::{granted, lockin_end, AllocationView};

verus! {

/// Something asked of the contract.
pub enum Request {
    /// `caller` asks at `tick` for the release of what its grant has unlocked.
    Release { caller: Seq<char>, tick: nat },
    /// `caller` asks at `tick` to grant `total_amount` to `account`.
    AddAllocation { caller: Seq<char>, account: Seq<char>, total_amount: nat, tick: nat },
    /// `caller` asks to set the global lock.
    SetLockAllAccounts { caller: Seq<char>, lock_all_accounts: bool },
}

impl Request {
    /// Whether this request asks for a new allocation to `account`.
    pub open spec fn grants_to(self, account: Seq<char>) -> bool {
        self matches Request::AddAllocation { account: receiver, .. } && receiver == account
    }

    /// The tick at which this request is made, if it is made at one.
    pub open spec fn tick(self) -> Option<nat> {
        match self {
            Request::Release { tick, .. } => Some(tick),
            Request::AddAllocation { tick, .. } => Some(tick),
            Request::SetLockAllAccounts { .. } => None,
        }
    }
}

/// The contract after `request` was made of it.
pub open spec fn after(c: ContractView, request: Request) -> ContractView {
    match request {
        Request::Release { caller, tick } => c.after_release(caller, tick),
        Request::AddAllocation { caller, account, total_amount, tick } => c.after_add_allocation(
            caller,
            account,
            total_amount,
            tick,
        ),
        Request::SetLockAllAccounts { caller, lock_all_accounts } => c.after_set_lock_all_accounts(
            caller,
            lock_all_accounts,
        ),
    }
}

/// The contract after each of `requests` in turn was made of it.
pub open spec fn after_all(c: ContractView, requests: Seq<Request>) -> ContractView
    decreases requests.len(),
{
    if requests.len() == 0 {
        c
    } else {
        after(after_all(c, requests.drop_last()), requests.last())
    }
}

/// The latest tick seen once `requests` were made, when `now` was the latest
/// tick seen before them.
pub open spec fn latest_tick(now: nat, requests: Seq<Request>) -> nat
    decreases requests.len(),
{
    if requests.len() == 0 {
        now
    } else {
        let before = latest_tick(now, requests.drop_last());
        match requests.last().tick() {
            Some(tick) => if before <= tick {
                tick
            } else {
                before
            },
            None => before,
        }
    }
}

/// Whether time never goes back along `requests`: none is made at a tick
/// before `now` or before the tick of a request that stands before it.
pub open spec fn in_time_order(now: nat, requests: Seq<Request>) -> bool
    decreases requests.len(),
{
    requests.len() == 0 || {
        &&& in_time_order(now, requests.drop_last())
        &&& requests.last().tick() matches Some(tick) ==> latest_tick(now, requests.drop_last())
            <= tick
    }
}

/// Whether at the tick `now` every grant is on schedule, and none shows a
/// release at a later tick than `now`.
pub open spec fn all_on_schedule(c: ContractView, now: nat) -> bool {
    forall|account: Seq<char>| #[trigger]
        c.allocations.contains_key(account) ==> {
            &&& c.allocations[account].on_schedule(c.lockin_block_length)
            &&& c.allocations[account].last_released_block == lockin_end(
                c.allocations[account].start_block,
                c.lockin_block_length,
            ) || c.allocations[account].last_released_block <= now
        }
}

// A single grant and its schedule.

/// A release never pays more than is left of the grant; it keeps a
/// well-formed grant well formed; and a grant that is released in full pays
/// nothing, at whatever tick.
pub proof fn lemma_release_never_exceeds_what_is_left(a: AllocationView, tick: nat)
    ensures
        a.releasable(tick) <= a.unreleased(),
        a.wf() ==> a.released_at(tick).wf(),
        a.released_amount >= a.total_amount ==> a.releasable(tick) == 0,
{
}

/// The schedule never takes back what it has unlocked: at a later tick it
/// has unlocked at least as much.
pub proof fn lemma_schedule_is_monotonic(
    a: AllocationView,
    lockin_block_length: nat,
    earlier: nat,
    later: nat,
)
    requires
        earlier <= later,
    ensures
        a.unlocked_by(lockin_block_length, earlier) <= a.unlocked_by(lockin_block_length, later),
{
    let end = lockin_end(a.start_block, lockin_block_length);
    if end <= earlier {
        assert((earlier - end) * a.per_block_release_amount <= (later - end)
            * a.per_block_release_amount) by (nonlinear_arith)
            requires
                end <= earlier <= later,
        ;
    } else if end <= later {
        assert(0 <= (later - end) * a.per_block_release_amount) by (nonlinear_arith)
            requires
                end <= later,
        ;
    }
}

/// A grant that has just been made is on schedule: nothing is unlocked at
/// the end of its lock-in period, and nothing is released.
pub proof fn lemma_new_grant_is_on_schedule(
    total_amount: nat,
    unlock_block_length: nat,
    lockin_block_length: nat,
    tick: nat,
)
    ensures
        granted(total_amount, unlock_block_length, lockin_block_length, tick).on_schedule(
            lockin_block_length,
        ),
{
    let a = granted(total_amount, unlock_block_length, lockin_block_length, tick);
    let end = lockin_end(tick, lockin_block_length);
    assert((end - end) * a.per_block_release_amount == 0) by (nonlinear_arith);
}

/// A release that is not made at a tick before the last release keeps the
/// grant on schedule: with what it pays, the grant has released exactly
/// what its schedule has unlocked in all by the tick of the release, so that
/// no token is paid twice and none before its time.
pub proof fn lemma_release_in_time_follows_the_schedule(
    a: AllocationView,
    lockin_block_length: nat,
    tick: nat,
)
    requires
        a.on_schedule(lockin_block_length),
        a.last_released_block <= tick,
    ensures
        a.released_at(tick).on_schedule(lockin_block_length),
        a.released_at(tick).released_amount == a.unlocked_by(lockin_block_length, tick),
{
    let end = lockin_end(a.start_block, lockin_block_length);
    let last = a.last_released_block;
    let rate = a.per_block_release_amount;
    assert((tick - end) * rate == (last - end) * rate + (tick - last) * rate) by (nonlinear_arith);
    assert(0 <= (tick - last) * rate) by (nonlinear_arith)
        requires
            last <= tick,
    ;
    assert(a.accrued(tick) == (tick - last) * rate);
}

/// A new grant is paid in full by a single release once two unlock periods
/// have passed since the end of its lock-in period, and all but the
/// remainder that the rate leaves is unlocked once one has: the remainder of
/// the division of total by unlock period is not lost, it is paid last.
pub proof fn lemma_grant_unlocks_in_full(
    total_amount: nat,
    unlock_block_length: nat,
    lockin_block_length: nat,
    start: nat,
    tick: nat,
)
    requires
        0 < unlock_block_length < total_amount,
        lockin_end(start, lockin_block_length) + unlock_block_length <= tick,
    ensures
        granted(total_amount, unlock_block_length, lockin_block_length, start).releasable(tick)
            >= total_amount - total_amount % unlock_block_length,
        lockin_end(start, lockin_block_length) + 2 * unlock_block_length <= tick ==> granted(
            total_amount,
            unlock_block_length,
            lockin_block_length,
            start,
        ).releasable(tick) == total_amount,
{
    let a = granted(total_amount, unlock_block_length, lockin_block_length, start);
    let end = lockin_end(start, lockin_block_length);
    let rate = total_amount / unlock_block_length;
    let elapsed = (tick - end) as nat;
    assert(a.elapsed(tick) == elapsed);
    assert(a.accrued(tick) == elapsed * rate);
    assert(a.unreleased() == total_amount);
    assert(total_amount == unlock_block_length * rate + total_amount % unlock_block_length
        && total_amount % unlock_block_length < unlock_block_length && 1 <= rate)
        by (nonlinear_arith)
        requires
            0 < unlock_block_length < total_amount,
            rate == total_amount / unlock_block_length,
    ;
    assert(unlock_block_length * rate <= elapsed * rate) by (nonlinear_arith)
        requires
            unlock_block_length <= elapsed,
    ;
    if end + 2 * unlock_block_length <= tick {
        assert(unlock_block_length * rate + unlock_block_length <= elapsed * rate)
            by (nonlinear_arith)
            requires
                2 * unlock_block_length <= elapsed,
                1 <= rate,
        ;
    }
}

/// Where the end of the lock-in period lies beyond the last tick a counter
/// can show, the grant stays locked at every tick that a counter can show.
pub proof fn lemma_lockin_beyond_last_tick_never_ends(
    total_amount: nat,
    unlock_block_length: nat,
    lockin_block_length: nat,
    start: nat,
    tick: nat,
)
    requires
        start + lockin_block_length > u64::MAX,
        tick <= u64::MAX,
    ensures
        !granted(total_amount, unlock_block_length, lockin_block_length, start).lockin_elapsed(
            lockin_block_length,
            tick,
        ),
{
}

// A single request.

/// A release that is paid adds exactly what it pays to the released amount
/// of the caller's grant, moves the grant's last release to the tick of
/// the request, and leaves the grants of all other accounts as they were.
pub proof fn lemma_release_records_what_it_pays(c: ContractView, caller: Seq<char>, tick: nat)
    requires
        c.release_outcome(caller, tick) is Ok,
    ensures
        c.after_release(caller, tick).allocations[caller].released_amount
            == c.allocations[caller].released_amount + c.release_outcome(caller, tick).unwrap(),
        c.after_release(caller, tick).allocations[caller].last_released_block == tick,
        forall|other: Seq<char>|
            other != caller ==> {
                &&& c.after_release(caller, tick).allocations.contains_key(other)
                    == c.allocations.contains_key(other)
                &&& c.after_release(caller, tick).allocations[other] == c.allocations[other]
            },
{
}

/// Of two requests for release that an account makes at the same tick, with
/// nothing asked of the contract in between, the second pays exactly zero if
/// the first was paid, and is refused as the first was otherwise.
pub proof fn lemma_second_release_at_same_tick_pays_nothing(
    c: ContractView,
    caller: Seq<char>,
    tick: nat,
)
    ensures
        c.release_outcome(caller, tick) is Ok ==> c.after_release(caller, tick).release_outcome(
            caller,
            tick,
        ) == Ok::<nat, VestingError>(0),
        c.release_outcome(caller, tick) is Err ==> c.after_release(caller, tick).release_outcome(
            caller,
            tick,
        ) == c.release_outcome(caller, tick),
{
    if c.release_outcome(caller, tick) is Ok {
        let paid = c.allocations[caller].released_at(tick);
        assert(paid.elapsed(tick) == 0);
        assert(paid.accrued(tick) == 0) by (nonlinear_arith)
            requires
                paid.accrued(tick) == paid.elapsed(tick) * paid.per_block_release_amount,
                paid.elapsed(tick) == 0,
        ;
    }
}

/// A request for release made no later than the end of the lock-in period,
/// the tick of the grant plus the lock-in length, is refused with `Locked`
/// and changes nothing.
pub proof fn lemma_release_within_lockin_is_refused(c: ContractView, caller: Seq<char>, tick: nat)
    requires
        c.allocations.contains_key(caller),
        tick <= c.allocations[caller].start_block + c.lockin_block_length,
    ensures
        c.release_outcome(caller, tick) == Err::<nat, VestingError>(VestingError::Locked),
        c.after_release(caller, tick) == c,
{
}

/// While every account is locked, a request for release by an account with
/// a grant is refused with `Locked` and changes nothing.
pub proof fn lemma_release_under_global_lock_is_refused(
    c: ContractView,
    caller: Seq<char>,
    tick: nat,
)
    requires
        c.lock_all_accounts,
        c.allocations.contains_key(caller),
    ensures
        c.release_outcome(caller, tick) == Err::<nat, VestingError>(VestingError::Locked),
        c.after_release(caller, tick) == c,
{
}

/// The owner's request to grant a total that does not exceed the unlock
/// period, or any total when the unlock period is empty, is refused with
/// `InsufficientAmount` and changes nothing.
pub proof fn lemma_insufficient_amount_is_refused(
    c: ContractView,
    account: Seq<char>,
    total_amount: nat,
    tick: nat,
)
    requires
        total_amount <= c.unlock_block_length || c.unlock_block_length == 0,
    ensures
        c.add_allocation_outcome(c.owner, total_amount, tick) == Err::<
            AllocationView,
            VestingError,
        >(VestingError::InsufficientAmount),
        c.after_add_allocation(c.owner, account, total_amount, tick) == c,
{
}

/// Whatever anyone but the owner asks of the administrative operations,
/// granting an allocation or setting the global lock, is refused with
/// `NotOwner` and changes nothing.
pub proof fn lemma_non_owner_is_refused(
    c: ContractView,
    caller: Seq<char>,
    account: Seq<char>,
    total_amount: nat,
    tick: nat,
    lock_all_accounts: bool,
)
    requires
        caller != c.owner,
    ensures
        c.owner_check(caller) == Err::<(), VestingError>(VestingError::NotOwner),
        c.add_allocation_outcome(caller, total_amount, tick) == Err::<
            AllocationView,
            VestingError,
        >(VestingError::NotOwner),
        c.after_add_allocation(caller, account, total_amount, tick) == c,
        c.after_set_lock_all_accounts(caller, lock_all_accounts) == c,
{
}

/// Whatever is asked of the contract, every grant stays well formed and no
/// account loses its grant.
pub proof fn lemma_request_keeps_contract_well_formed(c: ContractView, request: Request)
    requires
        c.wf(),
    ensures
        after(c, request).wf(),
        forall|account: Seq<char>|
            c.allocations.contains_key(account) ==> after(c, request).allocations.contains_key(
                account,
            ),
{
    let d = after(c, request);
    assert forall|account: Seq<char>| d.allocations.contains_key(account) implies (
    #[trigger] d.allocations[account]).wf() by {
        if c.allocations.contains_key(account) {
            assert(c.allocations[account].wf());
        }
    }
}

/// A request that asks for no new allocation to `account` leaves the
/// account's grant with the same total, takes nothing back from what was
/// released, and keeps what was released within the total.
pub proof fn lemma_request_keeps_released_amount_in_bounds(
    c: ContractView,
    request: Request,
    account: Seq<char>,
)
    requires
        c.wf(),
        c.allocations.contains_key(account),
        !request.grants_to(account),
    ensures
        after(c, request).allocations.contains_key(account),
        after(c, request).allocations[account].total_amount
            == c.allocations[account].total_amount,
        c.allocations[account].released_amount <= after(
            c,
            request,
        ).allocations[account].released_amount,
        after(c, request).allocations[account].released_amount
            <= c.allocations[account].total_amount,
{
    lemma_request_keeps_contract_well_formed(c, request);
    assert(c.allocations[account].wf());
    assert(after(c, request).allocations[account].wf());
}

/// A request that is not made at a tick before `now` keeps every grant on
/// schedule, and leaves no grant with a release later than the tick of the
/// request.
pub proof fn lemma_request_in_time_keeps_grants_on_schedule(
    c: ContractView,
    request: Request,
    now: nat,
)
    requires
        all_on_schedule(c, now),
        request.tick() matches Some(tick) ==> now <= tick,
    ensures
        all_on_schedule(after(c, request), latest_tick(now, seq![request])),
{
    let d = after(c, request);
    let requests = seq![request];
    assert(requests.drop_last() =~= Seq::<Request>::empty());
    assert(requests.last() == request);
    assert(latest_tick(now, requests.drop_last()) == now);
    let then = latest_tick(now, requests);
    assert(now <= then);
    assert forall|account: Seq<char>| #[trigger] d.allocations.contains_key(account) implies {
        &&& d.allocations[account].on_schedule(d.lockin_block_length)
        &&& d.allocations[account].last_released_block == lockin_end(
            d.allocations[account].start_block,
            d.lockin_block_length,
        ) || d.allocations[account].last_released_block <= then
    } by {
        match request {
            Request::Release { caller, tick } => {
                assert(c.allocations.contains_key(account));
                if account == caller && c.release_outcome(caller, tick) is Ok {
                    lemma_release_in_time_follows_the_schedule(
                        c.allocations[caller],
                        c.lockin_block_length,
                        tick,
                    );
                }
            },
            Request::AddAllocation { caller, account: receiver, total_amount, tick } => {
                if account == receiver && c.add_allocation_outcome(caller, total_amount, tick)
                    is Ok {
                    lemma_new_grant_is_on_schedule(
                        total_amount,
                        c.unlock_block_length,
                        c.lockin_block_length,
                        tick,
                    );
                } else {
                    assert(c.allocations.contains_key(account));
                }
            },
            Request::SetLockAllAccounts { caller, lock_all_accounts } => {
                assert(c.allocations.contains_key(account));
            },
        }
    }
}

// Every state that the contract reaches.

/// Whatever is asked of the contract, the owner, the token ledger and the
/// two period lengths stay what they were.
pub proof fn lemma_owner_and_periods_never_change(c: ContractView, requests: Seq<Request>)
    ensures
        after_all(c, requests).owner == c.owner,
        after_all(c, requests).token_contract == c.token_contract,
        after_all(c, requests).lockin_block_length == c.lockin_block_length,
        after_all(c, requests).unlock_block_length == c.unlock_block_length,
    decreases requests.len(),
{
    if requests.len() > 0 {
        lemma_owner_and_periods_never_change(c, requests.drop_last());
    }
}

/// In every state that the contract reaches from a well-formed one, by
/// whatever requests, every grant is well formed: no grant shows more
/// released than granted. And no account has lost its grant on the way.
pub proof fn lemma_every_reachable_state_is_well_formed(c: ContractView, requests: Seq<Request>)
    requires
        c.wf(),
    ensures
        after_all(c, requests).wf(),
        forall|account: Seq<char>|
            c.allocations.contains_key(account) ==> after_all(
                c,
                requests,
            ).allocations.contains_key(account),
    decreases requests.len(),
{
    if requests.len() > 0 {
        lemma_every_reachable_state_is_well_formed(c, requests.drop_last());
        lemma_request_keeps_contract_well_formed(
            after_all(c, requests.drop_last()),
            requests.last(),
        );
    }
}

/// Across any sequence of requests for release, by any accounts at any
/// ticks, the released amount of a grant never decreases and never exceeds
/// the grant's total, which stays what it was. The same holds when requests
/// of the other kinds stand among them, as long as none of them asks for a
/// new allocation to the account.
pub proof fn lemma_released_amount_is_monotonic(
    c: ContractView,
    requests: Seq<Request>,
    account: Seq<char>,
)
    requires
        c.wf(),
        c.allocations.contains_key(account),
        forall|i: int| 0 <= i < requests.len() ==> !(#[trigger] requests[i]).grants_to(account),
    ensures
        after_all(c, requests).allocations.contains_key(account),
        after_all(c, requests).allocations[account].total_amount
            == c.allocations[account].total_amount,
        c.allocations[account].released_amount <= after_all(
            c,
            requests,
        ).allocations[account].released_amount,
        after_all(c, requests).allocations[account].released_amount
            <= c.allocations[account].total_amount,
    decreases requests.len(),
{
    if requests.len() > 0 {
        let earlier = requests.drop_last();
        assert forall|i: int| 0 <= i < earlier.len() implies !(#[trigger] earlier[i]).grants_to(
            account,
        ) by {
            assert(earlier[i] == requests[i]);
        }
        lemma_released_amount_is_monotonic(c, earlier, account);
        lemma_every_reachable_state_is_well_formed(c, earlier);
        assert(!requests[requests.len() - 1].grants_to(account));
        lemma_request_keeps_released_amount_in_bounds(
            after_all(c, earlier),
            requests.last(),
            account,
        );
    }
}

/// As long as time never goes back, no token is released twice and none
/// before its time: after any requests made in time order of a contract
/// whose grants are on schedule, every grant is on schedule, and has
/// released no more than its schedule has unlocked by the latest tick seen.
/// A contract without grants is such a contract.
pub proof fn lemma_grants_stay_on_schedule(c: ContractView, now: nat, requests: Seq<Request>)
    requires
        all_on_schedule(c, now),
        in_time_order(now, requests),
    ensures
        all_on_schedule(after_all(c, requests), latest_tick(now, requests)),
        forall|account: Seq<char>| #[trigger]
            after_all(c, requests).allocations.contains_key(account) ==> after_all(
                c,
                requests,
            ).allocations[account].released_amount <= after_all(
                c,
                requests,
            ).allocations[account].unlocked_by(
                c.lockin_block_length,
                latest_tick(now, requests),
            ),
    decreases requests.len(),
{
    let d = after_all(c, requests);
    let then = latest_tick(now, requests);
    if requests.len() > 0 {
        let earlier = requests.drop_last();
        let before = latest_tick(now, earlier);
        lemma_grants_stay_on_schedule(c, now, earlier);
        let last = seq![requests.last()];
        assert(last.drop_last() =~= Seq::<Request>::empty());
        assert(last.last() == requests.last());
        assert(latest_tick(before, last.drop_last()) == before);
        assert(latest_tick(before, last) == then);
        lemma_request_in_time_keeps_grants_on_schedule(
            after_all(c, earlier),
            requests.last(),
            before,
        );
    }
    lemma_owner_and_periods_never_change(c, requests);
    assert forall|account: Seq<char>| #[trigger] d.allocations.contains_key(account) implies
        d.allocations[account].released_amount <= d.allocations[account].unlocked_by(
        c.lockin_block_length,
        then,
    ) by {
        let a = d.allocations[account];
        let end = lockin_end(a.start_block, c.lockin_block_length);
        if a.last_released_block <= then {
            lemma_schedule_is_monotonic(a, c.lockin_block_length, a.last_released_block, then);
        } else {
            assert((end - end) * a.per_block_release_amount == 0) by (nonlinear_arith);
        }
    }
}

} // verus!
