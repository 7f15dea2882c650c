use vesting::transfer::decimal_text;
use vesting::{Allocation, AllocationStore, TransferInstruction, VestingError};

#[test]
fn create_sets_the_schedule() {
    let a = Allocation::create(1000, 100, 10, 7).unwrap();
    assert_eq!(a.total_amount(), 1000);
    assert_eq!(a.released_amount(), 0);
    assert_eq!(a.start_block(), 7);
    assert_eq!(a.last_released_block(), 17);
    assert_eq!(a.per_block_release_amount(), 10);
    assert_eq!(a.unreleased_amount(), 1000);

    let b = Allocation::create(999, 100, 0, 0).unwrap();
    assert_eq!(b.per_block_release_amount(), 9);
    assert_eq!(b.last_released_block(), 0);
}

#[test]
fn create_refuses_small_totals() {
    assert_eq!(Allocation::create(100, 100, 10, 0).err(), Some(VestingError::InsufficientAmount));
    assert_eq!(Allocation::create(0, 100, 10, 0).err(), Some(VestingError::InsufficientAmount));
    assert_eq!(Allocation::create(5, 0, 10, 0).err(), Some(VestingError::InsufficientAmount));
    assert_eq!(Allocation::create(0, 0, 10, 0).err(), Some(VestingError::InsufficientAmount));
    assert!(Allocation::create(2, 1, 10, 0).is_ok());
}

#[test]
fn from_parts_checks_released_against_total() {
    assert!(Allocation::from_parts(10, 11, 0, 0, 1).is_none());
    let full = Allocation::from_parts(10, 10, 1, 2, 3).unwrap();
    assert_eq!(full.total_amount(), 10);
    assert_eq!(full.released_amount(), 10);
    assert_eq!(full.start_block(), 1);
    assert_eq!(full.last_released_block(), 2);
    assert_eq!(full.per_block_release_amount(), 3);
    assert_eq!(full.unreleased_amount(), 0);
    let part = Allocation::from_parts(10, 4, 0, 0, 0).unwrap();
    assert_eq!(part.unreleased_amount(), 6);
}

#[test]
fn lockin_is_over_strictly_after_its_length() {
    let a = Allocation::create(1000, 100, 10, 20).unwrap();
    assert!(!a.lockin_elapsed(10, 0));
    assert!(!a.lockin_elapsed(10, 20));
    assert!(!a.lockin_elapsed(10, 30));
    assert!(a.lockin_elapsed(10, 31));
    assert!(a.lockin_elapsed(0, 21));
    assert!(!a.lockin_elapsed(0, 20));
    assert!(!a.lockin_elapsed(u128::MAX, u64::MAX));
}

#[test]
fn compute_releasable_caps_at_what_is_left() {
    let a = Allocation::from_parts(1000, 400, 0, 50, 10).unwrap();
    assert_eq!(a.compute_releasable(10, 5), Err(VestingError::Locked));
    assert_eq!(a.compute_releasable(10, 10), Err(VestingError::Locked));
    assert_eq!(a.compute_releasable(10, 11), Ok(0));
    assert_eq!(a.compute_releasable(10, 50), Ok(0));
    assert_eq!(a.compute_releasable(10, 51), Ok(10));
    assert_eq!(a.compute_releasable(10, 109), Ok(590));
    assert_eq!(a.compute_releasable(10, 110), Ok(600));
    assert_eq!(a.compute_releasable(10, 200), Ok(600));
    assert_eq!(a.compute_releasable(10, u64::MAX), Ok(600));

    let zero_rate = Allocation::from_parts(1000, 0, 0, 0, 0).unwrap();
    assert_eq!(zero_rate.compute_releasable(0, 500), Ok(0));

    let huge = Allocation::from_parts(u128::MAX, 1, 0, 0, u128::MAX).unwrap();
    assert_eq!(huge.compute_releasable(0, 2), Ok(u128::MAX - 1));
    assert_eq!(huge.compute_releasable(0, 1), Ok(u128::MAX - 1));
}

#[test]
fn apply_release_records_amount_and_tick() {
    let mut a = Allocation::create(1000, 100, 10, 0).unwrap();
    a.apply_release(250, 35);
    assert_eq!(a.released_amount(), 250);
    assert_eq!(a.last_released_block(), 35);
    assert_eq!(a.total_amount(), 1000);
    assert_eq!(a.start_block(), 0);
    assert_eq!(a.per_block_release_amount(), 10);
    a.apply_release(750, 36);
    assert_eq!(a.released_amount(), 1000);
    assert_eq!(a.unreleased_amount(), 0);
    a.apply_release(0, 3);
    assert_eq!(a.released_amount(), 1000);
    assert_eq!(a.last_released_block(), 3);
}

#[test]
fn store_keeps_one_allocation_per_account() {
    let alice = "alice.near".to_string();
    let bob = "bob.near".to_string();
    let mut store = AllocationStore::new();
    assert!(!store.contains(&alice));
    assert!(store.get(&alice).is_none());

    store.upsert(alice.clone(), Allocation::create(1000, 100, 10, 0).unwrap());
    assert!(store.contains(&alice));
    assert!(!store.contains(&bob));
    assert_eq!(store.get(&alice).unwrap().total_amount(), 1000);

    store.upsert(bob.clone(), Allocation::create(500, 100, 10, 3).unwrap());
    store.upsert(alice.clone(), Allocation::create(2000, 100, 10, 9).unwrap());
    let kept = store.get(&alice).unwrap();
    assert_eq!(kept.total_amount(), 2000);
    assert_eq!(kept.start_block(), 9);
    assert_eq!(store.get(&bob).unwrap().total_amount(), 500);
}

#[test]
fn store_applies_a_release_to_the_account() {
    let alice = "alice.near".to_string();
    let bob = "bob.near".to_string();
    let mut store = AllocationStore::new();
    store.upsert(alice.clone(), Allocation::create(1000, 100, 10, 0).unwrap());
    store.upsert(bob.clone(), Allocation::create(500, 100, 10, 0).unwrap());

    assert_eq!(store.apply_release(&alice, 300, 40), Ok(()));
    let a = store.get(&alice).unwrap();
    assert_eq!(a.released_amount(), 300);
    assert_eq!(a.last_released_block(), 40);
    let b = store.get(&bob).unwrap();
    assert_eq!(b.released_amount(), 0);
    assert_eq!(b.last_released_block(), 10);

    assert_eq!(
        store.apply_release(&"carol.near".to_string(), 1, 40),
        Err(VestingError::NoAllocation)
    );
    assert!(!store.contains(&"carol.near".to_string()));
}

#[test]
fn decimal_text_writes_numbers() {
    assert_eq!(decimal_text(0), "0");
    assert_eq!(decimal_text(7), "7");
    assert_eq!(decimal_text(9), "9");
    assert_eq!(decimal_text(10), "10");
    assert_eq!(decimal_text(400), "400");
    assert_eq!(decimal_text(1234567890), "1234567890");
    assert_eq!(decimal_text(u128::MAX), "340282366920938463463374607431768211455");
}

#[test]
fn transfer_arguments_name_receiver_and_amount() {
    let transfer = TransferInstruction {
        token_contract: "token.near".to_string(),
        receiver: "alice.near".to_string(),
        amount: 400,
    };
    assert_eq!(transfer.arguments(), "{\"receiver\":\"alice.near\", \"amount\":\"400\"}");
    let nothing = TransferInstruction {
        token_contract: "token.near".to_string(),
        receiver: String::new(),
        amount: 0,
    };
    assert_eq!(nothing.arguments(), "{\"receiver\":\"\", \"amount\":\"0\"}");
}
