use task_engine::address::{dataset_address, Address};
use task_engine::dataset::{
    account_size, Dataset, PriceData, GROWTH_INCREMENT, HEADER_SIZE, MAX_CAPACITY,
    MAX_REGION_SIZE, MAX_SIZE_DELTA, RECORD_SIZE,
};
use task_engine::error::TaskError;

fn key(fill: u8) -> Address {
    Address::new([fill; 32])
}

fn minimum_balance(size: usize) -> u64 {
    anchor_lang::prelude::Rent::default().minimum_balance(size)
}

fn empty_dataset(balance: u64) -> Dataset {
    Dataset { address: key(1), owner: key(2), capacity: 0, records: Vec::new(), balance }
}

#[test]
fn the_growth_increment_fills_the_size_delta() {
    assert_eq!(GROWTH_INCREMENT, 640);
    assert_eq!(GROWTH_INCREMENT * RECORD_SIZE, MAX_SIZE_DELTA);
    assert_eq!(HEADER_SIZE + MAX_CAPACITY * RECORD_SIZE, MAX_REGION_SIZE - RECORD_SIZE + 16);
    assert_eq!(
        MAX_REGION_SIZE as u64,
        anchor_lang::solana_program::system_instruction::MAX_PERMITTED_DATA_LENGTH
    );
    assert_eq!(
        MAX_SIZE_DELTA,
        anchor_lang::solana_program::entrypoint::MAX_PERMITTED_DATA_INCREASE
    );
}

#[test]
fn account_size_is_header_plus_records() {
    assert_eq!(account_size(0), Some(16));
    assert_eq!(account_size(640), Some(16 + 640 * 16));
    assert_eq!(account_size(MAX_CAPACITY), Some(MAX_REGION_SIZE));
    assert_eq!(account_size(MAX_CAPACITY + 1), None);
    assert_eq!(account_size(usize::MAX), None);
}

#[test]
fn create_derives_the_address_and_funds_the_region() {
    let (owner, program) = (key(5), key(6));
    let required = minimum_balance(account_size(10).unwrap());
    let mut payer: u64 = required + 17;
    let d = Dataset::create(&owner, 10, &program, required, &mut payer).unwrap();
    assert_eq!(d.address, dataset_address(&owner, &program).unwrap().address);
    assert_eq!(d.owner, owner);
    assert_eq!(d.capacity, 10);
    assert_eq!(d.len(), 0);
    assert_eq!(d.balance, required);
    assert_eq!(payer, 17);
}

#[test]
fn create_refuses_what_does_not_fit_or_cannot_be_funded() {
    let mut payer: u64 = 100;
    assert_eq!(
        Dataset::create(&key(5), MAX_CAPACITY + 1, &key(6), 0, &mut payer),
        Err(TaskError::CapacityOverflow)
    );
    assert_eq!(
        Dataset::create(&key(5), 0, &key(6), 101, &mut payer),
        Err(TaskError::InsufficientFunding)
    );
    assert_eq!(payer, 100);
    assert!(Dataset::create(&key(5), MAX_CAPACITY, &key(6), 100, &mut payer).is_ok());
    assert_eq!(payer, 0);
}

#[test]
fn grow_from_empty_funds_the_new_size_exactly() {
    let required = minimum_balance(account_size(640).unwrap());
    assert_eq!(required, (128 + 16 + 640 * 16) * 6960);
    let mut d = empty_dataset(0);
    let mut payer: u64 = required + 1;
    assert_eq!(d.grow(GROWTH_INCREMENT, required, &mut payer), Ok(required));
    assert_eq!(d.capacity, 640);
    assert_eq!(d.balance, required);
    assert_eq!(payer, 1);
}

#[test]
fn grow_transfers_only_the_shortfall() {
    let required = minimum_balance(account_size(640).unwrap());
    let held = minimum_balance(account_size(0).unwrap());
    let mut d = empty_dataset(held);
    let mut payer: u64 = required;
    assert_eq!(d.grow(GROWTH_INCREMENT, required, &mut payer), Ok(required - held));
    assert_eq!(d.capacity, 640);
    assert_eq!(d.balance, required);
    assert_eq!(payer, held);
}

#[test]
fn grow_leaves_a_funded_region_its_balance() {
    let mut d = empty_dataset(9_000);
    let mut payer: u64 = 5;
    assert_eq!(d.grow(3, 8_000, &mut payer), Ok(0));
    assert_eq!((d.capacity, d.balance, payer), (3, 9_000, 5));
}

#[test]
fn grow_that_cannot_be_funded_changes_nothing() {
    let mut d = empty_dataset(10);
    d.records.push(PriceData { price: 1, ts: 2 });
    d.capacity = 1;
    let before = d.clone();
    let mut payer: u64 = 89;
    assert_eq!(d.grow(640, 100, &mut payer), Err(TaskError::InsufficientFunding));
    assert_eq!(d, before);
    assert_eq!(payer, 89);
}

#[test]
fn grow_refuses_to_exceed_the_largest_region() {
    let mut d = empty_dataset(0);
    let mut payer: u64 = 1_000;
    assert_eq!(d.grow(MAX_CAPACITY + 1, 0, &mut payer), Err(TaskError::CapacityOverflow));
    assert_eq!(d.grow(usize::MAX, 0, &mut payer), Err(TaskError::CapacityOverflow));
    assert_eq!(d.grow(MAX_CAPACITY, 0, &mut payer), Ok(0));
    assert_eq!(d.capacity, MAX_CAPACITY);
    assert_eq!(d.grow(1, 0, &mut payer), Err(TaskError::CapacityOverflow));
    assert_eq!(d.grow(0, 0, &mut payer), Ok(0));
    assert_eq!(d.capacity, MAX_CAPACITY);
}

#[test]
fn capacity_never_decreases_over_many_growths() {
    let mut d = empty_dataset(0);
    let mut payer: u64 = 10_000;
    let mut last = d.capacity;
    for (increment, required) in [(640usize, 100u64), (0, 50), (640, 20_000), (1, 9_000), (640, 0)] {
        let outcome = d.grow(increment, required, &mut payer);
        assert!(d.capacity >= last);
        if outcome.is_ok() {
            assert!(d.balance >= required);
            assert_eq!(d.capacity, last + increment);
        } else {
            assert_eq!(d.capacity, last);
        }
        last = d.capacity;
    }
    assert_eq!(d.capacity, 1281);
    assert_eq!(d.balance, 9_000);
    assert_eq!(payer, 1_000);
}

#[test]
fn append_stores_until_the_buffer_is_full() {
    let mut d = empty_dataset(0);
    let record = PriceData { price: 42, ts: 1_700_000_000 };
    assert_eq!(d.append(record), Err(TaskError::BufferFull));
    let mut payer: u64 = 0;
    assert_eq!(d.grow(2, 0, &mut payer), Ok(0));
    assert_eq!(d.append(record), Ok(()));
    assert_eq!(d.append(PriceData { price: 43, ts: 1_700_000_001 }), Ok(()));
    assert_eq!(d.append(record), Err(TaskError::BufferFull));
    assert_eq!(d.len(), 2);
    assert_eq!(d.records[0], record);
    assert_eq!(d.records[1], PriceData { price: 43, ts: 1_700_000_001 });
}
