use task_engine::address::{escrow_address, payment_address, trigger_address, Address, Programs};
use task_engine::error::TaskError;
use task_engine::payment::{Payment, Registry, Status, Termination, Tick};
use task_engine::schedule::Schedule;

fn key(fill: u8) -> Address {
    Address::new([fill; 32])
}

fn programs() -> Programs {
    Programs {
        task: key(200),
        scheduler: Address::new(clockwork_sdk::ID.to_bytes()),
        token: Address::new(anchor_spl::token::ID.to_bytes()),
        associated_token: Address::new(anchor_spl::associated_token::ID.to_bytes()),
        system: Address::new(solana_sdk::system_program::ID.to_bytes()),
        rent: Address::new(solana_sdk::sysvar::rent::ID.to_bytes()),
    }
}

fn new_payment(amount: u64) -> Payment {
    Payment::create(&programs(), &key(1), &key(2), &key(3), amount, "*/15 * * * * * *").unwrap()
}

#[test]
fn create_sets_every_field() {
    let p = new_payment(10_000);
    let ids = programs();
    assert_eq!(p.address, payment_address(&key(1), &key(2), &key(3), &ids.task).unwrap().address);
    assert_eq!(
        p.escrow,
        escrow_address(&p.address, &key(3), &ids.token, &ids.associated_token).unwrap().address
    );
    assert_eq!(
        p.trigger.address,
        trigger_address(&p.address, "payment", &ids.scheduler).unwrap().address
    );
    assert_eq!(p.trigger.authority, p.address);
    assert_eq!(p.trigger.schedule, p.schedule);
    assert!(!p.trigger.paused);
    assert_eq!((p.sender, p.recipient, p.mint), (key(1), key(2), key(3)));
    assert_eq!((p.amount, p.balance), (10_000, 0));
    assert_eq!(p.schedule, Schedule { expr: "*/15 * * * * * *".to_string(), skippable: true });
    assert_eq!(p.status, Status::Created);
    assert_eq!(p.reason, None);
}

#[test]
fn create_then_rederiving_gives_the_same_addresses() {
    let ids = programs();
    let first = new_payment(1);
    let second = new_payment(2);
    assert_eq!(first.address, second.address);
    assert_eq!(first.escrow, second.escrow);
    let escrow = anchor_spl::associated_token::get_associated_token_address(
        &anchor_lang::prelude::Pubkey::new_from_array(first.address.bytes),
        &anchor_lang::prelude::Pubkey::new_from_array(key(3).bytes),
    );
    assert_eq!(first.escrow.bytes, escrow.to_bytes());
    let other = Payment::create(&ids, &key(1), &key(2), &key(4), 1, "* * * * * *").unwrap();
    assert_ne!(other.address, first.address);
}

#[test]
fn create_refuses_a_malformed_schedule() {
    assert_eq!(
        Payment::create(&programs(), &key(1), &key(2), &key(3), 5, "whenever"),
        Err(TaskError::MalformedSchedule)
    );
}

#[test]
fn the_registry_refuses_an_occupied_address() {
    let ids = programs();
    let mut registry = Registry::new();
    assert_eq!(registry.create(&ids, &key(1), &key(2), &key(3), 5, "* * * * * *"), Ok(0));
    assert_eq!(registry.create(&ids, &key(1), &key(2), &key(4), 5, "* * * * * *"), Ok(1));
    let before = registry.clone();
    assert_eq!(
        registry.create(&ids, &key(1), &key(2), &key(3), 9, "* * * * * * *"),
        Err(TaskError::AlreadyExists)
    );
    assert_eq!(
        registry.create(&ids, &key(7), &key(2), &key(3), 9, "never"),
        Err(TaskError::MalformedSchedule)
    );
    assert_eq!(registry, before);
    assert_eq!(registry.payments.len(), 2);
    assert_eq!(registry.find(&registry.payments[1].address), Some(1));
    assert_eq!(registry.find(&key(99)), None);
}

#[test]
fn the_first_funding_makes_a_payment_funded() {
    let mut p = new_payment(10);
    let mut payer: u64 = 100;
    assert_eq!(p.fund(30, &mut payer), Ok(30));
    assert_eq!((p.status, p.balance, payer), (Status::Funded, 30, 70));
    assert_eq!(p.fund(20, &mut payer), Ok(50));
    assert_eq!((p.status, p.balance, payer), (Status::Funded, 50, 50));
    let mut recipient: u64 = 0;
    assert_eq!(p.tick(&mut recipient), Ok(Tick::Disbursed(40)));
    assert_eq!(p.fund(50, &mut payer), Ok(90));
    assert_eq!((p.status, p.balance, payer), (Status::Scheduled, 90, 0));
}

#[test]
fn funding_that_fails_changes_nothing() {
    let mut p = new_payment(10);
    let before = p.clone();
    let mut payer: u64 = 5;
    assert_eq!(p.fund(6, &mut payer), Err(TaskError::InsufficientFunding));
    assert_eq!((&p, payer), (&before, 5));
    p.balance = u64::MAX - 1;
    p.status = Status::Funded;
    let full = p.clone();
    assert_eq!(p.fund(2, &mut payer), Err(TaskError::ArithmeticOverflow));
    assert_eq!((&p, payer), (&full, 5));
    assert_eq!(p.fund(1, &mut payer), Ok(u64::MAX));
}

#[test]
fn a_tick_with_enough_escrow_disburses_exactly_one_amount() {
    let mut p = new_payment(10_000);
    let mut payer: u64 = 25_000;
    p.fund(25_000, &mut payer).unwrap();
    let mut recipient: u64 = 7;
    assert_eq!(p.tick(&mut recipient), Ok(Tick::Disbursed(15_000)));
    assert_eq!((p.balance, p.status, recipient), (15_000, Status::Scheduled, 10_007));
    assert_eq!(p.tick(&mut recipient), Ok(Tick::Disbursed(5_000)));
    assert_eq!((p.balance, p.status, recipient), (5_000, Status::Scheduled, 20_007));
    assert_eq!(p.reason, None);
}

#[test]
fn a_tick_with_too_little_escrow_terminates() {
    let mut p = new_payment(10_000);
    let mut payer: u64 = 9_999;
    p.fund(9_999, &mut payer).unwrap();
    let mut recipient: u64 = 0;
    assert_eq!(
        p.tick(&mut recipient),
        Ok(Tick::Terminated(Termination::InsufficientEscrow))
    );
    assert_eq!(p.status, Status::Terminated);
    assert_eq!(p.reason, Some(Termination::InsufficientEscrow));
    assert_eq!((p.balance, recipient), (9_999, 0));
    let after = p.clone();
    assert_eq!(p.tick(&mut recipient), Err(TaskError::NotActive));
    assert_eq!(p, after);
}

#[test]
fn a_hundred_ticks_drain_the_escrow_and_the_next_terminates() {
    let mut p = new_payment(10_000);
    let mut payer: u64 = 1_000_000;
    assert_eq!(p.fund(1_000_000, &mut payer), Ok(1_000_000));
    let mut recipient: u64 = 0;
    for n in 1..=100u64 {
        assert_eq!(p.tick(&mut recipient), Ok(Tick::Disbursed(1_000_000 - n * 10_000)));
        assert_eq!(p.status, Status::Scheduled);
    }
    assert_eq!((p.balance, recipient), (0, 1_000_000));
    assert_eq!(
        p.tick(&mut recipient),
        Ok(Tick::Terminated(Termination::InsufficientEscrow))
    );
    assert_eq!(p.status, Status::Terminated);
    assert_eq!((p.balance, recipient), (0, 1_000_000));
}

#[test]
fn a_tick_is_refused_before_funding() {
    let mut p = new_payment(10);
    let before = p.clone();
    let mut recipient: u64 = 0;
    assert_eq!(p.tick(&mut recipient), Err(TaskError::NotActive));
    assert_eq!(p, before);
}

#[test]
fn a_tick_never_overflows_the_recipient() {
    let mut p = new_payment(10);
    let mut payer: u64 = 10;
    p.fund(10, &mut payer).unwrap();
    let before = p.clone();
    let mut recipient: u64 = u64::MAX - 9;
    assert_eq!(p.tick(&mut recipient), Err(TaskError::ArithmeticOverflow));
    assert_eq!((&p, recipient), (&before, u64::MAX - 9));
}

#[test]
fn update_by_a_stranger_changes_nothing() {
    let mut p = new_payment(10_000);
    let before = p.clone();
    let schedule = Schedule::new("*/20 * * * * * *", true).unwrap();
    assert_eq!(
        p.update(&key(2), Some(100_000), Some(schedule)),
        Err(TaskError::Unauthorized)
    );
    assert_eq!(p, before);
    assert_eq!(p.update(&key(9), None, None), Err(TaskError::Unauthorized));
    assert_eq!(p, before);
}

#[test]
fn update_replaces_only_what_is_given() {
    let mut p = new_payment(10_000);
    let mut payer: u64 = 500;
    p.fund(500, &mut payer).unwrap();
    let created = p.clone();
    assert_eq!(p.update(&key(1), Some(100_000), None), Ok(()));
    assert_eq!(p.amount, 100_000);
    assert_eq!(p.schedule, created.schedule);
    let schedule = Schedule::new("*/20 * * * * * *", false).unwrap();
    assert_eq!(p.update(&key(1), None, Some(schedule.clone())), Ok(()));
    assert_eq!(p.amount, 100_000);
    assert_eq!(p.schedule, schedule);
    assert_eq!(p.update(&key(1), None, None), Ok(()));
    assert_eq!((p.balance, p.status, p.reason), (500, Status::Funded, None));
    assert_eq!((p.address, p.escrow, p.sender), (created.address, created.escrow, key(1)));
    assert_eq!((p.recipient, p.mint), (key(2), key(3)));
    assert_eq!(p.trigger.address, created.trigger.address);
    assert_eq!(p.trigger.authority, created.trigger.authority);
    assert_eq!(p.trigger.schedule, schedule);
    assert!(!p.trigger.paused);
}

#[test]
fn update_refuses_a_malformed_schedule() {
    let mut p = new_payment(10_000);
    let before = p.clone();
    let bad = Schedule { expr: "tomorrow".to_string(), skippable: true };
    assert_eq!(p.update(&key(1), Some(5), Some(bad)), Err(TaskError::MalformedSchedule));
    assert_eq!(p, before);
}

#[test]
fn only_the_authority_stops_or_pauses() {
    let mut p = new_payment(10);
    let before = p.clone();
    assert_eq!(p.stop(&key(2)), Err(TaskError::Unauthorized));
    assert_eq!(p.set_paused(&key(2), true), Err(TaskError::Unauthorized));
    assert_eq!(p, before);
    assert_eq!(p.set_paused(&key(1), true), Ok(()));
    assert!(p.trigger.paused);
    assert_eq!(p.set_paused(&key(1), false), Ok(()));
    assert_eq!(p, before);
    assert_eq!(p.stop(&key(1)), Ok(()));
    assert_eq!((p.status, p.reason), (Status::Terminated, Some(Termination::Stopped)));
    let mut recipient: u64 = 0;
    assert_eq!(p.tick(&mut recipient), Err(TaskError::NotActive));
}

#[test]
fn stopping_keeps_an_earlier_reason() {
    let mut p = new_payment(10);
    let mut payer: u64 = 1;
    p.fund(1, &mut payer).unwrap();
    let mut recipient: u64 = 0;
    p.tick(&mut recipient).unwrap();
    assert_eq!(p.stop(&key(1)), Ok(()));
    assert_eq!(p.reason, Some(Termination::InsufficientEscrow));
}
