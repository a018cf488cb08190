use task_engine::error::TaskError;
use task_engine::ledger::{disburse, ensure_funded, transfer};

#[test]
fn ensure_funded_moves_exactly_the_shortfall() {
    let mut account: u64 = 300;
    let mut payer: u64 = 5_000;
    assert_eq!(ensure_funded(&mut account, 1_000, &mut payer), Ok(700));
    assert_eq!(account, 1_000);
    assert_eq!(payer, 4_300);
}

#[test]
fn ensure_funded_is_a_no_op_when_funded() {
    let mut account: u64 = 1_000;
    let mut payer: u64 = 50;
    assert_eq!(ensure_funded(&mut account, 1_000, &mut payer), Ok(0));
    assert_eq!((account, payer), (1_000, 50));
    let mut rich: u64 = 2_000;
    assert_eq!(ensure_funded(&mut rich, 1_000, &mut payer), Ok(0));
    assert_eq!((rich, payer), (2_000, 50));
}

#[test]
fn ensure_funded_refuses_a_payer_that_cannot_cover() {
    let mut account: u64 = 300;
    let mut payer: u64 = 699;
    assert_eq!(
        ensure_funded(&mut account, 1_000, &mut payer),
        Err(TaskError::InsufficientFunding)
    );
    assert_eq!((account, payer), (300, 699));
}

#[test]
fn ensure_funded_takes_the_whole_payer_when_it_just_covers() {
    let mut account: u64 = 0;
    let mut payer: u64 = u64::MAX;
    assert_eq!(ensure_funded(&mut account, u64::MAX, &mut payer), Ok(u64::MAX));
    assert_eq!((account, payer), (u64::MAX, 0));
}

#[test]
fn disburse_moves_the_amount_and_returns_the_new_balance() {
    let mut escrow: u64 = 25_000;
    let mut recipient: u64 = 1;
    assert_eq!(disburse(&mut escrow, &mut recipient, 10_000), Ok(15_000));
    assert_eq!((escrow, recipient), (15_000, 10_001));
}

#[test]
fn disburse_refuses_an_escrow_that_is_short() {
    let mut escrow: u64 = 9_999;
    let mut recipient: u64 = 0;
    assert_eq!(
        disburse(&mut escrow, &mut recipient, 10_000),
        Err(TaskError::InsufficientEscrow)
    );
    assert_eq!((escrow, recipient), (9_999, 0));
}

#[test]
fn disburse_refuses_to_overflow_the_recipient() {
    let mut escrow: u64 = 10;
    let mut recipient: u64 = u64::MAX - 4;
    assert_eq!(
        disburse(&mut escrow, &mut recipient, 5),
        Err(TaskError::ArithmeticOverflow)
    );
    assert_eq!((escrow, recipient), (10, u64::MAX - 4));
    assert_eq!(disburse(&mut escrow, &mut recipient, 4), Ok(6));
    assert_eq!(recipient, u64::MAX);
}

#[test]
fn transfer_moves_or_refuses() {
    let mut from: u64 = 10;
    let mut to: u64 = 1;
    assert_eq!(transfer(&mut from, &mut to, 11), Err(TaskError::InsufficientFunding));
    assert_eq!((from, to), (10, 1));
    assert_eq!(transfer(&mut from, &mut to, 10), Ok(()));
    assert_eq!((from, to), (0, 11));
    let mut full: u64 = u64::MAX;
    let mut one: u64 = 1;
    assert_eq!(transfer(&mut one, &mut full, 1), Err(TaskError::ArithmeticOverflow));
    assert_eq!((one, full), (1, u64::MAX));
}

#[test]
fn each_error_has_its_reason() {
    assert_eq!(TaskError::AlreadyExists.reason(), "AlreadyExists");
    assert_eq!(TaskError::Unauthorized.reason(), "Unauthorized");
    assert_eq!(TaskError::InsufficientEscrow.reason(), "InsufficientEscrow");
    assert_eq!(TaskError::InsufficientFunding.reason(), "InsufficientFunding");
    assert_eq!(TaskError::CapacityOverflow.reason(), "CapacityOverflow");
    assert_eq!(TaskError::BufferFull.reason(), "BufferFull");
    assert_eq!(TaskError::ArithmeticOverflow.reason(), "ArithmeticOverflow");
    assert_eq!(TaskError::MalformedSchedule.reason(), "MalformedSchedule");
    assert_eq!(TaskError::MalformedSeed.reason(), "MalformedSeed");
    assert_eq!(TaskError::NoViableAddress.reason(), "NoViableAddress");
    assert_eq!(TaskError::NotActive.reason(), "NotActive");
}
