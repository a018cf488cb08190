use vstd::prelude::*;
use crate::error::TaskError;

verus! {

/// What a payer must add so that an account holding `balance` reaches `required`.
pub open spec fn shortfall(balance: u64, required: u64) -> int {
    if balance < required {
        required - balance
    } else {
        0
    }
}

/// Moves `amount` from one balance to another, or refuses and moves nothing.
pub fn transfer(from: &mut u64, to: &mut u64, amount: u64) -> (r: Result<(), TaskError>)
    ensures
        *old(from) < amount ==> r == Err::<(), TaskError>(TaskError::InsufficientFunding),
        *old(from) >= amount && *old(to) + amount > u64::MAX ==> r == Err::<(), TaskError>(
            TaskError::ArithmeticOverflow,
        ),
        *old(from) >= amount && *old(to) + amount <= u64::MAX ==> r.is_ok(),
        r.is_ok() ==> *final(from) == *old(from) - amount && *final(to) == *old(to) + amount,
        r.is_err() ==> *final(from) == *old(from) && *final(to) == *old(to),
{
    if *from < amount {
        return Err(TaskError::InsufficientFunding);
    }
    if amount > u64::MAX - *to {
        return Err(TaskError::ArithmeticOverflow);
    }
    *from = *from - amount;
    *to = *to + amount;
    Ok(())
}

/// Tops `account` up to `required_minimum` out of `payer`, moving exactly the
/// shortfall and nothing when the account is already funded. Returns what
/// was moved. A payer that cannot cover the shortfall leaves both untouched.
pub fn ensure_funded(account: &mut u64, required_minimum: u64, payer: &mut u64) -> (r: Result<
    u64,
    TaskError,
>)
    ensures
        *old(payer) < shortfall(*old(account), required_minimum) ==> r == Err::<u64, TaskError>(
            TaskError::InsufficientFunding,
        ),
        *old(payer) >= shortfall(*old(account), required_minimum) ==> r == Ok::<u64, TaskError>(
            shortfall(*old(account), required_minimum) as u64,
        ),
        r.is_ok() ==> *final(account) == *old(account) + shortfall(*old(account), required_minimum)
            && *final(payer) == *old(payer) - shortfall(*old(account), required_minimum)
            && *final(account) >= required_minimum,
        r.is_err() ==> *final(account) == *old(account) && *final(payer) == *old(payer),
{
    if *account >= required_minimum {
        return Ok(0);
    }
    let missing: u64 = required_minimum - *account;
    if *payer < missing {
        return Err(TaskError::InsufficientFunding);
    }
    *payer = *payer - missing;
    *account = required_minimum;
    Ok(missing)
}

/// Releases `amount` from `escrow` to `recipient` and returns the escrow's
/// new balance. An escrow that holds less than `amount` releases nothing.
pub fn disburse(escrow: &mut u64, recipient: &mut u64, amount: u64) -> (r: Result<u64, TaskError>)
    ensures
        *old(escrow) < amount ==> r == Err::<u64, TaskError>(TaskError::InsufficientEscrow),
        *old(escrow) >= amount && *old(recipient) + amount > u64::MAX ==> r == Err::<
            u64,
            TaskError,
        >(TaskError::ArithmeticOverflow),
        *old(escrow) >= amount && *old(recipient) + amount <= u64::MAX ==> r == Ok::<
            u64,
            TaskError,
        >((*old(escrow) - amount) as u64),
        r.is_ok() ==> *final(escrow) == *old(escrow) - amount
            && *final(recipient) == *old(recipient) + amount,
        r.is_err() ==> *final(escrow) == *old(escrow) && *final(recipient) == *old(recipient),
{
    if *escrow < amount {
        return Err(TaskError::InsufficientEscrow);
    }
    if amount > u64::MAX - *recipient {
        return Err(TaskError::ArithmeticOverflow);
    }
    *escrow = *escrow - amount;
    *recipient = *recipient + amount;
    Ok(*escrow)
}

} // verus!
