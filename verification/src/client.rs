use vstd::prelude::*;
use vstd::string::StringSliceAdditionalSpecFns;
use vstd::utf8::encode_utf8;
use crate::address::{Address, Programs};
use crate::codec::{framed, le_bytes, optional, push_bool, push_framed, push_u64};
use crate::continuation::{
    operation, operation_data, readonly, sighash, writable, AccountMetaData, InstructionData,
    InstructionView,
};
use crate::error::{failure, TaskError};
use crate::schedule::Schedule;

verus! {

/// What the first payment disburses at each tick.
pub const FIRST_DISBURSEMENT: u64 = 10000;

/// What the first top-up pays into the escrow.
pub const FIRST_TOP_UP: u64 = 1000000000;

/// What the payment disburses at each tick once it is updated.
pub const UPDATED_DISBURSEMENT: u64 = 100000;

/// The position of the cron variant among the triggers that the automation
/// engine knows.
pub const CRON_TRIGGER: u8 = 1;

/// The accounts of one payment, as a driver names them.
#[derive(Clone, Copy, Debug, PartialEq, Eq)]
pub struct PaymentAccounts {
    /// Who pays for the invocations and signs them: the payment's sender.
    pub payer: Address,
    pub recipient: Address,
    pub sender_token_account: Address,
    pub recipient_token_account: Address,
    pub payment_queue: Address,
    pub payment: Address,
    pub mint: Address,
    pub escrow: Address,
}

/// The payload that creates a payment: the amount, then the schedule.
pub open spec fn create_payload(disbursement_amount: u64, schedule: Seq<char>) -> Seq<u8> {
    le_bytes(disbursement_amount as nat, 8) + framed(encode_utf8(schedule))
}

/// A cron trigger: its position, the schedule, and whether it is skippable.
pub open spec fn cron_trigger(schedule: (Seq<char>, bool)) -> Seq<u8> {
    seq![CRON_TRIGGER] + framed(encode_utf8(schedule.0)) + seq![
        if schedule.1 {
            1u8
        } else {
            0u8
        },
    ]
}

/// The payload that updates a payment: the new amount and the new
/// schedule, each only if given.
pub open spec fn update_payload(
    disbursement_amount: Option<u64>,
    schedule: Option<(Seq<char>, bool)>,
) -> Seq<u8> {
    optional(
        match disbursement_amount {
            Some(amount) => Some(le_bytes(amount as nat, 8)),
            None => None,
        },
    ) + optional(
        match schedule {
            Some(s) => Some(cron_trigger(s)),
            None => None,
        },
    )
}

/// The accounts of the operation that creates a payment.
pub open spec fn create_accounts(programs: Programs, a: PaymentAccounts) -> Seq<AccountMetaData> {
    seq![
        readonly(programs.associated_token, false),
        readonly(programs.scheduler, false),
        writable(a.escrow, false),
        readonly(a.mint, false),
        writable(a.payment, false),
        writable(a.payment_queue, false),
        readonly(a.recipient, false),
        readonly(a.recipient_token_account, false),
        readonly(programs.rent, false),
        writable(a.payer, true),
        readonly(programs.system, false),
        readonly(programs.token, false),
    ]
}

/// The accounts of the operation that tops a payment's escrow up.
pub open spec fn top_up_accounts(programs: Programs, a: PaymentAccounts) -> Seq<AccountMetaData> {
    seq![
        readonly(programs.associated_token, false),
        writable(a.escrow, false),
        writable(a.payment, false),
        readonly(a.mint, false),
        readonly(a.recipient, false),
        readonly(programs.rent, false),
        writable(a.payer, true),
        writable(a.sender_token_account, false),
        readonly(programs.system, false),
        readonly(programs.token, false),
    ]
}

/// The accounts of the operation that updates a payment.
pub open spec fn update_accounts(programs: Programs, a: PaymentAccounts) -> Seq<AccountMetaData> {
    seq![
        readonly(programs.scheduler, false),
        readonly(a.mint, false),
        writable(a.payment, false),
        writable(a.payment_queue, false),
        readonly(a.recipient, false),
        writable(a.payer, true),
        readonly(programs.system, false),
    ]
}

/// The operation that creates a payment.
pub open spec fn create_payment_view(
    programs: Programs,
    a: PaymentAccounts,
    disbursement_amount: u64,
    schedule: Seq<char>,
) -> InstructionView {
    InstructionView {
        program_id: programs.task,
        accounts: create_accounts(programs, a),
        data: operation_data(
            sighash("create_payment"@),
            create_payload(disbursement_amount, schedule),
        ),
    }
}

/// The operation that tops a payment's escrow up.
pub open spec fn top_up_payment_view(
    programs: Programs,
    a: PaymentAccounts,
    amount: u64,
) -> InstructionView {
    InstructionView {
        program_id: programs.task,
        accounts: top_up_accounts(programs, a),
        data: operation_data(sighash("top_up_payment"@), le_bytes(amount as nat, 8)),
    }
}

/// The operation that updates a payment.
pub open spec fn update_payment_view(
    programs: Programs,
    a: PaymentAccounts,
    disbursement_amount: Option<u64>,
    schedule: Option<(Seq<char>, bool)>,
) -> InstructionView {
    InstructionView {
        program_id: programs.task,
        accounts: update_accounts(programs, a),
        data: operation_data(
            sighash("update_payment"@),
            update_payload(disbursement_amount, schedule),
        ),
    }
}

/// Whether a text is short enough to be framed by a four-byte length.
pub open spec fn frameable(text: Seq<char>) -> bool {
    encode_utf8(text).len() <= u32::MAX
}

/// Builds the operation that creates a payment. A schedule too long to be
/// framed is refused.
pub fn create_payment_instruction(
    programs: &Programs,
    a: &PaymentAccounts,
    disbursement_amount: u64,
    schedule: &str,
) -> (r: Result<InstructionData, TaskError>)
    ensures
        frameable(schedule@) ==> r.is_ok(),
        !frameable(schedule@) ==> failure(r) == Some(TaskError::ArithmeticOverflow),
        r matches Ok(ix) ==> ix@ == create_payment_view(
            *programs,
            *a,
            disbursement_amount,
            schedule@,
        ),
{
    let mut payload: Vec<u8> = Vec::new();
    push_u64(&mut payload, disbursement_amount);
    match push_framed(&mut payload, schedule.as_bytes()) {
        Ok(()) => {},
        Err(e) => {
            return Err(e);
        },
    }
    assert(payload@ =~= create_payload(disbursement_amount, schedule@));
    let mut accounts: Vec<AccountMetaData> = Vec::new();
    accounts.push(AccountMetaData::new_readonly(programs.associated_token, false));
    accounts.push(AccountMetaData::new_readonly(programs.scheduler, false));
    accounts.push(AccountMetaData::new(a.escrow, false));
    accounts.push(AccountMetaData::new_readonly(a.mint, false));
    accounts.push(AccountMetaData::new(a.payment, false));
    accounts.push(AccountMetaData::new(a.payment_queue, false));
    accounts.push(AccountMetaData::new_readonly(a.recipient, false));
    accounts.push(AccountMetaData::new_readonly(a.recipient_token_account, false));
    accounts.push(AccountMetaData::new_readonly(programs.rent, false));
    accounts.push(AccountMetaData::new(a.payer, true));
    accounts.push(AccountMetaData::new_readonly(programs.system, false));
    accounts.push(AccountMetaData::new_readonly(programs.token, false));
    assert(accounts@ =~= create_accounts(*programs, *a));
    let data: Vec<u8> = operation("create_payment", &payload);
    Ok(InstructionData { program_id: programs.task, accounts, data })
}

/// Builds the operation that tops a payment's escrow up by `amount`.
pub fn top_up_payment_instruction(programs: &Programs, a: &PaymentAccounts, amount: u64) -> (ix:
    InstructionData)
    ensures
        ix@ == top_up_payment_view(*programs, *a, amount),
{
    let mut payload: Vec<u8> = Vec::new();
    push_u64(&mut payload, amount);
    assert(payload@ =~= le_bytes(amount as nat, 8));
    let mut accounts: Vec<AccountMetaData> = Vec::new();
    accounts.push(AccountMetaData::new_readonly(programs.associated_token, false));
    accounts.push(AccountMetaData::new(a.escrow, false));
    accounts.push(AccountMetaData::new(a.payment, false));
    accounts.push(AccountMetaData::new_readonly(a.mint, false));
    accounts.push(AccountMetaData::new_readonly(a.recipient, false));
    accounts.push(AccountMetaData::new_readonly(programs.rent, false));
    accounts.push(AccountMetaData::new(a.payer, true));
    accounts.push(AccountMetaData::new(a.sender_token_account, false));
    accounts.push(AccountMetaData::new_readonly(programs.system, false));
    accounts.push(AccountMetaData::new_readonly(programs.token, false));
    assert(accounts@ =~= top_up_accounts(*programs, *a));
    let data: Vec<u8> = operation("top_up_payment", &payload);
    InstructionData { program_id: programs.task, accounts, data }
}

/// Builds the operation that updates a payment's amount, its schedule, or
/// both. A schedule too long to be framed is refused.
pub fn update_payment_instruction(
    programs: &Programs,
    a: &PaymentAccounts,
    disbursement_amount: Option<u64>,
    schedule: Option<&Schedule>,
) -> (r: Result<InstructionData, TaskError>)
    ensures
        (schedule matches Some(s) ==> frameable(s.expr@)) ==> r.is_ok(),
        (schedule matches Some(s) && !frameable(s.expr@)) ==> failure(r) == Some(
            TaskError::ArithmeticOverflow,
        ),
        r matches Ok(ix) ==> ix@ == update_payment_view(
            *programs,
            *a,
            disbursement_amount,
            match schedule {
                Some(s) => Some(s@),
                None => None,
            },
        ),
{
    let mut payload: Vec<u8> = Vec::new();
    match disbursement_amount {
        Some(amount) => {
            payload.push(1u8);
            push_u64(&mut payload, amount);
        },
        None => {
            payload.push(0u8);
        },
    }
    let ghost first = payload@;
    assert(first =~= optional(
        match disbursement_amount {
            Some(amount) => Some(le_bytes(amount as nat, 8)),
            None => None,
        },
    ));
    match schedule {
        Some(s) => {
            payload.push(1u8);
            payload.push(CRON_TRIGGER);
            match push_framed(&mut payload, s.expr.as_str().as_bytes()) {
                Ok(()) => {},
                Err(e) => {
                    return Err(e);
                },
            }
            push_bool(&mut payload, s.skippable);
            assert(payload@ =~= first + optional(Some(cron_trigger(s@))));
        },
        None => {
            payload.push(0u8);
            assert(payload@ =~= first + optional(None));
        },
    }
    let mut accounts: Vec<AccountMetaData> = Vec::new();
    accounts.push(AccountMetaData::new_readonly(programs.scheduler, false));
    accounts.push(AccountMetaData::new_readonly(a.mint, false));
    accounts.push(AccountMetaData::new(a.payment, false));
    accounts.push(AccountMetaData::new(a.payment_queue, false));
    accounts.push(AccountMetaData::new_readonly(a.recipient, false));
    accounts.push(AccountMetaData::new(a.payer, true));
    accounts.push(AccountMetaData::new_readonly(programs.system, false));
    assert(accounts@ =~= update_accounts(*programs, *a));
    let data: Vec<u8> = operation("update_payment", &payload);
    Ok(InstructionData { program_id: programs.task, accounts, data })
}

/// The two operations that open a payment, in the order in which they are
/// submitted together: it is created with `FIRST_DISBURSEMENT` every fifteen
/// seconds, then topped up with `FIRST_TOP_UP`.
pub fn create_payment_with_top_up(programs: &Programs, a: &PaymentAccounts) -> (r: Result<
    Vec<InstructionData>,
    TaskError,
>)
    ensures
        r matches Ok(ixs) && ixs@.len() == 2 && ixs@[0]@ == create_payment_view(
            *programs,
            *a,
            FIRST_DISBURSEMENT,
            "*/15 * * * * * *"@,
        ) && ixs@[1]@ == top_up_payment_view(*programs, *a, FIRST_TOP_UP),
{
    proof {
        reveal_strlit("*/15 * * * * * *");
        vstd::string::is_ascii_spec_bytes("*/15 * * * * * *");
    }
    let create = match create_payment_instruction(
        programs,
        a,
        FIRST_DISBURSEMENT,
        "*/15 * * * * * *",
    ) {
        Ok(ix) => ix,
        Err(e) => {
            return Err(e);
        },
    };
    let top_up = top_up_payment_instruction(programs, a, FIRST_TOP_UP);
    let mut ixs: Vec<InstructionData> = Vec::new();
    ixs.push(create);
    ixs.push(top_up);
    Ok(ixs)
}

/// The operation that changes the payment to `UPDATED_DISBURSEMENT` every
/// twenty seconds, with missed ticks dropped.
pub fn update_payment(programs: &Programs, a: &PaymentAccounts) -> (r: Result<
    Vec<InstructionData>,
    TaskError,
>)
    ensures
        r matches Ok(ixs) && ixs@.len() == 1 && ixs@[0]@ == update_payment_view(
            *programs,
            *a,
            Some(UPDATED_DISBURSEMENT),
            Some(("*/20 * * * * * *"@, true)),
        ),
{
    proof {
        reveal_strlit("*/20 * * * * * *");
        vstd::string::is_ascii_spec_bytes("*/20 * * * * * *");
    }
    let schedule = Schedule { expr: "*/20 * * * * * *".to_owned(), skippable: true };
    let update = match update_payment_instruction(
        programs,
        a,
        Some(UPDATED_DISBURSEMENT),
        Some(&schedule),
    ) {
        Ok(ix) => ix,
        Err(e) => {
            return Err(e);
        },
    };
    let mut ixs: Vec<InstructionData> = Vec::new();
    ixs.push(update);
    Ok(ixs)
}

} // verus!
