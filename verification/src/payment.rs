use vstd::prelude::*;
use vstd::utf8::encode_utf8;
use crate::address::{
    derivation, derived_view, escrow_address, escrow_seeds, names, payment_address,
    payment_seeds, program_address, resolved, trigger_address, trigger_seeds, Address, Derived,
    Programs,
};
use crate::error::{failure, TaskError};
use crate::ledger::{disburse, transfer};
use crate::schedule::{schedule_ok, Schedule};

verus! {

/// Where a payment stands in its life.
#[derive(Clone, Copy, Debug, PartialEq, Eq, Structural)]
pub enum Status {
    /// The record and its escrow exist; nothing was paid in yet.
    Created,
    /// The escrow was funded; no tick has fired since the record was made.
    Funded,
    /// Ticks fire as the schedule says.
    Scheduled,
    /// No tick will disburse again.
    Terminated,
}

/// Why a payment was terminated.
#[derive(Clone, Copy, Debug, PartialEq, Eq, Structural)]
pub enum Termination {
    /// A tick found less in the escrow than one disbursement.
    InsufficientEscrow,
    /// The authority stopped the payment.
    Stopped,
}

/// What a tick did.
#[derive(Clone, Copy, Debug, PartialEq, Eq, Structural)]
pub enum Tick {
    /// One disbursement was released; the escrow now holds this much.
    Disbursed(u64),
    /// Nothing was released and the payment was terminated.
    Terminated(Termination),
}

/// The automation engine's record that binds a task to its schedule.
#[derive(Clone, Debug, PartialEq, Eq)]
pub struct TriggerHandle {
    pub address: Address,
    /// The record on whose behalf the engine fires.
    pub authority: Address,
    /// When the engine fires: the task's own schedule.
    pub schedule: Schedule,
    /// While paused, the engine submits no tick.
    pub paused: bool,
}

/// A recurring obligation to move value from a sender's escrow to a
/// recipient under a schedule.
#[derive(Clone, Debug, PartialEq, Eq)]
pub struct Payment {
    pub address: Address,
    /// The address of the escrow held for this payment.
    pub escrow: Address,
    /// Who created the payment, and alone may update or stop it.
    pub sender: Address,
    pub recipient: Address,
    /// The kind of value that is paid.
    pub mint: Address,
    /// What each tick disburses.
    pub amount: u64,
    /// What the escrow holds.
    pub balance: u64,
    pub schedule: Schedule,
    pub status: Status,
    /// Why the payment was terminated, once it is.
    pub reason: Option<Termination>,
    pub trigger: TriggerHandle,
}

/// The label under which a payment keeps its trigger handle.
pub open spec fn trigger_label() -> Seq<u8> {
    encode_utf8("payment"@)
}

/// The fields that are fixed when a payment is created.
pub open spec fn same_identity(a: Payment, b: Payment) -> bool {
    &&& a.address == b.address
    &&& a.escrow == b.escrow
    &&& a.sender == b.sender
    &&& a.recipient == b.recipient
    &&& a.mint == b.mint
    &&& a.trigger.address == b.trigger.address
    &&& a.trigger.authority == b.trigger.authority
}

/// Why creating a payment fails, if it does, before the ledger is asked
/// whether the address is free.
pub open spec fn create_failure(
    programs: Programs,
    sender: Address,
    recipient: Address,
    mint: Address,
    expr: Seq<char>,
) -> Option<TaskError> {
    if !schedule_ok(expr) {
        Some(TaskError::MalformedSchedule)
    } else {
        match program_address(payment_seeds(sender@, recipient@, mint@), programs.task@) {
            None => Some(TaskError::NoViableAddress),
            Some(payment) => match program_address(
                escrow_seeds(payment.0, programs.token@, mint@),
                programs.associated_token@,
            ) {
                None => Some(TaskError::NoViableAddress),
                Some(_) => match derivation(
                    trigger_seeds(payment.0, trigger_label()),
                    programs.scheduler@,
                ) {
                    Err(e) => Some(e),
                    Ok(_) => None,
                },
            },
        }
    }
}

/// A payment as `create` leaves it.
pub open spec fn fresh(
    p: Payment,
    programs: Programs,
    sender: Address,
    recipient: Address,
    mint: Address,
    amount: u64,
    expr: Seq<char>,
) -> bool {
    &&& names(p.address, payment_seeds(sender@, recipient@, mint@), programs.task@)
    &&& names(
        p.escrow,
        escrow_seeds(p.address@, programs.token@, mint@),
        programs.associated_token@,
    )
    &&& derivation(trigger_seeds(p.address@, trigger_label()), programs.scheduler@) matches Ok(
        found,
    ) && found.0 == p.trigger.address@
    &&& p.trigger.authority == p.address
    &&& p.trigger.schedule == p.schedule
    &&& !p.trigger.paused
    &&& p.sender == sender
    &&& p.recipient == recipient
    &&& p.mint == mint
    &&& p.amount == amount
    &&& p.balance == 0
    &&& p.schedule.expr@ == expr
    &&& p.schedule.skippable
    &&& p.status == Status::Created
    &&& p.reason.is_none()
}

/// What funding returns: the escrow's new balance, or why it was refused.
pub open spec fn fund_outcome(balance: u64, amount: u64, payer: u64) -> Result<u64, TaskError> {
    if payer < amount {
        Err(TaskError::InsufficientFunding)
    } else if balance + amount > u64::MAX {
        Err(TaskError::ArithmeticOverflow)
    } else {
        Ok((balance + amount) as u64)
    }
}

/// The states in which a payment takes ticks.
pub open spec fn active(status: Status) -> bool {
    status == Status::Funded || status == Status::Scheduled
}

/// What a tick returns.
pub open spec fn tick_outcome(status: Status, balance: u64, amount: u64, recipient: u64) -> Result<
    Tick,
    TaskError,
> {
    if !active(status) {
        Err(TaskError::NotActive)
    } else if balance < amount {
        Ok(Tick::Terminated(Termination::InsufficientEscrow))
    } else if recipient + amount > u64::MAX {
        Err(TaskError::ArithmeticOverflow)
    } else {
        Ok(Tick::Disbursed((balance - amount) as u64))
    }
}

/// Why an update fails, if it does.
pub open spec fn update_failure(
    sender: Address,
    caller: Address,
    new_schedule: Option<Schedule>,
) -> Option<TaskError> {
    if caller != sender {
        Some(TaskError::Unauthorized)
    } else if new_schedule matches Some(s) && !s.wf() {
        Some(TaskError::MalformedSchedule)
    } else {
        None
    }
}

impl Payment {
    /// The schedule is a cron expression and the trigger handle is bound to
    /// it, a reason is recorded exactly when the payment is terminated, and
    /// nothing is held before the first funding.
    pub open spec fn wf(&self) -> bool {
        &&& self.schedule.wf()
        &&& self.trigger.schedule == self.schedule
        &&& self.status == Status::Terminated <==> self.reason.is_some()
        &&& self.status == Status::Created ==> self.balance == 0
    }

    /// Creates the payment from `sender` to `recipient` in `mint` at its
    /// derived address, with an empty escrow and a trigger handle bound to
    /// the schedule `expr`, whose missed ticks are dropped.
    pub fn create(
        programs: &Programs,
        sender: &Address,
        recipient: &Address,
        mint: &Address,
        amount: u64,
        expr: &str,
    ) -> (r: Result<Payment, TaskError>)
        ensures
            failure(r) == create_failure(*programs, *sender, *recipient, *mint, expr@),
            r matches Ok(p) ==> p.wf() && fresh(
                p,
                *programs,
                *sender,
                *recipient,
                *mint,
                amount,
                expr@,
            ),
    {
        let schedule = match Schedule::new(expr, true) {
            Ok(schedule) => schedule,
            Err(e) => {
                return Err(e);
            },
        };
        let address = match payment_address(sender, recipient, mint, &programs.task) {
            Ok(derived) => derived.address,
            Err(e) => {
                return Err(e);
            },
        };
        let escrow = match escrow_address(
            &address,
            mint,
            &programs.token,
            &programs.associated_token,
        ) {
            Ok(derived) => derived.address,
            Err(e) => {
                return Err(e);
            },
        };
        let handle = match trigger_address(&address, "payment", &programs.scheduler) {
            Ok(derived) => derived.address,
            Err(e) => {
                return Err(e);
            },
        };
        let bound = schedule.duplicate();
        Ok(
            Payment {
                address,
                escrow,
                sender: *sender,
                recipient: *recipient,
                mint: *mint,
                amount,
                balance: 0,
                schedule,
                status: Status::Created,
                reason: None,
                trigger: TriggerHandle {
                    address: handle,
                    authority: address,
                    schedule: bound,
                    paused: false,
                },
            },
        )
    }

    /// Pays `amount` from `payer` into the escrow and returns the escrow's
    /// new balance. The first funding makes a created payment funded; a
    /// later one only adds to the balance.
    pub fn fund(&mut self, amount: u64, payer: &mut u64) -> (r: Result<u64, TaskError>)
        ensures
            r == fund_outcome(old(self).balance, amount, *old(payer)),
            r.is_ok() ==> {
                &&& final(self).balance == old(self).balance + amount
                &&& *final(payer) == *old(payer) - amount
                &&& final(self).status == if old(self).status == Status::Created {
                    Status::Funded
                } else {
                    old(self).status
                }
            },
            r.is_err() ==> *final(self) == *old(self) && *final(payer) == *old(payer),
            same_identity(*old(self), *final(self)),
            final(self).amount == old(self).amount,
            final(self).schedule == old(self).schedule,
            final(self).reason == old(self).reason,
            final(self).trigger == old(self).trigger,
            old(self).wf() ==> final(self).wf(),
    {
        let mut balance: u64 = self.balance;
        match transfer(payer, &mut balance, amount) {
            Ok(()) => {},
            Err(e) => {
                return Err(e);
            },
        }
        self.balance = balance;
        if self.status == Status::Created {
            self.status = Status::Funded;
        }
        Ok(balance)
    }

    /// One scheduled invocation: releases one disbursement from the escrow
    /// to `recipient`, or, where the escrow holds less than that, releases
    /// nothing and terminates the payment with the reason recorded.
    pub fn tick(&mut self, recipient: &mut u64) -> (r: Result<Tick, TaskError>)
        ensures
            r == tick_outcome(
                old(self).status,
                old(self).balance,
                old(self).amount,
                *old(recipient),
            ),
            active(old(self).status) && old(self).balance >= old(self).amount
                && *old(recipient) + old(self).amount <= u64::MAX ==> {
                &&& final(self).balance == old(self).balance - old(self).amount
                &&& final(self).status == Status::Scheduled
            },
            active(old(self).status) && old(self).balance < old(self).amount ==> {
                &&& final(self).balance == old(self).balance
                &&& final(self).status == Status::Terminated
            },
            r matches Ok(Tick::Disbursed(left)) ==> {
                &&& final(self).balance == old(self).balance - old(self).amount
                &&& left == final(self).balance
                &&& final(self).status == Status::Scheduled
                &&& final(self).reason == old(self).reason
                &&& *final(recipient) == *old(recipient) + old(self).amount
            },
            r matches Ok(Tick::Terminated(why)) ==> {
                &&& final(self).balance == old(self).balance
                &&& final(self).status == Status::Terminated
                &&& final(self).reason == Some(why)
                &&& *final(recipient) == *old(recipient)
            },
            r.is_err() ==> *final(self) == *old(self) && *final(recipient) == *old(recipient),
            same_identity(*old(self), *final(self)),
            final(self).amount == old(self).amount,
            final(self).schedule == old(self).schedule,
            final(self).trigger == old(self).trigger,
            old(self).wf() ==> final(self).wf(),
    {
        if self.status != Status::Funded && self.status != Status::Scheduled {
            return Err(TaskError::NotActive);
        }
        if self.balance < self.amount {
            self.status = Status::Terminated;
            self.reason = Some(Termination::InsufficientEscrow);
            return Ok(Tick::Terminated(Termination::InsufficientEscrow));
        }
        let mut balance: u64 = self.balance;
        match disburse(&mut balance, recipient, self.amount) {
            Ok(_) => {},
            Err(e) => {
                return Err(e);
            },
        }
        self.balance = balance;
        self.status = Status::Scheduled;
        Ok(Tick::Disbursed(balance))
    }

    /// Replaces the disbursement amount, the schedule, or both, for the
    /// payment's authority and nobody else. Fields that are not given stay.
    pub fn update(
        &mut self,
        caller: &Address,
        new_amount: Option<u64>,
        new_schedule: Option<Schedule>,
    ) -> (r: Result<(), TaskError>)
        ensures
            failure(r) == update_failure(old(self).sender, *caller, new_schedule),
            *caller != old(self).sender ==> r == Err::<(), TaskError>(TaskError::Unauthorized)
                && *final(self) == *old(self),
            r.is_ok() ==> {
                &&& final(self).amount == match new_amount {
                    Some(amount) => amount,
                    None => old(self).amount,
                }
                &&& final(self).schedule == match new_schedule {
                    Some(schedule) => schedule,
                    None => old(self).schedule,
                }
                &&& final(self).trigger.schedule == match new_schedule {
                    Some(schedule) => schedule,
                    None => old(self).trigger.schedule,
                }
            },
            r.is_err() ==> *final(self) == *old(self),
            same_identity(*old(self), *final(self)),
            final(self).balance == old(self).balance,
            final(self).status == old(self).status,
            final(self).reason == old(self).reason,
            final(self).trigger.paused == old(self).trigger.paused,
            old(self).wf() ==> final(self).wf(),
    {
        if !caller.same_as(&self.sender) {
            return Err(TaskError::Unauthorized);
        }
        match new_schedule {
            Some(schedule) => {
                if !schedule.is_well_formed() {
                    return Err(TaskError::MalformedSchedule);
                }
                self.trigger.schedule = schedule.duplicate();
                self.schedule = schedule;
            },
            None => {},
        }
        match new_amount {
            Some(amount) => {
                self.amount = amount;
            },
            None => {},
        }
        Ok(())
    }

    /// Terminates the payment for its authority and nobody else. A payment
    /// that is already terminated keeps its reason.
    pub fn stop(&mut self, caller: &Address) -> (r: Result<(), TaskError>)
        ensures
            *caller != old(self).sender ==> r == Err::<(), TaskError>(TaskError::Unauthorized),
            *caller == old(self).sender ==> r.is_ok(),
            r.is_ok() ==> {
                &&& final(self).status == Status::Terminated
                &&& final(self).reason == match old(self).reason {
                    Some(why) => Some(why),
                    None => Some(Termination::Stopped),
                }
            },
            r.is_err() ==> *final(self) == *old(self),
            same_identity(*old(self), *final(self)),
            final(self).amount == old(self).amount,
            final(self).balance == old(self).balance,
            final(self).schedule == old(self).schedule,
            final(self).trigger == old(self).trigger,
    {
        if !caller.same_as(&self.sender) {
            return Err(TaskError::Unauthorized);
        }
        self.status = Status::Terminated;
        if self.reason.is_none() {
            self.reason = Some(Termination::Stopped);
        }
        Ok(())
    }

    /// Pauses or resumes the trigger handle for the payment's authority and
    /// nobody else.
    pub fn set_paused(&mut self, caller: &Address, paused: bool) -> (r: Result<(), TaskError>)
        ensures
            *caller != old(self).sender ==> r == Err::<(), TaskError>(TaskError::Unauthorized),
            *caller == old(self).sender ==> r.is_ok(),
            r.is_ok() ==> final(self).trigger.paused == paused,
            final(self).trigger.schedule == old(self).trigger.schedule,
            r.is_err() ==> *final(self) == *old(self),
            same_identity(*old(self), *final(self)),
            final(self).amount == old(self).amount,
            final(self).balance == old(self).balance,
            final(self).schedule == old(self).schedule,
            final(self).status == old(self).status,
            final(self).reason == old(self).reason,
    {
        if !caller.same_as(&self.sender) {
            return Err(TaskError::Unauthorized);
        }
        self.trigger.paused = paused;
        Ok(())
    }
}

/// The payments that the ledger holds, each at its own address.
#[derive(Clone, Debug, PartialEq, Eq)]
pub struct Registry {
    pub payments: Vec<Payment>,
}

/// The address at which a payment between these parties is created.
pub open spec fn created_at(
    programs: Programs,
    sender: Address,
    recipient: Address,
    mint: Address,
) -> Seq<u8> {
    program_address(payment_seeds(sender@, recipient@, mint@), programs.task@).unwrap().0
}

impl Registry {
    /// Whether a payment is held at `address`.
    pub open spec fn occupied(&self, address: Seq<u8>) -> bool {
        exists|i: int| 0 <= i < self.payments@.len() && (#[trigger] self.payments@[i]).address@ == address
    }

    /// No two payments share an address.
    pub open spec fn wf(&self) -> bool {
        forall|i: int, j: int|
            0 <= i < j < self.payments@.len() ==> (#[trigger] self.payments@[i]).address@ != (
            #[trigger] self.payments@[j]).address@
    }

    /// Why registering a payment fails, if it does.
    pub open spec fn create_failure(
        &self,
        programs: Programs,
        sender: Address,
        recipient: Address,
        mint: Address,
        expr: Seq<char>,
    ) -> Option<TaskError> {
        match create_failure(programs, sender, recipient, mint, expr) {
            Some(e) => Some(e),
            None => if self.occupied(created_at(programs, sender, recipient, mint)) {
                Some(TaskError::AlreadyExists)
            } else {
                None
            },
        }
    }

    /// A ledger that holds no payment.
    pub fn new() -> (registry: Registry)
        ensures
            registry.payments@.len() == 0,
            registry.wf(),
    {
        Registry { payments: Vec::new() }
    }

    /// Where the payment at `address` is held, if one is.
    pub fn find(&self, address: &Address) -> (found: Option<usize>)
        ensures
            found.is_some() == self.occupied(address@),
            found matches Some(i) ==> {
                &&& i < self.payments@.len()
                &&& self.payments@[i as int].address == *address
                &&& forall|j: int| 0 <= j < i ==> (#[trigger] self.payments@[j]).address != *address
            },
    {
        let mut i: usize = 0;
        while i < self.payments.len()
            invariant
                i <= self.payments@.len(),
                forall|j: int| 0 <= j < i ==> (#[trigger] self.payments@[j]).address@ != address@,
            decreases self.payments@.len() - i,
        {
            if self.payments[i].address.same_as(address) {
                return Some(i);
            }
            i = i + 1;
        }
        None
    }

    /// Creates a payment as `Payment::create` does and holds it, unless its
    /// address is taken. Returns where the payment is held.
    pub fn create(
        &mut self,
        programs: &Programs,
        sender: &Address,
        recipient: &Address,
        mint: &Address,
        amount: u64,
        expr: &str,
    ) -> (r: Result<usize, TaskError>)
        ensures
            failure(r) == old(self).create_failure(*programs, *sender, *recipient, *mint, expr@),
            r matches Ok(i) ==> {
                &&& i == old(self).payments@.len()
                &&& final(self).payments@ == old(self).payments@.push(final(self).payments@[i as int])
                &&& final(self).payments@[i as int].wf()
                &&& fresh(
                    final(self).payments@[i as int],
                    *programs,
                    *sender,
                    *recipient,
                    *mint,
                    amount,
                    expr@,
                )
            },
            r.is_err() ==> *final(self) == *old(self),
            old(self).wf() ==> final(self).wf(),
    {
        let payment = match Payment::create(programs, sender, recipient, mint, amount, expr) {
            Ok(payment) => payment,
            Err(e) => {
                return Err(e);
            },
        };
        if self.find(&payment.address).is_some() {
            return Err(TaskError::AlreadyExists);
        }
        let at: usize = self.payments.len();
        self.payments.push(payment);
        Ok(at)
    }
}

/// A payment that was just created stands at the addresses that its
/// identifying fields derive again: the record under the task program, the
/// escrow under the program that owns escrows.
pub proof fn lemma_created_addresses_rederive(
    p: Payment,
    programs: Programs,
    sender: Address,
    recipient: Address,
    mint: Address,
    amount: u64,
    expr: Seq<char>,
    record: Result<Derived, TaskError>,
    escrow: Result<Derived, TaskError>,
)
    requires
        fresh(p, programs, sender, recipient, mint, amount, expr),
        derived_view(record) == resolved(
            program_address(payment_seeds(sender@, recipient@, mint@), programs.task@),
        ),
        derived_view(escrow) == resolved(
            program_address(
                escrow_seeds(p.address@, programs.token@, mint@),
                programs.associated_token@,
            ),
        ),
    ensures
        record matches Ok(d) && d.address == p.address,
        escrow matches Ok(d) && d.address == p.escrow,
{
    assert(record.unwrap().address.bytes =~= p.address.bytes);
    assert(escrow.unwrap().address.bytes =~= p.escrow.bytes);
}

} // verus!
