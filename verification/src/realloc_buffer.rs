use vstd::prelude::*;
use vstd::utf8::encode_utf8;
use crate::address::{
    dataset_address, dataset_seeds, derivation, names, stat_address, stat_seeds,
    trigger_address, trigger_seeds, Address, Programs,
};
use crate::continuation::{
    operation, readonly, sighash, writable, AccountMetaData, InstructionData, InstructionView,
    ThreadResponse,
};
use crate::dataset::{account_size, fits, grew, grow_outcome, region_size, Dataset, GROWTH_INCREMENT};
use crate::error::{failure, TaskError};
use crate::ledger::shortfall;

verus! {

/// The configuration of one statistic: which price feed it follows, for
/// whom, over which window, and how many records its dataset has room for.
#[derive(Clone, Copy, Debug, PartialEq, Eq)]
pub struct Stat {
    pub address: Address,
    pub price_feed: Address,
    pub authority: Address,
    pub lookback_window: i64,
    pub buffer_size: usize,
}

/// The account that pays for a growth.
#[derive(Clone, Copy, Debug, PartialEq, Eq)]
pub struct Payer {
    pub address: Address,
    pub lamports: u64,
    pub is_signer: bool,
    pub is_writable: bool,
}

/// The automation engine's thread that submits the invocation.
#[derive(Clone, Debug, PartialEq, Eq)]
pub struct Thread {
    pub address: Address,
    pub authority: Address,
    /// The label under which the authority keeps the thread.
    pub id: String,
    pub is_signer: bool,
}

/// The accounts named by an invocation that grows a dataset's buffer.
#[derive(Clone, Debug, PartialEq, Eq)]
pub struct ReallocBuffer {
    pub dataset: Dataset,
    pub stat: Stat,
    pub payer: Payer,
    pub system_program: Address,
    pub thread: Thread,
}

impl ReallocBuffer {
    /// Every account is the one its role calls for: the dataset and the stat
    /// stand at the addresses derived from their seeds and agree on the
    /// capacity, the payer signs and can be debited, the system program is
    /// the ledger's, and the thread signs, belongs to the stat's authority
    /// and stands at the address derived from its authority and label.
    pub open spec fn valid(&self, programs: Programs) -> bool {
        &&& names(self.dataset.address, dataset_seeds(self.stat.address@), programs.task@)
        &&& names(
            self.stat.address,
            stat_seeds(self.stat.price_feed@, self.stat.authority@, self.stat.lookback_window),
            programs.task@,
        )
        &&& self.dataset.capacity == self.stat.buffer_size
        &&& self.payer.is_signer
        &&& self.payer.is_writable
        &&& self.system_program == programs.system
        &&& self.thread.authority == self.stat.authority
        &&& derivation(
            trigger_seeds(self.thread.authority@, encode_utf8(self.thread.id@)),
            programs.scheduler@,
        ) matches Ok(found) && found.0 == self.thread.address@
        &&& self.thread.is_signer
    }

    /// Checks every account before anything is changed.
    pub fn validate(&self, programs: &Programs) -> (ok: bool)
        ensures
            ok == self.valid(*programs),
    {
        let dataset_ok: bool = match dataset_address(&self.stat.address, &programs.task) {
            Ok(derived) => derived.address.same_as(&self.dataset.address),
            Err(_) => false,
        };
        let stat_ok: bool = match stat_address(
            &self.stat.price_feed,
            &self.stat.authority,
            self.stat.lookback_window,
            &programs.task,
        ) {
            Ok(derived) => derived.address.same_as(&self.stat.address),
            Err(_) => false,
        };
        let thread_ok: bool = match trigger_address(
            &self.thread.authority,
            self.thread.id.as_str(),
            &programs.scheduler,
        ) {
            Ok(derived) => derived.address.same_as(&self.thread.address),
            Err(_) => false,
        };
        dataset_ok && stat_ok && self.dataset.capacity == self.stat.buffer_size
            && self.payer.is_signer && self.payer.is_writable && self.system_program.same_as(
            &programs.system,
        ) && self.thread.authority.same_as(&self.stat.authority) && thread_ok
            && self.thread.is_signer
    }

    /// The bytes of the dataset's storage region once it is grown, where
    /// the ledger permits a region of that size. The minimum balance that a
    /// growth funds the region to is the ledger's minimum for this size.
    pub fn grown_account_size(&self) -> (size: Option<usize>)
        ensures
            fits((self.stat.buffer_size + GROWTH_INCREMENT) as nat) ==> size == Some(
                region_size((self.stat.buffer_size + GROWTH_INCREMENT) as nat) as usize,
            ),
            !fits((self.stat.buffer_size + GROWTH_INCREMENT) as nat) ==> size.is_none(),
    {
        if self.stat.buffer_size > usize::MAX - GROWTH_INCREMENT {
            return None;
        }
        account_size(self.stat.buffer_size + GROWTH_INCREMENT)
    }
}

/// The operation that follows a growth: the statistic is computed over the
/// dataset, by the same thread.
pub open spec fn calc_instruction(ctx: ReallocBuffer, programs: Programs) -> InstructionView {
    InstructionView {
        program_id: programs.task,
        accounts: seq![
            writable(ctx.dataset.address, false),
            writable(ctx.stat.address, false),
            readonly(ctx.stat.price_feed, false),
            writable(ctx.thread.address, true),
        ],
        data: sighash("calc"@),
    }
}

/// Why a growth is refused, if it is.
pub open spec fn handler_failure(
    ctx: ReallocBuffer,
    programs: Programs,
    minimum_rent: u64,
) -> Option<TaskError> {
    if !ctx.valid(programs) {
        Some(TaskError::Unauthorized)
    } else {
        failure(
            grow_outcome(
                ctx.dataset.capacity,
                ctx.dataset.balance,
                GROWTH_INCREMENT,
                minimum_rent,
                ctx.payer.lamports,
            ),
        )
    }
}

/// Grows the dataset's buffer by one increment, records the new size in the
/// stat, tops the dataset up to `minimum_rent` out of the payer, and names
/// the operation to run next. An invocation that is refused changes nothing.
pub fn handler(ctx: &mut ReallocBuffer, programs: &Programs, minimum_rent: u64) -> (r: Result<
    ThreadResponse,
    TaskError,
>)
    ensures
        failure(r) == handler_failure(*old(ctx), *programs, minimum_rent),
        r matches Ok(response) ==> {
            &&& grew(old(ctx).dataset, final(ctx).dataset, GROWTH_INCREMENT, minimum_rent)
            &&& final(ctx).dataset.balance >= minimum_rent
            &&& final(ctx).stat == (Stat {
                buffer_size: (old(ctx).stat.buffer_size + GROWTH_INCREMENT) as usize,
                ..old(ctx).stat
            })
            &&& final(ctx).payer == (Payer {
                lamports: (old(ctx).payer.lamports - shortfall(
                    old(ctx).dataset.balance,
                    minimum_rent,
                )) as u64,
                ..old(ctx).payer
            })
            &&& final(ctx).system_program == old(ctx).system_program
            &&& final(ctx).thread == old(ctx).thread
            &&& final(ctx).valid(*programs)
            &&& response@ == Some(calc_instruction(*old(ctx), *programs))
        },
        r.is_err() ==> *final(ctx) == *old(ctx),
{
    if !ctx.validate(programs) {
        return Err(TaskError::Unauthorized);
    }
    let mut lamports: u64 = ctx.payer.lamports;
    match ctx.dataset.grow(GROWTH_INCREMENT, minimum_rent, &mut lamports) {
        Ok(_) => {},
        Err(e) => {
            return Err(e);
        },
    }
    ctx.payer.lamports = lamports;
    ctx.stat.buffer_size = ctx.dataset.capacity;

    let mut accounts: Vec<AccountMetaData> = Vec::new();
    accounts.push(AccountMetaData::new(ctx.dataset.address, false));
    accounts.push(AccountMetaData::new(ctx.stat.address, false));
    accounts.push(AccountMetaData::new_readonly(ctx.stat.price_feed, false));
    accounts.push(AccountMetaData::new(ctx.thread.address, true));
    let data: Vec<u8> = operation("calc", &Vec::new());
    let next = InstructionData { program_id: programs.task, accounts, data };
    assert(next@.accounts =~= calc_instruction(*old(ctx), *programs).accounts);
    assert(next@.data =~= sighash("calc"@));
    Ok(ThreadResponse::Next(next))
}

} // verus!
