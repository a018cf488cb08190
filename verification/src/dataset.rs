use vstd::prelude::*;
use crate::address::{dataset_address, dataset_seeds, names, program_address, Address};
use crate::error::{failure, TaskError};
use crate::ledger::{ensure_funded, shortfall};

verus! {

/// The bytes that one record takes in a dataset's storage region.
pub const RECORD_SIZE: usize = 16;

/// The bytes of a storage region that come before its records.
pub const HEADER_SIZE: usize = 16;

/// The largest storage region that the ledger permits, in bytes.
pub const MAX_REGION_SIZE: usize = 10485760;

/// The most bytes by which one invocation may enlarge a storage region.
pub const MAX_SIZE_DELTA: usize = 10240;

/// The records added by each growth: as many as `MAX_SIZE_DELTA` bytes hold.
pub const GROWTH_INCREMENT: usize = 640;

/// The most records that a region of `MAX_REGION_SIZE` bytes holds.
pub const MAX_CAPACITY: usize = 655359;

/// One observation of a price.
#[derive(Clone, Copy, Debug, PartialEq, Eq)]
pub struct PriceData {
    pub price: i64,
    pub ts: i64,
}

/// A record store whose capacity grows in steps and never shrinks.
#[derive(Clone, Debug, PartialEq, Eq)]
pub struct Dataset {
    pub address: Address,
    /// The stat that owns the dataset.
    pub owner: Address,
    /// How many records the storage region has room for.
    pub capacity: usize,
    pub records: Vec<PriceData>,
    /// What the storage region holds against its rent.
    pub balance: u64,
}

/// The bytes of a storage region with room for `capacity` records.
pub open spec fn region_size(capacity: nat) -> nat {
    HEADER_SIZE as nat + capacity * RECORD_SIZE as nat
}

/// Whether a region with room for `capacity` records is one the ledger permits.
pub open spec fn fits(capacity: nat) -> bool {
    region_size(capacity) <= MAX_REGION_SIZE
}

/// What a growth returns: the lamports moved from the payer, or why the
/// growth was refused.
pub open spec fn grow_outcome(
    capacity: usize,
    balance: u64,
    increment: usize,
    required_minimum: u64,
    payer: u64,
) -> Result<u64, TaskError> {
    if !fits((capacity + increment) as nat) {
        Err(TaskError::CapacityOverflow)
    } else if payer < shortfall(balance, required_minimum) {
        Err(TaskError::InsufficientFunding)
    } else {
        Ok(shortfall(balance, required_minimum) as u64)
    }
}

/// How a dataset stands after a growth that succeeded.
pub open spec fn grew(
    before: Dataset,
    after: Dataset,
    increment: usize,
    required_minimum: u64,
) -> bool {
    &&& after.address == before.address
    &&& after.owner == before.owner
    &&& after.records == before.records
    &&& after.capacity == before.capacity + increment
    &&& after.balance == before.balance + shortfall(before.balance, required_minimum)
}

/// The bytes of a region with room for `capacity` records, where the ledger
/// permits such a region.
pub fn account_size(capacity: usize) -> (size: Option<usize>)
    ensures
        fits(capacity as nat) ==> size == Some(region_size(capacity as nat) as usize),
        !fits(capacity as nat) ==> size.is_none(),
{
    if capacity > MAX_CAPACITY {
        None
    } else {
        Some(HEADER_SIZE + capacity * RECORD_SIZE)
    }
}

impl Dataset {
    /// The stored records fit the capacity, and the region is one the ledger permits.
    pub open spec fn wf(&self) -> bool {
        &&& self.records@.len() <= self.capacity
        &&& fits(self.capacity as nat)
    }

    /// Creates the dataset owned by `owner` at its derived address, with
    /// room for `initial_capacity` records and none stored, and funds it to
    /// `required_minimum` out of `payer`.
    pub fn create(
        owner: &Address,
        initial_capacity: usize,
        program: &Address,
        required_minimum: u64,
        payer: &mut u64,
    ) -> (r: Result<Dataset, TaskError>)
        ensures
            !fits(initial_capacity as nat) ==> failure(r) == Some(TaskError::CapacityOverflow),
            fits(initial_capacity as nat) && program_address(dataset_seeds(owner@), program@)
                is None ==> failure(r) == Some(TaskError::NoViableAddress),
            fits(initial_capacity as nat) && program_address(dataset_seeds(owner@), program@)
                is Some && *old(payer) < required_minimum ==> failure(r) == Some(
                TaskError::InsufficientFunding,
            ),
            fits(initial_capacity as nat) && program_address(dataset_seeds(owner@), program@)
                is Some && *old(payer) >= required_minimum ==> r.is_ok(),
            r matches Ok(d) ==> {
                &&& d.wf()
                &&& names(d.address, dataset_seeds(owner@), program@)
                &&& d.owner == *owner
                &&& d.capacity == initial_capacity
                &&& d.records@.len() == 0
                &&& d.balance == required_minimum
                &&& *final(payer) == *old(payer) - required_minimum
            },
            r.is_err() ==> *final(payer) == *old(payer),
    {
        if initial_capacity > MAX_CAPACITY {
            return Err(TaskError::CapacityOverflow);
        }
        let derived = match dataset_address(owner, program) {
            Ok(derived) => derived,
            Err(e) => {
                return Err(e);
            },
        };
        let mut balance: u64 = 0;
        match ensure_funded(&mut balance, required_minimum, payer) {
            Ok(_) => {},
            Err(e) => {
                return Err(e);
            },
        }
        Ok(
            Dataset {
                address: derived.address,
                owner: *owner,
                capacity: initial_capacity,
                records: Vec::new(),
                balance,
            },
        )
    }

    /// How many records are stored.
    pub fn len(&self) -> (n: usize)
        ensures
            n == self.records@.len(),
    {
        self.records.len()
    }

    /// Makes room for `increment` more records and tops the region up to
    /// `required_minimum`, the minimum balance for its new size, out of
    /// `payer`. Returns what the payer paid. A growth that is refused
    /// changes nothing.
    pub fn grow(&mut self, increment: usize, required_minimum: u64, payer: &mut u64) -> (r: Result<
        u64,
        TaskError,
    >)
        ensures
            r == grow_outcome(
                old(self).capacity,
                old(self).balance,
                increment,
                required_minimum,
                *old(payer),
            ),
            r.is_ok() ==> grew(*old(self), *final(self), increment, required_minimum)
                && *final(payer) == *old(payer) - shortfall(old(self).balance, required_minimum)
                && final(self).balance >= required_minimum
                && final(self).capacity >= old(self).capacity,
            r.is_err() ==> *final(self) == *old(self) && *final(payer) == *old(payer),
            old(self).wf() ==> final(self).wf(),
    {
        if self.capacity > MAX_CAPACITY || increment > MAX_CAPACITY - self.capacity {
            return Err(TaskError::CapacityOverflow);
        }
        let mut balance: u64 = self.balance;
        let paid: u64 = match ensure_funded(&mut balance, required_minimum, payer) {
            Ok(paid) => paid,
            Err(e) => {
                return Err(e);
            },
        };
        self.capacity = self.capacity + increment;
        self.balance = balance;
        Ok(paid)
    }

    /// Stores one more record. A dataset that is full stores nothing: its
    /// caller is to grow it first.
    pub fn append(&mut self, record: PriceData) -> (r: Result<(), TaskError>)
        ensures
            old(self).records@.len() < old(self).capacity ==> r.is_ok(),
            old(self).records@.len() >= old(self).capacity ==> r == Err::<(), TaskError>(
                TaskError::BufferFull,
            ),
            r.is_ok() ==> final(self).records@ == old(self).records@.push(record),
            r.is_err() ==> final(self).records == old(self).records,
            final(self).address == old(self).address,
            final(self).owner == old(self).owner,
            final(self).capacity == old(self).capacity,
            final(self).balance == old(self).balance,
            old(self).wf() ==> final(self).wf(),
    {
        if self.records.len() >= self.capacity {
            return Err(TaskError::BufferFull);
        }
        self.records.push(record);
        Ok(())
    }
}

/// The growth increment is the size-delta ceiling divided by one record's size.
pub proof fn lemma_growth_increment()
    ensures
        GROWTH_INCREMENT == MAX_SIZE_DELTA / RECORD_SIZE,
        fits(MAX_CAPACITY as nat),
        !fits((MAX_CAPACITY + 1) as nat),
{
}

/// One call of `grow`, by its arguments.
pub struct GrowCall {
    pub increment: usize,
    pub required_minimum: u64,
}

/// How a dataset stands after one call of `grow`: grown, or as it was.
pub open spec fn grow_step(before: Dataset, after: Dataset, call: GrowCall) -> bool {
    grew(before, after, call.increment, call.required_minimum) || after == before
}

/// A growth that succeeds never shrinks the capacity and never leaves the
/// region with less than the minimum balance for its new size.
pub proof fn lemma_grown_is_funded(
    before: Dataset,
    after: Dataset,
    increment: usize,
    required_minimum: u64,
)
    requires
        grew(before, after, increment, required_minimum),
    ensures
        after.capacity >= before.capacity,
        after.balance >= required_minimum,
{
}

/// Over any sequence of calls of `grow`, refused or not, the capacity never
/// decreases.
pub proof fn lemma_capacity_never_shrinks(
    states: Seq<Dataset>,
    calls: Seq<GrowCall>,
    i: int,
    j: int,
)
    requires
        states.len() == calls.len() + 1,
        forall|k: int|
            0 <= k < calls.len() ==> grow_step(#[trigger] states[k], states[k + 1], calls[k]),
        0 <= i <= j < states.len(),
    ensures
        states[i].capacity <= states[j].capacity,
    decreases j - i,
{
    if i < j {
        lemma_capacity_never_shrinks(states, calls, i, j - 1);
        assert(grow_step(states[j - 1], states[j - 1 + 1], calls[j - 1]));
    }
}

} // verus!
