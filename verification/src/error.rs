use vstd::prelude::*;

verus! {

/// Why an invocation was rejected. A rejected invocation changes nothing.
#[derive(Clone, Copy, Debug, PartialEq, Eq, Structural)]
pub enum TaskError {
    /// The derived address already holds a record.
    AlreadyExists,
    /// The caller is not the recorded authority, or an account is not the one expected.
    Unauthorized,
    /// The escrow holds less than one disbursement.
    InsufficientEscrow,
    /// The payer cannot cover the amount asked of it.
    InsufficientFunding,
    /// The storage region would exceed the largest size the ledger permits.
    CapacityOverflow,
    /// The dataset holds as many records as its capacity allows.
    BufferFull,
    /// An amount or size does not fit its integer type.
    ArithmeticOverflow,
    /// The schedule expression is not in cron form.
    MalformedSchedule,
    /// A seed tuple has too many seeds, or a seed that is too long.
    MalformedSeed,
    /// No bump seed yields an address off the curve.
    NoViableAddress,
    /// The task is not in a state that takes ticks.
    NotActive,
}

/// The reason string that a driver reports for each error.
pub open spec fn reason_text(e: TaskError) -> Seq<char> {
    match e {
        TaskError::AlreadyExists => "AlreadyExists"@,
        TaskError::Unauthorized => "Unauthorized"@,
        TaskError::InsufficientEscrow => "InsufficientEscrow"@,
        TaskError::InsufficientFunding => "InsufficientFunding"@,
        TaskError::CapacityOverflow => "CapacityOverflow"@,
        TaskError::BufferFull => "BufferFull"@,
        TaskError::ArithmeticOverflow => "ArithmeticOverflow"@,
        TaskError::MalformedSchedule => "MalformedSchedule"@,
        TaskError::MalformedSeed => "MalformedSeed"@,
        TaskError::NoViableAddress => "NoViableAddress"@,
        TaskError::NotActive => "NotActive"@,
    }
}

/// The error of an outcome, if it is one.
pub open spec fn failure<T>(r: Result<T, TaskError>) -> Option<TaskError> {
    match r {
        Ok(_) => None,
        Err(e) => Some(e),
    }
}

impl TaskError {
    /// The structured reason reported to whoever submitted the invocation.
    pub fn reason(&self) -> (s: &'static str)
        ensures
            s@ == reason_text(*self),
    {
        match self {
            TaskError::AlreadyExists => "AlreadyExists",
            TaskError::Unauthorized => "Unauthorized",
            TaskError::InsufficientEscrow => "InsufficientEscrow",
            TaskError::InsufficientFunding => "InsufficientFunding",
            TaskError::CapacityOverflow => "CapacityOverflow",
            TaskError::BufferFull => "BufferFull",
            TaskError::ArithmeticOverflow => "ArithmeticOverflow",
            TaskError::MalformedSchedule => "MalformedSchedule",
            TaskError::MalformedSeed => "MalformedSeed",
            TaskError::NoViableAddress => "NoViableAddress",
            TaskError::NotActive => "NotActive",
        }
    }
}

} // verus!
