use vstd::prelude::*;
use vstd::string::StringSliceAdditionalSpecFns;
use vstd::utf8::encode_utf8;
use crate::error::TaskError;

verus! {

/// The fewest fields of a cron expression: seconds to day of week.
pub const MIN_FIELDS: usize = 6;

/// The most fields of a cron expression: seconds to year.
pub const MAX_FIELDS: usize = 7;

/// When a task's tick fires. The expression is kept for the automation
/// engine, which alone interprets it.
#[derive(Clone, Debug, PartialEq, Eq)]
pub struct Schedule {
    /// The cron expression.
    pub expr: String,
    /// Whether a tick that was missed is dropped, not caught up.
    pub skippable: bool,
}

impl View for Schedule {
    type V = (Seq<char>, bool);

    open spec fn view(&self) -> (Seq<char>, bool) {
        (self.expr@, self.skippable)
    }
}

/// A byte that may stand in a field of a cron expression: a digit, a
/// letter, or one of `*`, `,`, `-`, `/` and `?`.
pub open spec fn cron_symbol(b: u8) -> bool {
    ||| 48 <= b <= 57
    ||| 65 <= b <= 90
    ||| 97 <= b <= 122
    ||| b == 42
    ||| b == 44
    ||| b == 45
    ||| b == 47
    ||| b == 63
}

/// How many spaces a byte string holds.
pub open spec fn count_spaces(s: Seq<u8>) -> nat
    decreases s.len(),
{
    if s.len() == 0 {
        0
    } else {
        count_spaces(s.drop_last()) + if s.last() == 32 {
            1nat
        } else {
            0nat
        }
    }
}

/// A cron expression: six or seven fields of cron symbols, none empty,
/// with one space between two fields and none before or after.
pub open spec fn well_formed_expr(s: Seq<u8>) -> bool {
    &&& s.len() > 0
    &&& forall|i: int| 0 <= i < s.len() ==> #[trigger] s[i] == 32 || cron_symbol(s[i])
    &&& s[0] != 32
    &&& s.last() != 32
    &&& forall|i: int| 0 <= i < s.len() - 1 ==> !(#[trigger] s[i] == 32 && s[i + 1] == 32)
    &&& MIN_FIELDS <= count_spaces(s) + 1 <= MAX_FIELDS
}

/// Whether a text is a cron expression.
pub open spec fn schedule_ok(expr: Seq<char>) -> bool {
    well_formed_expr(encode_utf8(expr))
}

fn is_cron_symbol(b: u8) -> (ok: bool)
    ensures
        ok == cron_symbol(b),
{
    (48 <= b && b <= 57) || (65 <= b && b <= 90) || (97 <= b && b <= 122) || b == 42 || b == 44
        || b == 45 || b == 47 || b == 63
}

/// Whether `expr` is a cron expression.
pub fn validate(expr: &str) -> (ok: bool)
    ensures
        ok == schedule_ok(expr@),
{
    let bytes: &[u8] = expr.as_bytes();
    let n: usize = bytes.len();
    if n == 0 {
        return false;
    }
    if bytes[0] == 32 || bytes[n - 1] == 32 {
        return false;
    }
    let mut spaces: usize = 0;
    let mut i: usize = 0;
    while i < n
        invariant
            i <= n,
            n == bytes@.len(),
            bytes@ == encode_utf8(expr@),
            spaces == count_spaces(bytes@.subrange(0, i as int)),
            spaces <= i,
            forall|j: int| 0 <= j < i ==> #[trigger] bytes@[j] == 32 || cron_symbol(bytes@[j]),
            forall|j: int|
                0 <= j < i && j + 1 < n ==> !(#[trigger] bytes@[j] == 32 && bytes@[j + 1] == 32),
        decreases n - i,
    {
        let b: u8 = bytes[i];
        if b == 32 {
            if i + 1 < n && bytes[i + 1] == 32 {
                return false;
            }
            spaces = spaces + 1;
        } else if !is_cron_symbol(b) {
            return false;
        }
        assert(bytes@.subrange(0, i + 1).drop_last() =~= bytes@.subrange(0, i as int));
        i = i + 1;
    }
    assert(bytes@.subrange(0, n as int) =~= bytes@);
    MIN_FIELDS - 1 <= spaces && spaces <= MAX_FIELDS - 1
}

impl Schedule {
    /// A schedule that fires as `expr` says, or `MalformedSchedule` where
    /// `expr` is no cron expression.
    pub fn new(expr: &str, skippable: bool) -> (r: Result<Schedule, TaskError>)
        ensures
            schedule_ok(expr@) ==> r.is_ok(),
            !schedule_ok(expr@) ==> r matches Err(TaskError::MalformedSchedule),
            r matches Ok(s) ==> s.expr@ == expr@ && s.skippable == skippable && s.wf(),
    {
        if !validate(expr) {
            return Err(TaskError::MalformedSchedule);
        }
        Ok(Schedule { expr: expr.to_owned(), skippable })
    }

    /// A second schedule with the same expression and flag.
    pub fn duplicate(&self) -> (copy: Schedule)
        ensures
            copy == *self,
    {
        Schedule { expr: self.expr.clone(), skippable: self.skippable }
    }

    /// The expression is a cron expression.
    pub open spec fn wf(&self) -> bool {
        schedule_ok(self.expr@)
    }

    /// Whether the expression is a cron expression.
    pub fn is_well_formed(&self) -> (ok: bool)
        ensures
            ok == self.wf(),
    {
        validate(self.expr.as_str())
    }
}

} // verus!
