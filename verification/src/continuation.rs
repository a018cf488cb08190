use vstd::prelude::*;
use crate::address::Address;

verus! {

/// A reference to an account that an operation will touch, with what the
/// operation may do to it.
#[derive(Clone, Copy, Debug, PartialEq, Eq)]
pub struct AccountMetaData {
    pub pubkey: Address,
    /// The operation needs this account's signature.
    pub is_signer: bool,
    /// The operation may write to this account.
    pub is_writable: bool,
}

impl AccountMetaData {
    /// A reference to an account that the operation may write to.
    pub fn new(pubkey: Address, is_signer: bool) -> (meta: AccountMetaData)
        ensures
            meta == writable(pubkey, is_signer),
    {
        AccountMetaData { pubkey, is_signer, is_writable: true }
    }

    /// A reference to an account that the operation only reads.
    pub fn new_readonly(pubkey: Address, is_signer: bool) -> (meta: AccountMetaData)
        ensures
            meta == readonly(pubkey, is_signer),
    {
        AccountMetaData { pubkey, is_signer, is_writable: false }
    }
}

/// A reference to an account that the operation may write to.
pub open spec fn writable(pubkey: Address, is_signer: bool) -> AccountMetaData {
    AccountMetaData { pubkey, is_signer, is_writable: true }
}

/// A reference to an account that the operation only reads.
pub open spec fn readonly(pubkey: Address, is_signer: bool) -> AccountMetaData {
    AccountMetaData { pubkey, is_signer, is_writable: false }
}

/// A continuation descriptor: the program to invoke, the accounts it will
/// need in order, and the operation's selector followed by its payload.
#[derive(Clone, Debug, PartialEq, Eq)]
pub struct InstructionData {
    pub program_id: Address,
    pub accounts: Vec<AccountMetaData>,
    pub data: Vec<u8>,
}

/// A descriptor as plain values.
pub struct InstructionView {
    pub program_id: Address,
    pub accounts: Seq<AccountMetaData>,
    pub data: Seq<u8>,
}

impl View for InstructionData {
    type V = InstructionView;

    open spec fn view(&self) -> InstructionView {
        InstructionView { program_id: self.program_id, accounts: self.accounts@, data: self.data@ }
    }
}

/// What one invocation hands back to the automation engine: nothing, when
/// the task is caught up, or the one operation that must run next.
#[derive(Clone, Debug, PartialEq, Eq)]
pub enum ThreadResponse {
    Idle,
    Next(InstructionData),
}

impl View for ThreadResponse {
    type V = Option<InstructionView>;

    open spec fn view(&self) -> Option<InstructionView> {
        match self {
            ThreadResponse::Idle => None,
            ThreadResponse::Next(ix) => Some(ix@),
        }
    }
}

impl ThreadResponse {
    /// The pending continuations: none, or exactly one.
    pub fn pending(&self) -> (n: usize)
        ensures
            n <= 1,
            n == 1 <==> self@.is_some(),
    {
        match self {
            ThreadResponse::Idle => 0,
            ThreadResponse::Next(_) => 1,
        }
    }

    /// The operation to run next, if there is one.
    pub fn next_instruction(&self) -> (next: Option<&InstructionData>)
        ensures
            next matches Some(ix) ==> self@ == Some(ix@),
            next.is_none() ==> self@.is_none(),
    {
        match self {
            ThreadResponse::Idle => None,
            ThreadResponse::Next(ix) => Some(ix),
        }
    }
}

/// The selector of the operation called `name`: eight bytes.
pub uninterp spec fn sighash(name: Seq<char>) -> Seq<u8>;

/// `clockwork_sdk::utils::anchor_sighash`: the first eight bytes of the
/// SHA-256 hash of the text `global:` followed by `name`. Trusted: the
/// result is exactly `sighash` of the name.
#[verifier::external_body]
fn anchor_sighash(name: &str) -> (selector: [u8; 8])
    ensures
        selector@ == sighash(name@),
{
    clockwork_sdk::utils::anchor_sighash(name)
}

/// The data of an operation: its selector, then its payload.
pub open spec fn operation_data(selector: Seq<u8>, payload: Seq<u8>) -> Seq<u8> {
    selector + payload
}

/// Puts a selector in front of a payload.
pub fn frame_operation(selector: &[u8; 8], payload: &Vec<u8>) -> (data: Vec<u8>)
    ensures
        data@ == operation_data(selector@, payload@),
{
    let mut data: Vec<u8> = Vec::new();
    let mut i: usize = 0;
    while i < 8
        invariant
            i <= 8,
            data@ == selector@.subrange(0, i as int),
        decreases 8 - i,
    {
        data.push(selector[i]);
        i = i + 1;
        assert(data@ =~= selector@.subrange(0, i as int));
    }
    assert(selector@.subrange(0, 8) =~= selector@);
    data.extend_from_slice(payload.as_slice());
    data
}

/// The data that invokes the operation called `name` with `payload`.
pub fn operation(name: &str, payload: &Vec<u8>) -> (data: Vec<u8>)
    ensures
        data@ == operation_data(sighash(name@), payload@),
{
    let selector: [u8; 8] = anchor_sighash(name);
    frame_operation(&selector, payload)
}

} // verus!
