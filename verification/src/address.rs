use vstd::prelude::*;
use vstd::string::StringSliceAdditionalSpecFns;
use crate::codec::{le_bytes, push_i64, twos_complement};
use crate::error::TaskError;

verus! {

/// The most seeds a derivation accepts, the bump seed included.
pub const MAX_SEEDS: usize = 16;

/// The longest seed a derivation accepts, in bytes.
pub const MAX_SEED_LEN: usize = 32;

/// The address of an account on the ledger: 32 bytes.
#[derive(Clone, Copy, Debug, PartialEq, Eq)]
pub struct Address {
    pub bytes: [u8; 32],
}

impl View for Address {
    type V = Seq<u8>;

    open spec fn view(&self) -> Seq<u8> {
        self.bytes@
    }
}

impl Address {
    /// The address that holds `bytes`.
    pub fn new(bytes: [u8; 32]) -> (a: Address)
        ensures
            a.bytes == bytes,
    {
        Address { bytes }
    }

    /// Whether two addresses hold the same bytes.
    pub fn same_as(&self, other: &Address) -> (same: bool)
        ensures
            same == (self@ == other@),
            same == (*self == *other),
    {
        let mut i: usize = 0;
        while i < 32
            invariant
                i <= 32,
                forall|j: int| 0 <= j < i ==> self.bytes[j] == other.bytes[j],
            decreases 32 - i,
        {
            if self.bytes[i] != other.bytes[i] {
                return false;
            }
            i = i + 1;
        }
        assert(self.bytes@ =~= other.bytes@);
        assert(self.bytes =~= other.bytes);
        true
    }

    /// The address as a seed.
    pub fn to_vec(&self) -> (v: Vec<u8>)
        ensures
            v@ == self@,
    {
        let mut v: Vec<u8> = Vec::new();
        let mut i: usize = 0;
        while i < 32
            invariant
                i <= 32,
                v@ == self@.subrange(0, i as int),
            decreases 32 - i,
        {
            v.push(self.bytes[i]);
            i = i + 1;
            assert(v@ =~= self@.subrange(0, i as int));
        }
        assert(self@.subrange(0, 32) =~= self@);
        v
    }
}

/// The seeds of a derivation, each as its bytes.
pub open spec fn seeds_view(seeds: &Vec<Vec<u8>>) -> Seq<Seq<u8>> {
    Seq::new(seeds@.len(), |i: int| seeds@[i]@)
}

/// Seeds that a derivation accepts: room is left for the bump seed, and no
/// seed is longer than `MAX_SEED_LEN`.
pub open spec fn seeds_well_formed(seeds: Seq<Seq<u8>>) -> bool {
    &&& seeds.len() < MAX_SEEDS
    &&& forall|i: int| 0 <= i < seeds.len() ==> (#[trigger] seeds[i]).len() <= MAX_SEED_LEN
}

/// The program-derived address for `seeds` under `program`, with the bump
/// seed that was found for it, or `None` where the search finds none.
pub uninterp spec fn program_address(seeds: Seq<Seq<u8>>, program: Seq<u8>) -> Option<
    (Seq<u8>, u8),
>;

/// What a search returned, by its bytes.
pub open spec fn lookup_view(found: Option<(Address, u8)>) -> Option<(Seq<u8>, u8)> {
    match found {
        Some((address, bump)) => Some((address@, bump)),
        None => None,
    }
}

/// `Pubkey::try_find_program_address` of solana-program, reached through
/// anchor-lang: hashes the seeds, a bump seed counted down from 255, the
/// program id and a marker, and returns the first hash that is not a curve
/// point. Trusted: the result is exactly `program_address` of the same seeds
/// and program id.
#[verifier::external_body]
fn find_program_address(seeds: &Vec<Vec<u8>>, program: &Address) -> (found: Option<(Address, u8)>)
    ensures
        lookup_view(found) == program_address(seeds_view(seeds), program@),
{
    let parts: Vec<&[u8]> = seeds.iter().map(|s| s.as_slice()).collect();
    let id = anchor_lang::prelude::Pubkey::new_from_array(program.bytes);
    match anchor_lang::prelude::Pubkey::try_find_program_address(&parts, &id) {
        Some((key, bump)) => Some((Address { bytes: key.to_bytes() }, bump)),
        None => None,
    }
}

/// Whether `address` is the one derived from `seeds` under `program`.
pub open spec fn names(address: Address, seeds: Seq<Seq<u8>>, program: Seq<u8>) -> bool {
    match program_address(seeds, program) {
        Some(found) => found.0 == address@,
        None => false,
    }
}

/// The programs that the engine's accounts live under.
#[derive(Clone, Copy, Debug, PartialEq, Eq)]
pub struct Programs {
    /// The program that owns the task records.
    pub task: Address,
    /// The automation engine, which owns the trigger handles.
    pub scheduler: Address,
    /// The program that keeps balances of each value kind.
    pub token: Address,
    /// The program that owns the escrow addresses.
    pub associated_token: Address,
    /// The program that moves lamports and allocates accounts.
    pub system: Address,
    /// The account that publishes the rent parameters.
    pub rent: Address,
}

/// A derived address and the bump seed that completes its seeds.
#[derive(Clone, Copy, Debug, PartialEq, Eq)]
pub struct Derived {
    pub address: Address,
    pub bump: u8,
}

/// A derivation's outcome, by its bytes.
pub open spec fn derived_view(r: Result<Derived, TaskError>) -> Result<(Seq<u8>, u8), TaskError> {
    match r {
        Ok(d) => Ok((d.address@, d.bump)),
        Err(e) => Err(e),
    }
}

/// What a finished search amounts to: its address, or `NoViableAddress`.
pub open spec fn resolved(found: Option<(Seq<u8>, u8)>) -> Result<(Seq<u8>, u8), TaskError> {
    match found {
        Some(pair) => Ok(pair),
        None => Err(TaskError::NoViableAddress),
    }
}

/// The outcome of deriving an address: malformed seeds are refused before
/// any search is made.
pub open spec fn derivation(seeds: Seq<Seq<u8>>, program: Seq<u8>) -> Result<
    (Seq<u8>, u8),
    TaskError,
> {
    if seeds_well_formed(seeds) {
        resolved(program_address(seeds, program))
    } else {
        Err(TaskError::MalformedSeed)
    }
}

/// Turns what a search returned into a derivation's outcome.
pub fn resolve_lookup(found: Option<(Address, u8)>) -> (r: Result<Derived, TaskError>)
    ensures
        derived_view(r) == resolved(lookup_view(found)),
        found matches Some((address, bump)) ==> r == Ok::<Derived, TaskError>(
            (Derived { address, bump }),
        ),
{
    match found {
        Some((address, bump)) => Ok(Derived { address, bump }),
        None => Err(TaskError::NoViableAddress),
    }
}

/// Whether a derivation accepts these seeds.
pub fn check_seeds(seeds: &Vec<Vec<u8>>) -> (ok: bool)
    ensures
        ok == seeds_well_formed(seeds_view(seeds)),
{
    if seeds.len() >= MAX_SEEDS {
        return false;
    }
    let mut i: usize = 0;
    while i < seeds.len()
        invariant
            i <= seeds.len(),
            seeds.len() < MAX_SEEDS,
            forall|j: int| 0 <= j < i ==> (#[trigger] seeds_view(seeds)[j]).len() <= MAX_SEED_LEN,
        decreases seeds.len() - i,
    {
        if seeds[i].len() > MAX_SEED_LEN {
            assert(seeds_view(seeds)[i as int].len() > MAX_SEED_LEN);
            return false;
        }
        i = i + 1;
    }
    true
}

/// Derives the address that `seeds` name under `program`. The same seeds
/// and program always give the same address.
pub fn derive_address(seeds: &Vec<Vec<u8>>, program: &Address) -> (r: Result<Derived, TaskError>)
    ensures
        derived_view(r) == derivation(seeds_view(seeds), program@),
{
    if !check_seeds(seeds) {
        return Err(TaskError::MalformedSeed);
    }
    resolve_lookup(find_program_address(seeds, program))
}

/// The kinds of record whose address is derived from a role tag and the
/// fields that identify the record.
#[derive(Clone, Copy, Debug, PartialEq, Eq, Structural)]
pub enum Role {
    Payment,
    Stat,
    Dataset,
    Trigger,
}

/// The tag that opens the seeds of each role: its name in ASCII.
pub open spec fn role_tag(role: Role) -> Seq<u8> {
    match role {
        Role::Payment => seq![112u8, 97, 121, 109, 101, 110, 116],
        Role::Stat => seq![115u8, 116, 97, 116],
        Role::Dataset => seq![100u8, 97, 116, 97, 115, 101, 116],
        Role::Trigger => seq![116u8, 104, 114, 101, 97, 100],
    }
}

impl Role {
    /// The tag that opens the seeds of this role.
    pub fn tag(&self) -> (tag: Vec<u8>)
        ensures
            tag@ == role_tag(*self),
    {
        let tag: Vec<u8> = match self {
            Role::Payment => vec![112u8, 97, 121, 109, 101, 110, 116],
            Role::Stat => vec![115u8, 116, 97, 116],
            Role::Dataset => vec![100u8, 97, 116, 97, 115, 101, 116],
            Role::Trigger => vec![116u8, 104, 114, 101, 97, 100],
        };
        assert(tag@ =~= role_tag(*self));
        tag
    }
}

/// The seeds of a payment: its tag, sender, recipient and value kind.
pub open spec fn payment_seeds(sender: Seq<u8>, recipient: Seq<u8>, mint: Seq<u8>) -> Seq<
    Seq<u8>,
> {
    seq![role_tag(Role::Payment), sender, recipient, mint]
}

/// The seeds of an escrow: the record it is held for, the program that
/// keeps balances of the value kind, and the value kind.
pub open spec fn escrow_seeds(owner: Seq<u8>, token_program: Seq<u8>, mint: Seq<u8>) -> Seq<
    Seq<u8>,
> {
    seq![owner, token_program, mint]
}

/// The seeds of a stat: its tag, price feed, authority and lookback window.
pub open spec fn stat_seeds(price_feed: Seq<u8>, authority: Seq<u8>, lookback_window: i64) -> Seq<
    Seq<u8>,
> {
    seq![
        role_tag(Role::Stat),
        price_feed,
        authority,
        le_bytes(twos_complement(lookback_window), 8),
    ]
}

/// The seeds of a dataset: its tag and the stat that owns it.
pub open spec fn dataset_seeds(stat: Seq<u8>) -> Seq<Seq<u8>> {
    seq![role_tag(Role::Dataset), stat]
}

/// The seeds of a trigger handle: its tag, its authority and its label.
pub open spec fn trigger_seeds(authority: Seq<u8>, label: Seq<u8>) -> Seq<Seq<u8>> {
    seq![role_tag(Role::Trigger), authority, label]
}

/// The address of the payment from `sender` to `recipient` in `mint`.
pub fn payment_address(
    sender: &Address,
    recipient: &Address,
    mint: &Address,
    program: &Address,
) -> (r: Result<Derived, TaskError>)
    ensures
        derived_view(r) == resolved(
            program_address(payment_seeds(sender@, recipient@, mint@), program@),
        ),
{
    let mut seeds: Vec<Vec<u8>> = Vec::new();
    seeds.push(Role::Payment.tag());
    seeds.push(sender.to_vec());
    seeds.push(recipient.to_vec());
    seeds.push(mint.to_vec());
    assert(seeds_view(&seeds) =~= payment_seeds(sender@, recipient@, mint@));
    derive_address(&seeds, program)
}

/// The address of the escrow that `owner` holds in `mint`.
pub fn escrow_address(
    owner: &Address,
    mint: &Address,
    token_program: &Address,
    associated_token_program: &Address,
) -> (r: Result<Derived, TaskError>)
    ensures
        derived_view(r) == resolved(
            program_address(
                escrow_seeds(owner@, token_program@, mint@),
                associated_token_program@,
            ),
        ),
{
    let mut seeds: Vec<Vec<u8>> = Vec::new();
    seeds.push(owner.to_vec());
    seeds.push(token_program.to_vec());
    seeds.push(mint.to_vec());
    assert(seeds_view(&seeds) =~= escrow_seeds(owner@, token_program@, mint@));
    derive_address(&seeds, associated_token_program)
}

/// The address of the stat kept by `authority` over `price_feed`.
pub fn stat_address(
    price_feed: &Address,
    authority: &Address,
    lookback_window: i64,
    program: &Address,
) -> (r: Result<Derived, TaskError>)
    ensures
        derived_view(r) == resolved(
            program_address(stat_seeds(price_feed@, authority@, lookback_window), program@),
        ),
{
    let mut window: Vec<u8> = Vec::new();
    push_i64(&mut window, lookback_window);
    assert(window@ =~= le_bytes(twos_complement(lookback_window), 8));
    proof {
        crate::codec::lemma_le_bytes_len(twos_complement(lookback_window), 8);
    }
    let mut seeds: Vec<Vec<u8>> = Vec::new();
    seeds.push(Role::Stat.tag());
    seeds.push(price_feed.to_vec());
    seeds.push(authority.to_vec());
    seeds.push(window);
    assert(seeds_view(&seeds) =~= stat_seeds(price_feed@, authority@, lookback_window));
    derive_address(&seeds, program)
}

/// The address of the dataset owned by `stat`.
pub fn dataset_address(stat: &Address, program: &Address) -> (r: Result<Derived, TaskError>)
    ensures
        derived_view(r) == resolved(program_address(dataset_seeds(stat@), program@)),
{
    let mut seeds: Vec<Vec<u8>> = Vec::new();
    seeds.push(Role::Dataset.tag());
    seeds.push(stat.to_vec());
    assert(seeds_view(&seeds) =~= dataset_seeds(stat@));
    derive_address(&seeds, program)
}

/// The address of the trigger handle that `authority` keeps under `label`
/// with the scheduler. A label longer than a seed may be is refused.
pub fn trigger_address(authority: &Address, label: &str, scheduler: &Address) -> (r: Result<
    Derived,
    TaskError,
>)
    ensures
        derived_view(r) == derivation(trigger_seeds(authority@, label.spec_bytes()), scheduler@),
{
    let mut name: Vec<u8> = Vec::new();
    name.extend_from_slice(label.as_bytes());
    assert(name@ =~= label.spec_bytes());
    let mut seeds: Vec<Vec<u8>> = Vec::new();
    seeds.push(Role::Trigger.tag());
    seeds.push(authority.to_vec());
    seeds.push(name);
    assert(seeds_view(&seeds) =~= trigger_seeds(authority@, label.spec_bytes()));
    derive_address(&seeds, scheduler)
}

/// Deriving twice from the same seeds under the same program gives the same
/// outcome: an address is a function of its identifying fields alone.
pub proof fn lemma_derivation_deterministic(
    first: Result<Derived, TaskError>,
    second: Result<Derived, TaskError>,
    seeds: Seq<Seq<u8>>,
    program: Seq<u8>,
)
    requires
        derived_view(first) == derivation(seeds, program),
        derived_view(second) == derivation(seeds, program),
    ensures
        first == second,
{
    match (first, second) {
        (Ok(a), Ok(b)) => {
            assert(a.address@ == b.address@);
            assert(a.address.bytes =~= b.address.bytes);
        },
        _ => {},
    }
}

} // verus!
