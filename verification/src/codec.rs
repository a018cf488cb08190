use vstd::prelude::*;
use crate::error::TaskError;

verus! {

/// The `width` low bytes of `x`, least significant first.
pub open spec fn le_bytes(x: nat, width: nat) -> Seq<u8>
    decreases width,
{
    if width == 0 {
        Seq::empty()
    } else {
        seq![(x % 256) as u8] + le_bytes(x / 256, (width - 1) as nat)
    }
}

/// A signed 64-bit integer as the unsigned integer with the same bits.
pub open spec fn twos_complement(x: i64) -> nat {
    if x >= 0 {
        x as nat
    } else {
        (x + 0x1_0000_0000_0000_0000) as nat
    }
}

/// A byte string framed by its length as four little-endian bytes.
pub open spec fn framed(bytes: Seq<u8>) -> Seq<u8> {
    le_bytes(bytes.len(), 4) + bytes
}

/// An optional value: a zero byte, or a one byte and then the value.
pub open spec fn optional(encoded: Option<Seq<u8>>) -> Seq<u8> {
    match encoded {
        Some(bytes) => seq![1u8] + bytes,
        None => seq![0u8],
    }
}

/// `width` bytes are exactly that many.
pub proof fn lemma_le_bytes_len(x: nat, width: nat)
    ensures
        le_bytes(x, width).len() == width,
    decreases width,
{
    if width > 0 {
        lemma_le_bytes_len(x / 256, (width - 1) as nat);
    }
}

/// Appends the `width` low bytes of `x`, least significant first.
fn push_le(out: &mut Vec<u8>, x: u64, width: usize)
    requires
        width <= 8,
    ensures
        final(out)@ == old(out)@ + le_bytes(x as nat, width as nat),
{
    let mut rest: u64 = x;
    let mut i: usize = 0;
    while i < width
        invariant
            i <= width,
            out@ + le_bytes(rest as nat, (width - i) as nat) == old(out)@ + le_bytes(
                x as nat,
                width as nat,
            ),
        decreases width - i,
    {
        let ghost before = out@;
        out.push((rest % 256) as u8);
        assert(before + le_bytes(rest as nat, (width - i) as nat) =~= out@ + le_bytes(
            (rest / 256) as nat,
            (width - i - 1) as nat,
        ));
        rest = rest / 256;
        i = i + 1;
    }
    assert(out@ + le_bytes(rest as nat, 0) =~= out@);
}

/// Appends `x` as eight little-endian bytes.
pub fn push_u64(out: &mut Vec<u8>, x: u64)
    ensures
        final(out)@ == old(out)@ + le_bytes(x as nat, 8),
{
    push_le(out, x, 8);
}

/// Appends `x` as eight little-endian bytes in two's complement.
pub fn push_i64(out: &mut Vec<u8>, x: i64)
    ensures
        final(out)@ == old(out)@ + le_bytes(twos_complement(x), 8),
{
    if x >= 0 {
        push_le(out, x as u64, 8);
    } else {
        let low: u64 = (x - i64::MIN) as u64;
        push_le(out, low + 0x8000_0000_0000_0000u64, 8);
    }
}

/// Appends one byte: 1 for `true`, 0 for `false`.
pub fn push_bool(out: &mut Vec<u8>, b: bool)
    ensures
        final(out)@ == old(out)@ + seq![if b { 1u8 } else { 0u8 }],
{
    out.push(if b { 1u8 } else { 0u8 });
    assert(out@ =~= old(out)@ + seq![if b { 1u8 } else { 0u8 }]);
}

/// Appends a byte string framed by its length. A string too long for a
/// four-byte length is refused and nothing is appended.
pub fn push_framed(out: &mut Vec<u8>, bytes: &[u8]) -> (r: Result<(), TaskError>)
    ensures
        bytes@.len() <= u32::MAX ==> r.is_ok() && final(out)@ == old(out)@ + framed(bytes@),
        bytes@.len() > u32::MAX ==> r == Err::<(), TaskError>(TaskError::ArithmeticOverflow)
            && final(out)@ == old(out)@,
{
    if bytes.len() > 0xffff_ffff {
        return Err(TaskError::ArithmeticOverflow);
    }
    push_le(out, bytes.len() as u64, 4);
    out.extend_from_slice(bytes);
    assert(out@ =~= old(out)@ + framed(bytes@));
    Ok(())
}

} // verus!
