//! Little-endian integers and fixed-width keys inside byte strings.

use vstd::prelude::*;

verus! {

/// The number that eight bytes stand for, least significant byte first.
pub open spec fn le_u64(b: Seq<u8>) -> nat
    recommends
        b.len() == 8,
{
    (b[0] as nat) + (b[1] as nat) * 0x100 + (b[2] as nat) * 0x1_0000 + (b[3] as nat) * 0x100_0000
        + (b[4] as nat) * 0x1_0000_0000 + (b[5] as nat) * 0x100_0000_0000 + (b[6] as nat)
        * 0x1_0000_0000_0000 + (b[7] as nat) * 0x100_0000_0000_0000
}

/// The eight bytes that stand for `x`, least significant byte first.
pub open spec fn le_bytes(x: u64) -> Seq<u8> {
    seq![
        (x % 0x100) as u8,
        ((x / 0x100) % 0x100) as u8,
        ((x / 0x1_0000) % 0x100) as u8,
        ((x / 0x100_0000) % 0x100) as u8,
        ((x / 0x1_0000_0000) % 0x100) as u8,
        ((x / 0x100_0000_0000) % 0x100) as u8,
        ((x / 0x1_0000_0000_0000) % 0x100) as u8,
        ((x / 0x100_0000_0000_0000) % 0x100) as u8,
    ]
}

/// Reading back what was written gives the number that was written.
pub proof fn lemma_le_u64_of_le_bytes(x: u64)
    ensures
        le_bytes(x).len() == 8,
        le_u64(le_bytes(x)) == x,
{
    assert(x == (x % 0x100) + ((x / 0x100) % 0x100) * 0x100 + ((x / 0x1_0000) % 0x100) * 0x1_0000
        + ((x / 0x100_0000) % 0x100) * 0x100_0000 + ((x / 0x1_0000_0000) % 0x100) * 0x1_0000_0000
        + ((x / 0x100_0000_0000) % 0x100) * 0x100_0000_0000 + ((x / 0x1_0000_0000_0000) % 0x100)
        * 0x1_0000_0000_0000 + ((x / 0x100_0000_0000_0000) % 0x100) * 0x100_0000_0000_0000)
        by (bit_vector);
}

/// Writing the number that eight bytes stand for gives those bytes again.
pub proof fn lemma_le_bytes_of_le_u64(b: Seq<u8>)
    requires
        b.len() == 8,
    ensures
        le_bytes(le_u64(b) as u64) == b,
{
    let (b0, b1, b2, b3, b4, b5, b6, b7) = (b[0], b[1], b[2], b[3], b[4], b[5], b[6], b[7]);
    let x: u64 = le_u64(b) as u64;
    assert(x == b0 + b1 * 0x100 + b2 * 0x1_0000 + b3 * 0x100_0000 + b4 * 0x1_0000_0000 + b5
        * 0x100_0000_0000 + b6 * 0x1_0000_0000_0000 + b7 * 0x100_0000_0000_0000);
    assert(x % 0x100 == b0 && (x / 0x100) % 0x100 == b1 && (x / 0x1_0000) % 0x100 == b2 && (x
        / 0x100_0000) % 0x100 == b3 && (x / 0x1_0000_0000) % 0x100 == b4 && (x / 0x100_0000_0000)
        % 0x100 == b5 && (x / 0x1_0000_0000_0000) % 0x100 == b6 && (x / 0x100_0000_0000_0000)
        % 0x100 == b7) by (bit_vector)
        requires
            x == b0 + b1 * 0x100 + b2 * 0x1_0000 + b3 * 0x100_0000 + b4 * 0x1_0000_0000 + b5
                * 0x100_0000_0000 + b6 * 0x1_0000_0000_0000 + b7 * 0x100_0000_0000_0000,
    ;
    assert(le_bytes(x) =~= b);
}

/// Reads the little-endian `u64` that starts at `at`.
pub fn read_u64(data: &[u8], at: usize) -> (x: u64)
    requires
        at + 8 <= data@.len(),
    ensures
        x == le_u64(data@.subrange(at as int, at + 8)),
{
    let n: usize = data.len();
    let b0: u64 = data[at] as u64;
    let b1: u64 = data[at + 1] as u64;
    let b2: u64 = data[at + 2] as u64;
    let b3: u64 = data[at + 3] as u64;
    let b4: u64 = data[at + 4] as u64;
    let b5: u64 = data[at + 5] as u64;
    let b6: u64 = data[at + 6] as u64;
    let b7: u64 = data[at + 7] as u64;
    b0 + b1 * 0x100 + b2 * 0x1_0000 + b3 * 0x100_0000 + b4 * 0x1_0000_0000 + b5 * 0x100_0000_0000
        + b6 * 0x1_0000_0000_0000 + b7 * 0x100_0000_0000_0000
}

/// Appends `x` to `out` as eight little-endian bytes.
pub fn push_u64(out: &mut Vec<u8>, x: u64)
    ensures
        final(out)@ == old(out)@ + le_bytes(x),
{
    out.push((x % 0x100) as u8);
    out.push(((x / 0x100) % 0x100) as u8);
    out.push(((x / 0x1_0000) % 0x100) as u8);
    out.push(((x / 0x100_0000) % 0x100) as u8);
    out.push(((x / 0x1_0000_0000) % 0x100) as u8);
    out.push(((x / 0x100_0000_0000) % 0x100) as u8);
    out.push(((x / 0x1_0000_0000_0000) % 0x100) as u8);
    out.push(((x / 0x100_0000_0000_0000) % 0x100) as u8);
    assert(out@ =~= old(out)@ + le_bytes(x));
}

} // verus!
