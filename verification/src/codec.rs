//! Fixed-width little-endian fields at fixed offsets of a byte buffer.

use vstd::prelude::*;
use crate::pubkey::Pubkey;

verus! {

/// The number that two little-endian bytes stand for.
pub open spec fn le_u16(s: Seq<u8>) -> nat
    recommends
        s.len() == 2,
{
    s[0] as nat + 0x100 * (s[1] as nat)
}

/// The number that eight little-endian bytes stand for.
pub open spec fn le_u64(s: Seq<u8>) -> nat
    recommends
        s.len() == 8,
{
    s[0] as nat + 0x100 * (s[1] as nat) + 0x1_0000 * (s[2] as nat) + 0x100_0000 * (s[3] as nat)
        + 0x1_0000_0000 * (s[4] as nat) + 0x100_0000_0000 * (s[5] as nat) + 0x1_0000_0000_0000 * (
    s[6] as nat) + 0x100_0000_0000_0000 * (s[7] as nat)
}

/// The signed number that eight little-endian bytes stand for in two's
/// complement.
pub open spec fn le_i64(s: Seq<u8>) -> int
    recommends
        s.len() == 8,
{
    if le_u64(s) < 0x8000_0000_0000_0000 {
        le_u64(s) as int
    } else {
        le_u64(s) - 0x1_0000_0000_0000_0000
    }
}

/// The two little-endian bytes of a number.
pub open spec fn u16_le(x: u16) -> Seq<u8> {
    seq![(x % 0x100) as u8, (x / 0x100) as u8]
}

/// The eight little-endian bytes of a number.
pub open spec fn u64_le(x: u64) -> Seq<u8> {
    seq![
        (x % 0x100) as u8,
        (x / 0x100 % 0x100) as u8,
        (x / 0x1_0000 % 0x100) as u8,
        (x / 0x100_0000 % 0x100) as u8,
        (x / 0x1_0000_0000 % 0x100) as u8,
        (x / 0x100_0000_0000 % 0x100) as u8,
        (x / 0x1_0000_0000_0000 % 0x100) as u8,
        (x / 0x100_0000_0000_0000) as u8,
    ]
}

/// Reading back the bytes of a 16-bit number gives the number.
pub proof fn lemma_u16_round_trip(x: u16)
    ensures
        u16_le(x).len() == 2,
        le_u16(u16_le(x)) == x,
{
}

/// Reading back the bytes of a 64-bit number gives the number.
pub proof fn lemma_u64_round_trip(x: u64)
    ensures
        u64_le(x).len() == 8,
        le_u64(u64_le(x)) == x,
{
    let q1: u64 = x / 0x100;
    let q2: u64 = x / 0x1_0000;
    let q3: u64 = x / 0x100_0000;
    let q4: u64 = x / 0x1_0000_0000;
    let q5: u64 = x / 0x100_0000_0000;
    let q6: u64 = x / 0x1_0000_0000_0000;
    let q7: u64 = x / 0x100_0000_0000_0000;
    assert(q2 == q1 / 0x100 && q3 == q2 / 0x100 && q4 == q3 / 0x100 && q5 == q4 / 0x100 && q6 == q5
        / 0x100 && q7 == q6 / 0x100 && q7 < 0x100) by (bit_vector)
        requires
            q1 == x / 0x100,
            q2 == x / 0x1_0000,
            q3 == x / 0x100_0000,
            q4 == x / 0x1_0000_0000,
            q5 == x / 0x100_0000_0000,
            q6 == x / 0x1_0000_0000_0000,
            q7 == x / 0x100_0000_0000_0000,
    ;
}

/// The 16-bit field at offset `at`.
pub fn read_u16(data: &[u8], at: usize) -> (r: u16)
    requires
        at + 2 <= data.len(),
    ensures
        r == le_u16(data@.subrange(at as int, at + 2)),
{
    (data[at] as u16) + 0x100 * (data[at + 1] as u16)
}

/// The unsigned 64-bit field at offset `at`.
pub fn read_u64(data: &[u8], at: usize) -> (r: u64)
    requires
        at + 8 <= data.len(),
    ensures
        r == le_u64(data@.subrange(at as int, at + 8)),
{
    (data[at] as u64) + 0x100 * (data[at + 1] as u64) + 0x1_0000 * (data[at + 2] as u64)
        + 0x100_0000 * (data[at + 3] as u64) + 0x1_0000_0000 * (data[at + 4] as u64)
        + 0x100_0000_0000 * (data[at + 5] as u64) + 0x1_0000_0000_0000 * (data[at + 6] as u64)
        + 0x100_0000_0000_0000 * (data[at + 7] as u64)
}

/// The signed 64-bit field at offset `at`.
pub fn read_i64(data: &[u8], at: usize) -> (r: i64)
    requires
        at + 8 <= data.len(),
    ensures
        r == le_i64(data@.subrange(at as int, at + 8)),
{
    let raw = read_u64(data, at);
    if raw < 0x8000_0000_0000_0000 {
        raw as i64
    } else {
        ((raw - 0x8000_0000_0000_0000) as i64) + i64::MIN
    }
}

/// The 32-byte address at offset `at`.
pub fn read_pubkey(data: &[u8], at: usize) -> (r: Pubkey)
    requires
        at + 32 <= data.len(),
    ensures
        r@ == data@.subrange(at as int, at + 32),
{
    let mut out: Pubkey = [0u8; 32];
    let mut i: usize = 0;
    while i < 32
        invariant
            i <= 32,
            at + 32 <= data.len(),
            forall|j: int| 0 <= j < i ==> out[j] == data[at + j],
        decreases 32 - i,
    {
        out[i] = data[at + i];
        i += 1;
    }
    assert(out@ =~= data@.subrange(at as int, at + 32));
    out
}

/// The eight little-endian bytes of `x`.
pub fn u64_to_le_array(x: u64) -> (r: [u8; 8])
    ensures
        r@ == u64_le(x),
{
    let r: [u8; 8] = [
        (x % 0x100) as u8,
        (x / 0x100 % 0x100) as u8,
        (x / 0x1_0000 % 0x100) as u8,
        (x / 0x100_0000 % 0x100) as u8,
        (x / 0x1_0000_0000 % 0x100) as u8,
        (x / 0x100_0000_0000 % 0x100) as u8,
        (x / 0x1_0000_0000_0000 % 0x100) as u8,
        (x / 0x100_0000_0000_0000) as u8,
    ];
    assert(r@ =~= u64_le(x));
    r
}

/// Appends the two little-endian bytes of `x`.
pub fn put_u16(out: &mut Vec<u8>, x: u16)
    ensures
        final(out)@ == old(out)@ + u16_le(x),
{
    out.push((x % 0x100) as u8);
    out.push((x / 0x100) as u8);
    assert(final(out)@ =~= old(out)@ + u16_le(x));
}

/// Appends the eight little-endian bytes of `x`.
pub fn put_u64(out: &mut Vec<u8>, x: u64)
    ensures
        final(out)@ == old(out)@ + u64_le(x),
{
    out.push((x % 0x100) as u8);
    out.push((x / 0x100 % 0x100) as u8);
    out.push((x / 0x1_0000 % 0x100) as u8);
    out.push((x / 0x100_0000 % 0x100) as u8);
    out.push((x / 0x1_0000_0000 % 0x100) as u8);
    out.push((x / 0x100_0000_0000 % 0x100) as u8);
    out.push((x / 0x1_0000_0000_0000 % 0x100) as u8);
    out.push((x / 0x100_0000_0000_0000) as u8);
    assert(final(out)@ =~= old(out)@ + u64_le(x));
}

/// Appends the 32 bytes of an address.
pub fn put_pubkey(out: &mut Vec<u8>, key: &Pubkey)
    ensures
        final(out)@ == old(out)@ + key@,
{
    let mut i: usize = 0;
    while i < 32
        invariant
            i <= 32,
            out@ == old(out)@ + key@.subrange(0, i as int),
        decreases 32 - i,
    {
        out.push(key[i]);
        assert(out@ =~= old(out)@ + key@.subrange(0, i + 1));
        i += 1;
    }
    assert(key@.subrange(0, 32) =~= key@);
}

} // verus!
