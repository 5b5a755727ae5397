//! Addresses on the host ledger.

use vstd::prelude::*;

verus! {

/// A 32-byte address.
pub type Pubkey = [u8; 32];

/// Whether two addresses hold the same bytes.
pub fn pubkey_eq(a: &Pubkey, b: &Pubkey) -> (r: bool)
    ensures
        r == (*a == *b),
{
    let mut i: usize = 0;
    while i < 32
        invariant
            i <= 32,
            forall|j: int| 0 <= j < i ==> a[j] == b[j],
        decreases 32 - i,
    {
        if a[i] != b[i] {
            return false;
        }
        i += 1;
    }
    assert(*a =~= *b);
    true
}

/// The all-zero address, which stands for "none" where an address is optional.
pub const ZERO_PUBKEY: Pubkey = [
    0x00, 0x00, 0x00, 0x00, 0x00, 0x00, 0x00, 0x00,
    0x00, 0x00, 0x00, 0x00, 0x00, 0x00, 0x00, 0x00,
    0x00, 0x00, 0x00, 0x00, 0x00, 0x00, 0x00, 0x00,
    0x00, 0x00, 0x00, 0x00, 0x00, 0x00, 0x00, 0x00,
];

/// An address whose first `n` bytes are those of `bytes`.
pub open spec fn pubkey_prefix(bytes: Seq<u8>, n: nat) -> Pubkey
    decreases n,
{
    if n == 0 {
        ZERO_PUBKEY
    } else {
        vstd::array::spec_array_update(pubkey_prefix(bytes, (n - 1) as nat), n - 1, bytes[n - 1])
    }
}

/// The address that 32 bytes spell.
pub open spec fn pubkey_of(bytes: Seq<u8>) -> Pubkey
    recommends
        bytes.len() == 32,
{
    pubkey_prefix(bytes, 32)
}

/// `pubkey_prefix` agrees with `bytes` on the first `n` places.
pub proof fn lemma_pubkey_prefix(bytes: Seq<u8>, n: nat)
    requires
        bytes.len() == 32,
        n <= 32,
    ensures
        forall|i: int| 0 <= i < n ==> pubkey_prefix(bytes, n)@[i] == bytes[i],
    decreases n,
{
    if n > 0 {
        lemma_pubkey_prefix(bytes, (n - 1) as nat);
        let before = pubkey_prefix(bytes, (n - 1) as nat);
        vstd::array::axiom_spec_array_update(before, n - 1, bytes[n - 1]);
        assert(pubkey_prefix(bytes, n)@ == before@.update(n - 1, bytes[n - 1]));
    }
}

/// Every string of 32 bytes spells an address, and only one.
pub proof fn lemma_pubkey_of(bytes: Seq<u8>)
    requires
        bytes.len() == 32,
    ensures
        pubkey_of(bytes)@ == bytes,
{
    lemma_pubkey_prefix(bytes, 32);
    assert(pubkey_of(bytes)@ =~= bytes);
}

} // verus!
