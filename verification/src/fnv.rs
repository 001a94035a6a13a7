//! The FNV-1a hash, 64-bit variant: the deterministic content hash on which
//! label identity rests.

use vstd::prelude::*;

verus! {

/// The FNV-1a 64-bit offset basis: the state before any byte is mixed in.
pub const FNV_OFFSET_BASIS: u64 = 0xcbf29ce484222325;

/// The FNV-1a 64-bit prime.
pub const FNV_PRIME: u64 = 0x100000001b3;

/// One FNV-1a round: xor the byte into the state, then multiply by the
/// prime modulo 2^64.
pub open spec fn fnv1a_step(h: u64, b: u8) -> u64 {
    vstd::wrapping::u64_specs::wrapping_mul(h ^ (b as u64), FNV_PRIME)
}

/// The FNV-1a hash of a byte sequence: fold `fnv1a_step` over the bytes in
/// order, starting from the offset basis.
pub open spec fn fnv1a(bytes: Seq<u8>) -> u64
    decreases bytes.len(),
{
    if bytes.len() == 0 {
        FNV_OFFSET_BASIS
    } else {
        fnv1a_step(fnv1a(bytes.drop_last()), bytes.last())
    }
}

/// The hash of a string: FNV-1a over its UTF-8 bytes.
pub open spec fn label_hash(s: Seq<char>) -> u64 {
    fnv1a(vstd::utf8::encode_utf8(s))
}

/// FNV-1a, 64-bit, of a byte slice.
pub fn fnv1a_hash_bytes(bytes: &[u8]) -> (h: u64)
    ensures
        h == fnv1a(bytes@),
{
    let mut h: u64 = FNV_OFFSET_BASIS;
    let mut i: usize = 0;
    while i < bytes.len()
        invariant
            0 <= i <= bytes@.len(),
            h == fnv1a(bytes@.take(i as int)),
        decreases bytes@.len() - i,
    {
        let b: u8 = bytes[i];
        h = (h ^ (b as u64)).wrapping_mul(FNV_PRIME);
        i = i + 1;
        proof {
            let taken = bytes@.take(i as int);
            assert(taken.drop_last() =~= bytes@.take(i - 1));
            assert(taken.last() == b);
        }
    }
    proof {
        assert(bytes@.take(bytes@.len() as int) =~= bytes@);
    }
    h
}

/// FNV-1a, 64-bit, of a string's UTF-8 bytes.
pub fn fnv1a_hash_str_64(s: &str) -> (h: u64)
    ensures
        h == label_hash(s@),
{
    fnv1a_hash_bytes(s.as_bytes())
}

} // verus!
