//! MurmurHash2, 32 bits: the hash udev monitors filter by.

use vstd::prelude::*;
use crate::wire::{read_u32_le, u32_from_le};

verus! {

pub const MURMUR_M: u32 = 0x5bd1e995;

/// One 4-byte group mixed into the hash.
pub open spec fn mix(h: u32, group: u32) -> u32 {
    let k1 = group.wrapping_mul(MURMUR_M);
    let k2 = k1 ^ (k1 >> 24u32);
    let k3 = k2.wrapping_mul(MURMUR_M);
    h.wrapping_mul(MURMUR_M) ^ k3
}

/// The hash after the first `groups` little-endian 4-byte groups of `data`.
pub open spec fn mix_groups(h: u32, data: Seq<u8>, groups: nat) -> u32
    decreases groups,
{
    if groups == 0 {
        h
    } else {
        mix(
            mix_groups(h, data, (groups - 1) as nat),
            u32_from_le(data.subrange(4 * (groups - 1), (4 * groups) as int)),
        )
    }
}

/// The bytes after the last whole group mixed into the hash.
pub open spec fn mix_tail(h: u32, tail: Seq<u8>) -> u32 {
    if tail.len() == 3 {
        let h1 = h ^ ((tail[2] as u32) << 16u32);
        let h2 = h1 ^ ((tail[1] as u32) << 8u32);
        let h3 = h2 ^ (tail[0] as u32);
        h3.wrapping_mul(MURMUR_M)
    } else if tail.len() == 2 {
        let h1 = h ^ ((tail[1] as u32) << 8u32);
        let h2 = h1 ^ (tail[0] as u32);
        h2.wrapping_mul(MURMUR_M)
    } else if tail.len() == 1 {
        let h1 = h ^ (tail[0] as u32);
        h1.wrapping_mul(MURMUR_M)
    } else {
        h
    }
}

/// The last avalanche of the hash.
pub open spec fn finish(h: u32) -> u32 {
    let h1 = h ^ (h >> 13u32);
    let h2 = h1.wrapping_mul(MURMUR_M);
    h2 ^ (h2 >> 15u32)
}

/// MurmurHash2 of `data` with `seed`.
pub open spec fn murmur2(data: Seq<u8>, seed: u32) -> u32 {
    let groups = (data.len() / 4) as nat;
    let h0 = seed ^ ((data.len() % 0x1_0000_0000) as u32);
    let h1 = mix_groups(h0, data, groups);
    finish(mix_tail(h1, data.subrange((4 * groups) as int, data.len() as int)))
}

/// MurmurHash2 of `data` with `seed`.
pub fn murmur_hash2(data: &[u8], seed: u32) -> (h: u32)
    ensures
        h == murmur2(data@, seed),
{
    let n: usize = data.len();
    let groups: usize = n / 4;
    let mut h: u32 = seed ^ ((n as u64 % 0x1_0000_0000) as u32);
    let mut i: usize = 0;
    while i < groups
        invariant
            i <= groups,
            groups == n / 4,
            n == data@.len(),
            h == mix_groups(
                seed ^ ((data@.len() % 0x1_0000_0000) as u32),
                data@,
                i as nat,
            ),
        decreases groups - i,
    {
        let mut k: u32 = read_u32_le(data, 4 * i);
        k = k.wrapping_mul(MURMUR_M);
        k = k ^ (k >> 24u32);
        k = k.wrapping_mul(MURMUR_M);
        h = h.wrapping_mul(MURMUR_M);
        h = h ^ k;
        i = i + 1;
    }
    let start: usize = 4 * groups;
    let rest: usize = n - start;
    proof {
        let tail = data@.subrange(4 * groups as int, n as int);
        assert(tail.len() == rest);
        if rest >= 1 {
            assert(tail[0] == data@[start as int]);
        }
        if rest >= 2 {
            assert(tail[1] == data@[start + 1]);
        }
        if rest >= 3 {
            assert(tail[2] == data@[start + 2]);
        }
    }
    if rest == 3 {
        h = h ^ ((data[start + 2] as u32) << 16u32);
        h = h ^ ((data[start + 1] as u32) << 8u32);
        h = h ^ (data[start] as u32);
        h = h.wrapping_mul(MURMUR_M);
    } else if rest == 2 {
        h = h ^ ((data[start + 1] as u32) << 8u32);
        h = h ^ (data[start] as u32);
        h = h.wrapping_mul(MURMUR_M);
    } else if rest == 1 {
        h = h ^ (data[start] as u32);
        h = h.wrapping_mul(MURMUR_M);
    }
    h = h ^ (h >> 13u32);
    h = h.wrapping_mul(MURMUR_M);
    h = h ^ (h >> 15u32);
    h
}

} // verus!
