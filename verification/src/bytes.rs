//! Little-endian integers and addresses read from a byte buffer.

use vstd::prelude::*;
use crate::pubkey::Pubkey;

verus! {

/// The 16-bit little-endian integer that starts at `at`.
pub open spec fn u16_le(bytes: Seq<u8>, at: int) -> u16 {
    (bytes[at] as int + 0x100 * bytes[at + 1] as int) as u16
}

/// The 64-bit little-endian integer that starts at `at`.
pub open spec fn u64_le(bytes: Seq<u8>, at: int) -> u64 {
    (bytes[at] as int + 0x100 * bytes[at + 1] as int + 0x1_0000 * bytes[at + 2] as int
        + 0x100_0000 * bytes[at + 3] as int + 0x1_0000_0000 * bytes[at + 4] as int
        + 0x100_0000_0000 * bytes[at + 5] as int + 0x1_0000_0000_0000 * bytes[at + 6] as int
        + 0x100_0000_0000_0000 * bytes[at + 7] as int) as u64
}

/// The two bytes of `value`, low byte first.
pub open spec fn u16_le_bytes(value: u16) -> Seq<u8> {
    seq![(value % 0x100) as u8, (value / 0x100) as u8]
}

/// Reads the 16-bit little-endian integer that starts at `at`.
pub fn read_u16_le(data: &[u8], at: usize) -> (value: u16)
    requires
        at + 2 <= data@.len(),
    ensures
        value == u16_le(data@, at as int),
{
    data[at] as u16 + 0x100 * (data[at + 1] as u16)
}

/// Reads the 64-bit little-endian integer that starts at `at`.
pub fn read_u64_le(data: &[u8], at: usize) -> (value: u64)
    requires
        at + 8 <= data@.len(),
    ensures
        value == u64_le(data@, at as int),
{
    let low: u64 = data[at] as u64 + 0x100 * (data[at + 1] as u64) + 0x1_0000 * (data[at
        + 2] as u64) + 0x100_0000 * (data[at + 3] as u64);
    let high: u64 = data[at + 4] as u64 + 0x100 * (data[at + 5] as u64) + 0x1_0000 * (data[at
        + 6] as u64) + 0x100_0000 * (data[at + 7] as u64);
    low + 0x1_0000_0000 * high
}

/// Reads the address that starts at `at`.
pub fn read_key(data: &[u8], at: usize) -> (key: Pubkey)
    requires
        at + 32 <= data@.len(),
    ensures
        key@ == data@.subrange(at as int, at + 32),
{
    let mut key: Pubkey = [0u8; 32];
    let mut i: usize = 0;
    while i < 32
        invariant
            i <= 32,
            at + 32 <= data.len(),
            forall|j: int| 0 <= j < i ==> key[j] == data@[at + j],
        decreases 32 - i,
    {
        key[i] = data[at + i];
        i = i + 1;
    }
    assert(key@ =~= data@.subrange(at as int, at + 32));
    key
}

/// Reading back the two bytes of a 16-bit integer gives the integer.
pub proof fn lemma_u16_le_round_trip(value: u16)
    ensures
        u16_le_bytes(value).len() == 2,
        u16_le(u16_le_bytes(value), 0) == value,
{
}

} // verus!
