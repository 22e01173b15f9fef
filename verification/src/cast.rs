//! Integer conversions that keep the low bits.

use vstd::prelude::*;

verus! {

/// The low 32 bits of `v`, in two's complement where it is negative.
pub open spec fn low32(v: int) -> u32 {
    (v % 0x1_0000_0000) as u32
}

/// The low 64 bits of `v`, in two's complement where it is negative.
pub open spec fn low64(v: int) -> u64 {
    (v % 0x1_0000_0000_0000_0000) as u64
}

/// The `i32` whose bits are those of `v`.
pub open spec fn signed32(v: u32) -> i32 {
    if v < 0x8000_0000 {
        v as i32
    } else {
        (v - 0x1_0000_0000) as i32
    }
}

/// The `i64` whose bits are those of `v`.
pub open spec fn signed64(v: u64) -> i64 {
    if v < 0x8000_0000_0000_0000 {
        v as i64
    } else {
        (v - 0x1_0000_0000_0000_0000) as i64
    }
}

/// The low bits of an `i32`.
pub fn i32_to_u32(v: i32) -> (r: u32)
    ensures
        r == low32(v as int),
{
    assert(v as u32 as int == v as int % 0x1_0000_0000) by (bit_vector);
    v as u32
}

/// An `i32` from its bits.
pub fn u32_to_i32(v: u32) -> (r: i32)
    ensures
        r == signed32(v),
{
    assert(v < 0x8000_0000 ==> v as i32 as int == v as int) by (bit_vector);
    assert(v >= 0x8000_0000 ==> v as i32 as int == v as int - 0x1_0000_0000) by (bit_vector);
    v as i32
}

/// The low bits of a `u64`.
pub fn u64_to_u32(v: u64) -> (r: u32)
    ensures
        r == low32(v as int),
{
    assert(v as u32 as int == v as int % 0x1_0000_0000) by (bit_vector);
    v as u32
}

/// The low bits of an `i64`.
pub fn i64_to_u32(v: i64) -> (r: u32)
    ensures
        r == low32(v as int),
{
    assert(v as u32 as int == v as int % 0x1_0000_0000) by (bit_vector);
    v as u32
}

/// The bits of an `i64`.
pub fn i64_to_u64(v: i64) -> (r: u64)
    ensures
        r == low64(v as int),
{
    assert(v as u64 as int == v as int % 0x1_0000_0000_0000_0000) by (bit_vector);
    v as u64
}

/// An `i64` from its bits.
pub fn u64_to_i64(v: u64) -> (r: i64)
    ensures
        r == signed64(v),
{
    assert(v < 0x8000_0000_0000_0000 ==> v as i64 as int == v as int) by (bit_vector);
    assert(v >= 0x8000_0000_0000_0000 ==> v as i64 as int == v as int - 0x1_0000_0000_0000_0000)
        by (bit_vector);
    v as i64
}

/// The low bits of a length.
pub fn usize_to_u32(v: usize) -> (r: u32)
    ensures
        r == low32(v as int),
{
    u64_to_u32(v as u64)
}

/// An `i64` made of the bits of a `u64` has those bits.
pub proof fn lemma_low64_signed64(v: u64)
    ensures
        low64(signed64(v) as int) == v,
{
}

} // verus!
