//! Integers and structures in the byte layout that `/dev/fuse` speaks.
//!
//! The kernel exchanges C structures in the byte order of the machine it runs on, so every
//! encoder and decoder takes the [`ByteOrder`] as an argument.

use vstd::prelude::*;

use crate::cast;

verus! {

/// The order in which the bytes of an integer stand in memory.
#[derive(Clone, Copy, Debug, PartialEq, Eq, Structural)]
pub enum ByteOrder {
    /// The least significant byte comes first.
    Little,
    /// The most significant byte comes first.
    Big,
}

/// 256 to the power of `n`: how many values `n` bytes can tell apart.
pub open spec fn pow256(n: nat) -> nat
    decreases n,
{
    if n == 0 {
        1
    } else {
        256 * pow256((n - 1) as nat)
    }
}

/// The `n` low bytes of `v`, least significant first.
pub open spec fn le_bytes(v: nat, n: nat) -> Seq<u8>
    decreases n,
{
    if n == 0 {
        Seq::empty()
    } else {
        seq![(v % 256) as u8] + le_bytes(v / 256, (n - 1) as nat)
    }
}

/// The number whose bytes, least significant first, are `s`.
pub open spec fn le_value(s: Seq<u8>) -> nat
    decreases s.len(),
{
    if s.len() == 0 {
        0
    } else {
        s[0] as nat + 256 * le_value(s.drop_first())
    }
}

/// `v` as an unsigned integer of `n` bytes.
pub open spec fn uint_bytes(order: ByteOrder, v: nat, n: nat) -> Seq<u8> {
    match order {
        ByteOrder::Little => le_bytes(v, n),
        ByteOrder::Big => le_bytes(v, n).reverse(),
    }
}

/// The unsigned integer that fills all of `s`.
pub open spec fn uint_value(order: ByteOrder, s: Seq<u8>) -> nat {
    match order {
        ByteOrder::Little => le_value(s),
        ByteOrder::Big => le_value(s.reverse()),
    }
}

/// The unsigned integer of `n` bytes at offset `off` of `s`.
pub open spec fn uint_at(order: ByteOrder, s: Seq<u8>, off: int, n: nat) -> nat {
    uint_value(order, s.subrange(off, off + n))
}

/// A `u16` on the wire.
pub open spec fn u16_bytes(order: ByteOrder, v: u16) -> Seq<u8> {
    uint_bytes(order, v as nat, 2)
}

/// A `u32` on the wire.
pub open spec fn u32_bytes(order: ByteOrder, v: u32) -> Seq<u8> {
    uint_bytes(order, v as nat, 4)
}

/// A `u64` on the wire.
pub open spec fn u64_bytes(order: ByteOrder, v: u64) -> Seq<u8> {
    uint_bytes(order, v as nat, 8)
}

/// An `i32` on the wire, in two's complement.
pub open spec fn i32_bytes(order: ByteOrder, v: i32) -> Seq<u8> {
    uint_bytes(order, cast::low32(v as int) as nat, 4)
}

/// The `u16` at offset `off`.
pub open spec fn u16_at(order: ByteOrder, s: Seq<u8>, off: int) -> u16 {
    uint_at(order, s, off, 2) as u16
}

/// The `u32` at offset `off`.
pub open spec fn u32_at(order: ByteOrder, s: Seq<u8>, off: int) -> u32 {
    uint_at(order, s, off, 4) as u32
}

/// The `u64` at offset `off`.
pub open spec fn u64_at(order: ByteOrder, s: Seq<u8>, off: int) -> u64 {
    uint_at(order, s, off, 8) as u64
}

/// The `i32` at offset `off`, from two's complement.
pub open spec fn i32_at(order: ByteOrder, s: Seq<u8>, off: int) -> i32 {
    cast::signed32(uint_at(order, s, off, 4) as u32)
}

proof fn lemma_le_bytes_len(v: nat, n: nat)
    ensures
        le_bytes(v, n).len() == n,
    decreases n,
{
    if n > 0 {
        lemma_le_bytes_len(v / 256, (n - 1) as nat);
    }
}

proof fn lemma_le_value_bound(s: Seq<u8>)
    ensures
        le_value(s) < pow256(s.len()),
    decreases s.len(),
{
    if s.len() > 0 {
        lemma_le_value_bound(s.drop_first());
    }
}

proof fn lemma_le_value_of_bytes(v: nat, n: nat)
    requires
        v < pow256(n),
    ensures
        le_value(le_bytes(v, n)) == v,
    decreases n,
{
    if n > 0 {
        lemma_le_value_of_bytes(v / 256, (n - 1) as nat);
        assert(le_bytes(v, n).drop_first() =~= le_bytes(v / 256, (n - 1) as nat));
    }
}

proof fn lemma_le_bytes_of_value(s: Seq<u8>)
    ensures
        le_bytes(le_value(s), s.len()) == s,
    decreases s.len(),
{
    if s.len() > 0 {
        lemma_le_bytes_of_value(s.drop_first());
        assert(s =~= seq![s[0]] + s.drop_first());
    } else {
        assert(s =~= Seq::<u8>::empty());
    }
}

/// What `n` bytes can hold, for the integer sizes that occur on the wire.
pub(crate) proof fn lemma_pow256()
    ensures
        pow256(2) == 0x1_0000,
        pow256(4) == 0x1_0000_0000,
        pow256(8) == 0x1_0000_0000_0000_0000,
{
    reveal_with_fuel(pow256, 9);
}

/// An integer of `n` bytes occupies `n` bytes.
pub proof fn lemma_uint_bytes_len(order: ByteOrder, v: nat, n: nat)
    ensures
        uint_bytes(order, v, n).len() == n,
{
    lemma_le_bytes_len(v, n);
}

/// An integer of `n` bytes is below `pow256(n)`.
pub proof fn lemma_uint_value_bound(order: ByteOrder, s: Seq<u8>)
    ensures
        uint_value(order, s) < pow256(s.len()),
{
    lemma_le_value_bound(s);
    lemma_le_value_bound(s.reverse());
}

/// Reading an integer back gives the number that was written, in either byte order.
pub proof fn lemma_uint_value_of_bytes(order: ByteOrder, v: nat, n: nat)
    requires
        v < pow256(n),
    ensures
        uint_value(order, uint_bytes(order, v, n)) == v,
{
    lemma_le_value_of_bytes(v, n);
    assert(le_bytes(v, n).reverse().reverse() =~= le_bytes(v, n));
}

/// Writing an integer that was read gives back the bytes it was read from.
pub proof fn lemma_uint_bytes_of_value(order: ByteOrder, s: Seq<u8>)
    ensures
        uint_bytes(order, uint_value(order, s), s.len()) == s,
{
    lemma_le_bytes_of_value(s);
    lemma_le_bytes_of_value(s.reverse());
    assert(s.reverse().reverse() =~= s);
}

pub(crate) broadcast proof fn lemma_u16_len(order: ByteOrder, v: u16)
    ensures
        (#[trigger] u16_bytes(order, v)).len() == 2,
{
    lemma_uint_bytes_len(order, v as nat, 2);
}

pub(crate) broadcast proof fn lemma_u16_before(order: ByteOrder, s: Seq<u8>, t: Seq<u8>, off: int)
    requires
        0 <= off,
        off + 2 <= s.len(),
    ensures
        #[trigger] u16_at(order, s + t, off) == u16_at(order, s, off),
{
    assert((s + t).subrange(off, off + 2) =~= s.subrange(off, off + 2));
}

pub(crate) broadcast proof fn lemma_u16_last(order: ByteOrder, s: Seq<u8>, v: u16, off: int)
    requires
        off == s.len(),
    ensures
        #[trigger] u16_at(order, s + u16_bytes(order, v), off) == v,
{
    lemma_u16_len(order, v);
    lemma_u16_first(order, v);
    let b = u16_bytes(order, v);
    assert((s + b).subrange(off, off + 2) =~= b.subrange(0, 2));
}

pub(crate) broadcast proof fn lemma_u16_first(order: ByteOrder, v: u16)
    ensures
        #[trigger] u16_at(order, u16_bytes(order, v), 0) == v,
{
    lemma_pow256();
    let raw = v as nat;
    lemma_uint_value_of_bytes(order, raw, 2);
    lemma_u16_len(order, v);
    assert(u16_bytes(order, v).subrange(0, 2) =~= u16_bytes(order, v));
}

pub(crate) broadcast proof fn lemma_u16_kept(order: ByteOrder, s: Seq<u8>, off: int)
    requires
        0 <= off,
        off + 2 <= s.len(),
    ensures
        #[trigger] u16_bytes(order, u16_at(order, s, off)) == s.subrange(off, off + 2),
{
    lemma_pow256();
    lemma_uint_value_bound(order, s.subrange(off, off + 2));
    lemma_uint_bytes_of_value(order, s.subrange(off, off + 2));
}

pub(crate) broadcast proof fn lemma_u32_len(order: ByteOrder, v: u32)
    ensures
        (#[trigger] u32_bytes(order, v)).len() == 4,
{
    lemma_uint_bytes_len(order, v as nat, 4);
}

pub(crate) broadcast proof fn lemma_u32_before(order: ByteOrder, s: Seq<u8>, t: Seq<u8>, off: int)
    requires
        0 <= off,
        off + 4 <= s.len(),
    ensures
        #[trigger] u32_at(order, s + t, off) == u32_at(order, s, off),
{
    assert((s + t).subrange(off, off + 4) =~= s.subrange(off, off + 4));
}

pub(crate) broadcast proof fn lemma_u32_last(order: ByteOrder, s: Seq<u8>, v: u32, off: int)
    requires
        off == s.len(),
    ensures
        #[trigger] u32_at(order, s + u32_bytes(order, v), off) == v,
{
    lemma_u32_len(order, v);
    lemma_u32_first(order, v);
    let b = u32_bytes(order, v);
    assert((s + b).subrange(off, off + 4) =~= b.subrange(0, 4));
}

pub(crate) broadcast proof fn lemma_u32_first(order: ByteOrder, v: u32)
    ensures
        #[trigger] u32_at(order, u32_bytes(order, v), 0) == v,
{
    lemma_pow256();
    let raw = v as nat;
    lemma_uint_value_of_bytes(order, raw, 4);
    lemma_u32_len(order, v);
    assert(u32_bytes(order, v).subrange(0, 4) =~= u32_bytes(order, v));
}

pub(crate) broadcast proof fn lemma_u32_kept(order: ByteOrder, s: Seq<u8>, off: int)
    requires
        0 <= off,
        off + 4 <= s.len(),
    ensures
        #[trigger] u32_bytes(order, u32_at(order, s, off)) == s.subrange(off, off + 4),
{
    lemma_pow256();
    lemma_uint_value_bound(order, s.subrange(off, off + 4));
    lemma_uint_bytes_of_value(order, s.subrange(off, off + 4));
}

pub(crate) broadcast proof fn lemma_u64_len(order: ByteOrder, v: u64)
    ensures
        (#[trigger] u64_bytes(order, v)).len() == 8,
{
    lemma_uint_bytes_len(order, v as nat, 8);
}

pub(crate) broadcast proof fn lemma_u64_before(order: ByteOrder, s: Seq<u8>, t: Seq<u8>, off: int)
    requires
        0 <= off,
        off + 8 <= s.len(),
    ensures
        #[trigger] u64_at(order, s + t, off) == u64_at(order, s, off),
{
    assert((s + t).subrange(off, off + 8) =~= s.subrange(off, off + 8));
}

pub(crate) broadcast proof fn lemma_u64_last(order: ByteOrder, s: Seq<u8>, v: u64, off: int)
    requires
        off == s.len(),
    ensures
        #[trigger] u64_at(order, s + u64_bytes(order, v), off) == v,
{
    lemma_u64_len(order, v);
    lemma_u64_first(order, v);
    let b = u64_bytes(order, v);
    assert((s + b).subrange(off, off + 8) =~= b.subrange(0, 8));
}

pub(crate) broadcast proof fn lemma_u64_first(order: ByteOrder, v: u64)
    ensures
        #[trigger] u64_at(order, u64_bytes(order, v), 0) == v,
{
    lemma_pow256();
    let raw = v as nat;
    lemma_uint_value_of_bytes(order, raw, 8);
    lemma_u64_len(order, v);
    assert(u64_bytes(order, v).subrange(0, 8) =~= u64_bytes(order, v));
}

pub(crate) broadcast proof fn lemma_u64_kept(order: ByteOrder, s: Seq<u8>, off: int)
    requires
        0 <= off,
        off + 8 <= s.len(),
    ensures
        #[trigger] u64_bytes(order, u64_at(order, s, off)) == s.subrange(off, off + 8),
{
    lemma_pow256();
    lemma_uint_value_bound(order, s.subrange(off, off + 8));
    lemma_uint_bytes_of_value(order, s.subrange(off, off + 8));
}

pub(crate) broadcast proof fn lemma_i32_len(order: ByteOrder, v: i32)
    ensures
        (#[trigger] i32_bytes(order, v)).len() == 4,
{
    lemma_uint_bytes_len(order, cast::low32(v as int) as nat, 4);
}

pub(crate) broadcast proof fn lemma_i32_before(order: ByteOrder, s: Seq<u8>, t: Seq<u8>, off: int)
    requires
        0 <= off,
        off + 4 <= s.len(),
    ensures
        #[trigger] i32_at(order, s + t, off) == i32_at(order, s, off),
{
    assert((s + t).subrange(off, off + 4) =~= s.subrange(off, off + 4));
}

pub(crate) broadcast proof fn lemma_i32_last(order: ByteOrder, s: Seq<u8>, v: i32, off: int)
    requires
        off == s.len(),
    ensures
        #[trigger] i32_at(order, s + i32_bytes(order, v), off) == v,
{
    lemma_i32_len(order, v);
    lemma_i32_first(order, v);
    let b = i32_bytes(order, v);
    assert((s + b).subrange(off, off + 4) =~= b.subrange(0, 4));
}

pub(crate) broadcast proof fn lemma_i32_first(order: ByteOrder, v: i32)
    ensures
        #[trigger] i32_at(order, i32_bytes(order, v), 0) == v,
{
    lemma_pow256();
    let raw = cast::low32(v as int) as nat;
    lemma_uint_value_of_bytes(order, raw, 4);
    lemma_i32_len(order, v);
    assert(i32_bytes(order, v).subrange(0, 4) =~= i32_bytes(order, v));
}

pub(crate) broadcast proof fn lemma_i32_kept(order: ByteOrder, s: Seq<u8>, off: int)
    requires
        0 <= off,
        off + 4 <= s.len(),
    ensures
        #[trigger] i32_bytes(order, i32_at(order, s, off)) == s.subrange(off, off + 4),
{
    lemma_pow256();
    lemma_uint_value_bound(order, s.subrange(off, off + 4));
    lemma_uint_bytes_of_value(order, s.subrange(off, off + 4));
}

pub(crate) broadcast proof fn lemma_subrange_join(s: Seq<u8>, a: int, b: int, c: int)
    requires
        0 <= a <= b <= c <= s.len(),
    ensures
        #[trigger] (s.subrange(a, b) + s.subrange(b, c)) == s.subrange(a, c),
{
    assert(s.subrange(a, b) + s.subrange(b, c) =~= s.subrange(a, c));
}

pub(crate) broadcast proof fn lemma_concat_assoc(a: Seq<u8>, b: Seq<u8>, c: Seq<u8>)
    ensures
        #[trigger] (a + (b + c)) == (a + b) + c,
{
    assert(a + (b + c) =~= (a + b) + c);
}

/// How long a field is, and that reading it gives what was written.
pub(crate) broadcast group group_field_written {
    lemma_u16_len,
    lemma_u16_before,
    lemma_u16_last,
    lemma_u16_first,
    lemma_u32_len,
    lemma_u32_before,
    lemma_u32_last,
    lemma_u32_first,
    lemma_u64_len,
    lemma_u64_before,
    lemma_u64_last,
    lemma_u64_first,
    lemma_i32_len,
    lemma_i32_before,
    lemma_i32_last,
    lemma_i32_first,
}

/// That writing a field that was read gives back its bytes.
pub(crate) broadcast group group_field_read {
    lemma_subrange_join,
    lemma_u16_kept,
    lemma_u32_kept,
    lemma_u64_kept,
    lemma_i32_kept,
}

/// Appends `v` to `out` as an unsigned integer of `n` bytes.
fn put_uint(out: &mut Vec<u8>, order: ByteOrder, v: u64, n: usize)
    ensures
        final(out)@ == old(out)@ + uint_bytes(order, v as nat, n as nat),
{
    match order {
        ByteOrder::Little => put_uint_le(out, v, n),
        ByteOrder::Big => {
            let mut low_first: Vec<u8> = Vec::with_capacity(n);
            put_uint_le(&mut low_first, v, n);
            proof {
                lemma_le_bytes_len(v as nat, n as nat);
                assert(low_first@ =~= le_bytes(v as nat, n as nat));
            }
            let mut k: usize = n;
            assert(low_first@.reverse().take(0) =~= Seq::<u8>::empty());
            while k > 0
                invariant
                    k <= n == low_first.len(),
                    out@ == old(out)@ + low_first@.reverse().take(n - k),
                decreases k,
            {
                k = k - 1;
                out.push(low_first[k]);
                assert(low_first@.reverse().take(n - k) =~= low_first@.reverse().take(
                    n - k - 1,
                ).push(low_first@[k as int]));
            }
            assert(low_first@.reverse().take(n as int) =~= low_first@.reverse());
        },
    }
}

/// Appends the `n` low bytes of `v` to `out`, least significant first.
fn put_uint_le(out: &mut Vec<u8>, v: u64, n: usize)
    ensures
        final(out)@ == old(out)@ + le_bytes(v as nat, n as nat),
{
    let mut rest: u64 = v;
    let mut k: usize = 0;
    while k < n
        invariant
            k <= n,
            out@ + le_bytes(rest as nat, (n - k) as nat) == old(out)@ + le_bytes(
                v as nat,
                n as nat,
            ),
        decreases n - k,
    {
        let ghost before = out@;
        out.push((rest % 256) as u8);
        assert(before + le_bytes(rest as nat, (n - k) as nat) =~= out@ + le_bytes(
            rest as nat / 256,
            (n - k - 1) as nat,
        ));
        rest = rest / 256;
        k = k + 1;
    }
    assert(out@ + le_bytes(rest as nat, 0) =~= out@);
}

/// Reads the unsigned integer of `n` bytes at offset `off` of `s`.
fn get_uint(s: &[u8], order: ByteOrder, off: usize, n: usize) -> (v: u64)
    requires
        off + n <= s@.len(),
        n <= 8,
    ensures
        v == uint_at(order, s@, off as int, n as nat),
{
    let mut v: u64 = 0;
    let mut k: usize = 0;
    let ghost part = s@.subrange(off as int, off + n);
    // The bytes are folded in from the most significant one on.
    let ghost high_first = match order {
        ByteOrder::Little => part.reverse(),
        ByteOrder::Big => part,
    };
    assert(high_first.take(0).reverse() =~= Seq::<u8>::empty());
    while k < n
        invariant
            k <= n <= 8,
            off + n <= s.len(),
            part == s@.subrange(off as int, off + n),
            high_first == (match order {
                ByteOrder::Little => part.reverse(),
                ByteOrder::Big => part,
            }),
            v == le_value(high_first.take(k as int).reverse()),
        decreases n - k,
    {
        let b: u8 = match order {
            ByteOrder::Little => s[off + (n - 1 - k)],
            ByteOrder::Big => s[off + k],
        };
        proof {
            assert(b == high_first[k as int]);
            let next = high_first.take(k + 1).reverse();
            assert(next.drop_first() =~= high_first.take(k as int).reverse());
            assert(next[0] == b);
            lemma_le_value_bound(next);
            lemma_pow256_up_to_8(k as nat + 1);
        }
        v = v * 256 + b as u64;
        k = k + 1;
    }
    assert(high_first.take(n as int) =~= high_first);
    assert(part.reverse().reverse() =~= part);
    v
}

proof fn lemma_pow256_up_to_8(n: nat)
    requires
        n <= 8,
    ensures
        pow256(n) <= 0x1_0000_0000_0000_0000,
{
    reveal_with_fuel(pow256, 9);
}

/// Appends a `u16`.
pub fn put_u16(out: &mut Vec<u8>, order: ByteOrder, v: u16)
    ensures
        final(out)@ == old(out)@ + u16_bytes(order, v),
{
    put_uint(out, order, v as u64, 2);
}

/// Reads the `u16` at offset `off`.
pub fn get_u16(s: &[u8], order: ByteOrder, off: usize) -> (v: u16)
    requires
        off + 2 <= s@.len(),
    ensures
        v == u16_at(order, s@, off as int),
{
    let raw: u64 = get_uint(s, order, off, 2);
    proof {
        lemma_pow256();
        lemma_uint_value_bound(order, s@.subrange(off as int, off + 2));
    }
    raw as u16
}

/// Appends a `u32`.
pub fn put_u32(out: &mut Vec<u8>, order: ByteOrder, v: u32)
    ensures
        final(out)@ == old(out)@ + u32_bytes(order, v),
{
    put_uint(out, order, v as u64, 4);
}

/// Reads the `u32` at offset `off`.
pub fn get_u32(s: &[u8], order: ByteOrder, off: usize) -> (v: u32)
    requires
        off + 4 <= s@.len(),
    ensures
        v == u32_at(order, s@, off as int),
{
    let raw: u64 = get_uint(s, order, off, 4);
    proof {
        lemma_pow256();
        lemma_uint_value_bound(order, s@.subrange(off as int, off + 4));
    }
    raw as u32
}

/// Appends a `u64`.
pub fn put_u64(out: &mut Vec<u8>, order: ByteOrder, v: u64)
    ensures
        final(out)@ == old(out)@ + u64_bytes(order, v),
{
    put_uint(out, order, v as u64, 8);
}

/// Reads the `u64` at offset `off`.
pub fn get_u64(s: &[u8], order: ByteOrder, off: usize) -> (v: u64)
    requires
        off + 8 <= s@.len(),
    ensures
        v == u64_at(order, s@, off as int),
{
    let raw: u64 = get_uint(s, order, off, 8);
    proof {
        lemma_pow256();
        lemma_uint_value_bound(order, s@.subrange(off as int, off + 8));
    }
    raw as u64
}

/// Appends an `i32`.
pub fn put_i32(out: &mut Vec<u8>, order: ByteOrder, v: i32)
    ensures
        final(out)@ == old(out)@ + i32_bytes(order, v),
{
    put_uint(out, order, cast::i32_to_u32(v) as u64, 4);
}

/// Reads the `i32` at offset `off`.
pub fn get_i32(s: &[u8], order: ByteOrder, off: usize) -> (v: i32)
    requires
        off + 4 <= s@.len(),
    ensures
        v == i32_at(order, s@, off as int),
{
    let raw: u64 = get_uint(s, order, off, 4);
    proof {
        lemma_pow256();
        lemma_uint_value_bound(order, s@.subrange(off as int, off + 4));
    }
    cast::u32_to_i32(raw as u32)
}

/// A structure of the kernel protocol: a fixed number of bytes without gaps.
pub trait Wire: Sized {
    /// How many bytes the structure occupies.
    spec fn wire_size() -> nat;

    /// The structure as the kernel lays it out.
    spec fn to_wire(self, order: ByteOrder) -> Seq<u8>;

    /// The structure at the start of `s`, which holds at least `wire_size` bytes.
    spec fn from_wire(order: ByteOrder, s: Seq<u8>) -> Self;

    /// How many bytes the structure occupies.
    fn size() -> (n: usize)
        ensures
            n == Self::wire_size(),
    ;

    /// Appends the structure to `out`.
    fn encode(&self, order: ByteOrder, out: &mut Vec<u8>)
        ensures
            final(out)@ == old(out)@ + self.to_wire(order),
    ;

    /// Reads the structure at the start of `s`.
    fn decode(order: ByteOrder, s: &[u8]) -> (r: Self)
        requires
            Self::wire_size() <= s@.len(),
        ensures
            r == Self::from_wire(order, s@),
    ;

    /// The encoding has the declared size.
    proof fn lemma_size(self, order: ByteOrder)
        ensures
            self.to_wire(order).len() == Self::wire_size(),
    ;

    /// Decoding gives back what was encoded, whatever follows it.
    proof fn lemma_decode_encode(self, order: ByteOrder, rest: Seq<u8>)
        ensures
            Self::from_wire(order, self.to_wire(order) + rest) == self,
    ;

    /// Encoding gives back what was decoded: every byte belongs to a field.
    proof fn lemma_encode_decode(order: ByteOrder, s: Seq<u8>)
        requires
            s.len() == Self::wire_size(),
        ensures
            Self::from_wire(order, s).to_wire(order) == s,
    ;
}

/// The bytes of a structure, as the kernel expects them.
pub fn as_bytes<T: Wire>(order: ByteOrder, val: &T) -> (r: Vec<u8>)
    ensures
        r@ == val.to_wire(order),
        r@.len() == T::wire_size(),
{
    let mut out: Vec<u8> = Vec::with_capacity(T::size());
    val.encode(order, &mut out);
    proof {
        val.lemma_size(order);
        assert(out@ =~= val.to_wire(order));
    }
    out
}

} // verus!
