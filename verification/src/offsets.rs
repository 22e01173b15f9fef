//! Where each field stands in the kernel's structures.
//!
//! The offsets are those of the C structures of `<linux/fuse.h>`. What is at an offset is an
//! integer of so many bytes, the least significant one first or last as the byte order says.

use vstd::prelude::*;

use crate::cast;
use crate::protocol::{
    FuseAttr, FuseAttrOut, FuseBatchForgetIn, FuseCreateIn, FuseDirent, FuseEntryOut, FuseForgetIn,
    FuseForgetOne, FuseGetxattrIn, FuseGetxattrOut, FuseInHeader, FuseInitIn, FuseInitOut,
    FuseKstatfs, FuseMkdirIn, FuseMknodIn, FuseOpenIn, FuseOpenOut, FuseOutHeader, FuseReadIn,
    FuseReleaseIn, FuseRename2In, FuseSetattrIn, FuseWriteIn, FuseWriteOut,
};
use crate::wire;
use crate::wire::{ByteOrder, Wire};

verus! {

/// The number that the two bytes at `off` make up.
pub proof fn lemma_u16_at(order: ByteOrder, s: Seq<u8>, off: int)
    requires
        0 <= off,
        off + 2 <= s.len(),
    ensures
        wire::u16_at(order, s, off) == (match order {
            ByteOrder::Little => s[off] + s[off + 1] * 0x100,
            ByteOrder::Big => s[off] * 0x100 + s[off + 1],
        }),
{
    let part = s.subrange(off, off + 2);
    reveal_with_fuel(wire::le_value, 3);
    lemma_tail(part, 2);
    lemma_tail(part.reverse(), 2);
    wire::lemma_pow256();
    wire::lemma_uint_value_bound(order, part);
}

/// The number that the four bytes at `off` make up.
pub proof fn lemma_u32_at(order: ByteOrder, s: Seq<u8>, off: int)
    requires
        0 <= off,
        off + 4 <= s.len(),
    ensures
        wire::u32_at(order, s, off) == (match order {
            ByteOrder::Little => s[off] + s[off + 1] * 0x100 + s[off + 2] * 0x1_0000 + s[off + 3]
                * 0x100_0000,
            ByteOrder::Big => s[off] * 0x100_0000 + s[off + 1] * 0x1_0000 + s[off + 2] * 0x100
                + s[off + 3],
        }),
{
    let part = s.subrange(off, off + 4);
    reveal_with_fuel(wire::le_value, 5);
    lemma_tail(part, 4);
    lemma_tail(part.reverse(), 4);
    wire::lemma_pow256();
    wire::lemma_uint_value_bound(order, part);
}

/// The number that the eight bytes at `off` make up.
pub proof fn lemma_u64_at(order: ByteOrder, s: Seq<u8>, off: int)
    requires
        0 <= off,
        off + 8 <= s.len(),
    ensures
        wire::u64_at(order, s, off) == (match order {
            ByteOrder::Little => wire::u32_at(order, s, off) + wire::u32_at(order, s, off + 4)
                * 0x1_0000_0000,
            ByteOrder::Big => wire::u32_at(order, s, off) * 0x1_0000_0000 + wire::u32_at(
                order,
                s,
                off + 4,
            ),
        }),
{
    let part = s.subrange(off, off + 8);
    reveal_with_fuel(wire::le_value, 9);
    lemma_tail(part, 8);
    lemma_tail(part.reverse(), 8);
    wire::lemma_pow256();
    wire::lemma_uint_value_bound(order, part);
    lemma_u32_at(order, s, off);
    lemma_u32_at(order, s, off + 4);
}

/// The signed number that the four bytes at `off` make up, in two's complement.
pub proof fn lemma_i32_at(order: ByteOrder, s: Seq<u8>, off: int)
    requires
        0 <= off,
        off + 4 <= s.len(),
    ensures
        wire::i32_at(order, s, off) == (if wire::u32_at(order, s, off) < 0x8000_0000 {
            wire::u32_at(order, s, off) as int
        } else {
            wire::u32_at(order, s, off) - 0x1_0000_0000
        }),
{
}

/// Taking bytes off the front one by one reaches each of them.
proof fn lemma_tail(s: Seq<u8>, n: nat)
    requires
        s.len() == n,
        n <= 8,
    ensures
        n >= 2 ==> s.drop_first()[0] == s[1] && s.drop_first().len() == n - 1,
        n >= 2 ==> s.drop_first().drop_first() == s.skip(2),
        n >= 3 ==> s.skip(2).drop_first() == s.skip(3),
        n >= 4 ==> s.skip(3).drop_first() == s.skip(4),
        n >= 5 ==> s.skip(4).drop_first() == s.skip(5),
        n >= 6 ==> s.skip(5).drop_first() == s.skip(6),
        n >= 7 ==> s.skip(6).drop_first() == s.skip(7),
        n >= 8 ==> s.skip(7).drop_first() == s.skip(8),
{
    assert(n >= 2 ==> s.drop_first().drop_first() =~= s.skip(2));
    assert(n >= 3 ==> s.skip(2).drop_first() =~= s.skip(3));
    assert(n >= 4 ==> s.skip(3).drop_first() =~= s.skip(4));
    assert(n >= 5 ==> s.skip(4).drop_first() =~= s.skip(5));
    assert(n >= 6 ==> s.skip(5).drop_first() =~= s.skip(6));
    assert(n >= 7 ==> s.skip(6).drop_first() =~= s.skip(7));
    assert(n >= 8 ==> s.skip(7).drop_first() =~= s.skip(8));
}

/// The fields of a [`FuseInHeader`], read from bytes and written to them.
pub proof fn lemma_fuse_in_header(order: ByteOrder, s: Seq<u8>, v: FuseInHeader)
    requires
        s.len() >= 40,
    ensures
        FuseInHeader::wire_size() == 40,
        ({
            let r = FuseInHeader::from_wire(order, s);
            &&& r.len == wire::u32_at(order, s, 0)
            &&& r.opcode == wire::u32_at(order, s, 4)
            &&& r.unique == wire::u64_at(order, s, 8)
            &&& r.nodeid == wire::u64_at(order, s, 16)
            &&& r.uid == wire::u32_at(order, s, 24)
            &&& r.gid == wire::u32_at(order, s, 28)
            &&& r.pid == wire::u32_at(order, s, 32)
            &&& r.total_extlen == wire::u16_at(order, s, 36)
            &&& r.padding == wire::u16_at(order, s, 38)
        }),
        ({
            let t = v.to_wire(order);
            &&& t.len() == 40
            &&& wire::u32_at(order, t, 0) == v.len
            &&& wire::u32_at(order, t, 4) == v.opcode
            &&& wire::u64_at(order, t, 8) == v.unique
            &&& wire::u64_at(order, t, 16) == v.nodeid
            &&& wire::u32_at(order, t, 24) == v.uid
            &&& wire::u32_at(order, t, 28) == v.gid
            &&& wire::u32_at(order, t, 32) == v.pid
            &&& wire::u16_at(order, t, 36) == v.total_extlen
            &&& wire::u16_at(order, t, 38) == v.padding
        }),
{
    reveal(<FuseInHeader as Wire>::from_wire);
    v.lemma_size(order);
    v.lemma_decode_encode(order, Seq::empty());
    assert(v.to_wire(order) + Seq::<u8>::empty() =~= v.to_wire(order));
}

/// The fields of a [`FuseOutHeader`], read from bytes and written to them.
pub proof fn lemma_fuse_out_header(order: ByteOrder, s: Seq<u8>, v: FuseOutHeader)
    requires
        s.len() >= 16,
    ensures
        FuseOutHeader::wire_size() == 16,
        ({
            let r = FuseOutHeader::from_wire(order, s);
            &&& r.len == wire::u32_at(order, s, 0)
            &&& r.error == wire::i32_at(order, s, 4)
            &&& r.unique == wire::u64_at(order, s, 8)
        }),
        ({
            let t = v.to_wire(order);
            &&& t.len() == 16
            &&& wire::u32_at(order, t, 0) == v.len
            &&& wire::i32_at(order, t, 4) == v.error
            &&& wire::u64_at(order, t, 8) == v.unique
        }),
{
    reveal(<FuseOutHeader as Wire>::from_wire);
    v.lemma_size(order);
    v.lemma_decode_encode(order, Seq::empty());
    assert(v.to_wire(order) + Seq::<u8>::empty() =~= v.to_wire(order));
}

/// The fields of a [`FuseAttr`], read from bytes and written to them.
pub proof fn lemma_fuse_attr(order: ByteOrder, s: Seq<u8>, v: FuseAttr)
    requires
        s.len() >= 88,
    ensures
        FuseAttr::wire_size() == 88,
        ({
            let r = FuseAttr::from_wire(order, s);
            &&& r.ino == wire::u64_at(order, s, 0)
            &&& r.size == wire::u64_at(order, s, 8)
            &&& r.blocks == wire::u64_at(order, s, 16)
            &&& r.atime == wire::u64_at(order, s, 24)
            &&& r.mtime == wire::u64_at(order, s, 32)
            &&& r.ctime == wire::u64_at(order, s, 40)
            &&& r.atimensec == wire::u32_at(order, s, 48)
            &&& r.mtimensec == wire::u32_at(order, s, 52)
            &&& r.ctimensec == wire::u32_at(order, s, 56)
            &&& r.mode == wire::u32_at(order, s, 60)
            &&& r.nlink == wire::u32_at(order, s, 64)
            &&& r.uid == wire::u32_at(order, s, 68)
            &&& r.gid == wire::u32_at(order, s, 72)
            &&& r.rdev == wire::u32_at(order, s, 76)
            &&& r.blksize == wire::u32_at(order, s, 80)
            &&& r.flags == wire::u32_at(order, s, 84)
        }),
        ({
            let t = v.to_wire(order);
            &&& t.len() == 88
            &&& wire::u64_at(order, t, 0) == v.ino
            &&& wire::u64_at(order, t, 8) == v.size
            &&& wire::u64_at(order, t, 16) == v.blocks
            &&& wire::u64_at(order, t, 24) == v.atime
            &&& wire::u64_at(order, t, 32) == v.mtime
            &&& wire::u64_at(order, t, 40) == v.ctime
            &&& wire::u32_at(order, t, 48) == v.atimensec
            &&& wire::u32_at(order, t, 52) == v.mtimensec
            &&& wire::u32_at(order, t, 56) == v.ctimensec
            &&& wire::u32_at(order, t, 60) == v.mode
            &&& wire::u32_at(order, t, 64) == v.nlink
            &&& wire::u32_at(order, t, 68) == v.uid
            &&& wire::u32_at(order, t, 72) == v.gid
            &&& wire::u32_at(order, t, 76) == v.rdev
            &&& wire::u32_at(order, t, 80) == v.blksize
            &&& wire::u32_at(order, t, 84) == v.flags
        }),
{
    reveal(<FuseAttr as Wire>::from_wire);
    v.lemma_size(order);
    v.lemma_decode_encode(order, Seq::empty());
    assert(v.to_wire(order) + Seq::<u8>::empty() =~= v.to_wire(order));
}

/// The fields of a [`FuseEntryOut`], read from bytes and written to them.
pub proof fn lemma_fuse_entry_out(order: ByteOrder, s: Seq<u8>, v: FuseEntryOut)
    requires
        s.len() >= 128,
    ensures
        FuseEntryOut::wire_size() == 128,
        ({
            let r = FuseEntryOut::from_wire(order, s);
            &&& r.nodeid == wire::u64_at(order, s, 0)
            &&& r.generation == wire::u64_at(order, s, 8)
            &&& r.entry_valid == wire::u64_at(order, s, 16)
            &&& r.attr_valid == wire::u64_at(order, s, 24)
            &&& r.entry_valid_nsec == wire::u32_at(order, s, 32)
            &&& r.attr_valid_nsec == wire::u32_at(order, s, 36)
            &&& r.attr.ino == wire::u64_at(order, s, 40)
            &&& r.attr.size == wire::u64_at(order, s, 48)
            &&& r.attr.blocks == wire::u64_at(order, s, 56)
            &&& r.attr.atime == wire::u64_at(order, s, 64)
            &&& r.attr.mtime == wire::u64_at(order, s, 72)
            &&& r.attr.ctime == wire::u64_at(order, s, 80)
            &&& r.attr.atimensec == wire::u32_at(order, s, 88)
            &&& r.attr.mtimensec == wire::u32_at(order, s, 92)
            &&& r.attr.ctimensec == wire::u32_at(order, s, 96)
            &&& r.attr.mode == wire::u32_at(order, s, 100)
            &&& r.attr.nlink == wire::u32_at(order, s, 104)
            &&& r.attr.uid == wire::u32_at(order, s, 108)
            &&& r.attr.gid == wire::u32_at(order, s, 112)
            &&& r.attr.rdev == wire::u32_at(order, s, 116)
            &&& r.attr.blksize == wire::u32_at(order, s, 120)
            &&& r.attr.flags == wire::u32_at(order, s, 124)
        }),
        ({
            let t = v.to_wire(order);
            &&& t.len() == 128
            &&& wire::u64_at(order, t, 0) == v.nodeid
            &&& wire::u64_at(order, t, 8) == v.generation
            &&& wire::u64_at(order, t, 16) == v.entry_valid
            &&& wire::u64_at(order, t, 24) == v.attr_valid
            &&& wire::u32_at(order, t, 32) == v.entry_valid_nsec
            &&& wire::u32_at(order, t, 36) == v.attr_valid_nsec
            &&& wire::u64_at(order, t, 40) == v.attr.ino
            &&& wire::u64_at(order, t, 48) == v.attr.size
            &&& wire::u64_at(order, t, 56) == v.attr.blocks
            &&& wire::u64_at(order, t, 64) == v.attr.atime
            &&& wire::u64_at(order, t, 72) == v.attr.mtime
            &&& wire::u64_at(order, t, 80) == v.attr.ctime
            &&& wire::u32_at(order, t, 88) == v.attr.atimensec
            &&& wire::u32_at(order, t, 92) == v.attr.mtimensec
            &&& wire::u32_at(order, t, 96) == v.attr.ctimensec
            &&& wire::u32_at(order, t, 100) == v.attr.mode
            &&& wire::u32_at(order, t, 104) == v.attr.nlink
            &&& wire::u32_at(order, t, 108) == v.attr.uid
            &&& wire::u32_at(order, t, 112) == v.attr.gid
            &&& wire::u32_at(order, t, 116) == v.attr.rdev
            &&& wire::u32_at(order, t, 120) == v.attr.blksize
            &&& wire::u32_at(order, t, 124) == v.attr.flags
        }),
{
    reveal(<FuseEntryOut as Wire>::from_wire);
    v.lemma_size(order);
    reveal(<FuseAttr as Wire>::from_wire);
    lemma_shifted(order, s, 40);
    lemma_shifted(order, v.to_wire(order), 40);
    v.lemma_decode_encode(order, Seq::empty());
    assert(v.to_wire(order) + Seq::<u8>::empty() =~= v.to_wire(order));
}

/// The fields of a [`FuseAttrOut`], read from bytes and written to them.
pub proof fn lemma_fuse_attr_out(order: ByteOrder, s: Seq<u8>, v: FuseAttrOut)
    requires
        s.len() >= 104,
    ensures
        FuseAttrOut::wire_size() == 104,
        ({
            let r = FuseAttrOut::from_wire(order, s);
            &&& r.attr_valid == wire::u64_at(order, s, 0)
            &&& r.attr_valid_nsec == wire::u32_at(order, s, 8)
            &&& r.dummy == wire::u32_at(order, s, 12)
            &&& r.attr.ino == wire::u64_at(order, s, 16)
            &&& r.attr.size == wire::u64_at(order, s, 24)
            &&& r.attr.blocks == wire::u64_at(order, s, 32)
            &&& r.attr.atime == wire::u64_at(order, s, 40)
            &&& r.attr.mtime == wire::u64_at(order, s, 48)
            &&& r.attr.ctime == wire::u64_at(order, s, 56)
            &&& r.attr.atimensec == wire::u32_at(order, s, 64)
            &&& r.attr.mtimensec == wire::u32_at(order, s, 68)
            &&& r.attr.ctimensec == wire::u32_at(order, s, 72)
            &&& r.attr.mode == wire::u32_at(order, s, 76)
            &&& r.attr.nlink == wire::u32_at(order, s, 80)
            &&& r.attr.uid == wire::u32_at(order, s, 84)
            &&& r.attr.gid == wire::u32_at(order, s, 88)
            &&& r.attr.rdev == wire::u32_at(order, s, 92)
            &&& r.attr.blksize == wire::u32_at(order, s, 96)
            &&& r.attr.flags == wire::u32_at(order, s, 100)
        }),
        ({
            let t = v.to_wire(order);
            &&& t.len() == 104
            &&& wire::u64_at(order, t, 0) == v.attr_valid
            &&& wire::u32_at(order, t, 8) == v.attr_valid_nsec
            &&& wire::u32_at(order, t, 12) == v.dummy
            &&& wire::u64_at(order, t, 16) == v.attr.ino
            &&& wire::u64_at(order, t, 24) == v.attr.size
            &&& wire::u64_at(order, t, 32) == v.attr.blocks
            &&& wire::u64_at(order, t, 40) == v.attr.atime
            &&& wire::u64_at(order, t, 48) == v.attr.mtime
            &&& wire::u64_at(order, t, 56) == v.attr.ctime
            &&& wire::u32_at(order, t, 64) == v.attr.atimensec
            &&& wire::u32_at(order, t, 68) == v.attr.mtimensec
            &&& wire::u32_at(order, t, 72) == v.attr.ctimensec
            &&& wire::u32_at(order, t, 76) == v.attr.mode
            &&& wire::u32_at(order, t, 80) == v.attr.nlink
            &&& wire::u32_at(order, t, 84) == v.attr.uid
            &&& wire::u32_at(order, t, 88) == v.attr.gid
            &&& wire::u32_at(order, t, 92) == v.attr.rdev
            &&& wire::u32_at(order, t, 96) == v.attr.blksize
            &&& wire::u32_at(order, t, 100) == v.attr.flags
        }),
{
    reveal(<FuseAttrOut as Wire>::from_wire);
    v.lemma_size(order);
    reveal(<FuseAttr as Wire>::from_wire);
    lemma_shifted(order, s, 16);
    lemma_shifted(order, v.to_wire(order), 16);
    v.lemma_decode_encode(order, Seq::empty());
    assert(v.to_wire(order) + Seq::<u8>::empty() =~= v.to_wire(order));
}

/// The fields of a [`FuseKstatfs`], read from bytes and written to them.
pub proof fn lemma_fuse_kstatfs(order: ByteOrder, s: Seq<u8>, v: FuseKstatfs)
    requires
        s.len() >= 80,
    ensures
        FuseKstatfs::wire_size() == 80,
        ({
            let r = FuseKstatfs::from_wire(order, s);
            &&& r.blocks == wire::u64_at(order, s, 0)
            &&& r.bfree == wire::u64_at(order, s, 8)
            &&& r.bavail == wire::u64_at(order, s, 16)
            &&& r.files == wire::u64_at(order, s, 24)
            &&& r.ffree == wire::u64_at(order, s, 32)
            &&& r.bsize == wire::u32_at(order, s, 40)
            &&& r.namelen == wire::u32_at(order, s, 44)
            &&& r.frsize == wire::u32_at(order, s, 48)
            &&& r.padding == wire::u32_at(order, s, 52)
            &&& r.spare[0] == wire::u32_at(order, s, 56)
            &&& r.spare[1] == wire::u32_at(order, s, 60)
            &&& r.spare[2] == wire::u32_at(order, s, 64)
            &&& r.spare[3] == wire::u32_at(order, s, 68)
            &&& r.spare[4] == wire::u32_at(order, s, 72)
            &&& r.spare[5] == wire::u32_at(order, s, 76)
        }),
        ({
            let t = v.to_wire(order);
            &&& t.len() == 80
            &&& wire::u64_at(order, t, 0) == v.blocks
            &&& wire::u64_at(order, t, 8) == v.bfree
            &&& wire::u64_at(order, t, 16) == v.bavail
            &&& wire::u64_at(order, t, 24) == v.files
            &&& wire::u64_at(order, t, 32) == v.ffree
            &&& wire::u32_at(order, t, 40) == v.bsize
            &&& wire::u32_at(order, t, 44) == v.namelen
            &&& wire::u32_at(order, t, 48) == v.frsize
            &&& wire::u32_at(order, t, 52) == v.padding
            &&& wire::u32_at(order, t, 56) == v.spare[0]
            &&& wire::u32_at(order, t, 60) == v.spare[1]
            &&& wire::u32_at(order, t, 64) == v.spare[2]
            &&& wire::u32_at(order, t, 68) == v.spare[3]
            &&& wire::u32_at(order, t, 72) == v.spare[4]
            &&& wire::u32_at(order, t, 76) == v.spare[5]
        }),
{
    reveal(<FuseKstatfs as Wire>::from_wire);
    v.lemma_size(order);
    v.lemma_decode_encode(order, Seq::empty());
    assert(v.to_wire(order) + Seq::<u8>::empty() =~= v.to_wire(order));
}

/// The fields of a [`FuseForgetIn`], read from bytes and written to them.
pub proof fn lemma_fuse_forget_in(order: ByteOrder, s: Seq<u8>, v: FuseForgetIn)
    requires
        s.len() >= 8,
    ensures
        FuseForgetIn::wire_size() == 8,
        ({
            let r = FuseForgetIn::from_wire(order, s);
            &&& r.nlookup == wire::u64_at(order, s, 0)
        }),
        ({
            let t = v.to_wire(order);
            &&& t.len() == 8
            &&& wire::u64_at(order, t, 0) == v.nlookup
        }),
{
    reveal(<FuseForgetIn as Wire>::from_wire);
    v.lemma_size(order);
    v.lemma_decode_encode(order, Seq::empty());
    assert(v.to_wire(order) + Seq::<u8>::empty() =~= v.to_wire(order));
}

/// The fields of a [`FuseBatchForgetIn`], read from bytes and written to them.
pub proof fn lemma_fuse_batch_forget_in(order: ByteOrder, s: Seq<u8>, v: FuseBatchForgetIn)
    requires
        s.len() >= 8,
    ensures
        FuseBatchForgetIn::wire_size() == 8,
        ({
            let r = FuseBatchForgetIn::from_wire(order, s);
            &&& r.count == wire::u32_at(order, s, 0)
            &&& r.dummy == wire::u32_at(order, s, 4)
        }),
        ({
            let t = v.to_wire(order);
            &&& t.len() == 8
            &&& wire::u32_at(order, t, 0) == v.count
            &&& wire::u32_at(order, t, 4) == v.dummy
        }),
{
    reveal(<FuseBatchForgetIn as Wire>::from_wire);
    v.lemma_size(order);
    v.lemma_decode_encode(order, Seq::empty());
    assert(v.to_wire(order) + Seq::<u8>::empty() =~= v.to_wire(order));
}

/// The fields of a [`FuseForgetOne`], read from bytes and written to them.
pub proof fn lemma_fuse_forget_one(order: ByteOrder, s: Seq<u8>, v: FuseForgetOne)
    requires
        s.len() >= 16,
    ensures
        FuseForgetOne::wire_size() == 16,
        ({
            let r = FuseForgetOne::from_wire(order, s);
            &&& r.nodeid == wire::u64_at(order, s, 0)
            &&& r.nlookup == wire::u64_at(order, s, 8)
        }),
        ({
            let t = v.to_wire(order);
            &&& t.len() == 16
            &&& wire::u64_at(order, t, 0) == v.nodeid
            &&& wire::u64_at(order, t, 8) == v.nlookup
        }),
{
    reveal(<FuseForgetOne as Wire>::from_wire);
    v.lemma_size(order);
    v.lemma_decode_encode(order, Seq::empty());
    assert(v.to_wire(order) + Seq::<u8>::empty() =~= v.to_wire(order));
}

/// The fields of a [`FuseSetattrIn`], read from bytes and written to them.
pub proof fn lemma_fuse_setattr_in(order: ByteOrder, s: Seq<u8>, v: FuseSetattrIn)
    requires
        s.len() >= 88,
    ensures
        FuseSetattrIn::wire_size() == 88,
        ({
            let r = FuseSetattrIn::from_wire(order, s);
            &&& r.valid == wire::u32_at(order, s, 0)
            &&& r.padding == wire::u32_at(order, s, 4)
            &&& r.fh == wire::u64_at(order, s, 8)
            &&& r.size == wire::u64_at(order, s, 16)
            &&& r.lock_owner == wire::u64_at(order, s, 24)
            &&& r.atime == wire::u64_at(order, s, 32)
            &&& r.mtime == wire::u64_at(order, s, 40)
            &&& r.ctime == wire::u64_at(order, s, 48)
            &&& r.atimensec == wire::u32_at(order, s, 56)
            &&& r.mtimensec == wire::u32_at(order, s, 60)
            &&& r.ctimensec == wire::u32_at(order, s, 64)
            &&& r.mode == wire::u32_at(order, s, 68)
            &&& r.unused4 == wire::u32_at(order, s, 72)
            &&& r.uid == wire::u32_at(order, s, 76)
            &&& r.gid == wire::u32_at(order, s, 80)
            &&& r.unused5 == wire::u32_at(order, s, 84)
        }),
        ({
            let t = v.to_wire(order);
            &&& t.len() == 88
            &&& wire::u32_at(order, t, 0) == v.valid
            &&& wire::u32_at(order, t, 4) == v.padding
            &&& wire::u64_at(order, t, 8) == v.fh
            &&& wire::u64_at(order, t, 16) == v.size
            &&& wire::u64_at(order, t, 24) == v.lock_owner
            &&& wire::u64_at(order, t, 32) == v.atime
            &&& wire::u64_at(order, t, 40) == v.mtime
            &&& wire::u64_at(order, t, 48) == v.ctime
            &&& wire::u32_at(order, t, 56) == v.atimensec
            &&& wire::u32_at(order, t, 60) == v.mtimensec
            &&& wire::u32_at(order, t, 64) == v.ctimensec
            &&& wire::u32_at(order, t, 68) == v.mode
            &&& wire::u32_at(order, t, 72) == v.unused4
            &&& wire::u32_at(order, t, 76) == v.uid
            &&& wire::u32_at(order, t, 80) == v.gid
            &&& wire::u32_at(order, t, 84) == v.unused5
        }),
{
    reveal(<FuseSetattrIn as Wire>::from_wire);
    v.lemma_size(order);
    v.lemma_decode_encode(order, Seq::empty());
    assert(v.to_wire(order) + Seq::<u8>::empty() =~= v.to_wire(order));
}

/// The fields of a [`FuseOpenIn`], read from bytes and written to them.
pub proof fn lemma_fuse_open_in(order: ByteOrder, s: Seq<u8>, v: FuseOpenIn)
    requires
        s.len() >= 8,
    ensures
        FuseOpenIn::wire_size() == 8,
        ({
            let r = FuseOpenIn::from_wire(order, s);
            &&& r.flags == wire::u32_at(order, s, 0)
            &&& r.open_flags == wire::u32_at(order, s, 4)
        }),
        ({
            let t = v.to_wire(order);
            &&& t.len() == 8
            &&& wire::u32_at(order, t, 0) == v.flags
            &&& wire::u32_at(order, t, 4) == v.open_flags
        }),
{
    reveal(<FuseOpenIn as Wire>::from_wire);
    v.lemma_size(order);
    v.lemma_decode_encode(order, Seq::empty());
    assert(v.to_wire(order) + Seq::<u8>::empty() =~= v.to_wire(order));
}

/// The fields of a [`FuseOpenOut`], read from bytes and written to them.
pub proof fn lemma_fuse_open_out(order: ByteOrder, s: Seq<u8>, v: FuseOpenOut)
    requires
        s.len() >= 16,
    ensures
        FuseOpenOut::wire_size() == 16,
        ({
            let r = FuseOpenOut::from_wire(order, s);
            &&& r.fh == wire::u64_at(order, s, 0)
            &&& r.open_flags == wire::u32_at(order, s, 8)
            &&& r.backing_id == wire::i32_at(order, s, 12)
        }),
        ({
            let t = v.to_wire(order);
            &&& t.len() == 16
            &&& wire::u64_at(order, t, 0) == v.fh
            &&& wire::u32_at(order, t, 8) == v.open_flags
            &&& wire::i32_at(order, t, 12) == v.backing_id
        }),
{
    reveal(<FuseOpenOut as Wire>::from_wire);
    v.lemma_size(order);
    v.lemma_decode_encode(order, Seq::empty());
    assert(v.to_wire(order) + Seq::<u8>::empty() =~= v.to_wire(order));
}

/// The fields of a [`FuseCreateIn`], read from bytes and written to them.
pub proof fn lemma_fuse_create_in(order: ByteOrder, s: Seq<u8>, v: FuseCreateIn)
    requires
        s.len() >= 16,
    ensures
        FuseCreateIn::wire_size() == 16,
        ({
            let r = FuseCreateIn::from_wire(order, s);
            &&& r.flags == wire::u32_at(order, s, 0)
            &&& r.mode == wire::u32_at(order, s, 4)
            &&& r.umask == wire::u32_at(order, s, 8)
            &&& r.open_flags == wire::u32_at(order, s, 12)
        }),
        ({
            let t = v.to_wire(order);
            &&& t.len() == 16
            &&& wire::u32_at(order, t, 0) == v.flags
            &&& wire::u32_at(order, t, 4) == v.mode
            &&& wire::u32_at(order, t, 8) == v.umask
            &&& wire::u32_at(order, t, 12) == v.open_flags
        }),
{
    reveal(<FuseCreateIn as Wire>::from_wire);
    v.lemma_size(order);
    v.lemma_decode_encode(order, Seq::empty());
    assert(v.to_wire(order) + Seq::<u8>::empty() =~= v.to_wire(order));
}

/// The fields of a [`FuseReleaseIn`], read from bytes and written to them.
pub proof fn lemma_fuse_release_in(order: ByteOrder, s: Seq<u8>, v: FuseReleaseIn)
    requires
        s.len() >= 24,
    ensures
        FuseReleaseIn::wire_size() == 24,
        ({
            let r = FuseReleaseIn::from_wire(order, s);
            &&& r.fh == wire::u64_at(order, s, 0)
            &&& r.flags == wire::u32_at(order, s, 8)
            &&& r.release_flags == wire::u32_at(order, s, 12)
            &&& r.lock_owner == wire::u64_at(order, s, 16)
        }),
        ({
            let t = v.to_wire(order);
            &&& t.len() == 24
            &&& wire::u64_at(order, t, 0) == v.fh
            &&& wire::u32_at(order, t, 8) == v.flags
            &&& wire::u32_at(order, t, 12) == v.release_flags
            &&& wire::u64_at(order, t, 16) == v.lock_owner
        }),
{
    reveal(<FuseReleaseIn as Wire>::from_wire);
    v.lemma_size(order);
    v.lemma_decode_encode(order, Seq::empty());
    assert(v.to_wire(order) + Seq::<u8>::empty() =~= v.to_wire(order));
}

/// The fields of a [`FuseReadIn`], read from bytes and written to them.
pub proof fn lemma_fuse_read_in(order: ByteOrder, s: Seq<u8>, v: FuseReadIn)
    requires
        s.len() >= 40,
    ensures
        FuseReadIn::wire_size() == 40,
        ({
            let r = FuseReadIn::from_wire(order, s);
            &&& r.fh == wire::u64_at(order, s, 0)
            &&& r.offset == wire::u64_at(order, s, 8)
            &&& r.size == wire::u32_at(order, s, 16)
            &&& r.read_flags == wire::u32_at(order, s, 20)
            &&& r.lock_owner == wire::u64_at(order, s, 24)
            &&& r.flags == wire::u32_at(order, s, 32)
            &&& r.padding == wire::u32_at(order, s, 36)
        }),
        ({
            let t = v.to_wire(order);
            &&& t.len() == 40
            &&& wire::u64_at(order, t, 0) == v.fh
            &&& wire::u64_at(order, t, 8) == v.offset
            &&& wire::u32_at(order, t, 16) == v.size
            &&& wire::u32_at(order, t, 20) == v.read_flags
            &&& wire::u64_at(order, t, 24) == v.lock_owner
            &&& wire::u32_at(order, t, 32) == v.flags
            &&& wire::u32_at(order, t, 36) == v.padding
        }),
{
    reveal(<FuseReadIn as Wire>::from_wire);
    v.lemma_size(order);
    v.lemma_decode_encode(order, Seq::empty());
    assert(v.to_wire(order) + Seq::<u8>::empty() =~= v.to_wire(order));
}

/// The fields of a [`FuseWriteIn`], read from bytes and written to them.
pub proof fn lemma_fuse_write_in(order: ByteOrder, s: Seq<u8>, v: FuseWriteIn)
    requires
        s.len() >= 40,
    ensures
        FuseWriteIn::wire_size() == 40,
        ({
            let r = FuseWriteIn::from_wire(order, s);
            &&& r.fh == wire::u64_at(order, s, 0)
            &&& r.offset == wire::u64_at(order, s, 8)
            &&& r.size == wire::u32_at(order, s, 16)
            &&& r.write_flags == wire::u32_at(order, s, 20)
            &&& r.lock_owner == wire::u64_at(order, s, 24)
            &&& r.flags == wire::u32_at(order, s, 32)
            &&& r.padding == wire::u32_at(order, s, 36)
        }),
        ({
            let t = v.to_wire(order);
            &&& t.len() == 40
            &&& wire::u64_at(order, t, 0) == v.fh
            &&& wire::u64_at(order, t, 8) == v.offset
            &&& wire::u32_at(order, t, 16) == v.size
            &&& wire::u32_at(order, t, 20) == v.write_flags
            &&& wire::u64_at(order, t, 24) == v.lock_owner
            &&& wire::u32_at(order, t, 32) == v.flags
            &&& wire::u32_at(order, t, 36) == v.padding
        }),
{
    reveal(<FuseWriteIn as Wire>::from_wire);
    v.lemma_size(order);
    v.lemma_decode_encode(order, Seq::empty());
    assert(v.to_wire(order) + Seq::<u8>::empty() =~= v.to_wire(order));
}

/// The fields of a [`FuseWriteOut`], read from bytes and written to them.
pub proof fn lemma_fuse_write_out(order: ByteOrder, s: Seq<u8>, v: FuseWriteOut)
    requires
        s.len() >= 8,
    ensures
        FuseWriteOut::wire_size() == 8,
        ({
            let r = FuseWriteOut::from_wire(order, s);
            &&& r.size == wire::u32_at(order, s, 0)
            &&& r.padding == wire::u32_at(order, s, 4)
        }),
        ({
            let t = v.to_wire(order);
            &&& t.len() == 8
            &&& wire::u32_at(order, t, 0) == v.size
            &&& wire::u32_at(order, t, 4) == v.padding
        }),
{
    reveal(<FuseWriteOut as Wire>::from_wire);
    v.lemma_size(order);
    v.lemma_decode_encode(order, Seq::empty());
    assert(v.to_wire(order) + Seq::<u8>::empty() =~= v.to_wire(order));
}

/// The fields of a [`FuseMknodIn`], read from bytes and written to them.
pub proof fn lemma_fuse_mknod_in(order: ByteOrder, s: Seq<u8>, v: FuseMknodIn)
    requires
        s.len() >= 16,
    ensures
        FuseMknodIn::wire_size() == 16,
        ({
            let r = FuseMknodIn::from_wire(order, s);
            &&& r.mode == wire::u32_at(order, s, 0)
            &&& r.rdev == wire::u32_at(order, s, 4)
            &&& r.umask == wire::u32_at(order, s, 8)
            &&& r.padding == wire::u32_at(order, s, 12)
        }),
        ({
            let t = v.to_wire(order);
            &&& t.len() == 16
            &&& wire::u32_at(order, t, 0) == v.mode
            &&& wire::u32_at(order, t, 4) == v.rdev
            &&& wire::u32_at(order, t, 8) == v.umask
            &&& wire::u32_at(order, t, 12) == v.padding
        }),
{
    reveal(<FuseMknodIn as Wire>::from_wire);
    v.lemma_size(order);
    v.lemma_decode_encode(order, Seq::empty());
    assert(v.to_wire(order) + Seq::<u8>::empty() =~= v.to_wire(order));
}

/// The fields of a [`FuseMkdirIn`], read from bytes and written to them.
pub proof fn lemma_fuse_mkdir_in(order: ByteOrder, s: Seq<u8>, v: FuseMkdirIn)
    requires
        s.len() >= 8,
    ensures
        FuseMkdirIn::wire_size() == 8,
        ({
            let r = FuseMkdirIn::from_wire(order, s);
            &&& r.mode == wire::u32_at(order, s, 0)
            &&& r.umask == wire::u32_at(order, s, 4)
        }),
        ({
            let t = v.to_wire(order);
            &&& t.len() == 8
            &&& wire::u32_at(order, t, 0) == v.mode
            &&& wire::u32_at(order, t, 4) == v.umask
        }),
{
    reveal(<FuseMkdirIn as Wire>::from_wire);
    v.lemma_size(order);
    v.lemma_decode_encode(order, Seq::empty());
    assert(v.to_wire(order) + Seq::<u8>::empty() =~= v.to_wire(order));
}

/// The fields of a [`FuseRename2In`], read from bytes and written to them.
pub proof fn lemma_fuse_rename2_in(order: ByteOrder, s: Seq<u8>, v: FuseRename2In)
    requires
        s.len() >= 16,
    ensures
        FuseRename2In::wire_size() == 16,
        ({
            let r = FuseRename2In::from_wire(order, s);
            &&& r.newdir == wire::u64_at(order, s, 0)
            &&& r.flags == wire::u32_at(order, s, 8)
            &&& r.padding == wire::u32_at(order, s, 12)
        }),
        ({
            let t = v.to_wire(order);
            &&& t.len() == 16
            &&& wire::u64_at(order, t, 0) == v.newdir
            &&& wire::u32_at(order, t, 8) == v.flags
            &&& wire::u32_at(order, t, 12) == v.padding
        }),
{
    reveal(<FuseRename2In as Wire>::from_wire);
    v.lemma_size(order);
    v.lemma_decode_encode(order, Seq::empty());
    assert(v.to_wire(order) + Seq::<u8>::empty() =~= v.to_wire(order));
}

/// The fields of a [`FuseInitIn`], read from bytes and written to them.
pub proof fn lemma_fuse_init_in(order: ByteOrder, s: Seq<u8>, v: FuseInitIn)
    requires
        s.len() >= 64,
    ensures
        FuseInitIn::wire_size() == 64,
        ({
            let r = FuseInitIn::from_wire(order, s);
            &&& r.major == wire::u32_at(order, s, 0)
            &&& r.minor == wire::u32_at(order, s, 4)
            &&& r.max_readahead == wire::u32_at(order, s, 8)
            &&& r.flags == wire::u32_at(order, s, 12)
            &&& r.flags2 == wire::u32_at(order, s, 16)
            &&& r.unused[0] == wire::u32_at(order, s, 20)
            &&& r.unused[1] == wire::u32_at(order, s, 24)
            &&& r.unused[2] == wire::u32_at(order, s, 28)
            &&& r.unused[3] == wire::u32_at(order, s, 32)
            &&& r.unused[4] == wire::u32_at(order, s, 36)
            &&& r.unused[5] == wire::u32_at(order, s, 40)
            &&& r.unused[6] == wire::u32_at(order, s, 44)
            &&& r.unused[7] == wire::u32_at(order, s, 48)
            &&& r.unused[8] == wire::u32_at(order, s, 52)
            &&& r.unused[9] == wire::u32_at(order, s, 56)
            &&& r.unused[10] == wire::u32_at(order, s, 60)
        }),
        ({
            let t = v.to_wire(order);
            &&& t.len() == 64
            &&& wire::u32_at(order, t, 0) == v.major
            &&& wire::u32_at(order, t, 4) == v.minor
            &&& wire::u32_at(order, t, 8) == v.max_readahead
            &&& wire::u32_at(order, t, 12) == v.flags
            &&& wire::u32_at(order, t, 16) == v.flags2
            &&& wire::u32_at(order, t, 20) == v.unused[0]
            &&& wire::u32_at(order, t, 24) == v.unused[1]
            &&& wire::u32_at(order, t, 28) == v.unused[2]
            &&& wire::u32_at(order, t, 32) == v.unused[3]
            &&& wire::u32_at(order, t, 36) == v.unused[4]
            &&& wire::u32_at(order, t, 40) == v.unused[5]
            &&& wire::u32_at(order, t, 44) == v.unused[6]
            &&& wire::u32_at(order, t, 48) == v.unused[7]
            &&& wire::u32_at(order, t, 52) == v.unused[8]
            &&& wire::u32_at(order, t, 56) == v.unused[9]
            &&& wire::u32_at(order, t, 60) == v.unused[10]
        }),
{
    reveal(<FuseInitIn as Wire>::from_wire);
    v.lemma_size(order);
    v.lemma_decode_encode(order, Seq::empty());
    assert(v.to_wire(order) + Seq::<u8>::empty() =~= v.to_wire(order));
}

/// The fields of a [`FuseInitOut`], read from bytes and written to them.
pub proof fn lemma_fuse_init_out(order: ByteOrder, s: Seq<u8>, v: FuseInitOut)
    requires
        s.len() >= 64,
    ensures
        FuseInitOut::wire_size() == 64,
        ({
            let r = FuseInitOut::from_wire(order, s);
            &&& r.major == wire::u32_at(order, s, 0)
            &&& r.minor == wire::u32_at(order, s, 4)
            &&& r.max_readahead == wire::u32_at(order, s, 8)
            &&& r.flags == wire::u32_at(order, s, 12)
            &&& r.max_background == wire::u16_at(order, s, 16)
            &&& r.congestion_threshold == wire::u16_at(order, s, 18)
            &&& r.max_write == wire::u32_at(order, s, 20)
            &&& r.time_gran == wire::u32_at(order, s, 24)
            &&& r.max_pages == wire::u16_at(order, s, 28)
            &&& r.map_alignment == wire::u16_at(order, s, 30)
            &&& r.flags2 == wire::u32_at(order, s, 32)
            &&& r.max_stack_depth == wire::u32_at(order, s, 36)
            &&& r.request_timeout == wire::u16_at(order, s, 40)
            &&& r.unused[0] == wire::u16_at(order, s, 42)
            &&& r.unused[1] == wire::u16_at(order, s, 44)
            &&& r.unused[2] == wire::u16_at(order, s, 46)
            &&& r.unused[3] == wire::u16_at(order, s, 48)
            &&& r.unused[4] == wire::u16_at(order, s, 50)
            &&& r.unused[5] == wire::u16_at(order, s, 52)
            &&& r.unused[6] == wire::u16_at(order, s, 54)
            &&& r.unused[7] == wire::u16_at(order, s, 56)
            &&& r.unused[8] == wire::u16_at(order, s, 58)
            &&& r.unused[9] == wire::u16_at(order, s, 60)
            &&& r.unused[10] == wire::u16_at(order, s, 62)
        }),
        ({
            let t = v.to_wire(order);
            &&& t.len() == 64
            &&& wire::u32_at(order, t, 0) == v.major
            &&& wire::u32_at(order, t, 4) == v.minor
            &&& wire::u32_at(order, t, 8) == v.max_readahead
            &&& wire::u32_at(order, t, 12) == v.flags
            &&& wire::u16_at(order, t, 16) == v.max_background
            &&& wire::u16_at(order, t, 18) == v.congestion_threshold
            &&& wire::u32_at(order, t, 20) == v.max_write
            &&& wire::u32_at(order, t, 24) == v.time_gran
            &&& wire::u16_at(order, t, 28) == v.max_pages
            &&& wire::u16_at(order, t, 30) == v.map_alignment
            &&& wire::u32_at(order, t, 32) == v.flags2
            &&& wire::u32_at(order, t, 36) == v.max_stack_depth
            &&& wire::u16_at(order, t, 40) == v.request_timeout
            &&& wire::u16_at(order, t, 42) == v.unused[0]
            &&& wire::u16_at(order, t, 44) == v.unused[1]
            &&& wire::u16_at(order, t, 46) == v.unused[2]
            &&& wire::u16_at(order, t, 48) == v.unused[3]
            &&& wire::u16_at(order, t, 50) == v.unused[4]
            &&& wire::u16_at(order, t, 52) == v.unused[5]
            &&& wire::u16_at(order, t, 54) == v.unused[6]
            &&& wire::u16_at(order, t, 56) == v.unused[7]
            &&& wire::u16_at(order, t, 58) == v.unused[8]
            &&& wire::u16_at(order, t, 60) == v.unused[9]
            &&& wire::u16_at(order, t, 62) == v.unused[10]
        }),
{
    reveal(<FuseInitOut as Wire>::from_wire);
    v.lemma_size(order);
    v.lemma_decode_encode(order, Seq::empty());
    assert(v.to_wire(order) + Seq::<u8>::empty() =~= v.to_wire(order));
}

/// The fields of a [`FuseGetxattrIn`], read from bytes and written to them.
pub proof fn lemma_fuse_getxattr_in(order: ByteOrder, s: Seq<u8>, v: FuseGetxattrIn)
    requires
        s.len() >= 8,
    ensures
        FuseGetxattrIn::wire_size() == 8,
        ({
            let r = FuseGetxattrIn::from_wire(order, s);
            &&& r.size == wire::u32_at(order, s, 0)
            &&& r.padding == wire::u32_at(order, s, 4)
        }),
        ({
            let t = v.to_wire(order);
            &&& t.len() == 8
            &&& wire::u32_at(order, t, 0) == v.size
            &&& wire::u32_at(order, t, 4) == v.padding
        }),
{
    reveal(<FuseGetxattrIn as Wire>::from_wire);
    v.lemma_size(order);
    v.lemma_decode_encode(order, Seq::empty());
    assert(v.to_wire(order) + Seq::<u8>::empty() =~= v.to_wire(order));
}

/// The fields of a [`FuseGetxattrOut`], read from bytes and written to them.
pub proof fn lemma_fuse_getxattr_out(order: ByteOrder, s: Seq<u8>, v: FuseGetxattrOut)
    requires
        s.len() >= 8,
    ensures
        FuseGetxattrOut::wire_size() == 8,
        ({
            let r = FuseGetxattrOut::from_wire(order, s);
            &&& r.size == wire::u32_at(order, s, 0)
            &&& r.padding == wire::u32_at(order, s, 4)
        }),
        ({
            let t = v.to_wire(order);
            &&& t.len() == 8
            &&& wire::u32_at(order, t, 0) == v.size
            &&& wire::u32_at(order, t, 4) == v.padding
        }),
{
    reveal(<FuseGetxattrOut as Wire>::from_wire);
    v.lemma_size(order);
    v.lemma_decode_encode(order, Seq::empty());
    assert(v.to_wire(order) + Seq::<u8>::empty() =~= v.to_wire(order));
}

/// The fields of a [`FuseDirent`], read from bytes and written to them.
pub proof fn lemma_fuse_dirent(order: ByteOrder, s: Seq<u8>, v: FuseDirent)
    requires
        s.len() >= 24,
    ensures
        FuseDirent::wire_size() == 24,
        ({
            let r = FuseDirent::from_wire(order, s);
            &&& r.ino == wire::u64_at(order, s, 0)
            &&& r.off == wire::u64_at(order, s, 8)
            &&& r.namelen == wire::u32_at(order, s, 16)
            &&& r.typ == wire::u32_at(order, s, 20)
        }),
        ({
            let t = v.to_wire(order);
            &&& t.len() == 24
            &&& wire::u64_at(order, t, 0) == v.ino
            &&& wire::u64_at(order, t, 8) == v.off
            &&& wire::u32_at(order, t, 16) == v.namelen
            &&& wire::u32_at(order, t, 20) == v.typ
        }),
{
    reveal(<FuseDirent as Wire>::from_wire);
    v.lemma_size(order);
    v.lemma_decode_encode(order, Seq::empty());
    assert(v.to_wire(order) + Seq::<u8>::empty() =~= v.to_wire(order));
}

/// What stands behind the first `n` bytes stands that much further on in the whole.
proof fn lemma_shifted(order: ByteOrder, s: Seq<u8>, n: int)
    requires
        0 <= n <= s.len(),
    ensures
        forall|off: int|
            0 <= off && n + off + 4 <= s.len() ==> #[trigger] wire::u32_at(order, s.skip(n), off)
                == wire::u32_at(order, s, n + off),
        forall|off: int|
            0 <= off && n + off + 8 <= s.len() ==> #[trigger] wire::u64_at(order, s.skip(n), off)
                == wire::u64_at(order, s, n + off),
{
    assert forall|off: int| 0 <= off && n + off + 4 <= s.len() implies #[trigger] wire::u32_at(
        order,
        s.skip(n),
        off,
    ) == wire::u32_at(order, s, n + off) by {
        assert(s.skip(n).subrange(off, off + 4) =~= s.subrange(n + off, n + off + 4));
    }
    assert forall|off: int| 0 <= off && n + off + 8 <= s.len() implies #[trigger] wire::u64_at(
        order,
        s.skip(n),
        off,
    ) == wire::u64_at(order, s, n + off) by {
        assert(s.skip(n).subrange(off, off + 8) =~= s.subrange(n + off, n + off + 8));
    }
}

/// Conversions that keep the low bits: a number that fits is kept, and one that does not is taken
/// modulo the number of values that there are. Signed numbers are in two's complement.
pub proof fn lemma_low_bits(v: int, a: u32, b: u64)
    ensures
        0 <= v < 0x1_0000_0000 ==> cast::low32(v) == v,
        0 <= v < 0x1_0000_0000_0000_0000 ==> cast::low64(v) == v,
        exists|k: int| v == #[trigger] (k * 0x1_0000_0000) + cast::low32(v),
        exists|k: int| v == #[trigger] (k * 0x1_0000_0000_0000_0000) + cast::low64(v),
        cast::signed32(a) == a || cast::signed32(a) == a - 0x1_0000_0000,
        cast::signed64(b) == b || cast::signed64(b) == b - 0x1_0000_0000_0000_0000,
{
    assert(v == (v / 0x1_0000_0000) * 0x1_0000_0000 + cast::low32(v));
    assert(v == (v / 0x1_0000_0000_0000_0000) * 0x1_0000_0000_0000_0000 + cast::low64(v));
}

} // verus!
