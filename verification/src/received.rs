//! What the kernel's messages ask for, byte by byte.
//!
//! Offsets into a body count from the end of the message's header, which has forty bytes.

use vstd::prelude::*;

use crate::cstring;
use crate::error::Error;
use crate::message;
use crate::offsets;
use crate::protocol;
use crate::protocol::{
    FuseBatchForgetIn, FuseCreateIn, FuseForgetIn, FuseForgetOne, FuseGetxattrIn, FuseInHeader,
    FuseInitIn, FuseInitOut, FuseMkdirIn, FuseMknodIn, FuseOpenIn, FuseOutHeader, FuseReadIn,
    FuseReleaseIn, FuseRename2In, FuseSetattrIn, FuseWriteIn, Opcode,
};
use crate::reply;
use crate::reply::GuardView;
use crate::requests::RequestView;
use crate::session;
use crate::session::{EnabledOps, FuseView, StepView};
use crate::wire;
use crate::wire::{ByteOrder, Wire};

verus! {

/// Whether `name` stands at offset `off` of `s`: it has no zero byte, and ends at one or at the
/// end of `s`.
pub open spec fn is_name(name: Seq<u8>, s: Seq<u8>, off: int) -> bool {
    &&& 0 <= off
    &&& off + name.len() <= s.len()
    &&& forall|i: int| 0 <= i < name.len() ==> #[trigger] name[i] == s[off + i] && name[i] != 0
    &&& off + name.len() < s.len() ==> s[off + name.len()] == 0
}

/// Whether `r` is that a body has `got` bytes where `expected` are needed.
pub open spec fn cut_off<T>(r: Result<T, Error>, expected: nat, got: nat) -> bool {
    r matches Err(Error::Truncated { expected: e, got: g }) && e == expected && g == got
}

/// What a name at an offset is read as.
proof fn lemma_name_at(s: Seq<u8>, off: int)
    requires
        0 <= off <= s.len(),
    ensures
        is_name(protocol::name_of(s.skip(off)), s, off),
{
    let t = s.skip(off);
    cstring::lemma_nul_position(t);
    let p = cstring::nul_position(t) as int;
    assert forall|i: int| 0 <= i < t.take(p).len() implies #[trigger] t.take(p)[i] == s[off + i]
        && t.take(p)[i] != 0 by {
    }
}

/// There is one name at an offset and no other.
pub proof fn lemma_name_unique(a: Seq<u8>, b: Seq<u8>, s: Seq<u8>, off: int)
    requires
        is_name(a, s, off),
        is_name(b, s, off),
    ensures
        a == b,
{
    if a.len() < b.len() {
        assert(b[a.len() as int] == s[off + a.len()]);
    } else if b.len() < a.len() {
        assert(a[b.len() as int] == s[off + b.len()]);
    }
    assert(a =~= b);
}

/// The numbers that opcodes have in `<linux/fuse.h>`, both ways.
pub proof fn lemma_opcode_numbers(v: u32)
    ensures
        Opcode::of_code(1) == Some(Opcode::Lookup),
        Opcode::Lookup.code() == 1,
        Opcode::of_code(2) == Some(Opcode::Forget),
        Opcode::Forget.code() == 2,
        Opcode::of_code(3) == Some(Opcode::Getattr),
        Opcode::Getattr.code() == 3,
        Opcode::of_code(4) == Some(Opcode::Setattr),
        Opcode::Setattr.code() == 4,
        Opcode::of_code(5) == Some(Opcode::Readlink),
        Opcode::Readlink.code() == 5,
        Opcode::of_code(8) == Some(Opcode::Mknod),
        Opcode::Mknod.code() == 8,
        Opcode::of_code(9) == Some(Opcode::Mkdir),
        Opcode::Mkdir.code() == 9,
        Opcode::of_code(10) == Some(Opcode::Unlink),
        Opcode::Unlink.code() == 10,
        Opcode::of_code(11) == Some(Opcode::Rmdir),
        Opcode::Rmdir.code() == 11,
        Opcode::of_code(14) == Some(Opcode::Open),
        Opcode::Open.code() == 14,
        Opcode::of_code(15) == Some(Opcode::Read),
        Opcode::Read.code() == 15,
        Opcode::of_code(16) == Some(Opcode::Write),
        Opcode::Write.code() == 16,
        Opcode::of_code(17) == Some(Opcode::Statfs),
        Opcode::Statfs.code() == 17,
        Opcode::of_code(18) == Some(Opcode::Release),
        Opcode::Release.code() == 18,
        Opcode::of_code(22) == Some(Opcode::Getxattr),
        Opcode::Getxattr.code() == 22,
        Opcode::of_code(23) == Some(Opcode::Listxattr),
        Opcode::Listxattr.code() == 23,
        Opcode::of_code(26) == Some(Opcode::Init),
        Opcode::Init.code() == 26,
        Opcode::of_code(28) == Some(Opcode::Readdir),
        Opcode::Readdir.code() == 28,
        Opcode::of_code(35) == Some(Opcode::Create),
        Opcode::Create.code() == 35,
        Opcode::of_code(36) == Some(Opcode::Interrupt),
        Opcode::Interrupt.code() == 36,
        Opcode::of_code(38) == Some(Opcode::Destroy),
        Opcode::Destroy.code() == 38,
        Opcode::of_code(42) == Some(Opcode::BatchForget),
        Opcode::BatchForget.code() == 42,
        Opcode::of_code(44) == Some(Opcode::Readdirplus),
        Opcode::Readdirplus.code() == 44,
        Opcode::of_code(45) == Some(Opcode::Rename2),
        Opcode::Rename2.code() == 45,
        Opcode::of_code(v) matches Some(opcode) ==> opcode.code() == v,
{
    protocol::lemma_opcode_of_code(Opcode::Lookup);
    protocol::lemma_opcode_of_code(Opcode::Forget);
    protocol::lemma_opcode_of_code(Opcode::Getattr);
    protocol::lemma_opcode_of_code(Opcode::Setattr);
    protocol::lemma_opcode_of_code(Opcode::Readlink);
    protocol::lemma_opcode_of_code(Opcode::Mknod);
    protocol::lemma_opcode_of_code(Opcode::Mkdir);
    protocol::lemma_opcode_of_code(Opcode::Unlink);
    protocol::lemma_opcode_of_code(Opcode::Rmdir);
    protocol::lemma_opcode_of_code(Opcode::Open);
    protocol::lemma_opcode_of_code(Opcode::Read);
    protocol::lemma_opcode_of_code(Opcode::Write);
    protocol::lemma_opcode_of_code(Opcode::Statfs);
    protocol::lemma_opcode_of_code(Opcode::Release);
    protocol::lemma_opcode_of_code(Opcode::Getxattr);
    protocol::lemma_opcode_of_code(Opcode::Listxattr);
    protocol::lemma_opcode_of_code(Opcode::Init);
    protocol::lemma_opcode_of_code(Opcode::Readdir);
    protocol::lemma_opcode_of_code(Opcode::Create);
    protocol::lemma_opcode_of_code(Opcode::Interrupt);
    protocol::lemma_opcode_of_code(Opcode::Destroy);
    protocol::lemma_opcode_of_code(Opcode::BatchForget);
    protocol::lemma_opcode_of_code(Opcode::Readdirplus);
    protocol::lemma_opcode_of_code(Opcode::Rename2);
    if let Some(opcode) = Opcode::of_code(v) {
        let read = choose|o: Opcode| #[trigger] o.code() == v;
        assert(read.code() == v);
    }
}

/// Which operation each opcode needs to be enabled. The others become no request.
pub proof fn lemma_accepts(ops: EnabledOps)
    ensures
        ops.accepts(Opcode::Lookup) == ops.lookup,
        ops.accepts(Opcode::Forget) == ops.forget,
        ops.accepts(Opcode::BatchForget) == ops.forget,
        ops.accepts(Opcode::Getattr) == ops.getattr,
        ops.accepts(Opcode::Setattr) == ops.setattr,
        ops.accepts(Opcode::Readlink) == ops.readlink,
        ops.accepts(Opcode::Mknod) == ops.mknod,
        ops.accepts(Opcode::Mkdir) == ops.mkdir,
        ops.accepts(Opcode::Unlink) == ops.unlink,
        ops.accepts(Opcode::Rmdir) == ops.rmdir,
        ops.accepts(Opcode::Open) == ops.open,
        ops.accepts(Opcode::Read) == ops.read,
        ops.accepts(Opcode::Write) == ops.write,
        ops.accepts(Opcode::Statfs) == ops.statfs,
        ops.accepts(Opcode::Release) == ops.release,
        ops.accepts(Opcode::Getxattr) == ops.getxattr,
        ops.accepts(Opcode::Listxattr) == ops.listxattr,
        ops.accepts(Opcode::Readdir) == ops.readdir,
        ops.accepts(Opcode::Create) == ops.create,
        ops.accepts(Opcode::Readdirplus) == ops.readdirplus,
        ops.accepts(Opcode::Rename2) == ops.rename,
        !ops.accepts(Opcode::Init),
        !ops.accepts(Opcode::Interrupt),
        !ops.accepts(Opcode::Destroy),
        Opcode::Lookup.is_request(),
        !Opcode::Forget.is_request(),
        Opcode::Getattr.is_request(),
        Opcode::Setattr.is_request(),
        Opcode::Readlink.is_request(),
        Opcode::Mknod.is_request(),
        Opcode::Mkdir.is_request(),
        Opcode::Unlink.is_request(),
        Opcode::Rmdir.is_request(),
        Opcode::Open.is_request(),
        Opcode::Read.is_request(),
        Opcode::Write.is_request(),
        Opcode::Statfs.is_request(),
        Opcode::Release.is_request(),
        Opcode::Getxattr.is_request(),
        Opcode::Listxattr.is_request(),
        !Opcode::Init.is_request(),
        Opcode::Readdir.is_request(),
        Opcode::Create.is_request(),
        !Opcode::Interrupt.is_request(),
        !Opcode::Destroy.is_request(),
        !Opcode::BatchForget.is_request(),
        Opcode::Readdirplus.is_request(),
        Opcode::Rename2.is_request(),
{
}

/// Looking up: the directory is the node, the name is the body.
pub proof fn lemma_lookup_bytes(guard: GuardView, nodeid: u64, body: Seq<u8>, buffer: Seq<u8>)
    ensures
        ({
            let order = guard.order;
            &&& message::requested(Opcode::Lookup, guard, nodeid, body, buffer) matches Ok(
                RequestView::Lookup(r),
            )
            &&& r.guard == guard
            &&& r.parent == nodeid
            &&& is_name(r.file_name, body, 0)
        }),
{
    lemma_name_at(body, 0);
    assert(body.skip(0) =~= body);
}

/// Unlinking: the directory is the node, the name is the body.
pub proof fn lemma_unlink_bytes(guard: GuardView, nodeid: u64, body: Seq<u8>, buffer: Seq<u8>)
    ensures
        ({
            let order = guard.order;
            &&& message::requested(Opcode::Unlink, guard, nodeid, body, buffer) matches Ok(
                RequestView::Unlink(r),
            )
            &&& r.guard == guard
            &&& r.parent == nodeid
            &&& is_name(r.file_name, body, 0)
        }),
{
    lemma_name_at(body, 0);
    assert(body.skip(0) =~= body);
}

/// Removing a directory: the directory above it is the node, the name is the body.
pub proof fn lemma_rmdir_bytes(guard: GuardView, nodeid: u64, body: Seq<u8>, buffer: Seq<u8>)
    ensures
        ({
            let order = guard.order;
            &&& message::requested(Opcode::Rmdir, guard, nodeid, body, buffer) matches Ok(
                RequestView::Rmdir(r),
            )
            &&& r.guard == guard
            &&& r.parent == nodeid
            &&& is_name(r.dir_name, body, 0)
        }),
{
    lemma_name_at(body, 0);
    assert(body.skip(0) =~= body);
}

/// Asking for attributes: of the node.
pub proof fn lemma_getattr_bytes(guard: GuardView, nodeid: u64, body: Seq<u8>, buffer: Seq<u8>)
    ensures
        ({
            let order = guard.order;
            &&& message::requested(Opcode::Getattr, guard, nodeid, body, buffer) matches Ok(
                RequestView::Getattr(r),
            )
            &&& r.guard == guard
            &&& r.inode == nodeid
        }),
{
}

/// Asking for statistics: of the filesystem that the node is in.
pub proof fn lemma_statfs_bytes(guard: GuardView, nodeid: u64, body: Seq<u8>, buffer: Seq<u8>)
    ensures
        ({
            let order = guard.order;
            &&& message::requested(Opcode::Statfs, guard, nodeid, body, buffer) matches Ok(
                RequestView::Statfs(r),
            )
            &&& r.guard == guard
            &&& r.inode == nodeid
        }),
{
}

/// Reading a link: the node.
pub proof fn lemma_readlink_bytes(guard: GuardView, nodeid: u64, body: Seq<u8>, buffer: Seq<u8>)
    ensures
        ({
            let order = guard.order;
            &&& message::requested(Opcode::Readlink, guard, nodeid, body, buffer) matches Ok(
                RequestView::Readlink(r),
            )
            &&& r.guard == guard
            &&& r.inode == nodeid
        }),
{
}

/// Making a directory in the node.
pub proof fn lemma_mkdir_bytes(guard: GuardView, nodeid: u64, body: Seq<u8>, buffer: Seq<u8>)
    requires
        body.len() <= usize::MAX,
    ensures
        body.len() < 8 ==> cut_off(
            message::requested(Opcode::Mkdir, guard, nodeid, body, buffer),
            8,
            body.len(),
        ),
        body.len() >= 8 ==> ({
            let order = guard.order;
            &&& message::requested(Opcode::Mkdir, guard, nodeid, body, buffer) matches Ok(
                RequestView::Mkdir(r),
            )
            &&& r.guard == guard
            &&& r.parent == nodeid
            &&& r.mode == wire::u32_at(order, body, 0)
            &&& is_name(r.dir_name, body, 8)
        }),
{
    let v = FuseMkdirIn::from_wire(guard.order, body);
    if body.len() >= 8 {
        offsets::lemma_fuse_mkdir_in(guard.order, body, v);
        lemma_name_at(body, 8);
    }
}

/// Making a node in the node.
pub proof fn lemma_mknod_bytes(guard: GuardView, nodeid: u64, body: Seq<u8>, buffer: Seq<u8>)
    requires
        body.len() <= usize::MAX,
    ensures
        body.len() < 16 ==> cut_off(
            message::requested(Opcode::Mknod, guard, nodeid, body, buffer),
            16,
            body.len(),
        ),
        body.len() >= 16 ==> ({
            let order = guard.order;
            &&& message::requested(Opcode::Mknod, guard, nodeid, body, buffer) matches Ok(
                RequestView::Mknod(r),
            )
            &&& r.guard == guard
            &&& r.parent == nodeid
            &&& r.mode == wire::u32_at(order, body, 0)
            &&& r.dev == wire::u32_at(order, body, 4)
            &&& is_name(r.file_name, body, 16)
        }),
{
    let v = FuseMknodIn::from_wire(guard.order, body);
    if body.len() >= 16 {
        offsets::lemma_fuse_mknod_in(guard.order, body, v);
        lemma_name_at(body, 16);
    }
}

/// Creating a file in the node, with no option set.
pub proof fn lemma_create_bytes(guard: GuardView, nodeid: u64, body: Seq<u8>, buffer: Seq<u8>)
    requires
        body.len() <= usize::MAX,
    ensures
        body.len() < 16 ==> cut_off(
            message::requested(Opcode::Create, guard, nodeid, body, buffer),
            16,
            body.len(),
        ),
        body.len() >= 16 ==> ({
            let order = guard.order;
            &&& message::requested(Opcode::Create, guard, nodeid, body, buffer) matches Ok(
                RequestView::Create(r),
            )
            &&& r.guard == guard
            &&& r.parent == nodeid
            &&& r.mode == wire::u32_at(order, body, 4)
            &&& is_name(r.file_name, body, 16)
            &&& !r.file_info.direct_io && !r.file_info.keep_cache && !r.file_info.nonseekable
            &&& !r.file_info.cache_readdir && !r.file_info.noflush
        }),
{
    let v = FuseCreateIn::from_wire(guard.order, body);
    if body.len() >= 16 {
        offsets::lemma_fuse_create_in(guard.order, body, v);
        lemma_name_at(body, 16);
    }
}

/// Opening the node, with no option set.
pub proof fn lemma_open_bytes(guard: GuardView, nodeid: u64, body: Seq<u8>, buffer: Seq<u8>)
    requires
        body.len() <= usize::MAX,
    ensures
        body.len() < 8 ==> cut_off(
            message::requested(Opcode::Open, guard, nodeid, body, buffer),
            8,
            body.len(),
        ),
        body.len() >= 8 ==> ({
            let order = guard.order;
            &&& message::requested(Opcode::Open, guard, nodeid, body, buffer) matches Ok(
                RequestView::Open(r),
            )
            &&& r.guard == guard
            &&& r.inode == nodeid
            &&& r.flags == wire::i32_at(order, body, 0)
            &&& !r.file_info.direct_io && !r.file_info.keep_cache && !r.file_info.nonseekable
            &&& !r.file_info.cache_readdir && !r.file_info.noflush
        }),
{
    let v = FuseOpenIn::from_wire(guard.order, body);
    if body.len() >= 8 {
        offsets::lemma_fuse_open_in(guard.order, body, v);
    }
}

/// Releasing the node.
pub proof fn lemma_release_bytes(guard: GuardView, nodeid: u64, body: Seq<u8>, buffer: Seq<u8>)
    requires
        body.len() <= usize::MAX,
    ensures
        body.len() < 24 ==> cut_off(
            message::requested(Opcode::Release, guard, nodeid, body, buffer),
            24,
            body.len(),
        ),
        body.len() >= 24 ==> ({
            let order = guard.order;
            &&& message::requested(Opcode::Release, guard, nodeid, body, buffer) matches Ok(
                RequestView::Release(r),
            )
            &&& r.guard == guard
            &&& r.inode == nodeid
            &&& r.fh == wire::u64_at(order, body, 0)
            &&& r.flags == wire::i32_at(order, body, 8)
        }),
{
    let v = FuseReleaseIn::from_wire(guard.order, body);
    if body.len() >= 24 {
        offsets::lemma_fuse_release_in(guard.order, body, v);
    }
}

/// Reading the node: with what handle, from where on and how much.
pub proof fn lemma_read_bytes(guard: GuardView, nodeid: u64, body: Seq<u8>, buffer: Seq<u8>)
    requires
        body.len() <= usize::MAX,
    ensures
        body.len() < 40 ==> cut_off(
            message::requested(Opcode::Read, guard, nodeid, body, buffer),
            40,
            body.len(),
        ),
        body.len() >= 40 ==> ({
            let order = guard.order;
            &&& message::requested(Opcode::Read, guard, nodeid, body, buffer) matches Ok(
                RequestView::Read(r),
            )
            &&& r.guard == guard
            &&& r.inode == nodeid
            &&& r.fh == wire::u64_at(order, body, 0)
            &&& r.offset == wire::u64_at(order, body, 8)
            &&& r.size == wire::u32_at(order, body, 16)
        }),
{
    let v = FuseReadIn::from_wire(guard.order, body);
    if body.len() >= 40 {
        offsets::lemma_fuse_read_in(guard.order, body, v);
    }
}

/// Listing the node: from where on and how much. Nothing is listed yet.
pub proof fn lemma_readdir_bytes(guard: GuardView, nodeid: u64, body: Seq<u8>, buffer: Seq<u8>)
    requires
        body.len() <= usize::MAX,
    ensures
        body.len() < 40 ==> cut_off(
            message::requested(Opcode::Readdir, guard, nodeid, body, buffer),
            40,
            body.len(),
        ),
        body.len() >= 40 ==> ({
            let order = guard.order;
            &&& message::requested(Opcode::Readdir, guard, nodeid, body, buffer) matches Ok(
                RequestView::Readdir(r),
            )
            &&& r.guard == guard
            &&& r.inode == nodeid
            &&& r.offset == wire::u64_at(order, body, 8)
            &&& r.reply_buffer.capacity == wire::u32_at(order, body, 16)
            &&& r.reply_buffer.order == order
            &&& r.reply_buffer.data.len() == 0
        }),
{
    let v = FuseReadIn::from_wire(guard.order, body);
    if body.len() >= 40 {
        offsets::lemma_fuse_read_in(guard.order, body, v);
    }
}

/// Listing the node with attributes: from where on and how much. Nothing is listed yet.
pub proof fn lemma_readdirplus_bytes(guard: GuardView, nodeid: u64, body: Seq<u8>, buffer: Seq<u8>)
    requires
        body.len() <= usize::MAX,
    ensures
        body.len() < 40 ==> cut_off(
            message::requested(Opcode::Readdirplus, guard, nodeid, body, buffer),
            40,
            body.len(),
        ),
        body.len() >= 40 ==> ({
            let order = guard.order;
            &&& message::requested(Opcode::Readdirplus, guard, nodeid, body, buffer) matches Ok(
                RequestView::ReaddirPlus(r),
            )
            &&& r.guard == guard
            &&& r.inode == nodeid
            &&& r.offset == wire::u64_at(order, body, 8)
            &&& r.reply_buffer.capacity == wire::u32_at(order, body, 16)
            &&& r.reply_buffer.order == order
            &&& r.reply_buffer.data.len() == 0
        }),
{
    let v = FuseReadIn::from_wire(guard.order, body);
    if body.len() >= 40 {
        offsets::lemma_fuse_read_in(guard.order, body, v);
    }
}

/// Whether `a` is the number that the bits of `b` are in two's complement.
pub open spec fn same_bits(a: i64, b: u64) -> bool {
    a == b || a == b - 0x1_0000_0000_0000_0000
}

/// Setting attributes of the node: which, and to what. Flags that are not known are dropped.
pub proof fn lemma_setattr_bytes(guard: GuardView, nodeid: u64, body: Seq<u8>, buffer: Seq<u8>)
    requires
        body.len() <= usize::MAX,
    ensures
        body.len() < 88 ==> cut_off(
            message::requested(Opcode::Setattr, guard, nodeid, body, buffer),
            88,
            body.len(),
        ),
        body.len() >= 88 ==> ({
            let order = guard.order;
            &&& message::requested(Opcode::Setattr, guard, nodeid, body, buffer) matches Ok(
                RequestView::Setattr(r),
            )
            &&& r.guard == guard
            &&& r.inode == nodeid
            &&& r.to_set.bits / 1 % 2 == wire::u32_at(order, body, 0) / 1 % 2
            &&& r.to_set.bits / 2 % 2 == wire::u32_at(order, body, 0) / 2 % 2
            &&& r.to_set.bits / 4 % 2 == wire::u32_at(order, body, 0) / 4 % 2
            &&& r.to_set.bits / 8 % 2 == wire::u32_at(order, body, 0) / 8 % 2
            &&& r.to_set.bits / 16 % 2 == wire::u32_at(order, body, 0) / 16 % 2
            &&& r.to_set.bits / 32 % 2 == wire::u32_at(order, body, 0) / 32 % 2
            &&& r.to_set.bits / 64 % 2 == wire::u32_at(order, body, 0) / 64 % 2
            &&& r.to_set.bits / 128 % 2 == wire::u32_at(order, body, 0) / 128 % 2
            &&& r.to_set.bits / 256 % 2 == wire::u32_at(order, body, 0) / 256 % 2
            &&& r.to_set.bits / 1024 % 2 == wire::u32_at(order, body, 0) / 1024 % 2
            &&& r.to_set.bits / 512 % 2 == 0
            &&& r.to_set.bits < 2048
            &&& r.fh == (if wire::u32_at(order, body, 0) / 64 % 2 == 1 {
                Some(wire::u64_at(order, body, 8))
            } else {
                None
            })
            &&& same_bits(r.stat.st_size, wire::u64_at(order, body, 16))
            &&& same_bits(r.stat.st_atime, wire::u64_at(order, body, 32))
            &&& same_bits(r.stat.st_mtime, wire::u64_at(order, body, 40))
            &&& same_bits(r.stat.st_ctime, wire::u64_at(order, body, 48))
            &&& r.stat.st_atime_nsec == wire::u32_at(order, body, 56)
            &&& r.stat.st_mtime_nsec == wire::u32_at(order, body, 60)
            &&& r.stat.st_ctime_nsec == wire::u32_at(order, body, 64)
            &&& r.stat.st_mode == wire::u32_at(order, body, 68)
            &&& r.stat.st_uid == wire::u32_at(order, body, 76)
            &&& r.stat.st_gid == wire::u32_at(order, body, 80)
            &&& r.stat.st_ino == 0 && r.stat.st_nlink == 0 && r.stat.st_rdev == 0
            &&& r.stat.st_blksize == 0 && r.stat.st_blocks == 0
        }),
{
    let v = FuseSetattrIn::from_wire(guard.order, body);
    if body.len() >= 88 {
        offsets::lemma_fuse_setattr_in(guard.order, body, v);
        let valid = v.valid;
        let kept = valid & 0x5ff;
        assert({
            &&& kept / 1 % 2 == valid / 1 % 2
            &&& kept / 2 % 2 == valid / 2 % 2
            &&& kept / 4 % 2 == valid / 4 % 2
            &&& kept / 8 % 2 == valid / 8 % 2
            &&& kept / 16 % 2 == valid / 16 % 2
            &&& kept / 32 % 2 == valid / 32 % 2
            &&& kept / 64 % 2 == valid / 64 % 2
            &&& kept / 128 % 2 == valid / 128 % 2
            &&& kept / 256 % 2 == valid / 256 % 2
            &&& kept / 1024 % 2 == valid / 1024 % 2
            &&& kept / 512 % 2 == 0
            &&& kept < 2048
            &&& (kept & (1u32 << 6) == (1u32 << 6)) == (valid / 64 % 2 == 1)
        }) by (bit_vector)
            requires
                kept == valid & 0x5ff,
        ;
    }
}

/// Renaming: from the node to another directory, with two names one behind the other, the first of
/// which has to be terminated.
pub proof fn lemma_rename_bytes(guard: GuardView, nodeid: u64, body: Seq<u8>, buffer: Seq<u8>)
    requires
        body.len() <= usize::MAX,
    ensures
        body.len() < 16 ==> cut_off(
            message::requested(Opcode::Rename2, guard, nodeid, body, buffer),
            16,
            body.len(),
        ),
        body.len() >= 16 ==> ({
            let order = guard.order;
            match message::requested(Opcode::Rename2, guard, nodeid, body, buffer) {
                Ok(request) => {
                    &&& request matches RequestView::Rename(r)
                    &&& r.guard == guard
                    &&& r.parent == nodeid
                    &&& r.new_parent == wire::u64_at(order, body, 0)
                    &&& r.flags == wire::i32_at(order, body, 8)
                    &&& is_name(r.name, body, 16)
                    &&& 16 + r.name.len() < body.len()
                    &&& is_name(r.new_name, body, 17 + r.name.len() as int)
                },
                Err(err) => {
                    &&& err == Error::NoSeparator
                    &&& forall|i: int| 16 <= i < body.len() ==> #[trigger] body[i] != 0
                },
            }
        }),
{
    let v = FuseRename2In::from_wire(guard.order, body);
    if body.len() >= 16 {
        offsets::lemma_fuse_rename2_in(guard.order, body, v);
        let names = body.skip(16);
        let p = cstring::nul_position(names) as int;
        cstring::lemma_nul_position(names);
        lemma_name_at(body, 16);
        if p < names.len() {
            lemma_name_at(body, 17 + p);
            assert(names.skip(p + 1) =~= body.skip(17 + p));
        } else {
            assert forall|i: int| 16 <= i < body.len() implies #[trigger] body[i] != 0 by {
                assert(names.take(p)[i - 16] == body[i]);
            }
        }
    }
}

/// Writing to the node: with what handle, where to and what. The data stands behind the fixed
/// structure, and has to be there.
pub proof fn lemma_write_bytes(guard: GuardView, nodeid: u64, body: Seq<u8>, buffer: Seq<u8>)
    requires
        40 + body.len() <= usize::MAX,
        40 + body.len() <= buffer.len(),
        buffer.subrange(40, 40 + body.len() as int) == body,
    ensures
        body.len() < 40 ==> cut_off(
            message::requested(Opcode::Write, guard, nodeid, body, buffer),
            40,
            body.len(),
        ),
        body.len() >= 40 ==> ({
            let order = guard.order;
            let size = wire::u32_at(order, body, 16);
            match message::requested(Opcode::Write, guard, nodeid, body, buffer) {
                Ok(request) => {
                    &&& size <= body.len() - 40
                    &&& request matches RequestView::Write(r)
                    &&& r.guard == guard
                    &&& r.inode == nodeid
                    &&& r.fh == wire::u64_at(order, body, 0)
                    &&& r.offset == wire::u64_at(order, body, 8)
                    &&& r.size == size
                    &&& r.wf()
                    &&& r.data() == body.subrange(40, 40 + size as int)
                },
                Err(Error::WriteTruncated { claimed, nbytes }) => {
                    &&& size > body.len() - 40
                    &&& claimed == size
                    &&& nbytes == 40 + body.len()
                },
                Err(err) => {
                    &&& size > usize::MAX - 80
                    &&& err == Error::WriteOverflow
                },
            }
        }),
{
    let v = FuseWriteIn::from_wire(guard.order, body);
    if body.len() >= 40 {
        offsets::lemma_fuse_write_in(guard.order, body, v);
        if let Ok(RequestView::Write(r)) = message::requested(
            Opcode::Write,
            guard,
            nodeid,
            body,
            buffer,
        ) {
            assert(r.data() =~= body.subrange(40, 40 + v.size as int));
        }
    }
}

/// Listing extended attributes of the node: how much, or with zero, how much there is.
pub proof fn lemma_listxattr_bytes(guard: GuardView, nodeid: u64, body: Seq<u8>, buffer: Seq<u8>)
    requires
        body.len() <= usize::MAX,
    ensures
        body.len() < 8 ==> cut_off(
            message::requested(Opcode::Listxattr, guard, nodeid, body, buffer),
            8,
            body.len(),
        ),
        body.len() >= 8 ==> ({
            let size = wire::u32_at(guard.order, body, 0);
            match message::requested(Opcode::Listxattr, guard, nodeid, body, buffer) {
                Ok(RequestView::ListXAttrSize(r)) => {
                    &&& size == 0
                    &&& r.guard == guard
                    &&& r.inode == nodeid
                },
                Ok(RequestView::ListXAttr(r)) => {
                    &&& size != 0
                    &&& r.guard == guard
                    &&& r.inode == nodeid
                    &&& r.size == size
                    &&& r.response.len() == 0
                },
                _ => false,
            }
        }),
{
    let v = FuseGetxattrIn::from_wire(guard.order, body);
    if body.len() >= 8 {
        offsets::lemma_fuse_getxattr_in(guard.order, body, v);
    }
}

/// Reading an extended attribute of the node: which, and how much, or with zero, how much there is.
pub proof fn lemma_getxattr_bytes(guard: GuardView, nodeid: u64, body: Seq<u8>, buffer: Seq<u8>)
    requires
        body.len() <= usize::MAX,
    ensures
        body.len() < 8 ==> cut_off(
            message::requested(Opcode::Getxattr, guard, nodeid, body, buffer),
            8,
            body.len(),
        ),
        body.len() >= 8 ==> ({
            let size = wire::u32_at(guard.order, body, 0);
            match message::requested(Opcode::Getxattr, guard, nodeid, body, buffer) {
                Ok(RequestView::GetXAttrSize(r)) => {
                    &&& size == 0
                    &&& r.guard == guard
                    &&& r.inode == nodeid
                    &&& is_name(r.attr_name, body, 8)
                },
                Ok(RequestView::GetXAttr(r)) => {
                    &&& size != 0
                    &&& r.guard == guard
                    &&& r.inode == nodeid
                    &&& r.size == size
                    &&& is_name(r.attr_name, body, 8)
                },
                _ => false,
            }
        }),
{
    let v = FuseGetxattrIn::from_wire(guard.order, body);
    if body.len() >= 8 {
        offsets::lemma_fuse_getxattr_in(guard.order, body, v);
        lemma_name_at(body, 8);
    }
}

/// Forgetting the node: how many references.
pub proof fn lemma_forget_bytes(guard: GuardView, nodeid: u64, body: Seq<u8>)
    requires
        body.len() <= usize::MAX,
    ensures
        body.len() < 8 ==> cut_off(
            message::forget_requested(guard, nodeid, body),
            8,
            body.len(),
        ),
        body.len() >= 8 ==> ({
            &&& message::forget_requested(guard, nodeid, body) matches Ok(RequestView::Forget(r))
            &&& r.inode == nodeid
            &&& r.count == wire::u64_at(guard.order, body, 0)
            &&& r.guard == guard
        }),
{
    let v = FuseForgetIn::from_wire(guard.order, body);
    if body.len() >= 8 {
        offsets::lemma_fuse_forget_in(guard.order, body, v);
    }
}

/// Forgetting several nodes: as many as announced and there, in their order.
pub proof fn lemma_batch_bytes(order: ByteOrder, body: Seq<u8>)
    requires
        body.len() <= usize::MAX,
    ensures
        body.len() < 8 ==> cut_off(message::batch_requested(order, body), 8, body.len()),
        body.len() >= 8 ==> ({
            let announced = wire::u32_at(order, body, 0);
            &&& message::batch_requested(order, body) matches Ok(forgets)
            &&& forgets.len() <= announced
            &&& 8 + 16 * forgets.len() <= body.len()
            &&& forgets.len() < announced ==> 8 + 16 * (forgets.len() + 1) > body.len()
            &&& forall|i: int|
                0 <= i < forgets.len() ==> is_batch_entry(#[trigger] forgets[i], order, body, i)
        }),
{
    let v = FuseBatchForgetIn::from_wire(order, body);
    if body.len() >= 8 {
        offsets::lemma_fuse_batch_forget_in(order, body, v);
        if let Ok(forgets) = message::batch_requested(order, body) {
            assert forall|i: int| 0 <= i < forgets.len() implies is_batch_entry(
                #[trigger] forgets[i],
                order,
                body,
                i,
            ) by {
                let rest = body.skip(8 + 16 * i);
                let one = FuseForgetOne::from_wire(order, rest);
                offsets::lemma_fuse_forget_one(order, rest, one);
                assert(rest.subrange(0, 8) =~= body.subrange(8 + 16 * i, 16 + 16 * i));
                assert(rest.subrange(8, 16) =~= body.subrange(16 + 16 * i, 24 + 16 * i));
            }
        }
    }
}

/// Whether `request` is the `i`th forget of the batch in `body`. It has no number to be answered.
pub open spec fn is_batch_entry(
    request: RequestView,
    order: ByteOrder,
    body: Seq<u8>,
    i: int,
) -> bool {
    &&& request matches RequestView::Forget(r)
    &&& r.inode == wire::u64_at(order, body, 8 + 16 * i)
    &&& r.count == wire::u64_at(order, body, 16 + 16 * i)
    &&& r.guard.unique == 0
}

/// A message whose first four bytes are not its length, or that is too short for a header, is
/// dropped with an error, before and after the handshake, and changes nothing.
pub proof fn lemma_bad_length(state: FuseView, buffer: Seq<u8>, nbytes: nat, page_size: i64)
    requires
        nbytes <= buffer.len(),
        nbytes <= usize::MAX,
        nbytes < 40 || wire::u32_at(state.order, buffer, 0) != nbytes,
    ensures
        (state.step(buffer, nbytes, page_size) matches StepView::Done {
            state: next,
            answer,
            result,
        } && {
            &&& next == state
            &&& answer is None
            &&& nbytes < 40 ==> result == Err::<(), Error>(Error::ShortRead)
            &&& nbytes >= 40 ==> (result matches Err(
                Error::LengthMismatch { stated, nbytes: read },
            ) && stated == wire::u32_at(state.order, buffer, 0) && read == nbytes)
        }),
{
    if nbytes >= 40 {
        lemma_header_bytes(state.order, buffer, nbytes);
    }
}

/// The header of a message at the start of a buffer.
proof fn lemma_header_bytes(order: ByteOrder, buffer: Seq<u8>, nbytes: nat)
    requires
        40 <= nbytes <= buffer.len(),
    ensures
        ({
            let header = FuseInHeader::from_wire(order, buffer.take(nbytes as int));
            &&& header.len == wire::u32_at(order, buffer, 0)
            &&& header.opcode == wire::u32_at(order, buffer, 4)
            &&& header.unique == wire::u64_at(order, buffer, 8)
            &&& header.nodeid == wire::u64_at(order, buffer, 16)
        }),
{
    let message = buffer.take(nbytes as int);
    offsets::lemma_fuse_in_header(order, message, FuseInHeader::from_wire(order, message));
    assert(message.subrange(0, 4) =~= buffer.subrange(0, 4));
    assert(message.subrange(4, 8) =~= buffer.subrange(4, 8));
    assert(message.subrange(8, 16) =~= buffer.subrange(8, 16));
    assert(message.subrange(16, 24) =~= buffer.subrange(16, 24));
}

/// After the handshake, a message for an enabled operation becomes the request that is in its body:
/// for the node at offset 16, and owed to the number at offset 8. Where its body is not right, the
/// error is told and the number is answered with `ENOSYS`.
pub proof fn lemma_enabled_message(
    state: FuseView,
    buffer: Seq<u8>,
    nbytes: nat,
    page_size: i64,
    opcode: Opcode,
)
    requires
        state.init_done,
        40 <= nbytes <= buffer.len(),
        wire::u32_at(state.order, buffer, 0) == nbytes,
        wire::u32_at(state.order, buffer, 4) == opcode.code(),
        opcode.is_request(),
        state.ops.accepts(opcode),
    ensures
        ({
            let unique = wire::u64_at(state.order, buffer, 8);
            let guard = GuardView { unique, order: state.order };
            let nodeid = wire::u64_at(state.order, buffer, 16);
            let body = buffer.subrange(40, nbytes as int);
            &&& state.step(buffer, nbytes, page_size) matches StepView::Done {
                state: next,
                answer,
                result,
            }
            &&& next.ops == state.ops && next.order == state.order && next.init_done
            &&& next.finished == state.finished
            &&& match message::requested(opcode, guard, nodeid, body, buffer) {
                Ok(request) => {
                    &&& next.pending == state.pending.push(request)
                    &&& answer is None
                    &&& result is Ok
                },
                Err(err) => {
                    &&& next.pending == state.pending
                    &&& result == Err::<(), Error>(err)
                    &&& unique == 0 ==> answer is None
                    &&& unique != 0 ==> (answer matches Some(m) && is_error_message(
                        m,
                        state.order,
                        unique,
                        38,
                    ))
                },
            }
        }),
{
    lemma_header_bytes(state.order, buffer, nbytes);
    let message = buffer.take(nbytes as int);
    let header = FuseInHeader::from_wire(state.order, message);
    assert(message.skip(40) =~= buffer.subrange(40, nbytes as int));
    protocol::lemma_opcode_of_code(opcode);
    lemma_error_message(state.order, header.unique, 38);
    if let Ok(request) = message::requested(
        opcode,
        GuardView { unique: header.unique, order: state.order },
        header.nodeid,
        message.skip(40),
        buffer,
    ) {
        assert(state.pending + seq![request] =~= state.pending.push(request));
    }
}

/// Whether `m` is the message of sixteen bytes that answers request `unique` with the error number
/// `errno`.
pub open spec fn is_error_message(m: Seq<u8>, order: ByteOrder, unique: u64, errno: int) -> bool {
    &&& m.len() == 16
    &&& wire::u32_at(order, m, 0) == 16
    &&& wire::i32_at(order, m, 4) == -errno
    &&& wire::u64_at(order, m, 8) == unique
}

/// An error message, byte by byte.
pub proof fn lemma_error_message(order: ByteOrder, unique: u64, errno: i32)
    requires
        errno != i32::MIN,
    ensures
        is_error_message(
            reply::error_message_of(order, unique, errno),
            order,
            unique,
            errno as int,
        ),
{
    let m = reply::error_message_of(order, unique, errno);
    let header = FuseOutHeader { len: 16, error: (-errno) as i32, unique };
    header.lemma_size(order);
    assert(m =~= header.to_wire(order));
    offsets::lemma_fuse_out_header(order, m, header);
}

/// After the handshake, forgets are queued where that is enabled, and no message is sent for them.
pub proof fn lemma_forget_messages(
    state: FuseView,
    buffer: Seq<u8>,
    nbytes: nat,
    page_size: i64,
)
    requires
        state.init_done,
        40 <= nbytes <= buffer.len(),
        wire::u32_at(state.order, buffer, 0) == nbytes,
        wire::u32_at(state.order, buffer, 4) == 2 || wire::u32_at(state.order, buffer, 4) == 42,
    ensures
        ({
            let guard = GuardView {
                unique: wire::u64_at(state.order, buffer, 8),
                order: state.order,
            };
            let nodeid = wire::u64_at(state.order, buffer, 16);
            let body = buffer.subrange(40, nbytes as int);
            &&& state.step(buffer, nbytes, page_size) matches StepView::Done {
                state: next,
                answer,
                result,
            }
            &&& answer is None
            &&& if wire::u32_at(state.order, buffer, 4) == 2 {
                match message::forget_requested(guard, nodeid, body) {
                    Ok(request) => {
                        &&& result is Ok
                        &&& state.ops.forget ==> next.pending == state.pending.push(request)
                        &&& !state.ops.forget ==> next.pending == state.pending
                    },
                    Err(err) => {
                        &&& result == Err::<(), Error>(err)
                        &&& next.pending == state.pending
                    },
                }
            } else if state.ops.forget {
                match message::batch_requested(state.order, body) {
                    Ok(requests) => {
                        &&& result is Ok
                        &&& next.pending == state.pending + requests
                    },
                    Err(err) => {
                        &&& result == Err::<(), Error>(err)
                        &&& next.pending == state.pending
                    },
                }
            } else {
                &&& result is Ok
                &&& next.pending == state.pending
            }
        }),
{
    lemma_header_bytes(state.order, buffer, nbytes);
    lemma_opcode_numbers(0);
    let message = buffer.take(nbytes as int);
    let header = FuseInHeader::from_wire(state.order, message);
    assert(message.skip(40) =~= buffer.subrange(40, nbytes as int));
    if let Ok(request) = message::forget_requested(
        GuardView { unique: header.unique, order: state.order },
        header.nodeid,
        message.skip(40),
    ) {
        assert(state.pending + seq![request] =~= state.pending.push(request));
    }
}

/// After the handshake, opcode 38 ends the reading: no answer, and what waits stays.
pub proof fn lemma_destroy_message(
    state: FuseView,
    buffer: Seq<u8>,
    nbytes: nat,
    page_size: i64,
)
    requires
        state.init_done,
        40 <= nbytes <= buffer.len(),
        wire::u32_at(state.order, buffer, 0) == nbytes,
        wire::u32_at(state.order, buffer, 4) == 38,
    ensures
        (state.step(buffer, nbytes, page_size) matches StepView::Done {
            state: next,
            answer,
            result,
        } && {
            &&& next.finished
            &&& next.pending == state.pending
            &&& answer is None
            &&& result is Ok
        }),
{
    lemma_header_bytes(state.order, buffer, nbytes);
    lemma_opcode_numbers(0);
}

/// After the handshake, whatever is not enabled, not known, or an interrupt is answered with
/// `ENOSYS` under the number at offset 8, if there is one. It is no error and changes nothing.
pub proof fn lemma_refused_message(
    state: FuseView,
    buffer: Seq<u8>,
    nbytes: nat,
    page_size: i64,
)
    requires
        state.init_done,
        40 <= nbytes <= buffer.len(),
        wire::u32_at(state.order, buffer, 0) == nbytes,
        wire::u32_at(state.order, buffer, 4) != 2,
        wire::u32_at(state.order, buffer, 4) != 38,
        wire::u32_at(state.order, buffer, 4) != 42,
        forall|opcode: Opcode| #[trigger]
            opcode.code() == wire::u32_at(state.order, buffer, 4) ==> !state.ops.accepts(opcode),
    ensures
        (state.step(buffer, nbytes, page_size) matches StepView::Done {
            state: next,
            answer,
            result,
        } && {
            &&& next == state
            &&& result is Ok
            &&& answer is None <==> wire::u64_at(state.order, buffer, 8) == 0
            &&& answer matches Some(m) ==> is_error_message(
                m,
                state.order,
                wire::u64_at(state.order, buffer, 8),
                38,
            )
        }),
{
    lemma_header_bytes(state.order, buffer, nbytes);
    let v = wire::u32_at(state.order, buffer, 4);
    lemma_opcode_numbers(v);
    lemma_error_message(state.order, wire::u64_at(state.order, buffer, 8), 38);
}

/// Before the handshake: which message is the kernel's part of it, and what is told of any other.
/// The reply to it is addressed to the number at offset 8 and carries what was negotiated.
pub proof fn lemma_first_message(
    state: FuseView,
    buffer: Seq<u8>,
    nbytes: nat,
    page_size: i64,
)
    requires
        !state.init_done,
        40 <= nbytes <= buffer.len(),
        nbytes <= usize::MAX,
        wire::u32_at(state.order, buffer, 0) == nbytes,
    ensures
        match state.step(buffer, nbytes, page_size) {
            StepView::Handshake { state: next, reply } => {
                &&& wire::u32_at(state.order, buffer, 4) == 26
                &&& nbytes >= 104
                &&& wire::u32_at(state.order, buffer, 40) == 7
                &&& next.handshaking && !next.init_done
                &&& next.pending == state.pending && next.ops == state.ops
                &&& reply.len() == 80
                &&& wire::u32_at(state.order, reply, 0) == 80
                &&& wire::i32_at(state.order, reply, 4) == 0
                &&& wire::u64_at(state.order, reply, 8) == wire::u64_at(state.order, buffer, 8)
                &&& FuseInitOut::from_wire(state.order, reply.skip(16)) == session::negotiated(
                    FuseInitIn::from_wire(state.order, buffer.subrange(40, nbytes as int)),
                    state.ops,
                    page_size,
                )
            },
            StepView::Done { state: next, answer, result } => {
                &&& next == state
                &&& answer is None
                &&& if wire::u32_at(state.order, buffer, 4) != 26 {
                    result matches Err(Error::NotInit { opcode }) && opcode == wire::u32_at(
                        state.order,
                        buffer,
                        4,
                    )
                } else if nbytes < 104 {
                    cut_off(result, 64, (nbytes - 40) as nat)
                } else {
                    &&& wire::u32_at(state.order, buffer, 40) != 7
                    &&& result matches Err(Error::UnsupportedMajor { major }) && major
                        == wire::u32_at(state.order, buffer, 40)
                }
            },
        },
{
    lemma_header_bytes(state.order, buffer, nbytes);
    lemma_opcode_numbers(wire::u32_at(state.order, buffer, 4));
    let message = buffer.take(nbytes as int);
    let header = FuseInHeader::from_wire(state.order, message);
    let body = message.skip(40);
    assert(body =~= buffer.subrange(40, nbytes as int));
    let init_in = FuseInitIn::from_wire(state.order, body);
    if body.len() >= 64 {
        offsets::lemma_fuse_init_in(state.order, body, init_in);
        assert(body.subrange(0, 4) =~= buffer.subrange(40, 44));
        let out = session::negotiated(init_in, state.ops, page_size);
        let data = out.to_wire(state.order);
        out.lemma_size(state.order);
        out.lemma_decode_encode(state.order, Seq::empty());
        assert(data + Seq::<u8>::empty() =~= data);
        lemma_reply_bytes(state.order, header.unique, data);
    }
}

/// A reply with data: its length, no error, its number and the data.
pub proof fn lemma_reply_bytes(order: ByteOrder, unique: u64, data: Seq<u8>)
    requires
        16 + data.len() <= 0xffff_ffff,
    ensures
        ({
            let m = reply::message_of(order, unique, 0, data);
            &&& m.len() == 16 + data.len()
            &&& wire::u32_at(order, m, 0) == m.len()
            &&& wire::i32_at(order, m, 4) == 0
            &&& wire::u64_at(order, m, 8) == unique
            &&& m.skip(16) == data
        }),
{
    let m = reply::message_of(order, unique, 0, data);
    reply::lemma_message_read_back(order, unique, 0, data);
    let header = FuseOutHeader::from_wire(order, m);
    header.lemma_size(order);
    (FuseOutHeader { len: (16 + data.len()) as u32, error: 0, unique }).lemma_size(order);
    offsets::lemma_fuse_out_header(order, m, header);
}

/// What is negotiated, number by number. The bits of the flags are those of `<linux/fuse.h>`. The
/// page limit is as many whole pages as fit into the largest write.
pub proof fn lemma_negotiated(init_in: FuseInitIn, ops: EnabledOps, page_size: i64)
    ensures
        ({
            let out = session::negotiated(init_in, ops, page_size);
            let offered = init_in.flags;
            let pages = page_size > 0 && offered / 0x40_0000 % 2 == 1;
            &&& out.major == 7
            &&& out.minor <= 31 && out.minor <= init_in.minor
            &&& out.minor == 31 || out.minor == init_in.minor
            &&& out.max_readahead == init_in.max_readahead
            &&& out.max_write == 262_144
            &&& out.time_gran == 1
            &&& out.max_background == 0 && out.congestion_threshold == 0
            &&& out.map_alignment == 0 && out.flags2 == 0
            &&& out.max_stack_depth == 0 && out.request_timeout == 0
            &&& forall|i: int| 0 <= i < 11 ==> #[trigger] out.unused[i] == 0
            &&& out.flags / 1 % 2 == offered / 1 % 2
            &&& out.flags / 8 % 2 == offered / 8 % 2
            &&& out.flags / 32 % 2 == offered / 32 % 2
            &&& out.flags / 0x100_0000 % 2 == offered / 0x100_0000 % 2
            &&& out.flags / 0x2000 % 2 == (if ops.readdirplus {
                offered / 0x2000 % 2
            } else {
                0
            })
            &&& out.flags / 0x4000 % 2 == (if ops.readdirplus {
                offered / 0x4000 % 2
            } else {
                0
            })
            &&& out.flags / 0x2_0000 % 2 == (if ops.open {
                0
            } else {
                offered / 0x2_0000 % 2
            })
            &&& out.flags / 0x40_0000 % 2 == (if pages {
                1u32
            } else {
                0u32
            })
            // No other bit is set.
            &&& out.flags & 0xfebd_9fd6 == 0
            &&& !pages ==> out.max_pages == 0
            &&& pages && page_size > 4 ==> out.max_pages * page_size <= 262_144 < (out.max_pages
                + 1) * page_size
            // With smaller pages there are more than the field can tell.
            &&& pages ==> (262_144int / page_size as int - out.max_pages) % 0x1_0000 == 0
        }),
{
    session::lemma_negotiated_flags(init_in, ops, page_size);
    let offered = init_in.flags;
    let flags = session::negotiated(init_in, ops, page_size).flags;
    assert({
        &&& (flags & (1u32 << 0) == (1u32 << 0)) == (flags / 1 % 2 == 1)
        &&& (flags & (1u32 << 3) == (1u32 << 3)) == (flags / 8 % 2 == 1)
        &&& (flags & (1u32 << 5) == (1u32 << 5)) == (flags / 32 % 2 == 1)
        &&& (flags & (1u32 << 13) == (1u32 << 13)) == (flags / 0x2000 % 2 == 1)
        &&& (flags & (1u32 << 14) == (1u32 << 14)) == (flags / 0x4000 % 2 == 1)
        &&& (flags & (1u32 << 17) == (1u32 << 17)) == (flags / 0x2_0000 % 2 == 1)
        &&& (flags & (1u32 << 22) == (1u32 << 22)) == (flags / 0x40_0000 % 2 == 1)
        &&& (flags & (1u32 << 24) == (1u32 << 24)) == (flags / 0x100_0000 % 2 == 1)
        &&& (offered & (1u32 << 0) == (1u32 << 0)) == (offered / 1 % 2 == 1)
        &&& (offered & (1u32 << 3) == (1u32 << 3)) == (offered / 8 % 2 == 1)
        &&& (offered & (1u32 << 5) == (1u32 << 5)) == (offered / 32 % 2 == 1)
        &&& (offered & (1u32 << 13) == (1u32 << 13)) == (offered / 0x2000 % 2 == 1)
        &&& (offered & (1u32 << 14) == (1u32 << 14)) == (offered / 0x4000 % 2 == 1)
        &&& (offered & (1u32 << 17) == (1u32 << 17)) == (offered / 0x2_0000 % 2 == 1)
        &&& (offered & (1u32 << 22) == (1u32 << 22)) == (offered / 0x40_0000 % 2 == 1)
        &&& (offered & (1u32 << 24) == (1u32 << 24)) == (offered / 0x100_0000 % 2 == 1)
        &&& ((offered & 0x142_6029) & (1u32 << 22) == (1u32 << 22)) == (offered / 0x40_0000 % 2
            == 1)
        &&& flags & 0x142_6029 == flags ==> flags & 0xfebd_9fd6 == 0
    }) by (bit_vector);
    if page_size > 0 {
        let q = 262_144int / page_size as int;
        assert(q >= 0) by (nonlinear_arith)
            requires
                page_size > 0,
                q == 262_144int / page_size as int,
        ;
        assert((q - q % 0x1_0000) % 0x1_0000 == 0);
    }
    if page_size > 4 {
        let q = 262_144int / page_size as int;
        assert(q * page_size <= 262_144 < (q + 1) * page_size && 0 <= q < 0x1_0000)
            by (nonlinear_arith)
            requires
                page_size > 4,
                q == 262_144int / page_size as int,
        ;
    }
}

} // verus!
