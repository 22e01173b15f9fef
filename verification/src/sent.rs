//! What the kernel is told, byte by byte.
//!
//! Offsets into an entry or a message count from its start.

use vstd::prelude::*;

use crate::cast;
use crate::error;
use crate::error::Error;
use crate::mount;
use crate::offsets;
use crate::protocol;
use crate::protocol::{
    FattrFlags, FopenFlags, FuseAttr, FuseEntryOut, FuseKstatfs, FuseOutHeader, FuseSetattrIn,
    InitFlags,
};
use crate::received;
use crate::reply;
use crate::reply::{GuardView, Rejected, ReplyError, ReplyView};
use crate::requests;
use crate::requests::{ListXAttrView, RequestView, WriteView};
use crate::session;
use crate::sys;
use crate::sys::{EntryParam, FileInfoView, ReplyBufView};
use crate::util::{Stat, StatVfs, Timeout};
use crate::wire;
use crate::wire::{ByteOrder, Wire};

verus! {

/// Each flag is the bit that `<linux/fuse.h>` gives it.
pub proof fn lemma_flag_bits(bits: u32)
    ensures
        ({
            let fattr = FattrFlags { bits };
            &&& fattr.has(FattrFlags::MODE) == (bits / 1 % 2 == 1)
            &&& fattr.has(FattrFlags::UID) == (bits / 2 % 2 == 1)
            &&& fattr.has(FattrFlags::GID) == (bits / 4 % 2 == 1)
            &&& fattr.has(FattrFlags::SIZE) == (bits / 8 % 2 == 1)
            &&& fattr.has(FattrFlags::ATIME) == (bits / 16 % 2 == 1)
            &&& fattr.has(FattrFlags::MTIME) == (bits / 32 % 2 == 1)
            &&& fattr.has(FattrFlags::FH) == (bits / 64 % 2 == 1)
            &&& fattr.has(FattrFlags::ATIME_NOW) == (bits / 128 % 2 == 1)
            &&& fattr.has(FattrFlags::MTIME_NOW) == (bits / 256 % 2 == 1)
            &&& fattr.has(FattrFlags::CTIME) == (bits / 1024 % 2 == 1)
        }),
        ({
            let init = InitFlags { bits };
            &&& init.has(InitFlags::ASYNC_READ) == (bits / 1 % 2 == 1)
            &&& init.has(InitFlags::ATOMIC_O_TRUNC) == (bits / 8 % 2 == 1)
            &&& init.has(InitFlags::BIG_WRITES) == (bits / 32 % 2 == 1)
            &&& init.has(InitFlags::DO_READDIRPLUS) == (bits / 0x2000 % 2 == 1)
            &&& init.has(InitFlags::READDIRPLUS_AUTO) == (bits / 0x4000 % 2 == 1)
            &&& init.has(InitFlags::NO_OPEN_SUPPORT) == (bits / 0x2_0000 % 2 == 1)
            &&& init.has(InitFlags::MAX_PAGES) == (bits / 0x40_0000 % 2 == 1)
            &&& init.has(InitFlags::NO_OPENDIR_SUPPORT) == (bits / 0x100_0000 % 2 == 1)
        }),
{
    assert({
        &&& (bits & (1u32 << 0) == (1u32 << 0)) == (bits / 1 % 2 == 1)
        &&& (bits & (1u32 << 1) == (1u32 << 1)) == (bits / 2 % 2 == 1)
        &&& (bits & (1u32 << 2) == (1u32 << 2)) == (bits / 4 % 2 == 1)
        &&& (bits & (1u32 << 3) == (1u32 << 3)) == (bits / 8 % 2 == 1)
        &&& (bits & (1u32 << 4) == (1u32 << 4)) == (bits / 16 % 2 == 1)
        &&& (bits & (1u32 << 5) == (1u32 << 5)) == (bits / 32 % 2 == 1)
        &&& (bits & (1u32 << 6) == (1u32 << 6)) == (bits / 64 % 2 == 1)
        &&& (bits & (1u32 << 7) == (1u32 << 7)) == (bits / 128 % 2 == 1)
        &&& (bits & (1u32 << 8) == (1u32 << 8)) == (bits / 256 % 2 == 1)
        &&& (bits & (1u32 << 10) == (1u32 << 10)) == (bits / 1024 % 2 == 1)
        &&& (bits & (1u32 << 13) == (1u32 << 13)) == (bits / 0x2000 % 2 == 1)
        &&& (bits & (1u32 << 14) == (1u32 << 14)) == (bits / 0x4000 % 2 == 1)
        &&& (bits & (1u32 << 17) == (1u32 << 17)) == (bits / 0x2_0000 % 2 == 1)
        &&& (bits & (1u32 << 22) == (1u32 << 22)) == (bits / 0x40_0000 % 2 == 1)
        &&& (bits & (1u32 << 24) == (1u32 << 24)) == (bits / 0x100_0000 % 2 == 1)
    }) by (bit_vector);
}

/// The numbers that the kernel and the C library give their names to, and the sizes that follow
/// from the largest write.
pub proof fn lemma_numbers()
    ensures
        error::EPERM == 1 && error::ENOENT == 2 && error::EIO == 5 && error::ENODEV == 19,
        error::ERANGE == 34 && error::ENOSYS == 38 && error::ECONNABORTED == 103,
        protocol::FUSE_KERNEL_VERSION == 7 && protocol::FUSE_KERNEL_MINOR_VERSION == 31,
        protocol::FUSE_ROOT_ID == 1 && sys::ROOT_ID == 1,
        protocol::FUSE_MIN_READ_BUFFER == 8192,
        session::MAX_WRITE == 256 * 1024,
        session::READ_BUF_SIZE == 256 * 1024 + 4096,
        protocol::FUSE_DIRENT_HEADER_SIZE == 24 && protocol::FUSE_ENTRY_OUT_SIZE == 128,
        mount::S_IFMT == 0xf000 && mount::SOL_SOCKET == 1 && mount::SCM_RIGHTS == 1,
        FattrFlags::ALL == 0x5ff && InitFlags::ALL == 0x142_6029,
        FopenFlags::STREAM == 16,
{
    assert(1u32 << 4 == 16) by (bit_vector);
}

/// Whether `n` is `v` where a field of 32 bits can hold it, and its low 32 bits where not.
pub open spec fn kept32(n: u32, v: int) -> bool {
    &&& 0 <= v <= 0xffff_ffff ==> n == v
    &&& (v - n) % 0x1_0000_0000 == 0
}

/// Whether `n` is the time `v`, or zero where `v` is before the epoch.
pub open spec fn kept_time(n: u64, v: i64) -> bool {
    &&& v >= 0 ==> n == v
    &&& v < 0 ==> n == 0
}

/// Whether `n` is as much as a field of 32 bits can hold of `v`, or zero where `v` is negative.
pub open spec fn kept_nsec(n: u32, v: i64) -> bool {
    &&& v >= 0 ==> kept32(n, v as int)
    &&& v < 0 ==> n == 0
}

/// Whether `a` says of a file what `s` says.
pub open spec fn is_attr(a: FuseAttr, s: Stat) -> bool {
    &&& a.ino == s.st_ino
    &&& s.st_size >= 0 ==> a.size == s.st_size
    &&& received::same_bits(s.st_size, a.size)
    &&& s.st_blocks >= 0 ==> a.blocks == s.st_blocks
    &&& received::same_bits(s.st_blocks, a.blocks)
    &&& kept_time(a.atime, s.st_atime)
    &&& kept_time(a.mtime, s.st_mtime)
    &&& kept_time(a.ctime, s.st_ctime)
    &&& kept_nsec(a.atimensec, s.st_atime_nsec)
    &&& kept_nsec(a.mtimensec, s.st_mtime_nsec)
    &&& kept_nsec(a.ctimensec, s.st_ctime_nsec)
    &&& a.mode == s.st_mode
    &&& a.uid == s.st_uid
    &&& a.gid == s.st_gid
    &&& kept32(a.nlink, s.st_nlink as int)
    &&& kept32(a.rdev, s.st_rdev as int)
    &&& kept32(a.blksize, s.st_blksize as int)
    &&& a.flags == 0
}

/// The attributes that are sent are those of the file: nothing is lost of what is not negative and
/// has room in its field, and times before the epoch become the epoch.
pub proof fn lemma_attr(s: Stat)
    ensures
        is_attr(FuseAttr::of_stat(s), s),
{
    lemma_kept32(s.st_nlink as int);
    lemma_kept32(s.st_rdev as int);
    lemma_kept32(s.st_blksize as int);
    lemma_kept32(s.st_atime_nsec as int);
    lemma_kept32(s.st_mtime_nsec as int);
    lemma_kept32(s.st_ctime_nsec as int);
}

/// What the low 32 bits keep.
proof fn lemma_kept32(v: int)
    ensures
        kept32(cast::low32(v), v),
{
    assert((v - v % 0x1_0000_0000) % 0x1_0000_0000 == 0);
}

/// The attributes that came in are those that are to be set. Sizes and times that are not beyond
/// 63 bits are the very numbers.
pub proof fn lemma_setattr_stat(v: FuseSetattrIn)
    ensures
        ({
            let s = v.as_stat();
            &&& s.st_mode == v.mode
            &&& s.st_uid == v.uid
            &&& s.st_gid == v.gid
            &&& received::same_bits(s.st_size, v.size)
            &&& received::same_bits(s.st_atime, v.atime)
            &&& received::same_bits(s.st_mtime, v.mtime)
            &&& received::same_bits(s.st_ctime, v.ctime)
            &&& v.size <= i64::MAX ==> s.st_size == v.size
            &&& v.atime <= i64::MAX ==> s.st_atime == v.atime
            &&& v.mtime <= i64::MAX ==> s.st_mtime == v.mtime
            &&& v.ctime <= i64::MAX ==> s.st_ctime == v.ctime
            &&& s.st_atime_nsec == v.atimensec
            &&& s.st_mtime_nsec == v.mtimensec
            &&& s.st_ctime_nsec == v.ctimensec
            &&& s.st_ino == 0 && s.st_nlink == 0 && s.st_rdev == 0
            &&& s.st_blksize == 0 && s.st_blocks == 0
        }),
{
}

/// The statistics that are sent are those of the filesystem.
pub proof fn lemma_statfs(s: StatVfs)
    ensures
        ({
            let k = FuseKstatfs::of_statvfs(s);
            &&& k.blocks == s.f_blocks
            &&& k.bfree == s.f_bfree
            &&& k.bavail == s.f_bavail
            &&& k.files == s.f_files
            &&& k.ffree == s.f_ffree
            &&& kept32(k.bsize, s.f_bsize as int)
            &&& kept32(k.namelen, s.f_namemax as int)
            &&& kept32(k.frsize, s.f_frsize as int)
            &&& k.padding == 0
            &&& forall|i: int| 0 <= i < 6 ==> #[trigger] k.spare[i] == 0
        }),
{
    lemma_kept32(s.f_bsize as int);
    lemma_kept32(s.f_namemax as int);
    lemma_kept32(s.f_frsize as int);
}

/// Whether `e` says of an entry what `entry` says.
pub open spec fn is_entry(e: FuseEntryOut, entry: EntryParam) -> bool {
    &&& e.nodeid == entry.inode
    &&& e.generation == entry.generation
    &&& e.entry_valid == entry.entry_timeout@.secs
    &&& e.entry_valid_nsec == entry.entry_timeout@.nsec
    &&& e.attr_valid == entry.attr_timeout@.secs
    &&& e.attr_valid_nsec == entry.attr_timeout@.nsec
    &&& is_attr(e.attr, entry.attr)
}

/// The entry that is sent is the one that was given, and so are attributes with their timeout.
pub proof fn lemma_entry(entry: EntryParam, stat: Stat, timeout: Timeout)
    ensures
        is_entry(protocol::entry_out_of(entry), entry),
        ({
            let out = reply::attr_out_of(stat, timeout);
            &&& out.attr_valid == timeout@.secs
            &&& out.attr_valid_nsec == timeout@.nsec
            &&& out.dummy == 0
            &&& is_attr(out.attr, stat)
        }),
        entry.valid() <==> entry.attr_timeout@.nsec < 1_000_000_000
            && entry.entry_timeout@.nsec < 1_000_000_000,
{
    lemma_attr(entry.attr);
    lemma_attr(stat);
}

/// What tells of an opened file: its handle, and one bit for each option.
pub proof fn lemma_open_out(info: FileInfoView, fh: u64)
    ensures
        ({
            let out = requests::open_out_of(info, fh);
            &&& out.fh == fh
            &&& out.backing_id == 0
            &&& (out.open_flags / 1 % 2 == 1) == info.direct_io
            &&& (out.open_flags / 2 % 2 == 1) == info.keep_cache
            &&& (out.open_flags / 4 % 2 == 1) == info.nonseekable
            &&& (out.open_flags / 8 % 2 == 1) == info.cache_readdir
            &&& out.open_flags / 16 % 2 == 0
            &&& (out.open_flags / 32 % 2 == 1) == info.noflush
            &&& out.open_flags < 64
        }),
        !FileInfoView::none().direct_io,
        !FileInfoView::none().keep_cache,
        !FileInfoView::none().nonseekable,
        !FileInfoView::none().cache_readdir,
        !FileInfoView::none().noflush,
{
}

/// An entry of a listing takes 24 bytes and its name, one with attributes 152, filled up to the
/// next multiple of eight.
pub proof fn lemma_entry_sizes(namelen: int)
    ensures
        protocol::dirent_size(namelen) % 8 == 0,
        24 + namelen <= protocol::dirent_size(namelen) < 32 + namelen,
        protocol::direntplus_size(namelen) % 8 == 0,
        152 + namelen <= protocol::direntplus_size(namelen) < 160 + namelen,
{
}

/// The type in a directory entry is the four bits above the permissions.
pub proof fn lemma_dirent_type(above: u32, kind: u32, permissions: u32)
    requires
        above < 0x1_0000,
        kind < 16,
        permissions < 0x1000,
    ensures
        sys::dirent_type((above * 0x1_0000 + kind * 0x1000 + permissions) as u32) == kind,
{
}

/// Whether a directory entry for `name` stands at offset `off` of `s`, and nothing behind it.
pub open spec fn is_dirent(
    s: Seq<u8>,
    off: int,
    order: ByteOrder,
    name: Seq<u8>,
    attr: Stat,
    next: u64,
) -> bool {
    &&& s.len() >= off + 24 + name.len()
    &&& s.len() < off + 32 + name.len()
    &&& (s.len() - off) % 8 == 0
    &&& wire::u64_at(order, s, off) == attr.st_ino
    &&& wire::u64_at(order, s, off + 8) == next
    &&& kept32(wire::u32_at(order, s, off + 16), name.len() as int)
    &&& wire::u32_at(order, s, off + 20) < 16
    &&& (attr.st_mode / 0x1000 - wire::u32_at(order, s, off + 20)) % 16 == 0
    &&& s.subrange(off + 24, off + 24 + name.len()) == name
    &&& forall|i: int| off + 24 + name.len() <= i < s.len() ==> #[trigger] s[i] == 0
}

/// A plain entry, byte by byte.
pub proof fn lemma_plain_entry(order: ByteOrder, name: Seq<u8>, attr: Stat, next: u64)
    ensures
        is_dirent(sys::plain_entry(order, name, attr, next), 0, order, name, attr, next),
{
    let e = sys::plain_entry(order, name, attr, next);
    let d = sys::dirent_of(attr, name.len(), next);
    d.lemma_size(order);
    sys::lemma_entry_len(order, name, attr, next);
    lemma_kept32(name.len() as int);
    let t = d.to_wire(order);
    offsets::lemma_fuse_dirent(order, t, d);
    assert(e.subrange(0, 8) =~= t.subrange(0, 8));
    assert(e.subrange(8, 16) =~= t.subrange(8, 16));
    assert(e.subrange(16, 20) =~= t.subrange(16, 20));
    assert(e.subrange(20, 24) =~= t.subrange(20, 24));
    assert(e.subrange(24, 24 + name.len() as int) =~= name);
}

/// A directory entry is the same behind other bytes.
proof fn lemma_dirent_behind(
    head: Seq<u8>,
    p: Seq<u8>,
    order: ByteOrder,
    name: Seq<u8>,
    attr: Stat,
    next: u64,
)
    requires
        is_dirent(p, 0, order, name, attr, next),
    ensures
        is_dirent(head + p, head.len() as int, order, name, attr, next),
{
    let e = head + p;
    let n = head.len() as int;
    assert(e.subrange(n, n + 8) =~= p.subrange(0, 8));
    assert(e.subrange(n + 8, n + 16) =~= p.subrange(8, 16));
    assert(e.subrange(n + 16, n + 20) =~= p.subrange(16, 20));
    assert(e.subrange(n + 20, n + 24) =~= p.subrange(20, 24));
    assert(e.subrange(n + 24, n + 24 + name.len()) =~= p.subrange(24, 24 + name.len() as int));
    assert forall|i: int| n + 24 + name.len() <= i < e.len() implies #[trigger] e[i] == 0 by {
        assert(e[i] == p[i - n]);
    }
}

/// An entry with attributes, byte by byte: the entry, and the same directory entry behind it.
pub proof fn lemma_plus_entry(order: ByteOrder, name: Seq<u8>, entry: EntryParam, next: u64)
    ensures
        ({
            let e = sys::plus_entry(order, name, entry, next);
            &&& is_dirent(e, 128, order, name, entry.attr, next)
            &&& is_entry(FuseEntryOut::from_wire(order, e), entry)
        }),
{
    let p = sys::plain_entry(order, name, entry.attr, next);
    let out = protocol::entry_out_of(entry);
    let head = out.to_wire(order);
    out.lemma_size(order);
    out.lemma_decode_encode(order, p);
    assert(is_dirent(head + p, 128, order, name, entry.attr, next)) by {
        lemma_plain_entry(order, name, entry.attr, next);
        lemma_dirent_behind(head, p, order, name, entry.attr, next);
    }
    lemma_entry(entry, entry.attr, entry.attr_timeout);
}

/// A listing has room for what its size leaves, and grows at its end by what is added.
pub proof fn lemma_reply_buf(buf: ReplyBufView, entry: Seq<u8>, n: int)
    ensures
        buf.has_room(n) <==> n <= buf.capacity - buf.data.len(),
        buf.with(entry).capacity == buf.capacity,
        buf.with(entry).order == buf.order,
        buf.with(entry).data.len() == buf.data.len() + entry.len(),
        buf.with(entry).data.take(buf.data.len() as int) == buf.data,
        buf.with(entry).data.skip(buf.data.len() as int) == entry,
{
    assert(buf.with(entry).data.take(buf.data.len() as int) =~= buf.data);
    assert(buf.with(entry).data.skip(buf.data.len() as int) =~= entry);
}

/// A list of attribute names has room for what its size leaves, grows at its end by what fits, and
/// does not change by what does not fit.
pub proof fn lemma_list_xattr(list: ListXAttrView, entry: Seq<u8>, n: int)
    ensures
        list.has_room(n) <==> n <= list.size - list.response.len(),
        list.with(entry).size == list.size,
        list.with(entry).guard == list.guard,
        list.with(entry).inode == list.inode,
        entry.len() <= list.size - list.response.len() ==> list.with(entry).response
            == list.response + entry,
        entry.len() > list.size - list.response.len() ==> list.with(entry).response
            == list.response,
{
}

/// The data of a write is as long as it says, and is what stands in the buffer where it says.
pub proof fn lemma_write_view(write: WriteView)
    ensures
        write.wf() <==> write.size <= write.buffer.len() - write.data_offset,
        write.wf() ==> write.data().len() == write.size,
        write.wf() ==> forall|i: int|
            0 <= i < write.size ==> #[trigger] write.data()[i] == write.buffer[write.data_offset
                + i],
{
}

/// A time that is to be set: not before the epoch, and with less than a second in nanoseconds.
pub proof fn lemma_duration(secs: i64, nsecs: i64)
    ensures
        ({
            let d = requests::duration_of(secs, nsecs);
            &&& kept_time(d.secs, secs)
            &&& nsecs < 0 ==> d.nanos == 0
            &&& 0 <= nsecs < 1_000_000_000 ==> d.nanos == nsecs
            &&& nsecs >= 1_000_000_000 ==> d.nanos == 999_999_999
        }),
        protocol::at_least_zero(secs as int) >= 0,
        secs >= 0 ==> protocol::at_least_zero(secs as int) == secs,
        secs < 0 ==> protocol::at_least_zero(secs as int) == 0,
{
}

/// Whether `m` is the message that answers request `unique` with error `error` and `data`.
pub open spec fn is_message(
    m: Seq<u8>,
    order: ByteOrder,
    unique: u64,
    error: int,
    data: Seq<u8>,
) -> bool {
    &&& m.len() == 16 + data.len()
    &&& wire::u32_at(order, m, 0) == m.len()
    &&& wire::i32_at(order, m, 4) == error
    &&& wire::u64_at(order, m, 8) == unique
    &&& m.skip(16) == data
}

/// A message, byte by byte. Its length has to fit a field of 32 bits.
pub proof fn lemma_message(order: ByteOrder, unique: u64, error: i32, data: Seq<u8>)
    ensures
        reply::fits(data.len() as int) <==> data.len() <= 0xffff_ffef,
        data.len() <= 0xffff_ffef ==> is_message(
            reply::message_of(order, unique, error, data),
            order,
            unique,
            error as int,
            data,
        ),
{
    if data.len() <= 0xffff_ffef {
        let m = reply::message_of(order, unique, error, data);
        reply::lemma_message_read_back(order, unique, error, data);
        (FuseOutHeader { len: (16 + data.len()) as u32, error, unique }).lemma_size(order);
        offsets::lemma_fuse_out_header(order, m, FuseOutHeader::from_wire(order, m));
    }
}

/// What a guard's replies are, and what is left of the guard while they are on their way. A reply
/// with data leaves it armed, an error disarms it; dropped while armed, it sends `ENOSYS`.
pub proof fn lemma_guard(guard: GuardView, data: Seq<u8>, errno: i32)
    requires
        data.len() <= 0xffff_ffef,
        errno != i32::MIN,
    ensures
        guard.disarmed().unique == 0,
        guard.disarmed().order == guard.order,
        guard.unique == 0 ==> guard.on_drop() is None,
        guard.unique != 0 ==> (guard.on_drop() matches Some(m) && is_message(
            m,
            guard.order,
            guard.unique,
            -38,
            Seq::empty(),
        )),
        is_message(guard.success(data).message, guard.order, guard.unique, 0, data),
        guard.success(data).guard == guard,
        !guard.success(data).cancellable,
        is_message(guard.cancellable_success(data).message, guard.order, guard.unique, 0, data),
        guard.cancellable_success(data).guard == guard,
        guard.cancellable_success(data).cancellable,
        is_message(
            guard.failure(errno).message,
            guard.order,
            guard.unique,
            -errno,
            Seq::empty(),
        ),
        guard.failure(errno).guard.unique == 0,
        guard.failure(errno).guard.order == guard.order,
        !guard.failure(errno).cancellable,
{
    lemma_message(guard.order, guard.unique, 0, data);
    lemma_message(guard.order, guard.unique, (-errno) as i32, Seq::empty());
    lemma_message(guard.order, guard.unique, (-38) as i32, Seq::empty());
}

/// What the caller is told of a write, and what has to be written next. Only a reply whose
/// cancellation matters is told of it, and only by error number 2.
pub proof fn lemma_outcome(reply: ReplyView, err: Error)
    ensures
        reply::cancellable_of(Ok(())) is Ok,
        reply::cancellable_of(Err(err)) is Err,
        err == Error::Os(2) ==> reply::cancellable_of(Err(err))->Err_0 == ReplyError::Cancelled,
        err != Error::Os(2) ==> reply::cancellable_of(Err(err))->Err_0 == ReplyError::Io(err),
        reply.result(Ok(())) is Ok,
        reply.followup(Ok(())) is None,
        reply.result(Err(err)) is Err,
        reply.cancellable && err == Error::Os(2) ==> reply.result(Err(err))->Err_0
            == ReplyError::Cancelled && reply.followup(Err(err)) is None,
        !(reply.cancellable && err == Error::Os(2)) ==> reply.result(Err(err))->Err_0
            == ReplyError::Io(err),
        !(reply.cancellable && err == Error::Os(2)) && reply.guard.unique == 0
            ==> reply.followup(Err(err)) is None,
        !(reply.cancellable && err == Error::Os(2)) && reply.guard.unique != 0 ==> (
        reply.followup(Err(err)) matches Some(m) && is_message(
            m,
            reply.guard.order,
            reply.guard.unique,
            -38,
            Seq::empty(),
        )),
{
    lemma_guard(reply.guard, Seq::empty(), 0);
}

/// What a rejection says, and the answer that the kernel gets in place of the reply.
pub proof fn lemma_rejected(rejected: Rejected, err: Error, guard: GuardView)
    requires
        rejected.is(err, guard),
    ensures
        rejected.error == err,
        guard.unique == 0 ==> rejected.fallback is None,
        guard.unique != 0 ==> (rejected.fallback matches Some(m) && is_message(
            m@,
            guard.order,
            guard.unique,
            -38,
            Seq::empty(),
        )),
{
    lemma_guard(guard, Seq::empty(), 0);
}

/// The parts of a body, one after the other.
pub proof fn lemma_concat(slices: Seq<&[u8]>, last: &[u8])
    ensures
        reply::concat(Seq::empty()).len() == 0,
        reply::concat(slices.push(last)).len() == reply::concat(slices).len() + last@.len(),
        reply::concat(slices.push(last)).take(reply::concat(slices).len() as int)
            == reply::concat(slices),
        reply::concat(slices.push(last)).skip(reply::concat(slices).len() as int) == last@,
{
    assert(slices.push(last).drop_last() =~= slices);
    let s = reply::concat(slices);
    assert((s + last@).take(s.len() as int) =~= s);
    assert((s + last@).skip(s.len() as int) =~= last@);
}

/// What is written for a request that failed, and for one that was dropped. Its number is the one
/// that it came with; a listing that was begun is dropped with error number 5, any other request
/// with 38, unless it is disarmed. A forget is never answered.
pub proof fn lemma_failed_or_dropped(request: RequestView, errno: i32)
    requires
        errno != i32::MIN,
    ensures
        ({
            let guard = request.guard();
            let listing = request is Readdir || request is ReaddirPlus;
            if request is Forget {
                &&& request.failure(errno) is None
                &&& request.on_drop() is None
            } else {
                &&& request.failure(errno) matches Some(reply)
                &&& reply.guard.unique == 0
                &&& !reply.cancellable
                &&& is_message(
                    reply.message,
                    guard.order,
                    guard.unique,
                    -errno,
                    Seq::empty(),
                )
                &&& listing ==> (request.on_drop() matches Some(m) && is_message(
                    m,
                    guard.order,
                    guard.unique,
                    -5,
                    Seq::empty(),
                ))
                &&& !listing && guard.unique != 0 ==> (request.on_drop() matches Some(m)
                    && is_message(m, guard.order, guard.unique, -38, Seq::empty()))
                &&& !listing && guard.unique == 0 ==> request.on_drop() is None
            }
        }),
        request.wf() == (request matches RequestView::Write(write) ==> write.size
            <= write.buffer.len() - write.data_offset),
{
    lemma_guard(request.guard(), Seq::empty(), errno);
    lemma_guard(request.guard(), Seq::empty(), 5);
}

/// The guard of a request is the one that it holds, whichever request it is.
pub proof fn lemma_request_guard(request: RequestView)
    ensures
        request matches RequestView::Lookup(r) ==> request.guard() == r.guard,
        request matches RequestView::Forget(r) ==> request.guard() == r.guard,
        request matches RequestView::Getattr(r) ==> request.guard() == r.guard,
        request matches RequestView::Setattr(r) ==> request.guard() == r.guard,
        request matches RequestView::Statfs(r) ==> request.guard() == r.guard,
        request matches RequestView::Readdir(r) ==> request.guard() == r.guard,
        request matches RequestView::ReaddirPlus(r) ==> request.guard() == r.guard,
        request matches RequestView::Mkdir(r) ==> request.guard() == r.guard,
        request matches RequestView::Create(r) ==> request.guard() == r.guard,
        request matches RequestView::Mknod(r) ==> request.guard() == r.guard,
        request matches RequestView::Open(r) ==> request.guard() == r.guard,
        request matches RequestView::Release(r) ==> request.guard() == r.guard,
        request matches RequestView::Read(r) ==> request.guard() == r.guard,
        request matches RequestView::Unlink(r) ==> request.guard() == r.guard,
        request matches RequestView::Rmdir(r) ==> request.guard() == r.guard,
        request matches RequestView::Write(r) ==> request.guard() == r.guard,
        request matches RequestView::Readlink(r) ==> request.guard() == r.guard,
        request matches RequestView::Rename(r) ==> request.guard() == r.guard,
        request matches RequestView::ListXAttrSize(r) ==> request.guard() == r.guard,
        request matches RequestView::ListXAttr(r) ==> request.guard() == r.guard,
        request matches RequestView::GetXAttrSize(r) ==> request.guard() == r.guard,
        request matches RequestView::GetXAttr(r) ==> request.guard() == r.guard,
{
}

} // verus!
