//! What the requests answer, from what the filesystem hands them to the bytes of the reply.
//!
//! `call_ensures(f, args, r)` says that `f`, called with `args`, can give back `r`. What a reply
//! carries stands behind the sixteen bytes of its header.

use vstd::prelude::*;

use crate::calls;
use crate::cstring;
use crate::cstring::CString;
use crate::error::Error;
use crate::offsets;
use crate::protocol;
use crate::protocol::{FuseAttrOut, FuseEntryOut, FuseGetxattrOut, FuseKstatfs, FuseWriteOut};
use crate::received;
use crate::reply;
use crate::reply::{GuardView, Rejected, Reply, ReplyView};
use crate::requests;
use crate::requests::{
    Create, Forget, FuseRequest, GetXAttr, GetXAttrSize, Getattr, ListXAttr, ListXAttrSize, Lookup,
    Mkdir, Mknod, Open, Read, Readdir, ReaddirPlus, Readlink, Release, Rename, Request, Rmdir,
    SetTime, Setattr, Statfs, Unlink, Write,
};
use crate::sent;
use crate::sys;
use crate::sys::{EntryParam, FileInfoView, ReplyBufState};
use crate::util::{Duration, Stat, StatVfs, Timeout};
use crate::wire;
use crate::wire::{ByteOrder, Wire};

verus! {

/// Whether `reply` answers the request of `guard` with `data` and success, and leaves it armed
/// until that is delivered.
pub open spec fn answers(reply: ReplyView, guard: GuardView, data: Seq<u8>) -> bool {
    &&& sent::is_message(reply.message, guard.order, guard.unique, 0, data)
    &&& reply.guard == guard
}

/// Whether `reply` answers the request of `guard` with the error number `errno`, and is the last
/// word on it.
pub open spec fn refuses(reply: ReplyView, guard: GuardView, errno: int) -> bool {
    &&& sent::is_message(reply.message, guard.order, guard.unique, -errno, Seq::empty())
    &&& reply.guard.unique == 0
    &&& !reply.cancellable
}

/// Whether `rejected` says `err`, and that the request of `guard` is answered with `ENOSYS` where
/// it is armed.
pub open spec fn gives_up(rejected: Rejected, err: Error, guard: GuardView) -> bool {
    &&& rejected.error == err
    &&& rejected.fallback is None <==> guard.unique == 0
    &&& rejected.fallback matches Some(m) ==> sent::is_message(
        m@,
        guard.order,
        guard.unique,
        -38,
        Seq::empty(),
    )
}

/// What the guard's replies with a structure are.
proof fn lemma_struct<T: Wire>(guard: GuardView, out: T)
    requires
        T::wire_size() <= 1000,
    ensures
        ({
            let data = out.to_wire(guard.order);
            &&& answers(guard.success(data), guard, data)
            &&& answers(guard.cancellable_success(data), guard, data)
            &&& data.len() == T::wire_size()
            &&& T::from_wire(guard.order, data) == out
        }),
{
    let data = out.to_wire(guard.order);
    out.lemma_size(guard.order);
    out.lemma_decode_encode(guard.order, Seq::empty());
    assert(data + Seq::<u8>::empty() =~= data);
    sent::lemma_guard(guard, data, 0);
}

/// What a rejection is.
proof fn lemma_gives_up(rejected: Rejected, err: Error, guard: GuardView)
    ensures
        rejected.is(err, guard) ==> gives_up(rejected, err, guard),
{
    if rejected.is(err, guard) {
        sent::lemma_rejected(rejected, err, guard);
    }
}

/// Whether `data` is an entry that says what `entry` says.
pub open spec fn is_entry_data(data: Seq<u8>, order: ByteOrder, entry: EntryParam) -> bool {
    &&& data.len() == 128
    &&& sent::is_entry(FuseEntryOut::from_wire(order, data), entry)
}

/// Whether `data` tells of a file that was opened with handle `fh` and options `info`.
pub open spec fn is_open_data(
    data: Seq<u8>,
    order: ByteOrder,
    info: FileInfoView,
    fh: u64,
) -> bool {
    let flags = wire::u32_at(order, data, 8);
    &&& data.len() == 16
    &&& wire::u64_at(order, data, 0) == fh
    &&& (flags / 1 % 2 == 1) == info.direct_io
    &&& (flags / 2 % 2 == 1) == info.keep_cache
    &&& (flags / 4 % 2 == 1) == info.nonseekable
    &&& (flags / 8 % 2 == 1) == info.cache_readdir
    &&& (flags / 32 % 2 == 1) == info.noflush
    &&& flags / 16 % 2 == 0
    &&& flags < 64
    &&& wire::i32_at(order, data, 12) == 0
}

/// Whether `data` is attributes that say what `stat` says, valid for `timeout`.
pub open spec fn is_attr_data(
    data: Seq<u8>,
    order: ByteOrder,
    stat: Stat,
    timeout: Timeout,
) -> bool {
    let out = FuseAttrOut::from_wire(order, data);
    &&& data.len() == 104
    &&& out.attr_valid == timeout@.secs
    &&& out.attr_valid_nsec == timeout@.nsec
    &&& sent::is_attr(out.attr, stat)
}

/// What the data of an opened file is.
proof fn lemma_open_data(order: ByteOrder, info: FileInfoView, fh: u64)
    ensures
        is_open_data(requests::open_out_of(info, fh).to_wire(order), order, info, fh),
{
    let out = requests::open_out_of(info, fh);
    out.lemma_size(order);
    offsets::lemma_fuse_open_out(order, out.to_wire(order), out);
    sent::lemma_open_out(info, fh);
}

/// The answer to a lookup is the entry. Its cancellation matters.
pub proof fn lemma_lookup(request: Lookup, entry: &EntryParam, r: Reply)
    requires
        call_ensures(Lookup::reply, (request, entry), r),
    ensures
        ({
            let data = r@.message.skip(16);
            &&& answers(r@, request@.guard, data)
            &&& r@.cancellable
            &&& is_entry_data(data, request@.guard.order, *entry)
        }),
{
    lemma_entry_reply(request@.guard, *entry);
}

/// The reply with an entry.
proof fn lemma_entry_reply(guard: GuardView, entry: EntryParam)
    ensures
        ({
            let data = protocol::entry_out_of(entry).to_wire(guard.order);
            &&& answers(guard.success(data), guard, data)
            &&& answers(guard.cancellable_success(data), guard, data)
            &&& guard.cancellable_success(data).cancellable
            &&& !guard.success(data).cancellable
            &&& is_entry_data(data, guard.order, entry)
        }),
{
    lemma_struct(guard, protocol::entry_out_of(entry));
    sent::lemma_entry(entry, entry.attr, entry.attr_timeout);
}

/// The answer to a directory that was made is its entry.
pub proof fn lemma_mkdir(request: Mkdir, entry: &EntryParam, r: Reply)
    requires
        call_ensures(Mkdir::reply, (request, entry), r),
    ensures
        ({
            let data = r@.message.skip(16);
            &&& answers(r@, request@.guard, data)
            &&& !r@.cancellable
            &&& is_entry_data(data, request@.guard.order, *entry)
        }),
{
    lemma_entry_reply(request@.guard, *entry);
}

/// The answer to a node that was made is its entry.
pub proof fn lemma_mknod(request: Mknod, entry: &EntryParam, r: Reply)
    requires
        call_ensures(Mknod::reply, (request, entry), r),
    ensures
        ({
            let data = r@.message.skip(16);
            &&& answers(r@, request@.guard, data)
            &&& !r@.cancellable
            &&& is_entry_data(data, request@.guard.order, *entry)
        }),
{
    lemma_entry_reply(request@.guard, *entry);
}

/// The answer to a `Getattr` is the attributes, and how long they are valid.
pub proof fn lemma_getattr(request: Getattr, stat: &Stat, timeout: Timeout, r: Reply)
    requires
        call_ensures(Getattr::reply, (request, stat, timeout), r),
    ensures
        ({
            let data = r@.message.skip(16);
            &&& answers(r@, request@.guard, data)
            &&& !r@.cancellable
            &&& is_attr_data(data, request@.guard.order, *stat, timeout)
        }),
{
    lemma_struct(request@.guard, reply::attr_out_of(*stat, timeout));
    sent::lemma_attr(*stat);
}

/// The answer to a `Setattr` is the attributes, and how long they are valid.
pub proof fn lemma_setattr(request: Setattr, stat: &Stat, timeout: Timeout, r: Reply)
    requires
        call_ensures(Setattr::reply, (request, stat, timeout), r),
    ensures
        ({
            let data = r@.message.skip(16);
            &&& answers(r@, request@.guard, data)
            &&& !r@.cancellable
            &&& is_attr_data(data, request@.guard.order, *stat, timeout)
        }),
{
    lemma_struct(request@.guard, reply::attr_out_of(*stat, timeout));
    sent::lemma_attr(*stat);
}

/// The answer to a `Statfs` is the statistics.
pub proof fn lemma_statfs(request: Statfs, stbuf: &StatVfs, r: Reply)
    requires
        call_ensures(Statfs::reply, (request, stbuf), r),
    ensures
        ({
            let data = r@.message.skip(16);
            let k = FuseKstatfs::from_wire(request@.guard.order, data);
            &&& answers(r@, request@.guard, data)
            &&& !r@.cancellable
            &&& data.len() == 80
            &&& k.blocks == stbuf.f_blocks
            &&& k.bfree == stbuf.f_bfree
            &&& k.bavail == stbuf.f_bavail
            &&& k.files == stbuf.f_files
            &&& k.ffree == stbuf.f_ffree
            &&& sent::kept32(k.bsize, stbuf.f_bsize as int)
            &&& sent::kept32(k.namelen, stbuf.f_namemax as int)
            &&& sent::kept32(k.frsize, stbuf.f_frsize as int)
        }),
{
    lemma_struct(request@.guard, FuseKstatfs::of_statvfs(*stbuf));
    sent::lemma_statfs(*stbuf);
}

/// The answer to an open is the handle and the options. Its cancellation matters.
pub proof fn lemma_open(request: Open, fh: u64, r: Reply)
    requires
        call_ensures(Open::reply, (request, fh), r),
    ensures
        ({
            let data = r@.message.skip(16);
            &&& answers(r@, request@.guard, data)
            &&& r@.cancellable
            &&& is_open_data(data, request@.guard.order, request@.file_info, fh)
        }),
{
    lemma_struct(request@.guard, requests::open_out_of(request@.file_info, fh));
    lemma_open_data(request@.guard.order, request@.file_info, fh);
}

/// The answer to a create is the entry and what an open answers, one behind the other. Its
/// cancellation matters, and it is the last word on the request.
pub proof fn lemma_create(request: Create, entry: &EntryParam, fh: u64, r: Reply)
    requires
        call_ensures(Create::reply, (request, entry, fh), r),
    ensures
        ({
            let guard = request@.guard;
            let data = r@.message.skip(16);
            &&& sent::is_message(r@.message, guard.order, guard.unique, 0, data)
            &&& r@.guard.unique == 0
            &&& r@.cancellable
            &&& data.len() == 144
            &&& is_entry_data(data.take(128), guard.order, *entry)
            &&& is_open_data(data.skip(128), guard.order, request@.file_info, fh)
        }),
{
    let guard = request@.guard;
    let entry_out = protocol::entry_out_of(*entry);
    let open_out = requests::open_out_of(request@.file_info, fh);
    lemma_entry_reply(guard, *entry);
    lemma_struct(guard, open_out);
    lemma_open_data(guard.order, request@.file_info, fh);
    let (a, b) = (entry_out.to_wire(guard.order), open_out.to_wire(guard.order));
    sent::lemma_guard(guard, a + b, 0);
    assert((a + b).take(128) =~= a);
    assert((a + b).skip(128) =~= b);
}

/// The answer to a `Release` is that it succeeded.
pub proof fn lemma_release(request: Release, r: Reply)
    requires
        call_ensures(Release::reply, (request,), r),
    ensures
        answers(r@, request@.guard, Seq::empty()),
        !r@.cancellable,
{
    sent::lemma_guard(request@.guard, Seq::empty(), 0);
}

/// The answer to a `Unlink` is that it succeeded.
pub proof fn lemma_unlink(request: Unlink, r: Reply)
    requires
        call_ensures(Unlink::reply, (request,), r),
    ensures
        answers(r@, request@.guard, Seq::empty()),
        !r@.cancellable,
{
    sent::lemma_guard(request@.guard, Seq::empty(), 0);
}

/// The answer to a `Rmdir` is that it succeeded.
pub proof fn lemma_rmdir(request: Rmdir, r: Reply)
    requires
        call_ensures(Rmdir::reply, (request,), r),
    ensures
        answers(r@, request@.guard, Seq::empty()),
        !r@.cancellable,
{
    sent::lemma_guard(request@.guard, Seq::empty(), 0);
}

/// The answer to a `Rename` is that it succeeded.
pub proof fn lemma_rename(request: Rename, r: Reply)
    requires
        call_ensures(Rename::reply, (request,), r),
    ensures
        answers(r@, request@.guard, Seq::empty()),
        !r@.cancellable,
{
    sent::lemma_guard(request@.guard, Seq::empty(), 0);
}

/// A forget is never answered.
pub proof fn lemma_forget(request: Forget, r: Option<Reply>)
    requires
        call_ensures(Forget::reply, (request,), r),
    ensures
        r is None,
{
}

/// The answer to a read is the data. More than was asked for is refused, and so is what a message
/// cannot hold.
pub proof fn lemma_read(request: Read, data: &[u8], r: Result<Reply, Rejected>)
    requires
        call_ensures(Read::reply, (request, data), r),
        data@.len() <= usize::MAX,
    ensures
        match r {
            Ok(reply) => {
                &&& data@.len() <= request@.size
                &&& data@.len() <= 0xffff_ffef
                &&& answers(reply@, request@.guard, data@)
                &&& !reply@.cancellable
            },
            Err(rejected) => if data@.len() > request@.size {
                &&& rejected.error matches Error::ReadReplyTooLarge { len, size }
                &&& len == data@.len()
                &&& size == request@.size
                &&& gives_up(rejected, rejected.error, request@.guard)
            } else {
                &&& data@.len() > 0xffff_ffef
                &&& gives_up(rejected, Error::ReplyTooLong, request@.guard)
            },
        },
{
    match r {
        Ok(_) => sent::lemma_guard(request@.guard, data@, 0),
        Err(rejected) => {
            lemma_gives_up(rejected, rejected.error, request@.guard);
        },
    }
}

/// The answer to a read in several parts. Where it is made or cannot be, it is the last word.
pub proof fn lemma_read_vectored(request: Read, data: &[&[u8]], r: Result<Reply, Rejected>)
    requires
        call_ensures(Read::reply_vectored, (request, data), r),
        reply::concat(data@).len() <= usize::MAX,
    ensures
        ({
            let guard = request@.guard;
            let body = reply::concat(data@);
            match r {
                Ok(reply) => {
                    &&& body.len() <= request@.size
                    &&& body.len() <= 0xffff_ffef
                    &&& sent::is_message(reply@.message, guard.order, guard.unique, 0, body)
                    &&& reply@.guard.unique == 0
                    &&& !reply@.cancellable
                },
                Err(rejected) => if body.len() > request@.size {
                    &&& rejected.error matches Error::ReadVectoredReplyTooLarge { len, size }
                    &&& len == body.len()
                    &&& size == request@.size
                    &&& gives_up(rejected, rejected.error, guard)
                } else {
                    &&& body.len() > 0xffff_ffef
                    &&& rejected.error == Error::ReplyTooLong
                    &&& rejected.fallback is None
                },
            }
        }),
{
    let body = reply::concat(data@);
    match r {
        Ok(_) => sent::lemma_guard(request@.guard, body, 0),
        Err(rejected) => {
            lemma_gives_up(rejected, rejected.error, request@.guard);
            lemma_gives_up(rejected, rejected.error, request@.guard.disarmed());
        },
    }
}

/// The answer to a write is how much was written, which cannot be more than was asked for.
pub proof fn lemma_write(request: Write, size: usize, r: Result<Reply, Rejected>)
    requires
        call_ensures(Write::reply, (request, size), r),
    ensures
        match r {
            Ok(reply) => {
                let data = reply@.message.skip(16);
                &&& size <= request@.size
                &&& answers(reply@, request@.guard, data)
                &&& !reply@.cancellable
                &&& data.len() == 8
                &&& wire::u32_at(request@.guard.order, data, 0) == size
                &&& wire::u32_at(request@.guard.order, data, 4) == 0
            },
            Err(rejected) => if size > request@.size {
                gives_up(
                    rejected,
                    Error::WriteReplyTooLarge { len: size, size: request@.size },
                    request@.guard,
                )
            } else {
                &&& size > 0xffff_ffff
                &&& gives_up(rejected, Error::WriteSizeTooLarge, request@.guard)
            },
        },
{
    match r {
        Ok(_) => {
            let out = FuseWriteOut { size: size as u32, padding: 0 };
            lemma_struct(request@.guard, out);
            let data = out.to_wire(request@.guard.order);
            offsets::lemma_fuse_write_out(request@.guard.order, data, out);
        },
        Err(rejected) => lemma_gives_up(rejected, rejected.error, request@.guard),
    }
}

/// The data that is to be written stands in the buffer where the write says, as much as it says.
pub proof fn lemma_write_data(request: &Write, r: &[u8])
    requires
        call_ensures(Write::data, (request,), r),
        request@.wf(),
    ensures
        r@.len() == request@.size,
        forall|i: int|
            0 <= i < r@.len() ==> #[trigger] r@[i] == request@.buffer[request@.data_offset + i],
{
}

/// The answer to a readlink is the target, which has no zero byte.
pub proof fn lemma_readlink(request: Readlink, data: &[u8], r: Result<Reply, Rejected>)
    requires
        call_ensures(Readlink::reply, (request, data), r),
    ensures
        match r {
            Ok(reply) => {
                &&& !data@.contains(0)
                &&& data@.len() <= 0xffff_ffef
                &&& answers(reply@, request@.guard, data@)
                &&& !reply@.cancellable
            },
            Err(rejected) => if data@.contains(0) {
                gives_up(rejected, Error::InvalidLink, request@.guard)
            } else {
                &&& data@.len() > 0xffff_ffef
                &&& gives_up(rejected, Error::ReplyTooLong, request@.guard)
            },
        },
{
    match r {
        Ok(_) => sent::lemma_guard(request@.guard, data@, 0),
        Err(rejected) => lemma_gives_up(rejected, rejected.error, request@.guard),
    }
}

/// The answer to a readlink is the target, without the zero that terminates it.
pub proof fn lemma_readlink_c(request: Readlink, data: &CString, r: Result<Reply, Rejected>)
    requires
        call_ensures(Readlink::c_reply, (request, data), r),
    ensures
        match r {
            Ok(reply) => {
                &&& data@.len() <= 0xffff_ffef
                &&& answers(reply@, request@.guard, data@)
                &&& !reply@.cancellable
            },
            Err(rejected) => {
                &&& data@.len() > 0xffff_ffef
                &&& gives_up(rejected, Error::ReplyTooLong, request@.guard)
            },
        },
{
    match r {
        Ok(_) => sent::lemma_guard(request@.guard, data@, 0),
        Err(rejected) => lemma_gives_up(rejected, rejected.error, request@.guard),
    }
}

/// The answer to a `ListXAttrSize` is the size, where its field can hold it.
pub proof fn lemma_list_xattr_size(request: ListXAttrSize, size: usize, r: Result<Reply, Rejected>)
    requires
        call_ensures(ListXAttrSize::reply, (request, size), r),
    ensures
        match r {
            Ok(reply) => {
                let data = reply@.message.skip(16);
                &&& answers(reply@, request@.guard, data)
                &&& !reply@.cancellable
                &&& data.len() == 8
                &&& wire::u32_at(request@.guard.order, data, 0) == size
                &&& wire::u32_at(request@.guard.order, data, 4) == 0
            },
            Err(rejected) => {
                &&& size > 0xffff_ffff
                &&& gives_up(rejected, Error::XattrSizeTooLarge, request@.guard)
            },
        },
{
    match r {
        Ok(_) => {
            let out = FuseGetxattrOut { size: size as u32, padding: 0 };
            lemma_struct(request@.guard, out);
            let data = out.to_wire(request@.guard.order);
            offsets::lemma_fuse_getxattr_out(request@.guard.order, data, out);
        },
        Err(rejected) => lemma_gives_up(rejected, rejected.error, request@.guard),
    }
}

/// The answer to a `GetXAttrSize` is the size, where its field can hold it.
pub proof fn lemma_get_xattr_size(request: GetXAttrSize, size: usize, r: Result<Reply, Rejected>)
    requires
        call_ensures(GetXAttrSize::reply, (request, size), r),
    ensures
        match r {
            Ok(reply) => {
                let data = reply@.message.skip(16);
                &&& answers(reply@, request@.guard, data)
                &&& !reply@.cancellable
                &&& data.len() == 8
                &&& wire::u32_at(request@.guard.order, data, 0) == size
                &&& wire::u32_at(request@.guard.order, data, 4) == 0
            },
            Err(rejected) => {
                &&& size > 0xffff_ffff
                &&& gives_up(rejected, Error::XattrSizeTooLarge, request@.guard)
            },
        },
{
    match r {
        Ok(_) => {
            let out = FuseGetxattrOut { size: size as u32, padding: 0 };
            lemma_struct(request@.guard, out);
            let data = out.to_wire(request@.guard.order);
            offsets::lemma_fuse_getxattr_out(request@.guard.order, data, out);
        },
        Err(rejected) => lemma_gives_up(rejected, rejected.error, request@.guard),
    }
}

/// The answer to a `GetXAttr` is the value, or error number 34 where that is longer than asked for.
pub proof fn lemma_get_xattr(request: GetXAttr, data: &[u8], r: Result<Reply, Rejected>)
    requires
        call_ensures(GetXAttr::reply, (request, data), r),
    ensures
        match r {
            Ok(reply) => if data@.len() > request@.size {
                refuses(reply@, request@.guard, 34)
            } else {
                &&& data@.len() <= 0xffff_ffef
                &&& answers(reply@, request@.guard, data@)
                &&& !reply@.cancellable
            },
            Err(rejected) => {
                &&& data@.len() <= request@.size
                &&& data@.len() > 0xffff_ffef
                &&& gives_up(rejected, Error::ReplyTooLong, request@.guard)
            },
        },
{
    match r {
        Ok(_) => if data@.len() > request@.size {
            sent::lemma_guard(request@.guard, Seq::empty(), 34);
        } else {
            sent::lemma_guard(request@.guard, data@, 0);
        },
        Err(rejected) => lemma_gives_up(rejected, rejected.error, request@.guard),
    }
}

/// The answer to a `ListXAttr` is a list that was made elsewhere, or error number 34 where that is
/// longer than asked for.
pub proof fn lemma_list_xattr_raw(request: ListXAttr, data: &[u8], r: Result<Reply, Rejected>)
    requires
        call_ensures(ListXAttr::reply_raw, (request, data), r),
    ensures
        match r {
            Ok(reply) => if data@.len() > request@.size {
                refuses(reply@, request@.guard, 34)
            } else {
                &&& data@.len() <= 0xffff_ffef
                &&& answers(reply@, request@.guard, data@)
                &&& !reply@.cancellable
            },
            Err(rejected) => {
                &&& data@.len() <= request@.size
                &&& data@.len() > 0xffff_ffef
                &&& gives_up(rejected, Error::ReplyTooLong, request@.guard)
            },
        },
{
    match r {
        Ok(_) => if data@.len() > request@.size {
            sent::lemma_guard(request@.guard, Seq::empty(), 34);
        } else {
            sent::lemma_guard(request@.guard, data@, 0);
        },
        Err(rejected) => lemma_gives_up(rejected, rejected.error, request@.guard),
    }
}

/// The answer to a `ListXAttr` is the names that were added.
pub proof fn lemma_list_xattr(request: ListXAttr, r: Result<Reply, Rejected>, full: Reply)
    requires
        call_ensures(ListXAttr::reply, (request,), r),
        call_ensures(ListXAttr::fail_full, (request,), full),
    ensures
        match r {
            Ok(reply) => {
                &&& request@.response.len() <= 0xffff_ffef
                &&& answers(reply@, request@.guard, request@.response)
                &&& !reply@.cancellable
            },
            Err(rejected) => {
                &&& request@.response.len() > 0xffff_ffef
                &&& gives_up(rejected, Error::ReplyTooLong, request@.guard)
            },
        },
        refuses(full@, request@.guard, 34),
{
    sent::lemma_guard(request@.guard, Seq::empty(), 34);
    match r {
        Ok(_) => sent::lemma_guard(request@.guard, request@.response, 0),
        Err(rejected) => lemma_gives_up(rejected, rejected.error, request@.guard),
    }
}

/// Whether adding `entry` to a list came out as `r`: it was added at the end where there was room,
/// and else nothing changed.
pub open spec fn is_added(
    before: requests::ListXAttrView,
    after: requests::ListXAttrView,
    entry: Seq<u8>,
    r: ReplyBufState,
) -> bool {
    &&& r is Full <==> before.response.len() + entry.len() > before.size
    &&& r is Full ==> after.response == before.response
    &&& r is Added ==> after.response == before.response + entry
    &&& after.guard == before.guard
    &&& after.inode == before.inode
    &&& after.size == before.size
}

/// A name is added with a zero behind it.
pub proof fn lemma_list_xattr_add(list: &mut ListXAttr, name: &[u8], r: ReplyBufState)
    requires
        call_ensures(ListXAttr::add, (list, name), r) || call_ensures(
            ListXAttr::add_bytes_without_zero,
            (list, name),
            r,
        ),
    ensures
        is_added(old(list)@, final(list)@, name@ + seq![0u8], r),
{
    assert(name@.push(0) =~= name@ + seq![0u8]);
}

/// Bytes that are terminated already are added as they are.
pub proof fn lemma_list_xattr_add_bytes(list: &mut ListXAttr, name: &[u8], r: ReplyBufState)
    requires
        call_ensures(ListXAttr::add_bytes_with_zero, (list, name), r),
    ensures
        is_added(old(list)@, final(list)@, name@, r),
{
}

/// A terminated string is added with the zero behind it.
pub proof fn lemma_list_xattr_add_c(list: &mut ListXAttr, name: &CString, r: ReplyBufState)
    requires
        call_ensures(ListXAttr::add_c_string, (list, name), r),
    ensures
        is_added(old(list)@, final(list)@, name@ + seq![0u8], r),
{
    assert(name@.push(0) =~= name@ + seq![0u8]);
}

/// A list that was made elsewhere replaces what was added, where it is not longer than asked for.
pub proof fn lemma_set_raw_reply(list: &mut ListXAttr, data: Vec<u8>, r: Result<(), Vec<u8>>)
    requires
        call_ensures(ListXAttr::set_raw_reply, (list, data), r),
    ensures
        r is Ok <==> data@.len() <= old(list)@.size,
        r is Ok ==> final(list)@.response == data@,
        r matches Err(refused) ==> refused@ == data@ && final(list)@.response
            == old(list)@.response,
        final(list)@.guard == old(list)@.guard,
        final(list)@.inode == old(list)@.inode,
        final(list)@.size == old(list)@.size,
{
}

/// A listing takes an entry where there is room for it. A name with a zero byte is refused.
pub proof fn lemma_readdir_add(
    dir: &mut Readdir,
    name: &[u8],
    stat: &Stat,
    next: u64,
    r: Result<ReplyBufState, Error>,
)
    requires
        call_ensures(Readdir::add_entry, (dir, name, stat, next), r),
    ensures
        ({
            let (before, after) = (old(dir)@.reply_buffer, final(dir)@.reply_buffer);
            let size = calls::padded(24, name@.len());
            &&& final(dir)@.guard == old(dir)@.guard
            &&& final(dir)@.inode == old(dir)@.inode
            &&& final(dir)@.offset == old(dir)@.offset
            &&& after.capacity == before.capacity
            &&& after.order == before.order
            &&& match r {
                Err(err) => {
                    &&& name@.contains(0)
                    &&& err == Error::InvalidFileName
                    &&& after.data == before.data
                },
                Ok(ReplyBufState::Full) => {
                    &&& !name@.contains(0)
                    &&& before.data.len() + size > before.capacity
                    &&& after.data == before.data
                },
                Ok(ReplyBufState::Added) => {
                    &&& !name@.contains(0)
                    &&& after.data.len() == before.data.len() + size
                    &&& after.data.take(before.data.len() as int) == before.data
                    &&& sent::is_dirent(
                        after.data.skip(before.data.len() as int),
                        0,
                        before.order,
                        name@,
                        *stat,
                        next,
                    )
                },
            }
        }),
{
    lemma_contains(name@);
    let before = old(dir)@.reply_buffer;
    let entry = sys::plain_entry(before.order, name@, *stat, next);
    sent::lemma_plain_entry(before.order, name@, *stat, next);
    sent::lemma_reply_buf(before, entry, calls::padded(24, name@.len()));
    sys::lemma_entry_len(before.order, name@, *stat, next);
}

/// A byte string has a zero or has none.
proof fn lemma_contains(s: Seq<u8>)
    ensures
        cstring::no_nul(s) <==> !s.contains(0),
{
    if !cstring::no_nul(s) {
        let i = choose|i: int| 0 <= i < s.len() && s[i] == 0;
        assert(s.contains(s[i]));
    }
}

/// The same of a listing with attributes. The entry's inode is that of its attributes.
pub proof fn lemma_readdirplus_add(
    dir: &mut ReaddirPlus,
    name: &[u8],
    stat: &Stat,
    next: u64,
    generation: u64,
    attr_timeout: Timeout,
    entry_timeout: Timeout,
    r: Result<ReplyBufState, Error>,
)
    requires
        call_ensures(
            ReaddirPlus::add_entry,
            (dir, name, stat, next, generation, attr_timeout, entry_timeout),
            r,
        ),
    ensures
        ({
            let (before, after) = (old(dir)@.reply_buffer, final(dir)@.reply_buffer);
            let size = calls::padded(152, name@.len());
            let added = after.data.skip(before.data.len() as int);
            let entry = EntryParam {
                inode: stat.st_ino,
                generation,
                attr: *stat,
                attr_timeout,
                entry_timeout,
            };
            &&& final(dir)@.guard == old(dir)@.guard
            &&& final(dir)@.inode == old(dir)@.inode
            &&& final(dir)@.offset == old(dir)@.offset
            &&& after.capacity == before.capacity
            &&& after.order == before.order
            &&& match r {
                Err(err) => {
                    &&& name@.contains(0)
                    &&& err == Error::InvalidFileName
                    &&& after.data == before.data
                },
                Ok(ReplyBufState::Full) => {
                    &&& !name@.contains(0)
                    &&& before.data.len() + size > before.capacity
                    &&& after.data == before.data
                },
                Ok(ReplyBufState::Added) => {
                    &&& !name@.contains(0)
                    &&& after.data.len() == before.data.len() + size
                    &&& after.data.take(before.data.len() as int) == before.data
                    &&& sent::is_dirent(added, 128, before.order, name@, *stat, next)
                    &&& sent::is_entry(FuseEntryOut::from_wire(before.order, added), entry)
                },
            }
        }),
{
    lemma_contains(name@);
    let before = old(dir)@.reply_buffer;
    let entry = EntryParam {
        inode: stat.st_ino,
        generation,
        attr: *stat,
        attr_timeout,
        entry_timeout,
    };
    let bytes = sys::plus_entry(before.order, name@, entry, next);
    sent::lemma_plus_entry(before.order, name@, entry, next);
    sent::lemma_reply_buf(before, bytes, calls::padded(152, name@.len()));
    sys::lemma_plus_entry_len(before.order, name@, entry, next);
}

/// The answer to a `Readdir` is the entries that were added.
pub proof fn lemma_readdir(request: Readdir, r: Result<Reply, Rejected>)
    requires
        call_ensures(Readdir::reply, (request,), r),
    ensures
        ({
            let data = request@.reply_buffer.data;
            match r {
                Ok(reply) => {
                    &&& data.len() <= 0xffff_ffef
                    &&& answers(reply@, request@.guard, data)
                    &&& !reply@.cancellable
                },
                Err(rejected) => {
                    &&& data.len() > 0xffff_ffef
                    &&& gives_up(rejected, Error::ReplyTooLong, request@.guard)
                },
            }
        }),
{
    match r {
        Ok(_) => sent::lemma_guard(request@.guard, request@.reply_buffer.data, 0),
        Err(rejected) => lemma_gives_up(rejected, rejected.error, request@.guard),
    }
}

/// The answer to a `ReaddirPlus` is the entries that were added.
pub proof fn lemma_readdirplus(request: ReaddirPlus, r: Result<Reply, Rejected>)
    requires
        call_ensures(ReaddirPlus::reply, (request,), r),
    ensures
        ({
            let data = request@.reply_buffer.data;
            match r {
                Ok(reply) => {
                    &&& data.len() <= 0xffff_ffef
                    &&& answers(reply@, request@.guard, data)
                    &&& !reply@.cancellable
                },
                Err(rejected) => {
                    &&& data.len() > 0xffff_ffef
                    &&& gives_up(rejected, Error::ReplyTooLong, request@.guard)
                },
            }
        }),
{
    match r {
        Ok(_) => sent::lemma_guard(request@.guard, request@.reply_buffer.data, 0),
        Err(rejected) => lemma_gives_up(rejected, rejected.error, request@.guard),
    }
}

/// Which attributes are to be set: each where its flag is given, and to what came in.
pub proof fn lemma_setattr_given(
    request: &Setattr,
    mode: Option<u32>,
    uid: Option<u32>,
    gid: Option<u32>,
    size: Option<u64>,
)
    requires
        call_ensures(Setattr::mode, (request,), mode),
        call_ensures(Setattr::uid, (request,), uid),
        call_ensures(Setattr::gid, (request,), gid),
        call_ensures(Setattr::size, (request,), size),
    ensures
        mode is Some <==> request@.to_set.bits / 1 % 2 == 1,
        mode matches Some(v) ==> v == request@.stat.st_mode,
        uid is Some <==> request@.to_set.bits / 2 % 2 == 1,
        uid matches Some(v) ==> v == request@.stat.st_uid,
        gid is Some <==> request@.to_set.bits / 4 % 2 == 1,
        gid matches Some(v) ==> v == request@.stat.st_gid,
        size is Some <==> request@.to_set.bits / 8 % 2 == 1,
        size matches Some(v) ==> received::same_bits(request@.stat.st_size, v),
{
    sent::lemma_flag_bits(request@.to_set.bits);
}

/// Whether `d` is the time of `secs` and `nsecs`: not before the epoch, and with less than a second
/// in nanoseconds.
pub open spec fn is_time(d: Duration, secs: i64, nsecs: i64) -> bool {
    &&& sent::kept_time(d.secs, secs)
    &&& nsecs < 0 ==> d.nanos == 0
    &&& 0 <= nsecs < 1_000_000_000 ==> d.nanos == nsecs
    &&& nsecs >= 1_000_000_000 ==> d.nanos == 999_999_999
}

/// Whether `t` is the time that is to be set, where `given` says that one came in and `now` that
/// the current one is meant.
pub open spec fn is_set_time(
    t: Option<SetTime>,
    given: bool,
    now: bool,
    secs: i64,
    nsecs: i64,
) -> bool {
    if given {
        t matches Some(SetTime::Time(d)) && is_time(d, secs, nsecs)
    } else if now {
        t == Some(SetTime::Now)
    } else {
        t is None
    }
}

/// Which times are to be set, and to what.
pub proof fn lemma_setattr_times(
    request: &Setattr,
    atime: Option<SetTime>,
    mtime: Option<SetTime>,
    ctime: Option<Duration>,
)
    requires
        call_ensures(Setattr::atime, (request,), atime),
        call_ensures(Setattr::mtime, (request,), mtime),
        call_ensures(Setattr::ctime, (request,), ctime),
    ensures
        ({
            let bits = request@.to_set.bits;
            let stat = request@.stat;
            &&& is_set_time(
                atime,
                bits / 16 % 2 == 1,
                bits / 128 % 2 == 1,
                stat.st_atime,
                stat.st_atime_nsec,
            )
            &&& is_set_time(
                mtime,
                bits / 32 % 2 == 1,
                bits / 256 % 2 == 1,
                stat.st_mtime,
                stat.st_mtime_nsec,
            )
            &&& ctime is Some <==> bits / 1024 % 2 == 1
            &&& ctime matches Some(d) ==> is_time(d, stat.st_ctime, stat.st_ctime_nsec)
        }),
{
    sent::lemma_flag_bits(request@.to_set.bits);
}

/// A request that failed is answered with the error number, and one that was dropped with error
/// number 38, or 5 where a listing was begun. A forget is not answered.
pub proof fn lemma_fail(
    request: Request,
    errno: i32,
    failed: Option<Reply>,
    dropped: Option<Vec<u8>>,
)
    requires
        errno != i32::MIN,
        call_ensures(<Request as FuseRequest>::fail, (request, errno), failed),
        call_ensures(<Request as FuseRequest>::abandon, (request,), dropped),
    ensures
        ({
            let guard = request@.guard();
            let listing = request is Readdir || request is ReaddirPlus;
            if request is Forget {
                &&& failed is None
                &&& dropped is None
            } else {
                &&& failed is Some
                &&& failed matches Some(reply) ==> refuses(reply@, guard, errno as int)
                &&& dropped is None <==> !listing && guard.unique == 0
                &&& dropped matches Some(m) ==> sent::is_message(
                    m@,
                    guard.order,
                    guard.unique,
                    if listing {
                        -5
                    } else {
                        -38
                    },
                    Seq::empty(),
                )
            }
        }),
{
    sent::lemma_failed_or_dropped(request@, errno);
}

/// An error of the system is answered with its number, and any other with error number 5.
pub proof fn lemma_io_fail(request: Request, error: Error, r: Option<Reply>)
    requires
        error != Error::Os(i32::MIN),
        call_ensures(<Request as FuseRequest>::io_fail, (request, error), r),
    ensures
        r is None <==> request is Forget,
        r matches Some(reply) ==> refuses(
            reply@,
            request@.guard(),
            match error {
                Error::Os(errno) => errno as int,
                _ => 5,
            },
        ),
{
    match error {
        Error::Os(errno) => sent::lemma_failed_or_dropped(request@, errno),
        _ => sent::lemma_failed_or_dropped(request@, 5),
    }
}

/// Each kind of request fails and is dropped as it does among all of them.
pub proof fn lemma_kinds(request: Request, errno: i32)
    ensures
        match request {
            Request::Lookup(r) => {
                &&& r.failure(errno) == request@.failure(errno)
                &&& r.on_drop() == request@.on_drop()
            },
            Request::Forget(r) => {
                &&& r.failure(errno) == request@.failure(errno)
                &&& r.on_drop() == request@.on_drop()
            },
            Request::Getattr(r) => {
                &&& r.failure(errno) == request@.failure(errno)
                &&& r.on_drop() == request@.on_drop()
            },
            Request::Setattr(r) => {
                &&& r.failure(errno) == request@.failure(errno)
                &&& r.on_drop() == request@.on_drop()
            },
            Request::Statfs(r) => {
                &&& r.failure(errno) == request@.failure(errno)
                &&& r.on_drop() == request@.on_drop()
            },
            Request::Readdir(r) => {
                &&& r.failure(errno) == request@.failure(errno)
                &&& r.on_drop() == request@.on_drop()
            },
            Request::ReaddirPlus(r) => {
                &&& r.failure(errno) == request@.failure(errno)
                &&& r.on_drop() == request@.on_drop()
            },
            Request::Mkdir(r) => {
                &&& r.failure(errno) == request@.failure(errno)
                &&& r.on_drop() == request@.on_drop()
            },
            Request::Create(r) => {
                &&& r.failure(errno) == request@.failure(errno)
                &&& r.on_drop() == request@.on_drop()
            },
            Request::Mknod(r) => {
                &&& r.failure(errno) == request@.failure(errno)
                &&& r.on_drop() == request@.on_drop()
            },
            Request::Open(r) => {
                &&& r.failure(errno) == request@.failure(errno)
                &&& r.on_drop() == request@.on_drop()
            },
            Request::Release(r) => {
                &&& r.failure(errno) == request@.failure(errno)
                &&& r.on_drop() == request@.on_drop()
            },
            Request::Read(r) => {
                &&& r.failure(errno) == request@.failure(errno)
                &&& r.on_drop() == request@.on_drop()
            },
            Request::Unlink(r) => {
                &&& r.failure(errno) == request@.failure(errno)
                &&& r.on_drop() == request@.on_drop()
            },
            Request::Rmdir(r) => {
                &&& r.failure(errno) == request@.failure(errno)
                &&& r.on_drop() == request@.on_drop()
            },
            Request::Write(r) => {
                &&& r.failure(errno) == request@.failure(errno)
                &&& r.on_drop() == request@.on_drop()
            },
            Request::Readlink(r) => {
                &&& r.failure(errno) == request@.failure(errno)
                &&& r.on_drop() == request@.on_drop()
            },
            Request::Rename(r) => {
                &&& r.failure(errno) == request@.failure(errno)
                &&& r.on_drop() == request@.on_drop()
            },
            Request::ListXAttrSize(r) => {
                &&& r.failure(errno) == request@.failure(errno)
                &&& r.on_drop() == request@.on_drop()
            },
            Request::ListXAttr(r) => {
                &&& r.failure(errno) == request@.failure(errno)
                &&& r.on_drop() == request@.on_drop()
            },
            Request::GetXAttrSize(r) => {
                &&& r.failure(errno) == request@.failure(errno)
                &&& r.on_drop() == request@.on_drop()
            },
            Request::GetXAttr(r) => {
                &&& r.failure(errno) == request@.failure(errno)
                &&& r.on_drop() == request@.on_drop()
            },
        },
{
}

} // verus!
