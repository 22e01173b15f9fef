//! The bigger part of the public API is about which requests we're handling.
//!
//! A reply method consumes its request and hands out the [`Reply`] that is to be written to the
//! FUSE device. A request that is dropped instead goes through [`FuseRequest::abandon`].

use std::sync::Arc;

use vstd::prelude::*;
use vstd::slice::slice_subrange;

use crate::cast;
use crate::cstring;
use crate::cstring::CString;
use crate::error;
use crate::error::Error;
use crate::protocol;
use crate::protocol::{
    FattrFlags, FuseEntryOut, FuseGetxattrOut, FuseKstatfs, FuseOpenOut, FuseWriteOut,
};
use crate::reply;
use crate::reply::{GuardView, Reply, ReplyView, Rejected};
use crate::sys;
use crate::sys::{EntryParam, FileInfoView, ReplyBuf, ReplyBufState, ReplyBufView};
use crate::util::{Duration, Stat, StatVfs, Timeout};
use crate::wire;
use crate::wire::Wire;

pub use crate::reply::{ReplyError, RequestGuard};
pub use crate::sys::FuseFileInfo;

verus! {

/// The reply that may be there.
pub open spec fn reply_of(reply: Option<Reply>) -> Option<ReplyView> {
    match reply {
        Some(reply) => Some(reply@),
        None => None,
    }
}

/// Helper trait to easily provide the fail method for all the request types within the `Request`
/// enum even after they have been moved out of the enum, without requiring the exact type.
pub trait FuseRequest: Sized {
    /// The reply that says that the request failed with `errno`, where it may get one.
    spec fn failure(self, errno: i32) -> Option<ReplyView>;

    /// What has to be written when the request is dropped without a reply.
    spec fn on_drop(self) -> Option<Seq<u8>>;

    /// Send an error reply.
    fn fail(self, errno: i32) -> (r: Option<Reply>)
        requires
            errno != i32::MIN,
        ensures
            reply_of(r) == self.failure(errno),
    ;

    /// Convenience method to use an `Error` as a response.
    fn io_fail(self, error: Error) -> (r: Option<Reply>)
        requires
            error.errno() != Some(i32::MIN),
        ensures
            reply_of(r) == self.failure(
                match error.errno() {
                    Some(errno) => errno,
                    None => error::EIO,
                },
            ),
    {
        match error.raw_os_error() {
            Some(errno) => self.fail(errno),
            None => self.fail(error::EIO),
        }
    }

    /// Drop the request: the message that has to be written for it, if any.
    fn abandon(self) -> (r: Option<Vec<u8>>)
        ensures
            reply::bytes_of(r) == self.on_drop(),
    ;
}

/// Any of the requests.
#[derive(Debug)]
#[non_exhaustive]
pub enum Request {
    Lookup(Lookup),
    Forget(Forget),
    Getattr(Getattr),
    Setattr(Setattr),
    Statfs(Statfs),
    Readdir(Readdir),
    ReaddirPlus(ReaddirPlus),
    Mkdir(Mkdir),
    Create(Create),
    Mknod(Mknod),
    Open(Open),
    Release(Release),
    Read(Read),
    Unlink(Unlink),
    Rmdir(Rmdir),
    Write(Write),
    Readlink(Readlink),
    Rename(Rename),
    ListXAttrSize(ListXAttrSize),
    ListXAttr(ListXAttr),
    GetXAttrSize(GetXAttrSize),
    GetXAttr(GetXAttr),
}

/// What a [`Request`] holds.
pub enum RequestView {
    Lookup(LookupView),
    Forget(ForgetView),
    Getattr(GetattrView),
    Setattr(SetattrView),
    Statfs(StatfsView),
    Readdir(ReaddirView),
    ReaddirPlus(ReaddirPlusView),
    Mkdir(MkdirView),
    Create(CreateView),
    Mknod(MknodView),
    Open(OpenView),
    Release(ReleaseView),
    Read(ReadView),
    Unlink(UnlinkView),
    Rmdir(RmdirView),
    Write(WriteView),
    Readlink(ReadlinkView),
    Rename(RenameView),
    ListXAttrSize(ListXAttrSizeView),
    ListXAttr(ListXAttrView),
    GetXAttrSize(GetXAttrSizeView),
    GetXAttr(GetXAttrView),
}

impl RequestView {
    /// The guard of the request.
    pub open spec fn guard(self) -> GuardView {
        match self {
            RequestView::Lookup(r) => r.guard,
            RequestView::Forget(r) => r.guard,
            RequestView::Getattr(r) => r.guard,
            RequestView::Setattr(r) => r.guard,
            RequestView::Statfs(r) => r.guard,
            RequestView::Readdir(r) => r.guard,
            RequestView::ReaddirPlus(r) => r.guard,
            RequestView::Mkdir(r) => r.guard,
            RequestView::Create(r) => r.guard,
            RequestView::Mknod(r) => r.guard,
            RequestView::Open(r) => r.guard,
            RequestView::Release(r) => r.guard,
            RequestView::Read(r) => r.guard,
            RequestView::Unlink(r) => r.guard,
            RequestView::Rmdir(r) => r.guard,
            RequestView::Write(r) => r.guard,
            RequestView::Readlink(r) => r.guard,
            RequestView::Rename(r) => r.guard,
            RequestView::ListXAttrSize(r) => r.guard,
            RequestView::ListXAttr(r) => r.guard,
            RequestView::GetXAttrSize(r) => r.guard,
            RequestView::GetXAttr(r) => r.guard,
        }
    }

    /// The reply that says that the request failed with `errno`. Only a forget may not get one.
    pub open spec fn failure(self, errno: i32) -> Option<ReplyView> {
        match self {
            RequestView::Forget(_) => None,
            _ => Some(self.guard().failure(errno)),
        }
    }

    /// What has to be written when the request is dropped without a reply: an input/output error
    /// where a listing was begun, else that the function is not implemented. A forget may not get
    /// an answer.
    pub open spec fn on_drop(self) -> Option<Seq<u8>> {
        match self {
            RequestView::Forget(_) => None,
            RequestView::Readdir(r) => Some(r.guard.failure(error::EIO).message),
            RequestView::ReaddirPlus(r) => Some(r.guard.failure(error::EIO).message),
            _ => self.guard().on_drop(),
        }
    }

    /// The buffers that the request borrows from hold what it says.
    pub open spec fn wf(self) -> bool {
        self matches RequestView::Write(r) ==> r.wf()
    }
}

impl View for Request {
    type V = RequestView;

    open spec fn view(&self) -> RequestView {
        match self {
            Request::Lookup(r) => RequestView::Lookup(r@),
            Request::Forget(r) => RequestView::Forget(r@),
            Request::Getattr(r) => RequestView::Getattr(r@),
            Request::Setattr(r) => RequestView::Setattr(r@),
            Request::Statfs(r) => RequestView::Statfs(r@),
            Request::Readdir(r) => RequestView::Readdir(r@),
            Request::ReaddirPlus(r) => RequestView::ReaddirPlus(r@),
            Request::Mkdir(r) => RequestView::Mkdir(r@),
            Request::Create(r) => RequestView::Create(r@),
            Request::Mknod(r) => RequestView::Mknod(r@),
            Request::Open(r) => RequestView::Open(r@),
            Request::Release(r) => RequestView::Release(r@),
            Request::Read(r) => RequestView::Read(r@),
            Request::Unlink(r) => RequestView::Unlink(r@),
            Request::Rmdir(r) => RequestView::Rmdir(r@),
            Request::Write(r) => RequestView::Write(r@),
            Request::Readlink(r) => RequestView::Readlink(r@),
            Request::Rename(r) => RequestView::Rename(r@),
            Request::ListXAttrSize(r) => RequestView::ListXAttrSize(r@),
            Request::ListXAttr(r) => RequestView::ListXAttr(r@),
            Request::GetXAttrSize(r) => RequestView::GetXAttrSize(r@),
            Request::GetXAttr(r) => RequestView::GetXAttr(r@),
        }
    }
}

impl FuseRequest for Request {
    open spec fn failure(self, errno: i32) -> Option<ReplyView> {
        self@.failure(errno)
    }

    open spec fn on_drop(self) -> Option<Seq<u8>> {
        self@.on_drop()
    }

    /// Forget never gets a reply. Every other variant forwards to the inner type's `fail`.
    fn fail(self, errno: i32) -> (r: Option<Reply>)
        ensures
            reply_of(r) == self@.failure(errno),
    {
        assert(self.failure(errno) == self@.failure(errno));
        match self {
            Request::Lookup(r) => r.fail(errno),
            Request::Forget(r) => r.fail(errno),
            Request::Getattr(r) => r.fail(errno),
            Request::Setattr(r) => r.fail(errno),
            Request::Statfs(r) => r.fail(errno),
            Request::Readdir(r) => r.fail(errno),
            Request::ReaddirPlus(r) => r.fail(errno),
            Request::Mkdir(r) => r.fail(errno),
            Request::Create(r) => r.fail(errno),
            Request::Mknod(r) => r.fail(errno),
            Request::Open(r) => r.fail(errno),
            Request::Release(r) => r.fail(errno),
            Request::Read(r) => r.fail(errno),
            Request::Unlink(r) => r.fail(errno),
            Request::Rmdir(r) => r.fail(errno),
            Request::Write(r) => r.fail(errno),
            Request::Readlink(r) => r.fail(errno),
            Request::Rename(r) => r.fail(errno),
            Request::ListXAttrSize(r) => r.fail(errno),
            Request::ListXAttr(r) => r.fail(errno),
            Request::GetXAttrSize(r) => r.fail(errno),
            Request::GetXAttr(r) => r.fail(errno),
        }
    }

    fn abandon(self) -> (r: Option<Vec<u8>>)
        ensures
            reply::bytes_of(r) == self@.on_drop(),
    {
        match self {
            Request::Lookup(r) => r.abandon(),
            Request::Forget(r) => r.abandon(),
            Request::Getattr(r) => r.abandon(),
            Request::Setattr(r) => r.abandon(),
            Request::Statfs(r) => r.abandon(),
            Request::Readdir(r) => r.abandon(),
            Request::ReaddirPlus(r) => r.abandon(),
            Request::Mkdir(r) => r.abandon(),
            Request::Create(r) => r.abandon(),
            Request::Mknod(r) => r.abandon(),
            Request::Open(r) => r.abandon(),
            Request::Release(r) => r.abandon(),
            Request::Read(r) => r.abandon(),
            Request::Unlink(r) => r.abandon(),
            Request::Rmdir(r) => r.abandon(),
            Request::Write(r) => r.abandon(),
            Request::Readlink(r) => r.abandon(),
            Request::Rename(r) => r.abandon(),
            Request::ListXAttrSize(r) => r.abandon(),
            Request::ListXAttr(r) => r.abandon(),
            Request::GetXAttrSize(r) => r.abandon(),
            Request::GetXAttr(r) => r.abandon(),
        }
    }
}

/// No request that waits for an answer is left without one: failed, it yields a message with the
/// error number for it, and dropped, one with `EIO` where a listing was begun and with `ENOSYS`
/// else. A forget, which waits for none, yields none.
pub proof fn lemma_never_left_waiting(request: RequestView, errno: i32)
    requires
        request.guard().unique != 0,
    ensures
        ({
            let guard = request.guard();
            let drop_errno = if request is Readdir || request is ReaddirPlus {
                error::EIO
            } else {
                error::ENOSYS
            };
            if request is Forget {
                &&& request.on_drop() is None
                &&& request.failure(errno) is None
            } else {
                &&& request.on_drop() == Some(
                    reply::error_message_of(guard.order, guard.unique, drop_errno),
                )
                &&& request.failure(errno) matches Some(reply) && reply.message
                    == reply::error_message_of(guard.order, guard.unique, errno)
            }
        }),
{
}

/// A lookup for an entry in a directory. This should increase the lookup count for the inode,
/// as from then on the kernel will refer to the looked-up entry only via the inode..
#[derive(Debug)]
pub struct Lookup {
    pub(crate) request: RequestGuard,
    pub parent: u64,
    pub file_name: Vec<u8>,
}

/// What a [`Lookup`] holds.
pub struct LookupView {
    pub guard: GuardView,
    pub parent: u64,
    pub file_name: Seq<u8>,
}

impl View for Lookup {
    type V = LookupView;

    open(crate) spec fn view(&self) -> LookupView {
        LookupView {
            guard: self.request@,
            parent: self.parent,
            file_name: self.file_name@,
        }
    }
}

impl FuseRequest for Lookup {
    open spec fn failure(self, errno: i32) -> Option<ReplyView> {
        Some(self@.guard.failure(errno))
    }

    open spec fn on_drop(self) -> Option<Seq<u8>> {
        self@.guard.on_drop()
    }

    fn fail(self, errno: i32) -> (r: Option<Reply>)
        ensures
            reply_of(r) == Some(self@.guard.failure(errno)),
    {
        assert(self.failure(errno) == Some(self@.guard.failure(errno)));
        Some(reply::reply_err(self.request, errno))
    }

    fn abandon(self) -> (r: Option<Vec<u8>>)
        ensures
            reply::bytes_of(r) == self@.guard.on_drop(),
    {
        self.request.abandon()
    }
}

impl Lookup {
    /// Send the entry that was found.
    pub fn reply(self, entry: &EntryParam) -> (r: Reply)
        ensures
            r@ == self@.guard.cancellable_success(
                protocol::entry_out_of(*entry).to_wire(self@.guard.order),
            ),
            entry.valid(),
    {
        let entry_out: FuseEntryOut = protocol::entry_out_from_param(entry);
        reply::reply_ok_cancellable(self.request, &entry_out)
    }
}

/// Forget references (lookup count) for an inode. Once an inode reaches a lookup count of zero,
/// the kernel will not refer to the inode anymore, meaning any cached information to access it may
/// be released.
#[derive(Debug)]
pub struct Forget {
    pub(crate) request: RequestGuard,
    pub inode: u64,
    pub count: u64,
}

/// What a [`Forget`] holds.
pub struct ForgetView {
    pub guard: GuardView,
    pub inode: u64,
    pub count: u64,
}

impl View for Forget {
    type V = ForgetView;

    open(crate) spec fn view(&self) -> ForgetView {
        ForgetView {
            guard: self.request@,
            inode: self.inode,
            count: self.count,
        }
    }
}

impl FuseRequest for Forget {
    open spec fn failure(self, errno: i32) -> Option<ReplyView> {
        None
    }

    /// FUSE_FORGET must never receive a reply.
    open spec fn on_drop(self) -> Option<Seq<u8>> {
        None
    }

    /// Forget cannot fail.
    fn fail(self, errno: i32) -> (r: Option<Reply>)
        ensures
            r is None,
    {
        assert(self.failure(errno) is None);
        None
    }

    fn abandon(self) -> (r: Option<Vec<u8>>)
        ensures
            r is None,
    {
        None
    }
}

impl Forget {
    /// Done with the request: FUSE_FORGET sends no kernel reply.
    pub fn reply(self) -> (r: Option<Reply>)
        ensures
            r is None,
    {
        None
    }
}

/// This is the equivalent of a `stat` call.
///
/// The inode is already known, so no changes to the lookup count occur.
#[derive(Debug)]
pub struct Getattr {
    pub(crate) request: RequestGuard,
    pub inode: u64,
}

/// What a [`Getattr`] holds.
pub struct GetattrView {
    pub guard: GuardView,
    pub inode: u64,
}

impl View for Getattr {
    type V = GetattrView;

    open(crate) spec fn view(&self) -> GetattrView {
        GetattrView {
            guard: self.request@,
            inode: self.inode,
        }
    }
}

impl FuseRequest for Getattr {
    open spec fn failure(self, errno: i32) -> Option<ReplyView> {
        Some(self@.guard.failure(errno))
    }

    open spec fn on_drop(self) -> Option<Seq<u8>> {
        self@.guard.on_drop()
    }

    fn fail(self, errno: i32) -> (r: Option<Reply>)
        ensures
            reply_of(r) == Some(self@.guard.failure(errno)),
    {
        assert(self.failure(errno) == Some(self@.guard.failure(errno)));
        Some(reply::reply_err(self.request, errno))
    }

    fn abandon(self) -> (r: Option<Vec<u8>>)
        ensures
            reply::bytes_of(r) == self@.guard.on_drop(),
    {
        self.request.abandon()
    }
}

impl Getattr {
    /// Send a reply for a `Getattr` request.
    pub fn reply(self, stat: &Stat, timeout: Timeout) -> (r: Reply)
        ensures
            r@ == self@.guard.success(
                reply::attr_out_of(*stat, timeout).to_wire(self@.guard.order),
            ),
            timeout@.valid(),
    {
        reply::reply_attr(self.request, stat, timeout)
    }
}

/// Get filesystem statistics.
///
/// This is the equivalent of a `statfs` call.
#[derive(Debug)]
pub struct Statfs {
    pub(crate) request: RequestGuard,
    pub inode: u64,
}

/// What a [`Statfs`] holds.
pub struct StatfsView {
    pub guard: GuardView,
    pub inode: u64,
}

impl View for Statfs {
    type V = StatfsView;

    open(crate) spec fn view(&self) -> StatfsView {
        StatfsView {
            guard: self.request@,
            inode: self.inode,
        }
    }
}

impl FuseRequest for Statfs {
    open spec fn failure(self, errno: i32) -> Option<ReplyView> {
        Some(self@.guard.failure(errno))
    }

    open spec fn on_drop(self) -> Option<Seq<u8>> {
        self@.guard.on_drop()
    }

    fn fail(self, errno: i32) -> (r: Option<Reply>)
        ensures
            reply_of(r) == Some(self@.guard.failure(errno)),
    {
        assert(self.failure(errno) == Some(self@.guard.failure(errno)));
        Some(reply::reply_err(self.request, errno))
    }

    fn abandon(self) -> (r: Option<Vec<u8>>)
        ensures
            reply::bytes_of(r) == self@.guard.on_drop(),
    {
        self.request.abandon()
    }
}

impl Statfs {
    /// Send a reply for a `Statfs` request.
    pub fn reply(self, stbuf: &StatVfs) -> (r: Reply)
        ensures
            r@ == self@.guard.success(FuseKstatfs::of_statvfs(*stbuf).to_wire(self@.guard.order)),
    {
        let kstatfs = FuseKstatfs::from_statvfs(stbuf);
        reply::reply_struct(self.request, &kstatfs)
    }
}

/// Get the contents of a directory without changing any lookup counts. (Contrary to
/// `ReaddirPlus`).
#[derive(Debug)]
pub struct Readdir {
    pub(crate) request: RequestGuard,
    pub inode: u64,
    pub offset: u64,
    pub(crate) reply_buffer: ReplyBuf,
}

/// What a [`Readdir`] holds.
pub struct ReaddirView {
    pub guard: GuardView,
    pub inode: u64,
    pub offset: u64,
    pub reply_buffer: ReplyBufView,
}

impl View for Readdir {
    type V = ReaddirView;

    open(crate) spec fn view(&self) -> ReaddirView {
        ReaddirView {
            guard: self.request@,
            inode: self.inode,
            offset: self.offset,
            reply_buffer: self.reply_buffer@,
        }
    }
}

impl FuseRequest for Readdir {
    open spec fn failure(self, errno: i32) -> Option<ReplyView> {
        Some(self@.guard.failure(errno))
    }

    /// A listing that was begun and not sent is an error.
    open spec fn on_drop(self) -> Option<Seq<u8>> {
        Some(self@.guard.failure(error::EIO).message)
    }

    fn fail(self, errno: i32) -> (r: Option<Reply>)
        ensures
            reply_of(r) == Some(self@.guard.failure(errno)),
    {
        assert(self.failure(errno) == Some(self@.guard.failure(errno)));
        Some(reply::reply_err(self.request, errno))
    }

    fn abandon(self) -> (r: Option<Vec<u8>>)
        ensures
            reply::bytes_of(r) == Some(self@.guard.failure(error::EIO).message),
    {
        Some(reply::reply_err(self.request, error::EIO).message)
    }
}

impl ReaddirView {
    /// A request with nothing in its reply, which may have `size` bytes.
    pub open spec fn empty(guard: GuardView, inode: u64, size: nat, offset: u64) -> ReaddirView {
        ReaddirView {
            guard,
            inode,
            offset,
            reply_buffer: ReplyBufView {
                order: guard.order,
                capacity: size,
                data: Seq::empty(),
            },
        }
    }
}

impl Readdir {
    pub(crate) fn new(request: RequestGuard, inode: u64, size: usize, offset: u64) -> (r: Self)
        ensures
            r@ == ReaddirView::empty(request@, inode, size as nat, offset),
    {
        let reply_buffer = ReplyBuf::new(request.order, size);
        Readdir { request, inode, offset, reply_buffer }
    }

    /// Add a reply entry. Note that unless you also consume the `Readdir` object with a call to
    /// the `reply()` method, this will produce an `EIO` error.
    pub fn add_entry(&mut self, name: &[u8], stat: &Stat, next: u64) -> (r: Result<
        ReplyBufState,
        Error,
    >)
        ensures
            !cstring::no_nul(name@) ==> r == Err::<ReplyBufState, Error>(Error::InvalidFileName)
                && final(self)@ == old(self)@,
            cstring::no_nul(name@) ==> {
                let buf = old(self)@.reply_buffer;
                &&& r matches Ok(state) && (state is Full <==> !buf.has_room(
                    protocol::dirent_size(name@.len() as int),
                ))
                &&& final(self)@ == (ReaddirView {
                    reply_buffer: if r->Ok_0 is Full {
                        buf
                    } else {
                        buf.with(sys::plain_entry(buf.order, name@, *stat, next))
                    },
                    ..old(self)@
                })
            },
    {
        let name = match reply::name_to_cstring(name) {
            Ok(name) => name,
            Err(err) => {
                return Err(err);
            },
        };
        Ok(self.reply_buffer.add_readdir(&name, stat, next))
    }

    /// Send a successful reply. This also works if no entries have been added via
    /// `add_entry`, indicating an empty directory without `.` or `..` present.
    pub fn reply(self) -> (r: Result<Reply, Rejected>)
        ensures
            r is Ok <==> reply::fits(self@.reply_buffer.data.len() as int),
            r matches Ok(reply) ==> reply@ == self@.guard.success(self@.reply_buffer.data),
            r matches Err(rejected) ==> rejected.is(Error::ReplyTooLong, self@.guard),
            self@.reply_buffer.data.len() <= self@.reply_buffer.capacity,
    {
        let buf = self.reply_buffer;
        reply::reply_ok(self.request, buf.filled_data())
    }
}

/// Lookup all the contents of a directory. On success, the lookup count of all the returned
/// entries should be increased by 1.
#[derive(Debug)]
pub struct ReaddirPlus {
    pub(crate) request: RequestGuard,
    pub inode: u64,
    pub offset: u64,
    pub(crate) reply_buffer: ReplyBuf,
}

/// What a [`ReaddirPlus`] holds.
pub struct ReaddirPlusView {
    pub guard: GuardView,
    pub inode: u64,
    pub offset: u64,
    pub reply_buffer: ReplyBufView,
}

impl View for ReaddirPlus {
    type V = ReaddirPlusView;

    open(crate) spec fn view(&self) -> ReaddirPlusView {
        ReaddirPlusView {
            guard: self.request@,
            inode: self.inode,
            offset: self.offset,
            reply_buffer: self.reply_buffer@,
        }
    }
}

impl FuseRequest for ReaddirPlus {
    open spec fn failure(self, errno: i32) -> Option<ReplyView> {
        Some(self@.guard.failure(errno))
    }

    /// A listing that was begun and not sent is an error.
    open spec fn on_drop(self) -> Option<Seq<u8>> {
        Some(self@.guard.failure(error::EIO).message)
    }

    fn fail(self, errno: i32) -> (r: Option<Reply>)
        ensures
            reply_of(r) == Some(self@.guard.failure(errno)),
    {
        assert(self.failure(errno) == Some(self@.guard.failure(errno)));
        Some(reply::reply_err(self.request, errno))
    }

    fn abandon(self) -> (r: Option<Vec<u8>>)
        ensures
            reply::bytes_of(r) == Some(self@.guard.failure(error::EIO).message),
    {
        Some(reply::reply_err(self.request, error::EIO).message)
    }
}

impl ReaddirPlusView {
    /// A request with nothing in its reply, which may have `size` bytes.
    pub open spec fn empty(
        guard: GuardView,
        inode: u64,
        size: nat,
        offset: u64,
    ) -> ReaddirPlusView {
        ReaddirPlusView {
            guard,
            inode,
            offset,
            reply_buffer: ReplyBufView {
                order: guard.order,
                capacity: size,
                data: Seq::empty(),
            },
        }
    }
}

impl ReaddirPlus {
    pub(crate) fn new(request: RequestGuard, inode: u64, size: usize, offset: u64) -> (r: Self)
        ensures
            r@ == ReaddirPlusView::empty(request@, inode, size as nat, offset),
    {
        let reply_buffer = ReplyBuf::new(request.order, size);
        ReaddirPlus { request, inode, offset, reply_buffer }
    }

    /// Add a reply entry. Note that unless you also consume the `ReaddirPlus` object with a call to
    /// the `reply()` method, this will produce an `EIO` error.
    pub fn add_entry(
        &mut self,
        name: &[u8],
        stat: &Stat,
        next: u64,
        generation: u64,
        attr_timeout: Timeout,
        entry_timeout: Timeout,
    ) -> (r: Result<ReplyBufState, Error>)
        ensures
            !cstring::no_nul(name@) ==> r == Err::<ReplyBufState, Error>(Error::InvalidFileName)
                && final(self)@ == old(self)@,
            cstring::no_nul(name@) ==> {
                let buf = old(self)@.reply_buffer;
                let entry = EntryParam {
                    inode: stat.st_ino,
                    generation,
                    attr: *stat,
                    attr_timeout,
                    entry_timeout,
                };
                &&& r matches Ok(state) && (state is Full <==> !buf.has_room(
                    protocol::direntplus_size(name@.len() as int),
                ))
                &&& !(r->Ok_0 is Full) ==> entry.valid()
                &&& final(self)@ == (ReaddirPlusView {
                    reply_buffer: if r->Ok_0 is Full {
                        buf
                    } else {
                        buf.with(sys::plus_entry(buf.order, name@, entry, next))
                    },
                    ..old(self)@
                })
            },
    {
        let name = match reply::name_to_cstring(name) {
            Ok(name) => name,
            Err(err) => {
                return Err(err);
            },
        };
        let entry = EntryParam {
            inode: stat.st_ino,
            generation,
            attr: *stat,
            attr_timeout,
            entry_timeout,
        };
        Ok(self.reply_buffer.add_readdir_plus(&name, &entry, next))
    }

    /// Send a successful reply. This also works if no entries have been added via
    /// `add_entry`, indicating an empty directory without `.` or `..` present.
    pub fn reply(self) -> (r: Result<Reply, Rejected>)
        ensures
            r is Ok <==> reply::fits(self@.reply_buffer.data.len() as int),
            r matches Ok(reply) ==> reply@ == self@.guard.success(self@.reply_buffer.data),
            r matches Err(rejected) ==> rejected.is(Error::ReplyTooLong, self@.guard),
            self@.reply_buffer.data.len() <= self@.reply_buffer.capacity,
    {
        let buf = self.reply_buffer;
        reply::reply_ok(self.request, buf.filled_data())
    }
}

/// Create a new directory with a lookup count of 1.
#[derive(Debug)]
pub struct Mkdir {
    pub(crate) request: RequestGuard,
    pub parent: u64,
    pub dir_name: Vec<u8>,
    pub mode: u32,
}

/// What a [`Mkdir`] holds.
pub struct MkdirView {
    pub guard: GuardView,
    pub parent: u64,
    pub dir_name: Seq<u8>,
    pub mode: u32,
}

impl View for Mkdir {
    type V = MkdirView;

    open(crate) spec fn view(&self) -> MkdirView {
        MkdirView {
            guard: self.request@,
            parent: self.parent,
            dir_name: self.dir_name@,
            mode: self.mode,
        }
    }
}

impl FuseRequest for Mkdir {
    open spec fn failure(self, errno: i32) -> Option<ReplyView> {
        Some(self@.guard.failure(errno))
    }

    open spec fn on_drop(self) -> Option<Seq<u8>> {
        self@.guard.on_drop()
    }

    fn fail(self, errno: i32) -> (r: Option<Reply>)
        ensures
            reply_of(r) == Some(self@.guard.failure(errno)),
    {
        assert(self.failure(errno) == Some(self@.guard.failure(errno)));
        Some(reply::reply_err(self.request, errno))
    }

    fn abandon(self) -> (r: Option<Vec<u8>>)
        ensures
            reply::bytes_of(r) == self@.guard.on_drop(),
    {
        self.request.abandon()
    }
}

impl Mkdir {
    pub fn reply(self, entry: &EntryParam) -> (r: Reply)
        ensures
            r@ == self@.guard.success(protocol::entry_out_of(*entry).to_wire(self@.guard.order)),
            entry.valid(),
    {
        reply::reply_entry(self.request, entry)
    }
}

/// What tells the kernel of an opened file.
pub open spec fn open_out_of(info: FileInfoView, fh: u64) -> FuseOpenOut {
    FuseOpenOut { fh, open_flags: info.open_flags(), backing_id: 0 }
}

/// Create a new file with a lookup count of 1.
#[derive(Debug)]
pub struct Create {
    pub(crate) request: RequestGuard,
    pub parent: u64,
    pub file_name: Vec<u8>,
    pub mode: u32,
    pub file_info: FuseFileInfo,
}

/// What a [`Create`] holds.
pub struct CreateView {
    pub guard: GuardView,
    pub parent: u64,
    pub file_name: Seq<u8>,
    pub mode: u32,
    pub file_info: FileInfoView,
}

impl View for Create {
    type V = CreateView;

    open(crate) spec fn view(&self) -> CreateView {
        CreateView {
            guard: self.request@,
            parent: self.parent,
            file_name: self.file_name@,
            mode: self.mode,
            file_info: self.file_info@,
        }
    }
}

impl FuseRequest for Create {
    open spec fn failure(self, errno: i32) -> Option<ReplyView> {
        Some(self@.guard.failure(errno))
    }

    open spec fn on_drop(self) -> Option<Seq<u8>> {
        self@.guard.on_drop()
    }

    fn fail(self, errno: i32) -> (r: Option<Reply>)
        ensures
            reply_of(r) == Some(self@.guard.failure(errno)),
    {
        assert(self.failure(errno) == Some(self@.guard.failure(errno)));
        Some(reply::reply_err(self.request, errno))
    }

    fn abandon(self) -> (r: Option<Vec<u8>>)
        ensures
            reply::bytes_of(r) == self@.guard.on_drop(),
    {
        self.request.abandon()
    }
}

impl Create {
    /// The `fh` provided here will be available in later requests for this file handle.
    ///
    /// If this ends in `ReplyError::Cancelled`, no `Release` event will arrive for this file
    /// handle. The caller must clean up any resources associated with `fh` immediately.
    ///
    /// The request counts as answered even if its reply cannot be delivered.
    pub fn reply(self, entry: &EntryParam, fh: u64) -> (r: Reply)
        ensures
            r@ == (ReplyView {
                guard: self@.guard.disarmed(),
                ..self@.guard.cancellable_success(
                    protocol::entry_out_of(*entry).to_wire(self@.guard.order) + open_out_of(
                        self@.file_info,
                        fh,
                    ).to_wire(self@.guard.order),
                )
            }),
            entry.valid(),
    {
        let entry_out: FuseEntryOut = protocol::entry_out_from_param(entry);
        let open_out = FuseOpenOut {
            fh,
            open_flags: self.file_info.open_flags_out().bits(),
            backing_id: 0,
        };
        let order = self.request.order;
        let unique: u64 = self.request.unique;
        let entry_bytes: Vec<u8> = wire::as_bytes(order, &entry_out);
        let open_bytes: Vec<u8> = wire::as_bytes(order, &open_out);
        let data_len: usize = entry_bytes.len() + open_bytes.len();
        let slices: [&[u8]; 2] = [entry_bytes.as_slice(), open_bytes.as_slice()];
        proof {
            reveal_with_fuel(reply::concat, 3);
            let joined = entry_out.to_wire(order) + open_out.to_wire(order);
            assert(slices@.drop_last().drop_last() =~= Seq::<&[u8]>::empty());
            assert(reply::concat(slices@) =~= joined);
        }
        let request = self.request.disarm();
        let message: Vec<u8> = reply::framed_vectored(order, unique, slices.as_slice(), data_len);
        Reply { guard: request, cancellable: true, message }
    }
}

/// Create a new node (file or device) with a lookup count of 1.
#[derive(Debug)]
pub struct Mknod {
    pub(crate) request: RequestGuard,
    pub parent: u64,
    pub file_name: Vec<u8>,
    pub mode: u32,
    pub dev: u64,
}

/// What a [`Mknod`] holds.
pub struct MknodView {
    pub guard: GuardView,
    pub parent: u64,
    pub file_name: Seq<u8>,
    pub mode: u32,
    pub dev: u64,
}

impl View for Mknod {
    type V = MknodView;

    open(crate) spec fn view(&self) -> MknodView {
        MknodView {
            guard: self.request@,
            parent: self.parent,
            file_name: self.file_name@,
            mode: self.mode,
            dev: self.dev,
        }
    }
}

impl FuseRequest for Mknod {
    open spec fn failure(self, errno: i32) -> Option<ReplyView> {
        Some(self@.guard.failure(errno))
    }

    open spec fn on_drop(self) -> Option<Seq<u8>> {
        self@.guard.on_drop()
    }

    fn fail(self, errno: i32) -> (r: Option<Reply>)
        ensures
            reply_of(r) == Some(self@.guard.failure(errno)),
    {
        assert(self.failure(errno) == Some(self@.guard.failure(errno)));
        Some(reply::reply_err(self.request, errno))
    }

    fn abandon(self) -> (r: Option<Vec<u8>>)
        ensures
            reply::bytes_of(r) == self@.guard.on_drop(),
    {
        self.request.abandon()
    }
}

impl Mknod {
    /// The lookup count should be bumped by this reply.
    pub fn reply(self, entry: &EntryParam) -> (r: Reply)
        ensures
            r@ == self@.guard.success(protocol::entry_out_of(*entry).to_wire(self@.guard.order)),
            entry.valid(),
    {
        reply::reply_entry(self.request, entry)
    }
}

/// Open a file. This counts as one reference to the file and can be tracked separately or as part
/// of the lookup count. If dealing with opened files requires a kind of state, the `fh` parameter
/// on the `reply` method should point to that state, as it will be included in all requests
/// related to this handle.
#[derive(Debug)]
pub struct Open {
    pub(crate) request: RequestGuard,
    pub inode: u64,
    pub flags: i32,
    /// This can be used to set flags like `direct_io` or `writecache`...
    pub file_info: FuseFileInfo,
}

/// What a [`Open`] holds.
pub struct OpenView {
    pub guard: GuardView,
    pub inode: u64,
    pub flags: i32,
    pub file_info: FileInfoView,
}

impl View for Open {
    type V = OpenView;

    open(crate) spec fn view(&self) -> OpenView {
        OpenView {
            guard: self.request@,
            inode: self.inode,
            flags: self.flags,
            file_info: self.file_info@,
        }
    }
}

impl FuseRequest for Open {
    open spec fn failure(self, errno: i32) -> Option<ReplyView> {
        Some(self@.guard.failure(errno))
    }

    open spec fn on_drop(self) -> Option<Seq<u8>> {
        self@.guard.on_drop()
    }

    fn fail(self, errno: i32) -> (r: Option<Reply>)
        ensures
            reply_of(r) == Some(self@.guard.failure(errno)),
    {
        assert(self.failure(errno) == Some(self@.guard.failure(errno)));
        Some(reply::reply_err(self.request, errno))
    }

    fn abandon(self) -> (r: Option<Vec<u8>>)
        ensures
            reply::bytes_of(r) == self@.guard.on_drop(),
    {
        self.request.abandon()
    }
}

impl Open {
    /// The `fh` provided here will be available in later requests for this file handle.
    ///
    /// If this ends in `ReplyError::Cancelled`, no `Release` event will arrive for this file
    /// handle. The caller must clean up any resources associated with `fh` immediately.
    pub fn reply(self, fh: u64) -> (r: Reply)
        ensures
            r@ == self@.guard.cancellable_success(
                open_out_of(self@.file_info, fh).to_wire(self@.guard.order),
            ),
    {
        let open_out = FuseOpenOut {
            fh,
            open_flags: self.file_info.open_flags_out().bits(),
            backing_id: 0,
        };
        reply::reply_ok_cancellable(self.request, &open_out)
    }
}

/// Release a reference to a file.
#[derive(Debug)]
pub struct Release {
    pub(crate) request: RequestGuard,
    pub inode: u64,
    pub fh: u64,
    pub flags: i32,
}

/// What a [`Release`] holds.
pub struct ReleaseView {
    pub guard: GuardView,
    pub inode: u64,
    pub fh: u64,
    pub flags: i32,
}

impl View for Release {
    type V = ReleaseView;

    open(crate) spec fn view(&self) -> ReleaseView {
        ReleaseView {
            guard: self.request@,
            inode: self.inode,
            fh: self.fh,
            flags: self.flags,
        }
    }
}

impl FuseRequest for Release {
    open spec fn failure(self, errno: i32) -> Option<ReplyView> {
        Some(self@.guard.failure(errno))
    }

    open spec fn on_drop(self) -> Option<Seq<u8>> {
        self@.guard.on_drop()
    }

    fn fail(self, errno: i32) -> (r: Option<Reply>)
        ensures
            reply_of(r) == Some(self@.guard.failure(errno)),
    {
        assert(self.failure(errno) == Some(self@.guard.failure(errno)));
        Some(reply::reply_err(self.request, errno))
    }

    fn abandon(self) -> (r: Option<Vec<u8>>)
        ensures
            reply::bytes_of(r) == self@.guard.on_drop(),
    {
        self.request.abandon()
    }
}

impl Release {
    /// The reference was released.
    pub fn reply(self) -> (r: Reply)
        ensures
            r@ == self@.guard.success(Seq::empty()),
    {
        reply::reply_empty(self.request)
    }
}

/// Read from a file.
#[derive(Debug)]
pub struct Read {
    pub(crate) request: RequestGuard,
    pub inode: u64,
    pub fh: u64,
    pub size: usize,
    pub offset: u64,
}

/// What a [`Read`] holds.
pub struct ReadView {
    pub guard: GuardView,
    pub inode: u64,
    pub fh: u64,
    pub size: usize,
    pub offset: u64,
}

impl View for Read {
    type V = ReadView;

    open(crate) spec fn view(&self) -> ReadView {
        ReadView {
            guard: self.request@,
            inode: self.inode,
            fh: self.fh,
            size: self.size,
            offset: self.offset,
        }
    }
}

impl FuseRequest for Read {
    open spec fn failure(self, errno: i32) -> Option<ReplyView> {
        Some(self@.guard.failure(errno))
    }

    open spec fn on_drop(self) -> Option<Seq<u8>> {
        self@.guard.on_drop()
    }

    fn fail(self, errno: i32) -> (r: Option<Reply>)
        ensures
            reply_of(r) == Some(self@.guard.failure(errno)),
    {
        assert(self.failure(errno) == Some(self@.guard.failure(errno)));
        Some(reply::reply_err(self.request, errno))
    }

    fn abandon(self) -> (r: Option<Vec<u8>>)
        ensures
            reply::bytes_of(r) == self@.guard.on_drop(),
    {
        self.request.abandon()
    }
}

impl Read {
    /// Send what was read, which may not be more than was asked for.
    pub fn reply(self, data: &[u8]) -> (r: Result<Reply, Rejected>)
        ensures
            match r {
                Ok(reply) => {
                    &&& data@.len() <= self@.size
                    &&& reply::fits(data@.len() as int)
                    &&& reply@ == self@.guard.success(data@)
                },
                Err(rejected) => if data@.len() > self@.size {
                    rejected.is(
                        Error::ReadReplyTooLarge {
                            len: data@.len() as usize,
                            size: self@.size,
                        },
                        self@.guard,
                    )
                } else {
                    &&& !reply::fits(data@.len() as int)
                    &&& rejected.is(Error::ReplyTooLong, self@.guard)
                },
            },
    {
        if data.len() > self.size {
            return Err(
                Rejected::new(
                    Error::ReadReplyTooLarge { len: data.len(), size: self.size },
                    self.request,
                ),
            );
        }
        reply::reply_ok(self.request, data)
    }

    /// Send what was read in several parts, which together may not be more than was asked for.
    ///
    /// Once the sizes were found in order, the request counts as answered even if its reply cannot
    /// be made or delivered.
    pub fn reply_vectored(self, data: &[&[u8]]) -> (r: Result<Reply, Rejected>)
        requires
            reply::concat(data@).len() <= usize::MAX,
        ensures
            ({
                let body = reply::concat(data@);
                match r {
                    Ok(reply) => {
                        &&& body.len() <= self@.size
                        &&& reply::fits(body.len() as int)
                        &&& reply@ == (ReplyView {
                            guard: self@.guard.disarmed(),
                            ..self@.guard.success(body)
                        })
                    },
                    Err(rejected) => if body.len() > self@.size {
                        rejected.is(
                            Error::ReadVectoredReplyTooLarge {
                                len: body.len() as usize,
                                size: self@.size,
                            },
                            self@.guard,
                        )
                    } else {
                        &&& !reply::fits(body.len() as int)
                        &&& rejected.is(Error::ReplyTooLong, self@.guard.disarmed())
                    },
                }
            }),
    {
        let total: usize = total_len(data);
        if total > self.size {
            return Err(
                Rejected::new(
                    Error::ReadVectoredReplyTooLarge { len: total, size: self.size },
                    self.request,
                ),
            );
        }
        let order = self.request.order;
        let unique: u64 = self.request.unique;
        let request = self.request.disarm();
        match reply::reply_message_vectored(order, unique, data, total) {
            Ok(message) => Ok(Reply { guard: request, cancellable: false, message }),
            Err(err) => Err(Rejected::new(err, request)),
        }
    }
}

/// How many bytes `data` holds.
fn total_len(data: &[&[u8]]) -> (r: usize)
    requires
        reply::concat(data@).len() <= usize::MAX,
    ensures
        r == reply::concat(data@).len(),
{
    let mut total: usize = 0;
    let mut i: usize = 0;
    assert(reply::concat(data@.take(0)) =~= Seq::<u8>::empty());
    while i < data.len()
        invariant
            i <= data@.len(),
            total == reply::concat(data@.take(i as int)).len(),
            reply::concat(data@).len() <= usize::MAX,
        decreases data@.len() - i,
    {
        proof {
            assert(data@.take(i + 1).drop_last() =~= data@.take(i as int));
            lemma_concat_grows(data@, i + 1);
        }
        let part: &[u8] = data[i];
        total = total + part.len();
        i = i + 1;
    }
    assert(data@.take(i as int) =~= data@);
    total
}

/// The first parts are no longer than all of them.
proof fn lemma_concat_grows(data: Seq<&[u8]>, k: int)
    requires
        0 <= k <= data.len(),
    ensures
        reply::concat(data.take(k)).len() <= reply::concat(data).len(),
    decreases data.len() - k,
{
    if k < data.len() {
        assert(data.take(k + 1).drop_last() =~= data.take(k));
        lemma_concat_grows(data, k + 1);
    } else {
        assert(data.take(k) =~= data);
    }
}

/// A time that is to be set.
#[derive(Debug, Clone, Copy, PartialEq, Eq, Structural)]
pub enum SetTime {
    /// The time should be set to the current time.
    Now,
    /// Time since the epoch.
    Time(Duration),
}

/// The duration that `secs` and `nsecs` stand for, both clamped to what a duration can have.
pub open spec fn duration_of(secs: i64, nsecs: i64) -> Duration {
    Duration {
        secs: protocol::at_least_zero(secs as int) as u64,
        nanos: if nsecs > 999_999_999 {
            999_999_999
        } else {
            protocol::at_least_zero(nsecs as int) as u32
        },
    }
}

/// The nanoseconds of a duration are less than a second.
pub proof fn lemma_duration_valid(secs: i64, nsecs: i64)
    ensures
        duration_of(secs, nsecs).nanos < 1_000_000_000,
        secs >= 0 ==> duration_of(secs, nsecs).secs == secs,
        0 <= nsecs < 1_000_000_000 ==> duration_of(secs, nsecs).nanos == nsecs,
{
}

/// Convert FUSE wire time fields to a `Duration`, clamping nanoseconds to valid range
/// and clamping pre-epoch seconds to zero (the FUSE protocol uses u64 for seconds
/// and cannot represent negative times).
fn duration_from_c(secs: i64, nsecs: i64) -> (r: Duration)
    ensures
        r == duration_of(secs, nsecs),
{
    let nanos: u32 = if nsecs < 0 {
        0
    } else if nsecs > 999_999_999 {
        999_999_999
    } else {
        nsecs as u32
    };
    Duration {
        secs: if secs < 0 {
            0
        } else {
            secs as u64
        },
        nanos,
    }
}

/// Set attributes of a file.
#[derive(Debug)]
pub struct Setattr {
    pub(crate) request: RequestGuard,
    pub inode: u64,
    pub fh: Option<u64>,
    pub to_set: FattrFlags,
    pub(crate) stat: Stat,
}

/// What a [`Setattr`] holds.
pub struct SetattrView {
    pub guard: GuardView,
    pub inode: u64,
    pub fh: Option<u64>,
    pub to_set: FattrFlags,
    pub stat: Stat,
}

impl View for Setattr {
    type V = SetattrView;

    open(crate) spec fn view(&self) -> SetattrView {
        SetattrView {
            guard: self.request@,
            inode: self.inode,
            fh: self.fh,
            to_set: self.to_set,
            stat: self.stat,
        }
    }
}

impl FuseRequest for Setattr {
    open spec fn failure(self, errno: i32) -> Option<ReplyView> {
        Some(self@.guard.failure(errno))
    }

    open spec fn on_drop(self) -> Option<Seq<u8>> {
        self@.guard.on_drop()
    }

    fn fail(self, errno: i32) -> (r: Option<Reply>)
        ensures
            reply_of(r) == Some(self@.guard.failure(errno)),
    {
        assert(self.failure(errno) == Some(self@.guard.failure(errno)));
        Some(reply::reply_err(self.request, errno))
    }

    fn abandon(self) -> (r: Option<Vec<u8>>)
        ensures
            reply::bytes_of(r) == self@.guard.on_drop(),
    {
        self.request.abandon()
    }
}

impl Setattr {
    /// `Some` if the mode field should be modified.
    pub fn mode(&self) -> (r: Option<u32>)
        ensures
            r == (if self@.to_set.has(FattrFlags::MODE) {
                Some(self@.stat.st_mode)
            } else {
                None
            }),
    {
        if self.to_set.contains(FattrFlags::MODE) {
            Some(self.stat.st_mode)
        } else {
            None
        }
    }

    /// `Some` if the uid field should be modified.
    pub fn uid(&self) -> (r: Option<u32>)
        ensures
            r == (if self@.to_set.has(FattrFlags::UID) {
                Some(self@.stat.st_uid)
            } else {
                None
            }),
    {
        if self.to_set.contains(FattrFlags::UID) {
            Some(self.stat.st_uid)
        } else {
            None
        }
    }

    /// `Some` if the gid field should be modified.
    pub fn gid(&self) -> (r: Option<u32>)
        ensures
            r == (if self@.to_set.has(FattrFlags::GID) {
                Some(self@.stat.st_gid)
            } else {
                None
            }),
    {
        if self.to_set.contains(FattrFlags::GID) {
            Some(self.stat.st_gid)
        } else {
            None
        }
    }

    /// `Some` if the size field should be modified.
    pub fn size(&self) -> (r: Option<u64>)
        ensures
            r == (if self@.to_set.has(FattrFlags::SIZE) {
                Some(cast::low64(self@.stat.st_size as int))
            } else {
                None
            }),
    {
        if self.to_set.contains(FattrFlags::SIZE) {
            Some(cast::i64_to_u64(self.stat.st_size))
        } else {
            None
        }
    }

    /// `Some` if the atime field should be modified.
    pub fn atime(&self) -> (r: Option<SetTime>)
        ensures
            r == (if self@.to_set.has(FattrFlags::ATIME) {
                Some(SetTime::Time(duration_of(self@.stat.st_atime, self@.stat.st_atime_nsec)))
            } else if self@.to_set.has(FattrFlags::ATIME_NOW) {
                Some(SetTime::Now)
            } else {
                None
            }),
    {
        if self.to_set.contains(FattrFlags::ATIME) {
            Some(SetTime::Time(duration_from_c(self.stat.st_atime, self.stat.st_atime_nsec)))
        } else if self.to_set.contains(FattrFlags::ATIME_NOW) {
            Some(SetTime::Now)
        } else {
            None
        }
    }

    /// `Some` if the mtime field should be modified.
    pub fn mtime(&self) -> (r: Option<SetTime>)
        ensures
            r == (if self@.to_set.has(FattrFlags::MTIME) {
                Some(SetTime::Time(duration_of(self@.stat.st_mtime, self@.stat.st_mtime_nsec)))
            } else if self@.to_set.has(FattrFlags::MTIME_NOW) {
                Some(SetTime::Now)
            } else {
                None
            }),
    {
        if self.to_set.contains(FattrFlags::MTIME) {
            Some(SetTime::Time(duration_from_c(self.stat.st_mtime, self.stat.st_mtime_nsec)))
        } else if self.to_set.contains(FattrFlags::MTIME_NOW) {
            Some(SetTime::Now)
        } else {
            None
        }
    }

    /// `Some` if the ctime field should be modified.
    pub fn ctime(&self) -> (r: Option<Duration>)
        ensures
            r == (if self@.to_set.has(FattrFlags::CTIME) {
                Some(duration_of(self@.stat.st_ctime, self@.stat.st_ctime_nsec))
            } else {
                None
            }),
    {
        if self.to_set.contains(FattrFlags::CTIME) {
            Some(duration_from_c(self.stat.st_ctime, self.stat.st_ctime_nsec))
        } else {
            None
        }
    }

    /// Send a reply for a `Setattr` request.
    pub fn reply(self, stat: &Stat, timeout: Timeout) -> (r: Reply)
        ensures
            r@ == self@.guard.success(
                reply::attr_out_of(*stat, timeout).to_wire(self@.guard.order),
            ),
            timeout@.valid(),
    {
        reply::reply_attr(self.request, stat, timeout)
    }
}

/// Remove a hard-link to a file. Note that the removed file may still have active references which
/// should still be usable. This only unlinks the file from one directory.
#[derive(Debug)]
pub struct Unlink {
    pub(crate) request: RequestGuard,
    pub parent: u64,
    pub file_name: Vec<u8>,
}

/// What a [`Unlink`] holds.
pub struct UnlinkView {
    pub guard: GuardView,
    pub parent: u64,
    pub file_name: Seq<u8>,
}

impl View for Unlink {
    type V = UnlinkView;

    open(crate) spec fn view(&self) -> UnlinkView {
        UnlinkView {
            guard: self.request@,
            parent: self.parent,
            file_name: self.file_name@,
        }
    }
}

impl FuseRequest for Unlink {
    open spec fn failure(self, errno: i32) -> Option<ReplyView> {
        Some(self@.guard.failure(errno))
    }

    open spec fn on_drop(self) -> Option<Seq<u8>> {
        self@.guard.on_drop()
    }

    fn fail(self, errno: i32) -> (r: Option<Reply>)
        ensures
            reply_of(r) == Some(self@.guard.failure(errno)),
    {
        assert(self.failure(errno) == Some(self@.guard.failure(errno)));
        Some(reply::reply_err(self.request, errno))
    }

    fn abandon(self) -> (r: Option<Vec<u8>>)
        ensures
            reply::bytes_of(r) == self@.guard.on_drop(),
    {
        self.request.abandon()
    }
}

impl Unlink {
    /// Send a reply for an `Unlink` request.
    pub fn reply(self) -> (r: Reply)
        ensures
            r@ == self@.guard.success(Seq::empty()),
    {
        reply::reply_empty(self.request)
    }
}

/// Remove a directory entry. Note that the removed directory may still have active references
/// which should still be usable. Only its hard link into the directory hierarchy is dropped.
#[derive(Debug)]
pub struct Rmdir {
    pub(crate) request: RequestGuard,
    pub parent: u64,
    pub dir_name: Vec<u8>,
}

/// What a [`Rmdir`] holds.
pub struct RmdirView {
    pub guard: GuardView,
    pub parent: u64,
    pub dir_name: Seq<u8>,
}

impl View for Rmdir {
    type V = RmdirView;

    open(crate) spec fn view(&self) -> RmdirView {
        RmdirView {
            guard: self.request@,
            parent: self.parent,
            dir_name: self.dir_name@,
        }
    }
}

impl FuseRequest for Rmdir {
    open spec fn failure(self, errno: i32) -> Option<ReplyView> {
        Some(self@.guard.failure(errno))
    }

    open spec fn on_drop(self) -> Option<Seq<u8>> {
        self@.guard.on_drop()
    }

    fn fail(self, errno: i32) -> (r: Option<Reply>)
        ensures
            reply_of(r) == Some(self@.guard.failure(errno)),
    {
        assert(self.failure(errno) == Some(self@.guard.failure(errno)));
        Some(reply::reply_err(self.request, errno))
    }

    fn abandon(self) -> (r: Option<Vec<u8>>)
        ensures
            reply::bytes_of(r) == self@.guard.on_drop(),
    {
        self.request.abandon()
    }
}

impl Rmdir {
    /// Send a reply for an `Rmdir` request.
    pub fn reply(self) -> (r: Reply)
        ensures
            r@ == self@.guard.success(Seq::empty()),
    {
        reply::reply_empty(self.request)
    }
}

/// Rename a file or directory.
#[derive(Debug)]
pub struct Rename {
    pub(crate) request: RequestGuard,
    pub parent: u64,
    pub name: Vec<u8>,
    pub new_parent: u64,
    pub new_name: Vec<u8>,
    pub flags: i32,
}

/// What a [`Rename`] holds.
pub struct RenameView {
    pub guard: GuardView,
    pub parent: u64,
    pub name: Seq<u8>,
    pub new_parent: u64,
    pub new_name: Seq<u8>,
    pub flags: i32,
}

impl View for Rename {
    type V = RenameView;

    open(crate) spec fn view(&self) -> RenameView {
        RenameView {
            guard: self.request@,
            parent: self.parent,
            name: self.name@,
            new_parent: self.new_parent,
            new_name: self.new_name@,
            flags: self.flags,
        }
    }
}

impl FuseRequest for Rename {
    open spec fn failure(self, errno: i32) -> Option<ReplyView> {
        Some(self@.guard.failure(errno))
    }

    open spec fn on_drop(self) -> Option<Seq<u8>> {
        self@.guard.on_drop()
    }

    fn fail(self, errno: i32) -> (r: Option<Reply>)
        ensures
            reply_of(r) == Some(self@.guard.failure(errno)),
    {
        assert(self.failure(errno) == Some(self@.guard.failure(errno)));
        Some(reply::reply_err(self.request, errno))
    }

    fn abandon(self) -> (r: Option<Vec<u8>>)
        ensures
            reply::bytes_of(r) == self@.guard.on_drop(),
    {
        self.request.abandon()
    }
}

impl Rename {
    /// The entry has its new name.
    pub fn reply(self) -> (r: Reply)
        ensures
            r@ == self@.guard.success(Seq::empty()),
    {
        reply::reply_empty(self.request)
    }
}

/// Write to a file.
#[derive(Debug)]
pub struct Write {
    pub(crate) request: RequestGuard,
    pub inode: u64,
    pub fh: u64,
    pub(crate) data_offset: usize,
    pub size: usize,
    pub offset: u64,
    /// We keep a reference count on the buffer so it will not be cleared until it is used up by
    /// requests borrowing data from it, like `Write`.
    pub(crate) buffer: Arc<Vec<u8>>,
}

/// What a [`Write`] holds.
pub struct WriteView {
    pub guard: GuardView,
    pub inode: u64,
    pub fh: u64,
    pub data_offset: usize,
    pub size: usize,
    pub offset: u64,
    pub buffer: Seq<u8>,
}

impl View for Write {
    type V = WriteView;

    open(crate) spec fn view(&self) -> WriteView {
        WriteView {
            guard: self.request@,
            inode: self.inode,
            fh: self.fh,
            data_offset: self.data_offset,
            size: self.size,
            offset: self.offset,
            buffer: self.buffer@,
        }
    }
}

impl FuseRequest for Write {
    open spec fn failure(self, errno: i32) -> Option<ReplyView> {
        Some(self@.guard.failure(errno))
    }

    open spec fn on_drop(self) -> Option<Seq<u8>> {
        self@.guard.on_drop()
    }

    fn fail(self, errno: i32) -> (r: Option<Reply>)
        ensures
            reply_of(r) == Some(self@.guard.failure(errno)),
    {
        assert(self.failure(errno) == Some(self@.guard.failure(errno)));
        Some(reply::reply_err(self.request, errno))
    }

    fn abandon(self) -> (r: Option<Vec<u8>>)
        ensures
            reply::bytes_of(r) == self@.guard.on_drop(),
    {
        self.request.abandon()
    }
}

impl WriteView {
    /// The buffer holds as much data as the request says.
    pub open spec fn wf(self) -> bool {
        self.data_offset + self.size <= self.buffer.len()
    }

    /// What is to be written.
    pub open spec fn data(self) -> Seq<u8> {
        self.buffer.subrange(self.data_offset as int, self.data_offset + self.size)
    }
}

impl Write {
    pub(crate) fn new(
        request: RequestGuard,
        inode: u64,
        fh: u64,
        data_offset: usize,
        size: usize,
        offset: u64,
        buffer: Arc<Vec<u8>>,
    ) -> (r: Self)
        ensures
            r@ == (WriteView {
                guard: request@,
                inode,
                fh,
                data_offset,
                size,
                offset,
                buffer: buffer@,
            }),
    {
        Write { request, inode, fh, data_offset, size, offset, buffer }
    }

    /// Send how much was written, which may not be more than was asked for.
    pub fn reply(self, size: usize) -> (r: Result<Reply, Rejected>)
        ensures
            match r {
                Ok(reply) => {
                    &&& size <= self@.size
                    &&& size <= u32::MAX
                    &&& reply@ == self@.guard.success(
                        (FuseWriteOut { size: size as u32, padding: 0 }).to_wire(
                            self@.guard.order,
                        ),
                    )
                },
                Err(rejected) => if size > self@.size {
                    rejected.is(
                        Error::WriteReplyTooLarge { len: size, size: self@.size },
                        self@.guard,
                    )
                } else {
                    &&& size > u32::MAX
                    &&& rejected.is(Error::WriteSizeTooLarge, self@.guard)
                },
            },
    {
        if size > self.size {
            return Err(
                Rejected::new(
                    Error::WriteReplyTooLarge { len: size, size: self.size },
                    self.request,
                ),
            );
        }
        if size as u64 > u32::MAX as u64 {
            return Err(Rejected::new(Error::WriteSizeTooLarge, self.request));
        }
        let write_out = FuseWriteOut { size: size as u32, padding: 0 };
        Ok(reply::reply_struct(self.request, &write_out))
    }

    /// What is to be written.
    pub fn data(&self) -> (r: &[u8])
        requires
            self@.wf(),
        ensures
            r@ == self@.data(),
    {
        let buffer: &[u8] = self.buffer.as_slice();
        assert(self.data_offset + self.size <= buffer.len());
        slice_subrange(buffer, self.data_offset, self.data_offset + self.size)
    }
}

/// Read a symbolic link.
#[derive(Debug)]
pub struct Readlink {
    pub(crate) request: RequestGuard,
    pub inode: u64,
}

/// What a [`Readlink`] holds.
pub struct ReadlinkView {
    pub guard: GuardView,
    pub inode: u64,
}

impl View for Readlink {
    type V = ReadlinkView;

    open(crate) spec fn view(&self) -> ReadlinkView {
        ReadlinkView {
            guard: self.request@,
            inode: self.inode,
        }
    }
}

impl FuseRequest for Readlink {
    open spec fn failure(self, errno: i32) -> Option<ReplyView> {
        Some(self@.guard.failure(errno))
    }

    open spec fn on_drop(self) -> Option<Seq<u8>> {
        self@.guard.on_drop()
    }

    fn fail(self, errno: i32) -> (r: Option<Reply>)
        ensures
            reply_of(r) == Some(self@.guard.failure(errno)),
    {
        assert(self.failure(errno) == Some(self@.guard.failure(errno)));
        Some(reply::reply_err(self.request, errno))
    }

    fn abandon(self) -> (r: Option<Vec<u8>>)
        ensures
            reply::bytes_of(r) == self@.guard.on_drop(),
    {
        self.request.abandon()
    }
}

impl Readlink {
    /// Send the target of the link.
    pub fn reply(self, data: &[u8]) -> (r: Result<Reply, Rejected>)
        ensures
            match r {
                Ok(reply) => {
                    &&& cstring::no_nul(data@)
                    &&& reply::fits(data@.len() as int)
                    &&& reply@ == self@.guard.success(data@)
                },
                Err(rejected) => if cstring::no_nul(data@) {
                    &&& !reply::fits(data@.len() as int)
                    &&& rejected.is(Error::ReplyTooLong, self@.guard)
                } else {
                    rejected.is(Error::InvalidLink, self@.guard)
                },
            },
    {
        match CString::new(data) {
            Some(data) => self.c_reply(&data),
            None => Err(Rejected::new(Error::InvalidLink, self.request)),
        }
    }

    /// Send the target of the link.
    ///
    /// The FUSE kernel protocol expects the link target without a NUL terminator; the kernel adds
    /// its own.
    pub fn c_reply(self, data: &CString) -> (r: Result<Reply, Rejected>)
        ensures
            r is Ok <==> reply::fits(data@.len() as int),
            r matches Ok(reply) ==> reply@ == self@.guard.success(data@),
            r matches Err(rejected) ==> rejected.is(Error::ReplyTooLong, self@.guard),
    {
        reply::reply_ok(self.request, data.to_bytes())
    }
}

/// Get the size of the extended attribute list.
#[derive(Debug)]
pub struct ListXAttrSize {
    pub(crate) request: RequestGuard,
    pub inode: u64,
}

/// What a [`ListXAttrSize`] holds.
pub struct ListXAttrSizeView {
    pub guard: GuardView,
    pub inode: u64,
}

impl View for ListXAttrSize {
    type V = ListXAttrSizeView;

    open(crate) spec fn view(&self) -> ListXAttrSizeView {
        ListXAttrSizeView {
            guard: self.request@,
            inode: self.inode,
        }
    }
}

impl FuseRequest for ListXAttrSize {
    open spec fn failure(self, errno: i32) -> Option<ReplyView> {
        Some(self@.guard.failure(errno))
    }

    open spec fn on_drop(self) -> Option<Seq<u8>> {
        self@.guard.on_drop()
    }

    fn fail(self, errno: i32) -> (r: Option<Reply>)
        ensures
            reply_of(r) == Some(self@.guard.failure(errno)),
    {
        assert(self.failure(errno) == Some(self@.guard.failure(errno)));
        Some(reply::reply_err(self.request, errno))
    }

    fn abandon(self) -> (r: Option<Vec<u8>>)
        ensures
            reply::bytes_of(r) == self@.guard.on_drop(),
    {
        self.request.abandon()
    }
}

impl ListXAttrSize {
    /// Send the size.
    pub fn reply(self, size: usize) -> (r: Result<Reply, Rejected>)
        ensures
            r is Ok <==> size <= u32::MAX,
            r matches Ok(reply) ==> reply@ == self@.guard.success(
                (FuseGetxattrOut { size: size as u32, padding: 0 }).to_wire(self@.guard.order),
            ),
            r matches Err(rejected) ==> rejected.is(Error::XattrSizeTooLarge, self@.guard),
    {
        reply::reply_xattr_size(self.request, size)
    }
}

/// List extended attributes.
#[derive(Debug)]
pub struct ListXAttr {
    pub(crate) request: RequestGuard,
    pub inode: u64,
    pub size: usize,
    pub(crate) response: Vec<u8>,
}

/// What a [`ListXAttr`] holds.
pub struct ListXAttrView {
    pub guard: GuardView,
    pub inode: u64,
    pub size: usize,
    pub response: Seq<u8>,
}

impl View for ListXAttr {
    type V = ListXAttrView;

    open(crate) spec fn view(&self) -> ListXAttrView {
        ListXAttrView {
            guard: self.request@,
            inode: self.inode,
            size: self.size,
            response: self.response@,
        }
    }
}

impl FuseRequest for ListXAttr {
    open spec fn failure(self, errno: i32) -> Option<ReplyView> {
        Some(self@.guard.failure(errno))
    }

    open spec fn on_drop(self) -> Option<Seq<u8>> {
        self@.guard.on_drop()
    }

    fn fail(self, errno: i32) -> (r: Option<Reply>)
        ensures
            reply_of(r) == Some(self@.guard.failure(errno)),
    {
        assert(self.failure(errno) == Some(self@.guard.failure(errno)));
        Some(reply::reply_err(self.request, errno))
    }

    fn abandon(self) -> (r: Option<Vec<u8>>)
        ensures
            reply::bytes_of(r) == self@.guard.on_drop(),
    {
        self.request.abandon()
    }
}

impl ListXAttrView {
    /// Whether `n` more bytes fit.
    pub open spec fn has_room(self, n: int) -> bool {
        self.response.len() + n <= self.size
    }

    /// The list with `entry` behind what it holds, where that fits.
    pub open spec fn with(self, entry: Seq<u8>) -> ListXAttrView {
        if self.has_room(entry.len() as int) {
            ListXAttrView { response: self.response + entry, ..self }
        } else {
            self
        }
    }
}

impl ListXAttr {
    pub(crate) fn new(request: RequestGuard, inode: u64, size: usize) -> (r: Self)
        ensures
            r@ == (ListXAttrView { guard: request@, inode, size, response: Seq::empty() }),
    {
        ListXAttr { request, inode, size, response: Vec::with_capacity(size) }
    }

    /// Check whether we can add `len` bytes to the buffer. This must already include the
    /// terminating zero.
    fn check_add(&self, len: usize) -> (r: bool)
        ensures
            r == self@.has_room(len as int),
    {
        self.response.len() <= self.size && len <= self.size - self.response.len()
    }

    /// Add an extended attribute entry to the response list.
    ///
    /// This returns `Full` if the entry would overflow the caller's buffer, but will not fail the
    /// request. Use `fail_full()` to send the default reply for a too-small buffer, or `reply()`
    /// to reply with success.
    pub fn add(&mut self, name: &[u8]) -> (r: ReplyBufState)
        ensures
            r is Full <==> !old(self)@.has_room(name@.len() as int + 1),
            final(self)@ == old(self)@.with(name@.push(0)),
    {
        self.add_bytes_without_zero(name)
    }

    /// Add a raw attribute name the response list. It must not contain any zeroes. The terminating
    /// zero byte will be appended to the buffer.
    ///
    /// See `add` for details. Zero bytes in `name` will be treated as separators and cause
    /// confusion.
    pub fn add_bytes_without_zero(&mut self, name: &[u8]) -> (r: ReplyBufState)
        ensures
            r is Full <==> !old(self)@.has_room(name@.len() as int + 1),
            final(self)@ == old(self)@.with(name@.push(0)),
    {
        if name.len() == usize::MAX || !self.check_add(name.len() + 1) {
            return ReplyBufState::Full;
        }
        self.response.extend_from_slice(name);
        self.response.push(0);
        assert(self.response@ =~= old(self).response@ + name@.push(0));
        ReplyBufState::Added
    }

    /// Add a raw attribute name which is already zero terminated to the response list.
    ///
    /// See `add` for details. This could technically be used to add multiple entries at once, but
    /// is not meant to be used that way. Zero bytes in the middle will be treated as entry
    /// separators.
    pub fn add_bytes_with_zero(&mut self, name: &[u8]) -> (r: ReplyBufState)
        ensures
            r is Full <==> !old(self)@.has_room(name@.len() as int),
            final(self)@ == old(self)@.with(name@),
    {
        if !self.check_add(name.len()) {
            return ReplyBufState::Full;
        }
        self.response.extend_from_slice(name);
        assert(self.response@ =~= old(self).response@ + name@);
        ReplyBufState::Added
    }

    /// Add a raw attribute name which is already zero terminated to the response list.
    ///
    /// See `add` for details.
    pub fn add_c_string(&mut self, name: &CString) -> (r: ReplyBufState)
        ensures
            r is Full <==> !old(self)@.has_room(name@.len() as int + 1),
            final(self)@ == old(self)@.with(name@.push(0)),
    {
        self.add_bytes_with_zero(name.to_bytes_with_nul())
    }

    /// Try to replace the current reply buffer with a raw data buffer. If the provided data is too
    /// large it will be returned as an error.
    pub fn set_raw_reply(&mut self, data: Vec<u8>) -> (r: Result<(), Vec<u8>>)
        ensures
            match r {
                Ok(_) => {
                    &&& data@.len() <= old(self)@.size
                    &&& final(self)@ == (ListXAttrView { response: data@, ..old(self)@ })
                },
                Err(refused) => {
                    &&& data@.len() > old(self)@.size
                    &&& refused@ == data@
                    &&& final(self)@ == old(self)@
                },
            },
    {
        if data.len() > self.size {
            return Err(data);
        }
        self.response = data;
        Ok(())
    }

    /// Reply with the standard error for a too-small size.
    pub fn fail_full(self) -> (r: Reply)
        ensures
            r@ == self@.guard.failure(error::ERANGE),
    {
        reply::reply_err(self.request, error::ERANGE)
    }

    /// Reply to the request with the current data buffer.
    pub fn reply(self) -> (r: Result<Reply, Rejected>)
        ensures
            r is Ok <==> reply::fits(self@.response.len() as int),
            r matches Ok(reply) ==> reply@ == self@.guard.success(self@.response),
            r matches Err(rejected) ==> rejected.is(Error::ReplyTooLong, self@.guard),
    {
        let response = self.response;
        reply::reply_ok(self.request, response.as_slice())
    }

    /// Reply to the request with either an error (`ERANGE` if the data doesn't fit) or with the
    /// provided raw buffer discarding anything previously added to the reply.
    pub fn reply_raw(self, data: &[u8]) -> (r: Result<Reply, Rejected>)
        ensures
            match r {
                Ok(reply) => if data@.len() > self@.size {
                    reply@ == self@.guard.failure(error::ERANGE)
                } else {
                    &&& reply::fits(data@.len() as int)
                    &&& reply@ == self@.guard.success(data@)
                },
                Err(rejected) => {
                    &&& data@.len() <= self@.size
                    &&& !reply::fits(data@.len() as int)
                    &&& rejected.is(Error::ReplyTooLong, self@.guard)
                },
            },
    {
        if data.len() > self.size {
            return Ok(self.fail_full());
        }
        reply::reply_ok(self.request, data)
    }
}

/// The zero-terminated names that `s` is made of; `None` where something unterminated is left.
pub open spec fn read_names(s: Seq<u8>) -> Option<Seq<Seq<u8>>>
    decreases s.len(),
{
    let p = cstring::nul_position(s);
    if s.len() == 0 {
        Some(Seq::empty())
    } else if p >= s.len() {
        None
    } else {
        match read_names(s.skip(p as int + 1)) {
            None => None,
            Some(rest) => Some(seq![s.take(p as int)] + rest),
        }
    }
}

/// A name that is added to a list of names is read back behind them; the ones before it are not
/// changed.
pub proof fn lemma_read_added_name(before: Seq<u8>, name: Seq<u8>)
    requires
        read_names(before) is Some,
        cstring::no_nul(name),
    ensures
        read_names(before + name.push(0)) == Some(read_names(before)->0.push(name)),
    decreases before.len(),
{
    let s = before + name.push(0);
    if before.len() == 0 {
        assert(s.take(name.len() as int) =~= name);
        cstring::lemma_nul_position_unique(s, name.len());
        assert(s.skip(name.len() as int + 1) =~= Seq::<u8>::empty());
        assert(read_names(s.skip(name.len() as int + 1)) == Some(Seq::<Seq<u8>>::empty()));
        assert(read_names(s)->0 =~= read_names(before)->0.push(name));
    } else {
        let p = cstring::nul_position(before);
        cstring::lemma_nul_position(before);
        assert(s.take(p as int) =~= before.take(p as int));
        cstring::lemma_nul_position_unique(s, p);
        let rest = before.skip(p as int + 1);
        lemma_read_added_name(rest, name);
        assert(s.skip(p as int + 1) =~= rest + name.push(0));
        assert(read_names(s)->0 =~= read_names(before)->0.push(name));
    }
}

/// Get the size of an extended attribute.
#[derive(Debug)]
pub struct GetXAttrSize {
    pub(crate) request: RequestGuard,
    pub inode: u64,
    pub attr_name: Vec<u8>,
}

/// What a [`GetXAttrSize`] holds.
pub struct GetXAttrSizeView {
    pub guard: GuardView,
    pub inode: u64,
    pub attr_name: Seq<u8>,
}

impl View for GetXAttrSize {
    type V = GetXAttrSizeView;

    open(crate) spec fn view(&self) -> GetXAttrSizeView {
        GetXAttrSizeView {
            guard: self.request@,
            inode: self.inode,
            attr_name: self.attr_name@,
        }
    }
}

impl FuseRequest for GetXAttrSize {
    open spec fn failure(self, errno: i32) -> Option<ReplyView> {
        Some(self@.guard.failure(errno))
    }

    open spec fn on_drop(self) -> Option<Seq<u8>> {
        self@.guard.on_drop()
    }

    fn fail(self, errno: i32) -> (r: Option<Reply>)
        ensures
            reply_of(r) == Some(self@.guard.failure(errno)),
    {
        assert(self.failure(errno) == Some(self@.guard.failure(errno)));
        Some(reply::reply_err(self.request, errno))
    }

    fn abandon(self) -> (r: Option<Vec<u8>>)
        ensures
            reply::bytes_of(r) == self@.guard.on_drop(),
    {
        self.request.abandon()
    }
}

impl GetXAttrSize {
    /// Send the size.
    pub fn reply(self, size: usize) -> (r: Result<Reply, Rejected>)
        ensures
            r is Ok <==> size <= u32::MAX,
            r matches Ok(reply) ==> reply@ == self@.guard.success(
                (FuseGetxattrOut { size: size as u32, padding: 0 }).to_wire(self@.guard.order),
            ),
            r matches Err(rejected) ==> rejected.is(Error::XattrSizeTooLarge, self@.guard),
    {
        reply::reply_xattr_size(self.request, size)
    }
}

/// Get an extended attribute.
#[derive(Debug)]
pub struct GetXAttr {
    pub(crate) request: RequestGuard,
    pub inode: u64,
    pub attr_name: Vec<u8>,
    pub size: usize,
}

/// What a [`GetXAttr`] holds.
pub struct GetXAttrView {
    pub guard: GuardView,
    pub inode: u64,
    pub attr_name: Seq<u8>,
    pub size: usize,
}

impl View for GetXAttr {
    type V = GetXAttrView;

    open(crate) spec fn view(&self) -> GetXAttrView {
        GetXAttrView {
            guard: self.request@,
            inode: self.inode,
            attr_name: self.attr_name@,
            size: self.size,
        }
    }
}

impl FuseRequest for GetXAttr {
    open spec fn failure(self, errno: i32) -> Option<ReplyView> {
        Some(self@.guard.failure(errno))
    }

    open spec fn on_drop(self) -> Option<Seq<u8>> {
        self@.guard.on_drop()
    }

    fn fail(self, errno: i32) -> (r: Option<Reply>)
        ensures
            reply_of(r) == Some(self@.guard.failure(errno)),
    {
        assert(self.failure(errno) == Some(self@.guard.failure(errno)));
        Some(reply::reply_err(self.request, errno))
    }

    fn abandon(self) -> (r: Option<Vec<u8>>)
        ensures
            reply::bytes_of(r) == self@.guard.on_drop(),
    {
        self.request.abandon()
    }
}

impl GetXAttr {
    /// Reply to the request either with an error (`ERANGE` if the buffer doesn't fit), or with the
    /// provided data.
    pub fn reply(self, data: &[u8]) -> (r: Result<Reply, Rejected>)
        ensures
            match r {
                Ok(reply) => if data@.len() > self@.size {
                    reply@ == self@.guard.failure(error::ERANGE)
                } else {
                    &&& reply::fits(data@.len() as int)
                    &&& reply@ == self@.guard.success(data@)
                },
                Err(rejected) => {
                    &&& data@.len() <= self@.size
                    &&& !reply::fits(data@.len() as int)
                    &&& rejected.is(Error::ReplyTooLong, self@.guard)
                },
            },
    {
        if data.len() > self.size {
            return Ok(reply::reply_err(self.request, error::ERANGE));
        }
        reply::reply_ok(self.request, data)
    }
}

/// What is said of a request is said of its fields, each under its own name.
pub(crate) proof fn lemma_fields(request: Request)
    ensures
        match request {
            Request::Lookup(r) => {
                &&& request@ matches RequestView::Lookup(v)
                &&& v.guard.unique == r.request.unique && v.guard.order == r.request.order
                &&& v.parent == r.parent
                &&& v.file_name == r.file_name@
            },
            Request::Forget(r) => {
                &&& request@ matches RequestView::Forget(v)
                &&& v.guard.unique == r.request.unique && v.guard.order == r.request.order
                &&& v.inode == r.inode
                &&& v.count == r.count
            },
            Request::Getattr(r) => {
                &&& request@ matches RequestView::Getattr(v)
                &&& v.guard.unique == r.request.unique && v.guard.order == r.request.order
                &&& v.inode == r.inode
            },
            Request::Setattr(r) => {
                &&& request@ matches RequestView::Setattr(v)
                &&& v.guard.unique == r.request.unique && v.guard.order == r.request.order
                &&& v.inode == r.inode
                &&& v.fh == r.fh
                &&& v.to_set == r.to_set
                &&& v.stat == r.stat
            },
            Request::Statfs(r) => {
                &&& request@ matches RequestView::Statfs(v)
                &&& v.guard.unique == r.request.unique && v.guard.order == r.request.order
                &&& v.inode == r.inode
            },
            Request::Readdir(r) => {
                &&& request@ matches RequestView::Readdir(v)
                &&& v.guard.unique == r.request.unique && v.guard.order == r.request.order
                &&& v.inode == r.inode
                &&& v.offset == r.offset
                &&& v.reply_buffer == r.reply_buffer@
            },
            Request::ReaddirPlus(r) => {
                &&& request@ matches RequestView::ReaddirPlus(v)
                &&& v.guard.unique == r.request.unique && v.guard.order == r.request.order
                &&& v.inode == r.inode
                &&& v.offset == r.offset
                &&& v.reply_buffer == r.reply_buffer@
            },
            Request::Mkdir(r) => {
                &&& request@ matches RequestView::Mkdir(v)
                &&& v.guard.unique == r.request.unique && v.guard.order == r.request.order
                &&& v.parent == r.parent
                &&& v.dir_name == r.dir_name@
                &&& v.mode == r.mode
            },
            Request::Create(r) => {
                &&& request@ matches RequestView::Create(v)
                &&& v.guard.unique == r.request.unique && v.guard.order == r.request.order
                &&& v.parent == r.parent
                &&& v.file_name == r.file_name@
                &&& v.mode == r.mode
                &&& v.file_info == r.file_info@
            },
            Request::Mknod(r) => {
                &&& request@ matches RequestView::Mknod(v)
                &&& v.guard.unique == r.request.unique && v.guard.order == r.request.order
                &&& v.parent == r.parent
                &&& v.file_name == r.file_name@
                &&& v.mode == r.mode
                &&& v.dev == r.dev
            },
            Request::Open(r) => {
                &&& request@ matches RequestView::Open(v)
                &&& v.guard.unique == r.request.unique && v.guard.order == r.request.order
                &&& v.inode == r.inode
                &&& v.flags == r.flags
                &&& v.file_info == r.file_info@
            },
            Request::Release(r) => {
                &&& request@ matches RequestView::Release(v)
                &&& v.guard.unique == r.request.unique && v.guard.order == r.request.order
                &&& v.inode == r.inode
                &&& v.fh == r.fh
                &&& v.flags == r.flags
            },
            Request::Read(r) => {
                &&& request@ matches RequestView::Read(v)
                &&& v.guard.unique == r.request.unique && v.guard.order == r.request.order
                &&& v.inode == r.inode
                &&& v.fh == r.fh
                &&& v.size == r.size
                &&& v.offset == r.offset
            },
            Request::Unlink(r) => {
                &&& request@ matches RequestView::Unlink(v)
                &&& v.guard.unique == r.request.unique && v.guard.order == r.request.order
                &&& v.parent == r.parent
                &&& v.file_name == r.file_name@
            },
            Request::Rmdir(r) => {
                &&& request@ matches RequestView::Rmdir(v)
                &&& v.guard.unique == r.request.unique && v.guard.order == r.request.order
                &&& v.parent == r.parent
                &&& v.dir_name == r.dir_name@
            },
            Request::Write(r) => {
                &&& request@ matches RequestView::Write(v)
                &&& v.guard.unique == r.request.unique && v.guard.order == r.request.order
                &&& v.inode == r.inode
                &&& v.fh == r.fh
                &&& v.data_offset == r.data_offset
                &&& v.size == r.size
                &&& v.offset == r.offset
                &&& v.buffer == r.buffer@
            },
            Request::Readlink(r) => {
                &&& request@ matches RequestView::Readlink(v)
                &&& v.guard.unique == r.request.unique && v.guard.order == r.request.order
                &&& v.inode == r.inode
            },
            Request::Rename(r) => {
                &&& request@ matches RequestView::Rename(v)
                &&& v.guard.unique == r.request.unique && v.guard.order == r.request.order
                &&& v.parent == r.parent
                &&& v.name == r.name@
                &&& v.new_parent == r.new_parent
                &&& v.new_name == r.new_name@
                &&& v.flags == r.flags
            },
            Request::ListXAttrSize(r) => {
                &&& request@ matches RequestView::ListXAttrSize(v)
                &&& v.guard.unique == r.request.unique && v.guard.order == r.request.order
                &&& v.inode == r.inode
            },
            Request::ListXAttr(r) => {
                &&& request@ matches RequestView::ListXAttr(v)
                &&& v.guard.unique == r.request.unique && v.guard.order == r.request.order
                &&& v.inode == r.inode
                &&& v.size == r.size
                &&& v.response == r.response@
            },
            Request::GetXAttrSize(r) => {
                &&& request@ matches RequestView::GetXAttrSize(v)
                &&& v.guard.unique == r.request.unique && v.guard.order == r.request.order
                &&& v.inode == r.inode
                &&& v.attr_name == r.attr_name@
            },
            Request::GetXAttr(r) => {
                &&& request@ matches RequestView::GetXAttr(v)
                &&& v.guard.unique == r.request.unique && v.guard.order == r.request.order
                &&& v.inode == r.inode
                &&& v.attr_name == r.attr_name@
                &&& v.size == r.size
            },
        },
{
}

} // verus!
