//! Replies: the messages that answer a request, and what is owed when one cannot be delivered.
//!
//! Nothing here writes to the device. A reply function hands out the [`Reply`] whose message is
//! to be written; [`Reply::complete`] takes the outcome of that write and says what the caller
//! is told, and whether another message has to follow so that the kernel is not left waiting.

use vstd::prelude::*;
use vstd::string::StringExecFns;

use crate::cstring;
use crate::cstring::CString;
use crate::error;
use crate::error::Error;
use crate::protocol;
use crate::protocol::{FuseAttr, FuseAttrOut, FuseEntryOut, FuseGetxattrOut, FuseOutHeader};
use crate::sys::EntryParam;
use crate::util::{Stat, Timeout};
use crate::wire;
use crate::wire::{ByteOrder, Wire};

verus! {

/// Error type for reply methods where cancellation has semantic consequences.
///
/// When the kernel cancels a FUSE request (via `FUSE_INTERRUPT`), the reply write returns
/// `-ENOENT`. For most requests this is harmless, but for `Open`, `Create`, and `Lookup` it means:
///
/// - `Open`/`Create`: No `Release` event will arrive, so any allocated file handle must be cleaned
///   up immediately.
/// - `Lookup`: The lookup count was NOT incremented, so the caller must not expect a corresponding
///   `Forget`.
#[derive(Debug, Clone, Copy, PartialEq, Eq, Structural)]
pub enum ReplyError {
    /// The kernel cancelled the request before the reply could be delivered.
    Cancelled,
    /// An I/O error occurred while sending the reply.
    Io(Error),
}

impl ReplyError {
    /// What the error says of itself; `None` where the system words what went wrong.
    pub open spec fn text(self) -> Option<Seq<char>> {
        match self {
            ReplyError::Cancelled => Some("request was cancelled"@),
            ReplyError::Io(err) => match err.text() {
                Some(text) => Some("reply I/O error: "@ + text),
                None => None,
            },
        }
    }

    /// What the error says of itself; `None` where the system words what went wrong.
    pub fn message(&self) -> (r: Option<String>)
        ensures
            r is None <==> self.text() is None,
            r matches Some(s) ==> self.text() == Some(s@),
    {
        let mut s: String = String::new();
        match self {
            ReplyError::Cancelled => {
                s.append("request was cancelled");
                assert(s@ =~= "request was cancelled"@);
            },
            ReplyError::Io(err) => match err.message() {
                None => {
                    return None;
                },
                Some(text) => {
                    s.append("reply I/O error: ");
                    s.append(text.as_str());
                    assert(s@ =~= "reply I/O error: "@ + text@);
                },
            },
        }
        Some(s)
    }

    /// The error behind this one.
    pub fn source(&self) -> (r: Option<Error>)
        ensures
            r == (match *self {
                ReplyError::Cancelled => None,
                ReplyError::Io(err) => Some(err),
            }),
    {
        match self {
            ReplyError::Cancelled => None,
            ReplyError::Io(err) => Some(*err),
        }
    }
}

impl From<Error> for ReplyError {
    fn from(err: Error) -> (r: Self) {
        ReplyError::Io(err)
    }
}

impl vstd::std_specs::convert::FromSpecImpl<Error> for ReplyError {
    open spec fn obeys_from_spec() -> bool {
        true
    }

    open spec fn from_spec(err: Error) -> Self {
        ReplyError::Io(err)
    }
}

/// The bytes of a message that may be there.
pub open spec fn bytes_of(message: Option<Vec<u8>>) -> Option<Seq<u8>> {
    match message {
        Some(bytes) => Some(bytes@),
        None => None,
    }
}

/// Whether a body of `len` bytes can be sent: its length, with the header, has to fit a field of
/// 32 bits.
pub open spec fn fits(len: int) -> bool {
    16 + len <= u32::MAX
}

/// The message that answers request `unique` with `error` and `body`.
pub open spec fn message_of(order: ByteOrder, unique: u64, error: i32, body: Seq<u8>) -> Seq<u8> {
    FuseOutHeader { len: (16 + body.len()) as u32, error, unique }.to_wire(order) + body
}

/// The message that answers request `unique` with the error number `errno`.
pub open spec fn error_message_of(order: ByteOrder, unique: u64, errno: i32) -> Seq<u8> {
    message_of(order, unique, (-errno) as i32, Seq::empty())
}

/// What a [`RequestGuard`] stands for.
pub struct GuardView {
    /// The request to be answered; zero where it needs no answer any more.
    pub unique: u64,
    /// The byte order of the messages.
    pub order: ByteOrder,
}

impl GuardView {
    /// What has to be sent when the request is dropped without an answer.
    pub open spec fn on_drop(self) -> Option<Seq<u8>> {
        if self.unique == 0 {
            None
        } else {
            Some(error_message_of(self.order, self.unique, error::ENOSYS))
        }
    }

    /// The guard of a request that needs no answer any more.
    pub open spec fn disarmed(self) -> GuardView {
        GuardView { unique: 0, ..self }
    }

    /// The reply with `body`. The guard stays armed until it is delivered.
    pub open spec fn success(self, body: Seq<u8>) -> ReplyView {
        ReplyView {
            guard: self,
            cancellable: false,
            message: message_of(self.order, self.unique, 0, body),
        }
    }

    /// The reply with `body` to a request whose cancellation the caller has to know of.
    pub open spec fn cancellable_success(self, body: Seq<u8>) -> ReplyView {
        ReplyView { cancellable: true, ..self.success(body) }
    }

    /// The reply with error number `errno`. It is the last word on the request, delivered or not.
    pub open spec fn failure(self, errno: i32) -> ReplyView {
        ReplyView {
            guard: self.disarmed(),
            cancellable: false,
            message: error_message_of(self.order, self.unique, errno),
        }
    }
}

/// Stands for a request that is to be answered.
#[derive(Debug)]
pub struct RequestGuard {
    pub(crate) unique: u64,
    pub(crate) order: ByteOrder,
}

impl View for RequestGuard {
    type V = GuardView;

    open(crate) spec fn view(&self) -> GuardView {
        GuardView { unique: self.unique, order: self.order }
    }
}

impl RequestGuard {
    pub(crate) fn new(unique: u64, order: ByteOrder) -> (r: Self)
        ensures
            r@ == (GuardView { unique, order }),
    {
        RequestGuard { unique, order }
    }

    /// Consume the request and do not trigger the automatic `ENOSYS` response.
    ///
    /// The FUSE kernel protocol guarantees unique IDs are always non-zero, so 0 is a safe sentinel
    /// meaning "already replied / disarmed".
    pub fn disarm(self) -> (r: Self)
        ensures
            r@ == self@.disarmed(),
    {
        RequestGuard { unique: 0, order: self.order }
    }

    /// Drop the request: the message that has to be sent, unless it was disarmed.
    pub fn abandon(self) -> (r: Option<Vec<u8>>)
        ensures
            bytes_of(r) == self@.on_drop(),
    {
        if self.unique != 0 {
            Some(error_message(self.order, self.unique, error::ENOSYS))
        } else {
            None
        }
    }
}

/// A message consisting of a header plus a single contiguous body.
///
/// Writes to `/dev/fuse` are atomic: the kernel processes one complete message per write and
/// returns the full length or an error, so partial writes cannot occur.
pub fn reply_message(order: ByteOrder, unique: u64, error: i32, data: &[u8]) -> (r: Result<
    Vec<u8>,
    Error,
>)
    ensures
        r is Ok <==> fits(data@.len() as int),
        r matches Ok(message) ==> message@ == message_of(order, unique, error, data@),
        r matches Err(e) ==> e == Error::ReplyTooLong,
{
    if data.len() as u64 > 0xffff_ffef {
        return Err(Error::ReplyTooLong);
    }
    Ok(framed(order, unique, error, data))
}

/// `data` behind its header.
pub(crate) fn framed(order: ByteOrder, unique: u64, error: i32, data: &[u8]) -> (r: Vec<u8>)
    requires
        fits(data@.len() as int),
    ensures
        r@ == message_of(order, unique, error, data@),
{
    let len: u32 = 16 + data.len() as u32;
    let header = FuseOutHeader { len, error, unique };
    let mut message: Vec<u8> = wire::as_bytes(order, &header);
    message.extend_from_slice(data);
    assert(message@ =~= message_of(order, unique, error, data@));
    message
}

/// The bytes of all `slices`, one after the other.
pub open spec fn concat(slices: Seq<&[u8]>) -> Seq<u8>
    decreases slices.len(),
{
    if slices.len() == 0 {
        Seq::empty()
    } else {
        concat(slices.drop_last()) + slices.last()@
    }
}

/// A message with multiple data segments. Used by `Create::reply` (entry_out + open_out)
/// and `Read::reply_vectored`.
pub fn reply_message_vectored(
    order: ByteOrder,
    unique: u64,
    data_slices: &[&[u8]],
    data_len: usize,
) -> (r: Result<Vec<u8>, Error>)
    requires
        data_len == concat(data_slices@).len(),
    ensures
        r is Ok <==> fits(data_len as int),
        r matches Ok(message) ==> message@ == message_of(order, unique, 0, concat(data_slices@)),
        r matches Err(e) ==> e == Error::ReplyTooLong,
{
    if data_len as u64 > 0xffff_ffef {
        return Err(Error::ReplyTooLong);
    }
    Ok(framed_vectored(order, unique, data_slices, data_len))
}

/// All of `data_slices` behind their header.
pub(crate) fn framed_vectored(
    order: ByteOrder,
    unique: u64,
    data_slices: &[&[u8]],
    data_len: usize,
) -> (r: Vec<u8>)
    requires
        data_len == concat(data_slices@).len(),
        fits(data_len as int),
    ensures
        r@ == message_of(order, unique, 0, concat(data_slices@)),
{
    let len: u32 = 16 + data_len as u32;
    let header = FuseOutHeader { len, error: 0, unique };
    let mut message: Vec<u8> = wire::as_bytes(order, &header);
    let ghost head = message@;
    let mut i: usize = 0;
    assert(head + concat(data_slices@.take(0)) =~= head);
    while i < data_slices.len()
        invariant
            i <= data_slices@.len(),
            message@ == head + concat(data_slices@.take(i as int)),
        decreases data_slices@.len() - i,
    {
        let slice: &[u8] = data_slices[i];
        message.extend_from_slice(slice);
        assert(data_slices@.take(i + 1).drop_last() =~= data_slices@.take(i as int));
        assert(message@ =~= head + concat(data_slices@.take(i + 1)));
        i = i + 1;
    }
    assert(data_slices@.take(i as int) =~= data_slices@);
    message
}

/// A message that consists of a header with an error number.
pub fn error_message(order: ByteOrder, unique: u64, errno: i32) -> (r: Vec<u8>)
    requires
        errno != i32::MIN,
    ensures
        r@ == error_message_of(order, unique, errno),
{
    let header = FuseOutHeader { len: 16, error: -errno, unique };
    let message: Vec<u8> = wire::as_bytes(order, &header);
    assert(message@ =~= error_message_of(order, unique, errno));
    message
}

/// A message says its own length, the request that it answers and with what error; its body
/// stands behind that.
pub proof fn lemma_message_read_back(order: ByteOrder, unique: u64, error: i32, body: Seq<u8>)
    requires
        fits(body.len() as int),
    ensures
        ({
            let message = message_of(order, unique, error, body);
            let header = FuseOutHeader::from_wire(order, message);
            &&& header.len == message.len()
            &&& header.error == error
            &&& header.unique == unique
            &&& message.skip(16) == body
        }),
{
    let header = FuseOutHeader { len: (16 + body.len()) as u32, error, unique };
    header.lemma_size(order);
    header.lemma_decode_encode(order, body);
    assert(message_of(order, unique, error, body).skip(16) =~= body);
}

/// Every reply is addressed to its request: read back, it names the request's number, and no error
/// or the one that it was given.
pub proof fn lemma_replies_addressed(guard: GuardView, body: Seq<u8>, errno: i32)
    requires
        fits(body.len() as int),
        errno != i32::MIN,
    ensures
        ({
            let ok = FuseOutHeader::from_wire(guard.order, guard.success(body).message);
            let failed = FuseOutHeader::from_wire(guard.order, guard.failure(errno).message);
            &&& ok.unique == guard.unique && ok.error == 0
            &&& failed.unique == guard.unique && failed.error == -errno
            &&& guard.success(body).message.skip(16) == body
        }),
{
    lemma_message_read_back(guard.order, guard.unique, 0, body);
    lemma_message_read_back(guard.order, guard.unique, (-errno) as i32, Seq::empty());
}

/// What the caller of a reply method is told of the write's `result`, where cancellation matters.
pub open spec fn cancellable_of(result: Result<(), Error>) -> Result<(), ReplyError> {
    match result {
        Ok(_) => Ok(()),
        Err(err) => if err.errno() == Some(error::ENOENT) {
            Err(ReplyError::Cancelled)
        } else {
            Err(ReplyError::Io(err))
        },
    }
}

/// Map a reply I/O result to a `ReplyError`, detecting cancellation.
///
/// The FUSE kernel returns `ENOENT` when a request was interrupted before the reply
/// could be delivered.
pub fn cancellable(result: Result<(), Error>) -> (r: Result<(), ReplyError>)
    ensures
        r == cancellable_of(result),
{
    match result {
        Ok(()) => Ok(()),
        Err(err) => match err.raw_os_error() {
            Some(errno) => if errno == error::ENOENT {
                Err(ReplyError::Cancelled)
            } else {
                Err(ReplyError::Io(err))
            },
            None => Err(ReplyError::Io(err)),
        },
    }
}

/// What a [`Reply`] stands for.
pub struct ReplyView {
    /// What is left of the request while the message is on its way.
    pub guard: GuardView,
    /// Whether the caller has to know of a cancellation.
    pub cancellable: bool,
    /// What is to be written.
    pub message: Seq<u8>,
}

impl ReplyView {
    /// What the caller is told when the write came out as `written`.
    pub open spec fn result(self, written: Result<(), Error>) -> Result<(), ReplyError> {
        if self.cancellable {
            cancellable_of(written)
        } else {
            match written {
                Ok(_) => Ok(()),
                Err(err) => Err(ReplyError::Io(err)),
            }
        }
    }

    /// What has to be written next when the write came out as `written`: the automatic answer of
    /// a request that is still armed, unless the kernel got this one or waits for none.
    pub open spec fn followup(self, written: Result<(), Error>) -> Option<Seq<u8>> {
        match self.result(written) {
            Ok(_) => None,
            Err(ReplyError::Cancelled) => None,
            Err(ReplyError::Io(_)) => self.guard.on_drop(),
        }
    }
}

/// A reply on its way to the kernel.
#[must_use]
#[derive(Debug)]
pub struct Reply {
    pub(crate) guard: RequestGuard,
    pub(crate) cancellable: bool,
    pub(crate) message: Vec<u8>,
}

impl View for Reply {
    type V = ReplyView;

    open(crate) spec fn view(&self) -> ReplyView {
        ReplyView {
            guard: self.guard@,
            cancellable: self.cancellable,
            message: self.message@,
        }
    }
}

/// What a reply method leaves behind when its message was written or refused.
#[must_use]
#[derive(Debug)]
pub struct Completion {
    /// What the caller is told.
    pub result: Result<(), ReplyError>,
    /// A message that has to be written next, whatever becomes of it.
    pub followup: Option<Vec<u8>>,
}

impl Reply {
    /// The message that is to be written.
    pub fn message(&self) -> (r: &[u8])
        ensures
            r@ == self@.message,
    {
        self.message.as_slice()
    }

    /// Takes note of how the write of the message came out.
    pub fn complete(self, written: Result<(), Error>) -> (r: Completion)
        ensures
            r.result == self@.result(written),
            bytes_of(r.followup) == self@.followup(written),
    {
        let result: Result<(), ReplyError> = if self.cancellable {
            cancellable(written)
        } else {
            match written {
                Ok(()) => Ok(()),
                Err(err) => Err(ReplyError::Io(err)),
            }
        };
        let followup: Option<Vec<u8>> = match result {
            Ok(()) => None,
            Err(ReplyError::Cancelled) => None,
            Err(ReplyError::Io(_)) => self.guard.abandon(),
        };
        Completion { result, followup }
    }
}

/// A reply that cannot be made. The request is dropped.
#[must_use]
#[derive(Debug)]
pub struct Rejected {
    /// What the caller is told.
    pub error: Error,
    /// The message that has to be written for the dropped request.
    pub fallback: Option<Vec<u8>>,
}

impl Rejected {
    /// Whether this is the rejection with `error` of a request with guard `guard`.
    pub open spec fn is(self, error: Error, guard: GuardView) -> bool {
        &&& self.error == error
        &&& bytes_of(self.fallback) == guard.on_drop()
    }

    pub(crate) fn new(error: Error, guard: RequestGuard) -> (r: Self)
        ensures
            r.is(error, guard@),
    {
        Rejected { error, fallback: guard.abandon() }
    }
}

/// `name` with a terminating zero.
pub(crate) fn name_to_cstring(name: &[u8]) -> (r: Result<CString, Error>)
    ensures
        r is Ok <==> cstring::no_nul(name@),
        r matches Ok(c) ==> c@ == name@,
        r matches Err(e) ==> e == Error::InvalidFileName,
{
    match CString::new(name) {
        Some(c) => Ok(c),
        None => Err(Error::InvalidFileName),
    }
}

/// The reply with error number `errno`.
pub(crate) fn reply_err(request: RequestGuard, errno: i32) -> (r: Reply)
    requires
        errno != i32::MIN,
    ensures
        r@ == request@.failure(errno),
{
    let message: Vec<u8> = error_message(request.order, request.unique, errno);
    Reply { guard: request.disarm(), cancellable: false, message }
}

/// The reply with `data`.
pub(crate) fn reply_ok(request: RequestGuard, data: &[u8]) -> (r: Result<Reply, Rejected>)
    ensures
        r is Ok <==> fits(data@.len() as int),
        r matches Ok(reply) ==> reply@ == request@.success(data@),
        r matches Err(rejected) ==> rejected.is(Error::ReplyTooLong, request@),
{
    match reply_message(request.order, request.unique, 0, data) {
        Ok(message) => Ok(Reply { guard: request, cancellable: false, message }),
        Err(err) => Err(Rejected::new(err, request)),
    }
}

/// The reply with structure `out`.
pub(crate) fn reply_struct<T: Wire>(request: RequestGuard, out: &T) -> (r: Reply)
    requires
        fits(T::wire_size() as int),
    ensures
        r@ == request@.success(out.to_wire(request@.order)),
{
    let data: Vec<u8> = wire::as_bytes(request.order, out);
    let message: Vec<u8> = framed(request.order, request.unique, 0, data.as_slice());
    Reply { guard: request, cancellable: false, message }
}

/// The reply that says no more than that the request succeeded.
pub(crate) fn reply_empty(request: RequestGuard) -> (r: Reply)
    ensures
        r@ == request@.success(Seq::empty()),
{
    let data: Vec<u8> = Vec::new();
    let message: Vec<u8> = framed(request.order, request.unique, 0, data.as_slice());
    Reply { guard: request, cancellable: false, message }
}

/// The reply with a size of extended attributes.
pub(crate) fn reply_xattr_size(request: RequestGuard, size: usize) -> (r: Result<Reply, Rejected>)
    ensures
        r is Ok <==> size <= u32::MAX,
        r matches Ok(reply) ==> reply@ == request@.success(
            (FuseGetxattrOut { size: size as u32, padding: 0 }).to_wire(request@.order),
        ),
        r matches Err(rejected) ==> rejected.is(Error::XattrSizeTooLarge, request@),
{
    if size as u64 > u32::MAX as u64 {
        return Err(Rejected::new(Error::XattrSizeTooLarge, request));
    }
    let out = FuseGetxattrOut { size: size as u32, padding: 0 };
    Ok(reply_struct(request, &out))
}

/// The reply with a directory entry.
pub(crate) fn reply_entry(request: RequestGuard, entry: &EntryParam) -> (r: Reply)
    ensures
        r@ == request@.success(protocol::entry_out_of(*entry).to_wire(request@.order)),
        entry.valid(),
{
    let entry_out: FuseEntryOut = protocol::entry_out_from_param(entry);
    reply_struct(request, &entry_out)
}

/// The attributes that a reply carries, valid for `timeout`.
pub open spec fn attr_out_of(stat: Stat, timeout: Timeout) -> FuseAttrOut {
    FuseAttrOut {
        attr_valid: timeout@.secs,
        attr_valid_nsec: timeout@.nsec,
        dummy: 0,
        attr: FuseAttr::of_stat(stat),
    }
}

/// The reply with attributes.
pub(crate) fn reply_attr(request: RequestGuard, stat: &Stat, timeout: Timeout) -> (r: Reply)
    ensures
        r@ == request@.success(attr_out_of(*stat, timeout).to_wire(request@.order)),
        timeout@.valid(),
{
    let attr_out = FuseAttrOut {
        attr_valid: timeout.secs(),
        attr_valid_nsec: timeout.nsec(),
        dummy: 0,
        attr: FuseAttr::from_stat(stat),
    };
    reply_struct(request, &attr_out)
}

/// The reply with structure `out` to a request whose cancellation the caller has to know of.
pub(crate) fn reply_ok_cancellable<T: Wire>(request: RequestGuard, out: &T) -> (r: Reply)
    requires
        fits(T::wire_size() as int),
    ensures
        r@ == request@.cancellable_success(out.to_wire(request@.order)),
{
    let reply = reply_struct(request, out);
    Reply { guard: reply.guard, cancellable: true, message: reply.message }
}

/// Whatever becomes of the write, the kernel is not left waiting for an answer to an armed
/// request: it got this one, or it cancelled the request, or the automatic answer follows.
pub proof fn lemma_answered(reply: ReplyView, written: Result<(), Error>)
    requires
        reply.guard.unique != 0,
    ensures
        ({
            ||| written is Ok && reply.followup(written) is None
            ||| reply.cancellable && written == Err::<(), Error>(Error::Os(error::ENOENT))
                && reply.followup(written) is None
            ||| reply.followup(written) == Some(
                error_message_of(reply.guard.order, reply.guard.unique, error::ENOSYS),
            )
        }),
{
}

/// No second message follows one that was delivered, nor an error reply, delivered or not.
pub proof fn lemma_answered_once(reply: ReplyView, written: Result<(), Error>)
    requires
        written is Ok || reply.guard.unique == 0,
    ensures
        reply.followup(written) is None,
{
}

} // verus!
