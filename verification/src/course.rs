//! What a session does, call by call, from its description to its end.
//!
//! `call_ensures(f, args, r)` says that `f`, called with `args`, can give back `r`.

use std::sync::Arc;

use vstd::prelude::*;
use vstd::utf8::{decode_utf8, valid_utf8};

use crate::answers;
use crate::cstring::CString;
use crate::error::Error;
use crate::message;
use crate::protocol::{FuseInitIn, FuseInitOut, Opcode};
use crate::received;
use crate::reply::{GuardView, Rejected};
use crate::requests::{Request, RequestView};
use crate::sent;
use crate::session;
use crate::session::{
    AfterRead, EnabledOps, Fuse, FuseSession, FuseSessionBuilder, FuseView, Next, ReadOutcome,
    SessionView, Step, StepView,
};
use crate::wire;
use crate::wire::{ByteOrder, Wire};

verus! {

/// A description starts with its name, no options, and lookup, forget and getattr enabled.
pub proof fn lemma_builder(name: &str, r: FuseSessionBuilder)
    requires
        call_ensures(Fuse::builder, (name,), r),
    ensures
        r@.name == name@,
        r@.options.len() == 0,
        r@.ops.lookup && r@.ops.forget && r@.ops.getattr,
        !r@.ops.setattr,
        !r@.ops.statfs,
        !r@.ops.readdir,
        !r@.ops.readdirplus,
        !r@.ops.mkdir,
        !r@.ops.create,
        !r@.ops.mknod,
        !r@.ops.open,
        !r@.ops.release,
        !r@.ops.read,
        !r@.ops.write,
        !r@.ops.unlink,
        !r@.ops.rmdir,
        !r@.ops.rename,
        !r@.ops.readlink,
        !r@.ops.listxattr,
        !r@.ops.getxattr,
{
}

/// Whether `after` is `before` but for its operations, which are `ops`.
pub open spec fn only_ops(before: SessionView, after: SessionView, ops: EnabledOps) -> bool {
    &&& after.name == before.name
    &&& after.options == before.options
    &&& after.ops == ops
}

/// Each way to enable operations enables what it says, and changes nothing else.
pub proof fn lemma_enable(b: FuseSessionBuilder, r: FuseSessionBuilder)
    ensures
        call_ensures(FuseSessionBuilder::enable_readdir, (b,), r) ==> only_ops(
            b@,
            r@,
            (EnabledOps { readdir: true, ..b@.ops }),
        ),
        call_ensures(FuseSessionBuilder::enable_readdirplus, (b,), r) ==> only_ops(
            b@,
            r@,
            (EnabledOps { readdirplus: true, lookup: true, forget: true, ..b@.ops }),
        ),
        call_ensures(FuseSessionBuilder::enable_mkdir, (b,), r) ==> only_ops(
            b@,
            r@,
            (EnabledOps { mkdir: true, ..b@.ops }),
        ),
        call_ensures(FuseSessionBuilder::enable_create, (b,), r) ==> only_ops(
            b@,
            r@,
            (EnabledOps { create: true, open: true, release: true, ..b@.ops }),
        ),
        call_ensures(FuseSessionBuilder::enable_mknod, (b,), r) ==> only_ops(
            b@,
            r@,
            (EnabledOps { mknod: true, ..b@.ops }),
        ),
        call_ensures(FuseSessionBuilder::enable_open, (b,), r) ==> only_ops(
            b@,
            r@,
            (EnabledOps { open: true, release: true, ..b@.ops }),
        ),
        call_ensures(FuseSessionBuilder::enable_setattr, (b,), r) ==> only_ops(
            b@,
            r@,
            (EnabledOps { setattr: true, ..b@.ops }),
        ),
        call_ensures(FuseSessionBuilder::enable_statfs, (b,), r) ==> only_ops(
            b@,
            r@,
            (EnabledOps { statfs: true, ..b@.ops }),
        ),
        call_ensures(FuseSessionBuilder::enable_unlink, (b,), r) ==> only_ops(
            b@,
            r@,
            (EnabledOps { unlink: true, ..b@.ops }),
        ),
        call_ensures(FuseSessionBuilder::enable_rmdir, (b,), r) ==> only_ops(
            b@,
            r@,
            (EnabledOps { rmdir: true, ..b@.ops }),
        ),
        call_ensures(FuseSessionBuilder::enable_rename, (b,), r) ==> only_ops(
            b@,
            r@,
            (EnabledOps { rename: true, ..b@.ops }),
        ),
        call_ensures(FuseSessionBuilder::enable_read, (b,), r) ==> only_ops(
            b@,
            r@,
            (EnabledOps { read: true, ..b@.ops }),
        ),
        call_ensures(FuseSessionBuilder::enable_write, (b,), r) ==> only_ops(
            b@,
            r@,
            (EnabledOps { write: true, ..b@.ops }),
        ),
        call_ensures(FuseSessionBuilder::enable_readlink, (b,), r) ==> only_ops(
            b@,
            r@,
            (EnabledOps { readlink: true, ..b@.ops }),
        ),
        call_ensures(FuseSessionBuilder::enable_read_xattr, (b,), r) ==> only_ops(
            b@,
            r@,
            (EnabledOps { listxattr: true, getxattr: true, ..b@.ops }),
        ),
{
}

/// Whether `after` is `before` with `option` behind its options.
pub open spec fn one_more_option(
    before: SessionView,
    after: SessionView,
    option: Seq<char>,
) -> bool {
    &&& after.name == before.name
    &&& after.ops == before.ops
    &&& after.options.len() == before.options.len() + 1
    &&& after.options.drop_last() == before.options
    &&& after.options.last() == option
}

/// An option is added behind the others.
pub proof fn lemma_option(b: FuseSessionBuilder, option: &str, r: FuseSessionBuilder)
    requires
        call_ensures(FuseSessionBuilder::options, (b, option), r),
    ensures
        one_more_option(b@, r@, option@),
{
    assert(b@.options.push(option@).drop_last() =~= b@.options);
}

/// An option in bytes is added as the text that it encodes, and refused where it encodes none.
pub proof fn lemma_option_os(
    b: FuseSessionBuilder,
    option: &[u8],
    r: Result<FuseSessionBuilder, Error>,
)
    requires
        call_ensures(FuseSessionBuilder::options_os, (b, option), r),
    ensures
        match r {
            Ok(added) => valid_utf8(option@) && one_more_option(
                b@,
                added@,
                decode_utf8(option@),
            ),
            Err(err) => !valid_utf8(option@) && err == Error::OptionNotUtf8,
        },
{
    assert(b@.options.push(decode_utf8(option@)).drop_last() =~= b@.options);
}

/// The same of a terminated string.
pub proof fn lemma_option_c(
    b: FuseSessionBuilder,
    option: CString,
    r: Result<FuseSessionBuilder, Error>,
)
    requires
        call_ensures(FuseSessionBuilder::options_c, (b, option), r),
    ensures
        match r {
            Ok(added) => valid_utf8(option@) && one_more_option(
                b@,
                added@,
                decode_utf8(option@),
            ),
            Err(err) => !valid_utf8(option@) && err == Error::OptionNotUtf8,
        },
{
    assert(b@.options.push(decode_utf8(option@)).drop_last() =~= b@.options);
}

/// The session is the one that was described; it gives back its name and options.
pub proof fn lemma_build(
    b: FuseSessionBuilder,
    r: FuseSession,
    s: &FuseSession,
    name: &str,
    options: &[String],
)
    requires
        call_ensures(FuseSessionBuilder::build, (b,), r),
        call_ensures(FuseSession::name, (s,), name),
        call_ensures(FuseSession::options, (s,), options),
    ensures
        r@.name == b@.name,
        r@.options == b@.options,
        r@.ops == b@.ops,
        name@ == s@.name,
        options@.len() == s@.options.len(),
        forall|i: int| 0 <= i < options@.len() ==> (#[trigger] options@[i])@ == s@.options[i],
{
    lemma_texts(options@);
}

/// The characters of each string, in their order.
pub proof fn lemma_texts(strings: Seq<String>)
    ensures
        session::texts(strings).len() == strings.len(),
        forall|i: int|
            0 <= i < strings.len() ==> #[trigger] session::texts(strings)[i] == strings[i]@,
{
}

/// A session starts before its handshake, with nothing waiting. What it opens it releases, and it
/// always takes lookups, forgets and requests for attributes.
pub proof fn lemma_start(s: FuseSession, order: ByteOrder, r: Fuse)
    requires
        call_ensures(FuseSession::start, (s, order), r),
    ensures
        r@.ops == s@.ops,
        r@.order == order,
        r@.pending.len() == 0,
        !r@.handshaking && !r@.init_done && !r@.finished,
        r@.ops.lookup && r@.ops.forget && r@.ops.getattr,
        r@.ops.open == r@.ops.release,
        r@.ops.create ==> r@.ops.open,
        r@.ops.listxattr == r@.ops.getxattr,
{
}

/// Whether the message in the first `nbytes` of `buffer` says that it is as long, and has opcode
/// `code`.
pub open spec fn is_framed(state: FuseView, buffer: Seq<u8>, nbytes: nat, code: u32) -> bool {
    &&& 40 <= nbytes <= buffer.len()
    &&& wire::u32_at(state.order, buffer, 0) == nbytes
    &&& wire::u32_at(state.order, buffer, 4) == code
}

/// After the handshake, a message for an enabled operation waits as the request that is in its
/// body. Where the body is not right, that is told, and the number is answered with `ENOSYS`.
pub proof fn lemma_process_enabled(
    fuse: &mut Fuse,
    buf: &Arc<Vec<u8>>,
    nbytes: usize,
    page_size: i64,
    opcode: Opcode,
    r: Step,
)
    requires
        call_ensures(Fuse::process_request, (fuse, buf, nbytes, page_size), r),
        is_framed(old(fuse)@, buf@, nbytes as nat, opcode.code()),
        old(fuse)@.init_done,
        opcode.is_request(),
        old(fuse)@.ops.accepts(opcode),
    ensures
        ({
            let (before, after) = (old(fuse)@, final(fuse)@);
            let unique = wire::u64_at(before.order, buf@, 8);
            let guard = GuardView { unique, order: before.order };
            let nodeid = wire::u64_at(before.order, buf@, 16);
            let body = buf@.subrange(40, nbytes as int);
            &&& after.init_done && after.finished == before.finished
            &&& r matches Step::Done { answer, result }
            &&& match message::requested(opcode, guard, nodeid, body, buf@) {
                Ok(request) => {
                    &&& after.pending == before.pending.push(request)
                    &&& answer is None
                    &&& result is Ok
                },
                Err(err) => {
                    &&& after.pending == before.pending
                    &&& result == Err::<(), Error>(err)
                    &&& answer is None <==> unique == 0
                    &&& answer matches Some(m) ==> received::is_error_message(
                        m@,
                        before.order,
                        unique,
                        38,
                    )
                },
            }
        }),
{
    received::lemma_enabled_message(old(fuse)@, buf@, nbytes as nat, page_size, opcode);
}

/// A read comes through from the bytes of its message to the request that waits.
pub proof fn lemma_process_read(
    fuse: &mut Fuse,
    buf: &Arc<Vec<u8>>,
    nbytes: usize,
    page_size: i64,
    r: Step,
)
    requires
        call_ensures(Fuse::process_request, (fuse, buf, nbytes, page_size), r),
        is_framed(old(fuse)@, buf@, nbytes as nat, 15),
        old(fuse)@.init_done,
        old(fuse)@.ops.read,
        nbytes >= 80,
    ensures
        ({
            let order = old(fuse)@.order;
            &&& r matches Step::Done { answer, result }
            &&& answer is None && result is Ok
            &&& final(fuse)@.pending.len() == old(fuse)@.pending.len() + 1
            &&& final(fuse)@.pending.last() matches RequestView::Read(read)
            &&& read.guard.unique == wire::u64_at(order, buf@, 8)
            &&& read.inode == wire::u64_at(order, buf@, 16)
            &&& read.fh == wire::u64_at(order, buf@, 40)
            &&& read.offset == wire::u64_at(order, buf@, 48)
            &&& read.size == wire::u32_at(order, buf@, 56)
        }),
{
    let order = old(fuse)@.order;
    received::lemma_opcode_numbers(15);
    lemma_process_enabled(fuse, buf, nbytes, page_size, Opcode::Read, r);
    let guard = GuardView { unique: wire::u64_at(order, buf@, 8), order };
    let body = buf@.subrange(40, nbytes as int);
    received::lemma_read_bytes(guard, wire::u64_at(order, buf@, 16), body, buf@);
    assert(body.subrange(0, 8) =~= buf@.subrange(40, 48));
    assert(body.subrange(8, 16) =~= buf@.subrange(48, 56));
    assert(body.subrange(16, 20) =~= buf@.subrange(56, 60));
}

/// After the handshake, a message that is not taken is answered with `ENOSYS`, and changes nothing.
pub proof fn lemma_process_refused(
    fuse: &mut Fuse,
    buf: &Arc<Vec<u8>>,
    nbytes: usize,
    page_size: i64,
    code: u32,
    r: Step,
)
    requires
        call_ensures(Fuse::process_request, (fuse, buf, nbytes, page_size), r),
        is_framed(old(fuse)@, buf@, nbytes as nat, code),
        old(fuse)@.init_done,
        code != 2 && code != 38 && code != 42,
        forall|opcode: Opcode| #[trigger]
            opcode.code() == code ==> !old(fuse)@.ops.accepts(opcode),
    ensures
        final(fuse)@ == old(fuse)@,
        (r matches Step::Done { answer, result } && {
            &&& result is Ok
            &&& answer is None <==> wire::u64_at(old(fuse)@.order, buf@, 8) == 0
            &&& answer matches Some(m) ==> received::is_error_message(
                m@,
                old(fuse)@.order,
                wire::u64_at(old(fuse)@.order, buf@, 8),
                38,
            )
        }),
{
    received::lemma_refused_message(old(fuse)@, buf@, nbytes as nat, page_size);
}

/// A message that is not as long as it says, or too short for a header, is told and dropped.
pub proof fn lemma_process_bad_length(
    fuse: &mut Fuse,
    buf: &Arc<Vec<u8>>,
    nbytes: usize,
    page_size: i64,
    r: Step,
)
    requires
        call_ensures(Fuse::process_request, (fuse, buf, nbytes, page_size), r),
        nbytes <= buf@.len(),
        nbytes < 40 || wire::u32_at(old(fuse)@.order, buf@, 0) != nbytes,
    ensures
        final(fuse)@ == old(fuse)@,
        (r matches Step::Done { answer, result } && {
            &&& answer is None
            &&& nbytes < 40 ==> result == Err::<(), Error>(Error::ShortRead)
            &&& nbytes >= 40 ==> result == Err::<(), Error>(
                Error::LengthMismatch {
                    stated: wire::u32_at(old(fuse)@.order, buf@, 0),
                    nbytes,
                },
            )
        }),
{
    received::lemma_bad_length(old(fuse)@, buf@, nbytes as nat, page_size);
}

/// Opcode 38 ends the reading.
pub proof fn lemma_process_destroy(
    fuse: &mut Fuse,
    buf: &Arc<Vec<u8>>,
    nbytes: usize,
    page_size: i64,
    r: Step,
)
    requires
        call_ensures(Fuse::process_request, (fuse, buf, nbytes, page_size), r),
        is_framed(old(fuse)@, buf@, nbytes as nat, 38),
        old(fuse)@.init_done,
    ensures
        final(fuse)@.finished,
        final(fuse)@.pending == old(fuse)@.pending,
        (r matches Step::Done { answer, result } && answer is None && result is Ok),
{
    received::lemma_destroy_message(old(fuse)@, buf@, nbytes as nat, page_size);
}

/// Forgets wait where they are enabled, one or all that are there, and are never answered.
pub proof fn lemma_process_forget(
    fuse: &mut Fuse,
    buf: &Arc<Vec<u8>>,
    nbytes: usize,
    page_size: i64,
    code: u32,
    r: Step,
)
    requires
        call_ensures(Fuse::process_request, (fuse, buf, nbytes, page_size), r),
        is_framed(old(fuse)@, buf@, nbytes as nat, code),
        old(fuse)@.init_done,
        old(fuse)@.ops.forget,
        code == 2 || code == 42,
    ensures
        ({
            let (before, after) = (old(fuse)@, final(fuse)@);
            let order = before.order;
            let body = buf@.subrange(40, nbytes as int);
            let added = after.pending.skip(before.pending.len() as int);
            &&& r matches Step::Done { answer, result }
            &&& answer is None
            &&& after.pending.take(before.pending.len() as int) == before.pending
            &&& nbytes < 48 ==> added.len() == 0 && received::cut_off(
                result,
                8,
                (nbytes - 40) as nat,
            )
            &&& nbytes >= 48 ==> result is Ok
            &&& nbytes >= 48 && code == 2 ==> {
                &&& added.len() == 1
                &&& added[0] matches RequestView::Forget(forget)
                &&& forget.inode == wire::u64_at(order, buf@, 16)
                &&& forget.count == wire::u64_at(order, body, 0)
            }
            &&& nbytes >= 48 && code == 42 ==> {
                let announced = wire::u32_at(order, body, 0);
                &&& added.len() <= announced
                &&& 48 + 16 * added.len() <= nbytes
                &&& added.len() < announced ==> 48 + 16 * (added.len() + 1) > nbytes
                &&& forall|i: int|
                    0 <= i < added.len() ==> received::is_batch_entry(
                        #[trigger] added[i],
                        order,
                        body,
                        i,
                    )
            }
        }),
{
    let state = old(fuse)@;
    let body = buf@.subrange(40, nbytes as int);
    let guard = GuardView { unique: wire::u64_at(state.order, buf@, 8), order: state.order };
    let nodeid = wire::u64_at(state.order, buf@, 16);
    received::lemma_forget_messages(state, buf@, nbytes as nat, page_size);
    received::lemma_forget_bytes(guard, nodeid, body);
    received::lemma_batch_bytes(state.order, body);
    let after = final(fuse)@.pending;
    let n = state.pending.len() as int;
    assert(after.take(n) =~= state.pending);
    if let Ok(requests) = message::batch_requested(state.order, body) {
        if code == 42 {
            assert(after.skip(n) =~= requests);
        }
    }
}

/// The first message has to be opcode 26 in version 7 of the protocol. It is answered with what
/// was agreed on, under the number that it came with; anything else is told and not answered.
pub proof fn lemma_process_first(
    fuse: &mut Fuse,
    buf: &Arc<Vec<u8>>,
    nbytes: usize,
    page_size: i64,
    code: u32,
    r: Step,
)
    requires
        call_ensures(Fuse::process_request, (fuse, buf, nbytes, page_size), r),
        is_framed(old(fuse)@, buf@, nbytes as nat, code),
        !old(fuse)@.init_done,
    ensures
        ({
            let order = old(fuse)@.order;
            let offer = code == 26 && nbytes >= 104 && wire::u32_at(order, buf@, 40) == 7;
            &&& !final(fuse)@.init_done
            &&& final(fuse)@.pending == old(fuse)@.pending
            &&& final(fuse)@.handshaking == (old(fuse)@.handshaking || offer)
            &&& match r {
                Step::Handshake { reply } => {
                    &&& offer
                    &&& reply@.len() == 80
                    &&& wire::u32_at(order, reply@, 0) == 80
                    &&& wire::i32_at(order, reply@, 4) == 0
                    &&& wire::u64_at(order, reply@, 8) == wire::u64_at(order, buf@, 8)
                    &&& FuseInitOut::from_wire(order, reply@.skip(16)) == session::negotiated(
                        FuseInitIn::from_wire(order, buf@.subrange(40, nbytes as int)),
                        old(fuse)@.ops,
                        page_size,
                    )
                },
                Step::Done { answer, result } => {
                    &&& !offer
                    &&& answer is None
                    &&& code != 26 ==> result == Err::<(), Error>(Error::NotInit { opcode: code })
                    &&& code == 26 && nbytes < 104 ==> received::cut_off(
                        result,
                        64,
                        (nbytes - 40) as nat,
                    )
                    &&& code == 26 && nbytes >= 104 ==> result == Err::<(), Error>(
                        Error::UnsupportedMajor { major: wire::u32_at(order, buf@, 40) },
                    )
                },
            }
        }),
{
    received::lemma_first_message(old(fuse)@, buf@, nbytes as nat, page_size);
}

/// The handshake is done once its reply was written, and only then.
pub proof fn lemma_init_replied(
    fuse: &mut Fuse,
    written: Result<(), Error>,
    r: Result<(), Error>,
)
    requires
        call_ensures(Fuse::init_replied, (fuse, written), r),
    ensures
        r == written,
        final(fuse)@.init_done == (old(fuse)@.init_done || (old(fuse)@.handshaking
            && written is Ok)),
        final(fuse)@.handshaking == (old(fuse)@.handshaking && written is Err),
        final(fuse)@.ops == old(fuse)@.ops,
        final(fuse)@.order == old(fuse)@.order,
        final(fuse)@.pending == old(fuse)@.pending,
        final(fuse)@.finished == old(fuse)@.finished,
{
}

/// Requests are yielded in the order in which they came, and the end comes only behind them.
pub proof fn lemma_next(fuse: &mut Fuse, r: Next)
    requires
        call_ensures(Fuse::next, (fuse,), r),
    ensures
        ({
            let (before, after) = (old(fuse)@, final(fuse)@);
            &&& after.ops == before.ops && after.order == before.order
            &&& after.handshaking == before.handshaking
            &&& after.init_done == before.init_done
            &&& after.finished == before.finished
            &&& match r {
                Next::Yield(request) => before.pending == seq![request@] + after.pending,
                Next::End => before.pending.len() == 0 && after.pending.len() == 0
                    && before.finished,
                Next::Wait => before.pending.len() == 0 && after.pending.len() == 0
                    && !before.finished,
            }
        }),
{
    if let Next::Yield(request) = r {
        assert(old(fuse)@.pending =~= seq![request@] + old(fuse)@.pending.drop_first());
    }
}

/// Nothing more is read once the connection is lost; what waits stays.
pub proof fn lemma_connection_lost(fuse: &mut Fuse, asked: &Fuse, r: bool)
    requires
        call_ensures(Fuse::connection_lost, (fuse,), ()),
        call_ensures(Fuse::is_terminated, (asked,), r),
    ensures
        final(fuse)@.finished,
        final(fuse)@.pending == old(fuse)@.pending,
        final(fuse)@.ops == old(fuse)@.ops,
        final(fuse)@.order == old(fuse)@.order,
        final(fuse)@.init_done == old(fuse)@.init_done,
        final(fuse)@.handshaking == old(fuse)@.handshaking,
        r == asked@.finished,
{
}

/// The stream ends where nothing was read, and with error numbers 19 and 103. Every other error is
/// yielded, and every message is processed.
pub proof fn lemma_read_done(fuse: &mut Fuse, outcome: ReadOutcome, r: AfterRead)
    requires
        call_ensures(Fuse::read_done, (fuse, outcome), r),
    ensures
        r is End <==> outcome == ReadOutcome::Bytes(0) || outcome == ReadOutcome::Failed(
            Error::Os(19),
        ) || outcome == ReadOutcome::Failed(Error::Os(103)),
        r is Retry <==> outcome is WouldBlock,
        r matches AfterRead::Process(n) ==> outcome == ReadOutcome::Bytes(n),
        r matches AfterRead::Yield(err) ==> outcome == ReadOutcome::Failed(err),
        final(fuse)@.finished == (old(fuse)@.finished || r is End),
        final(fuse)@.pending == old(fuse)@.pending,
        final(fuse)@.ops == old(fuse)@.ops,
        final(fuse)@.order == old(fuse)@.order,
        final(fuse)@.init_done == old(fuse)@.init_done,
        final(fuse)@.handshaking == old(fuse)@.handshaking,
{
}

/// A session that is dropped while requests wait answers each of them, in their order, if all of
/// them are owed an answer.
pub proof fn lemma_abandon(fuse: Fuse, r: Vec<Vec<u8>>)
    requires
        call_ensures(Fuse::abandon, (fuse,), r),
        forall|i: int|
            0 <= i < fuse@.pending.len() ==> (#[trigger] fuse@.pending[i]) !is Forget
                && fuse@.pending[i].guard().unique != 0,
    ensures
        r@.len() == fuse@.pending.len(),
        forall|i: int|
            0 <= i < r@.len() ==> is_drop_message((#[trigger] r@[i])@, fuse@.pending[i]),
{
    lemma_dropped_each(fuse@.pending);
    let messages = r@.map_values(|message: Vec<u8>| message@);
    assert(messages == session::dropped(fuse@.pending));
    assert(messages.len() == r@.len());
    assert forall|i: int| 0 <= i < r@.len() implies is_drop_message(
        (#[trigger] r@[i])@,
        fuse@.pending[i],
    ) by {
        assert(messages[i] == r@[i]@);
    }
}

/// Whether `m` is what is written for `request` when it is dropped.
pub open spec fn is_drop_message(m: Seq<u8>, request: RequestView) -> bool {
    sent::is_message(
        m,
        request.guard().order,
        request.guard().unique,
        if request is Readdir || request is ReaddirPlus {
            -5
        } else {
            -38
        },
        Seq::empty(),
    )
}

/// One message for each request that is dropped.
proof fn lemma_dropped_each(requests: Seq<RequestView>)
    requires
        forall|i: int|
            0 <= i < requests.len() ==> (#[trigger] requests[i]) !is Forget
                && requests[i].guard().unique != 0,
    ensures
        session::dropped(requests).len() == requests.len(),
        forall|i: int|
            0 <= i < requests.len() ==> is_drop_message(
                #[trigger] session::dropped(requests)[i],
                requests[i],
            ),
    decreases requests.len(),
{
    if requests.len() > 0 {
        let earlier = requests.drop_last();
        assert forall|i: int| 0 <= i < earlier.len() implies (#[trigger] earlier[i]) !is Forget
            && earlier[i].guard().unique != 0 by {
            assert(earlier[i] == requests[i]);
        }
        lemma_dropped_each(earlier);
        assert(requests[requests.len() - 1] == requests.last());
        sent::lemma_failed_or_dropped(requests.last(), 0);
    }
}

/// What was parsed is the request that was expected, or its rejection with the automatic answer.
pub proof fn lemma_parsed(
    r: Result<Request, Rejected>,
    expected: Result<RequestView, Error>,
    guard: GuardView,
)
    requires
        message::is_parsed(r, expected, guard),
    ensures
        match r {
            Ok(request) => expected matches Ok(view) && view == request@,
            Err(rejected) => expected matches Err(err) && answers::gives_up(rejected, err, guard),
        },
{
    if let Err(rejected) = r {
        sent::lemma_rejected(rejected, rejected.error, guard);
    }
}

/// The views of requests, in their order.
pub proof fn lemma_views(requests: Seq<Request>)
    ensures
        message::views(requests).len() == requests.len(),
        forall|i: int|
            0 <= i < requests.len() ==> #[trigger] message::views(requests)[i] == requests[i]@,
{
}

/// The session after a message is the one that is told with it.
pub proof fn lemma_step_state(step: StepView)
    ensures
        step matches StepView::Done { state, .. } ==> step.state() == state,
        step matches StepView::Handshake { state, .. } ==> step.state() == state,
{
}

} // verus!
