//! Messages from the kernel: from their bytes to the requests that they carry.

use std::sync::Arc;

use vstd::prelude::*;
use vstd::slice::{slice_subrange, slice_to_vec};

use crate::cast;
use crate::cstring;
use crate::error::Error;
use crate::protocol;
use crate::protocol::{
    FattrFlags, FuseBatchForgetIn, FuseCreateIn, FuseForgetIn, FuseForgetOne, FuseGetxattrIn,
    FuseMkdirIn, FuseMknodIn, FuseOpenIn, FuseReadIn, FuseReleaseIn, FuseRename2In,
    FuseSetattrIn, FuseWriteIn, Opcode,
};
use crate::reply::{GuardView, Rejected, RequestGuard};
use crate::requests;
use crate::requests::{
    CreateView, ForgetView, GetXAttrSizeView, GetXAttrView, GetattrView, ListXAttrSizeView,
    ListXAttrView, LookupView, MkdirView, MknodView, OpenView, ReadView, ReaddirPlusView,
    ReaddirView, ReadlinkView, ReleaseView, RenameView, Request, RequestView, RmdirView,
    SetattrView, StatfsView, UnlinkView, WriteView,
};
use crate::sys::{FileInfoView, FuseFileInfo};
use crate::wire::{ByteOrder, Wire};

verus! {

/// The structure at the start of a message body, or that the body is too short for it.
pub open spec fn body_of<T: Wire>(order: ByteOrder, body: Seq<u8>) -> Result<T, Error> {
    if body.len() < T::wire_size() {
        Err(
            Error::Truncated { expected: T::wire_size() as usize, got: body.len() as usize },
        )
    } else {
        Ok(T::from_wire(order, body))
    }
}

/// Read a structure from a byte buffer.
pub fn read_body<T: Wire>(order: ByteOrder, body: &[u8]) -> (r: Result<T, Error>)
    ensures
        r == body_of::<T>(order, body@),
{
    let size: usize = T::size();
    if body.len() < size {
        return Err(Error::Truncated { expected: size, got: body.len() });
    }
    Ok(T::decode(order, body))
}

impl Opcode {
    /// Whether a message with this opcode asks for one request.
    pub open spec fn is_request(self) -> bool {
        match self {
            Opcode::Forget => false,
            Opcode::BatchForget => false,
            Opcode::Init => false,
            Opcode::Interrupt => false,
            Opcode::Destroy => false,
            _ => true,
        }
    }
}

/// The request that a message with `opcode` for node `nodeid` carries in its body, or what is
/// wrong with the body. The message stands at the start of `buffer`.
pub open spec fn requested(
    opcode: Opcode,
    guard: GuardView,
    nodeid: u64,
    body: Seq<u8>,
    buffer: Seq<u8>,
) -> Result<RequestView, Error>
    recommends
        opcode.is_request(),
{
    match opcode {
        Opcode::Lookup => Ok(
            RequestView::Lookup(
                LookupView { guard, parent: nodeid, file_name: protocol::name_of(body) },
            ),
        ),
        Opcode::Getattr => Ok(RequestView::Getattr(GetattrView { guard, inode: nodeid })),
        Opcode::Statfs => Ok(RequestView::Statfs(StatfsView { guard, inode: nodeid })),
        Opcode::Readlink => Ok(RequestView::Readlink(ReadlinkView { guard, inode: nodeid })),
        Opcode::Unlink => Ok(
            RequestView::Unlink(
                UnlinkView { guard, parent: nodeid, file_name: protocol::name_of(body) },
            ),
        ),
        Opcode::Rmdir => Ok(
            RequestView::Rmdir(
                RmdirView { guard, parent: nodeid, dir_name: protocol::name_of(body) },
            ),
        ),
        Opcode::Setattr => match body_of::<FuseSetattrIn>(guard.order, body) {
            Err(err) => Err(err),
            Ok(setattr_in) => {
                let to_set = FattrFlags { bits: setattr_in.valid & FattrFlags::ALL };
                Ok(
                    RequestView::Setattr(
                        SetattrView {
                            guard,
                            inode: nodeid,
                            fh: if to_set.has(FattrFlags::FH) {
                                Some(setattr_in.fh)
                            } else {
                                None
                            },
                            to_set,
                            stat: setattr_in.as_stat(),
                        },
                    ),
                )
            },
        },
        Opcode::Mknod => match body_of::<FuseMknodIn>(guard.order, body) {
            Err(err) => Err(err),
            Ok(mknod_in) => Ok(
                RequestView::Mknod(
                    MknodView {
                        guard,
                        parent: nodeid,
                        file_name: protocol::name_of(body.skip(16)),
                        mode: mknod_in.mode,
                        dev: mknod_in.rdev as u64,
                    },
                ),
            ),
        },
        Opcode::Mkdir => match body_of::<FuseMkdirIn>(guard.order, body) {
            Err(err) => Err(err),
            Ok(mkdir_in) => Ok(
                RequestView::Mkdir(
                    MkdirView {
                        guard,
                        parent: nodeid,
                        dir_name: protocol::name_of(body.skip(8)),
                        mode: mkdir_in.mode,
                    },
                ),
            ),
        },
        Opcode::Rename2 => match body_of::<FuseRename2In>(guard.order, body) {
            Err(err) => Err(err),
            Ok(rename_in) => match protocol::two_names_of(body.skip(16)) {
                None => Err(Error::NoSeparator),
                Some((name, new_name)) => Ok(
                    RequestView::Rename(
                        RenameView {
                            guard,
                            parent: nodeid,
                            name,
                            new_parent: rename_in.newdir,
                            new_name,
                            flags: cast::signed32(rename_in.flags),
                        },
                    ),
                ),
            },
        },
        Opcode::Open => match body_of::<FuseOpenIn>(guard.order, body) {
            Err(err) => Err(err),
            Ok(open_in) => Ok(
                RequestView::Open(
                    OpenView {
                        guard,
                        inode: nodeid,
                        flags: cast::signed32(open_in.flags),
                        file_info: FileInfoView::none(),
                    },
                ),
            ),
        },
        Opcode::Release => match body_of::<FuseReleaseIn>(guard.order, body) {
            Err(err) => Err(err),
            Ok(release_in) => Ok(
                RequestView::Release(
                    ReleaseView {
                        guard,
                        inode: nodeid,
                        fh: release_in.fh,
                        flags: cast::signed32(release_in.flags),
                    },
                ),
            ),
        },
        Opcode::Read => match body_of::<FuseReadIn>(guard.order, body) {
            Err(err) => Err(err),
            Ok(read_in) => Ok(
                RequestView::Read(
                    ReadView {
                        guard,
                        inode: nodeid,
                        fh: read_in.fh,
                        size: read_in.size as usize,
                        offset: read_in.offset,
                    },
                ),
            ),
        },
        Opcode::Write => match body_of::<FuseWriteIn>(guard.order, body) {
            Err(err) => Err(err),
            Ok(write_in) => if 80 + write_in.size > usize::MAX {
                Err(Error::WriteOverflow)
            } else if 80 + write_in.size > 40 + body.len() {
                Err(
                    Error::WriteTruncated {
                        claimed: write_in.size,
                        nbytes: (40 + body.len()) as usize,
                    },
                )
            } else {
                Ok(
                    RequestView::Write(
                        WriteView {
                            guard,
                            inode: nodeid,
                            fh: write_in.fh,
                            data_offset: 80,
                            size: write_in.size as usize,
                            offset: write_in.offset,
                            buffer,
                        },
                    ),
                )
            },
        },
        Opcode::Create => match body_of::<FuseCreateIn>(guard.order, body) {
            Err(err) => Err(err),
            Ok(create_in) => Ok(
                RequestView::Create(
                    CreateView {
                        guard,
                        parent: nodeid,
                        file_name: protocol::name_of(body.skip(16)),
                        mode: create_in.mode,
                        file_info: FileInfoView::none(),
                    },
                ),
            ),
        },
        Opcode::Readdir => match body_of::<FuseReadIn>(guard.order, body) {
            Err(err) => Err(err),
            Ok(read_in) => Ok(
                RequestView::Readdir(
                    ReaddirView::empty(guard, nodeid, read_in.size as nat, read_in.offset),
                ),
            ),
        },
        Opcode::Readdirplus => match body_of::<FuseReadIn>(guard.order, body) {
            Err(err) => Err(err),
            Ok(read_in) => Ok(
                RequestView::ReaddirPlus(
                    ReaddirPlusView::empty(guard, nodeid, read_in.size as nat, read_in.offset),
                ),
            ),
        },
        Opcode::Listxattr => match body_of::<FuseGetxattrIn>(guard.order, body) {
            Err(err) => Err(err),
            Ok(getxattr_in) => if getxattr_in.size == 0 {
                Ok(RequestView::ListXAttrSize(ListXAttrSizeView { guard, inode: nodeid }))
            } else {
                Ok(
                    RequestView::ListXAttr(
                        ListXAttrView {
                            guard,
                            inode: nodeid,
                            size: getxattr_in.size as usize,
                            response: Seq::empty(),
                        },
                    ),
                )
            },
        },
        Opcode::Getxattr => match body_of::<FuseGetxattrIn>(guard.order, body) {
            Err(err) => Err(err),
            Ok(getxattr_in) => if getxattr_in.size == 0 {
                Ok(
                    RequestView::GetXAttrSize(
                        GetXAttrSizeView {
                            guard,
                            inode: nodeid,
                            attr_name: protocol::name_of(body.skip(8)),
                        },
                    ),
                )
            } else {
                Ok(
                    RequestView::GetXAttr(
                        GetXAttrView {
                            guard,
                            inode: nodeid,
                            attr_name: protocol::name_of(body.skip(8)),
                            size: getxattr_in.size as usize,
                        },
                    ),
                )
            },
        },
        _ => arbitrary(),
    }
}

/// Whether `r` is what came out for a request that is to be `expected`: the request itself, or its
/// rejection for the same reason, with the automatic answer of its guard.
pub open spec fn is_parsed(
    r: Result<Request, Rejected>,
    expected: Result<RequestView, Error>,
    guard: GuardView,
) -> bool {
    match r {
        Ok(request) => expected == Ok::<RequestView, Error>(request@),
        Err(rejected) => expected matches Err(err) && rejected.is(err, guard),
    }
}

/// Another reference to the buffer behind `buf`, by `Arc::clone`. What is claimed of it is that the
/// bytes behind the new reference are those behind the old one.
#[verifier::external_body]
fn share(buf: &Arc<Vec<u8>>) -> (r: Arc<Vec<u8>>)
    ensures
        r@ == buf@,
{
    Arc::clone(buf)
}

/// Attributes to be set.
fn parse_setattr(guard: RequestGuard, nodeid: u64, body: &[u8]) -> (r: Result<
    Request,
    Rejected,
>)
    ensures
        is_parsed(r, requested(Opcode::Setattr, guard@, nodeid, body@, Seq::empty()), guard@),
{
    let setattr_in: FuseSetattrIn = match read_body(guard.order, body) {
        Ok(setattr_in) => setattr_in,
        Err(err) => {
            return Err(Rejected::new(err, guard));
        },
    };
    let to_set = FattrFlags::from_bits_truncate(setattr_in.valid);
    let fh: Option<u64> = if to_set.contains(FattrFlags::FH) {
        Some(setattr_in.fh)
    } else {
        None
    };
    let stat = setattr_in.to_stat();
    Ok(Request::Setattr(requests::Setattr { request: guard, inode: nodeid, fh, to_set, stat }))
}

/// A node to be made.
fn parse_mknod(guard: RequestGuard, nodeid: u64, body: &[u8]) -> (r: Result<
    Request,
    Rejected,
>)
    ensures
        is_parsed(r, requested(Opcode::Mknod, guard@, nodeid, body@, Seq::empty()), guard@),
{
    let mknod_in: FuseMknodIn = match read_body(guard.order, body) {
        Ok(mknod_in) => mknod_in,
        Err(err) => {
            return Err(Rejected::new(err, guard));
        },
    };
    let name: &[u8] = match protocol::name_after::<FuseMknodIn>(body) {
        Ok(name) => name,
        Err(err) => {
            return Err(Rejected::new(err, guard));
        },
    };
    Ok(
        Request::Mknod(
            requests::Mknod {
                request: guard,
                parent: nodeid,
                file_name: slice_to_vec(name),
                mode: mknod_in.mode,
                dev: mknod_in.rdev as u64,
            },
        ),
    )
}

/// A directory to be made.
fn parse_mkdir(guard: RequestGuard, nodeid: u64, body: &[u8]) -> (r: Result<
    Request,
    Rejected,
>)
    ensures
        is_parsed(r, requested(Opcode::Mkdir, guard@, nodeid, body@, Seq::empty()), guard@),
{
    let mkdir_in: FuseMkdirIn = match read_body(guard.order, body) {
        Ok(mkdir_in) => mkdir_in,
        Err(err) => {
            return Err(Rejected::new(err, guard));
        },
    };
    let name: &[u8] = match protocol::name_after::<FuseMkdirIn>(body) {
        Ok(name) => name,
        Err(err) => {
            return Err(Rejected::new(err, guard));
        },
    };
    Ok(
        Request::Mkdir(
            requests::Mkdir {
                request: guard,
                parent: nodeid,
                dir_name: slice_to_vec(name),
                mode: mkdir_in.mode,
            },
        ),
    )
}

/// An entry to be renamed.
fn parse_rename(guard: RequestGuard, nodeid: u64, body: &[u8]) -> (r: Result<
    Request,
    Rejected,
>)
    ensures
        is_parsed(r, requested(Opcode::Rename2, guard@, nodeid, body@, Seq::empty()), guard@),
{
    let rename_in: FuseRename2In = match read_body(guard.order, body) {
        Ok(rename_in) => rename_in,
        Err(err) => {
            return Err(Rejected::new(err, guard));
        },
    };
    let (name, new_name) = match protocol::two_names_after::<FuseRename2In>(body) {
        Ok(names) => names,
        Err(err) => {
            return Err(Rejected::new(err, guard));
        },
    };
    Ok(
        Request::Rename(
            requests::Rename {
                request: guard,
                parent: nodeid,
                name: slice_to_vec(name),
                new_parent: rename_in.newdir,
                new_name: slice_to_vec(new_name),
                flags: cast::u32_to_i32(rename_in.flags),
            },
        ),
    )
}

/// A file to be opened.
fn parse_open(guard: RequestGuard, nodeid: u64, body: &[u8]) -> (r: Result<
    Request,
    Rejected,
>)
    ensures
        is_parsed(r, requested(Opcode::Open, guard@, nodeid, body@, Seq::empty()), guard@),
{
    let open_in: FuseOpenIn = match read_body(guard.order, body) {
        Ok(open_in) => open_in,
        Err(err) => {
            return Err(Rejected::new(err, guard));
        },
    };
    Ok(
        Request::Open(
            requests::Open {
                request: guard,
                inode: nodeid,
                flags: cast::u32_to_i32(open_in.flags),
                file_info: FuseFileInfo::default(),
            },
        ),
    )
}

/// A file to be released.
fn parse_release(guard: RequestGuard, nodeid: u64, body: &[u8]) -> (r: Result<
    Request,
    Rejected,
>)
    ensures
        is_parsed(r, requested(Opcode::Release, guard@, nodeid, body@, Seq::empty()), guard@),
{
    let release_in: FuseReleaseIn = match read_body(guard.order, body) {
        Ok(release_in) => release_in,
        Err(err) => {
            return Err(Rejected::new(err, guard));
        },
    };
    Ok(
        Request::Release(
            requests::Release {
                request: guard,
                inode: nodeid,
                fh: release_in.fh,
                flags: cast::u32_to_i32(release_in.flags),
            },
        ),
    )
}

/// A file to be read.
fn parse_read(guard: RequestGuard, nodeid: u64, body: &[u8]) -> (r: Result<
    Request,
    Rejected,
>)
    ensures
        is_parsed(r, requested(Opcode::Read, guard@, nodeid, body@, Seq::empty()), guard@),
{
    let read_in: FuseReadIn = match read_body(guard.order, body) {
        Ok(read_in) => read_in,
        Err(err) => {
            return Err(Rejected::new(err, guard));
        },
    };
    Ok(
        Request::Read(
            requests::Read {
                request: guard,
                inode: nodeid,
                fh: read_in.fh,
                size: read_in.size as usize,
                offset: read_in.offset,
            },
        ),
    )
}

/// A file to be written. The data stays in `buf`.
fn parse_write(guard: RequestGuard, nodeid: u64, body: &[u8], buf: &Arc<Vec<u8>>) -> (r: Result<
    Request,
    Rejected,
>)
    requires
        40 + body@.len() <= usize::MAX,
    ensures
        is_parsed(r, requested(Opcode::Write, guard@, nodeid, body@, buf@), guard@),
{
    let write_in: FuseWriteIn = match read_body(guard.order, body) {
        Ok(write_in) => write_in,
        Err(err) => {
            return Err(Rejected::new(err, guard));
        },
    };
    let nbytes: usize = 40 + body.len();
    let data_offset: usize = 80;
    let data_end: usize = match data_offset.checked_add(write_in.size as usize) {
        Some(data_end) => data_end,
        None => {
            return Err(Rejected::new(Error::WriteOverflow, guard));
        },
    };
    if data_end > nbytes {
        return Err(
            Rejected::new(Error::WriteTruncated { claimed: write_in.size, nbytes }, guard),
        );
    }
    Ok(
        Request::Write(
            requests::Write::new(
                guard,
                nodeid,
                write_in.fh,
                data_offset,
                write_in.size as usize,
                write_in.offset,
                share(buf),
            ),
        ),
    )
}

/// A file to be created.
fn parse_create(guard: RequestGuard, nodeid: u64, body: &[u8]) -> (r: Result<
    Request,
    Rejected,
>)
    ensures
        is_parsed(r, requested(Opcode::Create, guard@, nodeid, body@, Seq::empty()), guard@),
{
    let create_in: FuseCreateIn = match read_body(guard.order, body) {
        Ok(create_in) => create_in,
        Err(err) => {
            return Err(Rejected::new(err, guard));
        },
    };
    let name: &[u8] = match protocol::name_after::<FuseCreateIn>(body) {
        Ok(name) => name,
        Err(err) => {
            return Err(Rejected::new(err, guard));
        },
    };
    Ok(
        Request::Create(
            requests::Create {
                request: guard,
                parent: nodeid,
                file_name: slice_to_vec(name),
                mode: create_in.mode,
                file_info: FuseFileInfo::default(),
            },
        ),
    )
}

/// A directory to be listed.
fn parse_readdir(guard: RequestGuard, nodeid: u64, body: &[u8]) -> (r: Result<
    Request,
    Rejected,
>)
    ensures
        is_parsed(r, requested(Opcode::Readdir, guard@, nodeid, body@, Seq::empty()), guard@),
{
    let read_in: FuseReadIn = match read_body(guard.order, body) {
        Ok(read_in) => read_in,
        Err(err) => {
            return Err(Rejected::new(err, guard));
        },
    };
    Ok(
        Request::Readdir(
            requests::Readdir::new(guard, nodeid, read_in.size as usize, read_in.offset),
        ),
    )
}

/// A directory to be listed with attributes.
fn parse_readdirplus(guard: RequestGuard, nodeid: u64, body: &[u8]) -> (r: Result<
    Request,
    Rejected,
>)
    ensures
        is_parsed(r, requested(Opcode::Readdirplus, guard@, nodeid, body@, Seq::empty()), guard@),
{
    let read_in: FuseReadIn = match read_body(guard.order, body) {
        Ok(read_in) => read_in,
        Err(err) => {
            return Err(Rejected::new(err, guard));
        },
    };
    Ok(
        Request::ReaddirPlus(
            requests::ReaddirPlus::new(guard, nodeid, read_in.size as usize, read_in.offset),
        ),
    )
}

/// Extended attributes to be listed; with a size of zero, only the size of the list is asked for.
fn parse_listxattr(guard: RequestGuard, nodeid: u64, body: &[u8]) -> (r: Result<
    Request,
    Rejected,
>)
    ensures
        is_parsed(r, requested(Opcode::Listxattr, guard@, nodeid, body@, Seq::empty()), guard@),
{
    let getxattr_in: FuseGetxattrIn = match read_body(guard.order, body) {
        Ok(getxattr_in) => getxattr_in,
        Err(err) => {
            return Err(Rejected::new(err, guard));
        },
    };
    if getxattr_in.size == 0 {
        Ok(
            Request::ListXAttrSize(requests::ListXAttrSize { request: guard, inode: nodeid }),
        )
    } else {
        Ok(
            Request::ListXAttr(
                requests::ListXAttr::new(guard, nodeid, getxattr_in.size as usize),
            ),
        )
    }
}

/// An extended attribute to be read; with a size of zero, only its size is asked for.
fn parse_getxattr(guard: RequestGuard, nodeid: u64, body: &[u8]) -> (r: Result<
    Request,
    Rejected,
>)
    ensures
        is_parsed(r, requested(Opcode::Getxattr, guard@, nodeid, body@, Seq::empty()), guard@),
{
    let getxattr_in: FuseGetxattrIn = match read_body(guard.order, body) {
        Ok(getxattr_in) => getxattr_in,
        Err(err) => {
            return Err(Rejected::new(err, guard));
        },
    };
    let name: &[u8] = match protocol::name_after::<FuseGetxattrIn>(body) {
        Ok(name) => name,
        Err(err) => {
            return Err(Rejected::new(err, guard));
        },
    };
    let attr_name: Vec<u8> = slice_to_vec(name);
    if getxattr_in.size == 0 {
        Ok(
            Request::GetXAttrSize(
                requests::GetXAttrSize { request: guard, inode: nodeid, attr_name },
            ),
        )
    } else {
        Ok(
            Request::GetXAttr(
                requests::GetXAttr {
                    request: guard,
                    inode: nodeid,
                    attr_name,
                    size: getxattr_in.size as usize,
                },
            ),
        )
    }
}

/// The request that a message with `opcode` carries in its body. The message stands at the start
/// of `buf`.
pub(crate) fn parse_request(
    opcode: Opcode,
    guard: RequestGuard,
    nodeid: u64,
    body: &[u8],
    buf: &Arc<Vec<u8>>,
) -> (r: Result<Request, Rejected>)
    requires
        opcode.is_request(),
        40 + body@.len() <= usize::MAX,
    ensures
        is_parsed(r, requested(opcode, guard@, nodeid, body@, buf@), guard@),
{
    match opcode {
        Opcode::Lookup => {
            let file_name: Vec<u8> = slice_to_vec(protocol::name_from_bytes(body));
            Ok(
                Request::Lookup(
                    requests::Lookup { request: guard, parent: nodeid, file_name },
                ),
            )
        },
        Opcode::Getattr => Ok(
            Request::Getattr(requests::Getattr { request: guard, inode: nodeid }),
        ),
        Opcode::Setattr => parse_setattr(guard, nodeid, body),
        Opcode::Statfs => Ok(Request::Statfs(requests::Statfs { request: guard, inode: nodeid })),
        Opcode::Readlink => Ok(
            Request::Readlink(requests::Readlink { request: guard, inode: nodeid }),
        ),
        Opcode::Mknod => parse_mknod(guard, nodeid, body),
        Opcode::Mkdir => parse_mkdir(guard, nodeid, body),
        Opcode::Unlink => {
            let file_name: Vec<u8> = slice_to_vec(protocol::name_from_bytes(body));
            Ok(
                Request::Unlink(
                    requests::Unlink { request: guard, parent: nodeid, file_name },
                ),
            )
        },
        Opcode::Rmdir => {
            let dir_name: Vec<u8> = slice_to_vec(protocol::name_from_bytes(body));
            Ok(Request::Rmdir(requests::Rmdir { request: guard, parent: nodeid, dir_name }))
        },
        Opcode::Rename2 => parse_rename(guard, nodeid, body),
        Opcode::Open => parse_open(guard, nodeid, body),
        Opcode::Release => parse_release(guard, nodeid, body),
        Opcode::Read => parse_read(guard, nodeid, body),
        Opcode::Write => parse_write(guard, nodeid, body, buf),
        Opcode::Create => parse_create(guard, nodeid, body),
        Opcode::Readdir => parse_readdir(guard, nodeid, body),
        Opcode::Readdirplus => parse_readdirplus(guard, nodeid, body),
        Opcode::Listxattr => parse_listxattr(guard, nodeid, body),
        Opcode::Getxattr => parse_getxattr(guard, nodeid, body),
        Opcode::Forget | Opcode::BatchForget | Opcode::Init | Opcode::Interrupt
        | Opcode::Destroy => vstd::pervasive::unreached(),
    }
}

/// The forget that a message carries in its body. It gets no answer, whatever is wrong with it.
pub open spec fn forget_requested(guard: GuardView, nodeid: u64, body: Seq<u8>) -> Result<
    RequestView,
    Error,
> {
    match body_of::<FuseForgetIn>(guard.order, body) {
        Err(err) => Err(err),
        Ok(forget_in) => Ok(
            RequestView::Forget(
                ForgetView { guard, inode: nodeid, count: forget_in.nlookup },
            ),
        ),
    }
}

/// How many forgets a batch holds: as many as it says, but no more than are there.
pub open spec fn batch_len(batch_in: FuseBatchForgetIn, body: Seq<u8>) -> nat {
    let room = (body.len() - 8) / 16;
    if batch_in.count <= room {
        batch_in.count as nat
    } else {
        room as nat
    }
}

/// The `i`th forget of a batch.
pub open spec fn batch_entry(order: ByteOrder, body: Seq<u8>, i: int) -> RequestView {
    let entry = FuseForgetOne::from_wire(order, body.skip(8 + 16 * i));
    RequestView::Forget(
        ForgetView {
            guard: GuardView { unique: 0, order },
            inode: entry.nodeid,
            count: entry.nlookup,
        },
    )
}

/// The forgets that a message carries in its body.
pub open spec fn batch_requested(order: ByteOrder, body: Seq<u8>) -> Result<
    Seq<RequestView>,
    Error,
> {
    match body_of::<FuseBatchForgetIn>(order, body) {
        Err(err) => Err(err),
        Ok(batch_in) => Ok(
            Seq::new(batch_len(batch_in, body), |i: int| batch_entry(order, body, i)),
        ),
    }
}

/// The forget that a message carries in its body.
pub(crate) fn parse_forget(guard: RequestGuard, nodeid: u64, body: &[u8]) -> (r: Result<
    Request,
    Error,
>)
    ensures
        match r {
            Ok(request) => forget_requested(guard@, nodeid, body@) == Ok::<RequestView, Error>(
                request@,
            ),
            Err(err) => forget_requested(guard@, nodeid, body@) == Err::<RequestView, Error>(err),
        },
{
    let forget_in: FuseForgetIn = match read_body(guard.order, body) {
        Ok(forget_in) => forget_in,
        Err(err) => {
            return Err(err);
        },
    };
    Ok(
        Request::Forget(
            requests::Forget { request: guard, inode: nodeid, count: forget_in.nlookup },
        ),
    )
}

/// The views of `requests`.
pub open spec fn views(requests: Seq<Request>) -> Seq<RequestView> {
    requests.map_values(|request: Request| request@)
}

/// The forgets that a message carries in its body.
pub(crate) fn parse_batch(order: ByteOrder, body: &[u8]) -> (r: Result<Vec<Request>, Error>)
    ensures
        match r {
            Ok(requests) => batch_requested(order, body@) == Ok::<Seq<RequestView>, Error>(
                views(requests@),
            ),
            Err(err) => batch_requested(order, body@) == Err::<Seq<RequestView>, Error>(err),
        },
{
    let batch_in: FuseBatchForgetIn = match read_body(order, body) {
        Ok(batch_in) => batch_in,
        Err(err) => {
            return Err(err);
        },
    };
    let room: usize = (body.len() - 8) / 16;
    let n: usize = if batch_in.count as u64 <= room as u64 {
        batch_in.count as usize
    } else {
        room
    };
    let mut forgets: Vec<Request> = Vec::new();
    let mut i: usize = 0;
    while i < n
        invariant
            i <= n,
            8 + 16 * n <= body@.len(),
            body@.len() == body.len(),
            forgets@.len() == i,
            forall|j: int|
                0 <= j < i ==> (#[trigger] forgets@[j])@ == batch_entry(order, body@, j),
        decreases n - i,
    {
        let off: usize = 8 + 16 * i;
        let rest = slice_subrange(body, off, body.len());
        assert(rest@ =~= body@.skip(8 + 16 * i));
        let entry: FuseForgetOne = FuseForgetOne::decode(order, rest);
        let request = RequestGuard::new(0, order);
        let forget = requests::Forget { request, inode: entry.nodeid, count: entry.nlookup };
        forgets.push(Request::Forget(forget));
        i = i + 1;
    }
    assert(views(forgets@) =~= batch_requested(order, body@)->Ok_0);
    Ok(forgets)
}

/// A request that was parsed belongs to its message: it answers to the message's guard, and what
/// it borrows is in the buffer.
pub proof fn lemma_requested(
    opcode: Opcode,
    guard: GuardView,
    nodeid: u64,
    body: Seq<u8>,
    buffer: Seq<u8>,
)
    requires
        opcode.is_request(),
        40 + body.len() <= buffer.len(),
    ensures
        requested(opcode, guard, nodeid, body, buffer) matches Ok(request) ==> {
            &&& request.guard() == guard
            &&& request.wf()
            &&& request !is Forget
        },
{
}

/// A setattr carries the size that the kernel sent, whatever its bits are, and no flag that is not
/// known.
pub proof fn lemma_setattr(guard: GuardView, nodeid: u64, body: Seq<u8>, buffer: Seq<u8>)
    requires
        body.len() >= FuseSetattrIn::wire_size(),
    ensures
        ({
            let setattr_in = FuseSetattrIn::from_wire(guard.order, body);
            &&& requested(Opcode::Setattr, guard, nodeid, body, buffer) matches Ok(
                RequestView::Setattr(setattr),
            )
            &&& cast::low64(setattr.stat.st_size as int) == setattr_in.size
            &&& setattr.stat.st_mode == setattr_in.mode
            &&& setattr.to_set.bits & FattrFlags::ALL == setattr.to_set.bits
        }),
{
    let setattr_in = FuseSetattrIn::from_wire(guard.order, body);
    cast::lemma_low64_signed64(setattr_in.size);
    let valid = setattr_in.valid;
    assert((valid & 0x5ff) & 0x5ff == valid & 0x5ff) by (bit_vector);
}

/// What a write carries is the part of the message behind its fixed structures.
pub proof fn lemma_write_data(guard: GuardView, nodeid: u64, body: Seq<u8>, buffer: Seq<u8>)
    requires
        40 + body.len() <= buffer.len(),
        buffer.subrange(40, 40 + body.len() as int) == body,
    ensures
        requested(Opcode::Write, guard, nodeid, body, buffer) matches Ok(RequestView::Write(write))
            ==> write.data() == body.subrange(40, 40 + write.size as int),
{
    if let Ok(RequestView::Write(write)) = requested(Opcode::Write, guard, nodeid, body, buffer) {
        assert(write.data() =~= body.subrange(40, 40 + write.size as int));
    }
}

/// A structure at the start of a body is read as it was laid out, and what follows it is found
/// behind it.
pub proof fn lemma_body_of<T: Wire>(order: ByteOrder, value: T, rest: Seq<u8>)
    ensures
        body_of::<T>(order, value.to_wire(order) + rest) == Ok::<T, Error>(value),
        (value.to_wire(order) + rest).skip(T::wire_size() as int) == rest,
{
    value.lemma_size(order);
    value.lemma_decode_encode(order, rest);
    assert((value.to_wire(order) + rest).skip(T::wire_size() as int) =~= rest);
}

/// A structure with a name behind it, terminated by a zero, is read as the two.
pub proof fn lemma_struct_and_name<T: Wire>(order: ByteOrder, value: T, name: Seq<u8>)
    requires
        cstring::no_nul(name),
    ensures
        ({
            let body = value.to_wire(order) + name.push(0);
            &&& body_of::<T>(order, body) == Ok::<T, Error>(value)
            &&& protocol::name_of(body.skip(T::wire_size() as int)) == name
        }),
{
    lemma_body_of(order, value, name.push(0));
    protocol::lemma_name_of_terminated(name, Seq::empty());
    assert(name.push(0) + Seq::<u8>::empty() =~= name.push(0));
}

/// Making a directory: the request has the mode and the name that the kernel sent.
pub proof fn lemma_mkdir(
    guard: GuardView,
    nodeid: u64,
    mkdir_in: FuseMkdirIn,
    name: Seq<u8>,
    buffer: Seq<u8>,
)
    requires
        cstring::no_nul(name),
    ensures
        requested(
            Opcode::Mkdir,
            guard,
            nodeid,
            mkdir_in.to_wire(guard.order) + name.push(0),
            buffer,
        ) == Ok::<RequestView, Error>(
            RequestView::Mkdir(
                MkdirView { guard, parent: nodeid, dir_name: name, mode: mkdir_in.mode },
            ),
        ),
{
    lemma_struct_and_name(guard.order, mkdir_in, name);
}

/// Making a node: the request has the mode, the device and the name that the kernel sent.
pub proof fn lemma_mknod(
    guard: GuardView,
    nodeid: u64,
    mknod_in: FuseMknodIn,
    name: Seq<u8>,
    buffer: Seq<u8>,
)
    requires
        cstring::no_nul(name),
    ensures
        requested(
            Opcode::Mknod,
            guard,
            nodeid,
            mknod_in.to_wire(guard.order) + name.push(0),
            buffer,
        ) == Ok::<RequestView, Error>(
            RequestView::Mknod(
                MknodView {
                    guard,
                    parent: nodeid,
                    file_name: name,
                    mode: mknod_in.mode,
                    dev: mknod_in.rdev as u64,
                },
            ),
        ),
{
    lemma_struct_and_name(guard.order, mknod_in, name);
}

/// Creating a file: the request has the mode and the name that the kernel sent, and no option set.
pub proof fn lemma_create(
    guard: GuardView,
    nodeid: u64,
    create_in: FuseCreateIn,
    name: Seq<u8>,
    buffer: Seq<u8>,
)
    requires
        cstring::no_nul(name),
    ensures
        requested(
            Opcode::Create,
            guard,
            nodeid,
            create_in.to_wire(guard.order) + name.push(0),
            buffer,
        ) == Ok::<RequestView, Error>(
            RequestView::Create(
                CreateView {
                    guard,
                    parent: nodeid,
                    file_name: name,
                    mode: create_in.mode,
                    file_info: FileInfoView::none(),
                },
            ),
        ),
{
    lemma_struct_and_name(guard.order, create_in, name);
}

/// Renaming: the request has both directories and both names that the kernel sent.
pub proof fn lemma_rename(
    guard: GuardView,
    nodeid: u64,
    rename_in: FuseRename2In,
    name: Seq<u8>,
    new_name: Seq<u8>,
    buffer: Seq<u8>,
)
    requires
        cstring::no_nul(name),
        cstring::no_nul(new_name),
    ensures
        requested(
            Opcode::Rename2,
            guard,
            nodeid,
            rename_in.to_wire(guard.order) + (name.push(0) + new_name.push(0)),
            buffer,
        ) == Ok::<RequestView, Error>(
            RequestView::Rename(
                RenameView {
                    guard,
                    parent: nodeid,
                    name,
                    new_parent: rename_in.newdir,
                    new_name,
                    flags: cast::signed32(rename_in.flags),
                },
            ),
        ),
{
    let names = name.push(0) + new_name.push(0);
    lemma_body_of(guard.order, rename_in, names);
    protocol::lemma_two_names_of_terminated(name, new_name, Seq::empty());
    assert(names + Seq::<u8>::empty() =~= names);
}

/// Reading an extended attribute: the request has the name that the kernel sent. With a size of
/// zero it asks for the size of the attribute, else for as much of it as that.
pub proof fn lemma_getxattr(
    guard: GuardView,
    nodeid: u64,
    getxattr_in: FuseGetxattrIn,
    name: Seq<u8>,
    buffer: Seq<u8>,
)
    requires
        cstring::no_nul(name),
    ensures
        requested(
            Opcode::Getxattr,
            guard,
            nodeid,
            getxattr_in.to_wire(guard.order) + name.push(0),
            buffer,
        ) == Ok::<RequestView, Error>(
            if getxattr_in.size == 0 {
                RequestView::GetXAttrSize(
                    GetXAttrSizeView { guard, inode: nodeid, attr_name: name },
                )
            } else {
                RequestView::GetXAttr(
                    GetXAttrView {
                        guard,
                        inode: nodeid,
                        attr_name: name,
                        size: getxattr_in.size as usize,
                    },
                )
            },
        ),
{
    lemma_struct_and_name(guard.order, getxattr_in, name);
}

/// Writing: a message with as much data behind its structure as that says becomes a write of just
/// this data.
pub proof fn lemma_write(
    guard: GuardView,
    nodeid: u64,
    write_in: FuseWriteIn,
    data: Seq<u8>,
    buffer: Seq<u8>,
)
    requires
        write_in.size == data.len(),
        80 + data.len() <= usize::MAX,
        80 + data.len() <= buffer.len(),
        buffer.subrange(40, 80 + data.len() as int) == write_in.to_wire(guard.order) + data,
    ensures
        (requested(
            Opcode::Write,
            guard,
            nodeid,
            write_in.to_wire(guard.order) + data,
            buffer,
        ) matches Ok(RequestView::Write(write)) && {
            &&& write.data() == data
            &&& write.fh == write_in.fh
            &&& write.offset == write_in.offset
            &&& write.inode == nodeid
            &&& write.guard == guard
        }),
{
    let body = write_in.to_wire(guard.order) + data;
    write_in.lemma_size(guard.order);
    lemma_body_of(guard.order, write_in, data);
    lemma_write_data(guard, nodeid, body, buffer);
    assert(body.subrange(40, 40 + data.len() as int) =~= data);
}

} // verus!
