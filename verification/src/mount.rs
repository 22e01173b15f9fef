//! Mount and unmount a FUSE filesystem.
//!
//! Both mount and unmount use a hybrid strategy: try a direct syscall first (which requires
//! `CAP_SYS_ADMIN` in the mount's user namespace) and fall back to the setuid `fusermount3` helper
//! only if the kernel rejects the direct call with `EPERM`.
//!
//! **Mount**: open `/dev/fuse`, build the `fd=N,rootmode=...,user_id=...,group_id=...` option
//! string, then call `mount(2)` directly. On `EPERM`, fall back to spawning `fusermount3` and
//! receiving its `/dev/fuse` fd via `SCM_RIGHTS`.
//!
//! **Unmount**: call `umount2(path, MNT_DETACH)` directly. On `EPERM`, spawn `fusermount3 -u`.
//!
//! Here is what these steps decide and hand to the system; the system calls are made elsewhere.

use vstd::prelude::*;
use vstd::slice::slice_to_vec;
use vstd::string::StringExecFns;
use vstd::utf8::encode_utf8;

use crate::cstring;
use crate::cstring::CString;
use crate::error;
use crate::error::Error;
use crate::session;
use crate::text;

verus! {

/// The file-type bits of a mode.
pub const S_IFMT: u32 = 0xf000;

/// The level of ancillary data that belongs to the socket itself.
pub const SOL_SOCKET: i32 = 1;

/// The type of ancillary data that carries file descriptors.
pub const SCM_RIGHTS: i32 = 1;

/// Whether the helper is to be tried after a direct call failed with `error`.
///
/// Only EPERM means "kernel refused this unprivileged mount"; any other errno is a real failure
/// that fusermount3 cannot fix either.
pub fn needs_helper(error: &Error) -> (r: bool)
    ensures
        r == (error.errno() == Some(error::EPERM)),
{
    match error.raw_os_error() {
        Some(errno) => errno == error::EPERM,
        None => false,
    }
}

/// The path of the mount point as system calls take it.
pub fn mountpoint_cstring(mountpoint: &[u8]) -> (r: Result<CString, Error>)
    ensures
        r is Ok <==> cstring::no_nul(mountpoint@),
        r matches Ok(c) ==> c@ == mountpoint@,
        r matches Err(e) ==> e == Error::NulInMountpoint,
{
    match CString::new(mountpoint) {
        Some(c) => Ok(c),
        None => Err(Error::NulInMountpoint),
    }
}

/// The file-type bits of `mode`: the four bits above the permissions.
pub open spec fn file_type_of(mode: u32) -> u32 {
    (mode / 0x1000 % 16 * 0x1000) as u32
}

/// The kernel needs the mountpoint's file-type bits so it can synthesise attributes for the
/// root inode. For a normal directory mount this is S_IFDIR (040000 octal).
pub fn root_mode(st_mode: u32) -> (r: u32)
    ensures
        r == file_type_of(st_mode),
{
    assert(st_mode & 0xf000 == st_mode / 0x1000 % 16 * 0x1000) by (bit_vector);
    st_mode & S_IFMT
}

/// `options`, each behind a comma.
pub open spec fn appended(options: Seq<Seq<char>>) -> Seq<char>
    decreases options.len(),
{
    if options.len() == 0 {
        Seq::empty()
    } else {
        appended(options.drop_last()) + ","@ + options.last()
    }
}

/// The option string of a direct mount. `fd`, `rootmode`, `user_id`, `group_id` are mandatory;
/// user-supplied options are appended verbatim.
pub open spec fn direct_text(
    fd: i32,
    rootmode: u32,
    uid: u32,
    gid: u32,
    options: Seq<Seq<char>>,
) -> Seq<char> {
    "fd="@ + text::signed_decimal(fd as int) + ",rootmode="@ + text::numeral(rootmode as nat, 8)
        + ",user_id="@ + text::numeral(uid as nat, 10) + ",group_id="@ + text::numeral(
        gid as nat,
        10,
    ) + appended(options)
}

/// The option string for the helper.
pub open spec fn helper_text(fsname: Seq<char>, options: Seq<Seq<char>>) -> Seq<char> {
    "fsname="@ + fsname + appended(options)
}

/// Appends `options` to `out`, each behind a comma.
fn push_options(out: &mut String, options: &[String])
    ensures
        final(out)@ == old(out)@ + appended(session::texts(options@)),
{
    let ghost texts = session::texts(options@);
    let mut i: usize = 0;
    assert(old(out)@ + appended(texts.take(0)) =~= old(out)@);
    while i < options.len()
        invariant
            i <= options@.len(),
            texts == session::texts(options@),
            out@ == old(out)@ + appended(texts.take(i as int)),
        decreases options@.len() - i,
    {
        out.append(",");
        out.append(options[i].as_str());
        assert(texts.take(i + 1).drop_last() =~= texts.take(i as int));
        assert(out@ =~= old(out)@ + appended(texts.take(i + 1)));
        i = i + 1;
    }
    assert(texts.take(i as int) =~= texts);
}

/// Build the FUSE mount option string.
pub fn direct_options(fd: i32, rootmode: u32, uid: u32, gid: u32, options: &[String]) -> (r: String)
    ensures
        r@ == direct_text(fd, rootmode, uid, gid, session::texts(options@)),
{
    let mut s: String = String::new();
    s.append("fd=");
    text::push_signed(&mut s, fd);
    s.append(",rootmode=");
    text::push_numeral(&mut s, rootmode as u64, 8);
    s.append(",user_id=");
    text::push_decimal(&mut s, uid as u64);
    s.append(",group_id=");
    text::push_decimal(&mut s, gid as u64);
    push_options(&mut s, options);
    assert(s@ =~= direct_text(fd, rootmode, uid, gid, session::texts(options@)));
    s
}

/// Build the option string for the helper.
pub fn helper_options(fsname: &str, options: &[String]) -> (r: String)
    ensures
        r@ == helper_text(fsname@, session::texts(options@)),
{
    let mut s: String = String::new();
    s.append("fsname=");
    s.append(fsname);
    push_options(&mut s, options);
    assert(s@ =~= helper_text(fsname@, session::texts(options@)));
    s
}

/// What the `mount` system call takes besides the mount point.
#[derive(Debug)]
pub struct DirectMount {
    /// The filesystem name shown in /proc/mounts.
    pub source: CString,
    /// The option string.
    pub options: CString,
}

/// What the `mount` system call takes for the device `fd` and a mount point of mode `st_mode`, or
/// which of the strings cannot be handed to it.
pub fn direct_mount(
    fd: i32,
    st_mode: u32,
    uid: u32,
    gid: u32,
    fsname: &str,
    options: &[String],
) -> (r: Result<DirectMount, Error>)
    ensures
        ({
            let opts = encode_utf8(
                direct_text(fd, file_type_of(st_mode), uid, gid, session::texts(options@)),
            );
            let source = encode_utf8(fsname@);
            match r {
                Ok(mount) => {
                    &&& cstring::no_nul(opts)
                    &&& cstring::no_nul(source)
                    &&& mount.options@ == opts
                    &&& mount.source@ == source
                },
                Err(e) => if cstring::no_nul(opts) {
                    &&& !cstring::no_nul(source)
                    &&& e == Error::NulInFsname
                } else {
                    e == Error::NulInOptions
                },
            }
        }),
{
    let opts_str: String = direct_options(fd, root_mode(st_mode), uid, gid, options);
    let c_opts = match CString::new(opts_str.as_str().as_bytes()) {
        Some(c_opts) => c_opts,
        None => {
            return Err(Error::NulInOptions);
        },
    };
    let c_source = match CString::new(fsname.as_bytes()) {
        Some(c_source) => c_source,
        None => {
            return Err(Error::NulInFsname);
        },
    };
    Ok(DirectMount { source: c_source, options: c_opts })
}

/// The bytes of each of `args`.
pub open spec fn args_of(args: Seq<Vec<u8>>) -> Seq<Seq<u8>> {
    args.map_values(|arg: Vec<u8>| arg@)
}

/// The arguments with which the helper mounts the filesystem.
pub fn mount_helper_args(mountpoint: &[u8], fsname: &str, options: &[String]) -> (r: Vec<Vec<u8>>)
    ensures
        args_of(r@) == seq![
            encode_utf8("-o"@),
            encode_utf8(helper_text(fsname@, session::texts(options@))),
            encode_utf8("--"@),
            mountpoint@,
        ],
{
    let opts: String = helper_options(fsname, options);
    let mut args: Vec<Vec<u8>> = Vec::new();
    args.push(slice_to_vec("-o".as_bytes()));
    args.push(slice_to_vec(opts.as_str().as_bytes()));
    args.push(slice_to_vec("--".as_bytes()));
    args.push(slice_to_vec(mountpoint));
    assert(args_of(args@) =~= seq![
        encode_utf8("-o"@),
        encode_utf8(opts@),
        encode_utf8("--"@),
        mountpoint@,
    ]);
    args
}

/// The arguments with which the helper unmounts the filesystem, quietly and lazily.
pub fn unmount_helper_args(mountpoint: &[u8]) -> (r: Vec<Vec<u8>>)
    ensures
        args_of(r@) == seq![
            encode_utf8("-u"@),
            encode_utf8("-q"@),
            encode_utf8("-z"@),
            encode_utf8("--"@),
            mountpoint@,
        ],
{
    let mut args: Vec<Vec<u8>> = Vec::new();
    args.push(slice_to_vec("-u".as_bytes()));
    args.push(slice_to_vec("-q".as_bytes()));
    args.push(slice_to_vec("-z".as_bytes()));
    args.push(slice_to_vec("--".as_bytes()));
    args.push(slice_to_vec(mountpoint));
    assert(args_of(args@) =~= seq![
        encode_utf8("-u"@),
        encode_utf8("-q"@),
        encode_utf8("-z"@),
        encode_utf8("--"@),
        mountpoint@,
    ]);
    args
}

/// Ancillary data that came with a message of the helper.
#[derive(Debug, Clone, Copy, PartialEq, Eq, Structural)]
pub struct Ancillary {
    pub level: i32,
    pub kind: i32,
    /// The number where a file descriptor would be.
    pub fd: i32,
}

/// The file descriptor that the helper sent, where it sent one.
pub fn received_fd(ancillary: Option<Ancillary>) -> (r: Result<i32, Error>)
    ensures
        r == (match ancillary {
            None => Err(Error::NoDescriptor),
            Some(data) => if data.level != SOL_SOCKET || data.kind != SCM_RIGHTS {
                Err(Error::UnexpectedAncillary)
            } else if data.fd < 0 {
                Err(Error::InvalidDescriptor)
            } else {
                Ok(data.fd)
            },
        }),
{
    match ancillary {
        None => Err(Error::NoDescriptor),
        Some(data) => {
            if data.level != SOL_SOCKET || data.kind != SCM_RIGHTS {
                return Err(Error::UnexpectedAncillary);
            }
            if data.fd < 0 {
                return Err(Error::InvalidDescriptor);
            }
            Ok(data.fd)
        },
    }
}

/// Each option stands in the option strings, behind a comma and behind the options before it.
pub proof fn lemma_option_appended(options: Seq<Seq<char>>, option: Seq<char>)
    ensures
        appended(options.push(option)) == appended(options) + ","@ + option,
{
    assert(options.push(option).drop_last() =~= options);
}

/// The options are joined from the first on: none are no text, and one is itself behind a comma.
pub proof fn lemma_appended(first: Seq<char>, options: Seq<Seq<char>>)
    ensures
        appended(Seq::empty()).len() == 0,
        appended(seq![first] + options) == ","@ + first + appended(options),
    decreases options.len(),
{
    let all = seq![first] + options;
    if options.len() == 0 {
        let none = Seq::<Seq<char>>::empty();
        assert(all.drop_last() =~= none);
        assert(appended(none) =~= Seq::<char>::empty());
        assert(all.last() == first);
        assert(appended(all) =~= ","@ + first);
        assert(","@ + first + appended(options) =~= ","@ + first);
    } else {
        lemma_appended(first, options.drop_last());
        assert(all.drop_last() =~= seq![first] + options.drop_last());
        assert(appended(all) =~= ","@ + first + appended(options));
    }
}

/// What is written for a direct mount: the descriptor, the ids in decimal and the mode in octal,
/// each behind its name, and then the options.
pub proof fn lemma_direct_options(
    fd: i32,
    rootmode: u32,
    uid: u32,
    gid: u32,
    options: &[String],
    written: (Seq<char>, Seq<char>, Seq<char>, Seq<char>),
    r: String,
)
    requires
        call_ensures(direct_options, (fd, rootmode, uid, gid, options), r),
        text::is_signed_numeral(written.0, fd as int),
        text::is_numeral(written.1, rootmode as int, 8),
        text::is_numeral(written.2, uid as int, 10),
        text::is_numeral(written.3, gid as int, 10),
    ensures
        r@ == "fd="@ + written.0 + ",rootmode="@ + written.1 + ",user_id="@ + written.2
            + ",group_id="@ + written.3 + appended(session::texts(options@)),
{
    text::lemma_signed_unique(written.0, fd as int);
    text::lemma_numeral_unique(written.1, rootmode as nat, 8);
    text::lemma_numeral_unique(written.2, uid as nat, 10);
    text::lemma_numeral_unique(written.3, gid as nat, 10);
}

/// What is written for the helper: the name of the filesystem, and then the options.
pub proof fn lemma_helper_options(fsname: &str, options: &[String], r: String)
    requires
        call_ensures(helper_options, (fsname, options), r),
    ensures
        r@ == "fsname="@ + fsname@ + appended(session::texts(options@)),
{
}

/// The mode of the root has the kind of file of the mount point and nothing else.
pub proof fn lemma_root_mode(above: u32, kind: u32, permissions: u32, r: u32)
    requires
        above < 0x1_0000,
        kind < 16,
        permissions < 0x1000,
        call_ensures(
            root_mode,
            ((above * 0x1_0000 + kind * 0x1000 + permissions) as u32,),
            r,
        ),
    ensures
        r == kind * 0x1000,
{
}

/// The helper is tried after error number 1 and no other.
pub proof fn lemma_needs_helper(error: &Error, r: bool)
    requires
        call_ensures(needs_helper, (error,), r),
    ensures
        r <==> *error == Error::Os(1),
{
}

/// The path of the mount point is handed on as it is, unless it holds a zero byte.
pub proof fn lemma_mountpoint(mountpoint: &[u8], r: Result<CString, Error>)
    requires
        call_ensures(mountpoint_cstring, (mountpoint,), r),
    ensures
        match r {
            Ok(c) => c@ == mountpoint@ && !mountpoint@.contains(0),
            Err(err) => err == Error::NulInMountpoint && mountpoint@.contains(0),
        },
{
}

/// What a direct mount hands to the system, character by character as it is encoded. The options
/// are looked at first.
pub proof fn lemma_direct_mount(
    fd: i32,
    mode: (u32, u32, u32),
    ids: (u32, u32),
    fsname: &str,
    options: &[String],
    written: (Seq<char>, Seq<char>, Seq<char>, Seq<char>),
    r: Result<DirectMount, Error>,
)
    requires
        mode.0 < 0x1_0000,
        mode.1 < 16,
        mode.2 < 0x1000,
        call_ensures(
            direct_mount,
            (
                fd,
                (mode.0 * 0x1_0000 + mode.1 * 0x1000 + mode.2) as u32,
                ids.0,
                ids.1,
                fsname,
                options,
            ),
            r,
        ),
        text::is_signed_numeral(written.0, fd as int),
        text::is_numeral(written.1, mode.1 * 0x1000, 8),
        text::is_numeral(written.2, ids.0 as int, 10),
        text::is_numeral(written.3, ids.1 as int, 10),
    ensures
        ({
            let opts = encode_utf8(
                "fd="@ + written.0 + ",rootmode="@ + written.1 + ",user_id="@ + written.2
                    + ",group_id="@ + written.3 + appended(session::texts(options@)),
            );
            let source = encode_utf8(fsname@);
            match r {
                Ok(mount) => {
                    &&& mount.options@ == opts
                    &&& mount.source@ == source
                    &&& !opts.contains(0)
                    &&& !source.contains(0)
                },
                Err(err) => if opts.contains(0) {
                    err == Error::NulInOptions
                } else {
                    &&& source.contains(0)
                    &&& err == Error::NulInFsname
                },
            }
        }),
{
    text::lemma_signed_unique(written.0, fd as int);
    text::lemma_numeral_unique(written.1, (mode.1 * 0x1000) as nat, 8);
    text::lemma_numeral_unique(written.2, ids.0 as nat, 10);
    text::lemma_numeral_unique(written.3, ids.1 as nat, 10);
}

/// The helper's arguments: the options behind `-o`, and the mount point behind `--`; to unmount,
/// quietly and lazily.
pub proof fn lemma_helper_args(
    mountpoint: &[u8],
    fsname: &str,
    options: &[String],
    mounts: Vec<Vec<u8>>,
    unmounts: Vec<Vec<u8>>,
)
    requires
        call_ensures(mount_helper_args, (mountpoint, fsname, options), mounts),
        call_ensures(unmount_helper_args, (mountpoint,), unmounts),
    ensures
        mounts@.len() == 4,
        mounts@[0]@ == encode_utf8("-o"@),
        mounts@[1]@ == encode_utf8("fsname="@ + fsname@ + appended(session::texts(options@))),
        mounts@[2]@ == encode_utf8("--"@),
        mounts@[3]@ == mountpoint@,
        unmounts@.len() == 5,
        unmounts@[0]@ == encode_utf8("-u"@),
        unmounts@[1]@ == encode_utf8("-q"@),
        unmounts@[2]@ == encode_utf8("-z"@),
        unmounts@[3]@ == encode_utf8("--"@),
        unmounts@[4]@ == mountpoint@,
{
    let (m, u) = (args_of(mounts@), args_of(unmounts@));
    assert(m.len() == 4 && u.len() == 5);
    assert(m[0] == mounts@[0]@ && m[1] == mounts@[1]@);
    assert(m[2] == mounts@[2]@ && m[3] == mounts@[3]@);
    assert(u[0] == unmounts@[0]@ && u[1] == unmounts@[1]@ && u[2] == unmounts@[2]@);
    assert(u[3] == unmounts@[3]@ && u[4] == unmounts@[4]@);
}

/// The descriptor that the helper sent is one that came as such, and is not negative.
pub proof fn lemma_received_fd(ancillary: Option<Ancillary>, r: Result<i32, Error>)
    requires
        call_ensures(received_fd, (ancillary,), r),
    ensures
        match r {
            Ok(fd) => {
                &&& ancillary matches Some(data)
                &&& data.level == 1 && data.kind == 1
                &&& data.fd == fd && fd >= 0
            },
            Err(err) => match ancillary {
                None => err == Error::NoDescriptor,
                Some(data) => if data.level == 1 && data.kind == 1 {
                    err == Error::InvalidDescriptor && data.fd < 0
                } else {
                    err == Error::UnexpectedAncillary
                },
            },
        },
{
}

} // verus!
