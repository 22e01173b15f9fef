//! What can go wrong.

use vstd::prelude::*;
use vstd::string::StringExecFns;

use crate::protocol::FUSE_KERNEL_VERSION;
use crate::text;

verus! {

/// Operation not permitted.
pub const EPERM: i32 = 1;

/// No such file or directory.
pub const ENOENT: i32 = 2;

/// Input/output error.
pub const EIO: i32 = 5;

/// No such device.
pub const ENODEV: i32 = 19;

/// Result does not fit.
pub const ERANGE: i32 = 34;

/// Function not implemented.
pub const ENOSYS: i32 = 38;

/// Connection aborted.
pub const ECONNABORTED: i32 = 103;

/// An error of the operating system or of the caller, or one that this library found itself.
#[derive(Debug, Clone, Copy, PartialEq, Eq, Structural)]
pub enum Error {
    /// A system call failed with this error number.
    Os(i32),
    /// An error of the caller's own, which has no number.
    Other,
    /// The device handed out less than a message header.
    ShortRead,
    /// The length in a message header is not the length of the message.
    LengthMismatch { stated: u32, nbytes: usize },
    /// A message body is too short for its structure.
    Truncated { expected: usize, got: usize },
    /// A message body is too short for the structure before its name.
    NoName,
    /// A message body is too short for the structure before its two names.
    NoNames,
    /// The two names of a rename are not separated.
    NoSeparator,
    /// The end of a write's data is beyond the address space.
    WriteOverflow,
    /// A write claims more data than its message holds.
    WriteTruncated { claimed: u32, nbytes: usize },
    /// Something else came before the initial handshake.
    NotInit { opcode: u32 },
    /// The kernel speaks another major version of the protocol.
    UnsupportedMajor { major: u32 },
    /// A reply does not fit the length field of its header.
    ReplyTooLong,
    /// A size of extended attributes does not fit its field.
    XattrSizeTooLarge,
    /// A directory entry's name holds a zero byte.
    InvalidFileName,
    /// A link target holds a zero byte.
    InvalidLink,
    /// More data than the read asked for.
    ReadReplyTooLarge { len: usize, size: usize },
    /// More data, over all its parts, than the read asked for.
    ReadVectoredReplyTooLarge { len: usize, size: usize },
    /// More written than the write asked for.
    WriteReplyTooLarge { len: usize, size: usize },
    /// A number of bytes written does not fit its field.
    WriteSizeTooLarge,
    /// The path of the mount point holds a zero byte.
    NulInMountpoint,
    /// The mount options hold a zero byte.
    NulInOptions,
    /// The name of the filesystem holds a zero byte.
    NulInFsname,
    /// The mount helper sent no file descriptor.
    NoDescriptor,
    /// The mount helper sent something other than a file descriptor.
    UnexpectedAncillary,
    /// The mount helper sent a negative file descriptor.
    InvalidDescriptor,
    /// A mount option is not valid UTF-8.
    OptionNotUtf8,
}

impl Error {
    /// The system's error number, where this is an error of the system.
    pub open spec fn errno(self) -> Option<i32> {
        match self {
            Error::Os(errno) => Some(errno),
            _ => None,
        }
    }

    /// The system's error number, where this is an error of the system.
    pub fn raw_os_error(&self) -> (r: Option<i32>)
        ensures
            r == self.errno(),
    {
        match self {
            Error::Os(errno) => Some(*errno),
            _ => None,
        }
    }

    /// What the error says of itself; the system and the caller word their own errors.
    pub open spec fn text(self) -> Option<Seq<char>> {
        match self {
            Error::Os(_) => None,
            Error::Other => None,
            Error::ShortRead => Some("short read from /dev/fuse"@),
            Error::LengthMismatch { stated, nbytes } => Some(
                "FUSE header.len ("@ + text::numeral(stated as nat, 10)
                    + ") does not match read size ("@ + text::numeral(nbytes as nat, 10) + ")"@,
            ),
            Error::Truncated { expected, got } => Some(
                "truncated FUSE message: expected "@ + text::numeral(expected as nat, 10)
                    + " bytes, got "@ + text::numeral(got as nat, 10),
            ),
            Error::NoName => Some("truncated FUSE message: body too short for name"@),
            Error::NoNames => Some("truncated FUSE message: body too short for names"@),
            Error::NoSeparator => Some(
                "malformed FUSE rename: missing NUL separator between names"@,
            ),
            Error::WriteOverflow => Some("FUSE write size overflows"@),
            Error::WriteTruncated { claimed, nbytes } => Some(
                "FUSE write claims "@ + text::numeral(claimed as nat, 10)
                    + " data bytes but message is only "@ + text::numeral(nbytes as nat, 10)
                    + " bytes"@,
            ),
            Error::NotInit { opcode } => Some(
                "expected FUSE_INIT, got opcode "@ + text::numeral(opcode as nat, 10),
            ),
            Error::UnsupportedMajor { major } => Some(
                "unsupported FUSE protocol major version: "@ + text::numeral(major as nat, 10)
                    + " (expected "@ + text::numeral(FUSE_KERNEL_VERSION as nat, 10) + ")"@,
            ),
            Error::ReplyTooLong => Some("FUSE reply exceeds u32::MAX"@),
            Error::XattrSizeTooLarge => Some("xattr size exceeds u32::MAX"@),
            Error::InvalidFileName => Some("tried to reply with invalid file name"@),
            Error::InvalidLink => Some("tried to reply with invalid link"@),
            Error::ReadReplyTooLarge { len, size } => Some(
                "Read reply ("@ + text::numeral(len as nat, 10)
                    + " bytes) exceeds requested size ("@ + text::numeral(size as nat, 10)
                    + " bytes)"@,
            ),
            Error::ReadVectoredReplyTooLarge { len, size } => Some(
                "Read reply_vectored ("@ + text::numeral(len as nat, 10)
                    + " bytes) exceeds requested size ("@ + text::numeral(size as nat, 10)
                    + " bytes)"@,
            ),
            Error::WriteReplyTooLarge { len, size } => Some(
                "write reply size ("@ + text::numeral(len as nat, 10)
                    + ") exceeds original write size ("@ + text::numeral(size as nat, 10) + ")"@,
            ),
            Error::WriteSizeTooLarge => Some("write size exceeds u32::MAX"@),
            Error::NulInMountpoint => Some("mountpoint path contains NUL byte"@),
            Error::NulInOptions => Some("mount options contain NUL byte"@),
            Error::NulInFsname => Some("fsname contains NUL byte"@),
            Error::NoDescriptor => Some("fusermount3 did not send a file descriptor"@),
            Error::UnexpectedAncillary => Some("unexpected ancillary data from fusermount3"@),
            Error::InvalidDescriptor => Some("fusermount3 sent an invalid file descriptor"@),
            Error::OptionNotUtf8 => Some("option is not valid UTF-8"@),
        }
    }

    /// What the error says of itself; `None` for one of the system or of the caller, which word
    /// their own.
    pub fn message(&self) -> (r: Option<String>)
        ensures
            r is None <==> self.text() is None,
            r matches Some(s) ==> self.text() == Some(s@),
    {
        let mut s: String = String::new();
        match self {
            Error::Os(_) => {
                return None;
            },
            Error::Other => {
                return None;
            },
            Error::ShortRead => s.append("short read from /dev/fuse"),
            Error::LengthMismatch { stated, nbytes } => {
                s.append("FUSE header.len (");
                text::push_decimal(&mut s, *stated as u64);
                s.append(") does not match read size (");
                text::push_decimal(&mut s, *nbytes as u64);
                s.append(")");
            },
            Error::Truncated { expected, got } => {
                s.append("truncated FUSE message: expected ");
                text::push_decimal(&mut s, *expected as u64);
                s.append(" bytes, got ");
                text::push_decimal(&mut s, *got as u64);
            },
            Error::NoName => s.append("truncated FUSE message: body too short for name"),
            Error::NoNames => s.append("truncated FUSE message: body too short for names"),
            Error::NoSeparator => s.append(
                "malformed FUSE rename: missing NUL separator between names",
            ),
            Error::WriteOverflow => s.append("FUSE write size overflows"),
            Error::WriteTruncated { claimed, nbytes } => {
                s.append("FUSE write claims ");
                text::push_decimal(&mut s, *claimed as u64);
                s.append(" data bytes but message is only ");
                text::push_decimal(&mut s, *nbytes as u64);
                s.append(" bytes");
            },
            Error::NotInit { opcode } => {
                s.append("expected FUSE_INIT, got opcode ");
                text::push_decimal(&mut s, *opcode as u64);
            },
            Error::UnsupportedMajor { major } => {
                s.append("unsupported FUSE protocol major version: ");
                text::push_decimal(&mut s, *major as u64);
                s.append(" (expected ");
                text::push_decimal(&mut s, FUSE_KERNEL_VERSION as u64);
                s.append(")");
            },
            Error::ReplyTooLong => s.append("FUSE reply exceeds u32::MAX"),
            Error::XattrSizeTooLarge => s.append("xattr size exceeds u32::MAX"),
            Error::InvalidFileName => s.append("tried to reply with invalid file name"),
            Error::InvalidLink => s.append("tried to reply with invalid link"),
            Error::ReadReplyTooLarge { len, size } => {
                s.append("Read reply (");
                text::push_decimal(&mut s, *len as u64);
                s.append(" bytes) exceeds requested size (");
                text::push_decimal(&mut s, *size as u64);
                s.append(" bytes)");
            },
            Error::ReadVectoredReplyTooLarge { len, size } => {
                s.append("Read reply_vectored (");
                text::push_decimal(&mut s, *len as u64);
                s.append(" bytes) exceeds requested size (");
                text::push_decimal(&mut s, *size as u64);
                s.append(" bytes)");
            },
            Error::WriteReplyTooLarge { len, size } => {
                s.append("write reply size (");
                text::push_decimal(&mut s, *len as u64);
                s.append(") exceeds original write size (");
                text::push_decimal(&mut s, *size as u64);
                s.append(")");
            },
            Error::WriteSizeTooLarge => s.append("write size exceeds u32::MAX"),
            Error::NulInMountpoint => s.append("mountpoint path contains NUL byte"),
            Error::NulInOptions => s.append("mount options contain NUL byte"),
            Error::NulInFsname => s.append("fsname contains NUL byte"),
            Error::NoDescriptor => s.append("fusermount3 did not send a file descriptor"),
            Error::UnexpectedAncillary => s.append("unexpected ancillary data from fusermount3"),
            Error::InvalidDescriptor => s.append("fusermount3 sent an invalid file descriptor"),
            Error::OptionNotUtf8 => s.append("option is not valid UTF-8"),
        }
        assert(self.text() == Some(s@)) by {
            assert(s@ =~= self.text()->0);
        }
        Some(s)
    }
}

/// What an error without numbers says. One of the system or of the caller says nothing itself.
pub proof fn lemma_plain_messages(err: &Error, r: Option<String>)
    requires
        call_ensures(Error::message, (err,), r),
    ensures
        r is None <==> *err is Os || *err is Other,
        match *err {
            Error::ShortRead => r->0@ == "short read from /dev/fuse"@,
            Error::NoName => r->0@ == "truncated FUSE message: body too short for name"@,
            Error::NoNames => r->0@ == "truncated FUSE message: body too short for names"@,
            Error::NoSeparator => r->0@
                == "malformed FUSE rename: missing NUL separator between names"@,
            Error::WriteOverflow => r->0@ == "FUSE write size overflows"@,
            Error::ReplyTooLong => r->0@ == "FUSE reply exceeds u32::MAX"@,
            Error::XattrSizeTooLarge => r->0@ == "xattr size exceeds u32::MAX"@,
            Error::InvalidFileName => r->0@ == "tried to reply with invalid file name"@,
            Error::InvalidLink => r->0@ == "tried to reply with invalid link"@,
            Error::WriteSizeTooLarge => r->0@ == "write size exceeds u32::MAX"@,
            Error::NulInMountpoint => r->0@ == "mountpoint path contains NUL byte"@,
            Error::NulInOptions => r->0@ == "mount options contain NUL byte"@,
            Error::NulInFsname => r->0@ == "fsname contains NUL byte"@,
            Error::NoDescriptor => r->0@ == "fusermount3 did not send a file descriptor"@,
            Error::UnexpectedAncillary => r->0@ == "unexpected ancillary data from fusermount3"@,
            Error::InvalidDescriptor => r->0@ == "fusermount3 sent an invalid file descriptor"@,
            Error::OptionNotUtf8 => r->0@ == "option is not valid UTF-8"@,
            _ => true,
        },
{
}

/// What an error with numbers says: the numbers in decimal, in their places.
pub proof fn lemma_numbered_messages(err: &Error, a: Seq<char>, b: Seq<char>, r: Option<String>)
    requires
        call_ensures(Error::message, (err,), r),
    ensures
        match *err {
            Error::LengthMismatch { stated, nbytes } => text::is_numeral(a, stated as int, 10)
                && text::is_numeral(b, nbytes as int, 10) ==> r->0@ == "FUSE header.len ("@ + a
                + ") does not match read size ("@ + b + ")"@,
            Error::Truncated { expected, got } => text::is_numeral(a, expected as int, 10)
                && text::is_numeral(b, got as int, 10) ==> r->0@
                == "truncated FUSE message: expected "@ + a + " bytes, got "@ + b,
            Error::WriteTruncated { claimed, nbytes } => text::is_numeral(a, claimed as int, 10)
                && text::is_numeral(b, nbytes as int, 10) ==> r->0@ == "FUSE write claims "@ + a
                + " data bytes but message is only "@ + b + " bytes"@,
            Error::NotInit { opcode } => text::is_numeral(a, opcode as int, 10) ==> r->0@
                == "expected FUSE_INIT, got opcode "@ + a,
            Error::UnsupportedMajor { major } => text::is_numeral(a, major as int, 10)
                && text::is_numeral(b, 7, 10) ==> r->0@
                == "unsupported FUSE protocol major version: "@ + a + " (expected "@ + b + ")"@,
            Error::ReadReplyTooLarge { len, size } => text::is_numeral(a, len as int, 10)
                && text::is_numeral(b, size as int, 10) ==> r->0@ == "Read reply ("@ + a
                + " bytes) exceeds requested size ("@ + b + " bytes)"@,
            Error::ReadVectoredReplyTooLarge { len, size } => text::is_numeral(a, len as int, 10)
                && text::is_numeral(b, size as int, 10) ==> r->0@ == "Read reply_vectored ("@ + a
                + " bytes) exceeds requested size ("@ + b + " bytes)"@,
            Error::WriteReplyTooLarge { len, size } => text::is_numeral(a, len as int, 10)
                && text::is_numeral(b, size as int, 10) ==> r->0@ == "write reply size ("@ + a
                + ") exceeds original write size ("@ + b + ")"@,
            _ => true,
        },
{
    if text::is_numeral(a, text::value(a, 10), 10) && text::value(a, 10) >= 0 {
        text::lemma_numeral_unique(a, text::value(a, 10) as nat, 10);
    }
    if text::is_numeral(b, text::value(b, 10), 10) && text::value(b, 10) >= 0 {
        text::lemma_numeral_unique(b, text::value(b, 10) as nat, 10);
    }
}

} // verus!
