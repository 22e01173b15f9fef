use proxmox_fuse::error;
use proxmox_fuse::error::Error;
use proxmox_fuse::mount;
use proxmox_fuse::text;
use proxmox_fuse::ReplyError;

#[test]
fn numbers_of_the_system() {
    assert_eq!(error::EPERM, libc::EPERM);
    assert_eq!(error::ENOENT, libc::ENOENT);
    assert_eq!(error::EIO, libc::EIO);
    assert_eq!(error::ENODEV, libc::ENODEV);
    assert_eq!(error::ERANGE, libc::ERANGE);
    assert_eq!(error::ENOSYS, libc::ENOSYS);
    assert_eq!(error::ECONNABORTED, libc::ECONNABORTED);
    assert_eq!(mount::S_IFMT, libc::S_IFMT);
    assert_eq!(mount::SOL_SOCKET, libc::SOL_SOCKET);
    assert_eq!(mount::SCM_RIGHTS, libc::SCM_RIGHTS);
}

#[test]
fn only_system_errors_have_a_number() {
    assert_eq!(Error::Os(17).raw_os_error(), Some(17));
    assert_eq!(Error::ShortRead.raw_os_error(), None);
    assert_eq!(Error::Other.raw_os_error(), None);
    assert_eq!(Error::Os(17).message(), None);
    assert_eq!(Error::Other.message(), None);
}

fn says(error: Error, text: &str) {
    assert_eq!(error.message().as_deref(), Some(text));
}

#[test]
fn messages() {
    says(Error::ShortRead, "short read from /dev/fuse");
    says(
        Error::LengthMismatch { stated: 41, nbytes: 1040 },
        "FUSE header.len (41) does not match read size (1040)",
    );
    says(
        Error::Truncated { expected: 88, got: 0 },
        "truncated FUSE message: expected 88 bytes, got 0",
    );
    says(Error::NoName, "truncated FUSE message: body too short for name");
    says(Error::NoNames, "truncated FUSE message: body too short for names");
    says(Error::NoSeparator, "malformed FUSE rename: missing NUL separator between names");
    says(Error::WriteOverflow, "FUSE write size overflows");
    says(
        Error::WriteTruncated { claimed: 100, nbytes: 90 },
        "FUSE write claims 100 data bytes but message is only 90 bytes",
    );
    says(Error::NotInit { opcode: 3 }, "expected FUSE_INIT, got opcode 3");
    says(
        Error::UnsupportedMajor { major: 8 },
        "unsupported FUSE protocol major version: 8 (expected 7)",
    );
    says(Error::ReplyTooLong, "FUSE reply exceeds u32::MAX");
    says(Error::XattrSizeTooLarge, "xattr size exceeds u32::MAX");
    says(Error::InvalidFileName, "tried to reply with invalid file name");
    says(Error::InvalidLink, "tried to reply with invalid link");
    says(
        Error::ReadReplyTooLarge { len: 11, size: 10 },
        "Read reply (11 bytes) exceeds requested size (10 bytes)",
    );
    says(
        Error::ReadVectoredReplyTooLarge { len: 12, size: 10 },
        "Read reply_vectored (12 bytes) exceeds requested size (10 bytes)",
    );
    says(
        Error::WriteReplyTooLarge { len: 13, size: 10 },
        "write reply size (13) exceeds original write size (10)",
    );
    says(Error::WriteSizeTooLarge, "write size exceeds u32::MAX");
    says(Error::NulInMountpoint, "mountpoint path contains NUL byte");
    says(Error::NulInOptions, "mount options contain NUL byte");
    says(Error::NulInFsname, "fsname contains NUL byte");
    says(Error::NoDescriptor, "fusermount3 did not send a file descriptor");
    says(Error::UnexpectedAncillary, "unexpected ancillary data from fusermount3");
    says(Error::InvalidDescriptor, "fusermount3 sent an invalid file descriptor");
    says(Error::OptionNotUtf8, "option is not valid UTF-8");
}

#[test]
fn reply_errors() {
    assert_eq!(ReplyError::Cancelled.message().as_deref(), Some("request was cancelled"));
    assert_eq!(ReplyError::Cancelled.source(), None);
    let io = ReplyError::from(Error::ReplyTooLong);
    assert_eq!(io, ReplyError::Io(Error::ReplyTooLong));
    assert_eq!(io.message().as_deref(), Some("reply I/O error: FUSE reply exceeds u32::MAX"));
    assert_eq!(io.source(), Some(Error::ReplyTooLong));
    assert_eq!(ReplyError::Io(Error::Os(5)).message(), None);
}

#[test]
fn numbers_as_text() {
    let mut s = String::new();
    text::push_decimal(&mut s, 0);
    s.push(' ');
    text::push_decimal(&mut s, u64::MAX);
    s.push(' ');
    text::push_signed(&mut s, i32::MIN);
    s.push(' ');
    text::push_signed(&mut s, 42);
    s.push(' ');
    text::push_numeral(&mut s, 0o40755, 8);
    assert_eq!(s, format!("0 {} {} 42 40755", u64::MAX, i32::MIN));
}
