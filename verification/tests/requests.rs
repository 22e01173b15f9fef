use std::sync::Arc;

use proxmox_fuse::cstring::CString;
use proxmox_fuse::error::{Error, EIO, ENOENT, ENOSYS, ERANGE};
use proxmox_fuse::protocol::{
    FattrFlags, FuseAttrOut, FuseCreateIn, FuseDirent, FuseEntryOut, FuseForgetIn, FuseGetxattrIn,
    FuseGetxattrOut, FuseInHeader, FuseInitIn, FuseKstatfs, FuseOpenIn, FuseOpenOut, FuseOutHeader,
    FuseReadIn, FuseReleaseIn, FuseRename2In, FuseSetattrIn, FuseWriteIn, FuseWriteOut, Opcode,
};
use proxmox_fuse::reply::{Rejected, Reply, ReplyError};
use proxmox_fuse::requests::{FuseRequest, Request, SetTime};
use proxmox_fuse::session::{Fuse, Next, Step};
use proxmox_fuse::sys::EntryParam;
use proxmox_fuse::util::{Duration, Stat, StatVfs, Timeout};
use proxmox_fuse::wire::{as_bytes, ByteOrder, Wire};

const ORDER: ByteOrder = ByteOrder::Big;

fn message(opcode: Opcode, unique: u64, body: &[u8]) -> (Arc<Vec<u8>>, usize) {
    let header = FuseInHeader {
        len: 40 + body.len() as u32,
        opcode: opcode.to_u32(),
        unique,
        nodeid: 77,
        uid: 0,
        gid: 0,
        pid: 0,
        total_extlen: 0,
        padding: 0,
    };
    let mut bytes = as_bytes(ORDER, &header);
    bytes.extend_from_slice(body);
    let nbytes = bytes.len();
    bytes.extend_from_slice(&[0xee; 9]);
    (Arc::new(bytes), nbytes)
}

fn session() -> Fuse {
    let mut fuse = Fuse::builder("test")
        .enable_readdir()
        .enable_readdirplus()
        .enable_mkdir()
        .enable_create()
        .enable_mknod()
        .enable_setattr()
        .enable_statfs()
        .enable_unlink()
        .enable_rmdir()
        .enable_rename()
        .enable_read()
        .enable_write()
        .enable_readlink()
        .enable_read_xattr()
        .build()
        .start(ORDER);
    let init = FuseInitIn {
        major: 7,
        minor: 31,
        max_readahead: 0,
        flags: 0,
        flags2: 0,
        unused: [0; 11],
    };
    let (buf, nbytes) = message(Opcode::Init, 1, &as_bytes(ORDER, &init));
    match fuse.process_request(&buf, nbytes, 4096) {
        Step::Handshake { .. } => fuse.init_replied(Ok(())).unwrap(),
        other => panic!("no handshake: {other:?}"),
    }
    fuse
}

/// The request that a message becomes.
fn request(opcode: Opcode, unique: u64, body: &[u8]) -> Request {
    let mut fuse = session();
    let (buf, nbytes) = message(opcode, unique, body);
    match fuse.process_request(&buf, nbytes, 4096) {
        Step::Done { answer: None, result: Ok(()) } => {}
        other => panic!("not accepted: {other:?}"),
    }
    match fuse.next() {
        Next::Yield(request) => request,
        other => panic!("nothing yielded: {other:?}"),
    }
}

fn header(bytes: &[u8]) -> (i32, u64) {
    let header = FuseOutHeader::decode(ORDER, bytes);
    assert_eq!(header.len as usize, bytes.len());
    (header.error, header.unique)
}

/// The body of a successful reply to request `unique`.
fn body(reply: &Reply, unique: u64) -> Vec<u8> {
    assert_eq!(header(reply.message()), (0, unique));
    reply.message()[16..].to_vec()
}

/// An ordinary reply: when it cannot be written, the automatic answer follows.
fn ordinary(reply: Reply, unique: u64) {
    let done = reply.complete(Err(Error::Os(ENOENT)));
    assert_eq!(done.result, Err(ReplyError::Io(Error::Os(ENOENT))));
    assert_eq!(header(&done.followup.unwrap()), (-ENOSYS, unique));
}

/// A reply with which the request is done, whether it can be written or not.
fn last_word(reply: Reply) {
    let done = reply.complete(Err(Error::Os(22)));
    assert_eq!(done.result, Err(ReplyError::Io(Error::Os(22))));
    assert_eq!(done.followup, None);
}

/// A reply that was not made: the automatic answer is written instead.
fn rejected(result: Result<Reply, Rejected>, unique: u64) -> Error {
    let rejected = result.unwrap_err();
    assert_eq!(header(&rejected.fallback.unwrap()), (-ENOSYS, unique));
    rejected.error
}

fn stat() -> Stat {
    Stat {
        st_ino: 5,
        st_nlink: 1,
        st_mode: 0o100644,
        st_uid: 1,
        st_gid: 2,
        st_rdev: 0,
        st_size: 1234,
        st_blksize: 0,
        st_blocks: 0,
        st_atime: 0,
        st_atime_nsec: 0,
        st_mtime: 0,
        st_mtime_nsec: 0,
        st_ctime: 0,
        st_ctime_nsec: 0,
    }
}

#[test]
fn lookup_reply() {
    let Request::Lookup(lookup) = request(Opcode::Lookup, 11, b"name\0") else { panic!() };
    assert_eq!((lookup.parent, &lookup.file_name[..]), (77, &b"name"[..]));
    let reply = lookup.reply(&EntryParam::simple(6, stat()));
    let entry = FuseEntryOut::decode(ORDER, &body(&reply, 11));
    assert_eq!((entry.nodeid, entry.generation, entry.attr.size), (6, 1, 1234));
    assert_eq!((entry.entry_valid, entry.attr_valid_nsec), (u64::MAX, 999_999_999));
    let done = reply.complete(Ok(()));
    assert_eq!((done.result, done.followup), (Ok(()), None));
}

#[test]
fn cancelled_replies() {
    let Request::Lookup(lookup) = request(Opcode::Lookup, 12, b"n") else { panic!() };
    let done = lookup.reply(&EntryParam::simple(6, stat())).complete(Err(Error::Os(ENOENT)));
    assert_eq!((done.result, done.followup), (Err(ReplyError::Cancelled), None));

    let open = FuseOpenIn { flags: 0x8000_0001, open_flags: 0 };
    let Request::Open(open) = request(Opcode::Open, 13, &as_bytes(ORDER, &open)) else { panic!() };
    assert_eq!(open.flags, i32::MIN + 1);
    let done = open.reply(1).complete(Err(Error::Os(ENOENT)));
    assert_eq!((done.result, done.followup), (Err(ReplyError::Cancelled), None));

    // Another error is no cancellation: the automatic answer follows.
    let Request::Lookup(lookup) = request(Opcode::Lookup, 14, b"n") else { panic!() };
    ordinary_io(lookup.reply(&EntryParam::simple(6, stat())), 14);
}

fn ordinary_io(reply: Reply, unique: u64) {
    let done = reply.complete(Err(Error::Os(22)));
    assert_eq!(done.result, Err(ReplyError::Io(Error::Os(22))));
    assert_eq!(header(&done.followup.unwrap()), (-ENOSYS, unique));
}

#[test]
fn forgets_get_no_reply() {
    let forget = as_bytes(ORDER, &FuseForgetIn { nlookup: 3 });
    let Request::Forget(forget_request) = request(Opcode::Forget, 15, &forget) else { panic!() };
    assert_eq!((forget_request.inode, forget_request.count), (77, 3));
    assert!(forget_request.reply().is_none());
    assert!(request(Opcode::Forget, 15, &forget).fail(5).is_none());
    assert!(request(Opcode::Forget, 15, &forget).io_fail(Error::Os(5)).is_none());
    assert!(request(Opcode::Forget, 15, &forget).abandon().is_none());
}

#[test]
fn failures() {
    let reply = request(Opcode::Getattr, 16, b"").fail(ENOENT).unwrap();
    assert_eq!(header(reply.message()), (-ENOENT, 16));
    assert_eq!(reply.message().len(), 16);
    last_word(reply);
    let reply = request(Opcode::Getattr, 17, b"").io_fail(Error::Os(13)).unwrap();
    assert_eq!(header(reply.message()), (-13, 17));
    for error in [Error::ReplyTooLong, Error::Other] {
        let reply = request(Opcode::Getattr, 18, b"").io_fail(error).unwrap();
        assert_eq!(header(reply.message()), (-EIO, 18));
    }
}

#[test]
fn dropped_requests() {
    let message = request(Opcode::Getattr, 19, b"").abandon().unwrap();
    assert_eq!((header(&message), message.len()), ((-ENOSYS, 19), 16));
    let listing = as_bytes(ORDER, &read_in(100, 0));
    for opcode in [Opcode::Readdir, Opcode::Readdirplus] {
        let message = request(opcode, 20, &listing).abandon().unwrap();
        assert_eq!((header(&message), message.len()), ((-EIO, 20), 16));
    }
}

#[test]
fn attribute_replies() {
    let Request::Getattr(getattr) = request(Opcode::Getattr, 21, b"ignored") else { panic!() };
    assert_eq!(getattr.inode, 77);
    let reply = getattr.reply(&stat(), Timeout::new(3, 4).unwrap());
    let out = FuseAttrOut::decode(ORDER, &body(&reply, 21));
    assert_eq!((out.attr_valid, out.attr_valid_nsec, out.dummy), (3, 4, 0));
    assert_eq!((out.attr.ino, out.attr.mode), (5, 0o100644));
    ordinary(reply, 21);
}

#[test]
fn statistics_replies() {
    let Request::Statfs(statfs) = request(Opcode::Statfs, 22, b"") else { panic!() };
    let reply = statfs.reply(&StatVfs {
        f_bsize: 4096,
        f_frsize: 4096,
        f_blocks: 1000,
        f_bfree: 500,
        f_bavail: 500,
        f_files: 100,
        f_ffree: 50,
        f_namemax: 255,
    });
    let out = FuseKstatfs::decode(ORDER, &body(&reply, 22));
    assert_eq!((out.blocks, out.bfree, out.namelen), (1000, 500, 255));
    ordinary(reply, 22);
}

fn read_in(size: u32, offset: u64) -> FuseReadIn {
    FuseReadIn { fh: 31, offset, size, read_flags: 0, lock_owner: 0, flags: 0, padding: 0 }
}

#[test]
fn directory_listings() {
    let listing = as_bytes(ORDER, &read_in(64, 2));
    let Request::Readdir(mut readdir) = request(Opcode::Readdir, 23, &listing) else { panic!() };
    assert_eq!((readdir.inode, readdir.offset), (77, 2));
    assert_eq!(readdir.add_entry(b"a\0b", &stat(), 1).err(), Some(Error::InvalidFileName));
    assert!(!readdir.add_entry(b"one", &stat(), 1).unwrap().is_full());
    assert!(!readdir.add_entry(b"two", &stat(), 2).unwrap().is_full());
    assert!(readdir.add_entry(b"three", &stat(), 3).unwrap().is_full());
    let reply = readdir.reply().unwrap();
    let data = body(&reply, 23);
    assert_eq!(data.len(), 64);
    assert_eq!(FuseDirent::decode(ORDER, &data).off, 1);
    assert_eq!(FuseDirent::decode(ORDER, &data[32..]).off, 2);
    assert_eq!(data[24..32], *b"one\0\0\0\0\0");
    assert_eq!(data[56..64], *b"two\0\0\0\0\0");
    ordinary(reply, 23);

    let Request::Readdir(readdir) = request(Opcode::Readdir, 24, &listing) else { panic!() };
    assert_eq!(body(&readdir.reply().unwrap(), 24), b"");
}

#[test]
fn directory_listings_with_attributes() {
    let listing = as_bytes(ORDER, &read_in(200, 0));
    let Request::ReaddirPlus(mut listing) = request(Opcode::Readdirplus, 25, &listing) else {
        panic!()
    };
    let (attr, entry) = (Timeout::new(1, 2).unwrap(), Timeout::new(3, 4).unwrap());
    let bad = listing.add_entry(b"\0", &stat(), 1, 9, attr, entry);
    assert_eq!(bad.err(), Some(Error::InvalidFileName));
    assert!(!listing.add_entry(b"one", &stat(), 1, 9, attr, entry).unwrap().is_full());
    assert!(listing.add_entry(b"two", &stat(), 2, 9, attr, entry).unwrap().is_full());
    let data = body(&listing.reply().unwrap(), 25);
    assert_eq!(data.len(), 160);
    let out = FuseEntryOut::decode(ORDER, &data);
    assert_eq!((out.nodeid, out.generation, out.attr_valid, out.entry_valid), (5, 9, 1, 3));
    assert_eq!(FuseDirent::decode(ORDER, &data[128..]).ino, 5);
}

#[test]
fn new_nodes() {
    let mkdir = b"\0\0\x01\xed1234dir\0";
    let Request::Mkdir(mkdir) = request(Opcode::Mkdir, 26, mkdir) else { panic!() };
    assert_eq!((mkdir.parent, &mkdir.dir_name[..], mkdir.mode), (77, &b"dir"[..], 0o755));
    let reply = mkdir.reply(&EntryParam::simple(6, stat()));
    assert_eq!(FuseEntryOut::decode(ORDER, &body(&reply, 26)).nodeid, 6);
    ordinary(reply, 26);

    let mknod = b"\0\0\x21\xa4\0\0\x01\x02abcdefghnode\0";
    let Request::Mknod(mknod) = request(Opcode::Mknod, 27, mknod) else { panic!() };
    assert_eq!((&mknod.file_name[..], mknod.mode, mknod.dev), (&b"node"[..], 0o20644, 0x0102));
    let reply = mknod.reply(&EntryParam::simple(7, stat()));
    assert_eq!(FuseEntryOut::decode(ORDER, &body(&reply, 27)).nodeid, 7);
    ordinary(reply, 27);
}

#[test]
fn created_files() {
    let create = FuseCreateIn { flags: 0, mode: 0o600, umask: 0, open_flags: 0 };
    let mut bytes = as_bytes(ORDER, &create);
    bytes.extend_from_slice(b"file\0");
    let Request::Create(mut create) = request(Opcode::Create, 28, &bytes) else { panic!() };
    assert_eq!((create.parent, &create.file_name[..], create.mode), (77, &b"file"[..], 0o600));
    create.file_info.set_direct_io(true);
    create.file_info.set_nonseekable(true);
    create.file_info.set_noflush(true);
    let reply = create.reply(&EntryParam::simple(6, stat()), 0xabc);
    let data = body(&reply, 28);
    assert_eq!(data.len(), 144);
    assert_eq!(FuseEntryOut::decode(ORDER, &data).nodeid, 6);
    let open = FuseOpenOut::decode(ORDER, &data[128..]);
    assert_eq!((open.fh, open.open_flags, open.backing_id), (0xabc, 1 | 4 | 32, 0));
    last_word(reply);

    let Request::Create(create) = request(Opcode::Create, 29, &bytes) else { panic!() };
    let done = create.reply(&EntryParam::simple(6, stat()), 1).complete(Err(Error::Os(ENOENT)));
    assert_eq!((done.result, done.followup), (Err(ReplyError::Cancelled), None));
}

#[test]
fn opened_files() {
    let open = as_bytes(ORDER, &FuseOpenIn { flags: 2, open_flags: 0 });
    let Request::Open(mut open) = request(Opcode::Open, 30, &open) else { panic!() };
    assert_eq!((open.inode, open.flags), (77, 2));
    open.file_info.set_keep_cache(true);
    open.file_info.set_cache_readdir(true);
    let reply = open.reply(0xdef);
    let out = FuseOpenOut::decode(ORDER, &body(&reply, 30));
    assert_eq!((out.fh, out.open_flags, out.backing_id), (0xdef, 2 | 8, 0));
    ordinary_io(reply, 30);
}

#[test]
fn replies_without_a_body() {
    let release = FuseReleaseIn { fh: 4, flags: 5, release_flags: 0, lock_owner: 0 };
    let Request::Release(release) = request(Opcode::Release, 31, &as_bytes(ORDER, &release)) else {
        panic!()
    };
    assert_eq!((release.inode, release.fh, release.flags), (77, 4, 5));
    let reply = release.reply();
    assert_eq!(body(&reply, 31), b"");
    ordinary(reply, 31);

    let Request::Unlink(unlink) = request(Opcode::Unlink, 32, b"gone\0") else { panic!() };
    assert_eq!((unlink.parent, &unlink.file_name[..]), (77, &b"gone"[..]));
    assert_eq!(body(&unlink.reply(), 32), b"");

    let Request::Rmdir(rmdir) = request(Opcode::Rmdir, 33, b"gone\0") else { panic!() };
    assert_eq!((rmdir.parent, &rmdir.dir_name[..]), (77, &b"gone"[..]));
    assert_eq!(body(&rmdir.reply(), 33), b"");

    let mut rename = as_bytes(ORDER, &FuseRename2In { newdir: 78, flags: 1, padding: 0 });
    rename.extend_from_slice(b"old\0new\0");
    let Request::Rename(rename) = request(Opcode::Rename2, 34, &rename) else { panic!() };
    assert_eq!((rename.parent, &rename.name[..]), (77, &b"old"[..]));
    assert_eq!((rename.new_parent, &rename.new_name[..]), (78, &b"new"[..]));
    assert_eq!(rename.flags, 1);
    assert_eq!(body(&rename.reply(), 34), b"");
}

fn read(unique: u64) -> proxmox_fuse::requests::Read {
    let bytes = as_bytes(ORDER, &read_in(5, 6));
    let Request::Read(read) = request(Opcode::Read, unique, &bytes) else { panic!() };
    assert_eq!((read.inode, read.fh, read.size, read.offset), (77, 31, 5, 6));
    read
}

#[test]
fn read_replies() {
    let reply = read(35).reply(b"12345").unwrap();
    assert_eq!(body(&reply, 35), b"12345");
    ordinary(reply, 35);
    assert_eq!(body(&read(35).reply(b"").unwrap(), 35), b"");
    assert_eq!(
        rejected(read(36).reply(b"123456"), 36),
        Error::ReadReplyTooLarge { len: 6, size: 5 }
    );
}

#[test]
fn vectored_read_replies() {
    let reply = read(37).reply_vectored(&[b"12", b"", b"345"]).unwrap();
    assert_eq!(body(&reply, 37), b"12345");
    last_word(reply);
    assert_eq!(body(&read(37).reply_vectored(&[]).unwrap(), 37), b"");
    assert_eq!(
        rejected(read(38).reply_vectored(&[b"123", b"456"]), 38),
        Error::ReadVectoredReplyTooLarge { len: 6, size: 5 }
    );
}

#[test]
fn replies_beyond_the_length_field() {
    // The same bytes over and over, so that they need not be there four thousand times.
    let chunk = vec![0u8; 1 << 20];
    let slices = vec![&chunk[..]; 1 << 12];
    let mut large = read(39);
    large.size = usize::MAX;
    // The request counted as answered.
    let rejected = large.reply_vectored(&slices).unwrap_err();
    assert_eq!((rejected.error, rejected.fallback), (Error::ReplyTooLong, None));
}

fn write(unique: u64) -> proxmox_fuse::requests::Write {
    let write = FuseWriteIn {
        fh: 8,
        offset: 9,
        size: 4,
        write_flags: 0,
        lock_owner: 0,
        flags: 0,
        padding: 0,
    };
    let mut bytes = as_bytes(ORDER, &write);
    bytes.extend_from_slice(b"datamore");
    let Request::Write(write) = request(Opcode::Write, unique, &bytes) else { panic!() };
    assert_eq!((write.inode, write.fh, write.size, write.offset), (77, 8, 4, 9));
    write
}

#[test]
fn writes() {
    assert_eq!(write(41).data(), b"data");
    let reply = write(41).reply(4).unwrap();
    let out = FuseWriteOut::decode(ORDER, &body(&reply, 41));
    assert_eq!((out.size, out.padding), (4, 0));
    ordinary(reply, 41);
    assert_eq!(
        rejected(write(42).reply(5), 42),
        Error::WriteReplyTooLarge { len: 5, size: 4 }
    );
    let mut large = write(43);
    large.size = usize::MAX;
    assert_eq!(rejected(large.reply(1 << 32), 43), Error::WriteSizeTooLarge);
}

#[test]
fn links() {
    let readlink = |unique| {
        let Request::Readlink(readlink) = request(Opcode::Readlink, unique, b"") else { panic!() };
        assert_eq!(readlink.inode, 77);
        readlink
    };
    // The target has no terminator.
    let reply = readlink(44).reply(b"../target").unwrap();
    assert_eq!(body(&reply, 44), b"../target");
    ordinary(reply, 44);
    let target = CString::new(b"t").unwrap();
    assert_eq!(body(&readlink(45).c_reply(&target).unwrap(), 45), b"t");
    assert_eq!(rejected(readlink(46).reply(b"a\0b"), 46), Error::InvalidLink);
}

fn xattr_in(size: u32, name: &[u8]) -> Vec<u8> {
    let mut bytes = as_bytes(ORDER, &FuseGetxattrIn { size, padding: 0 });
    bytes.extend_from_slice(name);
    bytes
}

#[test]
fn attribute_sizes() {
    let list = |unique| match request(Opcode::Listxattr, unique, &xattr_in(0, b"")) {
        Request::ListXAttrSize(list) => list,
        other => panic!("{other:?}"),
    };
    let out = FuseGetxattrOut::decode(ORDER, &body(&list(47).reply(99).unwrap(), 47));
    assert_eq!((out.size, out.padding), (99, 0));
    assert_eq!(rejected(list(48).reply(1 << 32), 48), Error::XattrSizeTooLarge);

    let get = |unique| match request(Opcode::Getxattr, unique, &xattr_in(0, b"user.a\0")) {
        Request::GetXAttrSize(get) => get,
        other => panic!("{other:?}"),
    };
    assert_eq!(get(49).attr_name, b"user.a");
    let reply = get(49).reply(u32::MAX as usize).unwrap();
    assert_eq!(FuseGetxattrOut::decode(ORDER, &body(&reply, 49)).size, u32::MAX);
    ordinary(reply, 49);
    assert_eq!(rejected(get(50).reply(1 << 32), 50), Error::XattrSizeTooLarge);
}

fn list(unique: u64) -> proxmox_fuse::requests::ListXAttr {
    match request(Opcode::Listxattr, unique, &xattr_in(10, b"")) {
        Request::ListXAttr(list) => {
            assert_eq!((list.inode, list.size), (77, 10));
            list
        }
        other => panic!("{other:?}"),
    }
}

#[test]
fn attribute_lists() {
    let mut names = list(51);
    assert!(!names.add(b"abc").is_full());
    assert!(names.add(b"abcdef").is_full());
    assert!(!names.add_c_string(&CString::new(b"de").unwrap()).is_full());
    assert!(names.add_bytes_without_zero(b"fgh").is_full());
    assert!(!names.add_bytes_with_zero(b"fg\0").is_full());
    assert!(names.add_bytes_with_zero(b"\0").is_full());
    let reply = names.reply().unwrap();
    assert_eq!(body(&reply, 51), b"abc\0de\0fg\0");
    ordinary(reply, 51);
    assert_eq!(body(&list(51).reply().unwrap(), 51), b"");
}

#[test]
fn raw_attribute_lists() {
    let mut names = list(52);
    assert!(!names.add(b"abc").is_full());
    assert_eq!(names.set_raw_reply(vec![7; 11]), Err(vec![7; 11]));
    assert_eq!(names.set_raw_reply(vec![8; 10]), Ok(()));
    assert_eq!(body(&names.reply().unwrap(), 52), [8; 10]);

    assert_eq!(body(&list(53).reply_raw(b"0123456789").unwrap(), 53), b"0123456789");
    let reply = list(54).reply_raw(b"0123456789a").unwrap();
    assert_eq!((header(reply.message()), reply.message().len()), ((-ERANGE, 54), 16));
    last_word(reply);
    let reply = list(55).fail_full();
    assert_eq!(header(reply.message()), (-ERANGE, 55));
    last_word(reply);
}

#[test]
fn attribute_values() {
    let get = |unique| match request(Opcode::Getxattr, unique, &xattr_in(3, b"user.b\0")) {
        Request::GetXAttr(get) => get,
        other => panic!("{other:?}"),
    };
    assert_eq!((get(56).inode, &get(56).attr_name[..], get(56).size), (77, &b"user.b"[..], 3));
    assert_eq!(body(&get(56).reply(b"123").unwrap(), 56), b"123");
    let reply = get(57).reply(b"1234").unwrap();
    assert_eq!(header(reply.message()), (-ERANGE, 57));
    last_word(reply);
}

fn setattr(valid: u32) -> proxmox_fuse::requests::Setattr {
    let setattr = FuseSetattrIn {
        valid,
        padding: 0,
        fh: 3,
        size: u64::MAX,
        lock_owner: 0,
        atime: 10,
        mtime: u64::MAX,
        ctime: 12,
        atimensec: 1_000_000_000,
        mtimensec: 14,
        ctimensec: 15,
        mode: 0o640,
        unused4: 0,
        uid: 16,
        gid: 17,
        unused5: 0,
    };
    let Request::Setattr(setattr) = request(Opcode::Setattr, 58, &as_bytes(ORDER, &setattr)) else {
        panic!()
    };
    assert_eq!(setattr.inode, 77);
    setattr
}

#[test]
fn attributes_to_be_set() {
    let all = setattr(u32::MAX);
    assert_eq!(all.to_set.bits(), FattrFlags::ALL);
    assert_eq!(all.fh, Some(3));
    assert_eq!((all.mode(), all.uid(), all.gid()), (Some(0o640), Some(16), Some(17)));
    assert_eq!(all.size(), Some(u64::MAX));
    // The nanoseconds are clamped, and a given time goes before the current one.
    let atime = Duration { secs: 10, nanos: 999_999_999 };
    assert_eq!(all.atime(), Some(SetTime::Time(atime)));
    // So are the seconds.
    assert_eq!(all.mtime(), Some(SetTime::Time(Duration { secs: 0, nanos: 14 })));
    assert_eq!(all.ctime(), Some(Duration { secs: 12, nanos: 15 }));

    let none = setattr(0);
    assert_eq!(none.fh, None);
    assert_eq!((none.mode(), none.uid(), none.gid(), none.size()), (None, None, None, None));
    assert_eq!((none.atime(), none.mtime(), none.ctime()), (None, None, None));

    let now = setattr(FattrFlags::ATIME_NOW | FattrFlags::MTIME_NOW);
    assert_eq!((now.atime(), now.mtime()), (Some(SetTime::Now), Some(SetTime::Now)));
    let reply = now.reply(&stat(), Timeout::new(1, 0).unwrap());
    assert_eq!(FuseAttrOut::decode(ORDER, &body(&reply, 58)).attr.size, 1234);
    ordinary(reply, 58);
}
