use std::sync::Arc;

use proxmox_fuse::cstring::CString;
use proxmox_fuse::error::{Error, ECONNABORTED, EIO, ENODEV, ENOSYS};
use proxmox_fuse::protocol::{
    FuseBatchForgetIn, FuseForgetOne, FuseInHeader, FuseInitIn, FuseInitOut, FuseOutHeader,
    FuseReadIn, FuseWriteIn, InitFlags, Opcode, FUSE_MIN_READ_BUFFER,
};
use proxmox_fuse::session::{
    negotiate_init, AfterRead, EnabledOps, Fuse, FuseSessionBuilder, Next, ReadOutcome, Step,
    MAX_WRITE, READ_BUF_SIZE,
};
use proxmox_fuse::wire::{as_bytes, ByteOrder, Wire};
use proxmox_fuse::Request;

const ORDER: ByteOrder = ByteOrder::Little;

fn bytes(opcode: u32, unique: u64, body: &[u8]) -> Vec<u8> {
    let header = FuseInHeader {
        len: 40 + body.len() as u32,
        opcode,
        unique,
        nodeid: 9,
        uid: 0,
        gid: 0,
        pid: 0,
        total_extlen: 0,
        padding: 0,
    };
    let mut bytes = as_bytes(ORDER, &header);
    bytes.extend_from_slice(body);
    bytes
}

fn process(fuse: &mut Fuse, message: Vec<u8>) -> Step {
    let nbytes = message.len();
    fuse.process_request(&Arc::new(message), nbytes, 4096)
}

fn send(
    fuse: &mut Fuse,
    opcode: Opcode,
    unique: u64,
    body: &[u8],
) -> (Option<Vec<u8>>, Result<(), Error>) {
    match process(fuse, bytes(opcode.to_u32(), unique, body)) {
        Step::Done { answer, result } => (answer, result),
        other => panic!("{other:?}"),
    }
}

fn init_in(flags: u32) -> FuseInitIn {
    FuseInitIn { major: 7, minor: 36, max_readahead: 1111, flags, flags2: 0, unused: [0; 11] }
}

fn ready(builder: FuseSessionBuilder) -> Fuse {
    let mut fuse = builder.build().start(ORDER);
    let body = as_bytes(ORDER, &init_in(0));
    match process(&mut fuse, bytes(26, 1, &body)) {
        Step::Handshake { .. } => fuse.init_replied(Ok(())).unwrap(),
        other => panic!("{other:?}"),
    }
    fuse
}

fn everything() -> FuseSessionBuilder {
    Fuse::builder("test")
        .enable_readdir()
        .enable_readdirplus()
        .enable_mkdir()
        .enable_create()
        .enable_mknod()
        .enable_open()
        .enable_setattr()
        .enable_statfs()
        .enable_unlink()
        .enable_rmdir()
        .enable_rename()
        .enable_read()
        .enable_write()
        .enable_readlink()
        .enable_read_xattr()
}

fn yielded(fuse: &mut Fuse) -> Request {
    match fuse.next() {
        Next::Yield(request) => request,
        other => panic!("{other:?}"),
    }
}

fn is_waiting(fuse: &mut Fuse) -> bool {
    matches!(fuse.next(), Next::Wait)
}

fn not_implemented(answer: Option<Vec<u8>>, unique: u64) {
    let answer = answer.unwrap();
    let header = FuseOutHeader::decode(ORDER, &answer);
    assert_eq!((header.len, header.error, header.unique), (16, -ENOSYS, unique));
    assert_eq!(answer.len(), 16);
}

#[test]
fn buffer_sizes() {
    assert_eq!(MAX_WRITE, 256 * 1024);
    assert_eq!(READ_BUF_SIZE, 266240);
    assert!(READ_BUF_SIZE >= FUSE_MIN_READ_BUFFER);
    assert!(READ_BUF_SIZE >= 40 + 40 + MAX_WRITE);
}

#[test]
fn descriptions() {
    let session = Fuse::builder("name")
        .options("a=1")
        .options_os("b=\u{e9}".as_bytes())
        .unwrap()
        .options_c(CString::new(b"c").unwrap())
        .unwrap()
        .build();
    assert_eq!(session.name(), "name");
    assert_eq!(session.options(), ["a=1", "b=\u{e9}", "c"]);
    assert_eq!(
        Fuse::builder("name").options_os(b"\xff").err(),
        Some(Error::OptionNotUtf8)
    );
    assert_eq!(
        Fuse::builder("name").options_c(CString::new(b"x\xc3").unwrap()).err(),
        Some(Error::OptionNotUtf8)
    );
}

#[test]
fn handshake() {
    let mut fuse = Fuse::builder("test").build().start(ORDER);
    let body = as_bytes(ORDER, &init_in(u32::MAX));
    let reply = match process(&mut fuse, bytes(26, 5, &body)) {
        Step::Handshake { reply } => reply,
        other => panic!("{other:?}"),
    };
    let header = FuseOutHeader::decode(ORDER, &reply);
    assert_eq!((header.len, header.error, header.unique), (80, 0, 5));
    let out = FuseInitOut::decode(ORDER, &reply[16..]);
    assert_eq!((out.major, out.minor, out.max_readahead), (7, 31, 1111));
    assert_eq!((out.max_write, out.time_gran, out.max_pages), (262144, 1, 64));
    // As long as the reply is not delivered, the handshake is not done.
    assert_eq!(fuse.init_replied(Err(Error::Os(5))), Err(Error::Os(5)));
    assert_eq!(
        send(&mut fuse, Opcode::Getattr, 6, b""),
        (None, Err(Error::NotInit { opcode: 3 }))
    );
    assert_eq!(fuse.init_replied(Ok(())), Ok(()));
    assert_eq!(send(&mut fuse, Opcode::Getattr, 7, b""), (None, Ok(())));
    assert!(matches!(yielded(&mut fuse), Request::Getattr(_)));
}

#[test]
fn no_handshake_without_an_offer() {
    let mut fuse = Fuse::builder("test").build().start(ORDER);
    assert_eq!(fuse.init_replied(Ok(())), Ok(()));
    assert_eq!(
        send(&mut fuse, Opcode::Getattr, 6, b""),
        (None, Err(Error::NotInit { opcode: 3 }))
    );
    // An offer in another version is none.
    let other = as_bytes(ORDER, &FuseInitIn { major: 8, ..init_in(0) });
    assert_eq!(
        send(&mut fuse, Opcode::Init, 7, &other),
        (None, Err(Error::UnsupportedMajor { major: 8 }))
    );
    assert_eq!(fuse.init_replied(Ok(())), Ok(()));
    assert_eq!(
        send(&mut fuse, Opcode::Getattr, 8, b""),
        (None, Err(Error::NotInit { opcode: 3 }))
    );
}

#[test]
fn refused_handshakes() {
    let mut fuse = Fuse::builder("test").build().start(ORDER);
    assert_eq!(
        send(&mut fuse, Opcode::Lookup, 1, b"name"),
        (None, Err(Error::NotInit { opcode: 1 }))
    );
    assert_eq!(
        send(&mut fuse, Opcode::Init, 2, &[0; 63]),
        (None, Err(Error::Truncated { expected: 64, got: 63 }))
    );
    let other = as_bytes(ORDER, &FuseInitIn { major: 8, ..init_in(0) });
    assert_eq!(
        send(&mut fuse, Opcode::Init, 3, &other),
        (None, Err(Error::UnsupportedMajor { major: 8 }))
    );
    match process(&mut fuse, bytes(99, 4, b"")) {
        Step::Done { answer, result } => {
            assert_eq!((answer, result), (None, Err(Error::NotInit { opcode: 99 })));
        }
        other => panic!("{other:?}"),
    }
    assert!(is_waiting(&mut fuse));
}

#[test]
fn negotiated_flags() {
    let base = InitFlags::ASYNC_READ
        | InitFlags::BIG_WRITES
        | InitFlags::ATOMIC_O_TRUNC
        | InitFlags::NO_OPENDIR_SUPPORT;
    let plus = InitFlags::DO_READDIRPLUS | InitFlags::READDIRPLUS_AUTO;
    let all = init_in(u32::MAX);
    let none = EnabledOps::default();

    let out = negotiate_init(&all, &none, 4096);
    assert_eq!(out.flags, base | InitFlags::NO_OPEN_SUPPORT | InitFlags::MAX_PAGES);
    assert_eq!(out.max_pages, 64);
    let out = negotiate_init(&all, &EnabledOps { open: true, readdirplus: true, ..none }, 65536);
    assert_eq!(out.flags, base | plus | InitFlags::MAX_PAGES);
    assert_eq!(out.max_pages, 4);
    // Without a page size there is no limit.
    let out = negotiate_init(&all, &none, -1);
    assert_eq!((out.flags, out.max_pages), (base | InitFlags::NO_OPEN_SUPPORT, 0));
    // Nor where the kernel does not offer it, and nothing else that it does not offer.
    let out = negotiate_init(&init_in(InitFlags::ASYNC_READ | plus), &none, 4096);
    assert_eq!((out.flags, out.max_pages), (InitFlags::ASYNC_READ, 0));
    // The limit has sixteen bits.
    assert_eq!(negotiate_init(&all, &none, 1).max_pages, 0);
    assert_eq!(negotiate_init(&all, &none, 7).max_pages, (262144 / 7) as u16);
    // The minor version is the lower one.
    assert_eq!(negotiate_init(&FuseInitIn { minor: 30, ..all }, &none, 1).minor, 30);
    assert_eq!(negotiate_init(&FuseInitIn { minor: 32, ..all }, &none, 1).minor, 31);
}

#[test]
fn malformed_messages() {
    let mut fuse = ready(everything());
    let short = vec![0; 39];
    match process(&mut fuse, short) {
        Step::Done { answer, result } => {
            assert_eq!((answer, result), (None, Err(Error::ShortRead)));
        }
        other => panic!("{other:?}"),
    }
    let mut longer = bytes(3, 1, b"");
    longer.push(0);
    match process(&mut fuse, longer) {
        Step::Done { answer, result } => {
            let error = Error::LengthMismatch { stated: 40, nbytes: 41 };
            assert_eq!((answer, result), (None, Err(error)));
        }
        other => panic!("{other:?}"),
    }
    // From here on there is somebody to answer.
    for (opcode, expected) in [
        (Opcode::Setattr, 88),
        (Opcode::Mknod, 16),
        (Opcode::Mkdir, 8),
        (Opcode::Rename2, 16),
        (Opcode::Open, 8),
        (Opcode::Release, 24),
        (Opcode::Read, 40),
        (Opcode::Write, 40),
        (Opcode::Create, 16),
        (Opcode::Readdir, 40),
        (Opcode::Readdirplus, 40),
        (Opcode::Listxattr, 8),
        (Opcode::Getxattr, 8),
    ] {
        let (answer, result) = send(&mut fuse, opcode, 2, &vec![0; expected - 1]);
        assert_eq!(result, Err(Error::Truncated { expected, got: expected - 1 }));
        not_implemented(answer, 2);
    }
    let mut rename = vec![0; 16];
    rename.extend_from_slice(b"only");
    let (answer, result) = send(&mut fuse, Opcode::Rename2, 3, &rename);
    assert_eq!(result, Err(Error::NoSeparator));
    not_implemented(answer, 3);
    assert!(is_waiting(&mut fuse));
}

fn write_in(size: u32) -> Vec<u8> {
    let write = FuseWriteIn {
        fh: 1,
        offset: 2,
        size,
        write_flags: 0,
        lock_owner: 0,
        flags: 0,
        padding: 0,
    };
    as_bytes(ORDER, &write)
}

#[test]
fn write_messages() {
    let mut fuse = ready(everything());
    let mut body = write_in(5);
    body.extend_from_slice(b"abcd");
    let (answer, result) = send(&mut fuse, Opcode::Write, 2, &body);
    assert_eq!(result, Err(Error::WriteTruncated { claimed: 5, nbytes: 84 }));
    not_implemented(answer, 2);

    // What was in the buffer behind the message is no part of it.
    let mut message = bytes(16, 3, &body);
    message.extend_from_slice(b"stale");
    let buf = Arc::new(message);
    match fuse.process_request(&buf, 84, 4096) {
        Step::Done { answer: Some(_), result: Err(Error::WriteTruncated { .. }) } => {}
        other => panic!("{other:?}"),
    }

    let mut body = write_in(4);
    body.extend_from_slice(b"abcd");
    let buf = Arc::new(bytes(16, 4, &body));
    match fuse.process_request(&buf, 84, 4096) {
        Step::Done { answer: None, result: Ok(()) } => {}
        other => panic!("{other:?}"),
    }
    // The request keeps the buffer.
    assert_eq!(Arc::strong_count(&buf), 2);
    let Request::Write(write) = yielded(&mut fuse) else { panic!() };
    assert_eq!(write.data(), b"abcd");
    drop(write);
    assert_eq!(Arc::strong_count(&buf), 1);
}

#[test]
fn what_is_not_enabled_is_not_implemented() {
    let mut fuse = ready(Fuse::builder("test"));
    for opcode in [
        Opcode::Setattr,
        Opcode::Readlink,
        Opcode::Mknod,
        Opcode::Mkdir,
        Opcode::Unlink,
        Opcode::Rmdir,
        Opcode::Open,
        Opcode::Read,
        Opcode::Write,
        Opcode::Statfs,
        Opcode::Release,
        Opcode::Getxattr,
        Opcode::Listxattr,
        Opcode::Init,
        Opcode::Readdir,
        Opcode::Create,
        Opcode::Interrupt,
        Opcode::Readdirplus,
        Opcode::Rename2,
    ] {
        let (answer, result) = send(&mut fuse, opcode, 8, &[0; 200]);
        assert_eq!(result, Ok(()));
        not_implemented(answer, 8);
    }
    match process(&mut fuse, bytes(99, 9, b"")) {
        Step::Done { answer, result } => {
            assert_eq!(result, Ok(()));
            not_implemented(answer, 9);
        }
        other => panic!("{other:?}"),
    }
    assert!(is_waiting(&mut fuse));
    // These three always are enabled.
    assert_eq!(send(&mut fuse, Opcode::Lookup, 10, b"x"), (None, Ok(())));
    assert_eq!(send(&mut fuse, Opcode::Getattr, 11, b""), (None, Ok(())));
    assert_eq!(send(&mut fuse, Opcode::Forget, 12, &[0; 8]), (None, Ok(())));
    assert!(matches!(yielded(&mut fuse), Request::Lookup(_)));
    assert!(matches!(yielded(&mut fuse), Request::Getattr(_)));
    assert!(matches!(yielded(&mut fuse), Request::Forget(_)));
}

fn accepts(builder: FuseSessionBuilder, opcode: Opcode) -> bool {
    let mut fuse = ready(builder);
    send(&mut fuse, opcode, 8, &[0; 200]).0.is_none()
}

#[test]
fn enabled_operations() {
    let new = || Fuse::builder("test");
    assert!(accepts(new().enable_readdir(), Opcode::Readdir));
    assert!(accepts(new().enable_readdirplus(), Opcode::Readdirplus));
    assert!(accepts(new().enable_readdirplus(), Opcode::Lookup));
    assert!(!accepts(new().enable_readdirplus(), Opcode::Readdir));
    assert!(accepts(new().enable_mkdir(), Opcode::Mkdir));
    assert!(accepts(new().enable_create(), Opcode::Create));
    assert!(accepts(new().enable_create(), Opcode::Open));
    assert!(accepts(new().enable_create(), Opcode::Release));
    assert!(accepts(new().enable_mknod(), Opcode::Mknod));
    assert!(accepts(new().enable_open(), Opcode::Open));
    assert!(accepts(new().enable_open(), Opcode::Release));
    assert!(!accepts(new().enable_open(), Opcode::Create));
    assert!(accepts(new().enable_setattr(), Opcode::Setattr));
    assert!(accepts(new().enable_statfs(), Opcode::Statfs));
    assert!(accepts(new().enable_unlink(), Opcode::Unlink));
    assert!(accepts(new().enable_rmdir(), Opcode::Rmdir));
    assert!(accepts(new().enable_rename(), Opcode::Rename2));
    assert!(accepts(new().enable_read(), Opcode::Read));
    assert!(accepts(new().enable_write(), Opcode::Write));
    assert!(accepts(new().enable_readlink(), Opcode::Readlink));
    assert!(accepts(new().enable_read_xattr(), Opcode::Listxattr));
    assert!(accepts(new().enable_read_xattr(), Opcode::Getxattr));
    assert!(!accepts(new().enable_read(), Opcode::Write));
}

fn batch(count: u32, entries: &[(u64, u64)]) -> Vec<u8> {
    let mut body = as_bytes(ORDER, &FuseBatchForgetIn { count, dummy: 0 });
    for (nodeid, nlookup) in entries {
        FuseForgetOne { nodeid: *nodeid, nlookup: *nlookup }.encode(ORDER, &mut body);
    }
    body
}

#[test]
fn batches_of_forgets() {
    let mut fuse = ready(everything());
    let forgets = |fuse: &mut Fuse| {
        let mut found = Vec::new();
        while let Next::Yield(request) = fuse.next() {
            let Request::Forget(forget) = request else { panic!() };
            found.push((forget.inode, forget.count));
        }
        found
    };
    let two = [(5, 6), (7, 8)];
    assert_eq!(send(&mut fuse, Opcode::BatchForget, 1, &batch(2, &two)), (None, Ok(())));
    assert_eq!(forgets(&mut fuse), two);
    // Fewer are announced than are there.
    assert_eq!(send(&mut fuse, Opcode::BatchForget, 1, &batch(1, &two)), (None, Ok(())));
    assert_eq!(forgets(&mut fuse), two[..1]);
    // More are announced, and the last one is cut off.
    let mut body = batch(u32::MAX, &two);
    body.pop();
    assert_eq!(send(&mut fuse, Opcode::BatchForget, 1, &body), (None, Ok(())));
    assert_eq!(forgets(&mut fuse), two[..1]);
    assert_eq!(
        send(&mut fuse, Opcode::BatchForget, 1, &body[..7]),
        (None, Err(Error::Truncated { expected: 8, got: 7 }))
    );
}

#[test]
fn wrong_forgets_are_not_answered() {
    let mut fuse = ready(everything());
    assert_eq!(
        send(&mut fuse, Opcode::Forget, 4, &[0; 7]),
        (None, Err(Error::Truncated { expected: 8, got: 7 }))
    );
}

#[test]
fn requests_come_in_order() {
    let mut fuse = ready(everything());
    send(&mut fuse, Opcode::Lookup, 1, b"first").1.unwrap();
    send(&mut fuse, Opcode::Lookup, 2, b"second").1.unwrap();
    let Request::Lookup(first) = yielded(&mut fuse) else { panic!() };
    send(&mut fuse, Opcode::Lookup, 3, b"third").1.unwrap();
    let Request::Lookup(second) = yielded(&mut fuse) else { panic!() };
    let Request::Lookup(third) = yielded(&mut fuse) else { panic!() };
    assert_eq!(first.file_name, b"first");
    assert_eq!(second.file_name, b"second");
    assert_eq!(third.file_name, b"third");
    assert_eq!(first.parent, 9);
    assert!(is_waiting(&mut fuse));
}

#[test]
fn the_last_message() {
    let mut fuse = ready(everything());
    send(&mut fuse, Opcode::Getattr, 1, b"").1.unwrap();
    assert!(!fuse.is_terminated());
    assert_eq!(send(&mut fuse, Opcode::Destroy, 2, b""), (None, Ok(())));
    assert!(fuse.is_terminated());
    // What waits is still yielded.
    assert!(matches!(yielded(&mut fuse), Request::Getattr(_)));
    assert!(matches!(fuse.next(), Next::End));
    assert!(matches!(fuse.next(), Next::End));
}

#[test]
fn outcomes_of_reading() {
    let mut fuse = ready(everything());
    assert_eq!(fuse.read_done(ReadOutcome::WouldBlock), AfterRead::Retry);
    assert_eq!(fuse.read_done(ReadOutcome::Bytes(40)), AfterRead::Process(40));
    let other = Error::Os(5);
    assert_eq!(fuse.read_done(ReadOutcome::Failed(other)), AfterRead::Yield(other));
    assert!(is_waiting(&mut fuse));
    for outcome in [
        ReadOutcome::Bytes(0),
        ReadOutcome::Failed(Error::Os(ENODEV)),
        ReadOutcome::Failed(Error::Os(ECONNABORTED)),
    ] {
        let mut fuse = ready(everything());
        assert_eq!(fuse.read_done(outcome), AfterRead::End);
        assert!(matches!(fuse.next(), Next::End));
    }
    fuse.connection_lost();
    assert!(fuse.is_terminated());
    assert!(matches!(fuse.next(), Next::End));
}

#[test]
fn dropped_sessions() {
    let mut fuse = ready(everything());
    send(&mut fuse, Opcode::Getattr, 1, b"").1.unwrap();
    send(&mut fuse, Opcode::Forget, 2, &[0; 8]).1.unwrap();
    let listing = FuseReadIn {
        fh: 0,
        offset: 0,
        size: 10,
        read_flags: 0,
        lock_owner: 0,
        flags: 0,
        padding: 0,
    };
    send(&mut fuse, Opcode::Readdir, 3, &as_bytes(ORDER, &listing)).1.unwrap();
    let answers: Vec<(i32, u64)> = fuse
        .abandon()
        .iter()
        .map(|message| {
            let header = FuseOutHeader::decode(ORDER, message);
            (header.error, header.unique)
        })
        .collect();
    assert_eq!(answers, [(-ENOSYS, 1), (-EIO, 3)]);
}

#[test]
fn nobody_to_answer() {
    // No request has the number zero, so there is nobody to answer.
    let mut fuse = ready(everything());
    assert_eq!(send(&mut fuse, Opcode::Interrupt, 0, b""), (None, Ok(())));
}
