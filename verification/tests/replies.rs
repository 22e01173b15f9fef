use proxmox_fuse::error::{Error, ENOENT};
use proxmox_fuse::protocol::FuseOutHeader;
use proxmox_fuse::reply::{
    cancellable, error_message, reply_message, reply_message_vectored, ReplyError,
};
use proxmox_fuse::wire::{ByteOrder, Wire};

const ORDERS: [ByteOrder; 2] = [ByteOrder::Little, ByteOrder::Big];

#[test]
fn send_reply_header_format() {
    for order in ORDERS {
        let body = b"hello";
        let buf = reply_message(order, 42, 0, body).unwrap();

        let header_size = FuseOutHeader::size();
        assert_eq!(buf.len(), header_size + body.len());

        // Parse the header.
        let header = FuseOutHeader::decode(order, &buf);
        assert_eq!(header.len as usize, header_size + body.len());
        assert_eq!(header.error, 0);
        assert_eq!(header.unique, 42);

        // Verify the body.
        assert_eq!(&buf[header_size..], body);
    }
}

#[test]
fn send_reply_error() {
    for order in ORDERS {
        let buf = error_message(order, 99, libc::ENOENT);

        let header_size = FuseOutHeader::size();
        assert_eq!(buf.len(), header_size);

        let header = FuseOutHeader::decode(order, &buf);
        assert_eq!(header.len as usize, header_size);
        assert_eq!(header.error, -libc::ENOENT);
        assert_eq!(header.unique, 99);
    }
}

#[test]
fn send_reply_vectored_combines_slices() {
    for order in ORDERS {
        let a = b"abc";
        let b = b"defgh";
        let slices: [&[u8]; 2] = [a, b];
        let buf = reply_message_vectored(order, 7, &slices, a.len() + b.len()).unwrap();

        let header_size = FuseOutHeader::size();
        let total = header_size + a.len() + b.len();
        assert_eq!(buf.len(), total);

        let header = FuseOutHeader::decode(order, &buf);
        assert_eq!(header.len as usize, total);
        assert_eq!(header.error, 0);
        assert_eq!(header.unique, 7);
        assert_eq!(&buf[header_size..header_size + 3], b"abc");
        assert_eq!(&buf[header_size + 3..], b"defgh");
    }
}

#[test]
fn too_long_for_the_length_field() {
    // The same bytes over and over, so that they need not be there four thousand times.
    let chunk = vec![0u8; 1 << 20];
    let slices = vec![&chunk[..]; 1 << 12];
    assert_eq!(
        reply_message_vectored(ByteOrder::Little, 1, &slices, 1 << 32),
        Err(Error::ReplyTooLong)
    );
}

#[test]
fn cancellation() {
    assert_eq!(cancellable(Ok(())), Ok(()));
    assert_eq!(cancellable(Err(Error::Os(ENOENT))), Err(ReplyError::Cancelled));
    assert_eq!(cancellable(Err(Error::Os(5))), Err(ReplyError::Io(Error::Os(5))));
    assert_eq!(
        cancellable(Err(Error::ReplyTooLong)),
        Err(ReplyError::Io(Error::ReplyTooLong))
    );
}
