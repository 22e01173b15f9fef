use proxmox_fuse::cstring::CString;
use proxmox_fuse::protocol::{FuseDirent, FuseEntryOut};
use proxmox_fuse::sys::{EntryParam, FuseFileInfo, ReplyBuf, ReplyBufState, ROOT_ID};
use proxmox_fuse::util::{Stat, Timeout};
use proxmox_fuse::wire::{ByteOrder, Wire};

fn stat(ino: u64, mode: u32) -> Stat {
    Stat {
        st_ino: ino,
        st_nlink: 1,
        st_mode: mode,
        st_uid: 0,
        st_gid: 0,
        st_rdev: 0,
        st_size: 3,
        st_blksize: 0,
        st_blocks: 0,
        st_atime: 0,
        st_atime_nsec: 0,
        st_mtime: 0,
        st_mtime_nsec: 0,
        st_ctime: 0,
        st_ctime_nsec: 0,
    }
}

fn c(name: &[u8]) -> CString {
    CString::new(name).unwrap()
}

#[test]
fn root() {
    assert_eq!(ROOT_ID, 1);
}

#[test]
fn simple_entries_never_expire() {
    let entry = EntryParam::simple(9, stat(8, 0o100444));
    assert_eq!((entry.inode, entry.generation, entry.attr.st_ino), (9, 1, 8));
    let longest = Timeout::new(u64::MAX, 999_999_999).unwrap();
    assert_eq!((entry.attr_timeout, entry.entry_timeout), (longest, longest));
}

#[test]
fn timeouts() {
    let timeout = Timeout::new(5, 999_999_999).unwrap();
    assert_eq!((timeout.secs(), timeout.nsec()), (5, 999_999_999));
    assert_eq!(Timeout::new(5, 1_000_000_000), None);
    assert_eq!(Timeout::new(0, u32::MAX), None);
    assert_eq!(Timeout::new(u64::MAX, 999_999_999), Some(Timeout::max()));
}

#[test]
fn states() {
    assert!(ReplyBufState::Full.is_full());
    assert!(!ReplyBufState::Added.is_full());
}

#[test]
fn file_options() {
    let mut info = FuseFileInfo::default();
    assert!(!info.get_direct_io());
    assert!(!info.get_keep_cache());
    assert!(!info.get_nonseekable());
    assert!(!info.get_cache_readdir());
    assert!(!info.get_noflush());
    info.set_direct_io(true);
    assert!(info.get_direct_io() && !info.get_keep_cache());
    info.set_keep_cache(true);
    assert!(info.get_keep_cache() && !info.get_nonseekable());
    info.set_nonseekable(true);
    assert!(info.get_nonseekable() && !info.get_cache_readdir());
    info.set_cache_readdir(true);
    assert!(info.get_cache_readdir() && !info.get_noflush());
    info.set_noflush(true);
    assert!(info.get_noflush());
    info.set_direct_io(false);
    assert!(!info.get_direct_io() && info.get_keep_cache());
}

#[test]
fn c_strings() {
    assert!(CString::new(b"a\0b").is_none());
    assert!(CString::new(b"\0").is_none());
    let name = c(b"ab");
    assert_eq!(name.to_bytes(), b"ab");
    assert_eq!(name.to_bytes_with_nul(), b"ab\0");
    assert_eq!(c(b"").to_bytes_with_nul(), b"\0");
}

#[test]
fn plain_entries() {
    let mut buf = ReplyBuf::new(ByteOrder::Little, 64 + 31);
    assert_eq!(buf.filled_data(), b"");
    assert!(!buf.add_readdir(&c(b"."), &stat(1, 0o40755), 1).is_full());
    assert!(!buf.add_readdir(&c(b"12345678"), &stat(2, 0o100644), 0x0102).is_full());
    // 31 bytes are left, and the shortest entry with a name has 32.
    assert!(buf.add_readdir(&c(b"x"), &stat(3, 0o100644), 3).is_full());
    let data = buf.filled_data();
    assert_eq!(data.len(), 64);
    assert_eq!(
        data[..32],
        [
            1, 0, 0, 0, 0, 0, 0, 0, 1, 0, 0, 0, 0, 0, 0, 0, 1, 0, 0, 0, 4, 0, 0, 0, b'.', 0, 0, 0,
            0, 0, 0, 0
        ]
    );
    let second = FuseDirent::decode(ByteOrder::Little, &data[32..]);
    assert_eq!((second.ino, second.off, second.namelen, second.typ), (2, 0x0102, 8, 8));
    assert_eq!(data[56..], *b"12345678");
    // The empty name needs no more than the header.
    assert!(!buf.add_readdir(&c(b""), &stat(3, 0), 3).is_full());
    assert_eq!(buf.filled_data().len(), 88);
}

#[test]
fn exact_fit() {
    let mut buf = ReplyBuf::new(ByteOrder::Big, 32);
    assert!(!buf.add_readdir(&c(b"a"), &stat(1, 0o120777), 1).is_full());
    assert!(buf.add_readdir(&c(b""), &stat(1, 0), 1).is_full());
    let dirent = FuseDirent::decode(ByteOrder::Big, buf.filled_data());
    assert_eq!((dirent.ino, dirent.off, dirent.namelen, dirent.typ), (1, 1, 1, 10));
    let mut none = ReplyBuf::new(ByteOrder::Big, 0);
    assert!(none.add_readdir(&c(b""), &stat(1, 0), 1).is_full());
}

#[test]
fn entries_with_attributes() {
    let entry = EntryParam {
        inode: 7,
        generation: 8,
        attr: stat(5, 0o100600),
        attr_timeout: Timeout::new(1, 2).unwrap(),
        entry_timeout: Timeout::new(3, 4).unwrap(),
    };
    let mut buf = ReplyBuf::new(ByteOrder::Big, 2 * 160 - 1);
    assert!(!buf.add_readdir_plus(&c(b"name"), &entry, 9).is_full());
    assert!(buf.add_readdir_plus(&c(b"name"), &entry, 10).is_full());
    let data = buf.filled_data();
    assert_eq!(data.len(), 160);
    let entry_out = FuseEntryOut::decode(ByteOrder::Big, data);
    assert_eq!((entry_out.nodeid, entry_out.generation), (7, 8));
    assert_eq!((entry_out.attr_valid, entry_out.entry_valid), (1, 3));
    assert_eq!(entry_out.attr.mode, 0o100600);
    let dirent = FuseDirent::decode(ByteOrder::Big, &data[128..]);
    assert_eq!((dirent.ino, dirent.off, dirent.namelen, dirent.typ), (5, 9, 4, 8));
    assert_eq!(data[152..], *b"name\0\0\0\0");
}
