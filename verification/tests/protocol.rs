use std::mem;

use proxmox_fuse::error::Error;
use proxmox_fuse::protocol::{
    entry_out_from_param, fuse_dirent_align, fuse_dirent_size, fuse_direntplus_size, name_after,
    name_from_bytes, two_names_after, FattrFlags, FopenFlags, FuseAttr, FuseAttrOut,
    FuseBatchForgetIn, FuseCreateIn, FuseDirent, FuseEntryOut, FuseForgetIn, FuseForgetOne,
    FuseGetxattrIn, FuseGetxattrOut, FuseInHeader, FuseInitIn, FuseInitOut, FuseKstatfs,
    FuseMkdirIn, FuseMknodIn, FuseOpenIn, FuseOpenOut, FuseOutHeader, FuseReadIn, FuseReleaseIn,
    FuseRename2In, FuseSetattrIn, FuseWriteIn, FuseWriteOut, InitFlags, Opcode,
    FUSE_DIRENT_HEADER_SIZE, FUSE_ENTRY_OUT_SIZE, FUSE_KERNEL_MINOR_VERSION, FUSE_KERNEL_VERSION,
    FUSE_MIN_READ_BUFFER, FUSE_ROOT_ID,
};
use proxmox_fuse::sys::EntryParam;
use proxmox_fuse::util::{Stat, StatVfs, Timeout};
use proxmox_fuse::wire::{ByteOrder, Wire};

/// Validate that the structs match the sizes defined in `<linux/fuse.h>`.
/// A mismatch here means the kernel will misinterpret our requests or replies.
#[test]
fn wire_struct_sizes() {
    assert_eq!(mem::size_of::<FuseInHeader>(), 40);
    assert_eq!(mem::size_of::<FuseOutHeader>(), 16);
    assert_eq!(mem::size_of::<FuseAttr>(), 88);
    assert_eq!(mem::size_of::<FuseEntryOut>(), 128);
    assert_eq!(mem::size_of::<FuseAttrOut>(), 104);
    assert_eq!(mem::size_of::<FuseKstatfs>(), 80);
    assert_eq!(mem::size_of::<FuseInitIn>(), 64);
    assert_eq!(mem::size_of::<FuseInitOut>(), 64);
    assert_eq!(mem::size_of::<FuseOpenIn>(), 8);
    assert_eq!(mem::size_of::<FuseOpenOut>(), 16);
    assert_eq!(mem::size_of::<FuseForgetIn>(), 8);
    assert_eq!(mem::size_of::<FuseBatchForgetIn>(), 8);
    assert_eq!(mem::size_of::<FuseForgetOne>(), 16);
    assert_eq!(mem::size_of::<FuseSetattrIn>(), 88);
    assert_eq!(mem::size_of::<FuseCreateIn>(), 16);
    assert_eq!(mem::size_of::<FuseReleaseIn>(), 24);
    assert_eq!(mem::size_of::<FuseReadIn>(), 40);
    assert_eq!(mem::size_of::<FuseWriteIn>(), 40);
    assert_eq!(mem::size_of::<FuseWriteOut>(), 8);
    assert_eq!(mem::size_of::<FuseMknodIn>(), 16);
    assert_eq!(mem::size_of::<FuseMkdirIn>(), 8);
    assert_eq!(mem::size_of::<FuseRename2In>(), 16);
    assert_eq!(mem::size_of::<FuseGetxattrIn>(), 8);
    assert_eq!(mem::size_of::<FuseGetxattrOut>(), 8);
    assert_eq!(mem::size_of::<FuseDirent>(), FUSE_DIRENT_HEADER_SIZE);
    assert_eq!(FUSE_DIRENT_HEADER_SIZE, 24);
    assert_eq!(FUSE_ENTRY_OUT_SIZE, 128);

    assert_eq!(FuseInHeader::size(), 40);
    assert_eq!(FuseOutHeader::size(), 16);
    assert_eq!(FuseAttr::size(), 88);
    assert_eq!(FuseEntryOut::size(), 128);
    assert_eq!(FuseAttrOut::size(), 104);
    assert_eq!(FuseKstatfs::size(), 80);
    assert_eq!(FuseInitIn::size(), 64);
    assert_eq!(FuseInitOut::size(), 64);
    assert_eq!(FuseOpenIn::size(), 8);
    assert_eq!(FuseOpenOut::size(), 16);
    assert_eq!(FuseForgetIn::size(), 8);
    assert_eq!(FuseBatchForgetIn::size(), 8);
    assert_eq!(FuseForgetOne::size(), 16);
    assert_eq!(FuseSetattrIn::size(), 88);
    assert_eq!(FuseCreateIn::size(), 16);
    assert_eq!(FuseReleaseIn::size(), 24);
    assert_eq!(FuseReadIn::size(), 40);
    assert_eq!(FuseWriteIn::size(), 40);
    assert_eq!(FuseWriteOut::size(), 8);
    assert_eq!(FuseMknodIn::size(), 16);
    assert_eq!(FuseMkdirIn::size(), 8);
    assert_eq!(FuseRename2In::size(), 16);
    assert_eq!(FuseGetxattrIn::size(), 8);
    assert_eq!(FuseGetxattrOut::size(), 8);
    assert_eq!(FuseDirent::size(), 24);
}

#[test]
fn dirent_alignment() {
    assert_eq!(fuse_dirent_align(0), 0);
    assert_eq!(fuse_dirent_align(1), 8);
    assert_eq!(fuse_dirent_align(7), 8);
    assert_eq!(fuse_dirent_align(8), 8);
    assert_eq!(fuse_dirent_align(9), 16);
}

#[test]
fn dirent_sizes() {
    // Empty name: header only, aligned.
    assert_eq!(fuse_dirent_size(0), 24);
    // 1-byte name: 24 + 1 = 25, aligned to 32.
    assert_eq!(fuse_dirent_size(1), 32);
    // 8-byte name: 24 + 8 = 32, already aligned.
    assert_eq!(fuse_dirent_size(8), 32);
    // 9-byte name: 24 + 9 = 33, aligned to 40.
    assert_eq!(fuse_dirent_size(9), 40);
}

#[test]
fn direntplus_sizes() {
    // entry_out(128) + dirent_header(24) + name, aligned.
    assert_eq!(fuse_direntplus_size(0), 152);
    assert_eq!(fuse_direntplus_size(1), 160);
    assert_eq!(fuse_direntplus_size(8), 160);
    assert_eq!(fuse_direntplus_size(9), 168);
}

#[test]
fn opcode_from_u32_roundtrip() {
    // Every variant must round-trip through from_u32 using its number.
    let variants = [
        Opcode::Lookup,
        Opcode::Forget,
        Opcode::Getattr,
        Opcode::Setattr,
        Opcode::Readlink,
        Opcode::Mknod,
        Opcode::Mkdir,
        Opcode::Unlink,
        Opcode::Rmdir,
        Opcode::Open,
        Opcode::Read,
        Opcode::Write,
        Opcode::Statfs,
        Opcode::Release,
        Opcode::Getxattr,
        Opcode::Listxattr,
        Opcode::Init,
        Opcode::BatchForget,
        Opcode::Readdir,
        Opcode::Create,
        Opcode::Interrupt,
        Opcode::Destroy,
        Opcode::Readdirplus,
        Opcode::Rename2,
    ];
    for opcode in variants {
        assert_eq!(
            Opcode::from_u32(opcode.to_u32()),
            Some(opcode),
            "round-trip failed for {opcode:?}"
        );
    }
    // Unknown opcodes must return None.
    assert_eq!(Opcode::from_u32(0), None);
    assert_eq!(Opcode::from_u32(99), None);
}

#[test]
fn opcode_numbers() {
    let known = [
        1, 2, 3, 4, 5, 8, 9, 10, 11, 14, 15, 16, 17, 18, 22, 23, 26, 28, 35, 36, 38, 42, 44, 45,
    ];
    for v in 0..100u32 {
        match Opcode::from_u32(v) {
            Some(opcode) => {
                assert!(known.contains(&v));
                assert_eq!(opcode.to_u32(), v);
            }
            None => assert!(!known.contains(&v)),
        }
    }
    assert_eq!(Opcode::Init.to_u32(), 26);
    assert_eq!(Opcode::Rename2.to_u32(), 45);
}

#[test]
fn constants() {
    assert_eq!(FUSE_KERNEL_VERSION, 7);
    assert_eq!(FUSE_KERNEL_MINOR_VERSION, 31);
    assert_eq!(FUSE_ROOT_ID, 1);
    assert_eq!(FUSE_MIN_READ_BUFFER, 8192);
}

#[test]
fn setattr_flags() {
    let named = [
        FattrFlags::MODE,
        FattrFlags::UID,
        FattrFlags::GID,
        FattrFlags::SIZE,
        FattrFlags::ATIME,
        FattrFlags::MTIME,
        FattrFlags::FH,
        FattrFlags::ATIME_NOW,
        FattrFlags::MTIME_NOW,
        FattrFlags::CTIME,
    ];
    assert_eq!(named, [1, 2, 4, 8, 16, 32, 64, 128, 256, 1024]);
    let all = FattrFlags::from_bits_truncate(u32::MAX);
    assert_eq!(all.bits(), named.iter().sum::<u32>());
    for flag in named {
        assert!(all.contains(flag));
        assert!(!FattrFlags::from_bits_truncate(!flag).contains(flag));
    }
    assert_eq!(FattrFlags::from_bits_truncate(512 | 4096 | 3).bits(), 3);
}

#[test]
fn open_flags() {
    let mut flags = FopenFlags::empty();
    assert_eq!(flags.bits(), 0);
    flags.set(FopenFlags::KEEP_CACHE, true);
    flags.set(FopenFlags::STREAM, true);
    assert_eq!(flags.bits(), 2 | 16);
    flags.set(FopenFlags::KEEP_CACHE, false);
    assert_eq!(flags.bits(), 16);
    flags.set(FopenFlags::NOFLUSH, false);
    assert_eq!(flags.bits(), 16);
}

#[test]
fn init_flags() {
    let named = [
        InitFlags::ASYNC_READ,
        InitFlags::ATOMIC_O_TRUNC,
        InitFlags::BIG_WRITES,
        InitFlags::DO_READDIRPLUS,
        InitFlags::READDIRPLUS_AUTO,
        InitFlags::NO_OPEN_SUPPORT,
        InitFlags::MAX_PAGES,
        InitFlags::NO_OPENDIR_SUPPORT,
    ];
    assert_eq!(named, [0, 3, 5, 13, 14, 17, 22, 24].map(|bit| 1u32 << bit));
    let mut flags = InitFlags::from_bits_truncate(u32::MAX);
    assert_eq!(flags.bits(), named.iter().sum::<u32>());
    flags = flags.intersection(InitFlags::from_bits_truncate(InitFlags::MAX_PAGES));
    assert_eq!(flags.bits(), InitFlags::MAX_PAGES);
    flags.insert(InitFlags::ASYNC_READ);
    assert!(flags.contains(InitFlags::MAX_PAGES | InitFlags::ASYNC_READ));
    assert!(!flags.contains(InitFlags::ASYNC_READ | InitFlags::BIG_WRITES));
}

fn stat() -> Stat {
    Stat {
        st_ino: 11,
        st_nlink: 0x1_0000_0002,
        st_mode: 0o100644,
        st_uid: 1000,
        st_gid: 100,
        st_rdev: 0x5_0000_0003,
        st_size: 4097,
        st_blksize: 4096,
        st_blocks: 16,
        st_atime: 100,
        st_atime_nsec: 1,
        st_mtime: -5,
        st_mtime_nsec: -1,
        st_ctime: 300,
        st_ctime_nsec: 0x1_0000_0007,
    }
}

#[test]
fn attributes_from_stat() {
    let attr = FuseAttr::from_stat(&stat());
    assert_eq!(attr.ino, 11);
    assert_eq!(attr.size, 4097);
    assert_eq!(attr.blocks, 16);
    assert_eq!((attr.atime, attr.atimensec), (100, 1));
    // Times before the epoch are clamped.
    assert_eq!((attr.mtime, attr.mtimensec), (0, 0));
    assert_eq!((attr.ctime, attr.ctimensec), (300, 7));
    assert_eq!(attr.mode, 0o100644);
    assert_eq!(attr.nlink, 2);
    assert_eq!((attr.uid, attr.gid), (1000, 100));
    assert_eq!(attr.rdev, 3);
    assert_eq!(attr.blksize, 4096);
    assert_eq!(attr.flags, 0);

    let negative = FuseAttr::from_stat(&Stat { st_size: -1, st_blksize: -1, ..stat() });
    assert_eq!(negative.size, u64::MAX);
    assert_eq!(negative.blksize, u32::MAX);
}

#[test]
fn statistics_from_statvfs() {
    let out = FuseKstatfs::from_statvfs(&StatVfs {
        f_bsize: 0x1_0000_1000,
        f_frsize: 512,
        f_blocks: 1000,
        f_bfree: 500,
        f_bavail: 400,
        f_files: 100,
        f_ffree: 50,
        f_namemax: 255,
    });
    assert_eq!((out.blocks, out.bfree, out.bavail), (1000, 500, 400));
    assert_eq!((out.files, out.ffree), (100, 50));
    assert_eq!((out.bsize, out.namelen, out.frsize), (4096, 255, 512));
    assert_eq!((out.padding, out.spare), (0, [0; 6]));
}

#[test]
fn attributes_of_a_setattr() {
    let bytes: Vec<u8> = (0..88).collect();
    let setattr_in = FuseSetattrIn {
        mode: 0o644,
        uid: 5,
        gid: 6,
        size: u64::MAX,
        atime: 7,
        atimensec: 8,
        mtime: 9,
        mtimensec: 10,
        ctime: 1 << 63,
        ctimensec: 12,
        ..FuseSetattrIn::decode(ByteOrder::Little, &bytes)
    };
    let stat = setattr_in.to_stat();
    assert_eq!((stat.st_mode, stat.st_uid, stat.st_gid), (0o644, 5, 6));
    assert_eq!(stat.st_size, -1);
    assert_eq!((stat.st_atime, stat.st_atime_nsec), (7, 8));
    assert_eq!((stat.st_mtime, stat.st_mtime_nsec), (9, 10));
    assert_eq!((stat.st_ctime, stat.st_ctime_nsec), (i64::MIN, 12));
    assert_eq!((stat.st_ino, stat.st_nlink, stat.st_rdev), (0, 0, 0));
    assert_eq!((stat.st_blksize, stat.st_blocks), (0, 0));
}

#[test]
fn names() {
    assert_eq!(name_from_bytes(b"abc\0def\0"), b"abc");
    assert_eq!(name_from_bytes(b"abc"), b"abc");
    assert_eq!(name_from_bytes(b"\0abc"), b"");
    assert_eq!(name_from_bytes(b""), b"");

    assert_eq!(name_after::<FuseMkdirIn>(b"12345678name\0"), Ok(&b"name"[..]));
    assert_eq!(name_after::<FuseMkdirIn>(b"12345678"), Ok(&b""[..]));
    assert_eq!(name_after::<FuseMkdirIn>(b"1234567"), Err(Error::NoName));

    let header = b"0123456789abcdef";
    let mut body = header.to_vec();
    body.extend_from_slice(b"old\0new\0");
    assert_eq!(two_names_after::<FuseRename2In>(&body), Ok((&b"old"[..], &b"new"[..])));
    body.pop();
    assert_eq!(two_names_after::<FuseRename2In>(&body), Ok((&b"old"[..], &b"new"[..])));
    assert_eq!(two_names_after::<FuseRename2In>(&body[..19]), Err(Error::NoSeparator));
    assert_eq!(two_names_after::<FuseRename2In>(&body[..20]), Ok((&b"old"[..], &b""[..])));
    assert_eq!(two_names_after::<FuseRename2In>(&body[..15]), Err(Error::NoNames));
}

#[test]
fn entry_of_a_parameter() {
    let out = entry_out_from_param(&EntryParam {
        inode: 21,
        generation: 22,
        attr: stat(),
        attr_timeout: Timeout::new(1, 2).unwrap(),
        entry_timeout: Timeout::new(3, 4).unwrap(),
    });
    assert_eq!((out.nodeid, out.generation), (21, 22));
    assert_eq!((out.attr_valid, out.attr_valid_nsec), (1, 2));
    assert_eq!((out.entry_valid, out.entry_valid_nsec), (3, 4));
    assert_eq!(out.attr.ino, 11);
    assert_eq!(out.attr.size, 4097);
}
