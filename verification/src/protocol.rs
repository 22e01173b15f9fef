//! FUSE kernel protocol types.
//!
//! These are the structures defined in `<linux/fuse.h>`. Only the opcodes and structures needed
//! by this crate are included.

use vstd::prelude::*;
use vstd::slice::slice_subrange;

use crate::cast;
use crate::cstring;
use crate::error::Error;
use crate::sys::EntryParam;
use crate::util::{Stat, StatVfs};
use crate::wire::Wire;

verus! {

/// FUSE kernel protocol major version.
pub const FUSE_KERNEL_VERSION: u32 = 7;

/// FUSE kernel protocol minor version we target (7.31).
pub const FUSE_KERNEL_MINOR_VERSION: u32 = 31;

/// Node ID of the root inode.
pub const FUSE_ROOT_ID: u64 = 1;

/// Minimum read buffer size required by the kernel.
pub const FUSE_MIN_READ_BUFFER: usize = 8192;

/// What a message from the kernel asks for.
#[derive(Debug, Clone, Copy, PartialEq, Eq, Structural)]
pub enum Opcode {
    Lookup,
    Forget,
    Getattr,
    Setattr,
    Readlink,
    Mknod,
    Mkdir,
    Unlink,
    Rmdir,
    Open,
    Read,
    Write,
    Statfs,
    Release,
    Getxattr,
    Listxattr,
    Init,
    Readdir,
    Create,
    Interrupt,
    Destroy,
    BatchForget,
    Readdirplus,
    Rename2,
}

impl Opcode {
    /// The number that stands for the opcode in a message header.
    pub open spec fn code(self) -> u32 {
        match self {
            Opcode::Lookup => 1,
            Opcode::Forget => 2,
            Opcode::Getattr => 3,
            Opcode::Setattr => 4,
            Opcode::Readlink => 5,
            Opcode::Mknod => 8,
            Opcode::Mkdir => 9,
            Opcode::Unlink => 10,
            Opcode::Rmdir => 11,
            Opcode::Open => 14,
            Opcode::Read => 15,
            Opcode::Write => 16,
            Opcode::Statfs => 17,
            Opcode::Release => 18,
            Opcode::Getxattr => 22,
            Opcode::Listxattr => 23,
            Opcode::Init => 26,
            Opcode::Readdir => 28,
            Opcode::Create => 35,
            Opcode::Interrupt => 36,
            Opcode::Destroy => 38,
            Opcode::BatchForget => 42,
            Opcode::Readdirplus => 44,
            Opcode::Rename2 => 45,
        }
    }

    /// The number that stands for the opcode in a message header.
    pub fn to_u32(self) -> (r: u32)
        ensures
            r == self.code(),
    {
        match self {
            Opcode::Lookup => 1,
            Opcode::Forget => 2,
            Opcode::Getattr => 3,
            Opcode::Setattr => 4,
            Opcode::Readlink => 5,
            Opcode::Mknod => 8,
            Opcode::Mkdir => 9,
            Opcode::Unlink => 10,
            Opcode::Rmdir => 11,
            Opcode::Open => 14,
            Opcode::Read => 15,
            Opcode::Write => 16,
            Opcode::Statfs => 17,
            Opcode::Release => 18,
            Opcode::Getxattr => 22,
            Opcode::Listxattr => 23,
            Opcode::Init => 26,
            Opcode::Readdir => 28,
            Opcode::Create => 35,
            Opcode::Interrupt => 36,
            Opcode::Destroy => 38,
            Opcode::BatchForget => 42,
            Opcode::Readdirplus => 44,
            Opcode::Rename2 => 45,
        }
    }

    /// The opcode that `v` stands for; `None` where it stands for none that is known here.
    pub open spec fn of_code(v: u32) -> Option<Opcode> {
        if exists|opcode: Opcode| #[trigger] opcode.code() == v {
            Some(choose|opcode: Opcode| #[trigger] opcode.code() == v)
        } else {
            None
        }
    }

    /// The opcode that `v` stands for; `None` where it stands for none that is known here.
    pub fn from_u32(v: u32) -> (r: Option<Self>)
        ensures
            r == Opcode::of_code(v),
            r matches Some(opcode) ==> opcode.code() == v,
            r is None ==> forall|opcode: Opcode| #![trigger opcode.code()] opcode.code() != v,
    {
        let r = Opcode::look_up(v);
        proof {
            if let Some(opcode) = r {
                lemma_opcode_of_code(opcode);
            }
        }
        r
    }

    fn look_up(v: u32) -> (r: Option<Self>)
        ensures
            r matches Some(opcode) ==> opcode.code() == v,
            r is None ==> forall|opcode: Opcode| #[trigger] opcode.code() != v,
    {
        match v {
            1 => Some(Opcode::Lookup),
            2 => Some(Opcode::Forget),
            3 => Some(Opcode::Getattr),
            4 => Some(Opcode::Setattr),
            5 => Some(Opcode::Readlink),
            8 => Some(Opcode::Mknod),
            9 => Some(Opcode::Mkdir),
            10 => Some(Opcode::Unlink),
            11 => Some(Opcode::Rmdir),
            14 => Some(Opcode::Open),
            15 => Some(Opcode::Read),
            16 => Some(Opcode::Write),
            17 => Some(Opcode::Statfs),
            18 => Some(Opcode::Release),
            22 => Some(Opcode::Getxattr),
            23 => Some(Opcode::Listxattr),
            26 => Some(Opcode::Init),
            28 => Some(Opcode::Readdir),
            35 => Some(Opcode::Create),
            36 => Some(Opcode::Interrupt),
            38 => Some(Opcode::Destroy),
            42 => Some(Opcode::BatchForget),
            44 => Some(Opcode::Readdirplus),
            45 => Some(Opcode::Rename2),
            _ => None,
        }
    }
}

/// Reading the number of an opcode gives that opcode back: no two opcodes share a number.
pub proof fn lemma_opcode_of_code(opcode: Opcode)
    ensures
        Opcode::of_code(opcode.code()) == Some(opcode),
{
    let read = choose|o: Opcode| #[trigger] o.code() == opcode.code();
    assert(read.code() == opcode.code());
}

/// `FATTR_*` flags indicating which fields are valid in a setattr request.
#[derive(Clone, Copy, Debug, PartialEq, Eq, Structural)]
pub struct FattrFlags {
    pub bits: u32,
}

impl FattrFlags {
    pub const MODE: u32 = 1 << 0;

    pub const UID: u32 = 1 << 1;

    pub const GID: u32 = 1 << 2;

    pub const SIZE: u32 = 1 << 3;

    pub const ATIME: u32 = 1 << 4;

    pub const MTIME: u32 = 1 << 5;

    pub const FH: u32 = 1 << 6;

    pub const ATIME_NOW: u32 = 1 << 7;

    pub const MTIME_NOW: u32 = 1 << 8;

    pub const CTIME: u32 = 1 << 10;

    /// All the flags above.
    pub const ALL: u32 = 0x5ff;

    /// Whether all of `flag` is set.
    pub open spec fn has(self, flag: u32) -> bool {
        self.bits & flag == flag
    }

    /// The known flags among `bits`.
    pub fn from_bits_truncate(bits: u32) -> (r: Self)
        ensures
            r.bits == bits & FattrFlags::ALL,
    {
        FattrFlags { bits: bits & FattrFlags::ALL }
    }

    /// The flags as a number.
    pub fn bits(&self) -> (r: u32)
        ensures
            r == self.bits,
    {
        self.bits
    }

    /// Whether all of `flag` is set.
    pub fn contains(&self, flag: u32) -> (r: bool)
        ensures
            r == self.has(flag),
    {
        self.bits & flag == flag
    }
}

/// `FOPEN_*` flags for open/create replies.
#[derive(Clone, Copy, Debug, PartialEq, Eq, Structural)]
pub struct FopenFlags {
    pub bits: u32,
}

impl FopenFlags {
    pub const DIRECT_IO: u32 = 1 << 0;

    pub const KEEP_CACHE: u32 = 1 << 1;

    pub const NONSEEKABLE: u32 = 1 << 2;

    pub const CACHE_DIR: u32 = 1 << 3;

    pub const STREAM: u32 = 1 << 4;

    pub const NOFLUSH: u32 = 1 << 5;

    /// No flag at all.
    pub fn empty() -> (r: Self)
        ensures
            r.bits == 0,
    {
        FopenFlags { bits: 0 }
    }

    /// Sets or clears `flag`.
    pub fn set(&mut self, flag: u32, value: bool)
        ensures
            final(self).bits == (if value {
                old(self).bits | flag
            } else {
                old(self).bits & !flag
            }),
    {
        if value {
            self.bits = self.bits | flag;
        } else {
            self.bits = self.bits & !flag;
        }
    }

    /// The flags as a number.
    pub fn bits(&self) -> (r: u32)
        ensures
            r == self.bits,
    {
        self.bits
    }
}

/// `FUSE_INIT` capability flags.
#[derive(Clone, Copy, Debug, PartialEq, Eq, Structural)]
pub struct InitFlags {
    pub bits: u32,
}

impl InitFlags {
    pub const ASYNC_READ: u32 = 1 << 0;

    pub const ATOMIC_O_TRUNC: u32 = 1 << 3;

    pub const BIG_WRITES: u32 = 1 << 5;

    pub const DO_READDIRPLUS: u32 = 1 << 13;

    pub const READDIRPLUS_AUTO: u32 = 1 << 14;

    pub const NO_OPEN_SUPPORT: u32 = 1 << 17;

    pub const MAX_PAGES: u32 = 1 << 22;

    pub const NO_OPENDIR_SUPPORT: u32 = 1 << 24;

    /// All the flags above.
    pub const ALL: u32 = 0x142_6029;

    /// Whether all of `flag` is set.
    pub open spec fn has(self, flag: u32) -> bool {
        self.bits & flag == flag
    }

    /// The known flags among `bits`.
    pub fn from_bits_truncate(bits: u32) -> (r: Self)
        ensures
            r.bits == bits & InitFlags::ALL,
    {
        InitFlags { bits: bits & InitFlags::ALL }
    }

    /// The flags as a number.
    pub fn bits(&self) -> (r: u32)
        ensures
            r == self.bits,
    {
        self.bits
    }

    /// Whether all of `flag` is set.
    pub fn contains(&self, flag: u32) -> (r: bool)
        ensures
            r == self.has(flag),
    {
        self.bits & flag == flag
    }

    /// Sets `flag`.
    pub fn insert(&mut self, flag: u32)
        ensures
            final(self).bits == old(self).bits | flag,
    {
        self.bits = self.bits | flag;
    }

    /// The flags that both have.
    pub fn intersection(&self, other: Self) -> (r: Self)
        ensures
            r.bits == self.bits & other.bits,
    {
        InitFlags { bits: self.bits & other.bits }
    }
}

/// The named flags are the bits of `ALL`, each its own.
pub proof fn lemma_flags_all()
    ensures
        FattrFlags::ALL == FattrFlags::MODE | FattrFlags::UID | FattrFlags::GID | FattrFlags::SIZE
            | FattrFlags::ATIME | FattrFlags::MTIME | FattrFlags::FH | FattrFlags::ATIME_NOW
            | FattrFlags::MTIME_NOW | FattrFlags::CTIME,
        InitFlags::ALL == InitFlags::ASYNC_READ | InitFlags::ATOMIC_O_TRUNC | InitFlags::BIG_WRITES
            | InitFlags::DO_READDIRPLUS | InitFlags::READDIRPLUS_AUTO | InitFlags::NO_OPEN_SUPPORT
            | InitFlags::MAX_PAGES | InitFlags::NO_OPENDIR_SUPPORT,
{
    assert(0x5ffu32 == (1u32 << 0) | (1u32 << 1) | (1u32 << 2) | (1u32 << 3) | (1u32 << 4) | (1u32
        << 5) | (1u32 << 6) | (1u32 << 7) | (1u32 << 8) | (1u32 << 10)) by (bit_vector);
    assert(0x142_6029u32 == (1u32 << 0) | (1u32 << 3) | (1u32 << 5) | (1u32 << 13) | (1u32 << 14)
        | (1u32 << 17) | (1u32 << 22) | (1u32 << 24)) by (bit_vector);
}

/// The header of every message from the kernel.
#[derive(Debug, Clone, Copy)]
pub struct FuseInHeader {
    pub len: u32,
    pub opcode: u32,
    pub unique: u64,
    pub nodeid: u64,
    pub uid: u32,
    pub gid: u32,
    pub pid: u32,
    pub total_extlen: u16,
    pub padding: u16,
}

/// The header of every message to the kernel.
#[derive(Debug, Clone, Copy)]
pub struct FuseOutHeader {
    pub len: u32,
    pub error: i32,
    pub unique: u64,
}

/// The attributes of an inode.
#[derive(Debug, Clone, Copy)]
pub struct FuseAttr {
    pub ino: u64,
    pub size: u64,
    pub blocks: u64,
    pub atime: u64,
    pub mtime: u64,
    pub ctime: u64,
    pub atimensec: u32,
    pub mtimensec: u32,
    pub ctimensec: u32,
    pub mode: u32,
    pub nlink: u32,
    pub uid: u32,
    pub gid: u32,
    pub rdev: u32,
    pub blksize: u32,
    pub flags: u32,
}

/// The reply to a lookup and to the requests that create an entry.
#[derive(Debug, Clone, Copy)]
pub struct FuseEntryOut {
    pub nodeid: u64,
    pub generation: u64,
    pub entry_valid: u64,
    pub attr_valid: u64,
    pub entry_valid_nsec: u32,
    pub attr_valid_nsec: u32,
    pub attr: FuseAttr,
}

/// The reply to the requests that get or set attributes.
#[derive(Debug, Clone, Copy)]
pub struct FuseAttrOut {
    pub attr_valid: u64,
    pub attr_valid_nsec: u32,
    pub dummy: u32,
    pub attr: FuseAttr,
}

/// The reply to a request for filesystem statistics.
#[derive(Debug, Clone, Copy)]
pub struct FuseKstatfs {
    pub blocks: u64,
    pub bfree: u64,
    pub bavail: u64,
    pub files: u64,
    pub ffree: u64,
    pub bsize: u32,
    pub namelen: u32,
    pub frsize: u32,
    pub padding: u32,
    pub spare: [u32; 6],
}

/// Body of `FUSE_FORGET`.
#[derive(Debug, Clone, Copy)]
pub struct FuseForgetIn {
    pub nlookup: u64,
}

/// Body of `FUSE_BATCH_FORGET`; `count` times [`FuseForgetOne`] follows.
#[derive(Debug, Clone, Copy)]
pub struct FuseBatchForgetIn {
    pub count: u32,
    pub dummy: u32,
}

/// One entry of a `FUSE_BATCH_FORGET`.
#[derive(Debug, Clone, Copy)]
pub struct FuseForgetOne {
    pub nodeid: u64,
    pub nlookup: u64,
}

/// Body of `FUSE_SETATTR`.
#[derive(Debug, Clone, Copy)]
pub struct FuseSetattrIn {
    pub valid: u32,
    pub padding: u32,
    pub fh: u64,
    pub size: u64,
    pub lock_owner: u64,
    pub atime: u64,
    pub mtime: u64,
    pub ctime: u64,
    pub atimensec: u32,
    pub mtimensec: u32,
    pub ctimensec: u32,
    pub mode: u32,
    pub unused4: u32,
    pub uid: u32,
    pub gid: u32,
    pub unused5: u32,
}

/// Body of `FUSE_OPEN`.
#[derive(Debug, Clone, Copy)]
pub struct FuseOpenIn {
    pub flags: u32,
    pub open_flags: u32,
}

/// The reply to the requests that open a file.
#[derive(Debug, Clone, Copy)]
pub struct FuseOpenOut {
    pub fh: u64,
    pub open_flags: u32,
    pub backing_id: i32,
}

/// Body of `FUSE_CREATE`; the name follows.
#[derive(Debug, Clone, Copy)]
pub struct FuseCreateIn {
    pub flags: u32,
    pub mode: u32,
    pub umask: u32,
    pub open_flags: u32,
}

/// Body of `FUSE_RELEASE`.
#[derive(Debug, Clone, Copy)]
pub struct FuseReleaseIn {
    pub fh: u64,
    pub flags: u32,
    pub release_flags: u32,
    pub lock_owner: u64,
}

/// Body of `FUSE_READ`, `FUSE_READDIR` and `FUSE_READDIRPLUS`.
#[derive(Debug, Clone, Copy)]
pub struct FuseReadIn {
    pub fh: u64,
    pub offset: u64,
    pub size: u32,
    pub read_flags: u32,
    pub lock_owner: u64,
    pub flags: u32,
    pub padding: u32,
}

/// Body of `FUSE_WRITE`; the data follows.
#[derive(Debug, Clone, Copy)]
pub struct FuseWriteIn {
    pub fh: u64,
    pub offset: u64,
    pub size: u32,
    pub write_flags: u32,
    pub lock_owner: u64,
    pub flags: u32,
    pub padding: u32,
}

/// The reply to a write.
#[derive(Debug, Clone, Copy)]
pub struct FuseWriteOut {
    pub size: u32,
    pub padding: u32,
}

/// Body of `FUSE_MKNOD`; the name follows.
#[derive(Debug, Clone, Copy)]
pub struct FuseMknodIn {
    pub mode: u32,
    pub rdev: u32,
    pub umask: u32,
    pub padding: u32,
}

/// Body of `FUSE_MKDIR`; the name follows.
#[derive(Debug, Clone, Copy)]
pub struct FuseMkdirIn {
    pub mode: u32,
    pub umask: u32,
}

/// Body of `FUSE_RENAME2`; the two names follow.
#[derive(Debug, Clone, Copy)]
pub struct FuseRename2In {
    pub newdir: u64,
    pub flags: u32,
    pub padding: u32,
}

/// Body of `FUSE_INIT`.
#[derive(Debug, Clone, Copy)]
pub struct FuseInitIn {
    pub major: u32,
    pub minor: u32,
    pub max_readahead: u32,
    pub flags: u32,
    pub flags2: u32,
    pub unused: [u32; 11],
}

/// The reply to `FUSE_INIT`.
#[derive(Debug, Clone, Copy)]
pub struct FuseInitOut {
    pub major: u32,
    pub minor: u32,
    pub max_readahead: u32,
    pub flags: u32,
    pub max_background: u16,
    pub congestion_threshold: u16,
    pub max_write: u32,
    pub time_gran: u32,
    pub max_pages: u16,
    pub map_alignment: u16,
    pub flags2: u32,
    pub max_stack_depth: u32,
    pub request_timeout: u16,
    pub unused: [u16; 11],
}

/// Body of `FUSE_GETXATTR`, where the name follows, and of `FUSE_LISTXATTR`.
#[derive(Debug, Clone, Copy)]
pub struct FuseGetxattrIn {
    pub size: u32,
    pub padding: u32,
}

/// The reply that gives the size of extended attributes.
#[derive(Debug, Clone, Copy)]
pub struct FuseGetxattrOut {
    pub size: u32,
    pub padding: u32,
}

/// Fixed-size prefix of `fuse_dirent`. The variable-length name follows immediately, padded to
/// 8-byte alignment.
#[derive(Debug, Clone, Copy)]
pub struct FuseDirent {
    pub ino: u64,
    pub off: u64,
    pub namelen: u32,
    pub typ: u32,
}

/// `v`, or zero where `v` is negative.
pub open spec fn at_least_zero(v: int) -> int {
    if v < 0 {
        0
    } else {
        v
    }
}

fn i64_at_least_zero(v: i64) -> (r: i64)
    ensures
        r == at_least_zero(v as int),
{
    if v < 0 {
        0
    } else {
        v
    }
}

impl FuseAttr {
    /// The attributes that the protocol makes of `s`.
    pub open spec fn of_stat(s: Stat) -> FuseAttr {
        FuseAttr {
            ino: s.st_ino,
            size: cast::low64(s.st_size as int),
            blocks: cast::low64(s.st_blocks as int),
            atime: at_least_zero(s.st_atime as int) as u64,
            mtime: at_least_zero(s.st_mtime as int) as u64,
            ctime: at_least_zero(s.st_ctime as int) as u64,
            atimensec: cast::low32(at_least_zero(s.st_atime_nsec as int)),
            mtimensec: cast::low32(at_least_zero(s.st_mtime_nsec as int)),
            ctimensec: cast::low32(at_least_zero(s.st_ctime_nsec as int)),
            mode: s.st_mode,
            nlink: cast::low32(s.st_nlink as int),
            uid: s.st_uid,
            gid: s.st_gid,
            rdev: cast::low32(s.st_rdev as int),
            blksize: cast::low32(s.st_blksize as int),
            flags: 0,
        }
    }

    /// The FUSE wire format uses `u64` for seconds, so pre-epoch timestamps cannot be represented.
    /// They are clamped to 0 rather than silently wrapped.
    pub fn from_stat(s: &Stat) -> (r: Self)
        ensures
            r == FuseAttr::of_stat(*s),
    {
        FuseAttr {
            ino: s.st_ino,
            size: cast::i64_to_u64(s.st_size),
            blocks: cast::i64_to_u64(s.st_blocks),
            atime: i64_at_least_zero(s.st_atime) as u64,
            mtime: i64_at_least_zero(s.st_mtime) as u64,
            ctime: i64_at_least_zero(s.st_ctime) as u64,
            atimensec: cast::i64_to_u32(i64_at_least_zero(s.st_atime_nsec)),
            mtimensec: cast::i64_to_u32(i64_at_least_zero(s.st_mtime_nsec)),
            ctimensec: cast::i64_to_u32(i64_at_least_zero(s.st_ctime_nsec)),
            mode: s.st_mode,
            nlink: cast::u64_to_u32(s.st_nlink),
            uid: s.st_uid,
            gid: s.st_gid,
            rdev: cast::u64_to_u32(s.st_rdev),
            blksize: cast::i64_to_u32(s.st_blksize),
            flags: 0,
        }
    }
}

impl FuseKstatfs {
    /// The statistics that the protocol makes of `s`.
    pub open spec fn of_statvfs(s: StatVfs) -> FuseKstatfs {
        FuseKstatfs {
            blocks: s.f_blocks,
            bfree: s.f_bfree,
            bavail: s.f_bavail,
            files: s.f_files,
            ffree: s.f_ffree,
            bsize: cast::low32(s.f_bsize as int),
            namelen: cast::low32(s.f_namemax as int),
            frsize: cast::low32(s.f_frsize as int),
            padding: 0,
            spare: [0, 0, 0, 0, 0, 0],
        }
    }

    /// The statistics that the protocol makes of `s`.
    pub fn from_statvfs(s: &StatVfs) -> (r: Self)
        ensures
            r == FuseKstatfs::of_statvfs(*s),
    {
        let r = FuseKstatfs {
            blocks: s.f_blocks,
            bfree: s.f_bfree,
            bavail: s.f_bavail,
            files: s.f_files,
            ffree: s.f_ffree,
            bsize: cast::u64_to_u32(s.f_bsize),
            namelen: cast::u64_to_u32(s.f_namemax),
            frsize: cast::u64_to_u32(s.f_frsize),
            padding: 0,
            spare: [0, 0, 0, 0, 0, 0],
        };
        assert(r.spare =~= FuseKstatfs::of_statvfs(*s).spare);
        r
    }
}

impl FuseSetattrIn {
    /// The attributes that the request carries; what it cannot carry is zero.
    pub open spec fn as_stat(self) -> Stat {
        Stat {
            st_ino: 0,
            st_nlink: 0,
            st_mode: self.mode,
            st_uid: self.uid,
            st_gid: self.gid,
            st_rdev: 0,
            st_size: cast::signed64(self.size),
            st_blksize: 0,
            st_blocks: 0,
            st_atime: cast::signed64(self.atime),
            st_atime_nsec: self.atimensec as i64,
            st_mtime: cast::signed64(self.mtime),
            st_mtime_nsec: self.mtimensec as i64,
            st_ctime: cast::signed64(self.ctime),
            st_ctime_nsec: self.ctimensec as i64,
        }
    }

    /// Convert the setattr fields to a `Stat` for use by the `Setattr` request.
    /// Only the fields that can appear in a setattr request are populated.
    pub fn to_stat(self) -> (r: Stat)
        ensures
            r == self.as_stat(),
    {
        Stat {
            st_ino: 0,
            st_nlink: 0,
            st_mode: self.mode,
            st_uid: self.uid,
            st_gid: self.gid,
            st_rdev: 0,
            st_size: cast::u64_to_i64(self.size),
            st_blksize: 0,
            st_blocks: 0,
            st_atime: cast::u64_to_i64(self.atime),
            st_atime_nsec: self.atimensec as i64,
            st_mtime: cast::u64_to_i64(self.mtime),
            st_mtime_nsec: self.mtimensec as i64,
            st_ctime: cast::u64_to_i64(self.ctime),
            st_ctime_nsec: self.ctimensec as i64,
        }
    }
}

/// The size of the fixed `fuse_dirent` header (without name).
pub const FUSE_DIRENT_HEADER_SIZE: usize = 24;

/// The size of a `fuse_entry_out`.
pub const FUSE_ENTRY_OUT_SIZE: usize = 128;

/// These are the sizes of the structures.
pub proof fn lemma_fixed_sizes()
    ensures
        FUSE_DIRENT_HEADER_SIZE == FuseDirent::wire_size(),
        FUSE_ENTRY_OUT_SIZE == FuseEntryOut::wire_size(),
{
}

/// The least multiple of eight that is not below `x`.
pub open spec fn align8(x: int) -> int {
    (x + 7) / 8 * 8
}

/// What [`align8`] gives is a multiple of eight, is not below its argument, and no multiple of
/// eight lies between them.
pub proof fn lemma_align8(x: int)
    ensures
        align8(x) % 8 == 0,
        x <= align8(x) < x + 8,
        forall|m: int| x <= m && #[trigger] (m % 8) == 0 ==> align8(x) <= m,
{
}

/// The size of a directory entry with a name of `namelen` bytes, padding included.
pub open spec fn dirent_size(namelen: int) -> int {
    align8(FUSE_DIRENT_HEADER_SIZE + namelen)
}

/// The size of a directory entry with attributes and a name of `namelen` bytes, padding included.
pub open spec fn direntplus_size(namelen: int) -> int {
    align8(FUSE_ENTRY_OUT_SIZE + FUSE_DIRENT_HEADER_SIZE + namelen)
}

/// Align `x` up to the 8-byte boundary required by the FUSE dirent wire format.
pub fn fuse_dirent_align(x: usize) -> (r: usize)
    requires
        x + 7 <= usize::MAX,
    ensures
        r == align8(x as int),
{
    let y: usize = x + 7;
    assert(y & !7usize == y / 8 * 8) by (bit_vector);
    y & !7
}

/// Total size of a dirent entry including name and padding.
pub fn fuse_dirent_size(namelen: usize) -> (r: usize)
    requires
        FUSE_DIRENT_HEADER_SIZE + namelen + 7 <= usize::MAX,
    ensures
        r == dirent_size(namelen as int),
{
    fuse_dirent_align(FUSE_DIRENT_HEADER_SIZE + namelen)
}

/// Total size of a direntplus entry (entry_out + dirent header + name + padding).
pub fn fuse_direntplus_size(namelen: usize) -> (r: usize)
    requires
        FUSE_ENTRY_OUT_SIZE + FUSE_DIRENT_HEADER_SIZE + namelen + 7 <= usize::MAX,
    ensures
        r == direntplus_size(namelen as int),
{
    fuse_dirent_align(FUSE_ENTRY_OUT_SIZE + FUSE_DIRENT_HEADER_SIZE + namelen)
}

/// The name that `s` starts with: all before the first zero byte.
pub open spec fn name_of(s: Seq<u8>) -> Seq<u8> {
    s.take(cstring::nul_position(s) as int)
}

/// The two names that `s` starts with, where a zero byte ends the first.
pub open spec fn two_names_of(s: Seq<u8>) -> Option<(Seq<u8>, Seq<u8>)> {
    let p = cstring::nul_position(s);
    if p < s.len() {
        Some((s.take(p as int), name_of(s.skip(p as int + 1))))
    } else {
        None
    }
}

/// A name that was terminated by a zero byte is read back, whatever follows.
pub proof fn lemma_name_of_terminated(name: Seq<u8>, rest: Seq<u8>)
    requires
        cstring::no_nul(name),
    ensures
        name_of(name.push(0) + rest) == name,
{
    let s = name.push(0) + rest;
    assert(s.take(name.len() as int) =~= name);
    cstring::lemma_nul_position_unique(s, name.len());
}

/// Two names that were each terminated by a zero byte are read back, whatever follows.
pub proof fn lemma_two_names_of_terminated(first: Seq<u8>, second: Seq<u8>, rest: Seq<u8>)
    requires
        cstring::no_nul(first),
        cstring::no_nul(second),
    ensures
        two_names_of(first.push(0) + second.push(0) + rest) == Some((first, second)),
{
    let s = first.push(0) + second.push(0) + rest;
    assert(s =~= first.push(0) + (second.push(0) + rest));
    assert(s.take(first.len() as int) =~= first);
    cstring::lemma_nul_position_unique(s, first.len());
    assert(s.skip(first.len() as int + 1) =~= second.push(0) + rest);
    lemma_name_of_terminated(second, rest);
}

/// Extract a NUL-terminated name from a raw byte slice.
///
/// Stops at the first NUL byte; uses the whole slice if no NUL is present.
pub fn name_from_bytes(data: &[u8]) -> (r: &[u8])
    ensures
        r@ == name_of(data@),
{
    let p: usize = cstring::find_nul(data);
    slice_subrange(data, 0, p)
}

/// Extract the name from a FUSE request where the name follows a fixed-size header `T`.
pub fn name_after<T: Wire>(data: &[u8]) -> (r: Result<&[u8], Error>)
    ensures
        data@.len() < T::wire_size() <==> r is Err,
        r matches Err(e) ==> e == Error::NoName,
        r matches Ok(name) ==> name@ == name_of(data@.skip(T::wire_size() as int)),
{
    let size: usize = T::size();
    if data.len() < size {
        return Err(Error::NoName);
    }
    let rest = slice_subrange(data, size, data.len());
    assert(rest@ =~= data@.skip(size as int));
    Ok(name_from_bytes(rest))
}

/// Extract two NUL-separated names from a FUSE request (used by rename2).
pub fn two_names_after<T: Wire>(data: &[u8]) -> (r: Result<(&[u8], &[u8]), Error>)
    ensures
        match r {
            Ok((first, second)) => data@.len() >= T::wire_size() && two_names_of(
                data@.skip(T::wire_size() as int),
            ) == Some((first@, second@)),
            Err(e) => if data@.len() < T::wire_size() {
                e == Error::NoNames
            } else {
                e == Error::NoSeparator && two_names_of(data@.skip(T::wire_size() as int)) is None
            },
        },
{
    let size: usize = T::size();
    if data.len() < size {
        return Err(Error::NoNames);
    }
    let rest = slice_subrange(data, size, data.len());
    assert(rest@ =~= data@.skip(size as int));
    let p: usize = cstring::find_nul(rest);
    if p >= rest.len() {
        return Err(Error::NoSeparator);
    }
    let first = slice_subrange(rest, 0, p);
    let second = slice_subrange(rest, p + 1, rest.len());
    assert(second@ =~= rest@.skip(p + 1));
    Ok((first, name_from_bytes(second)))
}

/// The entry that the protocol makes of `entry`.
pub open spec fn entry_out_of(entry: EntryParam) -> FuseEntryOut {
    FuseEntryOut {
        nodeid: entry.inode,
        generation: entry.generation,
        entry_valid: entry.entry_timeout@.secs,
        attr_valid: entry.attr_timeout@.secs,
        entry_valid_nsec: entry.entry_timeout@.nsec,
        attr_valid_nsec: entry.attr_timeout@.nsec,
        attr: FuseAttr::of_stat(entry.attr),
    }
}

/// The entry that the protocol makes of `entry`.
pub fn entry_out_from_param(entry: &EntryParam) -> (r: FuseEntryOut)
    ensures
        r == entry_out_of(*entry),
        entry.valid(),
{
    FuseEntryOut {
        nodeid: entry.inode,
        generation: entry.generation,
        entry_valid: entry.entry_timeout.secs(),
        attr_valid: entry.attr_timeout.secs(),
        entry_valid_nsec: entry.entry_timeout.nsec(),
        attr_valid_nsec: entry.attr_timeout.nsec(),
        attr: FuseAttr::from_stat(&entry.attr),
    }
}

} // verus!
