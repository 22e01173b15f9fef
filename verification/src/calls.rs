//! What the functions around the protocol do, from what they are given to what they give back.
//!
//! `call_ensures(f, args, r)` says that `f`, called with `args`, can give back `r`.

use vstd::prelude::*;

use crate::cast;
use crate::cstring;
use crate::cstring::CString;
use crate::error::Error;
use crate::message;
use crate::offsets;
use crate::protocol;
use crate::protocol::{
    FattrFlags, FopenFlags, FuseAttr, FuseEntryOut, FuseInitIn, FuseInitOut, FuseKstatfs,
    FuseSetattrIn, InitFlags, Opcode,
};
use crate::received;
use crate::reply;
use crate::reply::{Completion, Reply, ReplyError, RequestGuard};
use crate::sent;
use crate::session;
use crate::session::{AfterRead, EnabledOps, ReadOutcome};
use crate::sys;
use crate::sys::{EntryParam, FuseFileInfo, ReplyBuf, ReplyBufState};
use crate::util::{Stat, StatVfs, Timeout};
use crate::wire;
use crate::wire::{ByteOrder, Wire};

verus! {

/// Each opcode has its number in `<linux/fuse.h>`.
pub proof fn lemma_to_u32(opcode: Opcode, n: u32)
    requires
        call_ensures(Opcode::to_u32, (opcode,), n),
    ensures
        opcode is Lookup <==> n == 1,
        opcode is Forget <==> n == 2,
        opcode is Getattr <==> n == 3,
        opcode is Setattr <==> n == 4,
        opcode is Readlink <==> n == 5,
        opcode is Mknod <==> n == 8,
        opcode is Mkdir <==> n == 9,
        opcode is Unlink <==> n == 10,
        opcode is Rmdir <==> n == 11,
        opcode is Open <==> n == 14,
        opcode is Read <==> n == 15,
        opcode is Write <==> n == 16,
        opcode is Statfs <==> n == 17,
        opcode is Release <==> n == 18,
        opcode is Getxattr <==> n == 22,
        opcode is Listxattr <==> n == 23,
        opcode is Init <==> n == 26,
        opcode is Readdir <==> n == 28,
        opcode is Create <==> n == 35,
        opcode is Interrupt <==> n == 36,
        opcode is Destroy <==> n == 38,
        opcode is BatchForget <==> n == 42,
        opcode is Readdirplus <==> n == 44,
        opcode is Rename2 <==> n == 45,
{
}

/// Each number is read as the opcode that has it in `<linux/fuse.h>`, and no other as any.
pub proof fn lemma_from_u32(n: u32, r: Option<Opcode>)
    requires
        call_ensures(Opcode::from_u32, (n,), r),
    ensures
        r == Some(Opcode::Lookup) <==> n == 1,
        r == Some(Opcode::Forget) <==> n == 2,
        r == Some(Opcode::Getattr) <==> n == 3,
        r == Some(Opcode::Setattr) <==> n == 4,
        r == Some(Opcode::Readlink) <==> n == 5,
        r == Some(Opcode::Mknod) <==> n == 8,
        r == Some(Opcode::Mkdir) <==> n == 9,
        r == Some(Opcode::Unlink) <==> n == 10,
        r == Some(Opcode::Rmdir) <==> n == 11,
        r == Some(Opcode::Open) <==> n == 14,
        r == Some(Opcode::Read) <==> n == 15,
        r == Some(Opcode::Write) <==> n == 16,
        r == Some(Opcode::Statfs) <==> n == 17,
        r == Some(Opcode::Release) <==> n == 18,
        r == Some(Opcode::Getxattr) <==> n == 22,
        r == Some(Opcode::Listxattr) <==> n == 23,
        r == Some(Opcode::Init) <==> n == 26,
        r == Some(Opcode::Readdir) <==> n == 28,
        r == Some(Opcode::Create) <==> n == 35,
        r == Some(Opcode::Interrupt) <==> n == 36,
        r == Some(Opcode::Destroy) <==> n == 38,
        r == Some(Opcode::BatchForget) <==> n == 42,
        r == Some(Opcode::Readdirplus) <==> n == 44,
        r == Some(Opcode::Rename2) <==> n == 45,
{
    received::lemma_opcode_numbers(n);
}

/// The attributes that are sent are those of the file.
pub proof fn lemma_from_stat(s: &Stat, r: FuseAttr)
    requires
        call_ensures(FuseAttr::from_stat, (s,), r),
    ensures
        sent::is_attr(r, *s),
{
    sent::lemma_attr(*s);
}

/// The statistics that are sent are those of the filesystem.
pub proof fn lemma_from_statvfs(s: &StatVfs, r: FuseKstatfs)
    requires
        call_ensures(FuseKstatfs::from_statvfs, (s,), r),
    ensures
        r.blocks == s.f_blocks && r.bfree == s.f_bfree && r.bavail == s.f_bavail,
        r.files == s.f_files && r.ffree == s.f_ffree,
        sent::kept32(r.bsize, s.f_bsize as int),
        sent::kept32(r.namelen, s.f_namemax as int),
        sent::kept32(r.frsize, s.f_frsize as int),
        r.padding == 0,
        forall|i: int| 0 <= i < 6 ==> #[trigger] r.spare[i] == 0,
{
    sent::lemma_statfs(*s);
}

/// The attributes that are to be set are those that came in.
pub proof fn lemma_to_stat(v: FuseSetattrIn, r: Stat)
    requires
        call_ensures(FuseSetattrIn::to_stat, (v,), r),
    ensures
        r.st_mode == v.mode && r.st_uid == v.uid && r.st_gid == v.gid,
        received::same_bits(r.st_size, v.size),
        received::same_bits(r.st_atime, v.atime),
        received::same_bits(r.st_mtime, v.mtime),
        received::same_bits(r.st_ctime, v.ctime),
        r.st_atime_nsec == v.atimensec,
        r.st_mtime_nsec == v.mtimensec,
        r.st_ctime_nsec == v.ctimensec,
        r.st_ino == 0 && r.st_nlink == 0 && r.st_rdev == 0,
        r.st_blksize == 0 && r.st_blocks == 0,
{
    sent::lemma_setattr_stat(v);
}

/// The entry that is sent is the one that was given.
pub proof fn lemma_entry_out_from_param(entry: &EntryParam, r: FuseEntryOut)
    requires
        call_ensures(protocol::entry_out_from_param, (entry,), r),
    ensures
        sent::is_entry(r, *entry),
        r.entry_valid_nsec < 1_000_000_000,
        r.attr_valid_nsec < 1_000_000_000,
{
    sent::lemma_entry(*entry, entry.attr, entry.attr_timeout);
}

/// The sizes of entries: up to the next multiple of eight.
pub proof fn lemma_dirent_sizes(n: usize, aligned: usize, plain: usize, plus: usize)
    requires
        call_ensures(protocol::fuse_dirent_align, (n,), aligned),
        call_ensures(protocol::fuse_dirent_size, (n,), plain),
        call_ensures(protocol::fuse_direntplus_size, (n,), plus),
    ensures
        n <= aligned < n + 8,
        aligned % 8 == 0,
        24 + n <= plain < 32 + n,
        plain % 8 == 0,
        152 + n <= plus < 160 + n,
        plus % 8 == 0,
{
}

/// A name is all before the first zero byte.
pub proof fn lemma_name_from_bytes(data: &[u8], r: &[u8])
    requires
        call_ensures(protocol::name_from_bytes, (data,), r),
    ensures
        received::is_name(r@, data@, 0),
{
    lemma_first_name(data@);
}

/// A name behind a structure starts right behind it.
pub proof fn lemma_name_after<T: Wire>(data: &[u8], r: Result<&[u8], Error>)
    requires
        call_ensures(protocol::name_after::<T>, (data,), r),
    ensures
        match r {
            Ok(name) => {
                &&& data@.len() >= T::wire_size()
                &&& received::is_name(name@, data@, T::wire_size() as int)
            },
            Err(err) => {
                &&& data@.len() < T::wire_size()
                &&& err == Error::NoName
            },
        },
{
    if data@.len() >= T::wire_size() {
        lemma_first_name(data@.skip(T::wire_size() as int));
    }
}

/// Two names behind a structure: the first ends at a zero byte, and the second starts behind it.
pub proof fn lemma_two_names_after<T: Wire>(data: &[u8], r: Result<(&[u8], &[u8]), Error>)
    requires
        call_ensures(protocol::two_names_after::<T>, (data,), r),
    ensures
        match r {
            Ok((first, second)) => {
                let n = T::wire_size() as int;
                &&& received::is_name(first@, data@, n)
                &&& n + first@.len() < data@.len()
                &&& received::is_name(second@, data@, n + first@.len() + 1)
            },
            Err(err) => if data@.len() < T::wire_size() {
                err == Error::NoNames
            } else {
                &&& err == Error::NoSeparator
                &&& forall|i: int| T::wire_size() <= i < data@.len() ==> #[trigger] data@[i] != 0
            },
        },
{
    let n = T::wire_size() as int;
    if data@.len() >= n {
        let names = data@.skip(n);
        let p = cstring::nul_position(names) as int;
        lemma_first_name(names);
        if p < names.len() {
            lemma_first_name(names.skip(p + 1));
        } else {
            assert forall|i: int| n <= i < data@.len() implies #[trigger] data@[i] != 0 by {
                assert(names.take(p)[i - n] == data@[i]);
            }
        }
    }
}

/// The name at the start of `s`.
proof fn lemma_first_name(s: Seq<u8>)
    ensures
        received::is_name(protocol::name_of(s), s, 0),
        cstring::nul_position(s) <= s.len(),
        protocol::name_of(s) == s.take(cstring::nul_position(s) as int),
        cstring::no_nul(protocol::name_of(s)),
{
    cstring::lemma_nul_position(s);
}

/// The known flags are kept and no others, and each is found as the bit that it is.
pub proof fn lemma_fattr_flags(bits: u32, kept: FattrFlags, flags: &FattrFlags, r: bool)
    requires
        call_ensures(FattrFlags::from_bits_truncate, (bits,), kept),
    ensures
        kept.bits / 1 % 2 == bits / 1 % 2,
        kept.bits / 2 % 2 == bits / 2 % 2,
        kept.bits / 4 % 2 == bits / 4 % 2,
        kept.bits / 8 % 2 == bits / 8 % 2,
        kept.bits / 16 % 2 == bits / 16 % 2,
        kept.bits / 32 % 2 == bits / 32 % 2,
        kept.bits / 64 % 2 == bits / 64 % 2,
        kept.bits / 128 % 2 == bits / 128 % 2,
        kept.bits / 256 % 2 == bits / 256 % 2,
        kept.bits / 1024 % 2 == bits / 1024 % 2,
        kept.bits / 512 % 2 == 0,
        kept.bits < 2048,
        call_ensures(FattrFlags::contains, (flags, FattrFlags::MODE), r) ==> r == (
        flags.bits / 1 % 2 == 1),
        call_ensures(FattrFlags::contains, (flags, FattrFlags::UID), r) ==> r == (
        flags.bits / 2 % 2 == 1),
        call_ensures(FattrFlags::contains, (flags, FattrFlags::GID), r) ==> r == (
        flags.bits / 4 % 2 == 1),
        call_ensures(FattrFlags::contains, (flags, FattrFlags::SIZE), r) ==> r == (
        flags.bits / 8 % 2 == 1),
        call_ensures(FattrFlags::contains, (flags, FattrFlags::ATIME), r) ==> r == (
        flags.bits / 16 % 2 == 1),
        call_ensures(FattrFlags::contains, (flags, FattrFlags::MTIME), r) ==> r == (
        flags.bits / 32 % 2 == 1),
        call_ensures(FattrFlags::contains, (flags, FattrFlags::FH), r) ==> r == (
        flags.bits / 64 % 2 == 1),
        call_ensures(FattrFlags::contains, (flags, FattrFlags::ATIME_NOW), r) ==> r == (
        flags.bits / 128 % 2 == 1),
        call_ensures(FattrFlags::contains, (flags, FattrFlags::MTIME_NOW), r) ==> r == (
        flags.bits / 256 % 2 == 1),
        call_ensures(FattrFlags::contains, (flags, FattrFlags::CTIME), r) ==> r == (
        flags.bits / 1024 % 2 == 1),
{
    sent::lemma_flag_bits(flags.bits);
    assert({
        &&& (bits & 0x5ff) / 1 % 2 == bits / 1 % 2
        &&& (bits & 0x5ff) / 2 % 2 == bits / 2 % 2
        &&& (bits & 0x5ff) / 4 % 2 == bits / 4 % 2
        &&& (bits & 0x5ff) / 8 % 2 == bits / 8 % 2
        &&& (bits & 0x5ff) / 16 % 2 == bits / 16 % 2
        &&& (bits & 0x5ff) / 32 % 2 == bits / 32 % 2
        &&& (bits & 0x5ff) / 64 % 2 == bits / 64 % 2
        &&& (bits & 0x5ff) / 128 % 2 == bits / 128 % 2
        &&& (bits & 0x5ff) / 256 % 2 == bits / 256 % 2
        &&& (bits & 0x5ff) / 1024 % 2 == bits / 1024 % 2
        &&& (bits & 0x5ff) / 512 % 2 == 0
        &&& bits & 0x5ff < 2048
    }) by (bit_vector);
}

/// The known flags of the handshake are kept and no others, and each is found as the bit that it
/// is.
pub proof fn lemma_init_flags(bits: u32, kept: InitFlags, flags: &InitFlags, r: bool)
    requires
        call_ensures(InitFlags::from_bits_truncate, (bits,), kept),
    ensures
        kept.bits / 1 % 2 == bits / 1 % 2,
        kept.bits / 8 % 2 == bits / 8 % 2,
        kept.bits / 32 % 2 == bits / 32 % 2,
        kept.bits / 0x2000 % 2 == bits / 0x2000 % 2,
        kept.bits / 0x4000 % 2 == bits / 0x4000 % 2,
        kept.bits / 0x2_0000 % 2 == bits / 0x2_0000 % 2,
        kept.bits / 0x40_0000 % 2 == bits / 0x40_0000 % 2,
        kept.bits / 0x100_0000 % 2 == bits / 0x100_0000 % 2,
        kept.bits & 0xfebd_9fd6 == 0,
        call_ensures(InitFlags::contains, (flags, InitFlags::ASYNC_READ), r) ==> r == (
        flags.bits / 1 % 2 == 1),
        call_ensures(InitFlags::contains, (flags, InitFlags::ATOMIC_O_TRUNC), r) ==> r == (
        flags.bits / 8 % 2 == 1),
        call_ensures(InitFlags::contains, (flags, InitFlags::BIG_WRITES), r) ==> r == (
        flags.bits / 32 % 2 == 1),
        call_ensures(InitFlags::contains, (flags, InitFlags::DO_READDIRPLUS), r) ==> r == (
        flags.bits / 0x2000 % 2 == 1),
        call_ensures(InitFlags::contains, (flags, InitFlags::READDIRPLUS_AUTO), r) ==> r == (
        flags.bits / 0x4000 % 2 == 1),
        call_ensures(InitFlags::contains, (flags, InitFlags::NO_OPEN_SUPPORT), r) ==> r == (
        flags.bits / 0x2_0000 % 2 == 1),
        call_ensures(InitFlags::contains, (flags, InitFlags::MAX_PAGES), r) ==> r == (
        flags.bits / 0x40_0000 % 2 == 1),
        call_ensures(InitFlags::contains, (flags, InitFlags::NO_OPENDIR_SUPPORT), r) ==> r == (
        flags.bits / 0x100_0000 % 2 == 1),
{
    sent::lemma_flag_bits(flags.bits);
    assert({
        &&& (bits & 0x142_6029) / 1 % 2 == bits / 1 % 2
        &&& (bits & 0x142_6029) / 8 % 2 == bits / 8 % 2
        &&& (bits & 0x142_6029) / 32 % 2 == bits / 32 % 2
        &&& (bits & 0x142_6029) / 0x2000 % 2 == bits / 0x2000 % 2
        &&& (bits & 0x142_6029) / 0x4000 % 2 == bits / 0x4000 % 2
        &&& (bits & 0x142_6029) / 0x2_0000 % 2 == bits / 0x2_0000 % 2
        &&& (bits & 0x142_6029) / 0x40_0000 % 2 == bits / 0x40_0000 % 2
        &&& (bits & 0x142_6029) / 0x100_0000 % 2 == bits / 0x100_0000 % 2
        &&& (bits & 0x142_6029) & 0xfebd_9fd6 == 0
    }) by (bit_vector);
}

/// Flags are put together bit by bit, and told as the number that they make up.
pub proof fn lemma_flag_sets(
    fopen: &mut FopenFlags,
    init: &mut InitFlags,
    both: (&InitFlags, InitFlags, InitFlags),
    flag: u32,
    value: bool,
    bit: u32,
)
    requires
        bit < 32,
        call_ensures(FopenFlags::set, (fopen, flag, value), ()),
        call_ensures(InitFlags::insert, (init, flag), ()),
        call_ensures(InitFlags::intersection, (both.0, both.1), both.2),
    ensures
        is_set(flag, bit) ==> is_set(final(fopen).bits, bit) == value,
        !is_set(flag, bit) ==> is_set(final(fopen).bits, bit) == is_set(old(fopen).bits, bit),
        is_set(final(init).bits, bit) == (is_set(old(init).bits, bit) || is_set(flag, bit)),
        is_set(both.2.bits, bit) == (is_set(both.0.bits, bit) && is_set(both.1.bits, bit)),
{
    let (a, b, c, d) = (old(fopen).bits, old(init).bits, both.0.bits, both.1.bits);
    assert({
        &&& flag >> bit & 1 == 1 ==> (a | flag) >> bit & 1 == 1 && (a & !flag) >> bit & 1 == 0
        &&& flag >> bit & 1 == 0 ==> (a | flag) >> bit & 1 == a >> bit & 1
        &&& flag >> bit & 1 == 0 ==> (a & !flag) >> bit & 1 == a >> bit & 1
        &&& (flag >> bit & 1 == 0 || flag >> bit & 1 == 1)
        &&& ((b | flag) >> bit & 1 == 1) == (b >> bit & 1 == 1 || flag >> bit & 1 == 1)
        &&& ((c & d) >> bit & 1 == 1) == (c >> bit & 1 == 1 && d >> bit & 1 == 1)
    }) by (bit_vector)
        requires
            bit < 32,
    ;
}

/// Whether the bit with number `bit` is set in `flags`.
pub open spec fn is_set(flags: u32, bit: u32) -> bool {
    flags >> bit & 1 == 1
}

/// Flags are told as the number that they make up, and none make up zero.
pub proof fn lemma_flag_numbers(
    fattr: &FattrFlags,
    fopen: &FopenFlags,
    init: &InitFlags,
    none: FopenFlags,
    n: u32,
)
    ensures
        call_ensures(FattrFlags::bits, (fattr,), n) ==> n == fattr.bits,
        call_ensures(FopenFlags::bits, (fopen,), n) ==> n == fopen.bits,
        call_ensures(InitFlags::bits, (init,), n) ==> n == init.bits,
        call_ensures(FopenFlags::empty, (), none) ==> none.bits == 0,
{
}

/// Conversions that keep the low bits.
pub proof fn lemma_casts(a: i32, b: u32, c: u64, d: i64, e: usize, n: u32, m: u64, s: i32, t: i64)
    ensures
        call_ensures(cast::i32_to_u32, (a,), n) ==> n == a || n == a + 0x1_0000_0000,
        call_ensures(cast::u32_to_i32, (b,), s) ==> s == b || s == b - 0x1_0000_0000,
        call_ensures(cast::u64_to_u32, (c,), n) ==> sent::kept32(n, c as int),
        call_ensures(cast::i64_to_u32, (d,), n) ==> sent::kept32(n, d as int),
        call_ensures(cast::i64_to_u64, (d,), m) ==> received::same_bits(d, m),
        call_ensures(cast::u64_to_i64, (c,), t) ==> received::same_bits(t, c),
        call_ensures(cast::usize_to_u32, (e,), n) ==> sent::kept32(n, e as int),
{
}

/// The first zero byte, or the length where there is none.
pub proof fn lemma_find_nul(s: &[u8], p: usize)
    requires
        call_ensures(cstring::find_nul, (s,), p),
    ensures
        p <= s@.len(),
        forall|i: int| 0 <= i < p ==> #[trigger] s@[i] != 0,
        p < s@.len() ==> s@[p as int] == 0,
{
    cstring::lemma_nul_position(s@);
    assert forall|i: int| 0 <= i < p implies #[trigger] s@[i] != 0 by {
        assert(s@.take(p as int)[i] == s@[i]);
    }
}

/// A terminated string is made of any bytes but such that hold a zero, and gives them back.
pub proof fn lemma_cstring(bytes: &[u8], r: Option<CString>, c: &CString, t: &[u8])
    requires
        call_ensures(CString::new, (bytes,), r),
    ensures
        r is None <==> bytes@.contains(0),
        r matches Some(made) ==> made@ == bytes@,
        call_ensures(CString::to_bytes, (c,), t) ==> t@ == c@ && !t@.contains(0),
        call_ensures(CString::to_bytes_with_nul, (c,), t) ==> {
            &&& t@.len() == c@.len() + 1
            &&& t@.take(c@.len() as int) == c@
            &&& t@.last() == 0
        },
{
    if call_ensures(CString::to_bytes_with_nul, (c,), t) {
        assert(t@.take(c@.len() as int) =~= c@);
    }
}

/// A structure is read from the start of a body where there is room for it.
pub proof fn lemma_read_body<T: Wire>(order: ByteOrder, body: &[u8], r: Result<T, Error>)
    requires
        call_ensures(message::read_body::<T>, (order, body), r),
        T::wire_size() <= usize::MAX,
    ensures
        match r {
            Ok(v) => {
                &&& body@.len() >= T::wire_size()
                &&& v == T::from_wire(order, body@)
            },
            Err(_) => {
                &&& body@.len() < T::wire_size()
                &&& received::cut_off(r, T::wire_size(), body@.len())
            },
        },
{
}

/// The system's error number is that of an error of the system, and no other error has one.
pub proof fn lemma_raw_os_error(err: &Error, errno: i32, r: Option<i32>)
    requires
        call_ensures(Error::raw_os_error, (err,), r),
    ensures
        r == Some(errno) <==> *err == Error::Os(errno),
{
}

/// A message is made of data that its length field can tell the length of.
pub proof fn lemma_reply_message(
    order: ByteOrder,
    unique: u64,
    error: i32,
    data: &[u8],
    r: Result<Vec<u8>, Error>,
)
    requires
        call_ensures(reply::reply_message, (order, unique, error, data), r),
    ensures
        match r {
            Ok(m) => {
                &&& data@.len() <= 0xffff_ffef
                &&& sent::is_message(m@, order, unique, error as int, data@)
            },
            Err(err) => {
                &&& data@.len() > 0xffff_ffef
                &&& err == Error::ReplyTooLong
            },
        },
{
    sent::lemma_message(order, unique, error, data@);
}

/// A message is made of data in several parts.
pub proof fn lemma_reply_message_vectored(
    order: ByteOrder,
    unique: u64,
    slices: &[&[u8]],
    len: usize,
    r: Result<Vec<u8>, Error>,
)
    requires
        call_ensures(reply::reply_message_vectored, (order, unique, slices, len), r),
        len == reply::concat(slices@).len(),
    ensures
        match r {
            Ok(m) => {
                &&& len <= 0xffff_ffef
                &&& sent::is_message(m@, order, unique, 0, reply::concat(slices@))
            },
            Err(err) => {
                &&& len > 0xffff_ffef
                &&& err == Error::ReplyTooLong
            },
        },
{
    sent::lemma_message(order, unique, 0, reply::concat(slices@));
}

/// A message that says an error has nothing but its header.
pub proof fn lemma_error_message(order: ByteOrder, unique: u64, errno: i32, r: Vec<u8>)
    requires
        call_ensures(reply::error_message, (order, unique, errno), r),
        errno != i32::MIN,
    ensures
        sent::is_message(r@, order, unique, -errno, Seq::empty()),
{
    sent::lemma_message(order, unique, (-errno) as i32, Seq::empty());
}

/// A request that was disarmed is not answered when it is dropped, and any other with error 38.
pub proof fn lemma_request_guard(guard: RequestGuard, disarmed: RequestGuard, r: Option<Vec<u8>>)
    requires
        call_ensures(RequestGuard::disarm, (guard,), disarmed),
        call_ensures(RequestGuard::abandon, (guard,), r),
    ensures
        disarmed@.unique == 0,
        disarmed@.order == guard@.order,
        r is None <==> guard@.unique == 0,
        r matches Some(m) ==> sent::is_message(
            m@,
            guard@.order,
            guard@.unique,
            -38,
            Seq::empty(),
        ),
{
    sent::lemma_guard(guard@, Seq::empty(), 0);
}

/// What comes of a reply once its message was written or refused.
pub proof fn lemma_complete(reply: Reply, written: Result<(), Error>, r: Completion)
    requires
        call_ensures(Reply::complete, (reply, written), r),
    ensures
        match written {
            Ok(_) => {
                &&& r.result is Ok
                &&& r.followup is None
            },
            Err(err) => if reply@.cancellable && err == Error::Os(2) {
                &&& r.result == Err::<(), ReplyError>(ReplyError::Cancelled)
                &&& r.followup is None
            } else {
                &&& r.result == Err::<(), ReplyError>(ReplyError::Io(err))
                &&& r.followup is None <==> reply@.guard.unique == 0
                &&& r.followup matches Some(m) ==> sent::is_message(
                    m@,
                    reply@.guard.order,
                    reply@.guard.unique,
                    -38,
                    Seq::empty(),
                )
            },
        },
{
    if let Err(err) = written {
        sent::lemma_outcome(reply@, err);
    } else {
        sent::lemma_outcome(reply@, Error::Other);
    }
}

/// What an undelivered reply says of itself, and the error behind it.
pub proof fn lemma_reply_error(
    err: &ReplyError,
    r: Option<String>,
    inner: Option<String>,
    source: Option<Error>,
)
    requires
        call_ensures(ReplyError::message, (err,), r),
        call_ensures(ReplyError::source, (err,), source),
        *err matches ReplyError::Io(e) ==> call_ensures(Error::message, (&e,), inner),
    ensures
        match *err {
            ReplyError::Cancelled => {
                &&& r matches Some(s)
                &&& s@ == "request was cancelled"@
                &&& source is None
            },
            ReplyError::Io(e) => {
                &&& r is None <==> inner is None
                &&& r matches Some(s) ==> s@ == "reply I/O error: "@ + inner->0@
                &&& source == Some(e)
            },
        },
{
}

/// The message of a reply is the one that is to be written; an entry that did not fit is told from
/// one that did.
pub proof fn lemma_told(reply: &Reply, bytes: &[u8], state: &ReplyBufState, full: bool)
    requires
        call_ensures(Reply::message, (reply,), bytes),
        call_ensures(ReplyBufState::is_full, (state,), full),
    ensures
        bytes@ == reply@.message,
        full <==> *state is Full,
{
}

/// What a cancellation is: that the write of a reply failed with error number 2.
pub proof fn lemma_cancellable(written: Result<(), Error>, r: Result<(), ReplyError>)
    requires
        call_ensures(reply::cancellable, (written,), r),
    ensures
        r is Ok <==> written is Ok,
        r == Err::<(), ReplyError>(ReplyError::Cancelled) <==> written == Err::<(), Error>(
            Error::Os(2),
        ),
        r matches Err(ReplyError::Io(err)) ==> written == Err::<(), Error>(err),
{
}

/// A simple entry: generation 1, and timeouts that no other exceeds.
pub proof fn lemma_simple(inode: u64, attr: Stat, r: EntryParam)
    requires
        call_ensures(EntryParam::simple, (inode, attr), r),
    ensures
        r.inode == inode,
        r.generation == 1,
        r.attr == attr,
        r.attr_timeout@.secs == u64::MAX && r.attr_timeout@.nsec == 999_999_999,
        r.entry_timeout@.secs == u64::MAX && r.entry_timeout@.nsec == 999_999_999,
{
}

/// A timeout is made of less than a second in nanoseconds and any number of seconds, and gives
/// both back.
pub proof fn lemma_timeout(secs: u64, nsec: u32, r: Option<Timeout>, longest: Timeout)
    requires
        call_ensures(Timeout::new, (secs, nsec), r),
        call_ensures(Timeout::max, (), longest),
    ensures
        r is Some <==> nsec < 1_000_000_000,
        r matches Some(t) ==> {
            &&& t@.secs == secs
            &&& t@.nsec == nsec
            &&& t@.secs <= longest@.secs
            &&& t@.secs == longest@.secs ==> t@.nsec <= longest@.nsec
        },
        longest@.nsec < 1_000_000_000,
{
}

/// The option `direct_io` is what it was set to; setting it leaves the others as they were.
pub proof fn lemma_direct_io(info: &mut FuseFileInfo, value: bool, read: &FuseFileInfo, r: bool)
    requires
        call_ensures(FuseFileInfo::set_direct_io, (info, value), ()),
        call_ensures(FuseFileInfo::get_direct_io, (read,), r),
    ensures
        final(info)@.direct_io == value,
        final(info)@.keep_cache == old(info)@.keep_cache,
        final(info)@.nonseekable == old(info)@.nonseekable,
        final(info)@.cache_readdir == old(info)@.cache_readdir,
        final(info)@.noflush == old(info)@.noflush,
        r == read@.direct_io,
{
}

/// The option `keep_cache` is what it was set to; setting it leaves the others as they were.
pub proof fn lemma_keep_cache(info: &mut FuseFileInfo, value: bool, read: &FuseFileInfo, r: bool)
    requires
        call_ensures(FuseFileInfo::set_keep_cache, (info, value), ()),
        call_ensures(FuseFileInfo::get_keep_cache, (read,), r),
    ensures
        final(info)@.keep_cache == value,
        final(info)@.direct_io == old(info)@.direct_io,
        final(info)@.nonseekable == old(info)@.nonseekable,
        final(info)@.cache_readdir == old(info)@.cache_readdir,
        final(info)@.noflush == old(info)@.noflush,
        r == read@.keep_cache,
{
}

/// The option `nonseekable` is what it was set to; setting it leaves the others as they were.
pub proof fn lemma_nonseekable(info: &mut FuseFileInfo, value: bool, read: &FuseFileInfo, r: bool)
    requires
        call_ensures(FuseFileInfo::set_nonseekable, (info, value), ()),
        call_ensures(FuseFileInfo::get_nonseekable, (read,), r),
    ensures
        final(info)@.nonseekable == value,
        final(info)@.direct_io == old(info)@.direct_io,
        final(info)@.keep_cache == old(info)@.keep_cache,
        final(info)@.cache_readdir == old(info)@.cache_readdir,
        final(info)@.noflush == old(info)@.noflush,
        r == read@.nonseekable,
{
}

/// The option `cache_readdir` is what it was set to; setting it leaves the others as they were.
pub proof fn lemma_cache_readdir(info: &mut FuseFileInfo, value: bool, read: &FuseFileInfo, r: bool)
    requires
        call_ensures(FuseFileInfo::set_cache_readdir, (info, value), ()),
        call_ensures(FuseFileInfo::get_cache_readdir, (read,), r),
    ensures
        final(info)@.cache_readdir == value,
        final(info)@.direct_io == old(info)@.direct_io,
        final(info)@.keep_cache == old(info)@.keep_cache,
        final(info)@.nonseekable == old(info)@.nonseekable,
        final(info)@.noflush == old(info)@.noflush,
        r == read@.cache_readdir,
{
}

/// The option `noflush` is what it was set to; setting it leaves the others as they were.
pub proof fn lemma_noflush(info: &mut FuseFileInfo, value: bool, read: &FuseFileInfo, r: bool)
    requires
        call_ensures(FuseFileInfo::set_noflush, (info, value), ()),
        call_ensures(FuseFileInfo::get_noflush, (read,), r),
    ensures
        final(info)@.noflush == value,
        final(info)@.direct_io == old(info)@.direct_io,
        final(info)@.keep_cache == old(info)@.keep_cache,
        final(info)@.nonseekable == old(info)@.nonseekable,
        final(info)@.cache_readdir == old(info)@.cache_readdir,
        r == read@.noflush,
{
}

/// How many bytes an entry with a name of `namelen` bytes takes behind `fixed` bytes.
pub open spec fn padded(fixed: int, namelen: nat) -> int {
    (fixed + namelen + 7) / 8 * 8
}

/// A listing takes an entry where there is room for it and refuses it where not. A refused entry
/// changes nothing; one that was taken stands at the end, behind what was there.
pub proof fn lemma_add_readdir(
    buf: &mut ReplyBuf,
    name: &CString,
    attr: &Stat,
    next: u64,
    r: ReplyBufState,
)
    requires
        call_ensures(ReplyBuf::add_readdir, (buf, name, attr, next), r),
    ensures
        ({
            let (before, after) = (old(buf)@, final(buf)@);
            &&& r is Full <==> before.data.len() + padded(24, name@.len()) > before.capacity
            &&& after.capacity == before.capacity
            &&& after.order == before.order
            &&& r is Full ==> after.data == before.data
            &&& r is Added ==> {
                &&& after.data.len() == before.data.len() + padded(24, name@.len())
                &&& after.data.take(before.data.len() as int) == before.data
                &&& sent::is_dirent(
                    after.data.skip(before.data.len() as int),
                    0,
                    before.order,
                    name@,
                    *attr,
                    next,
                )
            }
        }),
{
    let before = old(buf)@;
    let entry = sys::plain_entry(before.order, name@, *attr, next);
    sent::lemma_plain_entry(before.order, name@, *attr, next);
    sent::lemma_reply_buf(before, entry, padded(24, name@.len()));
    sys::lemma_entry_len(before.order, name@, *attr, next);
}

/// The same of a listing with attributes.
pub proof fn lemma_add_readdir_plus(
    buf: &mut ReplyBuf,
    name: &CString,
    entry: &EntryParam,
    next: u64,
    r: ReplyBufState,
)
    requires
        call_ensures(ReplyBuf::add_readdir_plus, (buf, name, entry, next), r),
    ensures
        ({
            let (before, after) = (old(buf)@, final(buf)@);
            let added = after.data.skip(before.data.len() as int);
            &&& r is Full <==> before.data.len() + padded(152, name@.len()) > before.capacity
            &&& after.capacity == before.capacity
            &&& after.order == before.order
            &&& r is Full ==> after.data == before.data
            &&& r is Added ==> {
                &&& after.data.len() == before.data.len() + padded(152, name@.len())
                &&& after.data.take(before.data.len() as int) == before.data
                &&& sent::is_dirent(added, 128, before.order, name@, entry.attr, next)
                &&& sent::is_entry(FuseEntryOut::from_wire(before.order, added), *entry)
            }
        }),
{
    let before = old(buf)@;
    let bytes = sys::plus_entry(before.order, name@, *entry, next);
    sent::lemma_plus_entry(before.order, name@, *entry, next);
    sent::lemma_reply_buf(before, bytes, padded(152, name@.len()));
    sys::lemma_plus_entry_len(before.order, name@, *entry, next);
}

/// An empty listing has the size that was asked for; what was filled is what it holds.
pub proof fn lemma_reply_buf(
    order: ByteOrder,
    size: usize,
    made: ReplyBuf,
    buf: &ReplyBuf,
    filled: &[u8],
)
    requires
        call_ensures(ReplyBuf::new, (order, size), made),
        call_ensures(ReplyBuf::filled_data, (buf,), filled),
    ensures
        made@.order == order,
        made@.capacity == size,
        made@.data.len() == 0,
        filled@ == buf@.data,
        filled@.len() <= buf@.capacity,
{
}

/// Bytes are those of the structure, and the structure is read from them.
pub proof fn lemma_as_bytes<T: Wire>(order: ByteOrder, val: &T, r: Vec<u8>)
    requires
        call_ensures(wire::as_bytes::<T>, (order, val), r),
    ensures
        r@.len() == T::wire_size(),
        T::from_wire(order, r@) == *val,
{
    val.lemma_size(order);
    val.lemma_decode_encode(order, Seq::empty());
    assert(val.to_wire(order) + Seq::<u8>::empty() =~= val.to_wire(order));
}

/// A structure is laid out behind what is there, in as many bytes as it has, and read as it was
/// laid out. Reading looks at its own bytes only.
pub proof fn lemma_wire<T: Wire>(
    order: ByteOrder,
    val: &T,
    out: &mut Vec<u8>,
    s: &[u8],
    r: T,
    n: usize,
)
    requires
        call_ensures(T::encode, (val, order, out), ()),
        call_ensures(T::decode, (order, s), r),
        call_ensures(T::size, (), n),
        s@.len() >= T::wire_size(),
    ensures
        n == T::wire_size(),
        final(out)@.len() == old(out)@.len() + n,
        final(out)@.take(old(out)@.len() as int) == old(out)@,
        T::from_wire(order, final(out)@.skip(old(out)@.len() as int)) == *val,
        r == T::from_wire(order, s@),
{
    let t = val.to_wire(order);
    val.lemma_size(order);
    val.lemma_decode_encode(order, Seq::empty());
    assert(t + Seq::<u8>::empty() =~= t);
    assert(final(out)@.take(old(out)@.len() as int) =~= old(out)@);
    assert(final(out)@.skip(old(out)@.len() as int) =~= t);
}

/// Whether `after` is `before` with `n` bytes behind it.
pub open spec fn is_longer(before: Seq<u8>, after: Seq<u8>, n: nat) -> bool {
    &&& after.len() == before.len() + n
    &&& after.take(before.len() as int) == before
}

/// A number is laid out behind what is there, and is read from there.
pub proof fn lemma_put(out: &mut Vec<u8>, order: ByteOrder, a: u16, b: u32, c: u64, d: i32)
    ensures
        ({
            let (before, after) = (old(out)@, final(out)@);
            let end = before.len() as int;
            &&& call_ensures(wire::put_u16, (out, order, a), ()) ==> is_longer(before, after, 2)
                && wire::u16_at(order, after, end) == a
            &&& call_ensures(wire::put_u32, (out, order, b), ()) ==> is_longer(before, after, 4)
                && wire::u32_at(order, after, end) == b
            &&& call_ensures(wire::put_u64, (out, order, c), ()) ==> is_longer(before, after, 8)
                && wire::u64_at(order, after, end) == c
            &&& call_ensures(wire::put_i32, (out, order, d), ()) ==> is_longer(before, after, 4)
                && wire::i32_at(order, after, end) == d
        }),
{
    broadcast use wire::group_field_written;

    let (before, after) = (old(out)@, final(out)@);
    if after.len() >= before.len() {
        if after == before + wire::u16_bytes(order, a) {
            assert(after.take(before.len() as int) =~= before);
        }
        if after == before + wire::u32_bytes(order, b) {
            assert(after.take(before.len() as int) =~= before);
        }
        if after == before + wire::u64_bytes(order, c) {
            assert(after.take(before.len() as int) =~= before);
        }
        if after == before + wire::i32_bytes(order, d) {
            assert(after.take(before.len() as int) =~= before);
        }
    }
}

/// Numbers are read from the bytes where they stand, and nothing else.
pub proof fn lemma_get(
    s: &[u8],
    order: ByteOrder,
    off: usize,
    a: u16,
    b: u32,
    c: u64,
)
    requires
        off + 8 <= s@.len(),
        call_ensures(wire::get_u16, (s, order, off), a),
        call_ensures(wire::get_u32, (s, order, off), b),
        call_ensures(wire::get_u64, (s, order, off), c),
    ensures
        order is Little ==> a == s@[off as int] + s@[off + 1] * 0x100,
        order is Big ==> a == s@[off as int] * 0x100 + s@[off + 1],
        order is Little ==> b == s@[off as int] + s@[off + 1] * 0x100 + s@[off + 2] * 0x1_0000
            + s@[off + 3] * 0x100_0000,
        order is Big ==> b == s@[off as int] * 0x100_0000 + s@[off + 1] * 0x1_0000 + s@[off + 2]
            * 0x100 + s@[off + 3],
        order is Little ==> c == b + (s@[off + 4] + s@[off + 5] * 0x100 + s@[off + 6] * 0x1_0000
            + s@[off + 7] * 0x100_0000) * 0x1_0000_0000,
        order is Big ==> c == b * 0x1_0000_0000 + (s@[off + 4] * 0x100_0000 + s@[off + 5]
            * 0x1_0000 + s@[off + 6] * 0x100 + s@[off + 7]),
{
    offsets::lemma_u16_at(order, s@, off as int);
    offsets::lemma_u32_at(order, s@, off as int);
    offsets::lemma_u32_at(order, s@, off + 4);
    offsets::lemma_u64_at(order, s@, off as int);
}

/// What is agreed on in the handshake.
pub proof fn lemma_negotiate_init(
    init_in: &FuseInitIn,
    ops: &EnabledOps,
    page_size: i64,
    out: FuseInitOut,
)
    requires
        call_ensures(session::negotiate_init, (init_in, ops, page_size), out),
    ensures
        ({
            let offered = init_in.flags;
            let pages = page_size > 0 && offered / 0x40_0000 % 2 == 1;
            &&& out.major == 7
            &&& out.minor == 31 || out.minor == init_in.minor
            &&& out.minor <= 31 && out.minor <= init_in.minor
            &&& out.max_readahead == init_in.max_readahead
            &&& out.max_write == 262_144
            &&& out.time_gran == 1
            &&& out.flags / 1 % 2 == offered / 1 % 2
            &&& out.flags / 8 % 2 == offered / 8 % 2
            &&& out.flags / 32 % 2 == offered / 32 % 2
            &&& out.flags / 0x100_0000 % 2 == offered / 0x100_0000 % 2
            &&& ops.readdirplus ==> out.flags / 0x2000 % 2 == offered / 0x2000 % 2
            &&& !ops.readdirplus ==> out.flags / 0x2000 % 2 == 0
            &&& ops.readdirplus ==> out.flags / 0x4000 % 2 == offered / 0x4000 % 2
            &&& !ops.readdirplus ==> out.flags / 0x4000 % 2 == 0
            &&& ops.open ==> out.flags / 0x2_0000 % 2 == 0
            &&& !ops.open ==> out.flags / 0x2_0000 % 2 == offered / 0x2_0000 % 2
            &&& (out.flags / 0x40_0000 % 2 == 1) == pages
            &&& out.flags & 0xfebd_9fd6 == 0
            &&& !pages ==> out.max_pages == 0
            &&& pages && page_size > 4 ==> out.max_pages * page_size <= 262_144 < (out.max_pages
                + 1) * page_size
        }),
{
    received::lemma_negotiated(*init_in, *ops, page_size);
}

/// Which operation has to be enabled for which opcode.
pub proof fn lemma_enabled(ops: &EnabledOps, opcode: Opcode, r: bool)
    requires
        call_ensures(EnabledOps::enabled, (ops, opcode), r),
    ensures
        opcode is Lookup ==> r == ops.lookup,
        opcode is Forget ==> r == ops.forget,
        opcode is BatchForget ==> r == ops.forget,
        opcode is Getattr ==> r == ops.getattr,
        opcode is Setattr ==> r == ops.setattr,
        opcode is Readlink ==> r == ops.readlink,
        opcode is Mknod ==> r == ops.mknod,
        opcode is Mkdir ==> r == ops.mkdir,
        opcode is Unlink ==> r == ops.unlink,
        opcode is Rmdir ==> r == ops.rmdir,
        opcode is Open ==> r == ops.open,
        opcode is Read ==> r == ops.read,
        opcode is Write ==> r == ops.write,
        opcode is Statfs ==> r == ops.statfs,
        opcode is Release ==> r == ops.release,
        opcode is Getxattr ==> r == ops.getxattr,
        opcode is Listxattr ==> r == ops.listxattr,
        opcode is Readdir ==> r == ops.readdir,
        opcode is Create ==> r == ops.create,
        opcode is Readdirplus ==> r == ops.readdirplus,
        opcode is Rename2 ==> r == ops.rename,
        opcode is Init ==> !r,
        opcode is Interrupt ==> !r,
        opcode is Destroy ==> !r,
{
}

/// What to do after reading: the stream ends with nothing read and with error numbers 19 and 103,
/// and with nothing else.
pub proof fn lemma_after_read(outcome: ReadOutcome)
    ensures
        AfterRead::after(outcome) is End <==> outcome == ReadOutcome::Bytes(0) || outcome
            == ReadOutcome::Failed(Error::Os(19)) || outcome == ReadOutcome::Failed(
            Error::Os(103),
        ),
        AfterRead::after(outcome) is Retry <==> outcome is WouldBlock,
        AfterRead::after(outcome) matches AfterRead::Process(n) ==> outcome == ReadOutcome::Bytes(
            n,
        ),
        AfterRead::after(outcome) matches AfterRead::Yield(err) ==> outcome
            == ReadOutcome::Failed(err),
{
}

} // verus!
