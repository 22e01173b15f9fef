//! FUSE session and stream implementation.
//!
//! [`Fuse`] is the state of a mounted filesystem between two system calls. It is told what was
//! read from `/dev/fuse` and says what has to be written there; the requests that came in wait in
//! it, and [`Fuse::next`] yields them one by one.

use std::collections::VecDeque;
use std::sync::Arc;

use vstd::prelude::*;
use vstd::slice::slice_subrange;
use vstd::utf8::{decode_utf8, valid_utf8};

use crate::cstring::CString;
use crate::error;
use crate::error::Error;
use crate::message;
use crate::protocol;
use crate::protocol::{FuseInHeader, FuseInitIn, FuseInitOut, InitFlags, Opcode};
use crate::reply;
use crate::reply::{GuardView, RequestGuard};
use crate::requests::{FuseRequest, LookupView, Request, RequestView};
use crate::wire;
use crate::wire::{ByteOrder, Wire};

verus! {

/// Maximum write size negotiated with the kernel.
pub const MAX_WRITE: usize = 262_144;

/// Read buffer size.
pub const READ_BUF_SIZE: usize = MAX_WRITE + 4096;

/// The read buffer has room for what the kernel asks for: the larger of its own minimum and a
/// write of the negotiated size with its two fixed structures.
pub proof fn lemma_read_buffer_size()
    ensures
        READ_BUF_SIZE >= protocol::FUSE_MIN_READ_BUFFER,
        READ_BUF_SIZE >= FuseInHeader::wire_size() + protocol::FuseWriteIn::wire_size() + MAX_WRITE,
{
}

/// Flags tracking which operations are enabled.
#[derive(Clone, Copy, Debug, PartialEq, Eq, Structural)]
pub struct EnabledOps {
    pub lookup: bool,
    pub forget: bool,
    pub getattr: bool,
    pub setattr: bool,
    pub statfs: bool,
    pub readdir: bool,
    pub readdirplus: bool,
    pub mkdir: bool,
    pub create: bool,
    pub mknod: bool,
    pub open: bool,
    pub release: bool,
    pub read: bool,
    pub write: bool,
    pub unlink: bool,
    pub rmdir: bool,
    pub rename: bool,
    pub readlink: bool,
    pub listxattr: bool,
    pub getxattr: bool,
}

impl EnabledOps {
    /// No operation is enabled.
    pub open spec fn none() -> EnabledOps {
        EnabledOps {
            lookup: false,
            forget: false,
            getattr: false,
            setattr: false,
            statfs: false,
            readdir: false,
            readdirplus: false,
            mkdir: false,
            create: false,
            mknod: false,
            open: false,
            release: false,
            read: false,
            write: false,
            unlink: false,
            rmdir: false,
            rename: false,
            readlink: false,
            listxattr: false,
            getxattr: false,
        }
    }

    /// What holds of every session, whatever was enabled: names can be looked up, forgotten and
    /// asked for their attributes, no file is opened that is not also released, and whoever
    /// creates files opens them.
    pub open spec fn coherent(self) -> bool {
        &&& self.lookup && self.forget && self.getattr
        &&& self.open == self.release
        &&& self.create ==> self.open
        &&& self.listxattr == self.getxattr
    }

    /// Whether messages with `opcode` become requests.
    pub open spec fn accepts(self, opcode: Opcode) -> bool {
        match opcode {
            Opcode::Lookup => self.lookup,
            Opcode::Forget => self.forget,
            Opcode::BatchForget => self.forget,
            Opcode::Getattr => self.getattr,
            Opcode::Setattr => self.setattr,
            Opcode::Readlink => self.readlink,
            Opcode::Mknod => self.mknod,
            Opcode::Mkdir => self.mkdir,
            Opcode::Unlink => self.unlink,
            Opcode::Rmdir => self.rmdir,
            Opcode::Open => self.open,
            Opcode::Read => self.read,
            Opcode::Write => self.write,
            Opcode::Statfs => self.statfs,
            Opcode::Release => self.release,
            Opcode::Getxattr => self.getxattr,
            Opcode::Listxattr => self.listxattr,
            Opcode::Readdir => self.readdir,
            Opcode::Create => self.create,
            Opcode::Readdirplus => self.readdirplus,
            Opcode::Rename2 => self.rename,
            Opcode::Init => false,
            Opcode::Interrupt => false,
            Opcode::Destroy => false,
        }
    }

    /// Whether messages with `opcode` become requests.
    pub fn enabled(&self, opcode: Opcode) -> (r: bool)
        ensures
            r == self.accepts(opcode),
    {
        match opcode {
            Opcode::Lookup => self.lookup,
            Opcode::Forget => self.forget,
            Opcode::BatchForget => self.forget,
            Opcode::Getattr => self.getattr,
            Opcode::Setattr => self.setattr,
            Opcode::Readlink => self.readlink,
            Opcode::Mknod => self.mknod,
            Opcode::Mkdir => self.mkdir,
            Opcode::Unlink => self.unlink,
            Opcode::Rmdir => self.rmdir,
            Opcode::Open => self.open,
            Opcode::Read => self.read,
            Opcode::Write => self.write,
            Opcode::Statfs => self.statfs,
            Opcode::Release => self.release,
            Opcode::Getxattr => self.getxattr,
            Opcode::Listxattr => self.listxattr,
            Opcode::Readdir => self.readdir,
            Opcode::Create => self.create,
            Opcode::Readdirplus => self.readdirplus,
            Opcode::Rename2 => self.rename,
            Opcode::Init => false,
            Opcode::Interrupt => false,
            Opcode::Destroy => false,
        }
    }
}

impl Default for EnabledOps {
    fn default() -> (r: Self)
        ensures
            r == EnabledOps::none(),
    {
        EnabledOps {
            lookup: false,
            forget: false,
            getattr: false,
            setattr: false,
            statfs: false,
            readdir: false,
            readdirplus: false,
            mkdir: false,
            create: false,
            mknod: false,
            open: false,
            release: false,
            read: false,
            write: false,
            unlink: false,
            rmdir: false,
            rename: false,
            readlink: false,
            listxattr: false,
            getxattr: false,
        }
    }
}

/// The flags that are asked of the kernel, where `pages` says whether a page limit is among them.
pub open spec fn wanted_flags(ops: EnabledOps, pages: bool) -> u32 {
    let base = InitFlags::ASYNC_READ | InitFlags::BIG_WRITES | InitFlags::ATOMIC_O_TRUNC
        | InitFlags::NO_OPENDIR_SUPPORT;
    let with_readdirplus = if ops.readdirplus {
        base | (InitFlags::DO_READDIRPLUS | InitFlags::READDIRPLUS_AUTO)
    } else {
        base
    };
    let with_open = if ops.open {
        with_readdirplus
    } else {
        with_readdirplus | InitFlags::NO_OPEN_SUPPORT
    };
    if pages {
        with_open | InitFlags::MAX_PAGES
    } else {
        with_open
    }
}

/// Whether a page limit is negotiated: the kernel offers to and the page size is known.
pub open spec fn limits_pages(init_in: FuseInitIn, page_size: i64) -> bool {
    page_size > 0 && (init_in.flags & InitFlags::ALL) & InitFlags::MAX_PAGES
        == InitFlags::MAX_PAGES
}

/// The answer to the handshake: of what the kernel offers, all that is wanted.
pub open spec fn negotiated(init_in: FuseInitIn, ops: EnabledOps, page_size: i64) -> FuseInitOut {
    let pages = limits_pages(init_in, page_size);
    FuseInitOut {
        major: protocol::FUSE_KERNEL_VERSION,
        minor: if init_in.minor <= protocol::FUSE_KERNEL_MINOR_VERSION {
            init_in.minor
        } else {
            protocol::FUSE_KERNEL_MINOR_VERSION
        },
        max_readahead: init_in.max_readahead,
        flags: wanted_flags(ops, pages) & (init_in.flags & InitFlags::ALL),
        max_background: 0,
        congestion_threshold: 0,
        max_write: MAX_WRITE as u32,
        time_gran: 1,
        max_pages: if pages {
            (MAX_WRITE as int / page_size as int % 0x1_0000) as u16
        } else {
            0
        },
        map_alignment: 0,
        flags2: 0,
        max_stack_depth: 0,
        request_timeout: 0,
        unused: [0, 0, 0, 0, 0, 0, 0, 0, 0, 0, 0],
    }
}

/// Build a `FuseInitOut` reply from the kernel's `FuseInitIn` and our enabled operations.
/// `page_size` is the system's page size, or not positive where it is not known.
pub fn negotiate_init(init_in: &FuseInitIn, ops: &EnabledOps, page_size: i64) -> (r: FuseInitOut)
    ensures
        r == negotiated(*init_in, *ops, page_size),
{
    let minor: u32 = if init_in.minor <= protocol::FUSE_KERNEL_MINOR_VERSION {
        init_in.minor
    } else {
        protocol::FUSE_KERNEL_MINOR_VERSION
    };
    // We never handle FUSE_OPENDIR; advertise this so the kernel skips it entirely for every
    // directory open instead of burning one ENOSYS round-trip per mount.
    let mut flags = InitFlags {
        bits: InitFlags::ASYNC_READ | InitFlags::BIG_WRITES | InitFlags::ATOMIC_O_TRUNC
            | InitFlags::NO_OPENDIR_SUPPORT,
    };
    if ops.readdirplus {
        flags.insert(InitFlags::DO_READDIRPLUS | InitFlags::READDIRPLUS_AUTO);
    }
    if !ops.open {
        // Daemon does not implement FUSE_OPEN: tell the kernel not to send it.
        flags.insert(InitFlags::NO_OPEN_SUPPORT);
    }
    let kernel_flags = InitFlags::from_bits_truncate(init_in.flags);
    let mut max_pages: u16 = 0;
    if kernel_flags.contains(InitFlags::MAX_PAGES) && page_size > 0 {
        flags.insert(InitFlags::MAX_PAGES);
        let pages: u64 = MAX_WRITE as u64 / page_size as u64;
        max_pages = (pages % 0x1_0000) as u16;
    }
    let flags = flags.intersection(kernel_flags);
    let r = FuseInitOut {
        major: protocol::FUSE_KERNEL_VERSION,
        minor,
        max_readahead: init_in.max_readahead,
        flags: flags.bits(),
        max_background: 0,
        congestion_threshold: 0,
        max_write: MAX_WRITE as u32,
        time_gran: 1,
        max_pages,
        map_alignment: 0,
        flags2: 0,
        max_stack_depth: 0,
        request_timeout: 0,
        unused: [0, 0, 0, 0, 0, 0, 0, 0, 0, 0, 0],
    };
    assert(r.unused =~= negotiated(*init_in, *ops, page_size).unused);
    r
}

/// What is agreed on in the handshake. No flag is set that the kernel did not offer. Of those it
/// offers, the four unconditional ones are set always, those of readdirplus where that is enabled,
/// the one against open requests where those are not enabled, and that of the page limit where the
/// page size is known.
pub proof fn lemma_negotiated_flags(init_in: FuseInitIn, ops: EnabledOps, page_size: i64)
    ensures
        ({
            let flags = InitFlags { bits: negotiated(init_in, ops, page_size).flags };
            let offered = InitFlags { bits: init_in.flags };
            &&& flags.bits & offered.bits == flags.bits
            &&& flags.bits & InitFlags::ALL == flags.bits
            &&& flags.has(InitFlags::ASYNC_READ) == offered.has(InitFlags::ASYNC_READ)
            &&& flags.has(InitFlags::BIG_WRITES) == offered.has(InitFlags::BIG_WRITES)
            &&& flags.has(InitFlags::ATOMIC_O_TRUNC) == offered.has(InitFlags::ATOMIC_O_TRUNC)
            &&& flags.has(InitFlags::NO_OPENDIR_SUPPORT) == offered.has(
                InitFlags::NO_OPENDIR_SUPPORT,
            )
            &&& flags.has(InitFlags::DO_READDIRPLUS) == (ops.readdirplus && offered.has(
                InitFlags::DO_READDIRPLUS,
            ))
            &&& flags.has(InitFlags::READDIRPLUS_AUTO) == (ops.readdirplus && offered.has(
                InitFlags::READDIRPLUS_AUTO,
            ))
            &&& flags.has(InitFlags::NO_OPEN_SUPPORT) == (!ops.open && offered.has(
                InitFlags::NO_OPEN_SUPPORT,
            ))
            &&& flags.has(InitFlags::MAX_PAGES) == (page_size > 0 && offered.has(
                InitFlags::MAX_PAGES,
            ))
        }),
{
    let offered = init_in.flags;
    let (plus, open, pages) = (ops.readdirplus, ops.open, limits_pages(init_in, page_size));
    let known = page_size > 0;
    let wanted = wanted_flags(ops, pages);
    let b1: u32 = (1u32 << 0) | (1u32 << 5) | (1u32 << 3) | (1u32 << 24);
    let b2: u32 = if plus { b1 | ((1u32 << 13) | (1u32 << 14)) } else { b1 };
    let b3: u32 = if open { b2 } else { b2 | (1u32 << 17) };
    let b4: u32 = if pages { b3 | (1u32 << 22) } else { b3 };
    assert(b4 == wanted);
    let flags: u32 = b4 & (offered & 0x142_6029);
    assert({
        &&& flags & offered == flags
        &&& flags & 0x142_6029 == flags
        &&& (flags & (1u32 << 0) == (1u32 << 0)) == (offered & (1u32 << 0) == (1u32 << 0))
        &&& (flags & (1u32 << 5) == (1u32 << 5)) == (offered & (1u32 << 5) == (1u32 << 5))
        &&& (flags & (1u32 << 3) == (1u32 << 3)) == (offered & (1u32 << 3) == (1u32 << 3))
        &&& (flags & (1u32 << 24) == (1u32 << 24)) == (offered & (1u32 << 24) == (1u32 << 24))
        &&& (flags & (1u32 << 13) == (1u32 << 13)) == (plus && offered & (1u32 << 13) == (1u32
            << 13))
        &&& (flags & (1u32 << 14) == (1u32 << 14)) == (plus && offered & (1u32 << 14) == (1u32
            << 14))
        &&& (flags & (1u32 << 17) == (1u32 << 17)) == (!open && offered & (1u32 << 17) == (1u32
            << 17))
        &&& (flags & (1u32 << 22) == (1u32 << 22)) == (known && offered & (1u32 << 22) == (1u32
            << 22))
    }) by (bit_vector)
        requires
            b1 == (1u32 << 0) | (1u32 << 5) | (1u32 << 3) | (1u32 << 24),
            b2 == (if plus { b1 | ((1u32 << 13) | (1u32 << 14)) } else { b1 }),
            b3 == (if open { b2 } else { b2 | (1u32 << 17) }),
            b4 == (if pages { b3 | (1u32 << 22) } else { b3 }),
            flags == b4 & (offered & 0x142_6029),
            pages == (known && (offered & 0x142_6029) & (1u32 << 22) == (1u32 << 22)),
    ;
}

/// What a session is made of.
pub struct SessionView {
    /// The name of the filesystem.
    pub name: Seq<char>,
    /// The mount options, in the order in which they were given.
    pub options: Seq<Seq<char>>,
    /// The operations that become requests.
    pub ops: EnabledOps,
}

impl SessionView {
    /// The session with one more mount option.
    pub open spec fn with_option(self, option: Seq<char>) -> SessionView {
        SessionView { options: self.options.push(option), ..self }
    }

    /// The session with other operations.
    pub open spec fn with_ops(self, ops: EnabledOps) -> SessionView {
        SessionView { ops, ..self }
    }
}

/// The characters of each of `strings`.
pub open spec fn texts(strings: Seq<String>) -> Seq<Seq<char>> {
    strings.map_values(|s: String| s@)
}

/// `bytes` as text, by `std::str::from_utf8`. What is claimed of it is that it accepts exactly what
/// is valid UTF-8, and then gives the characters that `bytes` encodes.
#[verifier::external_body]
fn utf8_text(bytes: &[u8]) -> (r: Option<&str>)
    ensures
        r is Some <==> valid_utf8(bytes@),
        r matches Some(s) ==> s@ == decode_utf8(bytes@),
{
    std::str::from_utf8(bytes).ok()
}

/// Collects what a session is made of.
#[derive(Debug)]
pub struct FuseSessionBuilder {
    name: String,
    options: Vec<String>,
    ops: EnabledOps,
}

impl View for FuseSessionBuilder {
    type V = SessionView;

    closed spec fn view(&self) -> SessionView {
        SessionView { name: self.name@, options: texts(self.options@), ops: self.ops }
    }
}

impl FuseSessionBuilder {
    #[verifier::type_invariant]
    spec fn well_formed(self) -> bool {
        self.ops.coherent()
    }

    /// Add a mount option.
    pub fn options(self, option: &str) -> (r: Self)
        ensures
            r@ == self@.with_option(option@),
    {
        proof {
            use_type_invariant(&self);
        }
        let mut options = self.options;
        options.push(option.to_owned());
        assert(texts(options@) =~= self@.options.push(option@));
        FuseSessionBuilder { name: self.name, options, ops: self.ops }
    }

    /// Add a mount option, which has to be valid UTF-8.
    pub fn options_os(self, option: &[u8]) -> (r: Result<Self, Error>)
        ensures
            r is Ok <==> valid_utf8(option@),
            r matches Ok(builder) ==> builder@ == self@.with_option(decode_utf8(option@)),
            r matches Err(e) ==> e == Error::OptionNotUtf8,
    {
        match utf8_text(option) {
            Some(s) => Ok(self.options(s)),
            None => Err(Error::OptionNotUtf8),
        }
    }

    /// Add a mount option, which has to be valid UTF-8.
    pub fn options_c(self, option: CString) -> (r: Result<Self, Error>)
        ensures
            r is Ok <==> valid_utf8(option@),
            r matches Ok(builder) ==> builder@ == self@.with_option(decode_utf8(option@)),
            r matches Err(e) ==> e == Error::OptionNotUtf8,
    {
        match utf8_text(option.to_bytes()) {
            Some(s) => Ok(self.options(s)),
            None => Err(Error::OptionNotUtf8),
        }
    }

    /// The session that was described.
    pub fn build(self) -> (r: FuseSession)
        ensures
            r@ == self@,
    {
        proof {
            use_type_invariant(&self);
        }
        FuseSession { name: self.name, options: self.options, ops: self.ops }
    }

    /// Enable `Readdir` requests.
    pub fn enable_readdir(self) -> (r: Self)
        ensures
            r@ == self@.with_ops(EnabledOps { readdir: true, ..self@.ops }),
    {
        proof {
            use_type_invariant(&self);
        }
        let ops = EnabledOps { readdir: true, ..self.ops };
        FuseSessionBuilder { name: self.name, options: self.options, ops }
    }

    /// Enables all of `ReaddirPlus`, `Lookup` and `Forget` requests.
    pub fn enable_readdirplus(self) -> (r: Self)
        ensures
            r@ == self@.with_ops(
                EnabledOps { readdirplus: true, lookup: true, forget: true, ..self@.ops },
            ),
    {
        proof {
            use_type_invariant(&self);
        }
        let ops = EnabledOps { readdirplus: true, lookup: true, forget: true, ..self.ops };
        FuseSessionBuilder { name: self.name, options: self.options, ops }
    }

    /// Enable `Mkdir` requests.
    pub fn enable_mkdir(self) -> (r: Self)
        ensures
            r@ == self@.with_ops(EnabledOps { mkdir: true, ..self@.ops }),
    {
        proof {
            use_type_invariant(&self);
        }
        let ops = EnabledOps { mkdir: true, ..self.ops };
        FuseSessionBuilder { name: self.name, options: self.options, ops }
    }

    /// Enable `Create`, `Open` and `Release` requests.
    pub fn enable_create(self) -> (r: Self)
        ensures
            r@ == self@.with_ops(
                EnabledOps { create: true, open: true, release: true, ..self@.ops },
            ),
    {
        proof {
            use_type_invariant(&self);
        }
        let ops = EnabledOps { create: true, open: true, release: true, ..self.ops };
        FuseSessionBuilder { name: self.name, options: self.options, ops }
    }

    /// Enable `Mknod`.
    pub fn enable_mknod(self) -> (r: Self)
        ensures
            r@ == self@.with_ops(EnabledOps { mknod: true, ..self@.ops }),
    {
        proof {
            use_type_invariant(&self);
        }
        let ops = EnabledOps { mknod: true, ..self.ops };
        FuseSessionBuilder { name: self.name, options: self.options, ops }
    }

    /// Enable `Open` and `Release` requests.
    pub fn enable_open(self) -> (r: Self)
        ensures
            r@ == self@.with_ops(EnabledOps { open: true, release: true, ..self@.ops }),
    {
        proof {
            use_type_invariant(&self);
        }
        let ops = EnabledOps { open: true, release: true, ..self.ops };
        FuseSessionBuilder { name: self.name, options: self.options, ops }
    }

    /// Enable `Setattr` requests.
    pub fn enable_setattr(self) -> (r: Self)
        ensures
            r@ == self@.with_ops(EnabledOps { setattr: true, ..self@.ops }),
    {
        proof {
            use_type_invariant(&self);
        }
        let ops = EnabledOps { setattr: true, ..self.ops };
        FuseSessionBuilder { name: self.name, options: self.options, ops }
    }

    /// Enable `Statfs` requests.
    pub fn enable_statfs(self) -> (r: Self)
        ensures
            r@ == self@.with_ops(EnabledOps { statfs: true, ..self@.ops }),
    {
        proof {
            use_type_invariant(&self);
        }
        let ops = EnabledOps { statfs: true, ..self.ops };
        FuseSessionBuilder { name: self.name, options: self.options, ops }
    }

    /// Enable `Unlink` requests.
    pub fn enable_unlink(self) -> (r: Self)
        ensures
            r@ == self@.with_ops(EnabledOps { unlink: true, ..self@.ops }),
    {
        proof {
            use_type_invariant(&self);
        }
        let ops = EnabledOps { unlink: true, ..self.ops };
        FuseSessionBuilder { name: self.name, options: self.options, ops }
    }

    /// Enable `Rmdir` requests.
    pub fn enable_rmdir(self) -> (r: Self)
        ensures
            r@ == self@.with_ops(EnabledOps { rmdir: true, ..self@.ops }),
    {
        proof {
            use_type_invariant(&self);
        }
        let ops = EnabledOps { rmdir: true, ..self.ops };
        FuseSessionBuilder { name: self.name, options: self.options, ops }
    }

    /// Enable `Rename` requests.
    pub fn enable_rename(self) -> (r: Self)
        ensures
            r@ == self@.with_ops(EnabledOps { rename: true, ..self@.ops }),
    {
        proof {
            use_type_invariant(&self);
        }
        let ops = EnabledOps { rename: true, ..self.ops };
        FuseSessionBuilder { name: self.name, options: self.options, ops }
    }

    /// Enable `Read` requests.
    pub fn enable_read(self) -> (r: Self)
        ensures
            r@ == self@.with_ops(EnabledOps { read: true, ..self@.ops }),
    {
        proof {
            use_type_invariant(&self);
        }
        let ops = EnabledOps { read: true, ..self.ops };
        FuseSessionBuilder { name: self.name, options: self.options, ops }
    }

    /// Enable `Write` requests.
    pub fn enable_write(self) -> (r: Self)
        ensures
            r@ == self@.with_ops(EnabledOps { write: true, ..self@.ops }),
    {
        proof {
            use_type_invariant(&self);
        }
        let ops = EnabledOps { write: true, ..self.ops };
        FuseSessionBuilder { name: self.name, options: self.options, ops }
    }

    /// Enable `Readlink` requests.
    pub fn enable_readlink(self) -> (r: Self)
        ensures
            r@ == self@.with_ops(EnabledOps { readlink: true, ..self@.ops }),
    {
        proof {
            use_type_invariant(&self);
        }
        let ops = EnabledOps { readlink: true, ..self.ops };
        FuseSessionBuilder { name: self.name, options: self.options, ops }
    }

    /// Enable requests to list extended attributes.
    pub fn enable_read_xattr(self) -> (r: Self)
        ensures
            r@ == self@.with_ops(EnabledOps { listxattr: true, getxattr: true, ..self@.ops }),
    {
        proof {
            use_type_invariant(&self);
        }
        let ops = EnabledOps { listxattr: true, getxattr: true, ..self.ops };
        FuseSessionBuilder { name: self.name, options: self.options, ops }
    }
}

/// A filesystem that can be mounted.
#[derive(Debug)]
pub struct FuseSession {
    name: String,
    options: Vec<String>,
    ops: EnabledOps,
}

impl View for FuseSession {
    type V = SessionView;

    closed spec fn view(&self) -> SessionView {
        SessionView { name: self.name@, options: texts(self.options@), ops: self.ops }
    }
}

impl FuseSession {
    #[verifier::type_invariant]
    spec fn well_formed(self) -> bool {
        self.ops.coherent()
    }

    /// The name of the filesystem.
    pub fn name(&self) -> (r: &str)
        ensures
            r@ == self@.name,
    {
        self.name.as_str()
    }

    /// The mount options, in the order in which they were given.
    pub fn options(&self) -> (r: &[String])
        ensures
            texts(r@) == self@.options,
    {
        self.options.as_slice()
    }

    /// The state of the filesystem once it is mounted.
    pub fn start(self, order: ByteOrder) -> (r: Fuse)
        ensures
            r@ == FuseView::initial(self@.ops, order),
            r@.ops.coherent(),
    {
        proof {
            use_type_invariant(&self);
        }
        let r = Fuse {
            ops: self.ops,
            order,
            pending: VecDeque::new(),
            handshaking: false,
            init_done: false,
            finished: false,
        };
        assert(r@.pending =~= Seq::<RequestView>::empty());
        r
    }
}

/// What a [`Fuse`] holds.
pub struct FuseView {
    /// The operations that become requests.
    pub ops: EnabledOps,
    /// The byte order of the messages.
    pub order: ByteOrder,
    /// The requests that wait to be yielded, the next one first.
    pub pending: Seq<RequestView>,
    /// Whether the kernel sent its part of the handshake, and the reply is not written yet.
    pub handshaking: bool,
    /// Whether the handshake is done.
    pub init_done: bool,
    /// Whether nothing more will be read.
    pub finished: bool,
}

/// What comes of a message from the kernel.
pub enum StepView {
    /// The message was dealt with.
    Done { state: FuseView, answer: Option<Seq<u8>>, result: Result<(), Error> },
    /// The message was the kernel's part of the handshake, to which `reply` is the answer.
    Handshake { state: FuseView, reply: Seq<u8> },
}

impl StepView {
    /// The session after the message.
    pub open spec fn state(self) -> FuseView {
        match self {
            StepView::Done { state, .. } => state,
            StepView::Handshake { state, .. } => state,
        }
    }
}

impl FuseView {
    /// A session before its handshake.
    pub open spec fn initial(ops: EnabledOps, order: ByteOrder) -> FuseView {
        FuseView {
            ops,
            order,
            pending: Seq::empty(),
            handshaking: false,
            init_done: false,
            finished: false,
        }
    }

    /// What the waiting requests borrow is there, none came in before the handshake, and a
    /// handshake that is done waits for nothing.
    pub open spec fn wf(self) -> bool {
        &&& forall|i: int| 0 <= i < self.pending.len() ==> (#[trigger] self.pending[i]).wf()
        &&& !self.init_done ==> self.pending.len() == 0
        &&& self.init_done ==> !self.handshaking
    }

    /// The state after the write of the handshake's reply came out as `written`. Where no reply
    /// is to be written, there is nothing to take note of.
    pub open spec fn replied(self, written: Result<(), Error>) -> FuseView {
        if self.handshaking && written is Ok {
            FuseView { handshaking: false, init_done: true, ..self }
        } else {
            self
        }
    }

    /// The message becomes `requests`.
    pub open spec fn accepted(self, requests: Seq<RequestView>) -> StepView {
        StepView::Done {
            state: FuseView { pending: self.pending + requests, ..self },
            answer: None,
            result: Ok(()),
        }
    }

    /// The message is not taken up. The answer may say so.
    pub open spec fn refused(self, answer: Option<Seq<u8>>) -> StepView {
        StepView::Done { state: self, answer, result: Ok(()) }
    }

    /// The message is not as it should be. The answer may say so.
    pub open spec fn failed(self, error: Error, answer: Option<Seq<u8>>) -> StepView {
        StepView::Done { state: self, answer, result: Err(error) }
    }

    /// What comes of the first message, which has to be the kernel's part of the handshake.
    pub open spec fn handshake(
        self,
        header: FuseInHeader,
        body: Seq<u8>,
        page_size: i64,
    ) -> StepView {
        if Opcode::of_code(header.opcode) != Some(Opcode::Init) {
            self.failed(Error::NotInit { opcode: header.opcode }, None)
        } else {
            match message::body_of::<FuseInitIn>(self.order, body) {
                Err(err) => self.failed(err, None),
                Ok(init_in) => if init_in.major != protocol::FUSE_KERNEL_VERSION {
                    self.failed(Error::UnsupportedMajor { major: init_in.major }, None)
                } else {
                    StepView::Handshake {
                        state: FuseView { handshaking: true, ..self },
                        reply: reply::message_of(
                            self.order,
                            header.unique,
                            0,
                            negotiated(init_in, self.ops, page_size).to_wire(self.order),
                        ),
                    }
                },
            }
        }
    }

    /// What comes of a message after the handshake. The message stands at the start of `buffer`.
    ///
    /// A message that asks for nothing known, or nothing enabled, is answered with `ENOSYS`. So is
    /// an interrupt: the kernel then stops sending them. A forget is never answered.
    pub open spec fn dispatch(
        self,
        header: FuseInHeader,
        body: Seq<u8>,
        buffer: Seq<u8>,
    ) -> StepView {
        let guard = GuardView { unique: header.unique, order: self.order };
        match Opcode::of_code(header.opcode) {
            None => self.refused(guard.on_drop()),
            Some(Opcode::Destroy) => StepView::Done {
                state: FuseView { finished: true, ..self },
                answer: None,
                result: Ok(()),
            },
            Some(Opcode::Forget) => match message::forget_requested(guard, header.nodeid, body) {
                Err(err) => self.failed(err, None),
                Ok(request) => if self.ops.forget {
                    self.accepted(seq![request])
                } else {
                    self.refused(None)
                },
            },
            Some(Opcode::BatchForget) => if self.ops.forget {
                match message::batch_requested(self.order, body) {
                    Err(err) => self.failed(err, None),
                    Ok(requests) => self.accepted(requests),
                }
            } else {
                self.refused(None)
            },
            Some(opcode) => if self.ops.accepts(opcode) {
                match message::requested(opcode, guard, header.nodeid, body, buffer) {
                    Err(err) => self.failed(err, guard.on_drop()),
                    Ok(request) => self.accepted(seq![request]),
                }
            } else {
                self.refused(guard.on_drop())
            },
        }
    }

    /// What comes of the message in the first `nbytes` of `buffer`.
    pub open spec fn step(self, buffer: Seq<u8>, nbytes: nat, page_size: i64) -> StepView {
        let message = buffer.take(nbytes as int);
        let header = FuseInHeader::from_wire(self.order, message);
        if nbytes < 40 {
            self.failed(Error::ShortRead, None)
        } else if header.len != nbytes {
            self.failed(
                Error::LengthMismatch { stated: header.len, nbytes: nbytes as usize },
                None,
            )
        } else if !self.init_done {
            self.handshake(header, message.skip(40), page_size)
        } else {
            self.dispatch(header, message.skip(40), buffer)
        }
    }
}

/// What has to be written when `requests` are dropped, in this order.
pub open spec fn dropped(requests: Seq<RequestView>) -> Seq<Seq<u8>>
    decreases requests.len(),
{
    if requests.len() == 0 {
        Seq::empty()
    } else {
        let before = dropped(requests.drop_last());
        match requests.last().on_drop() {
            Some(message) => before.push(message),
            None => before,
        }
    }
}

/// A mounted fuse file system.
///
/// This is what a stream yielding `Request`s needs to know.
#[derive(Debug)]
pub struct Fuse {
    ops: EnabledOps,
    order: ByteOrder,
    pending: VecDeque<Request>,
    handshaking: bool,
    init_done: bool,
    finished: bool,
}

impl View for Fuse {
    type V = FuseView;

    closed spec fn view(&self) -> FuseView {
        FuseView {
            ops: self.ops,
            order: self.order,
            pending: message::views(self.pending@),
            handshaking: self.handshaking,
            init_done: self.init_done,
            finished: self.finished,
        }
    }
}

/// What to do after a message from the kernel.
#[must_use]
#[derive(Debug)]
pub enum Step {
    /// The message was dealt with. An answer is to be written, whatever becomes of it.
    Done { answer: Option<Vec<u8>>, result: Result<(), Error> },
    /// The reply is to be written, and how that came out handed to [`Fuse::init_replied`].
    Handshake { reply: Vec<u8> },
}

/// What to do next.
#[derive(Debug)]
pub enum Next {
    /// Yield this request.
    Yield(Request),
    /// The stream has ended.
    End,
    /// Wait for the device.
    Wait,
}

/// How reading from the device came out.
#[derive(Debug, Clone, Copy, PartialEq, Eq, Structural)]
pub enum ReadOutcome {
    /// There was nothing to be read.
    WouldBlock,
    /// This many bytes were read.
    Bytes(usize),
    /// The system call failed.
    Failed(Error),
}

/// What to do after reading from the device.
#[derive(Debug, Clone, Copy, PartialEq, Eq, Structural)]
pub enum AfterRead {
    /// Wait for the device again.
    Retry,
    /// The stream has ended.
    End,
    /// A message of this length is in the buffer.
    Process(usize),
    /// Yield this error.
    Yield(Error),
}

impl AfterRead {
    /// What to do when reading came out as `outcome`. The connection is over when the kernel
    /// closed (`ENODEV`) or aborted (`ECONNABORTED`) it, or when nothing can be read any more.
    pub open spec fn after(outcome: ReadOutcome) -> AfterRead {
        match outcome {
            ReadOutcome::WouldBlock => AfterRead::Retry,
            ReadOutcome::Bytes(n) => if n == 0 {
                AfterRead::End
            } else {
                AfterRead::Process(n)
            },
            ReadOutcome::Failed(err) => if err == Error::Os(error::ENODEV) || err == Error::Os(
                error::ECONNABORTED,
            ) {
                AfterRead::End
            } else {
                AfterRead::Yield(err)
            },
        }
    }
}

impl Fuse {
    #[verifier::type_invariant]
    spec fn well_formed(self) -> bool {
        self@.wf()
    }

    /// Starts the description of a filesystem with this name.
    pub fn builder(name: &str) -> (r: FuseSessionBuilder)
        ensures
            r@ == (SessionView {
                name: name@,
                options: Seq::empty(),
                ops: EnabledOps { lookup: true, forget: true, getattr: true, ..EnabledOps::none() },
            }),
    {
        let mut ops = EnabledOps::default();
        ops.lookup = true;
        ops.forget = true;
        ops.getattr = true;
        let r = FuseSessionBuilder { name: name.to_owned(), options: Vec::new(), ops };
        assert(r@.options =~= Seq::<Seq<char>>::empty());
        r
    }

    /// Process one message from the buffer.
    ///
    /// The message is in the first `nbytes` of `buf`. `page_size` is the system's page size, or
    /// not positive where it is not known.
    pub fn process_request(
        &mut self,
        buf: &Arc<Vec<u8>>,
        nbytes: usize,
        page_size: i64,
    ) -> (r: Step)
        requires
            nbytes <= buf@.len(),
        ensures
            match r {
                Step::Done { answer, result } => old(self)@.step(buf@, nbytes as nat, page_size)
                    == (StepView::Done {
                    state: final(self)@,
                    answer: reply::bytes_of(answer),
                    result,
                }),
                Step::Handshake { reply } => old(self)@.step(buf@, nbytes as nat, page_size) == (
                StepView::Handshake { state: final(self)@, reply: reply@ }),
            },
    {
        proof {
            use_type_invariant(&*self);
        }
        if nbytes < FuseInHeader::size() {
            return Step::Done { answer: None, result: Err(Error::ShortRead) };
        }
        let message = slice_subrange(buf.as_slice(), 0, nbytes);
        assert(message@ =~= buf@.take(nbytes as int));
        let header = FuseInHeader::decode(self.order, message);
        if header.len as u64 != nbytes as u64 {
            return Step::Done {
                answer: None,
                result: Err(Error::LengthMismatch { stated: header.len, nbytes }),
            };
        }
        let body = slice_subrange(message, 40, nbytes);
        assert(body@ =~= message@.skip(40));
        if !self.init_done {
            return self.handle_init(&header, body, page_size);
        }
        let guard = RequestGuard::new(header.unique, self.order);
        let opcode = match Opcode::from_u32(header.opcode) {
            Some(opcode) => opcode,
            None => {
                return Step::Done { answer: guard.abandon(), result: Ok(()) };
            },
        };
        match opcode {
            Opcode::Destroy => {
                self.finished = true;
                Step::Done { answer: guard.disarm().abandon(), result: Ok(()) }
            },
            // FUSE_FORGET must never receive a reply.
            Opcode::Forget => match message::parse_forget(guard, header.nodeid, body) {
                Err(err) => Step::Done { answer: None, result: Err(err) },
                Ok(request) => {
                    if self.ops.forget {
                        self.accept(request);
                    }
                    Step::Done { answer: None, result: Ok(()) }
                },
            },
            // FUSE_BATCH_FORGET must never receive a reply.
            Opcode::BatchForget => {
                if !self.ops.forget {
                    return Step::Done { answer: None, result: Ok(()) };
                }
                match message::parse_batch(self.order, body) {
                    Err(err) => Step::Done { answer: None, result: Err(err) },
                    Ok(requests) => {
                        self.accept_all(requests);
                        Step::Done { answer: None, result: Ok(()) }
                    },
                }
            },
            _ => {
                if !self.ops.enabled(opcode) {
                    return Step::Done { answer: guard.abandon(), result: Ok(()) };
                }
                proof {
                    message::lemma_requested(opcode, guard@, header.nodeid, body@, buf@);
                }
                match message::parse_request(opcode, guard, header.nodeid, body, buf) {
                    Err(rejected) => Step::Done {
                        answer: rejected.fallback,
                        result: Err(rejected.error),
                    },
                    Ok(request) => {
                        self.accept(request);
                        Step::Done { answer: None, result: Ok(()) }
                    },
                }
            },
        }
    }

    /// Put `request` behind those that wait.
    fn accept(&mut self, request: Request)
        requires
            old(self)@.init_done,
            request@.wf(),
        ensures
            final(self)@ == (FuseView {
                pending: old(self)@.pending + seq![request@],
                ..old(self)@
            }),
    {
        proof {
            use_type_invariant(&*self);
        }
        let mut pending: VecDeque<Request> = VecDeque::new();
        std::mem::swap(&mut pending, &mut self.pending);
        pending.push_back(request);
        assert(message::views(pending@) =~= old(self)@.pending + seq![request@]);
        self.pending = pending;
    }

    /// Put `requests` behind those that wait.
    fn accept_all(&mut self, requests: Vec<Request>)
        requires
            old(self)@.init_done,
            forall|i: int|
                0 <= i < requests@.len() ==> (#[trigger] message::views(requests@)[i]).wf(),
        ensures
            final(self)@ == (FuseView {
                pending: old(self)@.pending + message::views(requests@),
                ..old(self)@
            }),
    {
        let mut rest: VecDeque<Request> = VecDeque::new();
        let mut requests = requests;
        let ghost all = requests@;
        while requests.len() > 0
            invariant
                requests@ + rest@ == all,
            decreases requests.len(),
        {
            if let Some(request) = requests.pop() {
                rest.push_front(request);
            }
            assert(requests@ + rest@ =~= all);
        }
        assert(rest@ =~= all);
        proof {
            use_type_invariant(&*self);
        }
        let mut pending: VecDeque<Request> = VecDeque::new();
        std::mem::swap(&mut pending, &mut self.pending);
        pending.append(&mut rest);
        assert(message::views(pending@) =~= old(self)@.pending + message::views(all));
        self.pending = pending;
    }

    fn handle_init(&mut self, header: &FuseInHeader, body: &[u8], page_size: i64) -> (r: Step)
        requires
            !old(self)@.init_done,
        ensures
            match r {
                Step::Done { answer, result } => old(self)@.handshake(*header, body@, page_size)
                    == (StepView::Done {
                    state: final(self)@,
                    answer: reply::bytes_of(answer),
                    result,
                }),
                Step::Handshake { reply } => old(self)@.handshake(*header, body@, page_size) == (
                StepView::Handshake { state: final(self)@, reply: reply@ }),
            },
    {
        proof {
            use_type_invariant(&*self);
        }
        let is_init: bool = match Opcode::from_u32(header.opcode) {
            Some(Opcode::Init) => true,
            _ => false,
        };
        if !is_init {
            return Step::Done {
                answer: None,
                result: Err(Error::NotInit { opcode: header.opcode }),
            };
        }
        let init_in: FuseInitIn = match message::read_body(self.order, body) {
            Ok(init_in) => init_in,
            Err(err) => {
                return Step::Done { answer: None, result: Err(err) };
            },
        };
        if init_in.major != protocol::FUSE_KERNEL_VERSION {
            return Step::Done {
                answer: None,
                result: Err(Error::UnsupportedMajor { major: init_in.major }),
            };
        }
        let init_out = negotiate_init(&init_in, &self.ops, page_size);
        let data: Vec<u8> = wire::as_bytes(self.order, &init_out);
        let reply: Vec<u8> = reply::framed(self.order, header.unique, 0, data.as_slice());
        self.handshaking = true;
        Step::Handshake { reply }
    }

    /// Takes note of how the write of the handshake's reply came out. The handshake is done once
    /// the reply to the kernel's part of it was written, and not before that.
    pub fn init_replied(&mut self, written: Result<(), Error>) -> (r: Result<(), Error>)
        ensures
            r == written,
            final(self)@ == old(self)@.replied(written),
            final(self)@.init_done == (old(self)@.init_done || (old(self)@.handshaking
                && written is Ok)),
    {
        proof {
            use_type_invariant(&*self);
        }
        if let Ok(()) = written {
            if self.handshaking {
                self.handshaking = false;
                self.init_done = true;
            }
        }
        written
    }

    /// What to do next: yield a request that waits, else end where nothing more will be read, else
    /// wait for the device.
    pub fn next(&mut self) -> (r: Next)
        ensures
            match r {
                Next::Yield(request) => {
                    &&& old(self)@.pending.len() > 0
                    &&& request@ == old(self)@.pending[0]
                    &&& request@.wf()
                    &&& final(self)@ == (FuseView {
                        pending: old(self)@.pending.drop_first(),
                        ..old(self)@
                    })
                },
                Next::End => {
                    &&& old(self)@.pending.len() == 0
                    &&& old(self)@.finished
                    &&& final(self)@ == old(self)@
                },
                Next::Wait => {
                    &&& old(self)@.pending.len() == 0
                    &&& !old(self)@.finished
                    &&& final(self)@ == old(self)@
                },
            },
    {
        proof {
            use_type_invariant(&*self);
        }
        let mut pending: VecDeque<Request> = VecDeque::new();
        std::mem::swap(&mut pending, &mut self.pending);
        match pending.pop_front() {
            Some(request) => {
                assert(message::views(pending@) =~= old(self)@.pending.drop_first());
                assert(old(self)@.pending[0] == request@);
                self.pending = pending;
                Next::Yield(request)
            },
            None => {
                assert(self@.pending =~= old(self)@.pending);
                if self.finished {
                    Next::End
                } else {
                    Next::Wait
                }
            },
        }
    }

    /// The connection was torn down: nothing more will be read.
    pub fn connection_lost(&mut self)
        ensures
            final(self)@ == (FuseView { finished: true, ..old(self)@ }),
    {
        proof {
            use_type_invariant(&*self);
        }
        self.finished = true;
    }

    /// What to do after reading from the device.
    pub fn read_done(&mut self, outcome: ReadOutcome) -> (r: AfterRead)
        ensures
            r == AfterRead::after(outcome),
            final(self)@ == (FuseView {
                finished: old(self)@.finished || r is End,
                ..old(self)@
            }),
    {
        proof {
            use_type_invariant(&*self);
        }
        match outcome {
            ReadOutcome::WouldBlock => AfterRead::Retry,
            ReadOutcome::Bytes(n) => if n == 0 {
                self.finished = true;
                AfterRead::End
            } else {
                AfterRead::Process(n)
            },
            ReadOutcome::Failed(err) => {
                if let Some(errno) = err.raw_os_error() {
                    if errno == error::ENODEV || errno == error::ECONNABORTED {
                        self.finished = true;
                        return AfterRead::End;
                    }
                }
                AfterRead::Yield(err)
            },
        }
    }

    /// Whether nothing more will be read. Requests that wait are still yielded.
    pub fn is_terminated(&self) -> (r: bool)
        ensures
            r == self@.finished,
    {
        self.finished
    }

    /// Drop the requests that wait: the messages that have to be written for them.
    pub fn abandon(self) -> (r: Vec<Vec<u8>>)
        ensures
            r@.map_values(|message: Vec<u8>| message@) == dropped(self@.pending),
    {
        let mut pending = self.pending;
        let mut messages: Vec<Vec<u8>> = Vec::new();
        let ghost all = message::views(pending@);
        assert(all.take(0) =~= Seq::<RequestView>::empty());
        assert(messages@.map_values(|message: Vec<u8>| message@) =~= Seq::<Seq<u8>>::empty());
        let ghost mut done: int = 0;
        while pending.len() > 0
            invariant
                0 <= done <= all.len(),
                message::views(pending@) == all.skip(done),
                messages@.map_values(|message: Vec<u8>| message@) == dropped(all.take(done)),
            decreases pending@.len(),
        {
            let ghost before = pending@;
            if let Some(request) = pending.pop_front() {
                let ghost written = messages@.map_values(|message: Vec<u8>| message@);
                proof {
                    assert(message::views(before).len() == all.skip(done).len());
                    assert(message::views(before)[0] == request@);
                    assert(all.skip(done)[0] == all[done]);
                    assert(all.take(done + 1).drop_last() =~= all.take(done));
                    assert(message::views(pending@) =~= all.skip(done + 1)) by {
                        assert(message::views(pending@) =~= message::views(before).drop_first());
                    }
                }
                if let Some(message) = request.abandon() {
                    messages.push(message);
                    assert(messages@.map_values(|message: Vec<u8>| message@) =~= written.push(
                        message@,
                    ));
                }
                proof {
                    done = done + 1;
                }
            }
        }
        assert(message::views(pending@).len() == all.skip(done).len());
        assert(all.take(done) =~= all);
        messages
    }
}

/// A session starts without requests; what its requests borrow stays there through every message,
/// and no request waits before the handshake.
pub proof fn lemma_wf(state: FuseView, buffer: Seq<u8>, nbytes: nat, page_size: i64)
    requires
        state.wf(),
        nbytes <= buffer.len(),
    ensures
        FuseView::initial(state.ops, state.order).wf(),
        state.replied(Ok(())).wf(),
        state.pending.len() > 0 ==> state.pending[0].wf() && (FuseView {
            pending: state.pending.drop_first(),
            ..state
        }).wf(),
        state.step(buffer, nbytes, page_size).state().wf(),
{
    let message = buffer.take(nbytes as int);
    let header = FuseInHeader::from_wire(state.order, message);
    let body = message.skip(40);
    if state.init_done && nbytes >= 40 && header.len == nbytes {
        let guard = GuardView { unique: header.unique, order: state.order };
        if let Some(opcode) = Opcode::of_code(header.opcode) {
            if opcode.is_request() {
                message::lemma_requested(opcode, guard, header.nodeid, body, buffer);
            }
        }
    }
}

/// A message that the kernel laid out as `header` and `body` is read as just these, whatever is
/// behind it in the buffer.
pub proof fn lemma_step_of_message(
    state: FuseView,
    header: FuseInHeader,
    body: Seq<u8>,
    rest: Seq<u8>,
    page_size: i64,
)
    requires
        header.len == 40 + body.len(),
    ensures
        ({
            let buffer = header.to_wire(state.order) + body + rest;
            state.step(buffer, header.len as nat, page_size) == (if state.init_done {
                state.dispatch(header, body, buffer)
            } else {
                state.handshake(header, body, page_size)
            })
        }),
{
    let head = header.to_wire(state.order);
    let buffer = head + body + rest;
    header.lemma_size(state.order);
    header.lemma_decode_encode(state.order, body);
    assert(buffer.take(header.len as int) =~= head + body);
    assert((head + body).skip(40) =~= body);
}

/// Before the handshake nothing is accepted: the first message is the kernel's part of it, in the
/// version of the protocol that is spoken here, or an error, to which nothing is answered.
pub proof fn lemma_handshake_first(
    state: FuseView,
    buffer: Seq<u8>,
    nbytes: nat,
    page_size: i64,
)
    requires
        !state.init_done,
    ensures
        match state.step(buffer, nbytes, page_size) {
            StepView::Done { state: next, answer, result } => {
                &&& next == state
                &&& answer is None
                &&& result is Err
            },
            StepView::Handshake { state: next, .. } => {
                let message = buffer.take(nbytes as int);
                &&& next == (FuseView { handshaking: true, ..state })
                &&& FuseInHeader::from_wire(state.order, message).opcode == Opcode::Init.code()
                &&& message::body_of::<FuseInitIn>(state.order, message.skip(40)) matches Ok(
                    init_in,
                ) && init_in.major == protocol::FUSE_KERNEL_VERSION
            },
        },
{
    let header = FuseInHeader::from_wire(state.order, buffer.take(nbytes as int));
    if Opcode::of_code(header.opcode) == Some(Opcode::Init) {
        let read = choose|opcode: Opcode| #[trigger] opcode.code() == header.opcode;
        assert(read.code() == header.opcode);
    }
}

/// After the handshake, every message that waits for an answer either becomes one request, which
/// owes that answer, or is answered right away with `ENOSYS`, and never both. The exceptions are
/// forgets and the last message, which wait for none.
pub proof fn lemma_request_or_answer(
    state: FuseView,
    header: FuseInHeader,
    body: Seq<u8>,
    buffer: Seq<u8>,
)
    requires
        header.unique != 0,
        40 + body.len() <= buffer.len(),
        header.opcode != Opcode::Forget.code(),
        header.opcode != Opcode::BatchForget.code(),
        header.opcode != Opcode::Destroy.code(),
    ensures
        (state.dispatch(header, body, buffer) matches StepView::Done { state: next, answer, result }
            && {
            ||| {
                &&& next.pending.len() == state.pending.len() + 1
                &&& next.pending.drop_last() == state.pending
                &&& next.pending.last().guard() == (GuardView {
                    unique: header.unique,
                    order: state.order,
                })
                &&& next.pending.last() !is Forget
                &&& answer is None
                &&& result is Ok
            }
            ||| {
                &&& next == state
                &&& answer == Some(
                    reply::error_message_of(state.order, header.unique, error::ENOSYS),
                )
            }
        }),
{
    let guard = GuardView { unique: header.unique, order: state.order };
    if let Some(opcode) = Opcode::of_code(header.opcode) {
        lemma_code_read(header.opcode, opcode);
        if state.ops.accepts(opcode) {
            message::lemma_requested(opcode, guard, header.nodeid, body, buffer);
            if let Ok(request) = message::requested(opcode, guard, header.nodeid, body, buffer) {
                assert((state.pending + seq![request]).drop_last() =~= state.pending);
            }
        }
    }
}

/// An opcode that was read has the number that it was read from.
proof fn lemma_code_read(v: u32, opcode: Opcode)
    requires
        Opcode::of_code(v) == Some(opcode),
    ensures
        opcode.code() == v,
{
    let read = choose|o: Opcode| #[trigger] o.code() == v;
    assert(read.code() == v);
}

/// A message that asks for something unknown, or for an operation that is not enabled, is answered
/// with `ENOSYS`; it changes nothing and is no error.
pub proof fn lemma_not_enabled(
    state: FuseView,
    header: FuseInHeader,
    body: Seq<u8>,
    buffer: Seq<u8>,
)
    requires
        header.unique != 0,
        match Opcode::of_code(header.opcode) {
            None => true,
            Some(opcode) => {
                &&& !state.ops.accepts(opcode)
                &&& opcode !is Forget
                &&& opcode !is BatchForget
                &&& opcode !is Destroy
            },
        },
    ensures
        state.dispatch(header, body, buffer) == (StepView::Done {
            state,
            answer: Some(reply::error_message_of(state.order, header.unique, error::ENOSYS)),
            result: Ok(()),
        }),
{
}

/// A forget is never answered, be it enabled or not, alone or in a batch, right or wrong; and
/// whatever it becomes yields no answer later.
pub proof fn lemma_forget_unanswered(
    state: FuseView,
    header: FuseInHeader,
    body: Seq<u8>,
    buffer: Seq<u8>,
)
    requires
        header.opcode == Opcode::Forget.code() || header.opcode == Opcode::BatchForget.code(),
    ensures
        (state.dispatch(header, body, buffer) matches StepView::Done { state: next, answer, .. }
            && {
            &&& answer is None
            &&& next.pending.len() >= state.pending.len()
            &&& next.pending.take(state.pending.len() as int) == state.pending
            &&& forall|i: int|
                state.pending.len() <= i < next.pending.len() ==> (#[trigger] next.pending[i])
                    is Forget
        }),
{
    protocol::lemma_opcode_of_code(Opcode::Forget);
    protocol::lemma_opcode_of_code(Opcode::BatchForget);
    if let StepView::Done { state: next, .. } = state.dispatch(header, body, buffer) {
        assert(next.pending.take(state.pending.len() as int) =~= state.pending);
    }
}

/// The last message ends the stream once the requests that wait were yielded; it is not answered.
pub proof fn lemma_destroy(state: FuseView, header: FuseInHeader, body: Seq<u8>, buffer: Seq<u8>)
    requires
        header.opcode == Opcode::Destroy.code(),
    ensures
        state.dispatch(header, body, buffer) == (StepView::Done {
            state: FuseView { finished: true, ..state },
            answer: None,
            result: Ok(()),
        }),
{
    protocol::lemma_opcode_of_code(Opcode::Destroy);
}

impl FuseView {
    /// Nothing was taken back on the way to `next`: the requests that wait keep their places, the
    /// handshake stays done, and a stream that has ended stays so.
    pub open spec fn kept_in(self, next: FuseView) -> bool {
        &&& next.ops == self.ops
        &&& next.order == self.order
        &&& self.handshaking ==> next.handshaking
        &&& next.init_done == self.init_done
        &&& self.finished ==> next.finished
        &&& next.pending.len() >= self.pending.len()
        &&& next.pending.take(self.pending.len() as int) == self.pending
    }
}

/// Adding requests takes nothing back.
proof fn lemma_accepted_keeps(state: FuseView, requests: Seq<RequestView>)
    ensures
        state.kept_in(FuseView { pending: state.pending + requests, ..state }),
        state.kept_in(state),
        state.kept_in(FuseView { finished: true, ..state }),
        state.kept_in(FuseView { handshaking: true, ..state }),
{
    let next = FuseView { pending: state.pending + requests, ..state };
    assert(next.pending.take(state.pending.len() as int) =~= state.pending);
    assert(state.pending.take(state.pending.len() as int) =~= state.pending);
}

/// A message never takes back what was.
pub proof fn lemma_step_keeps(state: FuseView, buffer: Seq<u8>, nbytes: nat, page_size: i64)
    ensures
        state.kept_in(state.step(buffer, nbytes, page_size).state()),
{
    let message = buffer.take(nbytes as int);
    let header = FuseInHeader::from_wire(state.order, message);
    let body = message.skip(40);
    let guard = GuardView { unique: header.unique, order: state.order };
    lemma_accepted_keeps(state, Seq::empty());
    if let Some(opcode) = Opcode::of_code(header.opcode) {
        if let Ok(request) = message::requested(opcode, guard, header.nodeid, body, buffer) {
            lemma_accepted_keeps(state, seq![request]);
        }
    }
    if let Ok(request) = message::forget_requested(guard, header.nodeid, body) {
        lemma_accepted_keeps(state, seq![request]);
    }
    if let Ok(requests) = message::batch_requested(state.order, body) {
        lemma_accepted_keeps(state, requests);
    }
}

/// What can happen to a session.
pub enum Event {
    /// This message came in.
    Message { buffer: Seq<u8>, nbytes: nat, page_size: i64 },
    /// A write of the handshake's reply came out like this.
    Replied { written: Result<(), Error> },
    /// The next request was taken.
    Taken,
    /// The connection is over.
    Lost,
}

impl Event {
    /// Whether this is that the handshake's reply was written.
    pub open spec fn is_success(self) -> bool {
        self matches Event::Replied { written } && written is Ok
    }
}

impl FuseView {
    /// The session after `event`.
    #[verifier::opaque]
    pub open spec fn after(self, event: Event) -> FuseView {
        match event {
            Event::Message { buffer, nbytes, page_size } => self.step(
                buffer,
                nbytes,
                page_size,
            ).state(),
            Event::Replied { written } => self.replied(written),
            Event::Taken => if self.pending.len() > 0 {
                FuseView { pending: self.pending.drop_first(), ..self }
            } else {
                self
            },
            Event::Lost => FuseView { finished: true, ..self },
        }
    }

    /// The session after all of `events`.
    pub open spec fn after_all(self, events: Seq<Event>) -> FuseView
        decreases events.len(),
    {
        if events.len() == 0 {
            self
        } else {
            self.after_all(events.drop_last()).after(events.last())
        }
    }

    /// Whether `event` is the kernel's part of the handshake.
    #[verifier::opaque]
    pub open spec fn takes_offer(self, event: Event) -> bool {
        event matches Event::Message { buffer, nbytes, page_size } && self.step(
            buffer,
            nbytes,
            page_size,
        ) is Handshake
    }

    /// Whether the `i`th of `events` is the kernel's part of the handshake.
    pub open spec fn is_offer(self, events: Seq<Event>, i: int) -> bool {
        0 <= i < events.len() && self.after_all(events.take(i)).takes_offer(events[i])
    }
}

/// Whether the `i`th of `events` is that the handshake's reply was written.
pub open spec fn is_written(events: Seq<Event>, i: int) -> bool {
    0 <= i < events.len() && events[i].is_success()
}

/// A session begins to wait for the handshake's reply only with the kernel's part of it, and the
/// handshake is done only where it waited for that reply and the reply was written.
pub proof fn lemma_handshake_event(state: FuseView, event: Event)
    ensures
        state.after(event).handshaking ==> state.handshaking || state.takes_offer(event),
        state.after(event).init_done ==> state.init_done || (state.handshaking
            && event.is_success()),
{
    reveal(FuseView::after);
    reveal(FuseView::takes_offer);
    if let Event::Message { buffer, nbytes, page_size } = event {
        lemma_step_keeps(state, buffer, nbytes, page_size);
    }
}

/// The handshake is done only if the kernel's part of it came in and the reply to that was written
/// afterwards, whatever else happened in between.
pub proof fn lemma_handshake_done(ops: EnabledOps, order: ByteOrder, events: Seq<Event>)
    ensures
        ({
            let start = FuseView::initial(ops, order);
            let end = start.after_all(events);
            &&& end.handshaking ==> exists|i: int| #[trigger] start.is_offer(events, i)
            &&& end.init_done ==> exists|i: int, j: int|
                i < j && #[trigger] start.is_offer(events, i) && #[trigger] is_written(events, j)
        }),
    decreases events.len(),
{
    let start = FuseView::initial(ops, order);
    if events.len() > 0 {
        let earlier = events.drop_last();
        let last = events.len() - 1;
        let before = start.after_all(earlier);
        lemma_handshake_done(ops, order, earlier);
        lemma_handshake_event(before, events.last());
        assert(events.take(last) =~= earlier);
        assert forall|i: int| #[trigger] start.is_offer(earlier, i) implies start.is_offer(
            events,
            i,
        ) by {
            assert(earlier.take(i) =~= events.take(i));
        }
        if before.takes_offer(events.last()) {
            assert(start.is_offer(events, last));
        }
        if before.handshaking {
            let i = choose|i: int| #[trigger] start.is_offer(earlier, i);
            assert(start.is_offer(events, i));
            if events.last().is_success() {
                assert(is_written(events, last));
            }
        }
        if before.init_done {
            let (i, j) = choose|i: int, j: int|
                i < j && #[trigger] start.is_offer(earlier, i) && #[trigger] is_written(earlier, j);
            assert(start.is_offer(events, i) && is_written(events, j));
        }
    }
}

/// Looking a name up: the message with the name behind its header becomes the lookup of that name
/// in that directory, wherever lookups are enabled.
pub proof fn lemma_lookup(
    state: FuseView,
    header: FuseInHeader,
    name: Seq<u8>,
    buffer: Seq<u8>,
)
    requires
        header.opcode == Opcode::Lookup.code(),
        state.ops.lookup,
        crate::cstring::no_nul(name),
    ensures
        state.dispatch(header, name.push(0), buffer) == state.accepted(
            seq![
                RequestView::Lookup(
                    LookupView {
                        guard: GuardView { unique: header.unique, order: state.order },
                        parent: header.nodeid,
                        file_name: name,
                    },
                ),
            ],
        ),
{
    protocol::lemma_opcode_of_code(Opcode::Lookup);
    protocol::lemma_name_of_terminated(name, Seq::empty());
    assert(name.push(0) + Seq::<u8>::empty() =~= name.push(0));
}

/// No dropped request is left without its answer: the messages are those of the requests that
/// wait, in their order, each forget left out.
pub proof fn lemma_dropped(requests: Seq<RequestView>, last: RequestView)
    ensures
        dropped(Seq::empty()) == Seq::<Seq<u8>>::empty(),
        dropped(requests.push(last)) == (match last.on_drop() {
            Some(message) => dropped(requests).push(message),
            None => dropped(requests),
        }),
{
    assert(requests.push(last).drop_last() =~= requests);
}

} // verus!
