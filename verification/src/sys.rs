//! Public types for the FUSE API.

use vstd::prelude::*;

use crate::cast;
use crate::cstring::CString;
use crate::protocol;
use crate::protocol::{FopenFlags, FuseDirent, FuseEntryOut, FUSE_ROOT_ID};
use crate::util::{Stat, Timeout, TimeoutView};
use crate::wire;
use crate::wire::{ByteOrder, Wire};

/// The `FATTR_*` flags of setattr requests.
pub use crate::protocol::FattrFlags;

verus! {

/// Node ID of the root i-node.
pub const ROOT_ID: u64 = FUSE_ROOT_ID;

/// The `DT_*` type of a file with mode `mode`: the four bits above the permissions.
pub open spec fn dirent_type(mode: u32) -> u32 {
    mode / 0x1000 % 16
}

/// Convert `st_mode` to the `DT_*` dirent type used in the FUSE wire format.
fn mode_to_dirent_type(mode: u32) -> (r: u32)
    ensures
        r == dirent_type(mode),
{
    assert((mode >> 12) & 0xf == mode / 0x1000 % 16) by (bit_vector);
    (mode >> 12) & 0xf
}

/// FUSE entry parameter for lookup/create/mkdir/mknod replies.
#[derive(Debug, Clone, Copy)]
pub struct EntryParam {
    pub inode: u64,
    pub generation: u64,
    pub attr: Stat,
    pub attr_timeout: Timeout,
    pub entry_timeout: Timeout,
}

impl EntryParam {
    /// Both timeouts are such that the kernel can take them.
    pub open spec fn valid(self) -> bool {
        self.attr_timeout@.valid() && self.entry_timeout@.valid()
    }

    /// A simple entry has a maximum attribute/entry timeout value and always a generation of 1.
    /// This is a convenience method for static archives that never change.
    pub fn simple(inode: u64, attr: Stat) -> (r: Self)
        ensures
            r.inode == inode,
            r.generation == 1,
            r.attr == attr,
            r.attr_timeout@ == TimeoutView::longest(),
            r.entry_timeout@ == TimeoutView::longest(),
    {
        EntryParam {
            inode,
            generation: 1,
            attr,
            attr_timeout: Timeout::max(),
            entry_timeout: Timeout::max(),
        }
    }
}

/// State of ReplyBuf after last add_entry call
#[must_use]
#[derive(Debug, Clone, Copy, PartialEq, Eq, Structural)]
pub enum ReplyBufState {
    /// Entry was successfully added to ReplyBuf
    Added,
    /// Entry did not fit into ReplyBuf, was not added
    Full,
}

impl ReplyBufState {
    /// Whether the entry did not fit.
    pub fn is_full(&self) -> (r: bool)
        ensures
            r == (*self is Full),
    {
        matches!(*self, ReplyBufState::Full)
    }
}

/// This is used to communicate options for `Open` and `Create` requests.
#[derive(Clone, Copy, Debug)]
pub struct FuseFileInfo {
    pub(crate) direct_io: bool,
    pub(crate) keep_cache: bool,
    pub(crate) nonseekable: bool,
    pub(crate) cache_readdir: bool,
    pub(crate) noflush: bool,
}

/// The options of a [`FuseFileInfo`].
pub struct FileInfoView {
    pub direct_io: bool,
    pub keep_cache: bool,
    pub nonseekable: bool,
    pub cache_readdir: bool,
    pub noflush: bool,
}

/// `value` as a number, times `weight`.
pub open spec fn flag_value(value: bool, weight: int) -> int {
    if value {
        weight
    } else {
        0
    }
}

impl FileInfoView {
    /// No option is set.
    pub open spec fn none() -> FileInfoView {
        FileInfoView {
            direct_io: false,
            keep_cache: false,
            nonseekable: false,
            cache_readdir: false,
            noflush: false,
        }
    }

    /// The `FOPEN_*` bits of the options.
    pub open spec fn open_flags(self) -> u32 {
        (flag_value(self.direct_io, 1) + flag_value(self.keep_cache, 2) + flag_value(
            self.nonseekable,
            4,
        ) + flag_value(self.cache_readdir, 8) + flag_value(self.noflush, 32)) as u32
    }
}

impl View for FuseFileInfo {
    type V = FileInfoView;

    open(crate) spec fn view(&self) -> FileInfoView {
        FileInfoView {
            direct_io: self.direct_io,
            keep_cache: self.keep_cache,
            nonseekable: self.nonseekable,
            cache_readdir: self.cache_readdir,
            noflush: self.noflush,
        }
    }
}

impl Default for FuseFileInfo {
    fn default() -> (r: Self)
        ensures
            r@ == FileInfoView::none(),
    {
        FuseFileInfo {
            direct_io: false,
            keep_cache: false,
            nonseekable: false,
            cache_readdir: false,
            noflush: false,
        }
    }
}

impl FuseFileInfo {
    /// Convert the boolean flags to FOPEN_* bitmask for the reply.
    pub(crate) fn open_flags_out(&self) -> (r: FopenFlags)
        ensures
            r.bits == self@.open_flags(),
    {
        let mut out = FopenFlags::empty();
        out.set(FopenFlags::DIRECT_IO, self.direct_io);
        out.set(FopenFlags::KEEP_CACHE, self.keep_cache);
        out.set(FopenFlags::NONSEEKABLE, self.nonseekable);
        out.set(FopenFlags::CACHE_DIR, self.cache_readdir);
        out.set(FopenFlags::NOFLUSH, self.noflush);
        proof {
            let (a, b, c, d, e) = (
                self.direct_io,
                self.keep_cache,
                self.nonseekable,
                self.cache_readdir,
                self.noflush,
            );
            let b1: u32 = if a { 0u32 | (1u32 << 0) } else { 0u32 & !(1u32 << 0) };
            let b2: u32 = if b { b1 | (1u32 << 1) } else { b1 & !(1u32 << 1) };
            let b3: u32 = if c { b2 | (1u32 << 2) } else { b2 & !(1u32 << 2) };
            let b4: u32 = if d { b3 | (1u32 << 3) } else { b3 & !(1u32 << 3) };
            let b5: u32 = if e { b4 | (1u32 << 5) } else { b4 & !(1u32 << 5) };
            assert(b5 == (if a { 1u32 } else { 0 }) + (if b { 2u32 } else { 0 }) + (if c {
                4u32
            } else {
                0
            }) + (if d { 8u32 } else { 0 }) + (if e { 32u32 } else { 0 })) by (bit_vector)
                requires
                    b1 == (if a { 0u32 | (1u32 << 0) } else { 0u32 & !(1u32 << 0) }),
                    b2 == (if b { b1 | (1u32 << 1) } else { b1 & !(1u32 << 1) }),
                    b3 == (if c { b2 | (1u32 << 2) } else { b2 & !(1u32 << 2) }),
                    b4 == (if d { b3 | (1u32 << 3) } else { b3 & !(1u32 << 3) }),
                    b5 == (if e { b4 | (1u32 << 5) } else { b4 & !(1u32 << 5) }),
            ;
        }
        out
    }

    pub fn set_direct_io(&mut self, value: bool)
        ensures
            final(self)@ == (FileInfoView { direct_io: value, ..old(self)@ }),
    {
        self.direct_io = value;
    }

    pub fn get_direct_io(&self) -> (r: bool)
        ensures
            r == self@.direct_io,
    {
        self.direct_io
    }

    pub fn set_keep_cache(&mut self, value: bool)
        ensures
            final(self)@ == (FileInfoView { keep_cache: value, ..old(self)@ }),
    {
        self.keep_cache = value;
    }

    pub fn get_keep_cache(&self) -> (r: bool)
        ensures
            r == self@.keep_cache,
    {
        self.keep_cache
    }

    pub fn set_nonseekable(&mut self, value: bool)
        ensures
            final(self)@ == (FileInfoView { nonseekable: value, ..old(self)@ }),
    {
        self.nonseekable = value;
    }

    pub fn get_nonseekable(&self) -> (r: bool)
        ensures
            r == self@.nonseekable,
    {
        self.nonseekable
    }

    pub fn set_cache_readdir(&mut self, value: bool)
        ensures
            final(self)@ == (FileInfoView { cache_readdir: value, ..old(self)@ }),
    {
        self.cache_readdir = value;
    }

    pub fn get_cache_readdir(&self) -> (r: bool)
        ensures
            r == self@.cache_readdir,
    {
        self.cache_readdir
    }

    pub fn set_noflush(&mut self, value: bool)
        ensures
            final(self)@ == (FileInfoView { noflush: value, ..old(self)@ }),
    {
        self.noflush = value;
    }

    pub fn get_noflush(&self) -> (r: bool)
        ensures
            r == self@.noflush,
    {
        self.noflush
    }
}

/// `n` zero bytes.
pub open spec fn zeros(n: nat) -> Seq<u8> {
    Seq::new(n, |i: int| 0u8)
}

/// The directory entry that is written for a file with attributes `attr` and a name of `namelen`
/// bytes, where reading goes on at `next`.
pub open spec fn dirent_of(attr: Stat, namelen: nat, next: u64) -> FuseDirent {
    FuseDirent {
        ino: attr.st_ino,
        off: next,
        namelen: cast::low32(namelen as int),
        typ: dirent_type(attr.st_mode),
    }
}

/// A directory entry with its name and the padding behind it.
pub open spec fn dirent_bytes(order: ByteOrder, dirent: FuseDirent, name: Seq<u8>) -> Seq<u8> {
    dirent.to_wire(order) + name + zeros(
        (protocol::dirent_size(name.len() as int) - protocol::FUSE_DIRENT_HEADER_SIZE
            - name.len()) as nat,
    )
}

/// The whole of a plain entry.
pub open spec fn plain_entry(order: ByteOrder, name: Seq<u8>, attr: Stat, next: u64) -> Seq<u8> {
    dirent_bytes(order, dirent_of(attr, name.len(), next), name)
}

/// The whole of an entry with attributes.
pub open spec fn plus_entry(
    order: ByteOrder,
    name: Seq<u8>,
    entry: EntryParam,
    next: u64,
) -> Seq<u8> {
    protocol::entry_out_of(entry).to_wire(order) + plain_entry(order, name, entry.attr, next)
}

/// What a [`ReplyBuf`] holds.
pub struct ReplyBufView {
    /// The byte order of the entries.
    pub order: ByteOrder,
    /// How many bytes the reply may have.
    pub capacity: nat,
    /// The entries that were added.
    pub data: Seq<u8>,
}

impl ReplyBufView {
    /// Whether `n` more bytes fit.
    pub open spec fn has_room(self, n: int) -> bool {
        self.data.len() + n <= self.capacity
    }

    /// The buffer with `entry` behind what it holds.
    pub open spec fn with(self, entry: Seq<u8>) -> ReplyBufView {
        ReplyBufView { data: self.data + entry, ..self }
    }
}

/// Used to correctly fill and reply the buffer for the readdir/readdirplus callbacks.
#[derive(Debug)]
pub struct ReplyBuf {
    order: ByteOrder,
    capacity: usize,
    data: Vec<u8>,
}

impl View for ReplyBuf {
    type V = ReplyBufView;

    closed spec fn view(&self) -> ReplyBufView {
        ReplyBufView { order: self.order, capacity: self.capacity as nat, data: self.data@ }
    }
}

impl ReplyBuf {
    #[verifier::type_invariant]
    spec fn well_formed(self) -> bool {
        self.data@.len() <= self.capacity
    }

    /// An empty buffer for at most `size` bytes.
    pub fn new(order: ByteOrder, size: usize) -> (r: Self)
        ensures
            r@ == (ReplyBufView { order, capacity: size as nat, data: Seq::empty() }),
    {
        ReplyBuf { order, capacity: size, data: Vec::with_capacity(size) }
    }

    /// Get the filled portion of the buffer.
    pub fn filled_data(&self) -> (r: &[u8])
        ensures
            r@ == self@.data,
            r@.len() <= self@.capacity,
    {
        proof {
            use_type_invariant(self);
        }
        self.data.as_slice()
    }

    /// Append a dirent header + name + zero-padding to `out`.
    fn write_dirent(out: &mut Vec<u8>, order: ByteOrder, dirent: &FuseDirent, name_bytes: &[u8])
        requires
            protocol::FUSE_DIRENT_HEADER_SIZE + name_bytes@.len() + 7 <= usize::MAX,
        ensures
            final(out)@ == old(out)@ + dirent_bytes(order, *dirent, name_bytes@),
    {
        dirent.encode(order, out);
        out.extend_from_slice(name_bytes);
        let used: usize = protocol::FUSE_DIRENT_HEADER_SIZE + name_bytes.len();
        let entry_size: usize = protocol::fuse_dirent_size(name_bytes.len());
        let ghost written = out@;
        let mut k: usize = used;
        assert(out@ =~= written + zeros(0));
        while k < entry_size
            invariant
                used <= k <= entry_size,
                out@ == written + zeros((k - used) as nat),
            decreases entry_size - k,
        {
            out.push(0);
            k = k + 1;
            assert(out@ =~= written + zeros((k - used) as nat));
        }
        assert(out@ =~= old(out)@ + dirent_bytes(order, *dirent, name_bytes@));
    }

    /// Add a readdir entry (plain `fuse_dirent`).
    pub fn add_readdir(&mut self, name: &CString, attr: &Stat, next: u64) -> (r: ReplyBufState)
        ensures
            r is Full <==> !old(self)@.has_room(protocol::dirent_size(name@.len() as int)),
            final(self)@ == (if r is Full {
                old(self)@
            } else {
                old(self)@.with(plain_entry(old(self)@.order, name@, *attr, next))
            }),
    {
        proof {
            use_type_invariant(&*self);
            lemma_entry_len(self.order, name@, *attr, next);
        }
        let name_bytes = name.to_bytes();
        if name_bytes.len() > usize::MAX - 31 {
            proof {
                lemma_longest(name_bytes@.len() as int);
            }
            return ReplyBufState::Full;
        }
        let entry_size: usize = protocol::fuse_dirent_size(name_bytes.len());
        if entry_size > self.capacity - self.data.len() {
            return ReplyBufState::Full;
        }
        let dirent = FuseDirent {
            ino: attr.st_ino,
            off: next,
            namelen: cast::usize_to_u32(name_bytes.len()),
            typ: mode_to_dirent_type(attr.st_mode),
        };
        let mut data: Vec<u8> = Vec::new();
        std::mem::swap(&mut data, &mut self.data);
        ReplyBuf::write_dirent(&mut data, self.order, &dirent, name_bytes);
        self.data = data;
        ReplyBufState::Added
    }

    /// Add a readdirplus entry (`fuse_entry_out` + `fuse_dirent`).
    pub fn add_readdir_plus(
        &mut self,
        name: &CString,
        entry: &EntryParam,
        next: u64,
    ) -> (r: ReplyBufState)
        ensures
            r is Full <==> !old(self)@.has_room(protocol::direntplus_size(name@.len() as int)),
            final(self)@ == (if r is Full {
                old(self)@
            } else {
                old(self)@.with(plus_entry(old(self)@.order, name@, *entry, next))
            }),
            !(r is Full) ==> entry.valid(),
    {
        proof {
            use_type_invariant(&*self);
            lemma_entry_len(self.order, name@, entry.attr, next);
            lemma_plus_entry_len(self.order, name@, *entry, next);
        }
        let name_bytes = name.to_bytes();
        if name_bytes.len() > usize::MAX - 159 {
            proof {
                lemma_longest(name_bytes@.len() as int);
            }
            return ReplyBufState::Full;
        }
        let entry_size: usize = protocol::fuse_direntplus_size(name_bytes.len());
        if entry_size > self.capacity - self.data.len() {
            return ReplyBufState::Full;
        }
        let entry_out: FuseEntryOut = protocol::entry_out_from_param(entry);
        let dirent = FuseDirent {
            ino: entry.attr.st_ino,
            off: next,
            namelen: cast::usize_to_u32(name_bytes.len()),
            typ: mode_to_dirent_type(entry.attr.st_mode),
        };
        let mut data: Vec<u8> = Vec::new();
        std::mem::swap(&mut data, &mut self.data);
        let ghost before = data@;
        entry_out.encode(self.order, &mut data);
        ReplyBuf::write_dirent(&mut data, self.order, &dirent, name_bytes);
        assert(data@ =~= before + plus_entry(self.order, name@, *entry, next));
        self.data = data;
        ReplyBufState::Added
    }
}

/// An entry for a name this long is beyond any address.
proof fn lemma_longest(namelen: int)
    ensures
        namelen > usize::MAX - 31 ==> protocol::dirent_size(namelen) > usize::MAX,
        namelen > usize::MAX - 159 ==> protocol::direntplus_size(namelen) > usize::MAX,
{
    assert(usize::MAX % 8 == 7) by {
        assert(usize::MAX == 0xffff_ffff || usize::MAX == 0xffff_ffff_ffff_ffff);
    }
}

/// A plain entry occupies `dirent_size` bytes, which is a multiple of eight.
pub proof fn lemma_entry_len(order: ByteOrder, name: Seq<u8>, attr: Stat, next: u64)
    ensures
        plain_entry(order, name, attr, next).len() == protocol::dirent_size(name.len() as int),
        plain_entry(order, name, attr, next).len() % 8 == 0,
{
    dirent_of(attr, name.len(), next).lemma_size(order);
}

/// An entry with attributes occupies `direntplus_size` bytes, which is a multiple of eight.
pub proof fn lemma_plus_entry_len(order: ByteOrder, name: Seq<u8>, entry: EntryParam, next: u64)
    ensures
        plus_entry(order, name, entry, next).len() == protocol::direntplus_size(name.len() as int),
        plus_entry(order, name, entry, next).len() % 8 == 0,
{
    protocol::entry_out_of(entry).lemma_size(order);
    lemma_entry_len(order, name, entry.attr, next);
}

/// The directory entries that `s` is made of, each with its name; `None` where `s` is not a
/// sequence of whole entries.
pub open spec fn read_dirents(order: ByteOrder, s: Seq<u8>) -> Option<Seq<(FuseDirent, Seq<u8>)>>
    decreases s.len(),
{
    let dirent = FuseDirent::from_wire(order, s);
    let size = protocol::dirent_size(dirent.namelen as int);
    if s.len() == 0 {
        Some(Seq::empty())
    } else if s.len() < protocol::FUSE_DIRENT_HEADER_SIZE || s.len() < size {
        None
    } else {
        match read_dirents(order, s.skip(size)) {
            None => None,
            Some(rest) => Some(seq![(dirent, s.subrange(24, 24 + dirent.namelen))] + rest),
        }
    }
}

/// The directory entries with attributes that `s` is made of, each with its name; `None` where `s`
/// is not a sequence of whole entries.
pub open spec fn read_direntplus(order: ByteOrder, s: Seq<u8>) -> Option<
    Seq<(FuseEntryOut, FuseDirent, Seq<u8>)>,
>
    decreases s.len(),
{
    let entry = FuseEntryOut::from_wire(order, s);
    let dirent = FuseDirent::from_wire(order, s.skip(128));
    let size = protocol::direntplus_size(dirent.namelen as int);
    if s.len() == 0 {
        Some(Seq::empty())
    } else if s.len() < protocol::FUSE_ENTRY_OUT_SIZE + protocol::FUSE_DIRENT_HEADER_SIZE || s.len()
        < size {
        None
    } else {
        match read_direntplus(order, s.skip(size)) {
            None => None,
            Some(rest) => Some(
                seq![(entry, dirent, s.subrange(152, 152 + dirent.namelen))] + rest,
            ),
        }
    }
}

/// Reading the first of the entries in `s` does not depend on what comes behind it.
proof fn lemma_first_dirent(order: ByteOrder, dirent: FuseDirent, name: Seq<u8>, rest: Seq<u8>)
    requires
        dirent.namelen == name.len(),
    ensures
        ({
            let s = dirent_bytes(order, dirent, name) + rest;
            let size = protocol::dirent_size(name.len() as int);
            &&& FuseDirent::from_wire(order, s) == dirent
            &&& s.len() == size + rest.len()
            &&& s.subrange(24, 24 + name.len() as int) == name
            &&& s.skip(size) == rest
        }),
{
    dirent.lemma_size(order);
    let head = dirent.to_wire(order);
    let pad = zeros((protocol::dirent_size(name.len() as int) - 24 - name.len()) as nat);
    let s = dirent_bytes(order, dirent, name) + rest;
    assert(s =~= head + (name + pad + rest));
    dirent.lemma_decode_encode(order, name + pad + rest);
    assert(s.subrange(24, 24 + name.len() as int) =~= name);
    assert(s.skip(protocol::dirent_size(name.len() as int)) =~= rest);
}

/// An entry that is added to a sequence of entries is read back behind them, with the attributes,
/// the offset and the name that it was added with; the ones before it are not changed.
proof fn lemma_read_added_dirent(
    order: ByteOrder,
    before: Seq<u8>,
    name: Seq<u8>,
    attr: Stat,
    next: u64,
)
    requires
        read_dirents(order, before) is Some,
        name.len() <= u32::MAX,
    ensures
        read_dirents(order, before + plain_entry(order, name, attr, next)) == Some(
            read_dirents(order, before)->0.push((dirent_of(attr, name.len(), next), name)),
        ),
    decreases before.len(),
{
    let dirent = dirent_of(attr, name.len(), next);
    let added = plain_entry(order, name, attr, next);
    let s = before + added;
    if before.len() == 0 {
        assert(s =~= added + Seq::<u8>::empty());
        lemma_first_dirent(order, dirent, name, Seq::empty());
        assert(read_dirents(order, s.skip(protocol::dirent_size(name.len() as int))) == Some(
            Seq::<(FuseDirent, Seq<u8>)>::empty(),
        ));
        assert(read_dirents(order, s)->0 =~= read_dirents(order, before)->0.push((dirent, name)));
    } else {
        let first = FuseDirent::from_wire(order, before);
        let size = protocol::dirent_size(first.namelen as int);
        lemma_from_wire_prefix::<FuseDirent>(order, before, added);
        let rest = before.skip(size);
        lemma_read_added_dirent(order, rest, name, attr, next);
        assert(s.skip(size) =~= rest + added);
        assert(s.subrange(24, 24 + first.namelen) =~= before.subrange(24, 24 + first.namelen));
        assert(read_dirents(order, s)->0 =~= read_dirents(order, before)->0.push((dirent, name)));
    }
}

/// A structure is read the same whatever stands behind it.
proof fn lemma_from_wire_prefix<T: Wire>(order: ByteOrder, s: Seq<u8>, more: Seq<u8>)
    requires
        s.len() >= T::wire_size(),
    ensures
        T::from_wire(order, s + more) == T::from_wire(order, s),
{
    let n = T::wire_size() as int;
    let head = s.take(n);
    T::lemma_encode_decode(order, head);
    let v = T::from_wire(order, head);
    v.lemma_decode_encode(order, s.skip(n));
    v.lemma_decode_encode(order, s.skip(n) + more);
    assert(head + s.skip(n) =~= s);
    assert(head + (s.skip(n) + more) =~= s + more);
}

/// An entry with attributes that is added to a sequence of such entries is read back behind them,
/// as it was added; the ones before it are not changed.
proof fn lemma_read_added_direntplus(
    order: ByteOrder,
    before: Seq<u8>,
    name: Seq<u8>,
    entry: EntryParam,
    next: u64,
)
    requires
        read_direntplus(order, before) is Some,
        name.len() <= u32::MAX,
    ensures
        read_direntplus(order, before + plus_entry(order, name, entry, next)) == Some(
            read_direntplus(order, before)->0.push(
                (protocol::entry_out_of(entry), dirent_of(entry.attr, name.len(), next), name),
            ),
        ),
    decreases before.len(),
{
    let entry_out = protocol::entry_out_of(entry);
    let dirent = dirent_of(entry.attr, name.len(), next);
    let added = plus_entry(order, name, entry, next);
    let plain = plain_entry(order, name, entry.attr, next);
    let s = before + added;
    entry_out.lemma_size(order);
    if before.len() == 0 {
        assert(s =~= entry_out.to_wire(order) + plain);
        entry_out.lemma_decode_encode(order, plain);
        assert(s.skip(128) =~= plain + Seq::<u8>::empty());
        lemma_first_dirent(order, dirent, name, Seq::empty());
        assert(s.subrange(152, 152 + name.len() as int) =~= s.skip(128).subrange(
            24,
            24 + name.len() as int,
        ));
        let size = protocol::direntplus_size(name.len() as int);
        assert(s.skip(size) =~= s.skip(128).skip(protocol::dirent_size(name.len() as int)));
        assert(read_direntplus(order, s.skip(size)) == Some(
            Seq::<(FuseEntryOut, FuseDirent, Seq<u8>)>::empty(),
        ));
        assert(read_direntplus(order, s)->0 =~= read_direntplus(order, before)->0.push(
            (entry_out, dirent, name),
        ));
    } else {
        let first = FuseDirent::from_wire(order, before.skip(128));
        let size = protocol::direntplus_size(first.namelen as int);
        lemma_from_wire_prefix::<FuseEntryOut>(order, before, added);
        lemma_from_wire_prefix::<FuseDirent>(order, before.skip(128), added);
        assert(s.skip(128) =~= before.skip(128) + added);
        let rest = before.skip(size);
        lemma_read_added_direntplus(order, rest, name, entry, next);
        assert(s.skip(size) =~= rest + added);
        assert(s.subrange(152, 152 + first.namelen) =~= before.subrange(
            152,
            152 + first.namelen,
        ));
        assert(read_direntplus(order, s)->0 =~= read_direntplus(order, before)->0.push(
            (entry_out, dirent, name),
        ));
    }
}

/// A listing that is made of whole entries stays so when one is added: read back, it has that
/// entry behind the others. It also stays aligned to eight bytes.
pub proof fn lemma_listing(buf: ReplyBufView, name: Seq<u8>, attr: Stat, next: u64)
    requires
        read_dirents(buf.order, buf.data) is Some,
        buf.data.len() % 8 == 0,
        name.len() <= u32::MAX,
    ensures
        ({
            let added = buf.with(plain_entry(buf.order, name, attr, next));
            &&& read_dirents(buf.order, added.data) == Some(
                read_dirents(buf.order, buf.data)->0.push(
                    (dirent_of(attr, name.len(), next), name),
                ),
            )
            &&& added.data.len() == buf.data.len() + protocol::dirent_size(name.len() as int)
            &&& added.data.len() % 8 == 0
        }),
{
    lemma_read_added_dirent(buf.order, buf.data, name, attr, next);
    lemma_entry_len(buf.order, name, attr, next);
}

/// A listing that is made of whole entries with attributes stays so when one is added: read back,
/// it has that entry behind the others. It also stays aligned to eight bytes.
pub proof fn lemma_listing_plus(buf: ReplyBufView, name: Seq<u8>, entry: EntryParam, next: u64)
    requires
        read_direntplus(buf.order, buf.data) is Some,
        buf.data.len() % 8 == 0,
        name.len() <= u32::MAX,
    ensures
        ({
            let added = buf.with(plus_entry(buf.order, name, entry, next));
            &&& read_direntplus(buf.order, added.data) == Some(
                read_direntplus(buf.order, buf.data)->0.push(
                    (protocol::entry_out_of(entry), dirent_of(entry.attr, name.len(), next), name),
                ),
            )
            &&& added.data.len() == buf.data.len() + protocol::direntplus_size(name.len() as int)
            &&& added.data.len() % 8 == 0
        }),
{
    lemma_read_added_direntplus(buf.order, buf.data, name, entry, next);
    lemma_plus_entry_len(buf.order, name, entry, next);
}

} // verus!
