//! How the structures of the kernel protocol lie in memory.

use vstd::prelude::*;
use vstd::slice::slice_subrange;

use crate::protocol::{
    FuseInHeader,
    FuseOutHeader,
    FuseAttr,
    FuseEntryOut,
    FuseAttrOut,
    FuseKstatfs,
    FuseForgetIn,
    FuseBatchForgetIn,
    FuseForgetOne,
    FuseSetattrIn,
    FuseOpenIn,
    FuseOpenOut,
    FuseCreateIn,
    FuseReleaseIn,
    FuseReadIn,
    FuseWriteIn,
    FuseWriteOut,
    FuseMknodIn,
    FuseMkdirIn,
    FuseRename2In,
    FuseInitIn,
    FuseInitOut,
    FuseGetxattrIn,
    FuseGetxattrOut,
    FuseDirent,
};
use crate::wire;
use crate::wire::{ByteOrder, Wire};

verus! {

impl Wire for FuseInHeader {
    open spec fn wire_size() -> nat {
        40
    }

    #[verifier::opaque]
    open spec fn to_wire(self, order: ByteOrder) -> Seq<u8> {
        wire::u32_bytes(order, self.len)
            + wire::u32_bytes(order, self.opcode)
            + wire::u64_bytes(order, self.unique)
            + wire::u64_bytes(order, self.nodeid)
            + wire::u32_bytes(order, self.uid)
            + wire::u32_bytes(order, self.gid)
            + wire::u32_bytes(order, self.pid)
            + wire::u16_bytes(order, self.total_extlen)
            + wire::u16_bytes(order, self.padding)
    }

    #[verifier::opaque]
    open spec fn from_wire(order: ByteOrder, s: Seq<u8>) -> Self {
        FuseInHeader {
            len: wire::u32_at(order, s, 0),
            opcode: wire::u32_at(order, s, 4),
            unique: wire::u64_at(order, s, 8),
            nodeid: wire::u64_at(order, s, 16),
            uid: wire::u32_at(order, s, 24),
            gid: wire::u32_at(order, s, 28),
            pid: wire::u32_at(order, s, 32),
            total_extlen: wire::u16_at(order, s, 36),
            padding: wire::u16_at(order, s, 38),
        }
    }

    fn size() -> (n: usize) {
        40
    }

    fn encode(&self, order: ByteOrder, out: &mut Vec<u8>) {
        broadcast use wire::lemma_concat_assoc;

        proof {
            reveal(<FuseInHeader as Wire>::to_wire);
        }
        wire::put_u32(out, order, self.len);
        wire::put_u32(out, order, self.opcode);
        wire::put_u64(out, order, self.unique);
        wire::put_u64(out, order, self.nodeid);
        wire::put_u32(out, order, self.uid);
        wire::put_u32(out, order, self.gid);
        wire::put_u32(out, order, self.pid);
        wire::put_u16(out, order, self.total_extlen);
        wire::put_u16(out, order, self.padding);
    }

    fn decode(order: ByteOrder, s: &[u8]) -> (r: Self) {
        proof {
            reveal(<FuseInHeader as Wire>::from_wire);
        }
        FuseInHeader {
            len: wire::get_u32(s, order, 0),
            opcode: wire::get_u32(s, order, 4),
            unique: wire::get_u64(s, order, 8),
            nodeid: wire::get_u64(s, order, 16),
            uid: wire::get_u32(s, order, 24),
            gid: wire::get_u32(s, order, 28),
            pid: wire::get_u32(s, order, 32),
            total_extlen: wire::get_u16(s, order, 36),
            padding: wire::get_u16(s, order, 38),
        }
    }

    proof fn lemma_size(self, order: ByteOrder) {
        broadcast use wire::group_field_written;

        reveal(<FuseInHeader as Wire>::to_wire);
    }

    proof fn lemma_decode_encode(self, order: ByteOrder, rest: Seq<u8>) {
        broadcast use wire::group_field_written;

        reveal(<FuseInHeader as Wire>::to_wire);
        reveal(<FuseInHeader as Wire>::from_wire);
    }

    proof fn lemma_encode_decode(order: ByteOrder, s: Seq<u8>) {
        broadcast use wire::group_field_read;

        reveal(<FuseInHeader as Wire>::to_wire);
        reveal(<FuseInHeader as Wire>::from_wire);
        assert(s.subrange(0, 40) =~= s);
    }
}

impl Wire for FuseOutHeader {
    open spec fn wire_size() -> nat {
        16
    }

    #[verifier::opaque]
    open spec fn to_wire(self, order: ByteOrder) -> Seq<u8> {
        wire::u32_bytes(order, self.len)
            + wire::i32_bytes(order, self.error)
            + wire::u64_bytes(order, self.unique)
    }

    #[verifier::opaque]
    open spec fn from_wire(order: ByteOrder, s: Seq<u8>) -> Self {
        FuseOutHeader {
            len: wire::u32_at(order, s, 0),
            error: wire::i32_at(order, s, 4),
            unique: wire::u64_at(order, s, 8),
        }
    }

    fn size() -> (n: usize) {
        16
    }

    fn encode(&self, order: ByteOrder, out: &mut Vec<u8>) {
        broadcast use wire::lemma_concat_assoc;

        proof {
            reveal(<FuseOutHeader as Wire>::to_wire);
        }
        wire::put_u32(out, order, self.len);
        wire::put_i32(out, order, self.error);
        wire::put_u64(out, order, self.unique);
    }

    fn decode(order: ByteOrder, s: &[u8]) -> (r: Self) {
        proof {
            reveal(<FuseOutHeader as Wire>::from_wire);
        }
        FuseOutHeader {
            len: wire::get_u32(s, order, 0),
            error: wire::get_i32(s, order, 4),
            unique: wire::get_u64(s, order, 8),
        }
    }

    proof fn lemma_size(self, order: ByteOrder) {
        broadcast use wire::group_field_written;

        reveal(<FuseOutHeader as Wire>::to_wire);
    }

    proof fn lemma_decode_encode(self, order: ByteOrder, rest: Seq<u8>) {
        broadcast use wire::group_field_written;

        reveal(<FuseOutHeader as Wire>::to_wire);
        reveal(<FuseOutHeader as Wire>::from_wire);
    }

    proof fn lemma_encode_decode(order: ByteOrder, s: Seq<u8>) {
        broadcast use wire::group_field_read;

        reveal(<FuseOutHeader as Wire>::to_wire);
        reveal(<FuseOutHeader as Wire>::from_wire);
        assert(s.subrange(0, 16) =~= s);
    }
}

impl Wire for FuseAttr {
    open spec fn wire_size() -> nat {
        88
    }

    #[verifier::opaque]
    open spec fn to_wire(self, order: ByteOrder) -> Seq<u8> {
        wire::u64_bytes(order, self.ino)
            + wire::u64_bytes(order, self.size)
            + wire::u64_bytes(order, self.blocks)
            + wire::u64_bytes(order, self.atime)
            + wire::u64_bytes(order, self.mtime)
            + wire::u64_bytes(order, self.ctime)
            + wire::u32_bytes(order, self.atimensec)
            + wire::u32_bytes(order, self.mtimensec)
            + wire::u32_bytes(order, self.ctimensec)
            + wire::u32_bytes(order, self.mode)
            + wire::u32_bytes(order, self.nlink)
            + wire::u32_bytes(order, self.uid)
            + wire::u32_bytes(order, self.gid)
            + wire::u32_bytes(order, self.rdev)
            + wire::u32_bytes(order, self.blksize)
            + wire::u32_bytes(order, self.flags)
    }

    #[verifier::opaque]
    open spec fn from_wire(order: ByteOrder, s: Seq<u8>) -> Self {
        FuseAttr {
            ino: wire::u64_at(order, s, 0),
            size: wire::u64_at(order, s, 8),
            blocks: wire::u64_at(order, s, 16),
            atime: wire::u64_at(order, s, 24),
            mtime: wire::u64_at(order, s, 32),
            ctime: wire::u64_at(order, s, 40),
            atimensec: wire::u32_at(order, s, 48),
            mtimensec: wire::u32_at(order, s, 52),
            ctimensec: wire::u32_at(order, s, 56),
            mode: wire::u32_at(order, s, 60),
            nlink: wire::u32_at(order, s, 64),
            uid: wire::u32_at(order, s, 68),
            gid: wire::u32_at(order, s, 72),
            rdev: wire::u32_at(order, s, 76),
            blksize: wire::u32_at(order, s, 80),
            flags: wire::u32_at(order, s, 84),
        }
    }

    fn size() -> (n: usize) {
        88
    }

    fn encode(&self, order: ByteOrder, out: &mut Vec<u8>) {
        broadcast use wire::lemma_concat_assoc;

        proof {
            reveal(<FuseAttr as Wire>::to_wire);
        }
        wire::put_u64(out, order, self.ino);
        wire::put_u64(out, order, self.size);
        wire::put_u64(out, order, self.blocks);
        wire::put_u64(out, order, self.atime);
        wire::put_u64(out, order, self.mtime);
        wire::put_u64(out, order, self.ctime);
        wire::put_u32(out, order, self.atimensec);
        wire::put_u32(out, order, self.mtimensec);
        wire::put_u32(out, order, self.ctimensec);
        wire::put_u32(out, order, self.mode);
        wire::put_u32(out, order, self.nlink);
        wire::put_u32(out, order, self.uid);
        wire::put_u32(out, order, self.gid);
        wire::put_u32(out, order, self.rdev);
        wire::put_u32(out, order, self.blksize);
        wire::put_u32(out, order, self.flags);
    }

    fn decode(order: ByteOrder, s: &[u8]) -> (r: Self) {
        proof {
            reveal(<FuseAttr as Wire>::from_wire);
        }
        FuseAttr {
            ino: wire::get_u64(s, order, 0),
            size: wire::get_u64(s, order, 8),
            blocks: wire::get_u64(s, order, 16),
            atime: wire::get_u64(s, order, 24),
            mtime: wire::get_u64(s, order, 32),
            ctime: wire::get_u64(s, order, 40),
            atimensec: wire::get_u32(s, order, 48),
            mtimensec: wire::get_u32(s, order, 52),
            ctimensec: wire::get_u32(s, order, 56),
            mode: wire::get_u32(s, order, 60),
            nlink: wire::get_u32(s, order, 64),
            uid: wire::get_u32(s, order, 68),
            gid: wire::get_u32(s, order, 72),
            rdev: wire::get_u32(s, order, 76),
            blksize: wire::get_u32(s, order, 80),
            flags: wire::get_u32(s, order, 84),
        }
    }

    proof fn lemma_size(self, order: ByteOrder) {
        broadcast use wire::group_field_written;

        reveal(<FuseAttr as Wire>::to_wire);
    }

    proof fn lemma_decode_encode(self, order: ByteOrder, rest: Seq<u8>) {
        broadcast use wire::group_field_written;

        reveal(<FuseAttr as Wire>::to_wire);
        reveal(<FuseAttr as Wire>::from_wire);
    }

    proof fn lemma_encode_decode(order: ByteOrder, s: Seq<u8>) {
        broadcast use wire::group_field_read;

        reveal(<FuseAttr as Wire>::to_wire);
        reveal(<FuseAttr as Wire>::from_wire);
        assert(s.subrange(0, 88) =~= s);
    }
}

impl Wire for FuseEntryOut {
    open spec fn wire_size() -> nat {
        128
    }

    #[verifier::opaque]
    open spec fn to_wire(self, order: ByteOrder) -> Seq<u8> {
        wire::u64_bytes(order, self.nodeid)
            + wire::u64_bytes(order, self.generation)
            + wire::u64_bytes(order, self.entry_valid)
            + wire::u64_bytes(order, self.attr_valid)
            + wire::u32_bytes(order, self.entry_valid_nsec)
            + wire::u32_bytes(order, self.attr_valid_nsec)
            + self.attr.to_wire(order)
    }

    #[verifier::opaque]
    open spec fn from_wire(order: ByteOrder, s: Seq<u8>) -> Self {
        FuseEntryOut {
            nodeid: wire::u64_at(order, s, 0),
            generation: wire::u64_at(order, s, 8),
            entry_valid: wire::u64_at(order, s, 16),
            attr_valid: wire::u64_at(order, s, 24),
            entry_valid_nsec: wire::u32_at(order, s, 32),
            attr_valid_nsec: wire::u32_at(order, s, 36),
            attr: FuseAttr::from_wire(order, s.skip(40)),
        }
    }

    fn size() -> (n: usize) {
        128
    }

    fn encode(&self, order: ByteOrder, out: &mut Vec<u8>) {
        broadcast use wire::lemma_concat_assoc;

        proof {
            reveal(<FuseEntryOut as Wire>::to_wire);
        }
        wire::put_u64(out, order, self.nodeid);
        wire::put_u64(out, order, self.generation);
        wire::put_u64(out, order, self.entry_valid);
        wire::put_u64(out, order, self.attr_valid);
        wire::put_u32(out, order, self.entry_valid_nsec);
        wire::put_u32(out, order, self.attr_valid_nsec);
        self.attr.encode(order, out);
    }

    fn decode(order: ByteOrder, s: &[u8]) -> (r: Self) {
        proof {
            reveal(<FuseEntryOut as Wire>::from_wire);
        }
        assert(s@.subrange(40, s@.len() as int) =~= s@.skip(40));
        let r = FuseEntryOut {
            nodeid: wire::get_u64(s, order, 0),
            generation: wire::get_u64(s, order, 8),
            entry_valid: wire::get_u64(s, order, 16),
            attr_valid: wire::get_u64(s, order, 24),
            entry_valid_nsec: wire::get_u32(s, order, 32),
            attr_valid_nsec: wire::get_u32(s, order, 36),
            attr: FuseAttr::decode(order, slice_subrange(s, 40, s.len())),
        };
        r
    }

    proof fn lemma_size(self, order: ByteOrder) {
        broadcast use wire::group_field_written;

        reveal(<FuseEntryOut as Wire>::to_wire);
        self.attr.lemma_size(order);
    }

    proof fn lemma_decode_encode(self, order: ByteOrder, rest: Seq<u8>) {
        broadcast use wire::group_field_written;

        reveal(<FuseEntryOut as Wire>::to_wire);
        reveal(<FuseEntryOut as Wire>::from_wire);
        self.attr.lemma_size(order);
        self.attr.lemma_decode_encode(order, rest);
        assert((self.to_wire(order) + rest).skip(40) =~= self.attr.to_wire(order) + rest);
    }

    proof fn lemma_encode_decode(order: ByteOrder, s: Seq<u8>) {
        broadcast use wire::group_field_read;

        reveal(<FuseEntryOut as Wire>::to_wire);
        reveal(<FuseEntryOut as Wire>::from_wire);
        FuseAttr::lemma_encode_decode(order, s.skip(40));
        assert(s.skip(40) =~= s.subrange(40, 128));
        assert(s.subrange(0, 128) =~= s);
    }
}

impl Wire for FuseAttrOut {
    open spec fn wire_size() -> nat {
        104
    }

    #[verifier::opaque]
    open spec fn to_wire(self, order: ByteOrder) -> Seq<u8> {
        wire::u64_bytes(order, self.attr_valid)
            + wire::u32_bytes(order, self.attr_valid_nsec)
            + wire::u32_bytes(order, self.dummy)
            + self.attr.to_wire(order)
    }

    #[verifier::opaque]
    open spec fn from_wire(order: ByteOrder, s: Seq<u8>) -> Self {
        FuseAttrOut {
            attr_valid: wire::u64_at(order, s, 0),
            attr_valid_nsec: wire::u32_at(order, s, 8),
            dummy: wire::u32_at(order, s, 12),
            attr: FuseAttr::from_wire(order, s.skip(16)),
        }
    }

    fn size() -> (n: usize) {
        104
    }

    fn encode(&self, order: ByteOrder, out: &mut Vec<u8>) {
        broadcast use wire::lemma_concat_assoc;

        proof {
            reveal(<FuseAttrOut as Wire>::to_wire);
        }
        wire::put_u64(out, order, self.attr_valid);
        wire::put_u32(out, order, self.attr_valid_nsec);
        wire::put_u32(out, order, self.dummy);
        self.attr.encode(order, out);
    }

    fn decode(order: ByteOrder, s: &[u8]) -> (r: Self) {
        proof {
            reveal(<FuseAttrOut as Wire>::from_wire);
        }
        assert(s@.subrange(16, s@.len() as int) =~= s@.skip(16));
        let r = FuseAttrOut {
            attr_valid: wire::get_u64(s, order, 0),
            attr_valid_nsec: wire::get_u32(s, order, 8),
            dummy: wire::get_u32(s, order, 12),
            attr: FuseAttr::decode(order, slice_subrange(s, 16, s.len())),
        };
        r
    }

    proof fn lemma_size(self, order: ByteOrder) {
        broadcast use wire::group_field_written;

        reveal(<FuseAttrOut as Wire>::to_wire);
        self.attr.lemma_size(order);
    }

    proof fn lemma_decode_encode(self, order: ByteOrder, rest: Seq<u8>) {
        broadcast use wire::group_field_written;

        reveal(<FuseAttrOut as Wire>::to_wire);
        reveal(<FuseAttrOut as Wire>::from_wire);
        self.attr.lemma_size(order);
        self.attr.lemma_decode_encode(order, rest);
        assert((self.to_wire(order) + rest).skip(16) =~= self.attr.to_wire(order) + rest);
    }

    proof fn lemma_encode_decode(order: ByteOrder, s: Seq<u8>) {
        broadcast use wire::group_field_read;

        reveal(<FuseAttrOut as Wire>::to_wire);
        reveal(<FuseAttrOut as Wire>::from_wire);
        FuseAttr::lemma_encode_decode(order, s.skip(16));
        assert(s.skip(16) =~= s.subrange(16, 104));
        assert(s.subrange(0, 104) =~= s);
    }
}

impl Wire for FuseKstatfs {
    open spec fn wire_size() -> nat {
        80
    }

    #[verifier::opaque]
    open spec fn to_wire(self, order: ByteOrder) -> Seq<u8> {
        wire::u64_bytes(order, self.blocks)
            + wire::u64_bytes(order, self.bfree)
            + wire::u64_bytes(order, self.bavail)
            + wire::u64_bytes(order, self.files)
            + wire::u64_bytes(order, self.ffree)
            + wire::u32_bytes(order, self.bsize)
            + wire::u32_bytes(order, self.namelen)
            + wire::u32_bytes(order, self.frsize)
            + wire::u32_bytes(order, self.padding)
            + wire::u32_bytes(order, self.spare[0])
            + wire::u32_bytes(order, self.spare[1])
            + wire::u32_bytes(order, self.spare[2])
            + wire::u32_bytes(order, self.spare[3])
            + wire::u32_bytes(order, self.spare[4])
            + wire::u32_bytes(order, self.spare[5])
    }

    #[verifier::opaque]
    open spec fn from_wire(order: ByteOrder, s: Seq<u8>) -> Self {
        FuseKstatfs {
            blocks: wire::u64_at(order, s, 0),
            bfree: wire::u64_at(order, s, 8),
            bavail: wire::u64_at(order, s, 16),
            files: wire::u64_at(order, s, 24),
            ffree: wire::u64_at(order, s, 32),
            bsize: wire::u32_at(order, s, 40),
            namelen: wire::u32_at(order, s, 44),
            frsize: wire::u32_at(order, s, 48),
            padding: wire::u32_at(order, s, 52),
            spare: [
                wire::u32_at(order, s, 56),
                wire::u32_at(order, s, 60),
                wire::u32_at(order, s, 64),
                wire::u32_at(order, s, 68),
                wire::u32_at(order, s, 72),
                wire::u32_at(order, s, 76),
            ],
        }
    }

    fn size() -> (n: usize) {
        80
    }

    fn encode(&self, order: ByteOrder, out: &mut Vec<u8>) {
        broadcast use wire::lemma_concat_assoc;

        proof {
            reveal(<FuseKstatfs as Wire>::to_wire);
        }
        wire::put_u64(out, order, self.blocks);
        wire::put_u64(out, order, self.bfree);
        wire::put_u64(out, order, self.bavail);
        wire::put_u64(out, order, self.files);
        wire::put_u64(out, order, self.ffree);
        wire::put_u32(out, order, self.bsize);
        wire::put_u32(out, order, self.namelen);
        wire::put_u32(out, order, self.frsize);
        wire::put_u32(out, order, self.padding);
        wire::put_u32(out, order, self.spare[0]);
        wire::put_u32(out, order, self.spare[1]);
        wire::put_u32(out, order, self.spare[2]);
        wire::put_u32(out, order, self.spare[3]);
        wire::put_u32(out, order, self.spare[4]);
        wire::put_u32(out, order, self.spare[5]);
    }

    fn decode(order: ByteOrder, s: &[u8]) -> (r: Self) {
        proof {
            reveal(<FuseKstatfs as Wire>::from_wire);
        }
        let r = FuseKstatfs {
            blocks: wire::get_u64(s, order, 0),
            bfree: wire::get_u64(s, order, 8),
            bavail: wire::get_u64(s, order, 16),
            files: wire::get_u64(s, order, 24),
            ffree: wire::get_u64(s, order, 32),
            bsize: wire::get_u32(s, order, 40),
            namelen: wire::get_u32(s, order, 44),
            frsize: wire::get_u32(s, order, 48),
            padding: wire::get_u32(s, order, 52),
            spare: [
                wire::get_u32(s, order, 56),
                wire::get_u32(s, order, 60),
                wire::get_u32(s, order, 64),
                wire::get_u32(s, order, 68),
                wire::get_u32(s, order, 72),
                wire::get_u32(s, order, 76),
            ],
        };
        assert(r.spare@ =~= Self::from_wire(order, s@).spare@);
        assert(r.spare =~= Self::from_wire(order, s@).spare);
        r
    }

    proof fn lemma_size(self, order: ByteOrder) {
        broadcast use wire::group_field_written;

        reveal(<FuseKstatfs as Wire>::to_wire);
    }

    proof fn lemma_decode_encode(self, order: ByteOrder, rest: Seq<u8>) {
        broadcast use wire::group_field_written;

        reveal(<FuseKstatfs as Wire>::to_wire);
        reveal(<FuseKstatfs as Wire>::from_wire);
        let back = Self::from_wire(order, self.to_wire(order) + rest);
        assert(back.spare@ =~= self.spare@);
        assert(back.spare =~= self.spare);
    }

    proof fn lemma_encode_decode(order: ByteOrder, s: Seq<u8>) {
        broadcast use wire::group_field_read;

        reveal(<FuseKstatfs as Wire>::to_wire);
        reveal(<FuseKstatfs as Wire>::from_wire);
        assert(s.subrange(0, 80) =~= s);
    }
}

impl Wire for FuseForgetIn {
    open spec fn wire_size() -> nat {
        8
    }

    #[verifier::opaque]
    open spec fn to_wire(self, order: ByteOrder) -> Seq<u8> {
        wire::u64_bytes(order, self.nlookup)
    }

    #[verifier::opaque]
    open spec fn from_wire(order: ByteOrder, s: Seq<u8>) -> Self {
        FuseForgetIn {
            nlookup: wire::u64_at(order, s, 0),
        }
    }

    fn size() -> (n: usize) {
        8
    }

    fn encode(&self, order: ByteOrder, out: &mut Vec<u8>) {
        broadcast use wire::lemma_concat_assoc;

        proof {
            reveal(<FuseForgetIn as Wire>::to_wire);
        }
        wire::put_u64(out, order, self.nlookup);
    }

    fn decode(order: ByteOrder, s: &[u8]) -> (r: Self) {
        proof {
            reveal(<FuseForgetIn as Wire>::from_wire);
        }
        FuseForgetIn {
            nlookup: wire::get_u64(s, order, 0),
        }
    }

    proof fn lemma_size(self, order: ByteOrder) {
        broadcast use wire::group_field_written;

        reveal(<FuseForgetIn as Wire>::to_wire);
    }

    proof fn lemma_decode_encode(self, order: ByteOrder, rest: Seq<u8>) {
        broadcast use wire::group_field_written;

        reveal(<FuseForgetIn as Wire>::to_wire);
        reveal(<FuseForgetIn as Wire>::from_wire);
    }

    proof fn lemma_encode_decode(order: ByteOrder, s: Seq<u8>) {
        broadcast use wire::group_field_read;

        reveal(<FuseForgetIn as Wire>::to_wire);
        reveal(<FuseForgetIn as Wire>::from_wire);
        assert(s.subrange(0, 8) =~= s);
    }
}

impl Wire for FuseBatchForgetIn {
    open spec fn wire_size() -> nat {
        8
    }

    #[verifier::opaque]
    open spec fn to_wire(self, order: ByteOrder) -> Seq<u8> {
        wire::u32_bytes(order, self.count)
            + wire::u32_bytes(order, self.dummy)
    }

    #[verifier::opaque]
    open spec fn from_wire(order: ByteOrder, s: Seq<u8>) -> Self {
        FuseBatchForgetIn {
            count: wire::u32_at(order, s, 0),
            dummy: wire::u32_at(order, s, 4),
        }
    }

    fn size() -> (n: usize) {
        8
    }

    fn encode(&self, order: ByteOrder, out: &mut Vec<u8>) {
        broadcast use wire::lemma_concat_assoc;

        proof {
            reveal(<FuseBatchForgetIn as Wire>::to_wire);
        }
        wire::put_u32(out, order, self.count);
        wire::put_u32(out, order, self.dummy);
    }

    fn decode(order: ByteOrder, s: &[u8]) -> (r: Self) {
        proof {
            reveal(<FuseBatchForgetIn as Wire>::from_wire);
        }
        FuseBatchForgetIn {
            count: wire::get_u32(s, order, 0),
            dummy: wire::get_u32(s, order, 4),
        }
    }

    proof fn lemma_size(self, order: ByteOrder) {
        broadcast use wire::group_field_written;

        reveal(<FuseBatchForgetIn as Wire>::to_wire);
    }

    proof fn lemma_decode_encode(self, order: ByteOrder, rest: Seq<u8>) {
        broadcast use wire::group_field_written;

        reveal(<FuseBatchForgetIn as Wire>::to_wire);
        reveal(<FuseBatchForgetIn as Wire>::from_wire);
    }

    proof fn lemma_encode_decode(order: ByteOrder, s: Seq<u8>) {
        broadcast use wire::group_field_read;

        reveal(<FuseBatchForgetIn as Wire>::to_wire);
        reveal(<FuseBatchForgetIn as Wire>::from_wire);
        assert(s.subrange(0, 8) =~= s);
    }
}

impl Wire for FuseForgetOne {
    open spec fn wire_size() -> nat {
        16
    }

    #[verifier::opaque]
    open spec fn to_wire(self, order: ByteOrder) -> Seq<u8> {
        wire::u64_bytes(order, self.nodeid)
            + wire::u64_bytes(order, self.nlookup)
    }

    #[verifier::opaque]
    open spec fn from_wire(order: ByteOrder, s: Seq<u8>) -> Self {
        FuseForgetOne {
            nodeid: wire::u64_at(order, s, 0),
            nlookup: wire::u64_at(order, s, 8),
        }
    }

    fn size() -> (n: usize) {
        16
    }

    fn encode(&self, order: ByteOrder, out: &mut Vec<u8>) {
        broadcast use wire::lemma_concat_assoc;

        proof {
            reveal(<FuseForgetOne as Wire>::to_wire);
        }
        wire::put_u64(out, order, self.nodeid);
        wire::put_u64(out, order, self.nlookup);
    }

    fn decode(order: ByteOrder, s: &[u8]) -> (r: Self) {
        proof {
            reveal(<FuseForgetOne as Wire>::from_wire);
        }
        FuseForgetOne {
            nodeid: wire::get_u64(s, order, 0),
            nlookup: wire::get_u64(s, order, 8),
        }
    }

    proof fn lemma_size(self, order: ByteOrder) {
        broadcast use wire::group_field_written;

        reveal(<FuseForgetOne as Wire>::to_wire);
    }

    proof fn lemma_decode_encode(self, order: ByteOrder, rest: Seq<u8>) {
        broadcast use wire::group_field_written;

        reveal(<FuseForgetOne as Wire>::to_wire);
        reveal(<FuseForgetOne as Wire>::from_wire);
    }

    proof fn lemma_encode_decode(order: ByteOrder, s: Seq<u8>) {
        broadcast use wire::group_field_read;

        reveal(<FuseForgetOne as Wire>::to_wire);
        reveal(<FuseForgetOne as Wire>::from_wire);
        assert(s.subrange(0, 16) =~= s);
    }
}

impl Wire for FuseSetattrIn {
    open spec fn wire_size() -> nat {
        88
    }

    #[verifier::opaque]
    open spec fn to_wire(self, order: ByteOrder) -> Seq<u8> {
        wire::u32_bytes(order, self.valid)
            + wire::u32_bytes(order, self.padding)
            + wire::u64_bytes(order, self.fh)
            + wire::u64_bytes(order, self.size)
            + wire::u64_bytes(order, self.lock_owner)
            + wire::u64_bytes(order, self.atime)
            + wire::u64_bytes(order, self.mtime)
            + wire::u64_bytes(order, self.ctime)
            + wire::u32_bytes(order, self.atimensec)
            + wire::u32_bytes(order, self.mtimensec)
            + wire::u32_bytes(order, self.ctimensec)
            + wire::u32_bytes(order, self.mode)
            + wire::u32_bytes(order, self.unused4)
            + wire::u32_bytes(order, self.uid)
            + wire::u32_bytes(order, self.gid)
            + wire::u32_bytes(order, self.unused5)
    }

    #[verifier::opaque]
    open spec fn from_wire(order: ByteOrder, s: Seq<u8>) -> Self {
        FuseSetattrIn {
            valid: wire::u32_at(order, s, 0),
            padding: wire::u32_at(order, s, 4),
            fh: wire::u64_at(order, s, 8),
            size: wire::u64_at(order, s, 16),
            lock_owner: wire::u64_at(order, s, 24),
            atime: wire::u64_at(order, s, 32),
            mtime: wire::u64_at(order, s, 40),
            ctime: wire::u64_at(order, s, 48),
            atimensec: wire::u32_at(order, s, 56),
            mtimensec: wire::u32_at(order, s, 60),
            ctimensec: wire::u32_at(order, s, 64),
            mode: wire::u32_at(order, s, 68),
            unused4: wire::u32_at(order, s, 72),
            uid: wire::u32_at(order, s, 76),
            gid: wire::u32_at(order, s, 80),
            unused5: wire::u32_at(order, s, 84),
        }
    }

    fn size() -> (n: usize) {
        88
    }

    fn encode(&self, order: ByteOrder, out: &mut Vec<u8>) {
        broadcast use wire::lemma_concat_assoc;

        proof {
            reveal(<FuseSetattrIn as Wire>::to_wire);
        }
        wire::put_u32(out, order, self.valid);
        wire::put_u32(out, order, self.padding);
        wire::put_u64(out, order, self.fh);
        wire::put_u64(out, order, self.size);
        wire::put_u64(out, order, self.lock_owner);
        wire::put_u64(out, order, self.atime);
        wire::put_u64(out, order, self.mtime);
        wire::put_u64(out, order, self.ctime);
        wire::put_u32(out, order, self.atimensec);
        wire::put_u32(out, order, self.mtimensec);
        wire::put_u32(out, order, self.ctimensec);
        wire::put_u32(out, order, self.mode);
        wire::put_u32(out, order, self.unused4);
        wire::put_u32(out, order, self.uid);
        wire::put_u32(out, order, self.gid);
        wire::put_u32(out, order, self.unused5);
    }

    fn decode(order: ByteOrder, s: &[u8]) -> (r: Self) {
        proof {
            reveal(<FuseSetattrIn as Wire>::from_wire);
        }
        FuseSetattrIn {
            valid: wire::get_u32(s, order, 0),
            padding: wire::get_u32(s, order, 4),
            fh: wire::get_u64(s, order, 8),
            size: wire::get_u64(s, order, 16),
            lock_owner: wire::get_u64(s, order, 24),
            atime: wire::get_u64(s, order, 32),
            mtime: wire::get_u64(s, order, 40),
            ctime: wire::get_u64(s, order, 48),
            atimensec: wire::get_u32(s, order, 56),
            mtimensec: wire::get_u32(s, order, 60),
            ctimensec: wire::get_u32(s, order, 64),
            mode: wire::get_u32(s, order, 68),
            unused4: wire::get_u32(s, order, 72),
            uid: wire::get_u32(s, order, 76),
            gid: wire::get_u32(s, order, 80),
            unused5: wire::get_u32(s, order, 84),
        }
    }

    proof fn lemma_size(self, order: ByteOrder) {
        broadcast use wire::group_field_written;

        reveal(<FuseSetattrIn as Wire>::to_wire);
    }

    proof fn lemma_decode_encode(self, order: ByteOrder, rest: Seq<u8>) {
        broadcast use wire::group_field_written;

        reveal(<FuseSetattrIn as Wire>::to_wire);
        reveal(<FuseSetattrIn as Wire>::from_wire);
    }

    proof fn lemma_encode_decode(order: ByteOrder, s: Seq<u8>) {
        broadcast use wire::group_field_read;

        reveal(<FuseSetattrIn as Wire>::to_wire);
        reveal(<FuseSetattrIn as Wire>::from_wire);
        assert(s.subrange(0, 88) =~= s);
    }
}

impl Wire for FuseOpenIn {
    open spec fn wire_size() -> nat {
        8
    }

    #[verifier::opaque]
    open spec fn to_wire(self, order: ByteOrder) -> Seq<u8> {
        wire::u32_bytes(order, self.flags)
            + wire::u32_bytes(order, self.open_flags)
    }

    #[verifier::opaque]
    open spec fn from_wire(order: ByteOrder, s: Seq<u8>) -> Self {
        FuseOpenIn {
            flags: wire::u32_at(order, s, 0),
            open_flags: wire::u32_at(order, s, 4),
        }
    }

    fn size() -> (n: usize) {
        8
    }

    fn encode(&self, order: ByteOrder, out: &mut Vec<u8>) {
        broadcast use wire::lemma_concat_assoc;

        proof {
            reveal(<FuseOpenIn as Wire>::to_wire);
        }
        wire::put_u32(out, order, self.flags);
        wire::put_u32(out, order, self.open_flags);
    }

    fn decode(order: ByteOrder, s: &[u8]) -> (r: Self) {
        proof {
            reveal(<FuseOpenIn as Wire>::from_wire);
        }
        FuseOpenIn {
            flags: wire::get_u32(s, order, 0),
            open_flags: wire::get_u32(s, order, 4),
        }
    }

    proof fn lemma_size(self, order: ByteOrder) {
        broadcast use wire::group_field_written;

        reveal(<FuseOpenIn as Wire>::to_wire);
    }

    proof fn lemma_decode_encode(self, order: ByteOrder, rest: Seq<u8>) {
        broadcast use wire::group_field_written;

        reveal(<FuseOpenIn as Wire>::to_wire);
        reveal(<FuseOpenIn as Wire>::from_wire);
    }

    proof fn lemma_encode_decode(order: ByteOrder, s: Seq<u8>) {
        broadcast use wire::group_field_read;

        reveal(<FuseOpenIn as Wire>::to_wire);
        reveal(<FuseOpenIn as Wire>::from_wire);
        assert(s.subrange(0, 8) =~= s);
    }
}

impl Wire for FuseOpenOut {
    open spec fn wire_size() -> nat {
        16
    }

    #[verifier::opaque]
    open spec fn to_wire(self, order: ByteOrder) -> Seq<u8> {
        wire::u64_bytes(order, self.fh)
            + wire::u32_bytes(order, self.open_flags)
            + wire::i32_bytes(order, self.backing_id)
    }

    #[verifier::opaque]
    open spec fn from_wire(order: ByteOrder, s: Seq<u8>) -> Self {
        FuseOpenOut {
            fh: wire::u64_at(order, s, 0),
            open_flags: wire::u32_at(order, s, 8),
            backing_id: wire::i32_at(order, s, 12),
        }
    }

    fn size() -> (n: usize) {
        16
    }

    fn encode(&self, order: ByteOrder, out: &mut Vec<u8>) {
        broadcast use wire::lemma_concat_assoc;

        proof {
            reveal(<FuseOpenOut as Wire>::to_wire);
        }
        wire::put_u64(out, order, self.fh);
        wire::put_u32(out, order, self.open_flags);
        wire::put_i32(out, order, self.backing_id);
    }

    fn decode(order: ByteOrder, s: &[u8]) -> (r: Self) {
        proof {
            reveal(<FuseOpenOut as Wire>::from_wire);
        }
        FuseOpenOut {
            fh: wire::get_u64(s, order, 0),
            open_flags: wire::get_u32(s, order, 8),
            backing_id: wire::get_i32(s, order, 12),
        }
    }

    proof fn lemma_size(self, order: ByteOrder) {
        broadcast use wire::group_field_written;

        reveal(<FuseOpenOut as Wire>::to_wire);
    }

    proof fn lemma_decode_encode(self, order: ByteOrder, rest: Seq<u8>) {
        broadcast use wire::group_field_written;

        reveal(<FuseOpenOut as Wire>::to_wire);
        reveal(<FuseOpenOut as Wire>::from_wire);
    }

    proof fn lemma_encode_decode(order: ByteOrder, s: Seq<u8>) {
        broadcast use wire::group_field_read;

        reveal(<FuseOpenOut as Wire>::to_wire);
        reveal(<FuseOpenOut as Wire>::from_wire);
        assert(s.subrange(0, 16) =~= s);
    }
}

impl Wire for FuseCreateIn {
    open spec fn wire_size() -> nat {
        16
    }

    #[verifier::opaque]
    open spec fn to_wire(self, order: ByteOrder) -> Seq<u8> {
        wire::u32_bytes(order, self.flags)
            + wire::u32_bytes(order, self.mode)
            + wire::u32_bytes(order, self.umask)
            + wire::u32_bytes(order, self.open_flags)
    }

    #[verifier::opaque]
    open spec fn from_wire(order: ByteOrder, s: Seq<u8>) -> Self {
        FuseCreateIn {
            flags: wire::u32_at(order, s, 0),
            mode: wire::u32_at(order, s, 4),
            umask: wire::u32_at(order, s, 8),
            open_flags: wire::u32_at(order, s, 12),
        }
    }

    fn size() -> (n: usize) {
        16
    }

    fn encode(&self, order: ByteOrder, out: &mut Vec<u8>) {
        broadcast use wire::lemma_concat_assoc;

        proof {
            reveal(<FuseCreateIn as Wire>::to_wire);
        }
        wire::put_u32(out, order, self.flags);
        wire::put_u32(out, order, self.mode);
        wire::put_u32(out, order, self.umask);
        wire::put_u32(out, order, self.open_flags);
    }

    fn decode(order: ByteOrder, s: &[u8]) -> (r: Self) {
        proof {
            reveal(<FuseCreateIn as Wire>::from_wire);
        }
        FuseCreateIn {
            flags: wire::get_u32(s, order, 0),
            mode: wire::get_u32(s, order, 4),
            umask: wire::get_u32(s, order, 8),
            open_flags: wire::get_u32(s, order, 12),
        }
    }

    proof fn lemma_size(self, order: ByteOrder) {
        broadcast use wire::group_field_written;

        reveal(<FuseCreateIn as Wire>::to_wire);
    }

    proof fn lemma_decode_encode(self, order: ByteOrder, rest: Seq<u8>) {
        broadcast use wire::group_field_written;

        reveal(<FuseCreateIn as Wire>::to_wire);
        reveal(<FuseCreateIn as Wire>::from_wire);
    }

    proof fn lemma_encode_decode(order: ByteOrder, s: Seq<u8>) {
        broadcast use wire::group_field_read;

        reveal(<FuseCreateIn as Wire>::to_wire);
        reveal(<FuseCreateIn as Wire>::from_wire);
        assert(s.subrange(0, 16) =~= s);
    }
}

impl Wire for FuseReleaseIn {
    open spec fn wire_size() -> nat {
        24
    }

    #[verifier::opaque]
    open spec fn to_wire(self, order: ByteOrder) -> Seq<u8> {
        wire::u64_bytes(order, self.fh)
            + wire::u32_bytes(order, self.flags)
            + wire::u32_bytes(order, self.release_flags)
            + wire::u64_bytes(order, self.lock_owner)
    }

    #[verifier::opaque]
    open spec fn from_wire(order: ByteOrder, s: Seq<u8>) -> Self {
        FuseReleaseIn {
            fh: wire::u64_at(order, s, 0),
            flags: wire::u32_at(order, s, 8),
            release_flags: wire::u32_at(order, s, 12),
            lock_owner: wire::u64_at(order, s, 16),
        }
    }

    fn size() -> (n: usize) {
        24
    }

    fn encode(&self, order: ByteOrder, out: &mut Vec<u8>) {
        broadcast use wire::lemma_concat_assoc;

        proof {
            reveal(<FuseReleaseIn as Wire>::to_wire);
        }
        wire::put_u64(out, order, self.fh);
        wire::put_u32(out, order, self.flags);
        wire::put_u32(out, order, self.release_flags);
        wire::put_u64(out, order, self.lock_owner);
    }

    fn decode(order: ByteOrder, s: &[u8]) -> (r: Self) {
        proof {
            reveal(<FuseReleaseIn as Wire>::from_wire);
        }
        FuseReleaseIn {
            fh: wire::get_u64(s, order, 0),
            flags: wire::get_u32(s, order, 8),
            release_flags: wire::get_u32(s, order, 12),
            lock_owner: wire::get_u64(s, order, 16),
        }
    }

    proof fn lemma_size(self, order: ByteOrder) {
        broadcast use wire::group_field_written;

        reveal(<FuseReleaseIn as Wire>::to_wire);
    }

    proof fn lemma_decode_encode(self, order: ByteOrder, rest: Seq<u8>) {
        broadcast use wire::group_field_written;

        reveal(<FuseReleaseIn as Wire>::to_wire);
        reveal(<FuseReleaseIn as Wire>::from_wire);
    }

    proof fn lemma_encode_decode(order: ByteOrder, s: Seq<u8>) {
        broadcast use wire::group_field_read;

        reveal(<FuseReleaseIn as Wire>::to_wire);
        reveal(<FuseReleaseIn as Wire>::from_wire);
        assert(s.subrange(0, 24) =~= s);
    }
}

impl Wire for FuseReadIn {
    open spec fn wire_size() -> nat {
        40
    }

    #[verifier::opaque]
    open spec fn to_wire(self, order: ByteOrder) -> Seq<u8> {
        wire::u64_bytes(order, self.fh)
            + wire::u64_bytes(order, self.offset)
            + wire::u32_bytes(order, self.size)
            + wire::u32_bytes(order, self.read_flags)
            + wire::u64_bytes(order, self.lock_owner)
            + wire::u32_bytes(order, self.flags)
            + wire::u32_bytes(order, self.padding)
    }

    #[verifier::opaque]
    open spec fn from_wire(order: ByteOrder, s: Seq<u8>) -> Self {
        FuseReadIn {
            fh: wire::u64_at(order, s, 0),
            offset: wire::u64_at(order, s, 8),
            size: wire::u32_at(order, s, 16),
            read_flags: wire::u32_at(order, s, 20),
            lock_owner: wire::u64_at(order, s, 24),
            flags: wire::u32_at(order, s, 32),
            padding: wire::u32_at(order, s, 36),
        }
    }

    fn size() -> (n: usize) {
        40
    }

    fn encode(&self, order: ByteOrder, out: &mut Vec<u8>) {
        broadcast use wire::lemma_concat_assoc;

        proof {
            reveal(<FuseReadIn as Wire>::to_wire);
        }
        wire::put_u64(out, order, self.fh);
        wire::put_u64(out, order, self.offset);
        wire::put_u32(out, order, self.size);
        wire::put_u32(out, order, self.read_flags);
        wire::put_u64(out, order, self.lock_owner);
        wire::put_u32(out, order, self.flags);
        wire::put_u32(out, order, self.padding);
    }

    fn decode(order: ByteOrder, s: &[u8]) -> (r: Self) {
        proof {
            reveal(<FuseReadIn as Wire>::from_wire);
        }
        FuseReadIn {
            fh: wire::get_u64(s, order, 0),
            offset: wire::get_u64(s, order, 8),
            size: wire::get_u32(s, order, 16),
            read_flags: wire::get_u32(s, order, 20),
            lock_owner: wire::get_u64(s, order, 24),
            flags: wire::get_u32(s, order, 32),
            padding: wire::get_u32(s, order, 36),
        }
    }

    proof fn lemma_size(self, order: ByteOrder) {
        broadcast use wire::group_field_written;

        reveal(<FuseReadIn as Wire>::to_wire);
    }

    proof fn lemma_decode_encode(self, order: ByteOrder, rest: Seq<u8>) {
        broadcast use wire::group_field_written;

        reveal(<FuseReadIn as Wire>::to_wire);
        reveal(<FuseReadIn as Wire>::from_wire);
    }

    proof fn lemma_encode_decode(order: ByteOrder, s: Seq<u8>) {
        broadcast use wire::group_field_read;

        reveal(<FuseReadIn as Wire>::to_wire);
        reveal(<FuseReadIn as Wire>::from_wire);
        assert(s.subrange(0, 40) =~= s);
    }
}

impl Wire for FuseWriteIn {
    open spec fn wire_size() -> nat {
        40
    }

    #[verifier::opaque]
    open spec fn to_wire(self, order: ByteOrder) -> Seq<u8> {
        wire::u64_bytes(order, self.fh)
            + wire::u64_bytes(order, self.offset)
            + wire::u32_bytes(order, self.size)
            + wire::u32_bytes(order, self.write_flags)
            + wire::u64_bytes(order, self.lock_owner)
            + wire::u32_bytes(order, self.flags)
            + wire::u32_bytes(order, self.padding)
    }

    #[verifier::opaque]
    open spec fn from_wire(order: ByteOrder, s: Seq<u8>) -> Self {
        FuseWriteIn {
            fh: wire::u64_at(order, s, 0),
            offset: wire::u64_at(order, s, 8),
            size: wire::u32_at(order, s, 16),
            write_flags: wire::u32_at(order, s, 20),
            lock_owner: wire::u64_at(order, s, 24),
            flags: wire::u32_at(order, s, 32),
            padding: wire::u32_at(order, s, 36),
        }
    }

    fn size() -> (n: usize) {
        40
    }

    fn encode(&self, order: ByteOrder, out: &mut Vec<u8>) {
        broadcast use wire::lemma_concat_assoc;

        proof {
            reveal(<FuseWriteIn as Wire>::to_wire);
        }
        wire::put_u64(out, order, self.fh);
        wire::put_u64(out, order, self.offset);
        wire::put_u32(out, order, self.size);
        wire::put_u32(out, order, self.write_flags);
        wire::put_u64(out, order, self.lock_owner);
        wire::put_u32(out, order, self.flags);
        wire::put_u32(out, order, self.padding);
    }

    fn decode(order: ByteOrder, s: &[u8]) -> (r: Self) {
        proof {
            reveal(<FuseWriteIn as Wire>::from_wire);
        }
        FuseWriteIn {
            fh: wire::get_u64(s, order, 0),
            offset: wire::get_u64(s, order, 8),
            size: wire::get_u32(s, order, 16),
            write_flags: wire::get_u32(s, order, 20),
            lock_owner: wire::get_u64(s, order, 24),
            flags: wire::get_u32(s, order, 32),
            padding: wire::get_u32(s, order, 36),
        }
    }

    proof fn lemma_size(self, order: ByteOrder) {
        broadcast use wire::group_field_written;

        reveal(<FuseWriteIn as Wire>::to_wire);
    }

    proof fn lemma_decode_encode(self, order: ByteOrder, rest: Seq<u8>) {
        broadcast use wire::group_field_written;

        reveal(<FuseWriteIn as Wire>::to_wire);
        reveal(<FuseWriteIn as Wire>::from_wire);
    }

    proof fn lemma_encode_decode(order: ByteOrder, s: Seq<u8>) {
        broadcast use wire::group_field_read;

        reveal(<FuseWriteIn as Wire>::to_wire);
        reveal(<FuseWriteIn as Wire>::from_wire);
        assert(s.subrange(0, 40) =~= s);
    }
}

impl Wire for FuseWriteOut {
    open spec fn wire_size() -> nat {
        8
    }

    #[verifier::opaque]
    open spec fn to_wire(self, order: ByteOrder) -> Seq<u8> {
        wire::u32_bytes(order, self.size)
            + wire::u32_bytes(order, self.padding)
    }

    #[verifier::opaque]
    open spec fn from_wire(order: ByteOrder, s: Seq<u8>) -> Self {
        FuseWriteOut {
            size: wire::u32_at(order, s, 0),
            padding: wire::u32_at(order, s, 4),
        }
    }

    fn size() -> (n: usize) {
        8
    }

    fn encode(&self, order: ByteOrder, out: &mut Vec<u8>) {
        broadcast use wire::lemma_concat_assoc;

        proof {
            reveal(<FuseWriteOut as Wire>::to_wire);
        }
        wire::put_u32(out, order, self.size);
        wire::put_u32(out, order, self.padding);
    }

    fn decode(order: ByteOrder, s: &[u8]) -> (r: Self) {
        proof {
            reveal(<FuseWriteOut as Wire>::from_wire);
        }
        FuseWriteOut {
            size: wire::get_u32(s, order, 0),
            padding: wire::get_u32(s, order, 4),
        }
    }

    proof fn lemma_size(self, order: ByteOrder) {
        broadcast use wire::group_field_written;

        reveal(<FuseWriteOut as Wire>::to_wire);
    }

    proof fn lemma_decode_encode(self, order: ByteOrder, rest: Seq<u8>) {
        broadcast use wire::group_field_written;

        reveal(<FuseWriteOut as Wire>::to_wire);
        reveal(<FuseWriteOut as Wire>::from_wire);
    }

    proof fn lemma_encode_decode(order: ByteOrder, s: Seq<u8>) {
        broadcast use wire::group_field_read;

        reveal(<FuseWriteOut as Wire>::to_wire);
        reveal(<FuseWriteOut as Wire>::from_wire);
        assert(s.subrange(0, 8) =~= s);
    }
}

impl Wire for FuseMknodIn {
    open spec fn wire_size() -> nat {
        16
    }

    #[verifier::opaque]
    open spec fn to_wire(self, order: ByteOrder) -> Seq<u8> {
        wire::u32_bytes(order, self.mode)
            + wire::u32_bytes(order, self.rdev)
            + wire::u32_bytes(order, self.umask)
            + wire::u32_bytes(order, self.padding)
    }

    #[verifier::opaque]
    open spec fn from_wire(order: ByteOrder, s: Seq<u8>) -> Self {
        FuseMknodIn {
            mode: wire::u32_at(order, s, 0),
            rdev: wire::u32_at(order, s, 4),
            umask: wire::u32_at(order, s, 8),
            padding: wire::u32_at(order, s, 12),
        }
    }

    fn size() -> (n: usize) {
        16
    }

    fn encode(&self, order: ByteOrder, out: &mut Vec<u8>) {
        broadcast use wire::lemma_concat_assoc;

        proof {
            reveal(<FuseMknodIn as Wire>::to_wire);
        }
        wire::put_u32(out, order, self.mode);
        wire::put_u32(out, order, self.rdev);
        wire::put_u32(out, order, self.umask);
        wire::put_u32(out, order, self.padding);
    }

    fn decode(order: ByteOrder, s: &[u8]) -> (r: Self) {
        proof {
            reveal(<FuseMknodIn as Wire>::from_wire);
        }
        FuseMknodIn {
            mode: wire::get_u32(s, order, 0),
            rdev: wire::get_u32(s, order, 4),
            umask: wire::get_u32(s, order, 8),
            padding: wire::get_u32(s, order, 12),
        }
    }

    proof fn lemma_size(self, order: ByteOrder) {
        broadcast use wire::group_field_written;

        reveal(<FuseMknodIn as Wire>::to_wire);
    }

    proof fn lemma_decode_encode(self, order: ByteOrder, rest: Seq<u8>) {
        broadcast use wire::group_field_written;

        reveal(<FuseMknodIn as Wire>::to_wire);
        reveal(<FuseMknodIn as Wire>::from_wire);
    }

    proof fn lemma_encode_decode(order: ByteOrder, s: Seq<u8>) {
        broadcast use wire::group_field_read;

        reveal(<FuseMknodIn as Wire>::to_wire);
        reveal(<FuseMknodIn as Wire>::from_wire);
        assert(s.subrange(0, 16) =~= s);
    }
}

impl Wire for FuseMkdirIn {
    open spec fn wire_size() -> nat {
        8
    }

    #[verifier::opaque]
    open spec fn to_wire(self, order: ByteOrder) -> Seq<u8> {
        wire::u32_bytes(order, self.mode)
            + wire::u32_bytes(order, self.umask)
    }

    #[verifier::opaque]
    open spec fn from_wire(order: ByteOrder, s: Seq<u8>) -> Self {
        FuseMkdirIn {
            mode: wire::u32_at(order, s, 0),
            umask: wire::u32_at(order, s, 4),
        }
    }

    fn size() -> (n: usize) {
        8
    }

    fn encode(&self, order: ByteOrder, out: &mut Vec<u8>) {
        broadcast use wire::lemma_concat_assoc;

        proof {
            reveal(<FuseMkdirIn as Wire>::to_wire);
        }
        wire::put_u32(out, order, self.mode);
        wire::put_u32(out, order, self.umask);
    }

    fn decode(order: ByteOrder, s: &[u8]) -> (r: Self) {
        proof {
            reveal(<FuseMkdirIn as Wire>::from_wire);
        }
        FuseMkdirIn {
            mode: wire::get_u32(s, order, 0),
            umask: wire::get_u32(s, order, 4),
        }
    }

    proof fn lemma_size(self, order: ByteOrder) {
        broadcast use wire::group_field_written;

        reveal(<FuseMkdirIn as Wire>::to_wire);
    }

    proof fn lemma_decode_encode(self, order: ByteOrder, rest: Seq<u8>) {
        broadcast use wire::group_field_written;

        reveal(<FuseMkdirIn as Wire>::to_wire);
        reveal(<FuseMkdirIn as Wire>::from_wire);
    }

    proof fn lemma_encode_decode(order: ByteOrder, s: Seq<u8>) {
        broadcast use wire::group_field_read;

        reveal(<FuseMkdirIn as Wire>::to_wire);
        reveal(<FuseMkdirIn as Wire>::from_wire);
        assert(s.subrange(0, 8) =~= s);
    }
}

impl Wire for FuseRename2In {
    open spec fn wire_size() -> nat {
        16
    }

    #[verifier::opaque]
    open spec fn to_wire(self, order: ByteOrder) -> Seq<u8> {
        wire::u64_bytes(order, self.newdir)
            + wire::u32_bytes(order, self.flags)
            + wire::u32_bytes(order, self.padding)
    }

    #[verifier::opaque]
    open spec fn from_wire(order: ByteOrder, s: Seq<u8>) -> Self {
        FuseRename2In {
            newdir: wire::u64_at(order, s, 0),
            flags: wire::u32_at(order, s, 8),
            padding: wire::u32_at(order, s, 12),
        }
    }

    fn size() -> (n: usize) {
        16
    }

    fn encode(&self, order: ByteOrder, out: &mut Vec<u8>) {
        broadcast use wire::lemma_concat_assoc;

        proof {
            reveal(<FuseRename2In as Wire>::to_wire);
        }
        wire::put_u64(out, order, self.newdir);
        wire::put_u32(out, order, self.flags);
        wire::put_u32(out, order, self.padding);
    }

    fn decode(order: ByteOrder, s: &[u8]) -> (r: Self) {
        proof {
            reveal(<FuseRename2In as Wire>::from_wire);
        }
        FuseRename2In {
            newdir: wire::get_u64(s, order, 0),
            flags: wire::get_u32(s, order, 8),
            padding: wire::get_u32(s, order, 12),
        }
    }

    proof fn lemma_size(self, order: ByteOrder) {
        broadcast use wire::group_field_written;

        reveal(<FuseRename2In as Wire>::to_wire);
    }

    proof fn lemma_decode_encode(self, order: ByteOrder, rest: Seq<u8>) {
        broadcast use wire::group_field_written;

        reveal(<FuseRename2In as Wire>::to_wire);
        reveal(<FuseRename2In as Wire>::from_wire);
    }

    proof fn lemma_encode_decode(order: ByteOrder, s: Seq<u8>) {
        broadcast use wire::group_field_read;

        reveal(<FuseRename2In as Wire>::to_wire);
        reveal(<FuseRename2In as Wire>::from_wire);
        assert(s.subrange(0, 16) =~= s);
    }
}

impl Wire for FuseInitIn {
    open spec fn wire_size() -> nat {
        64
    }

    #[verifier::opaque]
    open spec fn to_wire(self, order: ByteOrder) -> Seq<u8> {
        wire::u32_bytes(order, self.major)
            + wire::u32_bytes(order, self.minor)
            + wire::u32_bytes(order, self.max_readahead)
            + wire::u32_bytes(order, self.flags)
            + wire::u32_bytes(order, self.flags2)
            + wire::u32_bytes(order, self.unused[0])
            + wire::u32_bytes(order, self.unused[1])
            + wire::u32_bytes(order, self.unused[2])
            + wire::u32_bytes(order, self.unused[3])
            + wire::u32_bytes(order, self.unused[4])
            + wire::u32_bytes(order, self.unused[5])
            + wire::u32_bytes(order, self.unused[6])
            + wire::u32_bytes(order, self.unused[7])
            + wire::u32_bytes(order, self.unused[8])
            + wire::u32_bytes(order, self.unused[9])
            + wire::u32_bytes(order, self.unused[10])
    }

    #[verifier::opaque]
    open spec fn from_wire(order: ByteOrder, s: Seq<u8>) -> Self {
        FuseInitIn {
            major: wire::u32_at(order, s, 0),
            minor: wire::u32_at(order, s, 4),
            max_readahead: wire::u32_at(order, s, 8),
            flags: wire::u32_at(order, s, 12),
            flags2: wire::u32_at(order, s, 16),
            unused: [
                wire::u32_at(order, s, 20),
                wire::u32_at(order, s, 24),
                wire::u32_at(order, s, 28),
                wire::u32_at(order, s, 32),
                wire::u32_at(order, s, 36),
                wire::u32_at(order, s, 40),
                wire::u32_at(order, s, 44),
                wire::u32_at(order, s, 48),
                wire::u32_at(order, s, 52),
                wire::u32_at(order, s, 56),
                wire::u32_at(order, s, 60),
            ],
        }
    }

    fn size() -> (n: usize) {
        64
    }

    fn encode(&self, order: ByteOrder, out: &mut Vec<u8>) {
        broadcast use wire::lemma_concat_assoc;

        proof {
            reveal(<FuseInitIn as Wire>::to_wire);
        }
        wire::put_u32(out, order, self.major);
        wire::put_u32(out, order, self.minor);
        wire::put_u32(out, order, self.max_readahead);
        wire::put_u32(out, order, self.flags);
        wire::put_u32(out, order, self.flags2);
        wire::put_u32(out, order, self.unused[0]);
        wire::put_u32(out, order, self.unused[1]);
        wire::put_u32(out, order, self.unused[2]);
        wire::put_u32(out, order, self.unused[3]);
        wire::put_u32(out, order, self.unused[4]);
        wire::put_u32(out, order, self.unused[5]);
        wire::put_u32(out, order, self.unused[6]);
        wire::put_u32(out, order, self.unused[7]);
        wire::put_u32(out, order, self.unused[8]);
        wire::put_u32(out, order, self.unused[9]);
        wire::put_u32(out, order, self.unused[10]);
    }

    fn decode(order: ByteOrder, s: &[u8]) -> (r: Self) {
        proof {
            reveal(<FuseInitIn as Wire>::from_wire);
        }
        let r = FuseInitIn {
            major: wire::get_u32(s, order, 0),
            minor: wire::get_u32(s, order, 4),
            max_readahead: wire::get_u32(s, order, 8),
            flags: wire::get_u32(s, order, 12),
            flags2: wire::get_u32(s, order, 16),
            unused: [
                wire::get_u32(s, order, 20),
                wire::get_u32(s, order, 24),
                wire::get_u32(s, order, 28),
                wire::get_u32(s, order, 32),
                wire::get_u32(s, order, 36),
                wire::get_u32(s, order, 40),
                wire::get_u32(s, order, 44),
                wire::get_u32(s, order, 48),
                wire::get_u32(s, order, 52),
                wire::get_u32(s, order, 56),
                wire::get_u32(s, order, 60),
            ],
        };
        assert(r.unused@ =~= Self::from_wire(order, s@).unused@);
        assert(r.unused =~= Self::from_wire(order, s@).unused);
        r
    }

    proof fn lemma_size(self, order: ByteOrder) {
        broadcast use wire::group_field_written;

        reveal(<FuseInitIn as Wire>::to_wire);
    }

    proof fn lemma_decode_encode(self, order: ByteOrder, rest: Seq<u8>) {
        broadcast use wire::group_field_written;

        reveal(<FuseInitIn as Wire>::to_wire);
        reveal(<FuseInitIn as Wire>::from_wire);
        let back = Self::from_wire(order, self.to_wire(order) + rest);
        assert(back.unused@ =~= self.unused@);
        assert(back.unused =~= self.unused);
    }

    proof fn lemma_encode_decode(order: ByteOrder, s: Seq<u8>) {
        broadcast use wire::group_field_read;

        reveal(<FuseInitIn as Wire>::to_wire);
        reveal(<FuseInitIn as Wire>::from_wire);
        assert(s.subrange(0, 64) =~= s);
    }
}

impl Wire for FuseInitOut {
    open spec fn wire_size() -> nat {
        64
    }

    #[verifier::opaque]
    open spec fn to_wire(self, order: ByteOrder) -> Seq<u8> {
        wire::u32_bytes(order, self.major)
            + wire::u32_bytes(order, self.minor)
            + wire::u32_bytes(order, self.max_readahead)
            + wire::u32_bytes(order, self.flags)
            + wire::u16_bytes(order, self.max_background)
            + wire::u16_bytes(order, self.congestion_threshold)
            + wire::u32_bytes(order, self.max_write)
            + wire::u32_bytes(order, self.time_gran)
            + wire::u16_bytes(order, self.max_pages)
            + wire::u16_bytes(order, self.map_alignment)
            + wire::u32_bytes(order, self.flags2)
            + wire::u32_bytes(order, self.max_stack_depth)
            + wire::u16_bytes(order, self.request_timeout)
            + wire::u16_bytes(order, self.unused[0])
            + wire::u16_bytes(order, self.unused[1])
            + wire::u16_bytes(order, self.unused[2])
            + wire::u16_bytes(order, self.unused[3])
            + wire::u16_bytes(order, self.unused[4])
            + wire::u16_bytes(order, self.unused[5])
            + wire::u16_bytes(order, self.unused[6])
            + wire::u16_bytes(order, self.unused[7])
            + wire::u16_bytes(order, self.unused[8])
            + wire::u16_bytes(order, self.unused[9])
            + wire::u16_bytes(order, self.unused[10])
    }

    #[verifier::opaque]
    open spec fn from_wire(order: ByteOrder, s: Seq<u8>) -> Self {
        FuseInitOut {
            major: wire::u32_at(order, s, 0),
            minor: wire::u32_at(order, s, 4),
            max_readahead: wire::u32_at(order, s, 8),
            flags: wire::u32_at(order, s, 12),
            max_background: wire::u16_at(order, s, 16),
            congestion_threshold: wire::u16_at(order, s, 18),
            max_write: wire::u32_at(order, s, 20),
            time_gran: wire::u32_at(order, s, 24),
            max_pages: wire::u16_at(order, s, 28),
            map_alignment: wire::u16_at(order, s, 30),
            flags2: wire::u32_at(order, s, 32),
            max_stack_depth: wire::u32_at(order, s, 36),
            request_timeout: wire::u16_at(order, s, 40),
            unused: [
                wire::u16_at(order, s, 42),
                wire::u16_at(order, s, 44),
                wire::u16_at(order, s, 46),
                wire::u16_at(order, s, 48),
                wire::u16_at(order, s, 50),
                wire::u16_at(order, s, 52),
                wire::u16_at(order, s, 54),
                wire::u16_at(order, s, 56),
                wire::u16_at(order, s, 58),
                wire::u16_at(order, s, 60),
                wire::u16_at(order, s, 62),
            ],
        }
    }

    fn size() -> (n: usize) {
        64
    }

    fn encode(&self, order: ByteOrder, out: &mut Vec<u8>) {
        broadcast use wire::lemma_concat_assoc;

        proof {
            reveal(<FuseInitOut as Wire>::to_wire);
        }
        wire::put_u32(out, order, self.major);
        wire::put_u32(out, order, self.minor);
        wire::put_u32(out, order, self.max_readahead);
        wire::put_u32(out, order, self.flags);
        wire::put_u16(out, order, self.max_background);
        wire::put_u16(out, order, self.congestion_threshold);
        wire::put_u32(out, order, self.max_write);
        wire::put_u32(out, order, self.time_gran);
        wire::put_u16(out, order, self.max_pages);
        wire::put_u16(out, order, self.map_alignment);
        wire::put_u32(out, order, self.flags2);
        wire::put_u32(out, order, self.max_stack_depth);
        wire::put_u16(out, order, self.request_timeout);
        wire::put_u16(out, order, self.unused[0]);
        wire::put_u16(out, order, self.unused[1]);
        wire::put_u16(out, order, self.unused[2]);
        wire::put_u16(out, order, self.unused[3]);
        wire::put_u16(out, order, self.unused[4]);
        wire::put_u16(out, order, self.unused[5]);
        wire::put_u16(out, order, self.unused[6]);
        wire::put_u16(out, order, self.unused[7]);
        wire::put_u16(out, order, self.unused[8]);
        wire::put_u16(out, order, self.unused[9]);
        wire::put_u16(out, order, self.unused[10]);
    }

    fn decode(order: ByteOrder, s: &[u8]) -> (r: Self) {
        proof {
            reveal(<FuseInitOut as Wire>::from_wire);
        }
        let r = FuseInitOut {
            major: wire::get_u32(s, order, 0),
            minor: wire::get_u32(s, order, 4),
            max_readahead: wire::get_u32(s, order, 8),
            flags: wire::get_u32(s, order, 12),
            max_background: wire::get_u16(s, order, 16),
            congestion_threshold: wire::get_u16(s, order, 18),
            max_write: wire::get_u32(s, order, 20),
            time_gran: wire::get_u32(s, order, 24),
            max_pages: wire::get_u16(s, order, 28),
            map_alignment: wire::get_u16(s, order, 30),
            flags2: wire::get_u32(s, order, 32),
            max_stack_depth: wire::get_u32(s, order, 36),
            request_timeout: wire::get_u16(s, order, 40),
            unused: [
                wire::get_u16(s, order, 42),
                wire::get_u16(s, order, 44),
                wire::get_u16(s, order, 46),
                wire::get_u16(s, order, 48),
                wire::get_u16(s, order, 50),
                wire::get_u16(s, order, 52),
                wire::get_u16(s, order, 54),
                wire::get_u16(s, order, 56),
                wire::get_u16(s, order, 58),
                wire::get_u16(s, order, 60),
                wire::get_u16(s, order, 62),
            ],
        };
        assert(r.unused@ =~= Self::from_wire(order, s@).unused@);
        assert(r.unused =~= Self::from_wire(order, s@).unused);
        r
    }

    proof fn lemma_size(self, order: ByteOrder) {
        broadcast use wire::group_field_written;

        reveal(<FuseInitOut as Wire>::to_wire);
    }

    proof fn lemma_decode_encode(self, order: ByteOrder, rest: Seq<u8>) {
        broadcast use wire::group_field_written;

        reveal(<FuseInitOut as Wire>::to_wire);
        reveal(<FuseInitOut as Wire>::from_wire);
        let back = Self::from_wire(order, self.to_wire(order) + rest);
        assert(back.unused@ =~= self.unused@);
        assert(back.unused =~= self.unused);
    }

    proof fn lemma_encode_decode(order: ByteOrder, s: Seq<u8>) {
        broadcast use wire::group_field_read;

        reveal(<FuseInitOut as Wire>::to_wire);
        reveal(<FuseInitOut as Wire>::from_wire);
        assert(s.subrange(0, 64) =~= s);
    }
}

impl Wire for FuseGetxattrIn {
    open spec fn wire_size() -> nat {
        8
    }

    #[verifier::opaque]
    open spec fn to_wire(self, order: ByteOrder) -> Seq<u8> {
        wire::u32_bytes(order, self.size)
            + wire::u32_bytes(order, self.padding)
    }

    #[verifier::opaque]
    open spec fn from_wire(order: ByteOrder, s: Seq<u8>) -> Self {
        FuseGetxattrIn {
            size: wire::u32_at(order, s, 0),
            padding: wire::u32_at(order, s, 4),
        }
    }

    fn size() -> (n: usize) {
        8
    }

    fn encode(&self, order: ByteOrder, out: &mut Vec<u8>) {
        broadcast use wire::lemma_concat_assoc;

        proof {
            reveal(<FuseGetxattrIn as Wire>::to_wire);
        }
        wire::put_u32(out, order, self.size);
        wire::put_u32(out, order, self.padding);
    }

    fn decode(order: ByteOrder, s: &[u8]) -> (r: Self) {
        proof {
            reveal(<FuseGetxattrIn as Wire>::from_wire);
        }
        FuseGetxattrIn {
            size: wire::get_u32(s, order, 0),
            padding: wire::get_u32(s, order, 4),
        }
    }

    proof fn lemma_size(self, order: ByteOrder) {
        broadcast use wire::group_field_written;

        reveal(<FuseGetxattrIn as Wire>::to_wire);
    }

    proof fn lemma_decode_encode(self, order: ByteOrder, rest: Seq<u8>) {
        broadcast use wire::group_field_written;

        reveal(<FuseGetxattrIn as Wire>::to_wire);
        reveal(<FuseGetxattrIn as Wire>::from_wire);
    }

    proof fn lemma_encode_decode(order: ByteOrder, s: Seq<u8>) {
        broadcast use wire::group_field_read;

        reveal(<FuseGetxattrIn as Wire>::to_wire);
        reveal(<FuseGetxattrIn as Wire>::from_wire);
        assert(s.subrange(0, 8) =~= s);
    }
}

impl Wire for FuseGetxattrOut {
    open spec fn wire_size() -> nat {
        8
    }

    #[verifier::opaque]
    open spec fn to_wire(self, order: ByteOrder) -> Seq<u8> {
        wire::u32_bytes(order, self.size)
            + wire::u32_bytes(order, self.padding)
    }

    #[verifier::opaque]
    open spec fn from_wire(order: ByteOrder, s: Seq<u8>) -> Self {
        FuseGetxattrOut {
            size: wire::u32_at(order, s, 0),
            padding: wire::u32_at(order, s, 4),
        }
    }

    fn size() -> (n: usize) {
        8
    }

    fn encode(&self, order: ByteOrder, out: &mut Vec<u8>) {
        broadcast use wire::lemma_concat_assoc;

        proof {
            reveal(<FuseGetxattrOut as Wire>::to_wire);
        }
        wire::put_u32(out, order, self.size);
        wire::put_u32(out, order, self.padding);
    }

    fn decode(order: ByteOrder, s: &[u8]) -> (r: Self) {
        proof {
            reveal(<FuseGetxattrOut as Wire>::from_wire);
        }
        FuseGetxattrOut {
            size: wire::get_u32(s, order, 0),
            padding: wire::get_u32(s, order, 4),
        }
    }

    proof fn lemma_size(self, order: ByteOrder) {
        broadcast use wire::group_field_written;

        reveal(<FuseGetxattrOut as Wire>::to_wire);
    }

    proof fn lemma_decode_encode(self, order: ByteOrder, rest: Seq<u8>) {
        broadcast use wire::group_field_written;

        reveal(<FuseGetxattrOut as Wire>::to_wire);
        reveal(<FuseGetxattrOut as Wire>::from_wire);
    }

    proof fn lemma_encode_decode(order: ByteOrder, s: Seq<u8>) {
        broadcast use wire::group_field_read;

        reveal(<FuseGetxattrOut as Wire>::to_wire);
        reveal(<FuseGetxattrOut as Wire>::from_wire);
        assert(s.subrange(0, 8) =~= s);
    }
}

impl Wire for FuseDirent {
    open spec fn wire_size() -> nat {
        24
    }

    #[verifier::opaque]
    open spec fn to_wire(self, order: ByteOrder) -> Seq<u8> {
        wire::u64_bytes(order, self.ino)
            + wire::u64_bytes(order, self.off)
            + wire::u32_bytes(order, self.namelen)
            + wire::u32_bytes(order, self.typ)
    }

    #[verifier::opaque]
    open spec fn from_wire(order: ByteOrder, s: Seq<u8>) -> Self {
        FuseDirent {
            ino: wire::u64_at(order, s, 0),
            off: wire::u64_at(order, s, 8),
            namelen: wire::u32_at(order, s, 16),
            typ: wire::u32_at(order, s, 20),
        }
    }

    fn size() -> (n: usize) {
        24
    }

    fn encode(&self, order: ByteOrder, out: &mut Vec<u8>) {
        broadcast use wire::lemma_concat_assoc;

        proof {
            reveal(<FuseDirent as Wire>::to_wire);
        }
        wire::put_u64(out, order, self.ino);
        wire::put_u64(out, order, self.off);
        wire::put_u32(out, order, self.namelen);
        wire::put_u32(out, order, self.typ);
    }

    fn decode(order: ByteOrder, s: &[u8]) -> (r: Self) {
        proof {
            reveal(<FuseDirent as Wire>::from_wire);
        }
        FuseDirent {
            ino: wire::get_u64(s, order, 0),
            off: wire::get_u64(s, order, 8),
            namelen: wire::get_u32(s, order, 16),
            typ: wire::get_u32(s, order, 20),
        }
    }

    proof fn lemma_size(self, order: ByteOrder) {
        broadcast use wire::group_field_written;

        reveal(<FuseDirent as Wire>::to_wire);
    }

    proof fn lemma_decode_encode(self, order: ByteOrder, rest: Seq<u8>) {
        broadcast use wire::group_field_written;

        reveal(<FuseDirent as Wire>::to_wire);
        reveal(<FuseDirent as Wire>::from_wire);
    }

    proof fn lemma_encode_decode(order: ByteOrder, s: Seq<u8>) {
        broadcast use wire::group_field_read;

        reveal(<FuseDirent as Wire>::to_wire);
        reveal(<FuseDirent as Wire>::from_wire);
        assert(s.subrange(0, 24) =~= s);
    }
}

} // verus!
