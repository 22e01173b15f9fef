use std::fmt::Debug;

use proxmox_fuse::protocol::{
    FuseAttr, FuseAttrOut, FuseBatchForgetIn, FuseCreateIn, FuseDirent, FuseEntryOut, FuseForgetIn,
    FuseForgetOne, FuseGetxattrIn, FuseGetxattrOut, FuseInHeader, FuseInitIn, FuseInitOut,
    FuseKstatfs, FuseMkdirIn, FuseMknodIn, FuseOpenIn, FuseOpenOut, FuseOutHeader, FuseReadIn,
    FuseReleaseIn, FuseRename2In, FuseSetattrIn, FuseWriteIn, FuseWriteOut,
};
use proxmox_fuse::wire::{
    as_bytes, get_i32, get_u16, get_u32, get_u64, put_i32, put_u16, put_u32, put_u64, ByteOrder,
    Wire,
};

#[test]
fn as_bytes_roundtrip() {
    let header = FuseOutHeader { len: 16, error: -2, unique: 0xDEAD_BEEF };
    for order in [ByteOrder::Little, ByteOrder::Big] {
        let bytes = as_bytes(order, &header);
        assert_eq!(bytes.len(), FuseOutHeader::size());

        let recovered = FuseOutHeader::decode(order, &bytes);
        assert_eq!(recovered.len, 16);
        assert_eq!(recovered.error, -2);
        assert_eq!(recovered.unique, 0xDEAD_BEEF);
    }
}

#[test]
fn native_layout() {
    // The bytes are those that the machine itself keeps in memory.
    let order = if cfg_little() { ByteOrder::Little } else { ByteOrder::Big };
    let mut out = Vec::new();
    put_u16(&mut out, order, 0x0102);
    put_u32(&mut out, order, 0x0304_0506);
    put_u64(&mut out, order, 0x0708_090a_0b0c_0d0e);
    put_i32(&mut out, order, -3);
    let mut expected = Vec::new();
    expected.extend_from_slice(&0x0102u16.to_ne_bytes());
    expected.extend_from_slice(&0x0304_0506u32.to_ne_bytes());
    expected.extend_from_slice(&0x0708_090a_0b0c_0d0eu64.to_ne_bytes());
    expected.extend_from_slice(&(-3i32).to_ne_bytes());
    assert_eq!(out, expected);
}

fn cfg_little() -> bool {
    1u16.to_ne_bytes()[0] == 1
}

#[test]
fn integers_in_both_orders() {
    let mut out = Vec::new();
    put_u32(&mut out, ByteOrder::Little, 0x0102_0304);
    put_u32(&mut out, ByteOrder::Big, 0x0102_0304);
    assert_eq!(out, [4, 3, 2, 1, 1, 2, 3, 4]);
    assert_eq!(get_u32(&out, ByteOrder::Little, 0), 0x0102_0304);
    assert_eq!(get_u32(&out, ByteOrder::Big, 4), 0x0102_0304);
    assert_eq!(get_u32(&out, ByteOrder::Big, 2), 0x0201_0102);
    assert_eq!(get_u16(&out, ByteOrder::Little, 1), 0x0203);
    assert_eq!(get_u64(&out, ByteOrder::Big, 0), 0x0403_0201_0102_0304);
    assert_eq!(get_i32(&[0xfe, 0xff, 0xff, 0xff], ByteOrder::Little, 0), -2);
}

#[test]
fn out_header_bytes() {
    let header = FuseOutHeader { len: 0x15, error: -38, unique: 0x0102 };
    assert_eq!(
        as_bytes(ByteOrder::Little, &header),
        [0x15, 0, 0, 0, 0xda, 0xff, 0xff, 0xff, 2, 1, 0, 0, 0, 0, 0, 0]
    );
    assert_eq!(
        as_bytes(ByteOrder::Big, &header),
        [0, 0, 0, 0x15, 0xff, 0xff, 0xff, 0xda, 0, 0, 0, 0, 0, 0, 1, 2]
    );
}

/// Reads a structure from bytes that are all different, writes it, and reads that again.
fn check<T: Wire + Debug>() {
    for order in [ByteOrder::Little, ByteOrder::Big] {
        let bytes: Vec<u8> = (0..T::size() + 5).map(|i| (i as u8).wrapping_mul(7)).collect();
        let value = T::decode(order, &bytes);
        let written = as_bytes(order, &value);
        assert_eq!(written, bytes[..T::size()]);
        let again = T::decode(order, &written);
        assert_eq!(format!("{value:?}"), format!("{again:?}"));
    }
}

#[test]
fn every_byte_belongs_to_a_field() {
    check::<FuseInHeader>();
    check::<FuseOutHeader>();
    check::<FuseAttr>();
    check::<FuseEntryOut>();
    check::<FuseAttrOut>();
    check::<FuseKstatfs>();
    check::<FuseForgetIn>();
    check::<FuseBatchForgetIn>();
    check::<FuseForgetOne>();
    check::<FuseSetattrIn>();
    check::<FuseOpenIn>();
    check::<FuseOpenOut>();
    check::<FuseCreateIn>();
    check::<FuseReleaseIn>();
    check::<FuseReadIn>();
    check::<FuseWriteIn>();
    check::<FuseWriteOut>();
    check::<FuseMknodIn>();
    check::<FuseMkdirIn>();
    check::<FuseRename2In>();
    check::<FuseInitIn>();
    check::<FuseInitOut>();
    check::<FuseGetxattrIn>();
    check::<FuseGetxattrOut>();
    check::<FuseDirent>();
}
