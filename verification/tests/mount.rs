use proxmox_fuse::error::{Error, EPERM};
use proxmox_fuse::mount::{
    direct_mount, direct_options, helper_options, mount_helper_args, mountpoint_cstring,
    needs_helper, received_fd, root_mode, unmount_helper_args, Ancillary, SCM_RIGHTS, SOL_SOCKET,
};

fn options() -> Vec<String> {
    vec!["allow_other".to_string(), "ro".to_string()]
}

#[test]
fn only_eperm_needs_the_helper() {
    assert!(needs_helper(&Error::Os(EPERM)));
    assert!(!needs_helper(&Error::Os(22)));
    assert!(!needs_helper(&Error::NulInOptions));
}

#[test]
fn root_modes() {
    assert_eq!(root_mode(0o40755), 0o40000);
    assert_eq!(root_mode(0o100644), 0o100000);
    assert_eq!(root_mode(0xffff_ffff), libc::S_IFMT);
}

#[test]
fn option_strings() {
    assert_eq!(
        direct_options(5, 0o40000, 0, 1000, &[]),
        "fd=5,rootmode=40000,user_id=0,group_id=1000"
    );
    assert_eq!(
        direct_options(12, 0o40000, 1000, 100, &options()),
        "fd=12,rootmode=40000,user_id=1000,group_id=100,allow_other,ro"
    );
    assert_eq!(helper_options("test", &[]), "fsname=test");
    assert_eq!(helper_options("test", &options()), "fsname=test,allow_other,ro");
}

#[test]
fn direct_mounts() {
    let mount = direct_mount(3, 0o40755, 1, 2, "caf\u{e9}", &options()).unwrap();
    assert_eq!(mount.source.to_bytes(), "caf\u{e9}".as_bytes());
    assert_eq!(
        mount.options.to_bytes(),
        b"fd=3,rootmode=40000,user_id=1,group_id=2,allow_other,ro"
    );
    let bad = vec!["a\0b".to_string()];
    assert_eq!(direct_mount(3, 0, 1, 2, "x", &bad).err(), Some(Error::NulInOptions));
    assert_eq!(direct_mount(3, 0, 1, 2, "x\0", &options()).err(), Some(Error::NulInFsname));
    assert_eq!(direct_mount(3, 0, 1, 2, "x\0", &bad).err(), Some(Error::NulInOptions));
}

#[test]
fn mount_points() {
    assert_eq!(mountpoint_cstring(b"/mnt/\xff").unwrap().to_bytes_with_nul(), b"/mnt/\xff\0");
    assert_eq!(mountpoint_cstring(b"/mnt\0").err(), Some(Error::NulInMountpoint));
}

#[test]
fn helper_arguments() {
    assert_eq!(
        mount_helper_args(b"/mnt/\xff", "test", &options()),
        [&b"-o"[..], b"fsname=test,allow_other,ro", b"--", b"/mnt/\xff"]
    );
    assert_eq!(unmount_helper_args(b"/mnt"), [&b"-u"[..], b"-q", b"-z", b"--", b"/mnt"]);
}

#[test]
fn received_descriptors() {
    let data = Ancillary { level: SOL_SOCKET, kind: SCM_RIGHTS, fd: 0 };
    assert_eq!(received_fd(Some(data)), Ok(0));
    assert_eq!(received_fd(None), Err(Error::NoDescriptor));
    assert_eq!(
        received_fd(Some(Ancillary { level: SOL_SOCKET + 1, ..data })),
        Err(Error::UnexpectedAncillary)
    );
    assert_eq!(
        received_fd(Some(Ancillary { kind: SCM_RIGHTS + 1, fd: -1, ..data })),
        Err(Error::UnexpectedAncillary)
    );
    assert_eq!(
        received_fd(Some(Ancillary { fd: -1, ..data })),
        Err(Error::InvalidDescriptor)
    );
}
