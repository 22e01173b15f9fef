//! File attributes, statistics and times as plain values.

use vstd::prelude::*;

verus! {

/// What `stat` reports of a file, as far as the protocol carries it.
#[derive(Debug, Clone, Copy)]
pub struct Stat {
    pub st_ino: u64,
    pub st_nlink: u64,
    pub st_mode: u32,
    pub st_uid: u32,
    pub st_gid: u32,
    pub st_rdev: u64,
    pub st_size: i64,
    pub st_blksize: i64,
    pub st_blocks: i64,
    pub st_atime: i64,
    pub st_atime_nsec: i64,
    pub st_mtime: i64,
    pub st_mtime_nsec: i64,
    pub st_ctime: i64,
    pub st_ctime_nsec: i64,
}

/// What `statvfs` reports of a filesystem, as far as the protocol carries it.
#[derive(Debug, Clone, Copy)]
pub struct StatVfs {
    pub f_bsize: u64,
    pub f_frsize: u64,
    pub f_blocks: u64,
    pub f_bfree: u64,
    pub f_bavail: u64,
    pub f_files: u64,
    pub f_ffree: u64,
    pub f_namemax: u64,
}

/// A span of time: whole seconds and the nanoseconds beyond them.
#[derive(Debug, Clone, Copy, PartialEq, Eq, Structural)]
pub struct Duration {
    pub secs: u64,
    pub nanos: u32,
}

/// How long the kernel may keep something cached, in the two parts that the protocol carries.
#[derive(Debug, Clone, Copy, PartialEq, Eq, Structural)]
pub struct Timeout {
    secs: u64,
    nsec: u32,
}

/// The two parts of a [`Timeout`].
pub struct TimeoutView {
    /// Whole seconds.
    pub secs: u64,
    /// Nanoseconds beyond them.
    pub nsec: u32,
}

impl TimeoutView {
    /// The nanoseconds are less than a second.
    pub open spec fn valid(self) -> bool {
        self.nsec < 1_000_000_000
    }

    /// The longest timeout.
    pub open spec fn longest() -> TimeoutView {
        TimeoutView { secs: u64::MAX, nsec: 999_999_999 }
    }
}

impl View for Timeout {
    type V = TimeoutView;

    closed spec fn view(&self) -> TimeoutView {
        TimeoutView { secs: self.secs, nsec: self.nsec }
    }
}

impl Timeout {
    #[verifier::type_invariant]
    spec fn well_formed(self) -> bool {
        self@.valid()
    }

    /// A timeout of these parts; `None` where the nanoseconds make up a second or more.
    pub fn new(secs: u64, nsec: u32) -> (r: Option<Timeout>)
        ensures
            r is Some <==> (TimeoutView { secs, nsec }).valid(),
            r matches Some(timeout) ==> timeout@ == (TimeoutView { secs, nsec }),
    {
        if nsec < 1_000_000_000 {
            Some(Timeout { secs, nsec })
        } else {
            None
        }
    }

    /// The longest timeout: what is cached stays valid.
    pub fn max() -> (r: Timeout)
        ensures
            r@ == TimeoutView::longest(),
    {
        Timeout { secs: u64::MAX, nsec: 999_999_999 }
    }

    /// Whole seconds.
    pub fn secs(&self) -> (r: u64)
        ensures
            r == self@.secs,
    {
        self.secs
    }

    /// Nanoseconds beyond them.
    pub fn nsec(&self) -> (r: u32)
        ensures
            r == self@.nsec,
            self@.valid(),
    {
        proof {
            use_type_invariant(self);
        }
        self.nsec
    }
}

} // verus!
