//! The records that the filesystem hands to the mount driver.

use vstd::prelude::*;

verus! {

/// Nanoseconds in one second.
pub const NANOS_PER_SEC: u32 = 1_000_000_000;

/// The kind of a filesystem entry.
#[derive(Clone, Copy, Debug, PartialEq, Eq, Structural)]
pub enum FileType {
    NamedPipe,
    CharDevice,
    BlockDevice,
    Directory,
    RegularFile,
    Symlink,
    Socket,
}

/// A point in time: whole seconds counted from the epoch origin, negative
/// before it, and the nanoseconds that follow them.
#[derive(Clone, Copy, Debug, PartialEq, Eq, Structural)]
pub struct Timestamp {
    pub secs: i64,
    pub nanos: u32,
}

impl Timestamp {
    /// The nanosecond part is below one second.
    pub open spec fn wf(&self) -> bool {
        self.nanos < NANOS_PER_SEC
    }

    /// The distance from the epoch origin in nanoseconds, negative before
    /// it.
    pub open spec fn total_nanos(&self) -> int {
        self.secs * (NANOS_PER_SEC as int) + self.nanos
    }

    /// The epoch origin itself.
    pub fn epoch() -> (t: Timestamp)
        ensures
            t.secs == 0,
            t.nanos == 0,
            t.wf(),
    {
        Timestamp { secs: 0, nanos: 0 }
    }
}

/// The attributes of one filesystem entry.
#[derive(Clone, Copy, Debug, PartialEq, Eq, Structural)]
pub struct FileAttr {
    /// Size in bytes.
    pub size: u64,
    /// Size in blocks.
    pub blocks: u64,
    /// Time of last access.
    pub atime: Timestamp,
    /// Time of last modification.
    pub mtime: Timestamp,
    /// Time of last metadata change.
    pub ctime: Timestamp,
    /// Time of creation.
    pub crtime: Timestamp,
    /// Kind of entry.
    pub kind: FileType,
    /// Permission bits.
    pub perm: u16,
    /// Number of hard links.
    pub nlink: u32,
    /// Owner.
    pub uid: u32,
    /// Group.
    pub gid: u32,
    /// Device id of a special file.
    pub rdev: u32,
    /// Flags.
    pub flags: u32,
}

/// The capacity of a filesystem.
#[derive(Clone, Copy, Debug, PartialEq, Eq, Structural)]
pub struct Statfs {
    /// Total data blocks.
    pub blocks: u64,
    /// Free blocks.
    pub bfree: u64,
    /// Free blocks available to an unprivileged user.
    pub bavail: u64,
    /// Total file nodes.
    pub files: u64,
    /// Free file nodes.
    pub ffree: u64,
    /// Optimal transfer block size.
    pub bsize: u32,
    /// Maximum length of a file name.
    pub namelen: u32,
    /// Fragment size.
    pub frsize: u32,
}

/// One entry of a directory listing.
#[derive(Clone, Debug)]
pub struct DirectoryEntry {
    /// The entry's name, as the bytes of the operating system.
    pub name: Vec<u8>,
    /// The entry's kind.
    pub kind: FileType,
}

} // verus!
