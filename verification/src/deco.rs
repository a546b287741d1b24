//! The filesystem itself: path translation, attribute translation, and the
//! reply of each operation for every outcome of the system calls made for
//! it.

use vstd::prelude::*;
use crate::libc_wrapper::{
    s_ifblk, s_ifchr, s_ifdir, s_ififo, s_iflnk, s_ifmt, s_ifreg, s_ifsock, RawStat, RawStatfs,
    SysError, S_IFBLK, S_IFCHR, S_IFDIR, S_IFIFO, S_IFLNK, S_IFMT, S_IFREG, S_IFSOCK,
};
use crate::types::{DirectoryEntry, FileAttr, FileType, Statfs, Timestamp, NANOS_PER_SEC};

verus! {

/// The byte that separates the components of a path.
pub const SEPARATOR: u8 = 47;

/// Seconds for which the kernel may keep an attribute reply.
pub const TTL_SECS: u64 = 1;

/// Mask of the permission bits of a mode.
pub const PERMISSION_MASK: u32 = 0o7777;

/// A path is absolute: it begins with the separator.
pub open spec fn is_absolute(path: Seq<u8>) -> bool {
    path.len() > 0 && path[0] == SEPARATOR
}

/// `rest` joined onto `root`: the two with exactly one separator put
/// between them, unless `root` is empty or ends with one already.
pub open spec fn join_paths(root: Seq<u8>, rest: Seq<u8>) -> Seq<u8> {
    if root.len() == 0 || root.last() == SEPARATOR {
        root + rest
    } else {
        root.push(SEPARATOR) + rest
    }
}

/// The real path of a virtual path under `root`: the virtual path without
/// its leading separator, joined onto `root`.
pub open spec fn real_path_of(root: Seq<u8>, partial: Seq<u8>) -> Seq<u8>
    recommends
        is_absolute(partial),
{
    join_paths(root, partial.subrange(1, partial.len() as int))
}

/// The kind bits of a mode are those of one of the seven kinds.
pub open spec fn is_known_mode(mode: u32) -> bool {
    let fmt = mode & S_IFMT;
    fmt == S_IFDIR || fmt == S_IFREG || fmt == S_IFLNK || fmt == S_IFBLK || fmt == S_IFCHR
        || fmt == S_IFIFO || fmt == S_IFSOCK
}

/// The kind that the kind bits of a mode stand for.
pub open spec fn filetype_of(mode: u32) -> FileType
    recommends
        is_known_mode(mode),
{
    let fmt = mode & S_IFMT;
    if fmt == S_IFDIR {
        FileType::Directory
    } else if fmt == S_IFREG {
        FileType::RegularFile
    } else if fmt == S_IFLNK {
        FileType::Symlink
    } else if fmt == S_IFBLK {
        FileType::BlockDevice
    } else if fmt == S_IFCHR {
        FileType::CharDevice
    } else if fmt == S_IFIFO {
        FileType::NamedPipe
    } else {
        FileType::Socket
    }
}

/// The kind bits that stand for a kind.
pub open spec fn format_of(kind: FileType) -> u32 {
    match kind {
        FileType::Directory => S_IFDIR,
        FileType::RegularFile => S_IFREG,
        FileType::Symlink => S_IFLNK,
        FileType::BlockDevice => S_IFBLK,
        FileType::CharDevice => S_IFCHR,
        FileType::NamedPipe => S_IFIFO,
        FileType::Socket => S_IFSOCK,
    }
}

/// The value of a signed 64-bit field as an unsigned one of the same
/// width: a negative value wraps.
pub open spec fn wrap_u64(v: i64) -> u64 {
    if v >= 0 {
        v as u64
    } else {
        (v + 0x1_0000_0000_0000_0000) as u64
    }
}

/// The low 32 bits of a field.
pub open spec fn low_u32(v: int) -> u32 {
    (v % 0x1_0000_0000) as u32
}

/// The time that a pair of seconds and nanoseconds names, before or after
/// the epoch origin, has whole seconds that a timestamp can hold.
pub open spec fn time_fits(secs: i64, nsec: i64) -> bool {
    i64::MIN <= secs + (nsec as int) / (NANOS_PER_SEC as int) <= i64::MAX
}

/// The time that lies `secs` seconds and then `nsec` nanoseconds from the
/// epoch origin, each counted backwards where it is negative.
pub open spec fn timestamp_of(secs: i64, nsec: i64) -> Timestamp
    recommends
        time_fits(secs, nsec),
{
    Timestamp {
        secs: (secs + (nsec as int) / (NANOS_PER_SEC as int)) as i64,
        nanos: ((nsec as int) % (NANOS_PER_SEC as int)) as u32,
    }
}

/// A `stat` record can be translated: its kind bits are known, and the
/// whole seconds of each of its three times fit a timestamp.
pub open spec fn translatable(stat: RawStat) -> bool {
    &&& is_known_mode(stat.st_mode)
    &&& time_fits(stat.st_atime, stat.st_atime_nsec)
    &&& time_fits(stat.st_mtime, stat.st_mtime_nsec)
    &&& time_fits(stat.st_ctime, stat.st_ctime_nsec)
}

/// The attributes that a `stat` record stands for.
pub open spec fn attr_of(stat: RawStat) -> FileAttr
    recommends
        translatable(stat),
{
    FileAttr {
        size: wrap_u64(stat.st_size),
        blocks: wrap_u64(stat.st_blocks),
        atime: timestamp_of(stat.st_atime, stat.st_atime_nsec),
        mtime: timestamp_of(stat.st_mtime, stat.st_mtime_nsec),
        ctime: timestamp_of(stat.st_ctime, stat.st_ctime_nsec),
        crtime: Timestamp { secs: 0, nanos: 0 },
        kind: filetype_of(stat.st_mode),
        perm: (stat.st_mode % 0o10000) as u16,
        nlink: low_u32(stat.st_nlink as int),
        uid: stat.st_uid,
        gid: stat.st_gid,
        rdev: low_u32(stat.st_rdev as int),
        flags: 0,
    }
}

/// The capacity record that a `statfs` record stands for.
pub open spec fn statfs_of(statfs: RawStatfs) -> Statfs {
    Statfs {
        blocks: statfs.f_blocks,
        bfree: statfs.f_bfree,
        bavail: statfs.f_bavail,
        files: statfs.f_files,
        ffree: statfs.f_ffree,
        bsize: low_u32(statfs.f_bsize as int),
        namelen: low_u32(statfs.f_namelen as int),
        frsize: low_u32(statfs.f_frsize as int),
    }
}

/// What to ask the operating system for the attributes of an entry.
#[derive(Debug)]
pub enum StatTarget {
    /// Ask by an open handle.
    Handle(u64),
    /// Ask by real path, without following a symbolic link.
    Path(Vec<u8>),
}

/// What enumerating a directory found at one position.
#[derive(Debug)]
pub enum EntryProbe {
    /// The entry could not be read.
    Unreadable(SysError),
    /// An entry, by name, with the outcome of the attribute lookup on it.
    Entry { name: Vec<u8>, stat: Result<RawStat, SysError> },
}

impl EntryProbe {
    /// The failure that this position carries, if it carries one.
    pub open spec fn failure(&self) -> Option<SysError> {
        match *self {
            EntryProbe::Unreadable(e) => Some(e),
            EntryProbe::Entry { name, stat } => match stat {
                Ok(_) => None,
                Err(e) => Some(e),
            },
        }
    }

    /// Whether this position ends the listing: it carries a failure, so
    /// nothing after it is looked at.
    pub fn ends_listing(&self) -> (stop: bool)
        ensures
            stop == self.failure() is Some,
    {
        match self {
            EntryProbe::Unreadable(_) => true,
            EntryProbe::Entry { name: _, stat } => stat.is_err(),
        }
    }

    /// The name found at this position.
    pub open spec fn entry_name(&self) -> Seq<u8>
        recommends
            self is Entry,
    {
        self->name@
    }

    /// The mode of the entry found at this position.
    pub open spec fn entry_mode(&self) -> u32
        recommends
            self.failure() is None,
    {
        self->stat->Ok_0.st_mode
    }
}

/// No position of a listing before `k` carries a failure.
pub open spec fn clean_before(probes: Seq<EntryProbe>, k: int) -> bool {
    forall|j: int| 0 <= j < k && j < probes.len() ==> (#[trigger] probes[j]).failure() is None
}

/// Position `k` carries the first failure of a listing.
pub open spec fn is_first_failure(probes: Seq<EntryProbe>, k: int) -> bool {
    &&& 0 <= k < probes.len()
    &&& probes[k].failure() is Some
    &&& clean_before(probes, k)
}

/// Every entry up to the first failure has known kind bits.
pub open spec fn listable(probes: Seq<EntryProbe>) -> bool {
    forall|i: int|
        0 <= i < probes.len() && clean_before(probes, i + 1) ==> is_known_mode(
            (#[trigger] probes[i]).entry_mode(),
        )
}

/// The entries that a listing without a failure stands for, in the order of
/// the listing.
pub open spec fn entries_match(probes: Seq<EntryProbe>, entries: Seq<DirectoryEntry>) -> bool {
    &&& entries.len() == probes.len()
    &&& forall|i: int|
        0 <= i < probes.len() ==> {
            &&& (#[trigger] entries[i]).name@ == probes[i].entry_name()
            &&& entries[i].kind == filetype_of(probes[i].entry_mode())
        }
}

/// The bytes that a read hands back: the first `n` of the buffer, or the
/// whole buffer where it holds no more than `n`.
pub open spec fn read_bytes(data: Seq<u8>, n: int) -> Seq<u8> {
    if 0 <= n <= data.len() {
        data.take(n)
    } else {
        data
    }
}

/// How many bytes the operating system fills when it is asked for
/// `requested` bytes at `offset` of a file of `file_len` bytes: what the
/// file holds from the offset on, and no more than was asked.
pub open spec fn bytes_available(file_len: nat, offset: nat, requested: nat) -> nat {
    if offset >= file_len {
        0
    } else if file_len - offset < requested {
        (file_len - offset) as nat
    } else {
        requested
    }
}

/// A passthrough filesystem over one source directory.
pub struct DecoFS {
    sourceroot: Vec<u8>,
}

impl DecoFS {
    /// The source directory, as bytes.
    pub closed spec fn root(&self) -> Seq<u8> {
        self.sourceroot@
    }

    /// A filesystem that mirrors `sourceroot`.
    pub fn new(sourceroot: Vec<u8>) -> (fs: Self)
        ensures
            fs.root() == sourceroot@,
    {
        Self { sourceroot }
    }

    /// The source directory.
    pub fn sourceroot(&self) -> (root: &Vec<u8>)
        ensures
            root@ == self.root(),
    {
        &self.sourceroot
    }

    /// Whether a path begins with the separator.
    pub fn path_is_absolute(partial: &Vec<u8>) -> (b: bool)
        ensures
            b == is_absolute(partial@),
    {
        partial.len() > 0 && partial[0] == SEPARATOR
    }

    /// `rest` joined onto `root`.
    pub fn join(root: &Vec<u8>, rest: &[u8]) -> (joined: Vec<u8>)
        ensures
            joined@ == join_paths(root@, rest@),
    {
        let mut joined: Vec<u8> = Vec::new();
        let mut i: usize = 0;
        while i < root.len()
            invariant
                i <= root.len(),
                joined@ == root@.take(i as int),
            decreases root.len() - i,
        {
            joined.push(root[i]);
            assert(root@.take(i as int).push(root@[i as int]) == root@.take(i + 1));
            i += 1;
        }
        assert(root@.take(i as int) == root@);
        if root.len() > 0 && root[root.len() - 1] != SEPARATOR {
            joined.push(SEPARATOR);
        }
        let ghost head = joined@;
        let mut k: usize = 0;
        while k < rest.len()
            invariant
                k <= rest.len(),
                joined@ == head + rest@.take(k as int),
            decreases rest.len() - k,
        {
            joined.push(rest[k]);
            assert((head + rest@.take(k as int)).push(rest@[k as int]) == head + rest@.take(
                k + 1,
            ));
            k += 1;
        }
        assert(rest@.take(k as int) == rest@);
        joined
    }

    /// The real path of a virtual path: the source directory joined with
    /// the virtual path without its leading separator.
    pub fn real_path(&self, partial: &Vec<u8>) -> (target: Vec<u8>)
        requires
            is_absolute(partial@),
        ensures
            target@ == real_path_of(self.root(), partial@),
    {
        let rest = vstd::slice::slice_subrange(partial.as_slice(), 1, partial.len());
        Self::join(&self.sourceroot, rest)
    }
    /// Whether the kind bits of a mode are those of one of the seven kinds.
    pub fn knows_mode(mode: u32) -> (known: bool)
        ensures
            known == is_known_mode(mode),
    {
        let fmt: u32 = mode & s_ifmt();
        fmt == s_ifdir() || fmt == s_ifreg() || fmt == s_iflnk() || fmt == s_ifblk() || fmt
            == s_ifchr() || fmt == s_ififo() || fmt == s_ifsock()
    }

    /// The kind of entry that a mode encodes.
    pub fn mode_to_filetype(mode: u32) -> (kind: FileType)
        requires
            is_known_mode(mode),
        ensures
            kind == filetype_of(mode),
            format_of(kind) == mode & S_IFMT,
    {
        let fmt: u32 = mode & s_ifmt();
        if fmt == s_ifdir() {
            FileType::Directory
        } else if fmt == s_ifreg() {
            FileType::RegularFile
        } else if fmt == s_iflnk() {
            FileType::Symlink
        } else if fmt == s_ifblk() {
            FileType::BlockDevice
        } else if fmt == s_ifchr() {
            FileType::CharDevice
        } else if fmt == s_ififo() {
            FileType::NamedPipe
        } else {
            FileType::Socket
        }
    }

    /// The kind of entry that a `stat` record describes.
    pub fn stat_to_filetype(stat: &RawStat) -> (kind: FileType)
        requires
            is_known_mode(stat.st_mode),
        ensures
            kind == filetype_of(stat.st_mode),
    {
        Self::mode_to_filetype(stat.st_mode)
    }

    /// The whole seconds in a count of nanoseconds, rounded down, and the
    /// nanoseconds that remain.
    fn split_nanos(nsec: i64) -> (parts: (i64, u32))
        ensures
            parts.0 == (nsec as int) / (NANOS_PER_SEC as int),
            parts.1 == (nsec as int) % (NANOS_PER_SEC as int),
            parts.1 < NANOS_PER_SEC,
    {
        if nsec >= 0 {
            let count: u64 = nsec as u64;
            ((count / 1_000_000_000) as i64, (count % 1_000_000_000) as u32)
        } else {
            let back: u64 = (-(nsec + 1)) as u64;
            let whole: u64 = back / 1_000_000_000;
            let rest: u64 = back % 1_000_000_000;
            proof {
                vstd::arithmetic::div_mod::lemma_fundamental_div_mod(
                    back as int,
                    NANOS_PER_SEC as int,
                );
                vstd::arithmetic::div_mod::lemma_fundamental_div_mod_converse(
                    nsec as int,
                    NANOS_PER_SEC as int,
                    -(whole as int) - 1,
                    NANOS_PER_SEC - 1 - rest,
                );
            }
            (-(whole as i64) - 1, (999_999_999 - rest) as u32)
        }
    }

    /// Whether a pair of seconds and nanoseconds fits a timestamp.
    fn fits(secs: i64, nsec: i64) -> (b: bool)
        ensures
            b == time_fits(secs, nsec),
    {
        let (whole, _) = Self::split_nanos(nsec);
        if whole >= 0 {
            secs <= i64::MAX - whole
        } else {
            secs >= i64::MIN - whole
        }
    }

    /// The time that lies `secs` seconds and then `nsec` nanoseconds from
    /// the epoch origin.
    fn timestamp(secs: i64, nsec: i64) -> (t: Timestamp)
        requires
            time_fits(secs, nsec),
        ensures
            t == timestamp_of(secs, nsec),
            t.wf(),
            t.total_nanos() == secs * (NANOS_PER_SEC as int) + nsec,
    {
        let (whole, nanos) = Self::split_nanos(nsec);
        let t = Timestamp { secs: secs + whole, nanos };
        assert(t.total_nanos() == secs * (NANOS_PER_SEC as int) + nsec) by {
            let n = nsec as int;
            let d = NANOS_PER_SEC as int;
            vstd::arithmetic::div_mod::lemma_fundamental_div_mod(n, d);
            assert((secs + n / d) * d == secs * d + d * (n / d)) by (nonlinear_arith);
        }
        t
    }

    /// Whether a `stat` record can be translated.
    pub fn can_translate(stat: &RawStat) -> (b: bool)
        ensures
            b == translatable(*stat),
    {
        Self::knows_mode(stat.st_mode) && Self::fits(stat.st_atime, stat.st_atime_nsec)
            && Self::fits(stat.st_mtime, stat.st_mtime_nsec) && Self::fits(
            stat.st_ctime,
            stat.st_ctime_nsec,
        )
    }

    /// The capacity record for what `statfs` reported: the block and node
    /// counts as they are, the three sizes by their low 32 bits.
    pub fn statfs_to_fuse(statfs: RawStatfs) -> (out: Statfs)
        ensures
            out == statfs_of(statfs),
    {
        let f_bsize: i64 = statfs.f_bsize;
        let f_namelen: i64 = statfs.f_namelen;
        let f_frsize: i64 = statfs.f_frsize;
        assert(f_bsize as u32 == low_u32(f_bsize as int)) by (bit_vector);
        assert(f_namelen as u32 == low_u32(f_namelen as int)) by (bit_vector);
        assert(f_frsize as u32 == low_u32(f_frsize as int)) by (bit_vector);
        Statfs {
            blocks: statfs.f_blocks,
            bfree: statfs.f_bfree,
            bavail: statfs.f_bavail,
            files: statfs.f_files,
            ffree: statfs.f_ffree,
            bsize: f_bsize as u32,
            namelen: f_namelen as u32,
            frsize: f_frsize as u32,
        }
    }

    /// The attributes for what `stat` reported. The kind comes from the kind
    /// bits of the mode and the permissions are its low 12 bits; each time
    /// is rebuilt from its seconds and nanoseconds, and the creation time is
    /// the epoch origin; sizes and counts are copied at the width of their
    /// fields.
    pub fn stat_to_fuse(stat: RawStat) -> (attr: FileAttr)
        requires
            translatable(stat),
        ensures
            attr == attr_of(stat),
            attr.perm == stat.st_mode & PERMISSION_MASK,
            stat.st_size >= 0 ==> attr.size == stat.st_size,
            attr.atime.wf() && attr.mtime.wf() && attr.ctime.wf() && attr.crtime.wf(),
            attr.atime.total_nanos() == stat.st_atime * (NANOS_PER_SEC as int)
                + stat.st_atime_nsec,
            attr.mtime.total_nanos() == stat.st_mtime * (NANOS_PER_SEC as int)
                + stat.st_mtime_nsec,
            attr.ctime.total_nanos() == stat.st_ctime * (NANOS_PER_SEC as int)
                + stat.st_ctime_nsec,
    {
        let kind = Self::mode_to_filetype(stat.st_mode);
        let st_mode: u32 = stat.st_mode;
        let st_size: i64 = stat.st_size;
        let st_blocks: i64 = stat.st_blocks;
        let st_nlink: u64 = stat.st_nlink;
        let st_rdev: u64 = stat.st_rdev;
        assert((st_mode & PERMISSION_MASK) < 0x1_0000 && (st_mode & PERMISSION_MASK) == st_mode
            % 0o10000) by (bit_vector);
        assert(st_size as u64 == wrap_u64(st_size)) by (bit_vector);
        assert(st_blocks as u64 == wrap_u64(st_blocks)) by (bit_vector);
        assert(st_nlink as u32 == low_u32(st_nlink as int)) by (bit_vector);
        assert(st_rdev as u32 == low_u32(st_rdev as int)) by (bit_vector);
        let perm: u16 = (st_mode & PERMISSION_MASK) as u16;
        FileAttr {
            size: st_size as u64,
            blocks: st_blocks as u64,
            atime: Self::timestamp(stat.st_atime, stat.st_atime_nsec),
            mtime: Self::timestamp(stat.st_mtime, stat.st_mtime_nsec),
            ctime: Self::timestamp(stat.st_ctime, stat.st_ctime_nsec),
            crtime: Timestamp::epoch(),
            kind,
            perm,
            nlink: st_nlink as u32,
            uid: stat.st_uid,
            gid: stat.st_gid,
            rdev: st_rdev as u32,
            flags: 0,
        }
    }
    /// The readiness hook: nothing to prepare, it succeeds.
    pub fn init(&self) -> (r: Result<(), i32>)
        ensures
            r is Ok,
    {
        Ok(())
    }

    /// The teardown hook: nothing is held, so nothing is released.
    pub fn destroy(&self) {
    }

    /// What to ask for the attributes of an entry: with a handle the handle
    /// is asked, else the real path, without following a symbolic link.
    pub fn getattr_target(&self, path: &Vec<u8>, fh: Option<u64>) -> (target: StatTarget)
        requires
            fh is None ==> is_absolute(path@),
        ensures
            fh matches Some(h) ==> target == StatTarget::Handle(h),
            fh is None ==> target is Path && target->Path_0@ == real_path_of(self.root(), path@),
    {
        match fh {
            Some(h) => StatTarget::Handle(h),
            None => StatTarget::Path(self.real_path(path)),
        }
    }

    /// The reply to an attribute request: the translated attributes with
    /// the seconds for which they stay valid, or the failure's code.
    pub fn getattr_reply(outcome: Result<RawStat, SysError>) -> (r: Result<(u64, FileAttr), i32>)
        requires
            outcome matches Ok(stat) ==> translatable(stat),
        ensures
            outcome matches Ok(stat) ==> r == Ok::<(u64, FileAttr), i32>((TTL_SECS, attr_of(stat))),
            outcome matches Err(e) ==> r == Err::<(u64, FileAttr), i32>(e.errno_spec()),
    {
        match outcome {
            Ok(stat) => Ok((TTL_SECS, Self::stat_to_fuse(stat))),
            Err(e) => Err(e.errno()),
        }
    }

    /// The reply to a capacity request: the translated record, or the
    /// failure's code.
    pub fn statfs_reply(outcome: Result<RawStatfs, SysError>) -> (r: Result<Statfs, i32>)
        ensures
            outcome matches Ok(statfs) ==> r == Ok::<Statfs, i32>(statfs_of(statfs)),
            outcome matches Err(e) ==> r == Err::<Statfs, i32>(e.errno_spec()),
    {
        match outcome {
            Ok(statfs) => Ok(Self::statfs_to_fuse(statfs)),
            Err(e) => Err(e.errno()),
        }
    }

    /// Opening a directory acquires nothing: it succeeds with handle zero
    /// and no flags.
    pub fn opendir(&self, path: &Vec<u8>, flags: u32) -> (r: Result<(u64, u32), i32>)
        ensures
            r == Ok::<(u64, u32), i32>((0, 0)),
    {
        Ok((0, 0))
    }

    /// Releasing a directory releases nothing: it succeeds.
    pub fn releasedir(&self, path: &Vec<u8>, fh: u64, flags: u32) -> (r: Result<(), i32>)
        ensures
            r is Ok,
    {
        Ok(())
    }

    /// The real path of a directory entry: its name joined onto the real
    /// path of the directory.
    pub fn entry_path(dir: &Vec<u8>, name: &Vec<u8>) -> (target: Vec<u8>)
        ensures
            target@ == join_paths(dir@, name@),
    {
        Self::join(dir, name.as_slice())
    }

    /// The reply to a listing request. Where the directory could not be
    /// opened, the reply is that failure's code. Where a position of the
    /// listing carries a failure, the reply is the code of the first such
    /// position, and no entries. Else it is one entry for each position, in
    /// the order of the listing, by name and kind.
    pub fn readdir(listing: Result<Vec<EntryProbe>, SysError>) -> (r: Result<
        Vec<DirectoryEntry>,
        i32,
    >)
        requires
            listing matches Ok(probes) ==> listable(probes@),
        ensures
            listing matches Err(e) ==> r == Err::<Vec<DirectoryEntry>, i32>(e.errno_spec()),
            listing matches Ok(probes) ==> (r is Ok <==> clean_before(
                probes@,
                probes@.len() as int,
            )),
            listing matches Ok(probes) ==> (r matches Ok(entries) ==> entries_match(
                probes@,
                entries@,
            )),
            listing matches Ok(probes) ==> (r matches Err(code) ==> exists|k: int|
                is_first_failure(probes@, k) && code == (
                #[trigger] probes@[k]).failure()->Some_0.errno_spec()),
    {
        let probes = match listing {
            Ok(probes) => probes,
            Err(e) => {
                return Err(e.errno());
            },
        };
        let mut entries: Vec<DirectoryEntry> = Vec::new();
        let mut i: usize = 0;
        while i < probes.len()
            invariant
                i <= probes.len(),
                listing is Ok && listing->Ok_0 == probes,
                listable(probes@),
                clean_before(probes@, i as int),
                entries_match(probes@.take(i as int), entries@),
            decreases probes.len() - i,
        {
            match &probes[i] {
                EntryProbe::Unreadable(e) => {
                    assert(is_first_failure(probes@, i as int));
                    return Err(e.errno());
                },
                EntryProbe::Entry { name, stat } => {
                    match stat {
                        Err(e) => {
                            assert(is_first_failure(probes@, i as int));
                            return Err(e.errno());
                        },
                        Ok(stat) => {
                            assert(clean_before(probes@, i + 1));
                            let kind = Self::stat_to_filetype(stat);
                            entries.push(DirectoryEntry { name: name.clone(), kind });
                        },
                    }
                },
            }
            i += 1;
        }
        assert(probes@.take(i as int) == probes@);
        Ok(entries)
    }

    /// The flags to hand to `open`: the caller's flags, bit for bit.
    pub fn open_flags(flags: u32) -> (raw: i32)
        ensures
            raw == if flags < 0x8000_0000 {
                flags as int
            } else {
                flags - 0x1_0000_0000
            },
    {
        assert(flags as i32 == if flags < 0x8000_0000 {
            flags as int
        } else {
            flags - 0x1_0000_0000
        }) by (bit_vector);
        flags as i32
    }

    /// The reply to an open request: the new handle with the caller's
    /// flags, or the failure's code.
    pub fn open_reply(outcome: Result<u64, SysError>, flags: u32) -> (r: Result<(u64, u32), i32>)
        ensures
            outcome matches Ok(fh) ==> r == Ok::<(u64, u32), i32>((fh, flags)),
            outcome matches Err(e) ==> r == Err::<(u64, u32), i32>(e.errno_spec()),
    {
        match outcome {
            Ok(fh) => Ok((fh, flags)),
            Err(e) => Err(e.errno()),
        }
    }

    /// The reply to a release request: success where the descriptor was
    /// closed, else the failure's code.
    pub fn release_reply(outcome: Result<i32, SysError>) -> (r: Result<(), i32>)
        ensures
            outcome is Ok ==> r is Ok,
            outcome matches Err(e) ==> r == Err::<(), i32>(e.errno_spec()),
    {
        match outcome {
            Ok(_) => Ok(()),
            Err(e) => Err(e.errno()),
        }
    }
    /// The buffer for a read of up to `size` bytes: `size` zero bytes.
    pub fn read_buffer(size: u32) -> (data: Vec<u8>)
        ensures
            data@.len() == size,
            forall|i: int| 0 <= i < size ==> data@[i] == 0,
    {
        let mut data: Vec<u8> = Vec::new();
        let mut i: u32 = 0;
        while i < size
            invariant
                i <= size,
                data@.len() == i,
                forall|j: int| 0 <= j < i ==> data@[j] == 0,
            decreases size - i,
        {
            data.push(0u8);
            i += 1;
        }
        data
    }

    /// What follows the positioning of a descriptor for a read: on success
    /// the read goes on, on failure the request ends with the failure's
    /// code.
    pub fn seek_reply(outcome: Result<u64, SysError>) -> (r: Result<(), i32>)
        ensures
            outcome is Ok ==> r is Ok,
            outcome matches Err(e) ==> r == Err::<(), i32>(e.errno_spec()),
    {
        match outcome {
            Ok(_) => Ok(()),
            Err(e) => Err(e.errno()),
        }
    }

    /// The reply to a read request: the bytes that were read, which are the
    /// first `n` of the buffer where the operating system filled `n`, or the
    /// failure's code. Fewer bytes than the buffer holds, or none, are a
    /// success.
    pub fn read_reply(data: Vec<u8>, outcome: Result<usize, SysError>) -> (r: Result<Vec<u8>, i32>)
        ensures
            outcome matches Ok(n) ==> r is Ok && r->Ok_0@ == read_bytes(data@, n as int),
            outcome matches Err(e) ==> r == Err::<Vec<u8>, i32>(e.errno_spec()),
    {
        match outcome {
            Ok(n) => {
                let mut data = data;
                data.truncate(n);
                Ok(data)
            },
            Err(e) => Err(e.errno()),
        }
    }
}

/// The real path of an absolute virtual path lies under the source
/// directory: it begins with the source directory, ends with the virtual
/// path without its leading separator, and holds at most one byte between
/// the two.
pub proof fn lemma_real_path_under_root(root: Seq<u8>, partial: Seq<u8>)
    requires
        is_absolute(partial),
    ensures
        root.is_prefix_of(real_path_of(root, partial)),
        partial.subrange(1, partial.len() as int).is_suffix_of(real_path_of(root, partial)),
        root.len() + partial.len() - 1 <= real_path_of(root, partial).len() <= root.len()
            + partial.len(),
{
    let rest = partial.subrange(1, partial.len() as int);
    let target = real_path_of(root, partial);
    assert(target.subrange(0, root.len() as int) == root);
    assert(target.subrange(target.len() - rest.len(), target.len() as int) == rest);
}

/// Under a source directory that names a directory without a trailing
/// separator, the real path of an absolute virtual path is the source
/// directory followed by the virtual path, byte for byte.
pub proof fn lemma_real_path_concat(root: Seq<u8>, partial: Seq<u8>)
    requires
        is_absolute(partial),
        root.len() > 0,
        root.last() != SEPARATOR,
    ensures
        real_path_of(root, partial) == root + partial,
{
    assert(real_path_of(root, partial) =~= root + partial);
}

/// Each of the seven kinds has kind bits of its own: the bits of a kind are
/// known, and they stand for that kind.
pub proof fn lemma_format_round_trip(kind: FileType)
    ensures
        is_known_mode(format_of(kind)),
        filetype_of(format_of(kind)) == kind,
{
    assert(S_IFDIR & S_IFMT == S_IFDIR) by (bit_vector);
    assert(S_IFREG & S_IFMT == S_IFREG) by (bit_vector);
    assert(S_IFLNK & S_IFMT == S_IFLNK) by (bit_vector);
    assert(S_IFBLK & S_IFMT == S_IFBLK) by (bit_vector);
    assert(S_IFCHR & S_IFMT == S_IFCHR) by (bit_vector);
    assert(S_IFIFO & S_IFMT == S_IFIFO) by (bit_vector);
    assert(S_IFSOCK & S_IFMT == S_IFSOCK) by (bit_vector);
}

/// Two modes with known kind bits stand for the same kind exactly when
/// their kind bits are the same.
pub proof fn lemma_filetype_unique(a: u32, b: u32)
    requires
        is_known_mode(a),
        is_known_mode(b),
    ensures
        filetype_of(a) == filetype_of(b) <==> (a & S_IFMT) == (b & S_IFMT),
        format_of(filetype_of(a)) == a & S_IFMT,
{
}

/// The kind of an entry does not depend on the bits of its mode outside
/// the kind mask.
pub proof fn lemma_filetype_ignores_permissions(mode: u32, other: u32)
    requires
        mode & S_IFMT == other & S_IFMT,
    ensures
        is_known_mode(mode) == is_known_mode(other),
        filetype_of(mode) == filetype_of(other),
{
}

/// A listing has at most one first failure, so the code of a failed
/// listing is that of one position only.
pub proof fn lemma_first_failure_unique(probes: Seq<EntryProbe>, j: int, k: int)
    requires
        is_first_failure(probes, j),
        is_first_failure(probes, k),
    ensures
        j == k,
{
    if j < k {
        assert(probes[j].failure() is None);
    } else if k < j {
        assert(probes[k].failure() is None);
    }
}

/// A read at an offset at or beyond the end of a file hands back no bytes:
/// where the operating system fills what the file holds from the offset on,
/// the bytes kept of any buffer are none.
pub proof fn lemma_read_at_end_is_empty(data: Seq<u8>, file_len: nat, offset: nat)
    requires
        offset >= file_len,
    ensures
        read_bytes(data, bytes_available(file_len, offset, data.len()) as int) == Seq::<
            u8,
        >::empty(),
{
    assert(data.take(0) =~= Seq::<u8>::empty());
}

/// A read of at least one byte that spans past the end of a file hands back
/// what the file holds from the offset on: as many bytes as lie between the
/// offset and the end, fewer than the buffer holds, and the first bytes of
/// the buffer.
pub proof fn lemma_read_past_end_is_truncated(data: Seq<u8>, file_len: nat, offset: nat)
    requires
        data.len() > 0,
        offset + data.len() > file_len,
    ensures
        read_bytes(data, bytes_available(file_len, offset, data.len()) as int).len()
            == bytes_available(file_len, offset, data.len()),
        offset < file_len ==> read_bytes(
            data,
            bytes_available(file_len, offset, data.len()) as int,
        ).len() == file_len - offset,
        read_bytes(data, bytes_available(file_len, offset, data.len()) as int).len()
            < data.len(),
        read_bytes(data, bytes_available(file_len, offset, data.len()) as int).is_prefix_of(
            data,
        ),
{
}

/// A read never hands back more bytes than were asked for, whatever number
/// the operating system reports.
pub proof fn lemma_read_within_buffer(data: Seq<u8>, n: int)
    ensures
        read_bytes(data, n).len() <= data.len(),
        read_bytes(data, n).is_prefix_of(data),
        0 <= n <= data.len() ==> read_bytes(data, n).len() == n,
{
}

} // verus!
