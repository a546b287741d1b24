//! The system-call gateway: the operating system's records as plain values,
//! its constants, and the rule that turns a call's return value into a
//! success or a failure.

use vstd::prelude::*;

verus! {

/// Mask of the bits of a mode that encode the kind of entry.
pub const S_IFMT: u32 = 0o170000;

/// Kind bits of a named pipe.
pub const S_IFIFO: u32 = 0o010000;

/// Kind bits of a character device.
pub const S_IFCHR: u32 = 0o020000;

/// Kind bits of a directory.
pub const S_IFDIR: u32 = 0o040000;

/// Kind bits of a block device.
pub const S_IFBLK: u32 = 0o060000;

/// Kind bits of a regular file.
pub const S_IFREG: u32 = 0o100000;

/// Kind bits of a symbolic link.
pub const S_IFLNK: u32 = 0o120000;

/// Kind bits of a socket.
pub const S_IFSOCK: u32 = 0o140000;

/// The code for "no such entry".
pub const ENOENT: i32 = 2;

/// What a failing system call returns.
pub const FAILURE: i32 = -1;

/// Reads `libc::S_IFMT`. Not proved: that the constant is `0o170000`, as the
/// crate defines it for Linux.
#[verifier::external_body]
pub(crate) fn s_ifmt() -> (m: u32)
    ensures
        m == S_IFMT,
{
    libc::S_IFMT
}

/// Reads `libc::S_IFIFO`. Not proved: that the constant is `0o010000`, as the
/// crate defines it for Linux.
#[verifier::external_body]
pub(crate) fn s_ififo() -> (m: u32)
    ensures
        m == S_IFIFO,
{
    libc::S_IFIFO
}

/// Reads `libc::S_IFCHR`. Not proved: that the constant is `0o020000`, as the
/// crate defines it for Linux.
#[verifier::external_body]
pub(crate) fn s_ifchr() -> (m: u32)
    ensures
        m == S_IFCHR,
{
    libc::S_IFCHR
}

/// Reads `libc::S_IFDIR`. Not proved: that the constant is `0o040000`, as the
/// crate defines it for Linux.
#[verifier::external_body]
pub(crate) fn s_ifdir() -> (m: u32)
    ensures
        m == S_IFDIR,
{
    libc::S_IFDIR
}

/// Reads `libc::S_IFBLK`. Not proved: that the constant is `0o060000`, as the
/// crate defines it for Linux.
#[verifier::external_body]
pub(crate) fn s_ifblk() -> (m: u32)
    ensures
        m == S_IFBLK,
{
    libc::S_IFBLK
}

/// Reads `libc::S_IFREG`. Not proved: that the constant is `0o100000`, as the
/// crate defines it for Linux.
#[verifier::external_body]
pub(crate) fn s_ifreg() -> (m: u32)
    ensures
        m == S_IFREG,
{
    libc::S_IFREG
}

/// Reads `libc::S_IFLNK`. Not proved: that the constant is `0o120000`, as the
/// crate defines it for Linux.
#[verifier::external_body]
pub(crate) fn s_iflnk() -> (m: u32)
    ensures
        m == S_IFLNK,
{
    libc::S_IFLNK
}

/// Reads `libc::S_IFSOCK`. Not proved: that the constant is `0o140000`, as the
/// crate defines it for Linux.
#[verifier::external_body]
pub(crate) fn s_ifsock() -> (m: u32)
    ensures
        m == S_IFSOCK,
{
    libc::S_IFSOCK
}

/// Reads `libc::ENOENT`. Not proved: that the constant is 2, as the crate
/// defines it for Linux.
#[verifier::external_body]
pub(crate) fn enoent() -> (code: i32)
    ensures
        code == ENOENT,
{
    libc::ENOENT
}

/// Why a system call failed.
#[derive(Clone, Copy, Debug, PartialEq, Eq, Structural)]
pub enum SysError {
    /// The operating system reported this code.
    Os(i32),
    /// The failure carries no code of the operating system.
    Uncoded,
}

impl SysError {
    /// The code that the operating system reported, if any.
    pub open spec fn code(&self) -> Option<i32> {
        match *self {
            SysError::Os(code) => Some(code),
            SysError::Uncoded => None,
        }
    }

    /// The integer handed to the mount driver: the reported code, and "no
    /// such entry" where there is none.
    pub open spec fn errno_spec(&self) -> i32 {
        match *self {
            SysError::Os(code) => code,
            SysError::Uncoded => ENOENT,
        }
    }

    /// The failure that stands for what the operating system reported, if
    /// it reported anything.
    pub fn from_raw_os_error(raw: Option<i32>) -> (e: SysError)
        ensures
            e.code() == raw,
    {
        match raw {
            Some(code) => SysError::Os(code),
            None => SysError::Uncoded,
        }
    }

    /// The code that the operating system reported, if any.
    pub fn raw_os_error(&self) -> (raw: Option<i32>)
        ensures
            raw == self.code(),
    {
        match *self {
            SysError::Os(code) => Some(code),
            SysError::Uncoded => None,
        }
    }

    /// The integer handed to the mount driver.
    pub fn errno(&self) -> (code: i32)
        ensures
            code == self.errno_spec(),
    {
        match *self {
            SysError::Os(code) => code,
            SysError::Uncoded => enoent(),
        }
    }
}

/// What `stat`, `lstat` and `fstat` report of one entry.
#[derive(Clone, Copy, Debug, PartialEq, Eq, Structural)]
pub struct RawStat {
    pub st_nlink: u64,
    pub st_mode: u32,
    pub st_uid: u32,
    pub st_gid: u32,
    pub st_rdev: u64,
    pub st_size: i64,
    pub st_blocks: i64,
    pub st_atime: i64,
    pub st_atime_nsec: i64,
    pub st_mtime: i64,
    pub st_mtime_nsec: i64,
    pub st_ctime: i64,
    pub st_ctime_nsec: i64,
}

/// What `statfs` reports of one filesystem.
#[derive(Clone, Copy, Debug, PartialEq, Eq, Structural)]
pub struct RawStatfs {
    pub f_bsize: i64,
    pub f_blocks: u64,
    pub f_bfree: u64,
    pub f_bavail: u64,
    pub f_files: u64,
    pub f_ffree: u64,
    pub f_namelen: i64,
    pub f_frsize: i64,
}

/// A path holds a zero byte.
pub open spec fn has_nul(path: Seq<u8>) -> bool {
    exists|i: int| 0 <= i < path.len() && path[i] == 0
}

/// The bytes of a path as a C string: the path followed by one zero byte.
/// A path that holds a zero byte has no such form, and the failure carries
/// no code of the operating system.
pub fn c_string(path: &Vec<u8>) -> (r: Result<Vec<u8>, SysError>)
    ensures
        has_nul(path@) <==> r is Err,
        r matches Ok(c) ==> c@ == path@.push(0u8),
        r matches Err(e) ==> e == SysError::Uncoded,
{
    let mut out: Vec<u8> = Vec::new();
    let mut i: usize = 0;
    while i < path.len()
        invariant
            i <= path.len(),
            out@ == path@.take(i as int),
            forall|j: int| 0 <= j < i ==> path@[j] != 0,
        decreases path.len() - i,
    {
        let b: u8 = path[i];
        if b == 0 {
            return Err(SysError::Uncoded);
        }
        out.push(b);
        assert(path@.take(i as int).push(b) == path@.take(i + 1));
        i += 1;
    }
    assert(path@.take(i as int) == path@);
    out.push(0u8);
    Ok(out)
}

/// The outcome of a system call that reports failure by its return value:
/// on the failure value the code that the operating system reported last,
/// else success.
pub fn check_status(ret: i32, last_errno: i32) -> (r: Result<(), SysError>)
    ensures
        r == if ret == FAILURE {
            Err::<(), SysError>(SysError::Os(last_errno))
        } else {
            Ok::<(), SysError>(())
        },
{
    if ret == FAILURE {
        Err(SysError::Os(last_errno))
    } else {
        Ok(())
    }
}

/// The value of a descriptor as a 64-bit handle: the descriptor's integer,
/// sign-extended.
pub open spec fn handle_of(fd: i32) -> int {
    if fd >= 0 {
        fd as int
    } else {
        fd + 0x1_0000_0000_0000_0000
    }
}

/// The outcome of `open`: the new descriptor as an opaque 64-bit handle, or
/// the code that the operating system reported.
pub fn open_result(ret: i32, last_errno: i32) -> (r: Result<u64, SysError>)
    ensures
        ret == FAILURE ==> r == Err::<u64, SysError>(SysError::Os(last_errno)),
        ret != FAILURE ==> r is Ok && r->Ok_0 == handle_of(ret),
{
    match check_status(ret, last_errno) {
        Ok(()) => {
            assert(ret as u64 == handle_of(ret)) by (bit_vector);
            Ok(ret as u64)
        },
        Err(e) => Err(e),
    }
}

/// The outcome of `close`: zero, or the code that the operating system
/// reported.
pub fn close_result(ret: i32, last_errno: i32) -> (r: Result<i32, SysError>)
    ensures
        r == if ret == FAILURE {
            Err::<i32, SysError>(SysError::Os(last_errno))
        } else {
            Ok::<i32, SysError>(0)
        },
{
    match check_status(ret, last_errno) {
        Ok(()) => Ok(0),
        Err(e) => Err(e),
    }
}

/// The descriptor that a 64-bit handle stands for: its low 32 bits, read as
/// a signed integer.
pub open spec fn descriptor_of(fh: u64) -> int {
    let low = fh as int % 0x1_0000_0000;
    if low < 0x8000_0000 {
        low
    } else {
        low - 0x1_0000_0000
    }
}

/// The descriptor to hand to the operating system for a handle.
pub fn descriptor(fh: u64) -> (fd: i32)
    ensures
        fd == descriptor_of(fh),
{
    assert(fh as i32 == descriptor_of(fh)) by (bit_vector);
    fh as i32
}

/// A handle made of a descriptor stands for that descriptor.
pub proof fn lemma_handle_round_trip(fd: i32)
    ensures
        0 <= handle_of(fd) <= u64::MAX,
        descriptor_of(handle_of(fd) as u64) == fd,
{
}

} // verus!
