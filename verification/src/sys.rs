//! The engine's window on the filesystem: metadata as plain values, and
//! the handful of system operations the pipeline performs, each behind a
//! small trusted wrapper over an outside crate.
//!
//! Every wrapper's result depends on the state of the filesystem, so the
//! contracts state only what holds of every outcome; the verified logic
//! takes the returned plain values and does the rest.

use vstd::prelude::*;

verus! {

/// The format mask of a `st_mode` word.
pub const MODE_FORMAT_MASK: u32 = 0o170000;

/// The format bits of a directory.
pub const MODE_FORMAT_DIR: u32 = 0o040000;

/// The format bits of a symbolic link.
pub const MODE_FORMAT_LINK: u32 = 0o120000;

/// The format bits of a regular file.
pub const MODE_FORMAT_REGULAR: u32 = 0o100000;

/// The classification of a filesystem entry, derived from its mode word.
#[derive(Clone, Copy, Debug, PartialEq, Eq, Structural)]
pub enum EntryKind {
    /// A regular file.
    Regular,
    /// A directory.
    Directory,
    /// A symbolic link.
    Symlink,
    /// Anything else (device, socket, pipe, ...).
    Other,
}

/// The entry kind encoded in a raw mode word.
pub open spec fn kind_of_mode_spec(mode: u32) -> EntryKind {
    if mode & MODE_FORMAT_MASK == MODE_FORMAT_DIR {
        EntryKind::Directory
    } else if mode & MODE_FORMAT_MASK == MODE_FORMAT_LINK {
        EntryKind::Symlink
    } else if mode & MODE_FORMAT_MASK == MODE_FORMAT_REGULAR {
        EntryKind::Regular
    } else {
        EntryKind::Other
    }
}

/// Classify a raw mode word.
pub fn kind_of_mode(mode: u32) -> (k: EntryKind)
    ensures
        k == kind_of_mode_spec(mode),
{
    let fmt = mode & MODE_FORMAT_MASK;
    if fmt == MODE_FORMAT_DIR {
        EntryKind::Directory
    } else if fmt == MODE_FORMAT_LINK {
        EntryKind::Symlink
    } else if fmt == MODE_FORMAT_REGULAR {
        EntryKind::Regular
    } else {
        EntryKind::Other
    }
}

/// One entry's metadata, copied raw from the operating system: the mode
/// word (format and permission bits), owner, timestamps and size.
#[derive(Clone, Copy, Debug)]
pub struct Meta {
    /// The raw mode word.
    pub mode: u32,
    /// The owning user id.
    pub uid: u32,
    /// The owning group id.
    pub gid: u32,
    /// Last access time, whole seconds.
    pub atime_s: i64,
    /// Last access time, nanosecond part.
    pub atime_ns: i64,
    /// Last modification time, whole seconds.
    pub mtime_s: i64,
    /// Last modification time, nanosecond part.
    pub mtime_ns: i64,
    /// Size in bytes.
    pub size: i64,
}

/// Relies on nix::sys::stat::stat: the metadata of the entry at `path`,
/// following symbolic links; the fields are copied over unchanged. The
/// error is the raw OS error number. The OS keeps the nanosecond parts
/// of the timestamps in [0, 10^9).
#[verifier::external_body]
pub(crate) fn stat_meta(path: &str) -> (r: Result<Meta, i32>)
    ensures
        r is Ok ==> (0 <= r->Ok_0.atime_ns < 1_000_000_000 && 0 <= r->Ok_0.mtime_ns
            < 1_000_000_000),
{
    match nix::sys::stat::stat(path) {
        Ok(st) => Ok(
            Meta {
                mode: st.st_mode as u32,
                uid: st.st_uid,
                gid: st.st_gid,
                atime_s: st.st_atime,
                atime_ns: st.st_atime_nsec,
                mtime_s: st.st_mtime,
                mtime_ns: st.st_mtime_nsec,
                size: st.st_size,
            },
        ),
        Err(e) => Err(e as i32),
    }
}

/// Relies on nix::sys::stat::lstat: as `stat_meta`, but the metadata of
/// the link itself when `path` is a symbolic link.
#[verifier::external_body]
pub(crate) fn lstat_meta(path: &str) -> (r: Result<Meta, i32>)
    ensures
        r is Ok ==> (0 <= r->Ok_0.atime_ns < 1_000_000_000 && 0 <= r->Ok_0.mtime_ns
            < 1_000_000_000),
{
    match nix::sys::stat::lstat(path) {
        Ok(st) => Ok(
            Meta {
                mode: st.st_mode as u32,
                uid: st.st_uid,
                gid: st.st_gid,
                atime_s: st.st_atime,
                atime_ns: st.st_atime_nsec,
                mtime_s: st.st_mtime,
                mtime_ns: st.st_mtime_nsec,
                size: st.st_size,
            },
        ),
        Err(e) => Err(e as i32),
    }
}

/// Relies on nix::sys::stat::fstat: the size in bytes of the open file
/// `fd`.
#[verifier::external_body]
pub(crate) fn fstat_size(fd: i32) -> (r: Result<i64, i32>) {
    match nix::sys::stat::fstat(fd) {
        Ok(st) => Ok(st.st_size),
        Err(e) => Err(e as i32),
    }
}

/// Relies on walkdir::WalkDir: the paths of the tree rooted at `path` in
/// depth-first order, the root itself first, each directory before its
/// contents. `None` when some entry could not be read or a path is not
/// UTF-8.
#[verifier::external_body]
pub(crate) fn walk_paths(path: &str) -> (r: Option<Vec<String>>)
    ensures
        r is Some ==> (r->0)@.len() >= 1 && (r->0)@[0]@ == path@,
{
    let mut out: Vec<String> = Vec::new();
    for entry in walkdir::WalkDir::new(path) {
        match entry {
            Ok(e) => match e.path().to_str() {
                Some(p) => out.push(p.to_string()),
                None => return None,
            },
            Err(_) => return None,
        }
    }
    Some(out)
}

/// Relies on nix::unistd::mkdir: create the directory `path` with the
/// given permission bits (as altered by the umask). The error is the raw
/// OS error number; `OS_ERROR_EXISTS` reports that `path` already exists.
#[verifier::external_body]
pub(crate) fn mkdir_raw(path: &str, mode: u32) -> (r: Result<(), i32>) {
    match nix::unistd::mkdir(path, nix::sys::stat::Mode::from_bits_truncate(mode)) {
        Ok(()) => Ok(()),
        Err(e) => Err(e as i32),
    }
}

/// Relies on nix::unistd::symlinkat: create the symbolic link `link`
/// pointing at `target`.
#[verifier::external_body]
pub(crate) fn symlink_raw(target: &str, link: &str) -> (r: Result<(), i32>) {
    match nix::unistd::symlinkat(target, None, link) {
        Ok(()) => Ok(()),
        Err(e) => Err(e as i32),
    }
}

/// Relies on nix::fcntl::readlink: the target string of the symbolic
/// link at `path`. The error is the raw OS error number, or
/// `OS_ERROR_NOT_TEXT` when the target is not UTF-8.
#[verifier::external_body]
pub(crate) fn readlink_raw(path: &str) -> (r: Result<String, i32>) {
    match nix::fcntl::readlink(path) {
        Ok(t) => match t.into_string() {
            Ok(s) => Ok(s),
            Err(_) => Err(OS_ERROR_NOT_TEXT),
        },
        Err(e) => Err(e as i32),
    }
}

/// Relies on nix::sys::stat::fchmodat: set the permission bits of the
/// entry at `path` (following symbolic links).
#[verifier::external_body]
pub(crate) fn chmod_raw(path: &str, mode: u32) -> (r: Result<(), i32>) {
    match nix::sys::stat::fchmodat(
        None,
        path,
        nix::sys::stat::Mode::from_bits_truncate(mode),
        nix::sys::stat::FchmodatFlags::FollowSymlink,
    ) {
        Ok(()) => Ok(()),
        Err(e) => Err(e as i32),
    }
}

/// Relies on nix::unistd::chown: set the owning user and group of the
/// entry at `path` (following symbolic links).
#[verifier::external_body]
pub(crate) fn chown_raw(path: &str, uid: u32, gid: u32) -> (r: Result<(), i32>) {
    match nix::unistd::chown(
        path,
        Some(nix::unistd::Uid::from_raw(uid)),
        Some(nix::unistd::Gid::from_raw(gid)),
    ) {
        Ok(()) => Ok(()),
        Err(e) => Err(e as i32),
    }
}

/// Relies on filetime::set_file_times: set the access and modification
/// times of the entry at `path` (following symbolic links). The bounds
/// keep the crate's conversion of each time into a system time away
/// from its overflow panics, and make the 32-bit narrowing of the
/// nanosecond parts lossless.
#[verifier::external_body]
pub(crate) fn set_times_raw(path: &str, atime_s: i64, atime_ns: i64, mtime_s: i64, mtime_ns: i64) -> (r: Result<
    (),
    i32,
>)
    requires
        atime_s > i64::MIN,
        mtime_s > i64::MIN,
        0 <= atime_ns < 1_000_000_000,
        0 <= mtime_ns < 1_000_000_000,
{
    match filetime::set_file_times(
        path,
        filetime::FileTime::from_unix_time(atime_s, atime_ns as u32),
        filetime::FileTime::from_unix_time(mtime_s, mtime_ns as u32),
    ) {
        Ok(()) => Ok(()),
        Err(e) => Err(e.raw_os_error().unwrap_or(-1)),
    }
}

/// Relies on nix::fcntl::open: open the file at `path` with the given
/// flag and mode bits; the returned descriptor is non-negative.
#[verifier::external_body]
pub(crate) fn open_raw(path: &str, flags: i32, mode: u32) -> (r: Result<i32, i32>)
    ensures
        r is Ok ==> r->Ok_0 >= 0,
{
    match nix::fcntl::open(
        path,
        nix::fcntl::OFlag::from_bits_truncate(flags),
        nix::sys::stat::Mode::from_bits_truncate(mode),
    ) {
        Ok(fd) => Ok(fd),
        Err(e) => Err(e as i32),
    }
}

/// Relies on nix::unistd::read: read from `fd` into the start of `buf`;
/// at most `buf`'s length many bytes are read, and a return of 0 with a
/// non-empty buffer means end of file. The buffer keeps its length.
#[verifier::external_body]
pub(crate) fn read_raw(fd: i32, buf: &mut Vec<u8>) -> (r: Result<usize, i32>)
    ensures
        final(buf)@.len() == old(buf)@.len(),
        r is Ok ==> r->Ok_0 <= old(buf)@.len(),
{
    match nix::unistd::read(fd, buf.as_mut_slice()) {
        Ok(n) => Ok(n),
        Err(e) => Err(e as i32),
    }
}

/// Relies on nix::unistd::write: write `buf[from..to]` to `fd`; the
/// number of bytes written is returned and never exceeds `to - from`.
#[verifier::external_body]
pub(crate) fn write_raw(fd: i32, buf: &Vec<u8>, from: usize, to: usize) -> (r: Result<usize, i32>)
    requires
        from <= to <= buf@.len(),
    ensures
        r is Ok ==> r->Ok_0 <= to - from,
{
    match nix::unistd::write(fd, &buf[from..to]) {
        Ok(n) => Ok(n),
        Err(e) => Err(e as i32),
    }
}

/// Relies on nix::sys::sendfile::sendfile: move up to `count` bytes from
/// the current offset of `src_fd` to `des_fd` inside the kernel; the
/// number of bytes moved is returned, 0 with a positive `count` meaning
/// end of file.
#[verifier::external_body]
pub(crate) fn sendfile_raw(src_fd: i32, des_fd: i32, count: usize) -> (r: Result<usize, i32>)
    ensures
        r is Ok ==> r->Ok_0 <= count,
{
    match nix::sys::sendfile::sendfile(des_fd, src_fd, None, count) {
        Ok(n) => Ok(n),
        Err(e) => Err(e as i32),
    }
}

/// Relies on nix::unistd::close: close the descriptor `fd`.
#[verifier::external_body]
pub(crate) fn close_raw(fd: i32) -> (r: Result<(), i32>) {
    match nix::unistd::close(fd) {
        Ok(()) => Ok(()),
        Err(e) => Err(e as i32),
    }
}

/// The open flag word for reading an existing file.
pub const OPEN_READ_ONLY: i32 = 0;

/// The open flag word for writing a file, creating it if missing and
/// truncating it otherwise.
pub const OPEN_WRITE_CREATE_TRUNCATE: i32 = 0o1101;

/// The permission bits a fresh destination file is created with (as
/// altered by the umask).
pub const NEW_FILE_MODE: u32 = 0o666;

/// The OS error number that reports an already existing entry.
pub const OS_ERROR_EXISTS: i32 = 17;

/// The OS error number that reports a missing entry.
pub const OS_ERROR_MISSING: i32 = 2;

/// The stand-in error number for a link target that is not UTF-8 text.
pub const OS_ERROR_NOT_TEXT: i32 = -2;

} // verus!
