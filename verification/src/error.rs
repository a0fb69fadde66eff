//! The fatal errors of the copy engine.
//!
//! Recoverable conditions (an attribute that could not be applied) are not
//! errors and never appear here; the tri-state control signal is not an
//! error either.

use vstd::prelude::*;

verus! {

/// A fatal error: it aborts the whole run.
///
/// `errno` fields carry the raw OS error number reported by the failing
/// call, so the caller can render or inspect the cause.
#[derive(Clone, Debug)]
pub enum CpError {
    /// Metadata of a path could not be read (missing or unreadable source).
    Metadata { path: String, errno: i32 },
    /// A destination directory could not be created (other than by
    /// already existing).
    CreateDir { path: String, errno: i32 },
    /// A destination symbolic link could not be created.
    Symlink { path: String, errno: i32 },
    /// A directory tree could not be walked to the end.
    Walk { path: String },
    /// A file could not be opened.
    Open { path: String, errno: i32 },
    /// A read from an open file failed.
    Read { errno: i32 },
    /// A write to an open file failed, or made no progress.
    Write { errno: i32 },
    /// The source is a directory but recursive mode is off.
    NeedRecursive { path: String },
    /// The destination must be a directory but is not.
    DestNotDirectory { path: String },
    /// Metadata of an open file handle could not be read.
    Handle { errno: i32 },
    /// The byte counter would overflow.
    TooLarge,
}

} // verus!
