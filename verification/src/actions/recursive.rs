//! The recursion gate: when the source is a directory, put the matching
//! destination directory in place (idempotently) and skip the byte
//! transfer; post-actions still run for it.

use vstd::prelude::*;

use crate::actions::ActRet;
use crate::actions::PreAction;
use crate::error::CpError;
use crate::sys::kind_of_mode;
use crate::sys::lstat_meta;
use crate::sys::stat_meta;
use crate::sys::EntryKind;
use crate::sys::OS_ERROR_EXISTS;

verus! {

/// The permission bits a fresh destination directory is created with
/// (as altered by the umask).
pub const NEW_DIR_MODE: u32 = 0o777;

/// The pre-action that creates destination directories for source
/// directories.
pub struct RecursiveAction;

/// Does the recursion gate treat this source as a directory to put in
/// place: the followed metadata names a directory, and the entry is
/// not itself a symbolic link (a missing or unreadable link record
/// counts as no link).
pub open spec fn treats_as_directory_spec(kind: EntryKind, link_kind: Option<EntryKind>) -> bool {
    kind is Directory && !(link_kind matches Some(k) && k is Symlink)
}

/// `None` for a source that is a directory in its own right, whose
/// verdict needs the `mkdir` attempt first; `Some(GoOn)` for every
/// other source, which is simply copied as bytes.
pub open spec fn gate_pass_spec(kind: EntryKind, link_kind: Option<EntryKind>) -> Option<ActRet> {
    if treats_as_directory_spec(kind, link_kind) {
        None
    } else {
        Some(ActRet::GoOn)
    }
}

/// See [`gate_pass_spec`].
pub fn gate_pass(kind: EntryKind, link_kind: Option<EntryKind>) -> (r: Option<ActRet>)
    ensures
        r == gate_pass_spec(kind, link_kind),
{
    let is_link = match link_kind {
        Some(k) => k == EntryKind::Symlink,
        None => false,
    };
    if kind == EntryKind::Directory && !is_link {
        None
    } else {
        Some(ActRet::GoOn)
    }
}

/// How the pre-step reads a `mkdir` result.
///
/// A fresh directory and an `OS_ERROR_EXISTS` refusal are both taken
/// as "the directory is in place", and nothing else is: every later
/// attempt at a path that a former attempt created therefore comes
/// back `Ok` as well. Any other refusal is fatal.
pub fn gate_outcome(r: Result<(), i32>, des: &str) -> (out: Result<ActRet, CpError>)
    ensures
        out is Ok <==> (r is Ok || r == Result::<(), i32>::Err(OS_ERROR_EXISTS)),
        out is Ok ==> out->Ok_0 == ActRet::SkipCopy,
        out is Err ==> (out->Err_0 matches CpError::CreateDir { path, errno } && path@ == des@
            && errno == r->Err_0),
{
    match r {
        Ok(()) => Ok(ActRet::SkipCopy),
        Err(e) => {
            if e == OS_ERROR_EXISTS {
                Ok(ActRet::SkipCopy)
            } else {
                Err(CpError::CreateDir { path: des.to_owned(), errno: e })
            }
        },
    }
}

impl PreAction for RecursiveAction {
    /// The recursion gate never asks for a pair to be abandoned: it
    /// yields `SkipCopy` for a directory it has put in place and `GoOn`
    /// otherwise. When it fails, the error is the source's unreadable
    /// metadata or the destination directory's failed creation, naming
    /// that path.
    open spec fn pre_ens(&self, src: Seq<char>, des: Seq<char>, r: Result<ActRet, CpError>) -> bool {
        &&& r is Ok ==> !(r->Ok_0 is SkipRest)
        &&& r is Err ==> ((r->Err_0 matches CpError::Metadata { path, errno } && path@ == src) || (
        r->Err_0 matches CpError::CreateDir { path, errno } && path@ == des))
    }

    fn pre_run(&self, src: &str, des: &str) -> (r: Result<ActRet, CpError>) {
        let meta = match stat_meta(src) {
            Ok(m) => m,
            Err(e) => {
                return Err(CpError::Metadata { path: src.to_owned(), errno: e });
            },
        };
        let link_kind = match lstat_meta(src) {
            Ok(lm) => Some(kind_of_mode(lm.mode)),
            Err(_) => None,
        };
        match gate_pass(kind_of_mode(meta.mode), link_kind) {
            Some(signal) => Ok(signal),
            None => gate_outcome(crate::sys::mkdir_raw(des, NEW_DIR_MODE), des),
        }
    }
}

} // verus!
