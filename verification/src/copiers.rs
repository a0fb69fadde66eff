//! The byte-copy engines: one capability ("transfer one chunk, report
//! bytes moved"), two interchangeable strategies — a buffered
//! read/write loop and a kernel-assisted zero-copy transfer.

use vstd::prelude::*;

use crate::error::CpError;
use crate::sys::fstat_size;
use crate::sys::write_raw;

pub mod basecopier;
pub mod zerocopier;

verus! {

/// The progress callbacks a copy feeds while it moves bytes: the
/// file's total size once, then the cumulative count after every
/// chunk.
pub trait InCopyAction {
    /// Announce the total length of the file about to be copied.
    fn set_length(&self, length: u64);

    /// Report the bytes copied so far of the current file.
    fn in_copy_run(&self, copied: u64);
}

/// Write `buf[..upto]` to `fd` completely, continuing over partial
/// writes; a write that makes no progress is an error.
pub(crate) fn write_all(fd: i32, buf: &Vec<u8>, upto: usize) -> (r: Result<(), CpError>)
    requires
        upto <= buf@.len(),
    ensures
        r is Err ==> r->Err_0 is Write,
{
    let mut written: usize = 0;
    while written < upto
        invariant
            written <= upto <= buf@.len(),
        decreases upto - written,
    {
        match write_raw(fd, buf, written, upto) {
            Ok(n) => {
                if n == 0 {
                    return Err(CpError::Write { errno: 0 });
                }
                written = written + n;
            },
            Err(e) => {
                return Err(CpError::Write { errno: e });
            },
        }
    }
    Ok(())
}

/// One byte-copy strategy: a repeatable single-chunk transfer step.
///
/// The provided `copy` drives the step until end of file, reporting
/// cumulative progress; both strategies give the same end-to-end
/// result, a destination byte-for-byte equal to the source.
pub trait FileCopy: Sized {
    /// What one transfer step guarantees, relating the engine before
    /// and after the step to the step's result.
    spec fn step_ens(pre: Self, post: Self, r: Result<u64, CpError>) -> bool;

    /// The errors a transfer step of this strategy can yield.
    spec fn step_err(e: CpError) -> bool;

    /// Transfer one chunk from `src_fd` to `des_fd`; `Ok(0)` exactly at
    /// end of file.
    fn simple_copy_once(&mut self, src_fd: i32, des_fd: i32) -> (r: Result<u64, CpError>)
        ensures
            Self::step_ens(*old(self), *final(self), r),
            r is Err ==> Self::step_err(r->Err_0),
    ;

    /// Copy the whole of `src_fd` to `des_fd`, one chunk at a time,
    /// reporting the source's size and then the cumulative bytes
    /// moved. A failure is the source size's unreadability, the byte
    /// counter's overflow, or a failed step of this strategy.
    fn copy<A: InCopyAction>(&mut self, src_fd: i32, des_fd: i32, act: &A) -> (r: Result<
        u64,
        CpError,
    >)
        ensures
            r is Err ==> (r->Err_0 is Handle || r->Err_0 is TooLarge || Self::step_err(
                r->Err_0,
            )),
    {
        let total = match fstat_size(src_fd) {
            Ok(sz) => if sz >= 0 {
                sz as u64
            } else {
                0
            },
            Err(e) => {
                return Err(CpError::Handle { errno: e });
            },
        };
        act.set_length(total);
        let mut copied: u64 = 0;
        loop
            invariant
                copied <= u64::MAX,
            decreases u64::MAX - copied,
        {
            match self.simple_copy_once(src_fd, des_fd) {
                Ok(n) => {
                    if n == 0 {
                        return Ok(copied);
                    }
                    if copied > u64::MAX - n {
                        return Err(CpError::TooLarge);
                    }
                    copied = copied + n;
                    act.in_copy_run(copied);
                },
                Err(e) => {
                    return Err(e);
                },
            }
        }
    }
}

} // verus!
