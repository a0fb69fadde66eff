//! The zero-copy strategy: ask the kernel to move each chunk between
//! the two descriptors directly, with no user-space buffer.

use vstd::prelude::*;

use crate::copiers::FileCopy;
use crate::error::CpError;
use crate::sys::sendfile_raw;

verus! {

/// A copier that moves bytes inside the kernel, a fixed chunk at a
/// time.
pub struct Copier {
    buf_sz: usize,
}

impl Copier {
    /// The per-step chunk size.
    pub closed spec fn chunk_size(&self) -> nat {
        self.buf_sz as nat
    }

    /// A copier that transfers up to `buf_sz` bytes per step.
    pub fn new(buf_sz: usize) -> (r: Copier)
        requires
            buf_sz >= 1,
        ensures
            r.chunk_size() == buf_sz,
    {
        Copier { buf_sz }
    }
}

impl FileCopy for Copier {
    /// A step keeps the chunk size, never moves more than one chunk,
    /// and fails only on a failed kernel transfer.
    open spec fn step_ens(pre: Copier, post: Copier, r: Result<u64, CpError>) -> bool {
        &&& post.chunk_size() == pre.chunk_size()
        &&& r is Ok ==> r->Ok_0 <= pre.chunk_size()
    }

    open spec fn step_err(e: CpError) -> bool {
        e is Write
    }

    fn simple_copy_once(&mut self, src_fd: i32, des_fd: i32) -> (r: Result<u64, CpError>) {
        match sendfile_raw(src_fd, des_fd, self.buf_sz) {
            Ok(n) => {
                proof {
                    assert(Self::step_ens(*old(self), *self, Ok(n as u64)));
                }
                Ok(n as u64)
            },
            Err(e) => {
                proof {
                    assert(Self::step_ens(*old(self), *self, Err(CpError::Write { errno: e })));
                }
                Err(CpError::Write { errno: e })
            },
        }
    }
}

} // verus!
