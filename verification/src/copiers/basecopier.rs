//! The buffered copy strategy: read a chunk into memory, write exactly
//! those bytes out.

use vstd::prelude::*;

use crate::copiers::write_all;
use crate::copiers::FileCopy;
use crate::error::CpError;
use crate::sys::read_raw;

verus! {

/// A buffered copier with a fixed in-memory transfer buffer.
pub struct Copier {
    buffer: Vec<u8>,
}

impl Copier {
    /// The transfer buffer's size.
    pub closed spec fn buf_size(&self) -> nat {
        self.buffer@.len()
    }

    /// A copier with a transfer buffer of `buf_sz` bytes.
    pub fn new(buf_sz: usize) -> (r: Copier)
        requires
            buf_sz >= 1,
        ensures
            r.buf_size() == buf_sz,
    {
        let mut buffer: Vec<u8> = Vec::new();
        while buffer.len() < buf_sz
            invariant
                buffer@.len() <= buf_sz,
            decreases buf_sz - buffer@.len(),
        {
            buffer.push(0u8);
        }
        Copier { buffer }
    }
}

impl FileCopy for Copier {
    /// A step keeps the buffer's size, never moves more than fits in
    /// it, and fails only on a read or write error.
    open spec fn step_ens(pre: Copier, post: Copier, r: Result<u64, CpError>) -> bool {
        &&& post.buf_size() == pre.buf_size()
        &&& r is Ok ==> r->Ok_0 <= pre.buf_size()
    }

    open spec fn step_err(e: CpError) -> bool {
        e is Read || e is Write
    }

    fn simple_copy_once(&mut self, src_fd: i32, des_fd: i32) -> (r: Result<u64, CpError>) {
        let n = match read_raw(src_fd, &mut self.buffer) {
            Ok(n) => n,
            Err(e) => {
                proof {
                    assert(self.buffer@.len() == old(self).buffer@.len());
                    assert(Self::step_ens(*old(self), *self, Err(CpError::Read { errno: e })));
                }
                return Err(CpError::Read { errno: e });
            },
        };
        if n == 0 {
            proof {
                assert(Self::step_ens(*old(self), *self, Ok(0u64)));
            }
            return Ok(0);
        }
        match write_all(des_fd, &self.buffer, n) {
            Ok(()) => Ok(n as u64),
            Err(e) => Err(e),
        }
    }
}

} // verus!
