//! A self-contained buffered byte copier: read a chunk, write it out
//! whole, report cumulative progress, until end of file.

use vstd::prelude::*;

use crate::copiers::write_all;
use crate::copiers::InCopyAction;
use crate::error::CpError;
use crate::sys::read_raw;

verus! {

/// A buffered copier over open file descriptors.
pub struct Copier {
    buffer: Vec<u8>,
}

impl Copier {
    /// The transfer buffer's size.
    pub closed spec fn buf_size(&self) -> nat {
        self.buffer@.len()
    }

    /// A copier with a transfer buffer of `buf_sz` bytes.
    pub fn new(buf_sz: usize) -> (r: Copier)
        requires
            buf_sz >= 1,
        ensures
            r.buf_size() == buf_sz,
    {
        let mut buffer: Vec<u8> = Vec::new();
        while buffer.len() < buf_sz
            invariant
                buffer@.len() <= buf_sz,
            decreases buf_sz - buffer@.len(),
        {
            buffer.push(0u8);
        }
        Copier { buffer }
    }

    /// Copy the whole of `src_fd` to `des_fd` through the buffer,
    /// announcing `total` (when known) and then the cumulative bytes
    /// moved after every chunk; the count is returned at end of file.
    /// The buffer keeps its size, and a failure is a read or write
    /// error or the byte counter's overflow.
    pub fn copy<A: InCopyAction>(
        &mut self,
        src_fd: i32,
        des_fd: i32,
        total: Option<u64>,
        act: &A,
    ) -> (r: Result<u64, CpError>)
        ensures
            final(self).buf_size() == old(self).buf_size(),
            r is Err ==> (r->Err_0 is Read || r->Err_0 is Write || r->Err_0 is TooLarge),
    {
        match total {
            Some(t) => act.set_length(t),
            None => (),
        }
        let ghost n0 = self.buffer@.len();
        let mut copied: u64 = 0;
        loop
            invariant
                copied <= u64::MAX,
                self.buffer@.len() == n0,
                n0 == old(self).buffer@.len(),
            decreases u64::MAX - copied,
        {
            let n = match read_raw(src_fd, &mut self.buffer) {
                Ok(n) => n,
                Err(e) => {
                    return Err(CpError::Read { errno: e });
                },
            };
            if n == 0 {
                return Ok(copied);
            }
            match write_all(des_fd, &self.buffer, n) {
                Ok(()) => (),
                Err(e) => {
                    return Err(e);
                },
            }
            if copied > u64::MAX - (n as u64) {
                return Err(CpError::TooLarge);
            }
            copied = copied + (n as u64);
            act.in_copy_run(copied);
        }
    }
}

} // verus!
