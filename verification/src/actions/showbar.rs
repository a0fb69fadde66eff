//! The silent progress sink: every hook is a no-op.
//!
//! The rendering progress bar lives outside the verified library; this
//! is its mute stand-in, used when progress display is off.

use vstd::prelude::*;

use crate::actions::Ending;
use crate::actions::PostAction;
use crate::actions::Preparation;
use crate::copiers::InCopyAction;
use crate::error::CpError;

verus! {

/// A progress sink that shows nothing.
pub struct NoBar;

impl Preparation for NoBar {
    fn get_ready(&self, total: u64) -> (r: Result<(), CpError>)
        ensures
            r is Ok,
    {
        Ok(())
    }
}

impl InCopyAction for NoBar {
    fn set_length(&self, length: u64) {
    }

    fn in_copy_run(&self, copied: u64) {
    }
}

impl PostAction for NoBar {
    fn post_run(&self, src: &str, des: &str) -> (r: Result<(), CpError>)
        ensures
            r is Ok,
    {
        Ok(())
    }
}

impl Ending for NoBar {
    fn done(&self) -> (r: Result<(), CpError>)
        ensures
            r is Ok,
    {
        Ok(())
    }
}

} // verus!
