//! The orchestrator: scan results in, then for every pair run the
//! pre-actions, fold their signals, transfer the bytes unless skipped,
//! and run the post-actions; the first fatal error aborts the whole
//! run.

use vstd::prelude::*;

use crate::actions::fold_rets;
use crate::actions::ActRet;
use crate::actions::Ending;
use crate::actions::PostAction;
use crate::actions::PostStep;
use crate::actions::PreAction;
use crate::actions::PreStep;
use crate::actions::Preparation;
use crate::copiers::FileCopy;
use crate::copiers::InCopyAction;
use crate::error::CpError;
use crate::sys::close_raw;
use crate::sys::open_raw;
use crate::sys::NEW_FILE_MODE;
use crate::sys::OPEN_READ_ONLY;
use crate::sys::OPEN_WRITE_CREATE_TRUNCATE;

verus! {

/// Drive one run over aligned pair lists: prepare the progress sink,
/// then per pair fold the pre-action signals (most restrictive wins),
/// copy the bytes on `GoOn`, run the post-steps unless the pair was
/// abandoned with `SkipRest`, and close out the sink at the end. The
/// first fatal error stops everything; pairs already processed stay as
/// they are.
pub fn run_pairs<C: FileCopy, B: Preparation + InCopyAction + PostAction + Ending>(
    copier: &mut C,
    bar: &B,
    src_paths: &Vec<String>,
    des_paths: &Vec<String>,
    pre_steps: &Vec<PreStep>,
    post_steps: &Vec<PostStep>,
) -> (r: Result<(), CpError>)
    requires
        src_paths@.len() == des_paths@.len(),
{
    match bar.get_ready(src_paths.len() as u64) {
        Ok(()) => (),
        Err(e) => {
            return Err(e);
        },
    }
    let mut i: usize = 0;
    while i < src_paths.len()
        invariant
            src_paths@.len() == des_paths@.len(),
            i <= src_paths@.len(),
        decreases src_paths@.len() - i,
    {
        let src = src_paths[i].as_str();
        let des = des_paths[i].as_str();
        let mut rets: Vec<ActRet> = Vec::new();
        let mut j: usize = 0;
        while j < pre_steps.len()
            decreases pre_steps@.len() - j,
        {
            match pre_steps[j].pre_run(src, des) {
                Ok(a) => rets.push(a),
                Err(e) => {
                    return Err(e);
                },
            }
            j = j + 1;
        }
        let fate = fold_rets(&rets);
        let mut abandoned = false;
        match fate {
            ActRet::GoOn => {
                let src_fd = match open_raw(src, OPEN_READ_ONLY, 0) {
                    Ok(fd) => fd,
                    Err(e) => {
                        return Err(CpError::Open { path: src_paths[i].clone(), errno: e });
                    },
                };
                let des_fd = match open_raw(des, OPEN_WRITE_CREATE_TRUNCATE, NEW_FILE_MODE) {
                    Ok(fd) => fd,
                    Err(e) => {
                        let _ = close_raw(src_fd);
                        return Err(CpError::Open { path: des_paths[i].clone(), errno: e });
                    },
                };
                let copied = copier.copy(src_fd, des_fd, bar);
                let _ = close_raw(src_fd);
                let _ = close_raw(des_fd);
                match copied {
                    Ok(_) => (),
                    Err(e) => {
                        return Err(e);
                    },
                }
            },
            ActRet::SkipRest => {
                abandoned = true;
            },
            ActRet::SkipCopy => (),
        }
        if !abandoned {
            let mut k: usize = 0;
            while k < post_steps.len()
                decreases post_steps@.len() - k,
            {
                let outcome = match &post_steps[k] {
                    PostStep::Preserve(p) => p.post_run(src, des),
                    PostStep::Count => bar.post_run(src, des),
                };
                match outcome {
                    Ok(()) => (),
                    Err(e) => {
                        return Err(e);
                    },
                }
                k = k + 1;
            }
        }
        i = i + 1;
    }
    bar.done()
}

} // verus!
