//! The staleness check: in update mode a pair whose destination exists
//! and is not older than its source is abandoned entirely — no transfer
//! and no post-processing.

use vstd::prelude::*;

use crate::actions::ActRet;
use crate::actions::PreAction;
use crate::error::CpError;
use crate::sys::stat_meta;
use crate::sys::OS_ERROR_MISSING;

verus! {

/// The pre-action that skips pairs whose destination is already up to
/// date.
pub struct UpdateAction;

/// Is the source timestamp strictly newer than the destination one?
/// Whole seconds decide; the nanosecond parts break a tie.
pub open spec fn newer_spec(src_s: i64, src_ns: i64, des_s: i64, des_ns: i64) -> bool {
    src_s > des_s || (src_s == des_s && src_ns > des_ns)
}

/// What update mode decides for one pair, given the two modification
/// times (the target's only when such a file is present).
pub open spec fn update_decision_spec(src_s: i64, src_ns: i64, des: Option<(i64, i64)>) -> ActRet {
    match des {
        None => ActRet::GoOn,
        Some((des_s, des_ns)) => if newer_spec(src_s, src_ns, des_s, des_ns) {
            ActRet::GoOn
        } else {
            ActRet::SkipRest
        },
    }
}

/// Decide one pair's staleness from the source's modification time and
/// the destination's, if the destination exists.
pub fn decide_update(src_s: i64, src_ns: i64, des: Option<(i64, i64)>) -> (r: ActRet)
    ensures
        r == update_decision_spec(src_s, src_ns, des),
{
    match des {
        None => ActRet::GoOn,
        Some((des_s, des_ns)) => {
            if src_s > des_s || (src_s == des_s && src_ns > des_ns) {
                ActRet::GoOn
            } else {
                ActRet::SkipRest
            }
        },
    }
}

/// Update mode's verdict is two-valued and monotone in the
/// timestamps: `GoOn` exactly when no target file is present or the
/// source's time is the strictly greater one, `SkipRest` in every
/// other case.
pub proof fn lemma_staleness_monotonic(src_s: i64, src_ns: i64, des: Option<(i64, i64)>)
    ensures
        update_decision_spec(src_s, src_ns, des) is GoOn <==> (des is None || newer_spec(
            src_s,
            src_ns,
            (des->0).0,
            (des->0).1,
        )),
        update_decision_spec(src_s, src_ns, des) is SkipRest <==> (des is Some && !newer_spec(
            src_s,
            src_ns,
            (des->0).0,
            (des->0).1,
        )),
{
}

impl PreAction for UpdateAction {
    /// The staleness check never asks for a bare transfer skip: it
    /// yields `GoOn` or abandons the pair with `SkipRest`. When it
    /// fails, the error is unreadable metadata, naming the destination
    /// or the source.
    open spec fn pre_ens(&self, src: Seq<char>, des: Seq<char>, r: Result<ActRet, CpError>) -> bool {
        &&& r is Ok ==> !(r->Ok_0 is SkipCopy)
        &&& r is Err ==> (r->Err_0 matches CpError::Metadata { path, errno } && (path@ == des
            || path@ == src))
    }

    fn pre_run(&self, src: &str, des: &str) -> (r: Result<ActRet, CpError>) {
        let dm = match stat_meta(des) {
            Ok(dm) => dm,
            Err(e) => {
                if e == OS_ERROR_MISSING {
                    // No file at the target yet: proceed, without even
                    // reading the source's metadata. This agrees with
                    // the decision function for every source time.
                    proof {
                        assert(forall|ss: i64, sn: i64|
                            update_decision_spec(ss, sn, None) == ActRet::GoOn);
                    }
                    return Ok(ActRet::GoOn);
                } else {
                    return Err(CpError::Metadata { path: des.to_owned(), errno: e });
                }
            },
        };
        let sm = match stat_meta(src) {
            Ok(m) => m,
            Err(e) => {
                return Err(CpError::Metadata { path: src.to_owned(), errno: e });
            },
        };
        Ok(decide_update(sm.mtime_s, sm.mtime_ns, Some((dm.mtime_s, dm.mtime_ns))))
    }
}

} // verus!
