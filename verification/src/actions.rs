//! The action pipeline's control signal and the capabilities that the
//! pipeline composes: pre-copy actions, post-copy actions, and the
//! preparation/ending hooks that bracket a whole run.
//!
//! Pre-actions each yield an [`ActRet`]; the pipeline folds the signals so
//! that the most restrictive one wins: `SkipRest` always wins, otherwise
//! `SkipCopy` wins over `GoOn`.

use vstd::prelude::*;

use crate::error::CpError;

pub mod preserve;
pub mod recursive;
pub mod showbar;
pub mod update;

use crate::actions::preserve::PreserveAction;
use crate::actions::recursive::RecursiveAction;
use crate::actions::update::UpdateAction;

verus! {

/// The tri-state outcome of one pre-action for one (source, destination)
/// pair.
#[derive(Clone, Copy, Debug, PartialEq, Eq, Structural)]
pub enum ActRet {
    /// Proceed: the byte transfer and the post-actions both run.
    GoOn,
    /// Omit the byte transfer for this pair, but still run the
    /// post-actions (metadata work may still be required).
    SkipCopy,
    /// Abort all further processing for this pair: no transfer and no
    /// post-actions.
    SkipRest,
}

/// The most restrictive of two signals: `SkipRest` always wins, otherwise
/// `SkipCopy` wins over `GoOn`.
pub open spec fn combine_spec(a: ActRet, b: ActRet) -> ActRet {
    if a is SkipRest || b is SkipRest {
        ActRet::SkipRest
    } else if a is SkipCopy || b is SkipCopy {
        ActRet::SkipCopy
    } else {
        ActRet::GoOn
    }
}

/// The fold of a whole list of signals under [`combine_spec`], starting
/// from the neutral `GoOn`.
pub open spec fn fold_spec(s: Seq<ActRet>) -> ActRet
    decreases s.len(),
{
    if s.len() == 0 {
        ActRet::GoOn
    } else {
        combine_spec(fold_spec(s.drop_last()), s.last())
    }
}

/// Combine two signals, most restrictive wins.
pub fn combine(a: ActRet, b: ActRet) -> (r: ActRet)
    ensures
        r == combine_spec(a, b),
{
    match (a, b) {
        (ActRet::SkipRest, _) => ActRet::SkipRest,
        (_, ActRet::SkipRest) => ActRet::SkipRest,
        (ActRet::SkipCopy, _) => ActRet::SkipCopy,
        (_, ActRet::SkipCopy) => ActRet::SkipCopy,
        (ActRet::GoOn, ActRet::GoOn) => ActRet::GoOn,
    }
}

/// Fold all the signals of one pair's pre-actions into the pair's fate.
pub fn fold_rets(rets: &Vec<ActRet>) -> (r: ActRet)
    ensures
        r == fold_spec(rets@),
{
    let mut acc = ActRet::GoOn;
    let mut i: usize = 0;
    while i < rets.len()
        invariant
            i <= rets@.len(),
            acc == fold_spec(rets@.subrange(0, i as int)),
        decreases rets@.len() - i,
    {
        acc = combine(acc, rets[i]);
        i = i + 1;
        assert(rets@.subrange(0, i as int).drop_last() =~= rets@.subrange(0, i - 1 as int));
    }
    assert(rets@.subrange(0, rets@.len() as int) =~= rets@);
    acc
}

/// The fold picks the most restrictive signal in the list: it is
/// `SkipRest` exactly when some signal is `SkipRest`; `SkipCopy` exactly
/// when some signal is `SkipCopy` and none is `SkipRest`; `GoOn` exactly
/// when every signal is `GoOn`.
pub proof fn lemma_fold_most_restrictive(s: Seq<ActRet>)
    ensures
        fold_spec(s) is SkipRest <==> exists|i: int| 0 <= i < s.len() && s[i] is SkipRest,
        fold_spec(s) is SkipCopy <==> ((exists|i: int| 0 <= i < s.len() && s[i] is SkipCopy)
            && (forall|i: int| 0 <= i < s.len() ==> !(s[i] is SkipRest))),
        fold_spec(s) is GoOn <==> forall|i: int| 0 <= i < s.len() ==> s[i] is GoOn,
    decreases s.len(),
{
    if s.len() > 0 {
        lemma_fold_most_restrictive(s.drop_last());
        assert(s.last() == s[s.len() - 1]);
        assert(forall|i: int| 0 <= i < s.len() - 1 ==> s.drop_last()[i] == s[i]);
    }
}

/// A behaviour that runs before a pair's byte transfer and votes on the
/// pair's fate.
pub trait PreAction {
    /// What this action's `pre_run` guarantees.
    spec fn pre_ens(&self, src: Seq<char>, des: Seq<char>, r: Result<ActRet, CpError>) -> bool;

    /// Run the action on one (source, destination) pair before transfer.
    fn pre_run(&self, src: &str, des: &str) -> (r: Result<ActRet, CpError>)
        ensures
            self.pre_ens(src@, des@, r),
    ;
}

/// A behaviour that runs after a pair's transfer (or after a transfer
/// skipped by `SkipCopy`).
///
/// The progress sink outside the library implements this too, so the
/// method carries no contract.
pub trait PostAction {
    /// Run the action on one (source, destination) pair after transfer.
    fn post_run(&self, src: &str, des: &str) -> Result<(), CpError>;
}

/// A hook that runs once before the first pair, told the total number of
/// pairs.
///
/// The progress sink outside the library implements this too, so the
/// method carries no contract.
pub trait Preparation {
    /// Prepare for a run over `total` pairs.
    fn get_ready(&self, total: u64) -> Result<(), CpError>;
}

/// One configured pre-copy step of the pipeline, in registration order.
pub enum PreStep {
    /// The recursion gate: directory creation for directory sources.
    Recursive(RecursiveAction),
    /// The staleness check of update mode.
    Update(UpdateAction),
    /// Link preservation.
    Preserve(PreserveAction),
}

impl PreAction for PreStep {
    /// A step guarantees whatever the behaviour inside it guarantees.
    open spec fn pre_ens(&self, src: Seq<char>, des: Seq<char>, r: Result<ActRet, CpError>) -> bool {
        match self {
            PreStep::Recursive(a) => a.pre_ens(src, des, r),
            PreStep::Update(a) => a.pre_ens(src, des, r),
            PreStep::Preserve(a) => a.pre_ens(src, des, r),
        }
    }

    fn pre_run(&self, src: &str, des: &str) -> (r: Result<ActRet, CpError>) {
        match self {
            PreStep::Recursive(a) => a.pre_run(src, des),
            PreStep::Update(a) => a.pre_run(src, des),
            PreStep::Preserve(a) => a.pre_run(src, des),
        }
    }
}

/// One configured post-copy step of the pipeline, in registration
/// order.
pub enum PostStep {
    /// Attribute application onto the destination.
    Preserve(PreserveAction),
    /// The run-wide files-completed count, fed to the progress sink.
    Count,
}

/// A hook that runs once after the last pair.
///
/// The progress sink outside the library implements this too, so the
/// method carries no contract.
pub trait Ending {
    /// Close out a finished run.
    fn done(&self) -> Result<(), CpError>;
}

} // verus!
