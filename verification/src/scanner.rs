//! The path-resolution scanner: walk each source root and compute, for
//! every entry found, the matching destination path.
//!
//! The two lists a scan produces are always equal in length and aligned
//! position by position: entry `i`'s destination is a pure function of
//! entry `i`'s source path, the root's parent prefix, the destination
//! root and the root's strip depth.

use vstd::prelude::*;

use crate::error::CpError;
use crate::paths::components_exec;
use crate::paths::dest_path_spec;
use crate::paths::parent_of;
use crate::paths::strip_depth_spec;

verus! {

/// The pair lists carved into one aligned block per root, in root
/// order: `cuts[j]` is where root `j`'s block begins, each block opens
/// with its root itself, and every destination in a block is computed
/// from its own source with that root's parent prefix and that root's
/// strip depth — no entry depends on any other.
pub open spec fn blocks_per_root(
    srcs: Seq<String>,
    dess: Seq<String>,
    paths: Seq<String>,
    des_root: Seq<char>,
    strip: bool,
    cuts: Seq<int>,
) -> bool {
    &&& cuts.len() == paths.len() + 1
    &&& cuts[0] == 0
    &&& cuts[paths.len() as int] == srcs.len()
    &&& forall|j: int| 0 <= j < paths.len() ==> #[trigger] cuts[j] < cuts[j + 1]
    &&& forall|j: int| 0 <= j < paths.len() ==> #[trigger] srcs[cuts[j]]@ == paths[j]@
    &&& forall|j: int, i: int|
        #![trigger dess[i], cuts[j]]
        0 <= j < paths.len() && cuts[j] <= i < cuts[j + 1] ==> dess[i]@ == dest_path_spec(
            srcs[i]@,
            parent_of(paths[j]@),
            des_root,
            strip_depth_spec(paths[j]@, strip),
        )
}

/// The error names one of the scanned roots: that root's metadata or
/// its walk is what failed.
pub open spec fn names_some_root(e: CpError, paths: Seq<String>) -> bool {
    exists|j: int|
        #![trigger paths[j]]
        0 <= j < paths.len() && ((e matches CpError::Metadata { path, errno } && path@ == paths[j]@)
            || (e matches CpError::Walk { path } && path@ == paths[j]@))
}

/// The pair lists admit a carving into per-root blocks as
/// [`blocks_per_root`] describes, for some sequence of cut points.
pub open spec fn scan_blocks(
    srcs: Seq<String>,
    dess: Seq<String>,
    paths: Seq<String>,
    des_root: Seq<char>,
    strip: bool,
) -> bool {
    exists|cuts: Seq<int>| blocks_per_root(srcs, dess, paths, des_root, strip, cuts)
}

} // verus!

pub mod basescanner;

verus! {

/// The number of leading components to strip from each entry under the
/// root `root`: all of the root's components when `strip` is on, one
/// fewer when it is off.
pub fn strip_depth_for(root: &str, strip: bool) -> (d: usize)
    ensures
        d as int == strip_depth_spec(root@, strip),
{
    let comps = components_exec(root);
    let n = comps.len();
    if strip {
        n
    } else if n > 0 {
        n - 1
    } else {
        0
    }
}

/// A scanner that expands one source root into aligned source and
/// destination path lists.
pub trait DirScan {
    /// The destination root the scanner writes under.
    spec fn des_root(&self) -> Seq<char>;

    /// Expand one root: every discovered entry paired with its computed
    /// destination, the root itself first.
    fn in_scan_action(&self, cur_entry: &str, strip_depth: usize) -> (r: Result<
        (Vec<String>, Vec<String>),
        CpError,
    >)
        ensures
            r is Ok ==> {
                let (srcs, dess) = r->Ok_0;
                &&& srcs@.len() == dess@.len()
                &&& srcs@.len() >= 1
                &&& srcs@[0]@ == cur_entry@
                &&& forall|i: int|
                    0 <= i < srcs@.len() ==> dess@[i]@ == dest_path_spec(
                        srcs@[i]@,
                        parent_of(cur_entry@),
                        self.des_root(),
                        strip_depth as int,
                    )
            },
            r is Err ==> ((r->Err_0 matches CpError::Metadata { path, errno } && path@
                == cur_entry@) || (r->Err_0 matches CpError::Walk { path } && path@
                == cur_entry@)),
    ;

    /// Scan every root in order and concatenate the aligned pair
    /// lists: the result is one block per root in argument order, each
    /// opening with its root, each destination a pure function of its
    /// own source and its root's parent prefix and strip depth. A
    /// failure names the root whose metadata or walk failed.
    #[verifier::rlimit(60)]
    fn scan(&self, paths: &[String], strip: bool) -> (r: Result<(Vec<String>, Vec<String>), CpError>)
        ensures
            r is Ok ==> (r->Ok_0).0@.len() == (r->Ok_0).1@.len(),
            r is Ok ==> (r->Ok_0).0@.len() >= paths@.len(),
            paths@.len() == 0 ==> r is Ok && (r->Ok_0).0@.len() == 0,
            r is Ok ==> scan_blocks(
                (r->Ok_0).0@,
                (r->Ok_0).1@,
                paths@,
                self.des_root(),
                strip,
            ),
            r is Err ==> ((r->Err_0 is Metadata || r->Err_0 is Walk) && names_some_root(
                r->Err_0,
                paths@,
            )),
    {
        let mut src_paths: Vec<String> = Vec::new();
        let mut des_paths: Vec<String> = Vec::new();
        let ghost mut cuts: Seq<int> = seq![0];
        let mut i: usize = 0;
        while i < paths.len()
            invariant
                src_paths@.len() == des_paths@.len(),
                src_paths@.len() >= i,
                i <= paths@.len(),
                cuts.len() == i + 1,
                cuts[0] == 0,
                cuts[i as int] == src_paths@.len(),
                forall|j: int| 0 <= j <= i ==> 0 <= #[trigger] cuts[j] <= src_paths@.len(),
                forall|j: int| 0 <= j < i ==> #[trigger] cuts[j] < cuts[j + 1],
                forall|j: int| 0 <= j < i ==> #[trigger] src_paths@[cuts[j]]@ == paths@[j]@,
                forall|j: int, k: int|
                    #![trigger des_paths@[k], cuts[j]]
                    0 <= j < i && cuts[j] <= k < cuts[j + 1] ==> des_paths@[k]@ == dest_path_spec(
                        src_paths@[k]@,
                        parent_of(paths@[j]@),
                        self.des_root(),
                        strip_depth_spec(paths@[j]@, strip),
                    ),
            decreases paths@.len() - i,
        {
            let depth = strip_depth_for(paths[i].as_str(), strip);
            let ghost pre_len = src_paths@.len() as int;
            let ghost pre_srcs = src_paths@;
            let ghost pre_dess = des_paths@;
            match self.in_scan_action(paths[i].as_str(), depth) {
                Ok((mut srcs, mut dess)) => {
                    let ghost new_srcs = srcs@;
                    let ghost new_dess = dess@;
                    src_paths.append(&mut srcs);
                    des_paths.append(&mut dess);
                    proof {
                        let new_len = src_paths@.len() as int;
                        assert(src_paths@ == pre_srcs + new_srcs);
                        assert(des_paths@ == pre_dess + new_dess);
                        cuts = cuts.push(new_len);
                        assert(cuts[(i + 1) as int] == new_len);
                        assert(new_len == pre_len + new_srcs.len());
                        assert forall|j: int| 0 <= j <= i + 1 implies 0 <= #[trigger] cuts[j]
                            <= new_len by {
                            if j <= i {
                                assert(cuts[j] <= pre_len);
                            }
                        }
                        assert forall|j: int| 0 <= j < i + 1 implies #[trigger] cuts[j] < cuts[j
                            + 1] by {
                            if j == i {
                                assert(cuts[j] == pre_len);
                            }
                        }
                        assert forall|j: int| 0 <= j < i + 1 implies #[trigger] src_paths@[cuts[j]]@
                            == paths@[j]@ by {
                            if j < i {
                                assert(cuts[j] < cuts[j + 1] <= pre_len);
                                assert(src_paths@[cuts[j]] == pre_srcs[cuts[j]]);
                                assert(pre_srcs[cuts[j]]@ == paths@[j]@);
                            } else {
                                assert(cuts[j] == pre_len);
                                assert(src_paths@[pre_len] == new_srcs[0]);
                                assert(new_srcs[0]@ == paths@[i as int]@);
                            }
                        }
                        assert forall|j: int, k: int|
                            #![trigger des_paths@[k], cuts[j]]
                            0 <= j < i + 1 && cuts[j] <= k < cuts[j + 1] implies des_paths@[k]@
                            == dest_path_spec(
                            src_paths@[k]@,
                            parent_of(paths@[j]@),
                            self.des_root(),
                            strip_depth_spec(paths@[j]@, strip),
                        ) by {
                            if j < i {
                                assert(k < cuts[j + 1] <= pre_len);
                                assert(src_paths@[k] == pre_srcs[k]);
                                assert(des_paths@[k] == pre_dess[k]);
                                assert(pre_dess[k]@ == dest_path_spec(
                                    pre_srcs[k]@,
                                    parent_of(paths@[j]@),
                                    self.des_root(),
                                    strip_depth_spec(paths@[j]@, strip),
                                ));
                            } else {
                                assert(cuts[j] == pre_len);
                                assert(src_paths@[k] == new_srcs[k - pre_len]);
                                assert(des_paths@[k] == new_dess[k - pre_len]);
                                assert(new_dess[k - pre_len]@ == dest_path_spec(
                                    new_srcs[k - pre_len]@,
                                    parent_of(paths@[i as int]@),
                                    self.des_root(),
                                    depth as int,
                                ));
                                assert(depth as int == strip_depth_spec(paths@[i as int]@, strip));
                            }
                        }
                    }
                },
                Err(e) => {
                    proof {
                        assert(((e matches CpError::Metadata { path, errno } && path@ == paths@[
                        i as int]@) || (e matches CpError::Walk { path } && path@ == paths@[
                        i as int]@)));
                        assert(names_some_root(e, paths@));
                    }
                    return Err(e);
                },
            }
            i = i + 1;
        }
        let result = (src_paths, des_paths);
        proof {
            assert(blocks_per_root(result.0@, result.1@, paths@, self.des_root(), strip, cuts));
            assert(scan_blocks(result.0@, result.1@, paths@, self.des_root(), strip));
        }
        Ok(result)
    }
}

} // verus!
