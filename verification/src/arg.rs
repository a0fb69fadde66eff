//! The run's configuration: the source paths, the destination, the
//! mode flags — and from them, the resolved pair list and the
//! assembled action pipeline.

use vstd::prelude::*;

use crate::actions::preserve::preserve_list_spec;
use crate::actions::preserve::PreserveAction;
use crate::actions::recursive::RecursiveAction;
use crate::actions::update::UpdateAction;
use crate::actions::PostStep;
use crate::actions::PreStep;
use crate::error::CpError;
use crate::paths::last_segment;
use crate::scanner::basescanner::BaseScanner;
use crate::scanner::scan_blocks;
use crate::scanner::DirScan;
use crate::sys::kind_of_mode;
use crate::sys::lstat_meta;
use crate::sys::stat_meta;
use crate::sys::EntryKind;
use crate::sys::OS_ERROR_MISSING;

verus! {

/// Where the resolver sends a run: a pure function of the observed
/// plain facts about the sources and the destination.
#[derive(Clone, Copy, Debug, PartialEq, Eq, Structural)]
pub enum PairRoute {
    /// One non-directory source paired with the destination;
    /// `into_dir` says the destination is a directory, so the pair
    /// lands under it by the source's last segment.
    Single { into_dir: bool },
    /// Expand the sources with a recursive scan.
    Scan,
    /// Pair each source with its last segment under the directory
    /// destination.
    EachUnderDir,
    /// A directory source demands recursive mode: fatal.
    RefuseNeedRecursive,
    /// The destination must be a directory but is not: fatal.
    RefuseDestNotDirectory,
}

/// The route of a run with exactly one source. `RefuseNeedRecursive`
/// arises exactly for a directory source, a directory destination and
/// recursive mode off; `RefuseDestNotDirectory` exactly for a
/// directory source that is no symbolic link over a non-directory
/// destination; everything else resolves to a pair or a scan.
pub open spec fn route_single_spec(
    is_src_dir: bool,
    is_src_link: bool,
    is_des_dir: bool,
    recursive: bool,
) -> PairRoute {
    if !is_src_dir {
        PairRoute::Single { into_dir: is_des_dir }
    } else if is_des_dir {
        if recursive {
            PairRoute::Scan
        } else {
            PairRoute::RefuseNeedRecursive
        }
    } else if is_src_link {
        PairRoute::Single { into_dir: false }
    } else {
        PairRoute::RefuseDestNotDirectory
    }
}

/// Decide the route of a run with exactly one source.
pub fn route_single(is_src_dir: bool, is_src_link: bool, is_des_dir: bool, recursive: bool) -> (r:
    PairRoute)
    ensures
        r == route_single_spec(is_src_dir, is_src_link, is_des_dir, recursive),
{
    if !is_src_dir {
        PairRoute::Single { into_dir: is_des_dir }
    } else if is_des_dir {
        if recursive {
            PairRoute::Scan
        } else {
            PairRoute::RefuseNeedRecursive
        }
    } else if is_src_link {
        PairRoute::Single { into_dir: false }
    } else {
        PairRoute::RefuseDestNotDirectory
    }
}

/// The route of a run with several sources (or none): a non-directory
/// destination is refused outright, recursive mode scans, and
/// otherwise each source lands under the destination by its last
/// segment.
pub open spec fn route_many_spec(is_des_dir: bool, recursive: bool) -> PairRoute {
    if !is_des_dir {
        PairRoute::RefuseDestNotDirectory
    } else if recursive {
        PairRoute::Scan
    } else {
        PairRoute::EachUnderDir
    }
}

/// Decide the route of a run with several sources (or none).
pub fn route_many(is_des_dir: bool, recursive: bool) -> (r: PairRoute)
    ensures
        r == route_many_spec(is_des_dir, recursive),
{
    if !is_des_dir {
        PairRoute::RefuseDestNotDirectory
    } else if recursive {
        PairRoute::Scan
    } else {
        PairRoute::EachUnderDir
    }
}

/// The validated configuration of one run, as the command line hands
/// it over.
pub struct Args {
    /// The copy sources.
    pub srcs: Vec<String>,
    /// The copy destination.
    pub des: String,
    /// Recursive copy.
    pub recursive: bool,
    /// Copy only onto missing or strictly older destinations.
    pub update: bool,
    /// The requested preservation set, if any.
    pub preserve: Option<String>,
    /// Show no progress bar.
    pub mute: bool,
}

impl Args {
    /// Join the destination root and a source's last path segment into
    /// the destination path of a single-file copy.
    fn des_with_basename(&self, src: &str) -> (r: String)
        ensures
            r@ == self.des@ + seq!['/'] + crate::paths::last_segment_of(src@),
    {
        let base = last_segment(src);
        let mut r = self.des.clone();
        r.append("/");
        r.append(base.as_str());
        proof {
            reveal_strlit("/");
            assert(("/")@ =~= seq!['/']);
        }
        r
    }

    /// Resolve the configured sources and destination into the aligned
    /// pair lists the run will process: a lone non-directory source is
    /// paired with the destination (or a path under it when the
    /// destination is a directory); directory sources are expanded by a
    /// recursive scan, and demand recursive mode and a directory
    /// destination. Success brings at least one pair per source; in
    /// non-recursive runs the sources come back exactly as given, each
    /// destination either the configured target itself or the target
    /// joined with its source's last path segment. A failure is
    /// unreadable metadata, a failed walk, a directory source without
    /// recursive mode, or a non-directory destination where a
    /// directory is needed.
    pub fn zip_src2des_pairs(&self) -> (r: Result<(Vec<String>, Vec<String>), CpError>)
        ensures
            r is Ok ==> (r->Ok_0).0@.len() == (r->Ok_0).1@.len(),
            r is Ok ==> (r->Ok_0).0@.len() >= self.srcs@.len(),
            !self.recursive && r is Ok ==> ((r->Ok_0).0@.len() == self.srcs@.len() && forall|i: int|
                0 <= i < self.srcs@.len() ==> (r->Ok_0).0@[i]@ == self.srcs@[i]@),
            !self.recursive && r is Ok ==> forall|i: int|
                0 <= i < self.srcs@.len() ==> ((r->Ok_0).1@[i]@ == self.des@ || (r->Ok_0).1@[i]@
                    == self.des@ + seq!['/'] + crate::paths::last_segment_of(self.srcs@[i]@)),
            self.recursive && r is Ok ==> (scan_blocks(
                (r->Ok_0).0@,
                (r->Ok_0).1@,
                self.srcs@,
                self.des@,
                false,
            ) || ((r->Ok_0).0@.len() == 1 && self.srcs@.len() == 1 && (r->Ok_0).0@[0]@
                == self.srcs@[0]@ && ((r->Ok_0).1@[0]@ == self.des@ || (r->Ok_0).1@[0]@ == self.des@
                + seq!['/'] + crate::paths::last_segment_of(self.srcs@[0]@)))),
            r is Err ==> (r->Err_0 is Metadata || r->Err_0 is Walk || r->Err_0 is NeedRecursive
                || r->Err_0 is DestNotDirectory),
            r is Err && r->Err_0 is NeedRecursive ==> !self.recursive,
    {
        let is_des_dir = match stat_meta(self.des.as_str()) {
            Ok(m) => kind_of_mode(m.mode) == EntryKind::Directory,
            Err(e) => {
                if e == OS_ERROR_MISSING {
                    false
                } else {
                    return Err(CpError::Metadata { path: self.des.clone(), errno: e });
                }
            },
        };
        if self.srcs.len() == 1 {
            let src = &self.srcs[0];
            let sm = match stat_meta(src.as_str()) {
                Ok(m) => m,
                Err(e) => {
                    return Err(CpError::Metadata { path: src.clone(), errno: e });
                },
            };
            let is_src_dir = kind_of_mode(sm.mode) == EntryKind::Directory;
            let is_src_link = match lstat_meta(src.as_str()) {
                Ok(lm) => kind_of_mode(lm.mode) == EntryKind::Symlink,
                Err(e) => {
                    return Err(CpError::Metadata { path: src.clone(), errno: e });
                },
            };
            match route_single(is_src_dir, is_src_link, is_des_dir, self.recursive) {
                PairRoute::Single { into_dir } => {
                    let des = if into_dir {
                        self.des_with_basename(src.as_str())
                    } else {
                        self.des.clone()
                    };
                    let mut src_paths: Vec<String> = Vec::new();
                    let mut des_paths: Vec<String> = Vec::new();
                    src_paths.push(src.clone());
                    des_paths.push(des);
                    Ok((src_paths, des_paths))
                },
                PairRoute::Scan => {
                    let scanner = BaseScanner::new(self.des.as_str());
                    scanner.scan(self.srcs.as_slice(), false)
                },
                PairRoute::RefuseNeedRecursive => Err(CpError::NeedRecursive { path: src.clone() }),
                PairRoute::RefuseDestNotDirectory => Err(
                    CpError::DestNotDirectory { path: self.des.clone() },
                ),
                PairRoute::EachUnderDir => {
                    // A lone source is never routed here.
                    proof {
                        assert(false);
                    }
                    Err(CpError::DestNotDirectory { path: self.des.clone() })
                },
            }
        } else {
            match route_many(is_des_dir, self.recursive) {
                PairRoute::RefuseDestNotDirectory => Err(
                    CpError::DestNotDirectory { path: self.des.clone() },
                ),
                PairRoute::Scan => {
                    let scanner = BaseScanner::new(self.des.as_str());
                    scanner.scan(self.srcs.as_slice(), false)
                },
                PairRoute::Single { .. } | PairRoute::RefuseNeedRecursive => {
                    // Several sources are never routed to these.
                    proof {
                        assert(false);
                    }
                    Err(CpError::DestNotDirectory { path: self.des.clone() })
                },
                PairRoute::EachUnderDir => self.pairs_each_under_dir(),
            }
        }
    }

    /// One pair per source under the directory destination: the
    /// sources exactly as configured, each destination the target
    /// joined with that source's last segment; a directory source is
    /// refused for want of recursive mode.
    fn pairs_each_under_dir(&self) -> (r: Result<(Vec<String>, Vec<String>), CpError>)
        requires
            !self.recursive,
        ensures
            r is Ok ==> ((r->Ok_0).0@.len() == (r->Ok_0).1@.len() && (r->Ok_0).0@.len()
                == self.srcs@.len() && (forall|i: int|
                0 <= i < self.srcs@.len() ==> (r->Ok_0).0@[i]@ == self.srcs@[i]@) && (forall|i: int|
                0 <= i < self.srcs@.len() ==> (r->Ok_0).1@[i]@ == self.des@ + seq!['/']
                    + crate::paths::last_segment_of(self.srcs@[i]@))),
            r is Err ==> (r->Err_0 is Metadata || r->Err_0 is NeedRecursive),
    {
        let mut src_paths: Vec<String> = Vec::new();
        let mut des_paths: Vec<String> = Vec::new();
        let mut i: usize = 0;
        while i < self.srcs.len()
            invariant
                src_paths@.len() == des_paths@.len(),
                src_paths@.len() == i,
                i <= self.srcs@.len(),
                forall|k: int| 0 <= k < i ==> src_paths@[k]@ == self.srcs@[k]@,
                forall|k: int|
                    0 <= k < i ==> #[trigger] des_paths@[k]@ == self.des@ + seq!['/']
                        + crate::paths::last_segment_of(self.srcs@[k]@),
            decreases self.srcs@.len() - i,
        {
            let src = &self.srcs[i];
            let sm = match stat_meta(src.as_str()) {
                Ok(m) => m,
                Err(e) => {
                    return Err(CpError::Metadata { path: src.clone(), errno: e });
                },
            };
            if kind_of_mode(sm.mode) == EntryKind::Directory {
                return Err(CpError::NeedRecursive { path: src.clone() });
            }
            src_paths.push(src.clone());
            des_paths.push(self.des_with_basename(src.as_str()));
            i = i + 1;
        }
        Ok((src_paths, des_paths))
    }

    /// Assemble the pipeline the flags ask for: the recursion gate when
    /// recursive mode is on, then the staleness check when update mode
    /// is on, then link preservation when a preservation set is given;
    /// after the transfer, attribute application for that same set, and
    /// the files-completed count unless the run is mute.
    pub fn build_in_progress_actions(&self) -> (r: (Vec<PreStep>, Vec<PostStep>))
        ensures
            ({
                let nr: int = if self.recursive {
                    1
                } else {
                    0
                };
                let nu: int = if self.update {
                    1
                } else {
                    0
                };
                let np: int = if self.preserve is Some {
                    1
                } else {
                    0
                };
                &&& r.0@.len() == nr + nu + np
                &&& self.recursive ==> r.0@[0] is Recursive
                &&& self.update ==> r.0@[nr] is Update
                &&& self.preserve is Some ==> (r.0@[nr + nu] matches PreStep::Preserve(p)
                    && p.attrs_view() == preserve_list_spec((self.preserve->0)@))
                &&& r.1@.len() == np + (if self.mute {
                    0int
                } else {
                    1
                })
                &&& self.preserve is Some ==> (r.1@[0] matches PostStep::Preserve(p)
                    && p.attrs_view() == preserve_list_spec((self.preserve->0)@))
                &&& !self.mute ==> r.1@[np] is Count
            }),
    {
        let mut pres: Vec<PreStep> = Vec::new();
        let mut posts: Vec<PostStep> = Vec::new();
        if self.recursive {
            pres.push(PreStep::Recursive(RecursiveAction));
        }
        if self.update {
            pres.push(PreStep::Update(UpdateAction));
        }
        match &self.preserve {
            Some(set) => {
                pres.push(PreStep::Preserve(PreserveAction::new(set.clone())));
                posts.push(PostStep::Preserve(PreserveAction::new(set.clone())));
            },
            None => (),
        }
        if !self.mute {
            posts.push(PostStep::Count);
        }
        (pres, posts)
    }
}

} // verus!
