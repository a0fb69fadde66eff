//! The standard scanner: a recursive directory walk with verified
//! destination-path synthesis.

use vstd::prelude::*;

use crate::error::CpError;
use crate::paths::components_exec;
use crate::paths::dest_path_spec;
use crate::paths::join_from;
use crate::paths::parent_prefix;
use crate::paths::starts_with_path;
use crate::paths::views_of;
use crate::scanner::DirScan;
use crate::sys::kind_of_mode;
use crate::sys::stat_meta;
use crate::sys::walk_paths;
use crate::sys::EntryKind;

verus! {

/// Compute one entry's destination path from its source path, the
/// root's parent prefix, the destination root and the strip depth.
pub fn generate_destination_path(
    src_path: &str,
    parent_path: &str,
    des_base_path: &str,
    strip_depth: usize,
) -> (r: String)
    ensures
        r@ == dest_path_spec(src_path@, parent_path@, des_base_path@, strip_depth as int),
{
    if strip_depth == 0 {
        if parent_path.is_empty() {
            let mut r = des_base_path.to_owned();
            r.append("/");
            r.append(src_path);
            proof {
                reveal_strlit("/");
                assert(("/")@ =~= seq!['/']);
            }
            r
        } else if starts_with_path(src_path, parent_path) {
            let np = parent_path.unicode_len();
            let rest = src_path.substring_char(np, src_path.unicode_len());
            let mut r = des_base_path.to_owned();
            r.append("/");
            r.append(rest);
            proof {
                reveal_strlit("/");
                assert(("/")@ =~= seq!['/']);
                assert(rest@ =~= src_path@.skip(np as int));
            }
            r
        } else {
            let mut r = des_base_path.to_owned();
            r.append(src_path);
            r
        }
    } else {
        let comps = components_exec(src_path);
        assert(views_of(comps@).len() == comps@.len());
        if strip_depth >= comps.len() {
            des_base_path.to_owned()
        } else {
            let tail = join_from(&comps, strip_depth);
            let mut r = des_base_path.to_owned();
            r.append("/");
            r.append(tail.as_str());
            proof {
                reveal_strlit("/");
                assert(("/")@ =~= seq!['/']);
            }
            r
        }
    }
}

/// The standard scanner, bound to one destination root.
pub struct BaseScanner<'a> {
    des_path: &'a str,
}

impl BaseScanner<'_> {
    /// A scanner that writes under `des_path`.
    pub fn new<'a>(des_path: &'a str) -> (r: BaseScanner<'a>)
        ensures
            r.des_root() == des_path@,
    {
        BaseScanner { des_path }
    }
}

impl DirScan for BaseScanner<'_> {
    closed spec fn des_root(&self) -> Seq<char> {
        self.des_path@
    }

    fn in_scan_action(&self, cur_entry: &str, strip_depth: usize) -> (r: Result<
        (Vec<String>, Vec<String>),
        CpError,
    >) {
        let parent = parent_prefix(cur_entry);
        let meta = match stat_meta(cur_entry) {
            Ok(m) => m,
            Err(e) => {
                return Err(CpError::Metadata { path: cur_entry.to_owned(), errno: e });
            },
        };
        let mut src_paths: Vec<String> = Vec::new();
        let mut des_paths: Vec<String> = Vec::new();
        if kind_of_mode(meta.mode) == EntryKind::Directory {
            let entries = match walk_paths(cur_entry) {
                Some(v) => v,
                None => {
                    return Err(CpError::Walk { path: cur_entry.to_owned() });
                },
            };
            let mut i: usize = 0;
            while i < entries.len()
                invariant
                    i <= entries@.len(),
                    entries@.len() >= 1,
                    entries@[0]@ == cur_entry@,
                    parent@ == crate::paths::parent_of(cur_entry@),
                    src_paths@.len() == des_paths@.len(),
                    src_paths@.len() == i,
                    forall|k: int| 0 <= k < i ==> src_paths@[k]@ == entries@[k]@,
                    forall|k: int|
                        0 <= k < i ==> des_paths@[k]@ == dest_path_spec(
                            src_paths@[k]@,
                            crate::paths::parent_of(cur_entry@),
                            self.des_path@,
                            strip_depth as int,
                        ),
                decreases entries@.len() - i,
            {
                let des_entry = generate_destination_path(
                    entries[i].as_str(),
                    parent.as_str(),
                    self.des_path,
                    strip_depth,
                );
                src_paths.push(entries[i].clone());
                des_paths.push(des_entry);
                i = i + 1;
            }
            proof {
                assert(forall|k: int|
                    0 <= k < src_paths@.len() ==> des_paths@[k]@ == dest_path_spec(
                        src_paths@[k]@,
                        crate::paths::parent_of(cur_entry@),
                        self.des_root(),
                        strip_depth as int,
                    ));
            }
            Ok((src_paths, des_paths))
        } else {
            let des_entry = generate_destination_path(
                cur_entry,
                parent.as_str(),
                self.des_path,
                strip_depth,
            );
            src_paths.push(cur_entry.to_owned());
            des_paths.push(des_entry);
            proof {
                assert(forall|k: int|
                    0 <= k < src_paths@.len() ==> des_paths@[k]@ == dest_path_spec(
                        src_paths@[k]@,
                        crate::paths::parent_of(cur_entry@),
                        self.des_root(),
                        strip_depth as int,
                    ));
            }
            Ok((src_paths, des_paths))
        }
    }
}

} // verus!
