//! Attribute preservation: recreate symbolic links before transfer, and
//! copy permission bits, ownership and timestamps onto the destination
//! afterwards.
//!
//! The preserved set is parsed once from a comma-separated list;
//! `"all"` stands for every supported attribute. An attribute that
//! cannot be applied (for want of privilege, say) is skipped — the copy
//! itself still counts as successful. Only unreadable source metadata
//! is fatal.

use vstd::prelude::*;

use crate::actions::ActRet;
use crate::actions::PostAction;
use crate::actions::PreAction;
use crate::error::CpError;
use crate::paths::views_of;
use crate::sys::chmod_raw;
use crate::sys::chown_raw;
use crate::sys::readlink_raw;
use crate::sys::set_times_raw;
use crate::sys::stat_meta;
use crate::sys::symlink_raw;

verus! {

/// The fields of `s` split at `sep`, empty fields kept, after a partial
/// scan that has accumulated `cur`.
pub open spec fn fields_acc(s: Seq<char>, sep: char, cur: Seq<char>) -> Seq<Seq<char>>
    decreases s.len(),
{
    if s.len() == 0 {
        seq![cur]
    } else if s[0] == sep {
        seq![cur] + fields_acc(s.drop_first(), sep, Seq::empty())
    } else {
        fields_acc(s.drop_first(), sep, cur + seq![s[0]])
    }
}

/// The fields of `s` split at `sep`, empty fields kept (an empty `s`
/// yields one empty field).
pub open spec fn fields(s: Seq<char>, sep: char) -> Seq<Seq<char>> {
    fields_acc(s, sep, Seq::empty())
}

/// Split a string at a separator, keeping empty fields.
pub fn fields_exec(s: &str, sep: char) -> (r: Vec<String>)
    ensures
        views_of(r@) == fields(s@, sep),
{
    let n = s.unicode_len();
    let mut parts: Vec<String> = Vec::new();
    let mut seg_start: usize = 0;
    let mut i: usize = 0;
    proof {
        assert(s@.subrange(0, n as int) =~= s@);
        assert(s@.subrange(0, 0) =~= Seq::<char>::empty());
        assert(views_of(parts@) =~= Seq::<Seq<char>>::empty());
    }
    while i < n
        invariant
            n == s@.len(),
            seg_start <= i <= n,
            views_of(parts@) + fields_acc(
                s@.subrange(i as int, n as int),
                sep,
                s@.subrange(seg_start as int, i as int),
            ) == fields(s@, sep),
        decreases n - i,
    {
        let ghost rest = s@.subrange(i as int, n as int);
        let ghost cur = s@.subrange(seg_start as int, i as int);
        let c = s.get_char(i);
        assert(rest[0] == c);
        if c == sep {
            let seg = s.substring_char(seg_start, i).to_owned();
            parts.push(seg);
            proof {
                assert(views_of(parts@) =~= views_of(parts@.drop_last()) + seq![cur]);
            }
            seg_start = i + 1;
        }
        i = i + 1;
        proof {
            assert(rest.drop_first() =~= s@.subrange(i as int, n as int));
            if c == sep {
                assert(Seq::<char>::empty() =~= s@.subrange(seg_start as int, i as int));
                assert(views_of(parts@) + fields_acc(
                    s@.subrange(i as int, n as int),
                    sep,
                    s@.subrange(seg_start as int, i as int),
                ) =~= fields(s@, sep));
            } else {
                assert(cur + seq![c] =~= s@.subrange(seg_start as int, i as int));
            }
        }
    }
    let seg = s.substring_char(seg_start, n).to_owned();
    parts.push(seg);
    proof {
        let ghost cur = s@.subrange(seg_start as int, n as int);
        assert(views_of(parts@) =~= views_of(parts@.drop_last()) + seq![cur]);
    }
    parts
}

/// Does the preserved set contain the attribute `a`?
pub open spec fn wants(attrs: Seq<Seq<char>>, a: Seq<char>) -> bool {
    exists|i: int| 0 <= i < attrs.len() && attrs[i] == a
}

/// The parsed form of a preservation request: the whole supported set
/// for `"all"`, otherwise the comma-separated fields as given.
pub open spec fn preserve_list_spec(s: Seq<char>) -> Seq<Seq<char>> {
    if s == ("all")@ {
        seq![("links")@, ("mode")@, ("ownership")@, ("timestamps")@]
    } else {
        fields(s, ',')
    }
}

/// The pre- and post-action that preserves the configured attribute
/// set.
pub struct PreserveAction {
    attrs: Vec<String>,
}

impl PreserveAction {
    /// The preserved attribute names, in order.
    pub closed spec fn attrs_view(&self) -> Seq<Seq<char>> {
        views_of(self.attrs@)
    }

    /// Parse a preservation request once; `"all"` means every supported
    /// attribute.
    pub fn new(attrs: String) -> (r: PreserveAction)
        ensures
            r.attrs_view() == preserve_list_spec(attrs@),
    {
        let all_s: String = "all".to_owned();
        if attrs == all_s {
            let mut list: Vec<String> = Vec::new();
            list.push("links".to_owned());
            list.push("mode".to_owned());
            list.push("ownership".to_owned());
            list.push("timestamps".to_owned());
            proof {
                assert(views_of(list@) =~= preserve_list_spec(attrs@));
            }
            PreserveAction { attrs: list }
        } else {
            PreserveAction { attrs: fields_exec(attrs.as_str(), ',') }
        }
    }
}

impl PreAction for PreserveAction {
    /// Without `links` in the preserved set the pre-step always lets the
    /// pair proceed; a transfer is only ever skipped over a recreated
    /// link, and the pair is never abandoned. The one possible failure
    /// is the destination link's creation, naming the destination, and
    /// it too presupposes that `links` is wanted.
    open spec fn pre_ens(&self, src: Seq<char>, des: Seq<char>, r: Result<ActRet, CpError>) -> bool {
        &&& !wants(self.attrs_view(), ("links")@) ==> r == Result::<ActRet, CpError>::Ok(
            ActRet::GoOn,
        )
        &&& r == Result::<ActRet, CpError>::Ok(ActRet::SkipCopy) ==> wants(
            self.attrs_view(),
            ("links")@,
        )
        &&& r is Ok ==> !(r->Ok_0 is SkipRest)
        &&& r is Err ==> (r->Err_0 matches CpError::Symlink { path, errno } && path@ == des
            && wants(self.attrs_view(), ("links")@))
    }

    fn pre_run(&self, src: &str, des: &str) -> (r: Result<ActRet, CpError>) {
        if self.wants_links() {
            match readlink_verdict(readlink_raw(src)) {
                Ok(target) => link_creation_outcome(symlink_raw(target.as_str(), des), des),
                Err(sig) => Ok(sig),
            }
        } else {
            Ok(ActRet::GoOn)
        }
    }
}

/// What the link step does with the source's readlink outcome: only a
/// readable link target leads on to recreation; any failure means the
/// source is not treated as a symbolic link here, and the pair passes
/// through to a plain byte copy.
pub fn readlink_verdict(read: Result<String, i32>) -> (r: Result<String, ActRet>)
    ensures
        r is Ok <==> read is Ok,
        r is Ok ==> r->Ok_0 == read->Ok_0,
        r is Err ==> r->Err_0 == ActRet::GoOn,
{
    match read {
        Ok(target) => Ok(target),
        Err(_) => Err(ActRet::GoOn),
    }
}

/// The link step's reading of a link-creation result: a recreated link
/// skips the byte transfer (metadata post-steps may still apply to
/// it); a failed creation is fatal and names the destination.
pub fn link_creation_outcome(r: Result<(), i32>, des: &str) -> (out: Result<ActRet, CpError>)
    ensures
        out is Ok <==> r is Ok,
        out is Ok ==> out->Ok_0 == ActRet::SkipCopy,
        out is Err ==> (out->Err_0 matches CpError::Symlink { path, errno } && path@ == des@
            && errno == r->Err_0),
{
    match r {
        Ok(()) => Ok(ActRet::SkipCopy),
        Err(e) => Err(CpError::Symlink { path: des.to_owned(), errno: e }),
    }
}

impl PreserveAction {
    /// Is `links` in the preserved set?
    pub fn wants_links(&self) -> (b: bool)
        ensures
            b == wants(self.attrs_view(), ("links")@),
    {
        let links_s: String = "links".to_owned();
        let mut i: usize = 0;
        while i < self.attrs.len()
            invariant
                links_s@ == ("links")@,
                i <= self.attrs@.len(),
                forall|k: int| 0 <= k < i ==> #[trigger] self.attrs_view()[k] != ("links")@,
            decreases self.attrs@.len() - i,
        {
            proof {
                assert(self.attrs_view()[i as int] == self.attrs@[i as int]@);
            }
            if self.attrs[i] == links_s {
                proof {
                    assert(wants(self.attrs_view(), ("links")@));
                }
                return true;
            }
            i = i + 1;
        }
        false
    }

    /// Copy each preserved attribute of `src` onto `des`, in the
    /// configured order. Only unreadable source metadata is an error;
    /// an attribute that cannot be applied is skipped.
    pub fn apply_attributes(&self, src: &str, des: &str) -> (r: Result<(), CpError>)
        ensures
            r is Err ==> (r->Err_0 matches CpError::Metadata { path, errno } && path@ == src@),
    {
        let sm = match stat_meta(src) {
            Ok(m) => m,
            Err(e) => {
                return Err(CpError::Metadata { path: src.to_owned(), errno: e });
            },
        };
        let mode_s: String = "mode".to_owned();
        let ownership_s: String = "ownership".to_owned();
        let timestamps_s: String = "timestamps".to_owned();
        let mut i: usize = 0;
        while i < self.attrs.len()
            invariant
                0 <= sm.atime_ns < 1_000_000_000,
                0 <= sm.mtime_ns < 1_000_000_000,
            decreases self.attrs@.len() - i,
        {
            if self.attrs[i] == mode_s {
                let _ = chmod_raw(des, sm.mode);
            } else if self.attrs[i] == ownership_s {
                let _ = chown_raw(des, sm.uid, sm.gid);
            } else if self.attrs[i] == timestamps_s {
                // A timestamp at the very bottom of the range cannot be
                // handed to the time-setting call; it is skipped like
                // any other attribute that cannot be applied.
                if sm.atime_s > i64::MIN && sm.mtime_s > i64::MIN {
                    let _ = set_times_raw(des, sm.atime_s, sm.atime_ns, sm.mtime_s, sm.mtime_ns);
                }
            }
            i = i + 1;
        }
        Ok(())
    }
}

impl PostAction for PreserveAction {
    fn post_run(&self, src: &str, des: &str) -> (r: Result<(), CpError>)
        ensures
            r is Err ==> (r->Err_0 matches CpError::Metadata { path, errno } && path@ == src@),
    {
        self.apply_attributes(src, des)
    }
}

} // verus!
