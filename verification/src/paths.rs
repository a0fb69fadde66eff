//! Verified path-string arithmetic: splitting a path into its segments,
//! joining segments back, trimming, prefix tests, and the destination-path
//! synthesis that the scanner builds on.
//!
//! A path is modelled as its sequence of characters; its *components* are
//! the maximal `/`-free non-empty runs.

use vstd::prelude::*;

verus! {

/// The views of a list of strings.
pub open spec fn views_of(v: Seq<String>) -> Seq<Seq<char>> {
    v.map_values(|x: String| x@)
}

/// `cur` if non-empty as a single pending segment, else nothing.
pub open spec fn pending(cur: Seq<char>) -> Seq<Seq<char>> {
    if cur.len() == 0 {
        Seq::empty()
    } else {
        seq![cur]
    }
}

/// The components of `s` after a partial scan that has accumulated the
/// (possibly empty) segment `cur`.
pub open spec fn components_acc(s: Seq<char>, cur: Seq<char>) -> Seq<Seq<char>>
    decreases s.len(),
{
    if s.len() == 0 {
        pending(cur)
    } else if s[0] == '/' {
        pending(cur) + components_acc(s.drop_first(), Seq::empty())
    } else {
        components_acc(s.drop_first(), cur + seq![s[0]])
    }
}

/// The components of a path: its maximal `/`-free non-empty runs, in
/// order.
pub open spec fn components(s: Seq<char>) -> Seq<Seq<char>> {
    components_acc(s, Seq::empty())
}

/// The segments joined back with a single `/` between neighbours.
pub open spec fn join(parts: Seq<Seq<char>>) -> Seq<char>
    decreases parts.len(),
{
    if parts.len() == 0 {
        Seq::empty()
    } else if parts.len() == 1 {
        parts[0]
    } else {
        parts[0] + seq!['/'] + join(parts.drop_first())
    }
}

/// `p` is a prefix of `s`.
pub open spec fn is_prefix(p: Seq<char>, s: Seq<char>) -> bool {
    p.len() <= s.len() && s.subrange(0, p.len() as int) == p
}

/// `s` without its trailing `/` characters.
pub open spec fn trim_slashes(s: Seq<char>) -> Seq<char>
    decreases s.len(),
{
    if s.len() > 0 && s[s.len() - 1] == '/' {
        trim_slashes(s.drop_last())
    } else {
        s
    }
}

/// The index just after the last `/` of `t` (or 0 if `t` has none).
pub open spec fn base_start(t: Seq<char>) -> int
    decreases t.len(),
{
    if t.len() == 0 {
        0
    } else if t[t.len() - 1] == '/' {
        t.len() as int
    } else {
        base_start(t.drop_last())
    }
}

/// The suffix of `s` after its last `/` (the whole of `s` if it has
/// none): what `rsplit('/')` yields first.
pub open spec fn last_segment_of(s: Seq<char>) -> Seq<char> {
    s.subrange(base_start(s), s.len() as int)
}

/// The parent prefix of a root path: the root without trailing slashes
/// and without its own trailing segment. It is empty or ends with `/`.
pub open spec fn parent_of(s: Seq<char>) -> Seq<char> {
    trim_slashes(s).subrange(0, base_start(trim_slashes(s)))
}

/// The destination path of one scanned entry.
///
/// With strip depth 0 the root's parent prefix is substituted by a
/// single `/` and the destination root is prepended: `base + '/' + src`
/// when the parent is empty, `base + '/' + (src without the parent
/// prefix)` when `src` starts with the parent, and `base + src` when it
/// does not. With a positive strip depth that many leading components
/// of `src` are removed instead and the rest rejoined under `base`; if
/// the depth swallows every component the destination collapses to
/// exactly `base`.
pub open spec fn dest_path_spec(src: Seq<char>, parent: Seq<char>, base: Seq<char>, depth: int) -> Seq<char> {
    if depth == 0 {
        if parent.len() == 0 {
            base + seq!['/'] + src
        } else if is_prefix(parent, src) {
            base + seq!['/'] + src.skip(parent.len() as int)
        } else {
            base + src
        }
    } else {
        let cs = components(src);
        if depth >= cs.len() {
            base
        } else {
            base + seq!['/'] + join(cs.skip(depth))
        }
    }
}

/// The number of leading components a scan of the root `root` strips
/// from each entry: all of the root's components when `strip` is on,
/// one fewer when it is off (never below zero).
pub open spec fn strip_depth_spec(root: Seq<char>, strip: bool) -> int {
    let n = components(root).len();
    if strip {
        n as int
    } else if n > 0 {
        n as int - 1
    } else {
        0
    }
}

/// `base_start` stays within the sequence.
pub proof fn lemma_base_start_bounds(t: Seq<char>)
    ensures
        0 <= base_start(t) <= t.len(),
    decreases t.len(),
{
    if t.len() > 0 && t[t.len() - 1] != '/' {
        lemma_base_start_bounds(t.drop_last());
    }
}

/// Split a path into its components.
pub fn components_exec(s: &str) -> (r: Vec<String>)
    ensures
        views_of(r@) == components(s@),
{
    let n = s.unicode_len();
    let mut parts: Vec<String> = Vec::new();
    let mut seg_start: usize = 0;
    let mut i: usize = 0;
    proof {
        assert(s@.subrange(0, n as int) =~= s@);
        assert(s@.subrange(0, 0) =~= Seq::<char>::empty());
        assert(views_of(parts@) =~= Seq::<Seq<char>>::empty());
    }
    while i < n
        invariant
            n == s@.len(),
            seg_start <= i <= n,
            views_of(parts@) + components_acc(
                s@.subrange(i as int, n as int),
                s@.subrange(seg_start as int, i as int),
            ) == components(s@),
        decreases n - i,
    {
        let ghost rest = s@.subrange(i as int, n as int);
        let ghost cur = s@.subrange(seg_start as int, i as int);
        let c = s.get_char(i);
        assert(rest[0] == c);
        if c == '/' {
            if seg_start < i {
                let seg = s.substring_char(seg_start, i).to_owned();
                parts.push(seg);
                proof {
                    assert(views_of(parts@) =~= views_of(parts@.drop_last()) + pending(cur));
                }
            } else {
                assert(pending(cur) =~= Seq::<Seq<char>>::empty());
            }
            seg_start = i + 1;
        }
        i = i + 1;
        proof {
            assert(rest.drop_first() =~= s@.subrange(i as int, n as int));
            if c == '/' {
                assert(Seq::<char>::empty() =~= s@.subrange(seg_start as int, i as int));
                assert(views_of(parts@) + components_acc(
                    s@.subrange(i as int, n as int),
                    s@.subrange(seg_start as int, i as int),
                ) =~= components(s@));
            } else {
                assert(cur + seq![c] =~= s@.subrange(seg_start as int, i as int));
            }
        }
    }
    if seg_start < n {
        let seg = s.substring_char(seg_start, n).to_owned();
        parts.push(seg);
        proof {
            let ghost cur = s@.subrange(seg_start as int, n as int);
            assert(views_of(parts@) =~= views_of(parts@.drop_last()) + pending(cur));
        }
    } else {
        proof {
            let ghost cur = s@.subrange(seg_start as int, n as int);
            assert(pending(cur) =~= Seq::<Seq<char>>::empty());
            assert(views_of(parts@) + pending(cur) =~= views_of(parts@));
        }
    }
    parts
}

/// Join the components from position `from` on with `/` separators.
pub fn join_from(parts: &Vec<String>, from: usize) -> (r: String)
    requires
        from <= parts@.len(),
    ensures
        r@ == join(views_of(parts@).skip(from as int)),
    decreases parts@.len() - from,
{
    let ghost tail = views_of(parts@).skip(from as int);
    if from == parts.len() {
        let r = String::new();
        assert(tail.len() == 0);
        r
    } else if from + 1 == parts.len() {
        let r = parts[from].clone();
        assert(tail.len() == 1 && tail[0] == parts@[from as int]@);
        r
    } else {
        let mut r = parts[from].clone();
        r.append("/");
        let rest = join_from(parts, from + 1);
        r.append(rest.as_str());
        proof {
            reveal_strlit("/");
            assert(("/")@ =~= seq!['/']);
            assert(tail.drop_first() =~= views_of(parts@).skip(from + 1 as int));
            assert(tail[0] == parts@[from as int]@);
            assert(r@ =~= tail[0] + seq!['/'] + join(tail.drop_first()));
        }
        r
    }
}

/// Does `s` start with `p`?
pub fn starts_with_path(s: &str, p: &str) -> (b: bool)
    ensures
        b == is_prefix(p@, s@),
{
    let np = p.unicode_len();
    let ns = s.unicode_len();
    if np > ns {
        return false;
    }
    let mut i: usize = 0;
    while i < np
        invariant
            np == p@.len(),
            ns == s@.len(),
            np <= ns,
            i <= np,
            forall|k: int| 0 <= k < i ==> s@[k] == p@[k],
        decreases np - i,
    {
        if s.get_char(i) != p.get_char(i) {
            assert(s@.subrange(0, np as int)[i as int] != p@[i as int]);
            return false;
        }
        i = i + 1;
    }
    assert(s@.subrange(0, np as int) =~= p@);
    true
}

/// The boundary after trimming trailing slashes: `trim_slashes(s@) ==
/// s@.subrange(0, j)`.
fn trim_boundary(s: &str) -> (j: usize)
    ensures
        j <= s@.len(),
        trim_slashes(s@) == s@.subrange(0, j as int),
{
    let n = s.unicode_len();
    let mut j: usize = n;
    proof {
        assert(s@.subrange(0, n as int) =~= s@);
    }
    while j > 0 && s.get_char(j - 1) == '/'
        invariant
            n == s@.len(),
            j <= n,
            trim_slashes(s@) == trim_slashes(s@.subrange(0, j as int)),
        decreases j,
    {
        proof {
            assert(s@.subrange(0, j as int)[j - 1] == s@[j - 1]);
            assert(s@.subrange(0, j as int).drop_last() =~= s@.subrange(0, j - 1 as int));
        }
        j = j - 1;
    }
    proof {
        if j > 0 {
            assert(s@.subrange(0, j as int)[j - 1] == s@[j - 1]);
        }
    }
    j
}

/// The `base_start` boundary of `s@.subrange(0, j)`: scan left from `j`
/// to just after the nearest `/`.
fn base_boundary(s: &str, j: usize) -> (k: usize)
    requires
        j <= s@.len(),
    ensures
        k <= j,
        base_start(s@.subrange(0, j as int)) == k as int,
{
    let mut k: usize = j;
    while k > 0 && s.get_char(k - 1) != '/'
        invariant
            j <= s@.len(),
            k <= j,
            base_start(s@.subrange(0, j as int)) == base_start(s@.subrange(0, k as int)),
        decreases k,
    {
        proof {
            assert(s@.subrange(0, k as int)[k - 1] == s@[k - 1]);
            assert(s@.subrange(0, k as int).drop_last() =~= s@.subrange(0, k - 1 as int));
        }
        k = k - 1;
    }
    proof {
        if k > 0 {
            assert(s@.subrange(0, k as int)[k - 1] == s@[k - 1]);
        }
    }
    k
}

/// The parent prefix of a root path: the root without trailing slashes
/// and without its last segment (empty, or ending with `/`).
pub fn parent_prefix(s: &str) -> (r: String)
    ensures
        r@ == parent_of(s@),
{
    let j = trim_boundary(s);
    let k = base_boundary(s, j);
    proof {
        lemma_base_start_bounds(s@.subrange(0, j as int));
        assert(s@.subrange(0, j as int).subrange(0, k as int) =~= s@.subrange(0, k as int));
    }
    s.substring_char(0, k).to_owned()
}

/// The suffix of `s` after its last `/`: what `rsplit('/')` yields
/// first.
pub fn last_segment(s: &str) -> (r: String)
    ensures
        r@ == last_segment_of(s@),
{
    let n = s.unicode_len();
    let k = base_boundary(s, n);
    proof {
        lemma_base_start_bounds(s@);
        assert(s@.subrange(0, n as int) =~= s@);
    }
    s.substring_char(k, n).to_owned()
}

} // verus!
