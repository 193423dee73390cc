//! Path validation against a confinement root.
//!
//! A raw path string is split on `/` into components. A component that is
//! empty or `.` is a no-op; a parent-directory component is rejected
//! outright; a named component is appended to the accumulated path, and the
//! accumulator is probed after each append so that a symlink placed at any
//! intermediate component is caught. The caller performs the probes and
//! feeds their outcome back into the [`Resolver`] state machine; every
//! decision in between is made here.

use vstd::prelude::*;

use crate::errors::{IoStep, OpError};
use crate::text::{blank, is_blank, push_char, str_eq, views};

verus! {

/// Splitting on `/`, exactly as `str::split('/')` yields its pieces: the
/// empty string has one empty piece, and every separator opens a new piece.
pub open spec fn spec_split_slash(s: Seq<char>) -> Seq<Seq<char>>
    decreases s.len(),
{
    if s.len() == 0 {
        seq![Seq::empty()]
    } else {
        let init = spec_split_slash(s.drop_last());
        if s.last() == '/' {
            init.push(Seq::empty())
        } else {
            init.update(init.len() - 1, init.last().push(s.last()))

        }
    }
}

/// Splits a raw path string on `/`.
pub fn split_slash(s: &str) -> (r: Vec<String>)
    ensures
        views(r@) == spec_split_slash(s@),
        r@.len() > 0,
{
    let n = s.unicode_len();
    let mut done: Vec<String> = Vec::new();
    let mut cur: String = String::new();
    let mut i: usize = 0;
    while i < n
        invariant
            n == s@.len(),
            0 <= i <= n,
            views(done@).push(cur@) =~= spec_split_slash(s@.take(i as int)),
        decreases n - i,
    {
        let c = s.get_char(i);
        proof {
            assert(s@.take(i + 1).drop_last() =~= s@.take(i as int));
        }
        if c == '/' {
            done.push(cur);
            cur = String::new();
            proof {
                assert(views(done@).push(cur@) =~= spec_split_slash(s@.take(i + 1)));
            }
        } else {
            push_char(&mut cur, c);
            proof {
                assert(views(done@).push(cur@) =~= spec_split_slash(s@.take(i + 1)));
            }
        }
        i = i + 1;
    }
    proof {
        assert(s@.take(n as int) =~= s@);
    }
    done.push(cur);
    done
}

/// A component that resolution keeps: named, as opposed to empty, `.`
/// (a no-op) or `..` (rejected before it could ever be kept).
pub open spec fn spec_kept(c: Seq<char>) -> bool {
    c.len() > 0 && c != seq!['.'] && c != seq!['.', '.']
}

/// The parent-directory component.
pub open spec fn spec_dotdot() -> Seq<char> {
    seq!['.', '.']
}

/// The components of a component list that resolution appends under the root.
pub open spec fn spec_normals(cs: Seq<Seq<char>>) -> Seq<Seq<char>> {
    cs.filter(|c: Seq<char>| spec_kept(c))
}

/// The accumulated path: the root with each segment appended after a `/`.
pub open spec fn spec_join(root: Seq<char>, segs: Seq<Seq<char>>) -> Seq<char>
    decreases segs.len(),
{
    if segs.len() == 0 {
        root
    } else {
        spec_join(root + seq!['/'] + segs[0], segs.drop_first())
    }
}

/// Appending one more segment extends the joined path by `/` and the segment.
pub proof fn lemma_join_push(root: Seq<char>, segs: Seq<Seq<char>>, s: Seq<char>)
    ensures
        spec_join(root, segs.push(s)) == spec_join(root, segs) + seq!['/'] + s,
    decreases segs.len(),
{
    if segs.len() == 0 {
        reveal_with_fuel(spec_join, 2);
        assert(segs.push(s).drop_first() =~= Seq::<Seq<char>>::empty());
        assert(spec_join(root, segs.push(s)) == root + seq!['/'] + s);
    } else {
        assert(segs.push(s).drop_first() =~= segs.drop_first().push(s));
        lemma_join_push(root + seq!['/'] + segs[0], segs.drop_first(), s);
    }
}

/// `p` lies strictly under `root`: `root` is a proper prefix and a path
/// separator follows it.
pub open spec fn spec_strict_desc(root: Seq<char>, p: Seq<char>) -> bool {
    p.len() > root.len() && p.take(root.len() as int) == root && p[root.len() as int] == '/'
}

/// `p` is `root` itself or lies under it — the component-wise prefix test
/// `Path::starts_with` makes on canonical absolute paths.
pub open spec fn spec_within(root: Seq<char>, p: Seq<char>) -> bool {
    ||| p == root
    ||| spec_strict_desc(root, p)
    ||| (root == seq!['/'] && p.len() > 0 && p[0] == '/')
}

/// A joined path is the root itself (no segments) or a strict descendant.
pub proof fn lemma_join_within(root: Seq<char>, segs: Seq<Seq<char>>)
    ensures
        segs.len() == 0 ==> spec_join(root, segs) == root,
        segs.len() > 0 ==> spec_strict_desc(root, spec_join(root, segs)),
    decreases segs.len(),
{
    if segs.len() > 0 {
        let joined = spec_join(root, segs);
        assert(segs =~= segs.drop_last().push(segs.last()));
        lemma_join_push(root, segs.drop_last(), segs.last());
        assert(joined == spec_join(root, segs.drop_last()) + seq!['/'] + segs.last());
        lemma_join_within(root, segs.drop_last());
        if segs.drop_last().len() == 0 {
            assert(joined.take(root.len() as int) =~= root);
        } else {
            let inner = spec_join(root, segs.drop_last());
            assert(joined.take(inner.len() as int) =~= inner);
            assert(joined.take(root.len() as int) =~= inner.take(root.len() as int));
        }
    }
}

/// Decides `spec_within` on two canonical absolute paths.
pub fn is_within(root: &str, p: &str) -> (r: bool)
    ensures
        r == spec_within(root@, p@),
{
    if str_eq(root, p) {
        return true;
    }
    let rn = root.unicode_len();
    let pn = p.unicode_len();
    if rn == 1 && root.get_char(0) == '/' {
        proof {
            assert(root@ =~= seq!['/']);
        }
        return pn > 0 && p.get_char(0) == '/';
    }
    proof {
        assert(root@ != seq!['/']) by {
            if root@ == seq!['/'] {
                assert(root@.len() == 1);
            }
        }
    }
    if pn <= rn {
        proof {
            assert(!spec_strict_desc(root@, p@));
        }
        return false;
    }
    let mut i: usize = 0;
    while i < rn
        invariant
            rn == root@.len(),
            pn == p@.len(),
            pn > rn,
            0 <= i <= rn,
            forall|j: int| 0 <= j < i ==> p@[j] == root@[j],
        decreases rn - i,
    {
        if p.get_char(i) != root.get_char(i) {
            proof {
                assert(p@.take(rn as int)[i as int] != root@[i as int]);
            }
            return false;
        }
        i = i + 1;
    }
    proof {
        assert(p@.take(rn as int) =~= root@);
    }
    p.get_char(rn) == '/'
}

/// The file name of a path: its last component, skipping trailing empty and
/// `.` components; none if that leaves nothing or ends at a
/// parent-directory component — the answer `Path::file_name` gives.
pub open spec fn spec_file_name(segs: Seq<Seq<char>>) -> Option<Seq<char>>
    decreases segs.len(),
{
    if segs.len() == 0 {
        None
    } else if segs.last().len() == 0 || segs.last() == seq!['.'] {
        spec_file_name(segs.drop_last())
    } else if segs.last() == seq!['.', '.'] {
        None
    } else {
        Some(segs.last())
    }
}

/// A name carries an extension when a dot follows at least one leading
/// character — `Path::extension`'s rule, under which a lone leading dot
/// (`.env`) marks a hidden name, not an extension.
pub open spec fn spec_has_extension(name: Seq<char>) -> bool {
    exists|k: int| 0 < k < name.len() && name[k] == '.'
}

/// The extension heuristic of the create operation: the raw path names a
/// file when its file name has an extension-like tail.
pub open spec fn spec_looks_like_file(s: Seq<char>) -> bool {
    match spec_file_name(spec_split_slash(s)) {
        Some(name) => spec_has_extension(name),
        None => false,
    }
}

/// Decides `spec_looks_like_file` on a raw path string.
pub fn path_looks_like_file(path: &str) -> (r: bool)
    ensures
        r == spec_looks_like_file(path@),
{
    let segs = split_slash(path);
    let ghost all = views(segs@);
    let mut i: usize = segs.len();
    proof {
        assert(all == spec_split_slash(path@));
        assert(all.take(i as int) =~= all);
    }
    while i > 0
        invariant
            i <= segs@.len(),
            all == views(segs@),
            all == spec_split_slash(path@),
            spec_file_name(all) == spec_file_name(all.take(i as int)),
        decreases i,
    {
        let name: &String = &segs[i - 1];
        let nlen = name.as_str().unicode_len();
        proof {
            assert(all.take(i as int).drop_last() =~= all.take(i - 1));
            assert(all.take(i as int).last() == name@);
        }
        if nlen == 0 {
            i = i - 1;
        } else if nlen == 1 && name.as_str().get_char(0) == '.' {
            proof {
                assert(name@ =~= seq!['.']);
            }
            i = i - 1;
        } else if nlen == 2 && name.as_str().get_char(0) == '.' && name.as_str().get_char(1)
            == '.' {
            proof {
                assert(name@ =~= seq!['.', '.']);
                assert(spec_file_name(all.take(i as int)) == None::<Seq<char>>);
                assert(spec_file_name(all) == None::<Seq<char>>);
                assert(!spec_looks_like_file(path@));
            }
            return false;
        } else {
            proof {
                assert(name@ != seq!['.'] && name@ != seq!['.', '.']);
                assert(spec_file_name(all) == Some(name@));
            }
            let mut k: usize = 1;
            while k < nlen
                invariant
                    1 <= k <= nlen,
                    nlen == name@.len(),
                    all == spec_split_slash(path@),
                    spec_file_name(all) == Some(name@),
                    forall|j: int| 1 <= j < k ==> name@[j] != '.',
                decreases nlen - k,
            {
                if name.as_str().get_char(k) == '.' {
                    proof {
                        assert(0 < k < name@.len() && name@[k as int] == '.');
                        assert(spec_has_extension(name@));
                        assert(spec_looks_like_file(path@));
                    }
                    return true;
                }
                k = k + 1;
            }
            proof {
                assert(!spec_has_extension(name@));
                assert(!spec_looks_like_file(path@));
            }
            return false;
        }
    }
    proof {
        assert(all.take(0) =~= Seq::<Seq<char>>::empty());
    }
    false
}

/// What the caller observed when probing an accumulated path without
/// following a final symlink.
#[derive(Debug, PartialEq, Eq)]
pub enum ProbeEvent {
    /// Nothing exists at the probed path yet.
    Missing,
    /// Something exists there and it is not a symlink.
    NotSymlink,
    /// A symlink; the payload is its fully canonicalized target.
    Symlink(String),
    /// The inspection itself failed; the payload is the OS error text.
    InspectFailed(String),
    /// The symlink could not be canonicalized; the payload is the OS error text.
    CanonicalizeFailed(String),
}

/// A path that the resolver validated: absolute, and proven to be the
/// confinement root itself or a strict descendant of it.
#[derive(Debug, PartialEq, Eq)]
pub struct ResolvedPath {
    /// The validated absolute path.
    pub path: String,
    /// Whether the path is the confinement root itself.
    pub is_root: bool,
}

/// What the resolver asks for next.
#[derive(Debug, PartialEq, Eq)]
pub enum Step {
    /// Probe this accumulated path and feed the outcome back.
    Probe(String),
    /// Every component was walked; the path is validated.
    Done(ResolvedPath),
}

/// The component-by-component resolution of one raw path against the root.
///
/// The caller alternates [`Resolver::advance`], which consumes components
/// until one needs a filesystem probe, with [`Resolver::feed`], which judges
/// the probe's outcome. Rejections — traversal, symlink escape, probe
/// failures — surface as errors from either call.
pub struct Resolver {
    root: String,
    comps: Vec<String>,
    idx: usize,
    segs: Vec<String>,
    resolved: String,
    awaiting: bool,
}

impl Resolver {
    /// The confinement root the resolution runs against.
    pub closed spec fn root_view(self) -> Seq<char> {
        self.root@
    }

    /// The raw components, as split from the raw path.
    pub closed spec fn comps_views(self) -> Seq<Seq<char>> {
        views(self.comps@)
    }

    /// How many components have been consumed.
    pub closed spec fn consumed(self) -> int {
        self.idx as int
    }

    /// The named segments accepted under the root so far.
    pub closed spec fn segs_views(self) -> Seq<Seq<char>> {
        views(self.segs@)
    }

    /// Whether a probe answer is owed before the walk may continue.
    pub closed spec fn awaiting(self) -> bool {
        self.awaiting
    }

    /// The accumulated absolute path.
    pub closed spec fn resolved_view(self) -> Seq<char> {
        self.resolved@
    }

    /// The machine's invariant: the accumulator always equals the root
    /// joined with exactly the named components consumed so far, and no
    /// parent-directory component has ever been consumed.
    pub closed spec fn wf(self) -> bool {
        &&& self.idx <= self.comps@.len()
        &&& self.resolved@ == spec_join(self.root@, views(self.segs@))
        &&& views(self.segs@) == spec_normals(views(self.comps@).take(self.idx as int))
        &&& forall|k: int| 0 <= k < self.idx ==> views(self.comps@)[k] != spec_dotdot()
    }

    /// Whether a probe answer is owed (the executable mirror of `awaiting`).
    pub fn needs_probe(&self) -> (r: bool)
        ensures
            r == self.awaiting(),
    {
        self.awaiting
    }

    /// Starts resolving `raw` against `root`: a blank path and an absolute
    /// path are rejected before any component is looked at.
    pub fn new(root: String, raw: &str) -> (r: Result<Resolver, OpError>)
        ensures
            is_blank(raw@) ==> (r matches Err(e) && e == OpError::EmptyPath),
            !is_blank(raw@) && raw@[0] == '/' ==> (r matches Err(e) && e == OpError::AbsolutePath),
            !is_blank(raw@) && raw@[0] != '/' ==> (r matches Ok(v)
                && v.wf()
                && !v.awaiting()
                && v.consumed() == 0
                && v.root_view() == root@
                && v.comps_views() == spec_split_slash(raw@)
                && v.segs_views() == Seq::<Seq<char>>::empty()),
    {
        if blank(raw) {
            return Err(OpError::EmptyPath);
        }
        proof {
            if raw@.len() == 0 {
                assert(is_blank(raw@));
            }
        }
        if raw.get_char(0) == '/' {
            return Err(OpError::AbsolutePath);
        }
        let comps = split_slash(raw);
        let resolved = root.clone();
        let r = Resolver { root, comps, idx: 0, segs: Vec::new(), resolved, awaiting: false };
        proof {
            assert(views(r.comps@).take(0) =~= Seq::<Seq<char>>::empty());
            assert(spec_normals(Seq::<Seq<char>>::empty()) =~= Seq::<Seq<char>>::empty());
            assert(views(r.segs@) =~= Seq::<Seq<char>>::empty());
        }
        Ok(r)
    }

    /// Consumes components until one needs a probe or the walk is complete.
    ///
    /// A named component is appended to the accumulator and handed out for
    /// probing; a parent-directory component is rejected on sight, before
    /// any resolution is attempted. Every path this hands out — probed or
    /// final — is the root or a strict descendant of it, and a finished walk
    /// proves that no parent-directory component occurred anywhere.
    pub fn advance(&mut self) -> (r: Result<Step, OpError>)
        requires
            old(self).wf(),
            !old(self).awaiting(),
        ensures
            final(self).wf(),
            final(self).root_view() == old(self).root_view(),
            final(self).comps_views() == old(self).comps_views(),
            old(self).consumed() <= final(self).consumed() <= final(self).comps_views().len(),
            match r {
                Ok(step) => match step {
                    Step::Probe(p) => {
                        &&& final(self).awaiting()
                        &&& final(self).consumed() > old(self).consumed()
                        &&& spec_kept(final(self).comps_views()[final(self).consumed() - 1])
                        &&& final(self).segs_views() == old(self).segs_views().push(
                            final(self).comps_views()[final(self).consumed() - 1],
                        )
                        &&& p@ == final(self).resolved_view()
                        &&& p@ == spec_join(final(self).root_view(), final(self).segs_views())
                        &&& spec_strict_desc(final(self).root_view(), p@)
                    },
                    Step::Done(rp) => {
                        &&& !final(self).awaiting()
                        &&& final(self).consumed() == final(self).comps_views().len()
                        &&& final(self).segs_views() == spec_normals(final(self).comps_views())
                        &&& rp.path@ == spec_join(final(self).root_view(), final(self).segs_views())
                        &&& spec_within(final(self).root_view(), rp.path@)
                        &&& (rp.is_root <==> rp.path@ == final(self).root_view())
                        &&& (rp.is_root <==> final(self).segs_views().len() == 0)
                        &&& forall|k: int|
                            0 <= k < final(self).comps_views().len()
                                ==> final(self).comps_views()[k] != spec_dotdot()
                    },
                },
                Err(e) => {
                    &&& e == OpError::Traversal
                    &&& !final(self).awaiting()
                    &&& exists|k: int|
                        old(self).consumed() <= k < final(self).comps_views().len()
                            && final(self).comps_views()[k] == spec_dotdot()
                },
            },
    {
        loop
            invariant
                self.wf(),
                !self.awaiting,
                self.root == old(self).root,
                self.comps@ == old(self).comps@,
                self.segs@ == old(self).segs@,
                self.resolved@ == old(self).resolved@,
                old(self).idx <= self.idx,
            decreases self.comps@.len() - self.idx,
        {
            if self.idx == self.comps.len() {
                // The closing containment check is discharged statically:
                // the accumulator is proven to be the root or to lie
                // strictly under it, so no runtime re-check remains.
                proof {
                    assert(views(self.comps@).take(self.comps@.len() as int) =~= views(
                        self.comps@,
                    ));
                    lemma_join_within(self.root@, views(self.segs@));
                }
                let is_root = self.segs.len() == 0;
                let path = self.resolved.clone();
                return Ok(Step::Done(ResolvedPath { path, is_root }));
            }
            let keep: bool;
            let dotdot: bool;
            {
                let comp: &String = &self.comps[self.idx];
                let clen = comp.as_str().unicode_len();
                if clen == 0 {
                    keep = false;
                    dotdot = false;
                } else if clen == 1 && comp.as_str().get_char(0) == '.' {
                    proof {
                        assert(comp@ =~= seq!['.']);
                    }
                    keep = false;
                    dotdot = false;
                } else if clen == 2 && comp.as_str().get_char(0) == '.' && comp.as_str().get_char(1)
                    == '.' {
                    proof {
                        assert(comp@ =~= seq!['.', '.']);
                    }
                    keep = false;
                    dotdot = true;
                } else {
                    proof {
                        assert(comp@ != seq!['.'] && comp@ != seq!['.', '.']);
                        assert(spec_kept(comp@));
                    }
                    keep = true;
                    dotdot = false;
                }
            }
            if dotdot {
                proof {
                    assert(views(self.comps@)[self.idx as int] == spec_dotdot());
                }
                return Err(OpError::Traversal);
            }
            if !keep {
                proof {
                    reveal(Seq::filter);
                    let cvs = views(self.comps@);
                    assert(cvs.take(self.idx + 1).drop_last() =~= cvs.take(self.idx as int));
                    assert(cvs.take(self.idx + 1).last() == cvs[self.idx as int]);
                    assert(spec_normals(cvs.take(self.idx + 1)) == spec_normals(
                        cvs.take(self.idx as int),
                    ));
                }
                self.idx = self.idx + 1;
            } else {
                let ghost old_segs = views(self.segs@);
                let comp = self.comps[self.idx].clone();
                proof {
                    lemma_join_push(self.root@, views(self.segs@), comp@);
                }
                self.resolved.append("/");
                self.resolved.append(comp.as_str());
                self.segs.push(comp);
                self.idx = self.idx + 1;
                self.awaiting = true;
                proof {
                    reveal(Seq::filter);
                    let cvs = views(self.comps@);
                    assert(views(self.segs@) =~= old_segs.push(cvs[self.idx - 1]));
                    assert(cvs.take(self.idx as int).drop_last() =~= cvs.take(self.idx - 1));
                    assert(cvs.take(self.idx as int).last() == cvs[self.idx - 1]);
                    assert(spec_normals(cvs.take(self.idx as int)) == spec_normals(
                        cvs.take(self.idx - 1),
                    ).push(cvs[self.idx - 1]));
                    assert("/"@ =~= seq!['/']) by {
                        reveal_strlit("/");
                    }
                    lemma_join_within(self.root@, views(self.segs@));
                }
                let p = self.resolved.clone();
                return Ok(Step::Probe(p));
            }
        }
    }

    /// Judges a probe's outcome. Nothing existing yet, or an existing
    /// non-symlink entry, lets the walk continue. A symlink is acceptable
    /// exactly when its canonical target still lies within the root;
    /// otherwise the walk fails with a path-escape error. A failed probe
    /// surfaces as an I/O error naming the failing step.
    pub fn feed(&mut self, ev: ProbeEvent) -> (r: Result<(), OpError>)
        requires
            old(self).wf(),
            old(self).awaiting(),
        ensures
            final(self).wf(),
            !final(self).awaiting(),
            final(self).root_view() == old(self).root_view(),
            final(self).comps_views() == old(self).comps_views(),
            final(self).consumed() == old(self).consumed(),
            final(self).segs_views() == old(self).segs_views(),
            final(self).resolved_view() == old(self).resolved_view(),
            match ev {
                ProbeEvent::Missing => r is Ok,
                ProbeEvent::NotSymlink => r is Ok,
                ProbeEvent::Symlink(target) => {
                    &&& (r is Ok <==> spec_within(old(self).root_view(), target@))
                    &&& (r matches Err(e) ==> e == OpError::PathEscape)
                },
                ProbeEvent::InspectFailed(m) => r matches Err(e) && e == OpError::Io(
                    IoStep::InspectSegment,
                    m,
                ),
                ProbeEvent::CanonicalizeFailed(m) => r matches Err(e) && e == OpError::Io(
                    IoStep::CanonicalizeSegment,
                    m,
                ),
            },
    {
        self.awaiting = false;
        match ev {
            ProbeEvent::Missing => Ok(()),
            ProbeEvent::NotSymlink => Ok(()),
            ProbeEvent::Symlink(target) => {
                if is_within(self.root.as_str(), target.as_str()) {
                    Ok(())
                } else {
                    Err(OpError::PathEscape)
                }
            },
            ProbeEvent::InspectFailed(m) => Err(OpError::Io(IoStep::InspectSegment, m)),
            ProbeEvent::CanonicalizeFailed(m) => Err(OpError::Io(IoStep::CanonicalizeSegment, m)),
        }
    }
}

} // verus!
