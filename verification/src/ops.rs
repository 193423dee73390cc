//! The four operations' decision logic: classifying what a metadata probe
//! found, refusing the confinement root as a mutation target, choosing what
//! a read or a removal does, and sorting directory listings.

use vstd::prelude::*;

use crate::errors::{IoStep, OpError};
use crate::paths::ResolvedPath;
use crate::text::{
    is_utf8_name, lemma_lex_le_antisymmetric, lemma_lex_le_reflexive, lemma_lex_le_total,
    lemma_lex_le_transitive, lex_le, str_le, to_ascii_lower, str_eq, views,
};
use vstd::relations::{sorted_by, total_ordering};
use vstd::seq_lib::lemma_multiset_commutative;
use vstd::seq_lib::lemma_sorted_unique;

verus! {

/// What kind of entry a symlink-following metadata lookup found.
#[derive(Debug, PartialEq, Eq)]
pub enum FileKind {
    File,
    Dir,
    Other,
}

/// What the caller observed when looking up a validated path's metadata.
#[derive(Debug, PartialEq, Eq)]
pub enum MetaEvent {
    /// Nothing exists at the path.
    Missing,
    /// An entry exists, of this kind.
    Kind(FileKind),
    /// The lookup failed; the payload is the OS error text.
    Failed(String),
}

/// The classification of a validated path.
#[derive(Debug, PartialEq, Eq)]
pub enum MetaState {
    Missing,
    File,
    Dir,
    /// Present, but neither a regular file nor a directory.
    Other,
}

/// Classifies a metadata lookup's outcome: not-found is the first-class
/// `Missing` state, any other lookup failure is an I/O error.
pub fn classify(ev: MetaEvent) -> (r: Result<MetaState, OpError>)
    ensures
        match ev {
            MetaEvent::Missing => r matches Ok(s) && s == MetaState::Missing,
            MetaEvent::Kind(FileKind::File) => r matches Ok(s) && s == MetaState::File,
            MetaEvent::Kind(FileKind::Dir) => r matches Ok(s) && s == MetaState::Dir,
            MetaEvent::Kind(FileKind::Other) => r matches Ok(s) && s == MetaState::Other,
            MetaEvent::Failed(m) => r matches Err(e) && e == OpError::Io(IoStep::Inspect, m),
        },
{
    match ev {
        MetaEvent::Missing => Ok(MetaState::Missing),
        MetaEvent::Kind(FileKind::File) => Ok(MetaState::File),
        MetaEvent::Kind(FileKind::Dir) => Ok(MetaState::Dir),
        MetaEvent::Kind(FileKind::Other) => Ok(MetaState::Other),
        MetaEvent::Failed(m) => Err(OpError::Io(IoStep::Inspect, m)),
    }
}

/// What an exists call answers for one path.
#[derive(Debug, PartialEq, Eq)]
pub enum ExistsValue {
    /// A directory: reported as the label `folder`.
    Folder,
    /// A regular file: reported as the label `file`.
    File,
    /// Missing, or neither file nor directory: reported as `false`.
    Absent,
}

impl ExistsValue {
    /// The label a caller sees; absence has none (it is reported as `false`).
    pub fn label(&self) -> (r: Option<String>)
        ensures
            match self {
                ExistsValue::Folder => r matches Some(s) && s@ == "folder"@,
                ExistsValue::File => r matches Some(s) && s@ == "file"@,
                ExistsValue::Absent => r is None,
            },
    {
        match self {
            ExistsValue::Folder => Some(String::from_str("folder")),
            ExistsValue::File => Some(String::from_str("file")),
            ExistsValue::Absent => None,
        }
    }
}

/// What exists reports for a classified path: only directories and regular
/// files count as present.
pub fn exists_outcome(state: &MetaState) -> (r: ExistsValue)
    ensures
        r == (match state {
            MetaState::Dir => ExistsValue::Folder,
            MetaState::File => ExistsValue::File,
            MetaState::Missing => ExistsValue::Absent,
            MetaState::Other => ExistsValue::Absent,
        }),
{
    match state {
        MetaState::Dir => ExistsValue::Folder,
        MetaState::File => ExistsValue::File,
        MetaState::Missing => ExistsValue::Absent,
        MetaState::Other => ExistsValue::Absent,
    }
}

/// What a read does for a classified path.
#[derive(Debug, PartialEq, Eq)]
pub enum ReadPlan {
    /// Read the file's text.
    ReadFile,
    /// List the directory's entries, sorted.
    ListDir,
    /// Report absence (`false`).
    Absent,
}

/// Chooses a read's action: a file is read, a directory is listed, anything
/// else is reported absent.
pub fn read_plan(state: &MetaState) -> (r: ReadPlan)
    ensures
        r == (match state {
            MetaState::File => ReadPlan::ReadFile,
            MetaState::Dir => ReadPlan::ListDir,
            MetaState::Missing => ReadPlan::Absent,
            MetaState::Other => ReadPlan::Absent,
        }),
{
    match state {
        MetaState::File => ReadPlan::ReadFile,
        MetaState::Dir => ReadPlan::ListDir,
        MetaState::Missing => ReadPlan::Absent,
        MetaState::Other => ReadPlan::Absent,
    }
}

/// What a removal does for a classified path.
#[derive(Debug, PartialEq, Eq)]
pub enum RemovePlan {
    /// Remove the regular file.
    RemoveFile,
    /// Remove the directory tree, recursively.
    RemoveTree,
    /// Nothing there: report `false`, not an error.
    Absent,
}

/// Chooses a removal's action.
pub fn remove_plan(state: &MetaState) -> (r: RemovePlan)
    ensures
        r == (match state {
            MetaState::File => RemovePlan::RemoveFile,
            MetaState::Dir => RemovePlan::RemoveTree,
            MetaState::Missing => RemovePlan::Absent,
            MetaState::Other => RemovePlan::Absent,
        }),
{
    match state {
        MetaState::File => RemovePlan::RemoveFile,
        MetaState::Dir => RemovePlan::RemoveTree,
        MetaState::Missing => RemovePlan::Absent,
        MetaState::Other => RemovePlan::Absent,
    }
}

/// Refuses to create a directory at the confinement root itself.
pub fn guard_create_dir(target: &ResolvedPath) -> (r: Result<(), OpError>)
    ensures
        r is Ok <==> !target.is_root,
        r matches Err(e) ==> e == OpError::RootCreate,
{
    if target.is_root {
        Err(OpError::RootCreate)
    } else {
        Ok(())
    }
}

/// Refuses to write a file over the confinement root itself.
pub fn guard_write_file(target: &ResolvedPath) -> (r: Result<(), OpError>)
    ensures
        r is Ok <==> !target.is_root,
        r matches Err(e) ==> e == OpError::RootOverwrite,
{
    if target.is_root {
        Err(OpError::RootOverwrite)
    } else {
        Ok(())
    }
}

/// Refuses to remove the confinement root itself.
pub fn guard_remove(target: &ResolvedPath) -> (r: Result<(), OpError>)
    ensures
        r is Ok <==> !target.is_root,
        r matches Err(e) ==> e == OpError::RootRemove,
{
    if target.is_root {
        Err(OpError::RootRemove)
    } else {
        Ok(())
    }
}

/// Whether a requested read encoding names UTF-8, case-insensitively, in
/// either of its two spellings.
pub fn is_utf8_encoding(value: &str) -> (r: bool)
    ensures
        r == is_utf8_name(value@),
{
    let lowered = to_ascii_lower(value);
    str_eq(lowered.as_str(), "utf8") || str_eq(lowered.as_str(), "utf-8")
}

/// Rejects a read whose requested encoding is not UTF-8; an absent encoding
/// argument defaults to UTF-8 and passes.
pub fn check_read_encoding(encoding: &Option<String>) -> (r: Result<(), OpError>)
    ensures
        match encoding {
            None => r is Ok,
            Some(e) => {
                &&& (r is Ok <==> is_utf8_name(e@))
                &&& (r matches Err(err) ==> err == OpError::UnsupportedEncoding)
            },
        },
{
    match encoding {
        None => Ok(()),
        Some(e) => {
            if is_utf8_encoding(e.as_str()) {
                Ok(())
            } else {
                Err(OpError::UnsupportedEncoding)
            }
        },
    }
}

/// The lexicographic order, as a relation value.
pub open spec fn lex_leq() -> spec_fn(Seq<char>, Seq<char>) -> bool {
    |a: Seq<char>, b: Seq<char>| lex_le(a, b)
}

/// `lex_leq` is a total ordering.
pub proof fn lemma_lex_leq_total_ordering()
    ensures
        total_ordering(lex_leq()),
{
    let leq = lex_leq();
    assert forall|a: Seq<char>| #[trigger] leq(a, a) by {
        lemma_lex_le_reflexive(a);
    }
    assert forall|a: Seq<char>, b: Seq<char>| #[trigger] leq(a, b) && #[trigger] leq(b, a)
        implies a == b by {
        lemma_lex_le_antisymmetric(a, b);
    }
    assert forall|a: Seq<char>, b: Seq<char>, c: Seq<char>|
        #[trigger] leq(a, b) && #[trigger] leq(b, c) implies leq(a, c) by {
        lemma_lex_le_transitive(a, b, c);
    }
    assert forall|a: Seq<char>, b: Seq<char>| #[trigger] leq(a, b) || #[trigger] leq(b, a) by {
        lemma_lex_le_total(a, b);
    }
}

/// Inserting an element anywhere adds exactly it to the sequence's multiset.
proof fn lemma_insert_to_multiset(s: Seq<Seq<char>>, i: int, x: Seq<char>)
    requires
        0 <= i <= s.len(),
    ensures
        s.insert(i, x).to_multiset() == s.to_multiset().insert(x),
{
    broadcast use vstd::seq_lib::group_to_multiset_ensures;

    assert(s.insert(i, x) =~= s.take(i) + (seq![x] + s.skip(i)));
    lemma_multiset_commutative(s.take(i), seq![x] + s.skip(i));
    lemma_multiset_commutative(seq![x], s.skip(i));
    assert(seq![x] =~= Seq::<Seq<char>>::empty().push(x));
    assert(Seq::<Seq<char>>::empty().push(x).to_multiset() =~= Seq::<
        Seq<char>,
    >::empty().to_multiset().insert(x));
    assert(s =~= s.take(i) + s.skip(i));
    lemma_multiset_commutative(s.take(i), s.skip(i));
    assert(s.insert(i, x).to_multiset() =~= s.to_multiset().insert(x));
}

/// Sorts a directory listing lexicographically: the result is ordered and
/// holds exactly the given names.
pub fn sort_entries(entries: Vec<String>) -> (r: Vec<String>)
    ensures
        sorted_by(views(r@), lex_leq()),
        views(r@).to_multiset() == views(entries@).to_multiset(),
        r@.len() == entries@.len(),
{
    broadcast use vstd::seq_lib::group_to_multiset_ensures;

    let n = entries.len();
    let mut out: Vec<String> = Vec::new();
    let mut i: usize = 0;
    proof {
        assert(views(entries@).take(0) =~= Seq::<Seq<char>>::empty());
        assert(views(out@) =~= Seq::<Seq<char>>::empty());
    }
    while i < n
        invariant
            n == entries@.len(),
            0 <= i <= n,
            out@.len() == i,
            sorted_by(views(out@), lex_leq()),
            views(out@).to_multiset() == views(entries@).take(i as int).to_multiset(),
        decreases n - i,
    {
        broadcast use vstd::seq_lib::group_to_multiset_ensures;

        let x = entries[i].clone();
        let mut j: usize = 0;
        while j < out.len() && str_le(out[j].as_str(), x.as_str())
            invariant
                j <= out@.len(),
                x@ == entries@[i as int]@,
                sorted_by(views(out@), lex_leq()),
                forall|k: int| 0 <= k < j ==> lex_le(#[trigger] views(out@)[k], x@),
            decreases out@.len() - j,
        {
            j = j + 1;
        }
        proof {
            if j < out@.len() {
                lemma_lex_le_total(views(out@)[j as int], x@);
                assert(lex_le(x@, views(out@)[j as int]));
            }
        }
        let ghost old_views = views(out@);
        out.insert(j, x);
        proof {
            assert(views(out@) =~= old_views.insert(j as int, entries@[i as int]@));
            assert forall|p: int, q: int| 0 <= p < q < views(out@).len() implies #[trigger] lex_leq()(
                views(out@)[p],
                views(out@)[q],
            ) by {
                let vs = views(out@);
                let leq = lex_leq();
                if q < j {
                    assert(leq(old_views[p], old_views[q]));
                } else if p < j && q == j {
                    assert(lex_le(old_views[p], x@));
                } else if p < j && q > j {
                    assert(leq(old_views[p], old_views[q - 1]));
                } else if p == j {
                    // x sits at j; everything after was already at or above
                    // the old element at j, which x is below.
                    if j < old_views.len() {
                        assert(lex_le(x@, old_views[j as int]));
                        if q - 1 > j {
                            assert(leq(old_views[j as int], old_views[q - 1]));
                            lemma_lex_le_transitive(x@, old_views[j as int], old_views[q - 1]);
                        }
                    }
                } else {
                    assert(leq(old_views[p - 1], old_views[q - 1]));
                }
            }
            lemma_insert_to_multiset(old_views, j as int, entries@[i as int]@);
            assert(views(entries@).take(i + 1) =~= views(entries@).take(i as int).push(
                entries@[i as int]@,
            ));
        }
        i = i + 1;
    }
    proof {
        assert(views(entries@).take(n as int) =~= views(entries@));
    }
    out
}

/// The sorted listing is canonical: any two orders of the same entry names
/// sort to the same sequence, so a directory's listing does not depend on
/// the order its entries were produced in.
pub proof fn lemma_sorted_listing_canonical(x: Seq<Seq<char>>, y: Seq<Seq<char>>)
    requires
        sorted_by(x, lex_leq()),
        sorted_by(y, lex_leq()),
        x.to_multiset() == y.to_multiset(),
    ensures
        x == y,
{
    lemma_lex_leq_total_ordering();
    lemma_sorted_unique(x, y, lex_leq());
}

} // verus!
