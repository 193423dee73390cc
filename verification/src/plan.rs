//! The create operation's plan: before any filesystem mutation, the call's
//! arguments are turned into either a list of directories to create or a
//! list of (path, content) file writes.

use vstd::prelude::*;

use crate::batch::take_single_path;
use crate::errors::OpError;
use crate::paths::{path_looks_like_file, spec_looks_like_file};
use crate::text::views;

verus! {

/// The content argument of a create call: one string or a list of strings.
#[derive(Debug, PartialEq, Eq)]
pub enum Content {
    Text(String),
    List(Vec<String>),
}

/// The resolved intent of a create call.
#[derive(Debug, PartialEq, Eq)]
pub enum CreatePlan {
    /// Directories to create, recursively and idempotently.
    Folders(Vec<String>),
    /// Files to write, each with its content.
    Files(Vec<(String, String)>),
}

/// The paths and the contents of a file-write plan, position by position.
pub open spec fn pair_views(pairs: Seq<(String, String)>) -> Seq<(Seq<char>, Seq<char>)> {
    pairs.map_values(|p: (String, String)| (p.0@, p.1@))
}

/// Plans a create call with a content list.
///
/// An empty list is rejected. Against a single path, the path and every
/// content value are all directories to create. Against several paths the
/// lists must align one to one, each pair a file write.
pub fn build_create_plan_from_arrays(paths: Vec<String>, values: Vec<String>) -> (r: Result<
    CreatePlan,
    OpError,
>)
    ensures
        values@.len() == 0 ==> (r matches Err(e) && e == OpError::EmptyContentArray),
        values@.len() > 0 && paths@.len() == 1 ==> (r matches Ok(CreatePlan::Folders(f)) && views(
            f@,
        ) == views(paths@) + views(values@)),
        values@.len() > 0 && paths@.len() != 1 && paths@.len() != values@.len() ==> (r matches Err(
            e,
        ) && e == OpError::LengthMismatch),
        values@.len() > 0 && paths@.len() != 1 && paths@.len() == values@.len() ==> (r matches Ok(
            CreatePlan::Files(files),
        ) && files@.len() == paths@.len() && forall|i: int|
            0 <= i < files@.len() ==> (#[trigger] files@[i]).0@ == views(paths@)[i]
                && files@[i].1@ == views(values@)[i]),
{
    if values.len() == 0 {
        return Err(OpError::EmptyContentArray);
    }
    if paths.len() == 1 {
        let mut folders = paths;
        let m = values.len();
        let mut j: usize = 0;
        let ghost before = views(folders@);
        while j < m
            invariant
                m == values@.len(),
                0 <= j <= m,
                views(folders@) == before + views(values@).take(j as int),
            decreases m - j,
        {
            let ghost mid = views(folders@);
            folders.push(values[j].clone());
            proof {
                assert(views(folders@) =~= mid.push(values@[j as int]@));
                assert(views(values@).take(j + 1) =~= views(values@).take(j as int).push(
                    values@[j as int]@,
                ));
                assert(views(folders@) =~= before + views(values@).take(j + 1));
            }
            j = j + 1;
        }
        proof {
            assert(views(values@).take(m as int) =~= views(values@));
        }
        return Ok(CreatePlan::Folders(folders));
    }
    if paths.len() != values.len() {
        return Err(OpError::LengthMismatch);
    }
    let n = paths.len();
    let mut files: Vec<(String, String)> = Vec::new();
    let mut i: usize = 0;
    while i < n
        invariant
            n == paths@.len(),
            n == values@.len(),
            0 <= i <= n,
            files@.len() == i,
            forall|k: int|
                0 <= k < i ==> (#[trigger] files@[k]).0@ == paths@[k]@ && files@[k].1@
                    == values@[k]@,
        decreases n - i,
    {
        files.push((paths[i].clone(), values[i].clone()));
        i = i + 1;
    }
    Ok(CreatePlan::Files(files))
}

/// Plans a create call with a single content string: against a path with an
/// extension-like tail it is a file write; otherwise the path and the value
/// are two directories to create. Several paths are rejected.
pub fn build_create_plan_from_string(paths: Vec<String>, value: String) -> (r: Result<
    CreatePlan,
    OpError,
>)
    ensures
        paths@.len() != 1 ==> (r matches Err(e) && e == OpError::SingleContentManyPaths),
        paths@.len() == 1 && spec_looks_like_file(paths@[0]@) ==> (r matches Ok(
            CreatePlan::Files(files),
        ) && pair_views(files@) == seq![(paths@[0]@, value@)]),
        paths@.len() == 1 && !spec_looks_like_file(paths@[0]@) ==> (r matches Ok(
            CreatePlan::Folders(f),
        ) && views(f@) == seq![paths@[0]@, value@]),
{
    let first = match take_single_path(paths) {
        Ok(p) => p,
        Err(e) => {
            return Err(e);
        },
    };
    if path_looks_like_file(first.as_str()) {
        let mut files: Vec<(String, String)> = Vec::new();
        files.push((first, value));
        proof {
            assert(pair_views(files@) =~= seq![(files@[0].0@, files@[0].1@)]);
        }
        return Ok(CreatePlan::Files(files));
    }
    let mut folders: Vec<String> = Vec::new();
    folders.push(first);
    folders.push(value);
    proof {
        assert(views(folders@) =~= seq![folders@[0]@, folders@[1]@]);
    }
    Ok(CreatePlan::Folders(folders))
}

/// Plans a create call. Without content, every path is a directory to
/// create; with content, the shape of the content argument decides.
pub fn build_create_plan(paths: Vec<String>, content: Option<Content>) -> (r: Result<
    CreatePlan,
    OpError,
>)
    ensures
        content is None ==> (r matches Ok(CreatePlan::Folders(f)) && views(f@) == views(paths@)),
        match content {
            Some(Content::Text(value)) => {
                &&& paths@.len() != 1 ==> (r matches Err(e) && e
                    == OpError::SingleContentManyPaths)
                &&& paths@.len() == 1 && spec_looks_like_file(paths@[0]@) ==> (r matches Ok(
                    CreatePlan::Files(files),
                ) && pair_views(files@) == seq![(paths@[0]@, value@)])
                &&& paths@.len() == 1 && !spec_looks_like_file(paths@[0]@) ==> (r matches Ok(
                    CreatePlan::Folders(f),
                ) && views(f@) == seq![paths@[0]@, value@])
            },
            Some(Content::List(values)) => {
                &&& values@.len() == 0 ==> (r matches Err(e) && e == OpError::EmptyContentArray)
                &&& values@.len() > 0 && paths@.len() == 1 ==> (r matches Ok(
                    CreatePlan::Folders(f),
                ) && views(f@) == views(paths@) + views(values@))
                &&& values@.len() > 0 && paths@.len() != 1 && paths@.len() != values@.len() ==> (
                r matches Err(e) && e == OpError::LengthMismatch)
                &&& values@.len() > 0 && paths@.len() != 1 && paths@.len() == values@.len() ==> (
                r matches Ok(CreatePlan::Files(files)) && files@.len() == paths@.len() && forall|
                    i: int,
                |
                    0 <= i < files@.len() ==> (#[trigger] files@[i]).0@ == views(paths@)[i]
                        && files@[i].1@ == views(values@)[i])
            },
            None => true,
        },
{
    match content {
        None => Ok(CreatePlan::Folders(paths)),
        Some(Content::List(values)) => build_create_plan_from_arrays(paths, values),
        Some(Content::Text(value)) => build_create_plan_from_string(paths, value),
    }
}

} // verus!
