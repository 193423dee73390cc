//! The batch adapter: heterogeneous one-or-many call shapes are flattened
//! into one ordered list of raw paths, the work items run strictly in input
//! order with the first failure aborting the rest, and a single-item result
//! list collapses back to a scalar.

use vstd::prelude::*;

use crate::errors::OpError;
use crate::text::views;
use crate::BatchResult;

verus! {

/// One argument of an operation call: a single raw path or a list of them.
#[derive(Debug, PartialEq, Eq)]
pub enum PathArg {
    One(String),
    Many(Vec<String>),
}

/// The raw paths one argument contributes, in order.
pub open spec fn arg_views(a: PathArg) -> Seq<Seq<char>> {
    match a {
        PathArg::One(s) => seq![s@],
        PathArg::Many(v) => views(v@),
    }
}

/// The raw paths of a whole argument list, flattened in input order.
pub open spec fn spec_flatten(args: Seq<PathArg>) -> Seq<Seq<char>>
    decreases args.len(),
{
    if args.len() == 0 {
        Seq::empty()
    } else {
        spec_flatten(args.drop_last()) + arg_views(args.last())
    }
}

/// Flattens the call's arguments into one ordered path list. A call with no
/// arguments, or whose arguments contribute no path at all, is rejected.
pub fn flatten_inputs(inputs: Vec<PathArg>) -> (r: Result<Vec<String>, OpError>)
    ensures
        inputs@.len() == 0 ==> (r matches Err(e) && e == OpError::EmptyBatch),
        inputs@.len() > 0 && spec_flatten(inputs@).len() == 0 ==> (r matches Err(e) && e
            == OpError::EmptyBatch),
        inputs@.len() > 0 && spec_flatten(inputs@).len() > 0 ==> (r matches Ok(v) && views(v@)
            == spec_flatten(inputs@)),
{
    if inputs.len() == 0 {
        return Err(OpError::EmptyBatch);
    }
    let n = inputs.len();
    let mut output: Vec<String> = Vec::new();
    let mut i: usize = 0;
    proof {
        assert(views(output@) =~= spec_flatten(inputs@.take(0)));
    }
    while i < n
        invariant
            n == inputs@.len(),
            0 <= i <= n,
            views(output@) == spec_flatten(inputs@.take(i as int)),
        decreases n - i,
    {
        proof {
            assert(inputs@.take(i + 1).drop_last() =~= inputs@.take(i as int));
            assert(inputs@.take(i + 1).last() == inputs@[i as int]);
        }
        match &inputs[i] {
            PathArg::One(s) => {
                output.push(s.clone());
                proof {
                    assert(views(output@) =~= spec_flatten(inputs@.take(i + 1)));
                }
            },
            PathArg::Many(v) => {
                let m = v.len();
                let mut j: usize = 0;
                let ghost before = views(output@);
                while j < m
                    invariant
                        m == v@.len(),
                        0 <= j <= m,
                        views(output@) == before + views(v@).take(j as int),
                    decreases m - j,
                {
                    let ghost mid = views(output@);
                    output.push(v[j].clone());
                    proof {
                        assert(views(output@) =~= mid.push(v@[j as int]@));
                        assert(views(v@).take(j + 1) =~= views(v@).take(j as int).push(
                            v@[j as int]@,
                        ));
                        assert(views(output@) =~= before + views(v@).take(j + 1));
                    }
                    j = j + 1;
                }
                proof {
                    assert(views(v@).take(m as int) =~= views(v@));
                    assert(views(output@) =~= spec_flatten(inputs@.take(i + 1)));
                }
            },
        }
        i = i + 1;
    }
    proof {
        assert(inputs@.take(n as int) =~= inputs@);
    }
    if output.len() == 0 {
        return Err(OpError::EmptyBatch);
    }
    Ok(output)
}

/// Collapses a result list: exactly one value comes back as a scalar, any
/// other length as the ordered list itself.
pub fn collapse<T>(values: Vec<T>) -> (r: BatchResult<T>)
    ensures
        values@.len() == 1 ==> (r matches BatchResult::Single(t) && t == values@[0]),
        values@.len() != 1 ==> (r matches BatchResult::List(v) && v@ == values@),
{
    if values.len() == 1 {
        let mut values = values;
        match values.pop() {
            Some(t) => BatchResult::Single(t),
            None => BatchResult::List(values),
        }
    } else {
        BatchResult::List(values)
    }
}

/// Takes the path of a call that must hold exactly one.
pub fn take_single_path(paths: Vec<String>) -> (r: Result<String, OpError>)
    ensures
        paths@.len() == 1 ==> (r matches Ok(p) && p == paths@[0]),
        paths@.len() != 1 ==> (r matches Err(e) && e == OpError::SingleContentManyPaths),
{
    if paths.len() != 1 {
        return Err(OpError::SingleContentManyPaths);
    }
    let mut paths = paths;
    match paths.pop() {
        Some(p) => Ok(p),
        None => Err(OpError::EmptyBatch),
    }
}

/// One batch in flight: the work items in input order, the results gathered
/// so far, and the failure that aborted the batch, if any.
///
/// Items are handed out strictly in input order, and after a failure no
/// further item is ever handed out — later items of a failed batch are never
/// attempted.
pub struct BatchRun<T> {
    paths: Vec<String>,
    results: Vec<T>,
    failed: Option<OpError>,
}

impl<T> BatchRun<T> {
    /// The work items, in input order.
    pub closed spec fn paths_views(self) -> Seq<Seq<char>> {
        views(self.paths@)
    }

    /// The results gathered so far; position `i` answers item `i`.
    pub closed spec fn results_seq(self) -> Seq<T> {
        self.results@
    }

    /// The failure that aborted the batch, if any.
    pub closed spec fn failure(self) -> Option<OpError> {
        self.failed
    }

    /// One result per finished item, never more items than supplied.
    pub closed spec fn wf(self) -> bool {
        self.results@.len() <= self.paths@.len()
    }

    /// Opens a batch over the flattened path list.
    pub fn new(paths: Vec<String>) -> (r: BatchRun<T>)
        ensures
            r.wf(),
            r.paths_views() == views(paths@),
            r.results_seq() == Seq::<T>::empty(),
            r.failure() is None,
    {
        BatchRun { paths, results: Vec::new(), failed: None }
    }

    /// Hands out the next work item, in input order — or nothing, when the
    /// batch has failed (a failed batch never attempts a later item) or when
    /// every item is answered.
    pub fn next_item(&self) -> (r: Option<String>)
        requires
            self.wf(),
        ensures
            match r {
                Some(p) => {
                    &&& self.failure() is None
                    &&& self.results_seq().len() < self.paths_views().len()
                    &&& p@ == self.paths_views()[self.results_seq().len() as int]
                },
                None => self.failure() is Some || self.results_seq().len()
                    == self.paths_views().len(),
            },
            self.failure() is Some ==> r is None,
    {
        if self.failed.is_some() {
            return None;
        }
        if self.results.len() < self.paths.len() {
            Some(self.paths[self.results.len()].clone())
        } else {
            None
        }
    }

    /// Records the answer of the current item.
    pub fn push_ok(&mut self, t: T)
        requires
            old(self).wf(),
            old(self).failure() is None,
            old(self).results_seq().len() < old(self).paths_views().len(),
        ensures
            final(self).wf(),
            final(self).paths_views() == old(self).paths_views(),
            final(self).failure() is None,
            final(self).results_seq() == old(self).results_seq().push(t),
    {
        self.results.push(t);
    }

    /// Records the failure that aborts the batch.
    pub fn fail(&mut self, e: OpError)
        requires
            old(self).wf(),
            old(self).failure() is None,
        ensures
            final(self).wf(),
            final(self).paths_views() == old(self).paths_views(),
            final(self).results_seq() == old(self).results_seq(),
            final(self).failure() == Some(e),
    {
        self.failed = Some(e);
    }

    /// Closes the batch: a failed batch surfaces its single terminal error
    /// and no partial results; a finished one collapses its result list.
    pub fn finish(self) -> (r: Result<BatchResult<T>, OpError>)
        requires
            self.wf(),
            self.failure() is Some || self.results_seq().len() == self.paths_views().len(),
        ensures
            match self.failure() {
                Some(e) => r matches Err(e2) && e2 == e,
                None => {
                    &&& r is Ok
                    &&& self.results_seq().len() == 1 ==> (r matches Ok(
                        BatchResult::Single(t),
                    ) && t == self.results_seq()[0])
                    &&& self.results_seq().len() != 1 ==> (r matches Ok(
                        BatchResult::List(v),
                    ) && v@ == self.results_seq())
                },
            },
    {
        match self.failed {
            Some(e) => Err(e),
            None => Ok(collapse(self.results)),
        }
    }
}

} // verus!
