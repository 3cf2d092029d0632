//! Commands: the units of work that travel from a caller to a worker, and
//! the batches of keys and outcomes they carry.

use std::sync::Arc;
use vstd::prelude::*;
use futures::channel::oneshot;
use smallvec::SmallVec;
use crate::limits::BATCH_INLINE;

verus! {

/// Direction of an iterator seek.
#[derive(Clone, Copy, Debug, PartialEq, Eq, Structural)]
pub enum Direction {
    /// From the start key towards larger keys.
    Forward,
    /// From the start key towards smaller keys.
    Reverse,
}

/// What a lookup reports for one key.
#[derive(Clone, Debug, PartialEq, Eq)]
pub enum Outcome {
    /// The key is present; the value is an owned copy.
    Found(Vec<u8>),
    /// The key is absent. This is an ordinary outcome, not a failure.
    NotFound,
    /// The storage engine failed on this key; its message is passed on as is.
    Failed(String),
}

/// The ordered keys of one lookup. One key is held inline.
#[verifier::external_body]
pub struct BatchQuery {
    inner: SmallVec<[Vec<u8>; BATCH_INLINE]>,
}

/// The ordered outcomes of one lookup. One outcome is held inline.
#[verifier::external_body]
pub struct BatchResult {
    inner: SmallVec<[Outcome; BATCH_INLINE]>,
}

/// The keys that a `BatchQuery` holds, in order.
pub uninterp spec fn query_keys(q: BatchQuery) -> Seq<Vec<u8>>;

/// The outcomes that a `BatchResult` holds, in order.
pub uninterp spec fn result_outcomes(r: BatchResult) -> Seq<Outcome>;

/// `SmallVec::from_vec`: the new collection holds the vector's items in the
/// vector's order.
#[verifier::external_body]
fn query_from_vec(keys: Vec<Vec<u8>>) -> (q: BatchQuery)
    ensures
        query_keys(q) == keys@,
{
    BatchQuery { inner: SmallVec::from_vec(keys) }
}

/// `SmallVec::len`: the number of items held.
#[verifier::external_body]
fn query_len(q: &BatchQuery) -> (n: usize)
    ensures
        n == query_keys(*q).len(),
{
    q.inner.len()
}

/// Indexing a `SmallVec`: the item at position `i`. It panics past the end,
/// which the precondition rules out.
#[verifier::external_body]
fn query_get(q: &BatchQuery, i: usize) -> (key: &Vec<u8>)
    requires
        i < query_keys(*q).len(),
    ensures
        *key == query_keys(*q)[i as int],
{
    &q.inner[i]
}

/// `SmallVec::into_vec`: the vector holds the collection's items in the
/// collection's order.
#[verifier::external_body]
fn query_into_vec(q: BatchQuery) -> (keys: Vec<Vec<u8>>)
    ensures
        keys@ == query_keys(q),
{
    q.inner.into_vec()
}

/// `SmallVec::from_buf` on an array of one item: the new collection holds
/// that item and nothing else.
#[verifier::external_body]
fn result_from_one(outcome: Outcome) -> (r: BatchResult)
    ensures
        result_outcomes(r) == seq![outcome],
{
    BatchResult { inner: SmallVec::from_buf([outcome]) }
}

/// `SmallVec::from_vec`: the new collection holds the vector's items in the
/// vector's order.
#[verifier::external_body]
fn result_from_vec(outcomes: Vec<Outcome>) -> (r: BatchResult)
    ensures
        result_outcomes(r) == outcomes@,
{
    BatchResult { inner: SmallVec::from_vec(outcomes) }
}

/// `SmallVec::into_vec`: the vector holds the collection's items in the
/// collection's order.
#[verifier::external_body]
fn result_into_vec(r: BatchResult) -> (outcomes: Vec<Outcome>)
    ensures
        outcomes@ == result_outcomes(r),
{
    r.inner.into_vec()
}

impl View for BatchQuery {
    type V = Seq<Vec<u8>>;

    open spec fn view(&self) -> Seq<Vec<u8>> {
        query_keys(*self)
    }
}

impl View for BatchResult {
    type V = Seq<Outcome>;

    open spec fn view(&self) -> Seq<Outcome> {
        result_outcomes(*self)
    }
}

impl BatchQuery {
    /// The query for `keys`, in their order.
    pub fn new(keys: Vec<Vec<u8>>) -> (q: BatchQuery)
        ensures
            q@ == keys@,
    {
        query_from_vec(keys)
    }

    /// Number of keys.
    pub fn len(&self) -> (n: usize)
        ensures
            n == self@.len(),
    {
        query_len(self)
    }

    /// The key at position `i`.
    pub fn key(&self, i: usize) -> (key: &Vec<u8>)
        requires
            i < self@.len(),
        ensures
            *key == self@[i as int],
    {
        query_get(self, i)
    }

    /// The keys, in their order.
    pub fn into_keys(self) -> (keys: Vec<Vec<u8>>)
        ensures
            keys@ == self@,
    {
        query_into_vec(self)
    }
}

impl BatchResult {
    /// The result of a point lookup: the one outcome.
    pub fn single(outcome: Outcome) -> (r: BatchResult)
        ensures
            r@ == seq![outcome],
    {
        result_from_one(outcome)
    }

    /// The result of a batch lookup: the outcomes in the order given.
    pub fn collect(outcomes: Vec<Outcome>) -> (r: BatchResult)
        ensures
            r@ == outcomes@,
    {
        result_from_vec(outcomes)
    }

    /// The outcomes, in their order.
    pub fn into_outcomes(self) -> (outcomes: Vec<Outcome>)
        ensures
            outcomes@ == self@,
    {
        result_into_vec(self)
    }
}

/// A lookup of one or more keys in one map.
pub struct Get<M> {
    /// The map to look in, shared with the caller.
    pub map: Arc<M>,
    /// The keys, in the order in which the outcomes are wanted.
    pub key: BatchQuery,
    /// Where the worker sends the outcomes. Set once, before the command is
    /// queued, and used once, by the worker.
    pub res: Option<oneshot::Sender<BatchResult>>,
}

/// An iterator seek in one map. Only the first seek goes through the pool.
#[verifier::reject_recursive_types(S)]
pub struct Seek<M, S> {
    /// The map to iterate, shared with the caller.
    pub map: Arc<M>,
    /// The iterator state to initialise.
    pub state: S,
    /// Which way to iterate.
    pub dir: Direction,
    /// Where to start; from the first key in the direction when absent.
    pub key: Option<Vec<u8>>,
    /// Where the worker sends the initialised state. Set once, before the
    /// command is queued, and used once, by the worker.
    pub res: Option<oneshot::Sender<S>>,
}

/// What can be submitted to the pool.
#[verifier::reject_recursive_types(S)]
pub enum Cmd<M, S> {
    /// Point or batch lookup.
    Get(Get<M>),
    /// Iterator seek.
    Iter(Seek<M, S>),
}

impl<M> Get<M> {
    /// A lookup of `keys` in `map`, not yet bound to a reply channel.
    pub fn new(map: Arc<M>, keys: Vec<Vec<u8>>) -> (cmd: Get<M>)
        ensures
            cmd.map == map,
            cmd.key@ == keys@,
            cmd.res is None,
    {
        Get { map, key: BatchQuery::new(keys), res: None }
    }

    /// There is at least one key and no key is empty.
    pub open spec fn has_keys(self) -> bool {
        &&& self.key@.len() > 0
        &&& forall|i: int| 0 <= i < self.key@.len() ==> (#[trigger] self.key@[i])@.len() > 0
    }

    /// Ready for a worker: keys as `has_keys` asks, and a reply channel.
    pub open spec fn wf(self) -> bool {
        self.has_keys() && self.res is Some
    }

    /// Tests `has_keys`.
    pub fn check_keys(&self) -> (ok: bool)
        ensures
            ok == self.has_keys(),
    {
        let n: usize = self.key.len();
        if n == 0 {
            return false;
        }
        let mut i: usize = 0;
        while i < n
            invariant
                i <= n,
                n == self.key@.len(),
                forall|j: int| 0 <= j < i ==> (#[trigger] self.key@[j])@.len() > 0,
            decreases n - i,
        {
            if self.key.key(i).len() == 0 {
                return false;
            }
            i = i + 1;
        }
        true
    }

    /// Tests `wf`.
    pub fn check(&self) -> (ok: bool)
        ensures
            ok == self.wf(),
    {
        self.res.is_some() && self.check_keys()
    }
}

impl<M, S> Seek<M, S> {
    /// A seek in `map`, not yet bound to a reply channel.
    pub fn new(map: Arc<M>, state: S, dir: Direction, key: Option<Vec<u8>>) -> (cmd: Seek<M, S>)
        ensures
            cmd.map == map,
            cmd.state == state,
            cmd.dir == dir,
            cmd.key == key,
            cmd.res is None,
    {
        Seek { map, state, dir, key, res: None }
    }

    /// Ready for a worker: bound to a reply channel.
    pub open spec fn wf(self) -> bool {
        self.res is Some
    }

    /// Tests `wf`.
    pub fn check(&self) -> (ok: bool)
        ensures
            ok == self.wf(),
    {
        self.res.is_some()
    }
}

impl<M, S> Cmd<M, S> {
    /// Ready for a worker.
    pub open spec fn wf(self) -> bool {
        match self {
            Cmd::Get(g) => g.wf(),
            Cmd::Iter(s) => s.wf(),
        }
    }

    /// Tests `wf`.
    pub fn check(&self) -> (ok: bool)
        ensures
            ok == self.wf(),
    {
        match self {
            Cmd::Get(g) => g.check(),
            Cmd::Iter(s) => s.check(),
        }
    }
}

} // verus!
