//! Batched dispatch as an unordered completion set.
//!
//! A batch of independent requests is driven concurrently by a runtime; the
//! runtime reports completions one at a time, in whatever order the exchange
//! answers. This machine records each completion as one result record,
//! tagged with the identity of its originating request. Its contract gives
//! the batch guarantees: one result per request and no more (no loss, no
//! duplication once every request has completed), identity preserved on
//! every record, one request's outcome never touching a sibling's record,
//! and results once delivered never revoked — so abandoning a batch midway
//! leaves every already-delivered record standing.

use vstd::prelude::*;

use crate::error::OrderError;
use crate::order::same_identity;
use crate::order::Order;

verus! {

/// How many entries of the sequence are set.
pub closed spec fn count_true(s: Seq<bool>) -> int
    decreases s.len(),
{
    if s.len() == 0 {
        0
    } else {
        count_true(s.drop_last()) + if s.last() {
            1int
        } else {
            0int
        }
    }
}

/// Setting one unset entry raises the count by exactly one.
pub proof fn lemma_count_true_update(s: Seq<bool>, i: int)
    requires
        0 <= i < s.len(),
        !s[i],
    ensures
        count_true(s.update(i, true)) == count_true(s) + 1,
    decreases s.len(),
{
    let t = s.update(i, true);
    if i == s.len() - 1 {
        assert(t.drop_last() =~= s.drop_last());
    } else {
        assert(t.drop_last() =~= s.drop_last().update(i, true));
        lemma_count_true_update(s.drop_last(), i);
    }
}

/// With every entry set, the count equals the length.
pub proof fn lemma_count_true_full(s: Seq<bool>)
    requires
        forall|i: int| 0 <= i < s.len() ==> s[i],
    ensures
        count_true(s) == s.len(),
    decreases s.len(),
{
    if s.len() > 0 {
        lemma_count_true_full(s.drop_last());
    }
}

/// State of one batched dispatch: the submitted requests, which of them have
/// completed, and the result records delivered so far, newest last.
pub struct BatchDispatch<Req, Ack> {
    requests: Vec<Order<Req>>,
    completed: Vec<bool>,
    results: Vec<Order<Result<Ack, OrderError>>>,
    origin: Ghost<Seq<int>>,
}

impl<Req, Ack> BatchDispatch<Req, Ack> {
    /// The submitted requests, in submission order.
    pub closed spec fn spec_requests(&self) -> Seq<Order<Req>> {
        self.requests@
    }

    /// Which requests have completed, by submission index.
    pub closed spec fn spec_completed(&self) -> Seq<bool> {
        self.completed@
    }

    /// The result records delivered so far, in completion order.
    pub closed spec fn spec_results(&self) -> Seq<Order<Result<Ack, OrderError>>> {
        self.results@
    }

    /// For each delivered record, the submission index of the request that
    /// produced it.
    pub closed spec fn origins(&self) -> Seq<int> {
        self.origin@
    }

    /// The machine's invariant: one completion flag per request; one origin
    /// per result; as many results as completed requests; every result
    /// carries the identity of its (completed) originating request; and no
    /// two results share an origin.
    pub open spec fn wf(&self) -> bool {
        &&& self.spec_completed().len() == self.spec_requests().len()
        &&& self.origins().len() == self.spec_results().len()
        &&& self.spec_results().len() == count_true(self.spec_completed())
        &&& forall|j: int|
            0 <= j < self.spec_results().len() ==> {
                &&& 0 <= #[trigger] self.origins()[j] < self.spec_requests().len()
                &&& self.spec_completed()[self.origins()[j]]
                &&& same_identity(
                    self.spec_results()[j],
                    self.spec_requests()[self.origins()[j]],
                )
            }
        &&& forall|j1: int, j2: int|
            0 <= j1 < j2 < self.origins().len() ==> #[trigger] self.origins()[j1]
                != #[trigger] self.origins()[j2]
    }

    /// Opens a batch over the given requests: nothing completed, nothing
    /// delivered.
    pub fn new(requests: Vec<Order<Req>>) -> (r: BatchDispatch<Req, Ack>)
        ensures
            r.wf(),
            r.spec_requests() == requests@,
            r.spec_results().len() == 0,
            forall|i: int| 0 <= i < r.spec_completed().len() ==> !(#[trigger] r.spec_completed()[i]),
    {
        let n = requests.len();
        let mut completed: Vec<bool> = Vec::new();
        let mut i: usize = 0;
        while i < n
            invariant
                i <= n,
                completed@.len() == i,
                forall|k: int| 0 <= k < i ==> !(#[trigger] completed@[k]),
            decreases n - i,
        {
            completed.push(false);
            i += 1;
        }
        proof {
            lemma_count_true_full(Seq::<bool>::empty());
            assert(count_true(completed@) == 0) by {
                lemma_count_zero(completed@);
            }
        }
        BatchDispatch { requests, completed, results: Vec::new(), origin: Ghost(Seq::empty()) }
    }

    /// Number of requests in the batch.
    pub fn len(&self) -> (n: usize)
        ensures
            n == self.spec_requests().len(),
    {
        self.requests.len()
    }

    /// Reads one submitted request, for the runtime to drive.
    pub fn request_at(&self, i: usize) -> (r: &Order<Req>)
        requires
            i < self.spec_requests().len(),
        ensures
            *r == self.spec_requests()[i as int],
    {
        &self.requests[i]
    }

    /// Whether the request at the given submission index has completed.
    pub fn is_completed(&self, i: usize) -> (b: bool)
        requires
            self.wf(),
            i < self.spec_requests().len(),
        ensures
            b == self.spec_completed()[i as int],
    {
        self.completed[i]
    }

    /// The records delivered so far, in completion order.
    pub fn results(&self) -> (r: &Vec<Order<Result<Ack, OrderError>>>)
        ensures
            r@ == self.spec_results(),
    {
        &self.results
    }

    /// Records the outcome of one request, in any completion order, exactly
    /// once per request. Exactly one record is appended — tagged with the
    /// originating request's identity and carrying this outcome and no
    /// other — while every sibling's completion flag and every record
    /// already delivered stay exactly as they were: one request's failure
    /// never suppresses or poisons another's result, and delivered records
    /// are never revoked.
    pub fn complete(&mut self, i: usize, outcome: Result<Ack, OrderError>)
        requires
            old(self).wf(),
            i < old(self).spec_requests().len(),
            !old(self).spec_completed()[i as int],
        ensures
            final(self).wf(),
            final(self).spec_requests() == old(self).spec_requests(),
            final(self).spec_completed() == old(self).spec_completed().update(i as int, true),
            final(self).origins() == old(self).origins().push(i as int),
            final(self).spec_results() == old(self).spec_results().push(
                (Order {
                    exchange: old(self).spec_requests()[i as int].exchange,
                    instrument: old(self).spec_requests()[i as int].instrument,
                    cid: old(self).spec_requests()[i as int].cid,
                    state: outcome,
                }),
            ),
    {
        let ghost done0 = self.completed@;
        let record = self.requests[i].with_state(outcome);
        self.results.push(record);
        let ghost origin0 = self.origin@;
        proof {
            self.origin@ = origin0.push(i as int);
        }
        self.completed.remove(i);
        self.completed.insert(i, true);
        proof {
            assert(self.completed@ =~= done0.update(i as int, true));
            lemma_count_true_update(done0, i as int);
            assert forall|j: int| 0 <= j < self.results@.len() implies {
                &&& 0 <= #[trigger] self.origin@[j] < self.requests@.len()
                &&& self.completed@[self.origin@[j]]
                &&& same_identity(self.results@[j], self.requests@[self.origin@[j]])
            } by {
                if j < self.results@.len() - 1 {
                    assert(self.results@[j] == old(self).spec_results()[j]);
                }
            }
        }
    }

    /// Whether every request in the batch has completed.
    pub fn is_done(&self) -> (b: bool)
        requires
            self.wf(),
        ensures
            b == (forall|i: int|
                0 <= i < self.spec_completed().len() ==> (#[trigger] self.spec_completed()[i])),
    {
        let n = self.completed.len();
        let mut i: usize = 0;
        while i < n
            invariant
                i <= n,
                n == self.completed@.len(),
                forall|k: int| 0 <= k < i ==> (#[trigger] self.completed@[k]),
            decreases n - i,
        {
            if !self.completed[i] {
                proof {
                    assert(!(#[trigger] self.spec_completed()[i as int]));
                }
                return false;
            }
            i += 1;
        }
        true
    }

    /// Law: once every request has completed, the batch has delivered
    /// exactly one record per submitted request — no loss, and (with the
    /// invariant's distinct origins) no duplication.
    pub proof fn lemma_exhaustive_delivery(&self)
        requires
            self.wf(),
            forall|i: int|
                0 <= i < self.spec_completed().len() ==> (#[trigger] self.spec_completed()[i]),
        ensures
            self.spec_results().len() == self.spec_requests().len(),
    {
        lemma_count_true_full(self.spec_completed());
    }

    /// Law: every delivered record, at any point of the batch's life, is
    /// tagged with the exchange, instrument and client order id of the
    /// one request that produced it.
    pub proof fn lemma_identity_preserved(&self, j: int)
        requires
            self.wf(),
            0 <= j < self.spec_results().len(),
        ensures
            0 <= self.origins()[j] < self.spec_requests().len(),
            same_identity(self.spec_results()[j], self.spec_requests()[self.origins()[j]]),
    {
    }
}

/// With no entry set, the count is zero.
pub proof fn lemma_count_zero(s: Seq<bool>)
    requires
        forall|i: int| 0 <= i < s.len() ==> !(#[trigger] s[i]),
    ensures
        count_true(s) == 0,
    decreases s.len(),
{
    if s.len() > 0 {
        lemma_count_zero(s.drop_last());
    }
}

} // verus!
