//! The batch coordinator: one outcome per query, in input order.
//!
//! A batch iterates its query strings in order over one shared session,
//! collecting each query's outcome. No query's failure affects whether the
//! later queries run — failures are query-scoped, never batch-scoped — and
//! the outcome list always matches the input list in length and order. The
//! driving loop asks [`Batch::next_query`] which query to run, executes it
//! (through the query executor), and hands the outcome back to
//! [`Batch::record`]; an empty input is complete from the start, so the loop
//! never opens any query-execution state for it.

use vstd::prelude::*;

use crate::outcome::{OutcomeModel, QueryOutcome};

verus! {

/// The mathematical state of a batch: the query texts and the outcomes
/// recorded so far, outcome `i` answering query `i`.
#[verifier::ext_equal]
pub ghost struct BatchModel {
    pub queries: Seq<Seq<char>>,
    pub outcomes: Seq<OutcomeModel>,
}

impl BatchModel {
    /// Every query has its outcome.
    pub open spec fn is_complete(self) -> bool {
        self.outcomes.len() == self.queries.len()
    }

    /// The queries still to run, in order.
    pub open spec fn pending(self) -> Seq<Seq<char>> {
        self.queries.skip(self.outcomes.len() as int)
    }

    /// Recording the current query's outcome appends it; nothing else moves.
    pub open spec fn record(self, o: OutcomeModel) -> BatchModel {
        BatchModel { queries: self.queries, outcomes: self.outcomes.push(o) }
    }
}

/// Recording a list of outcomes, one batch step at a time, in order.
pub open spec fn record_all(b: BatchModel, os: Seq<OutcomeModel>) -> BatchModel
    decreases os.len(),
{
    if os.len() == 0 {
        b
    } else {
        record_all(b.record(os[0]), os.skip(1))
    }
}

/// The batch coordinator's state.
pub struct Batch {
    pub queries: Vec<String>,
    pub outcomes: Vec<QueryOutcome>,
}

impl View for Batch {
    type V = BatchModel;

    open spec fn view(&self) -> BatchModel {
        BatchModel { queries: self.queries.deep_view(), outcomes: self.outcomes.deep_view() }
    }
}

impl Batch {
    /// Outcomes never outnumber queries: outcome `i` answers query `i`.
    pub open spec fn wf(self) -> bool {
        self@.outcomes.len() <= self@.queries.len()
    }

    /// A fresh batch over the decoded query strings, with no outcome yet.
    pub fn new(queries: Vec<String>) -> (b: Batch)
        ensures
            b.wf(),
            b@.queries == queries.deep_view(),
            b@.outcomes == Seq::<OutcomeModel>::empty(),
    {
        let b = Batch { queries, outcomes: Vec::new() };
        proof {
            assert(b@.outcomes =~= Seq::<OutcomeModel>::empty());
        }
        b
    }

    /// The query to run next, in input order; `None` once every query has
    /// its outcome.
    pub fn next_query(&self) -> (q: Option<&String>)
        requires
            self.wf(),
        ensures
            match q {
                Some(s) => !self@.is_complete() && s@ == self@.queries[
                    self@.outcomes.len() as int
                ],
                None => self@.is_complete(),
            },
    {
        if self.outcomes.len() < self.queries.len() {
            Some(&self.queries[self.outcomes.len()])
        } else {
            None
        }
    }

    /// Record the current query's outcome — an error as much as rows.
    pub fn record(&mut self, o: QueryOutcome)
        requires
            old(self).wf(),
            !old(self)@.is_complete(),
        ensures
            final(self).wf(),
            final(self)@ == old(self)@.record(o@),
    {
        self.outcomes.push(o);
        proof {
            assert(self@.outcomes =~= old(self)@.outcomes.push(o@));
            assert(self@ =~~= old(self)@.record(o@));
        }
    }

    /// Whether every query has its outcome.
    pub fn is_complete(&self) -> (b: bool)
        requires
            self.wf(),
        ensures
            b == self@.is_complete(),
    {
        self.outcomes.len() == self.queries.len()
    }

    /// Hand out the ordered outcome list: exactly one entry per query,
    /// outcome `i` for query `i`.
    pub fn into_outcomes(self) -> (r: Vec<QueryOutcome>)
        requires
            self.wf(),
            self@.is_complete(),
        ensures
            r.deep_view() == self@.outcomes,
            r@.len() == self@.queries.len(),
    {
        self.outcomes
    }
}

/// Order preservation: recording one outcome per query in execution order
/// yields exactly those outcomes, appended in input order — a batch of N
/// queries ends with N outcomes, the i-th belonging to the i-th query, even
/// when earlier queries failed.
pub proof fn lemma_order_preservation(b: BatchModel, os: Seq<OutcomeModel>)
    ensures
        record_all(b, os).queries == b.queries,
        record_all(b, os).outcomes =~= b.outcomes + os,
    decreases os.len(),
{
    if os.len() == 0 {
        assert(record_all(b, os).outcomes =~= b.outcomes + os);
    } else {
        lemma_order_preservation(b.record(os[0]), os.skip(1));
        assert(b.outcomes.push(os[0]) + os.skip(1) =~= b.outcomes + os);
    }
}

/// Empty-batch law: a batch over no queries is complete from the start, with
/// no outcomes — the driving loop never opens query-execution state for it.
pub proof fn lemma_empty_batch(b: BatchModel)
    requires
        b.queries.len() == 0,
        b.outcomes.len() == 0,
    ensures
        b.is_complete(),
        b.outcomes =~= Seq::<OutcomeModel>::empty(),
{
}

/// Isolation: recording the current query's outcome — a failure as much as a
/// success — touches no earlier outcome, lands at the query's own index, and
/// leaves every later query pending, in order: query i failing never stops
/// queries i+1..N from running.
pub proof fn lemma_isolation(b: BatchModel, o: OutcomeModel)
    requires
        b.outcomes.len() < b.queries.len(),
    ensures
        b.record(o).queries == b.queries,
        b.record(o).outcomes[b.outcomes.len() as int] == o,
        forall|i: int| 0 <= i < b.outcomes.len() ==> b.record(o).outcomes[i] == b.outcomes[i],
        b.record(o).pending() =~= b.pending().skip(1),
{
    assert(b.record(o).pending() =~= b.pending().skip(1));
}

} // verus!
