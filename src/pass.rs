//! One pass over several endpoints under an error policy, written once and
//! shared by reads and writes of both engines.
use vstd::prelude::*;
use crate::error::{AggregateError, ErrorPolicy, SingleIoError};

verus! {

/// The successes among outcomes, in order.
pub open spec fn oks_of<T>(s: Seq<Result<T, SingleIoError>>) -> Seq<T>
    decreases s.len(),
{
    if s.len() == 0 {
        seq![]
    } else {
        match s.last() {
            Ok(v) => oks_of(s.drop_last()).push(v),
            Err(_) => oks_of(s.drop_last()),
        }
    }
}

/// The failures among outcomes, in order.
pub open spec fn errs_of<T>(s: Seq<Result<T, SingleIoError>>) -> Seq<SingleIoError>
    decreases s.len(),
{
    if s.len() == 0 {
        seq![]
    } else {
        match s.last() {
            Ok(_) => errs_of(s.drop_last()),
            Err(e) => errs_of(s.drop_last()).push(e),
        }
    }
}

/// Every outcome is a success or a failure.
pub proof fn lemma_counts<T>(s: Seq<Result<T, SingleIoError>>)
    ensures
        oks_of(s).len() + errs_of(s).len() == s.len(),
    decreases s.len(),
{
    if s.len() > 0 {
        lemma_counts(s.drop_last());
    }
}

/// Without failures, the successes are the outcomes themselves, in order.
pub proof fn lemma_all_ok<T>(s: Seq<Result<T, SingleIoError>>)
    requires
        errs_of(s).len() == 0,
    ensures
        oks_of(s).len() == s.len(),
        forall|j: int| 0 <= j < s.len() ==> s[j] == Ok::<T, SingleIoError>(#[trigger] oks_of(s)[j]),
    decreases s.len(),
{
    if s.len() > 0 {
        lemma_all_ok(s.drop_last());
        assert forall|j: int| 0 <= j < s.len() implies s[j] == Ok::<T, SingleIoError>(
            #[trigger] oks_of(s)[j],
        ) by {
            if j < s.len() - 1 {
                assert(s[j] == s.drop_last()[j]);
            }
        }
    }
}

/// Model of a pass: the policy, how many endpoints, and the outcome of each
/// endpoint handled so far.
pub struct PassModel<T> {
    pub policy: ErrorPolicy,
    pub total: nat,
    pub outcomes: Seq<Result<T, SingleIoError>>,
}

/// Whether a fail-fast pass has met its failure.
pub open spec fn halted<T>(m: PassModel<T>) -> bool {
    m.policy == ErrorPolicy::FastFail && errs_of(m.outcomes).len() > 0
}

/// The endpoint to handle next, if any.
pub open spec fn pending<T>(m: PassModel<T>) -> Option<nat> {
    if !halted(m) && m.outcomes.len() < m.total {
        Some(m.outcomes.len())
    } else {
        None
    }
}

/// Whether a pass over `total` endpoints has ended with these outcomes: nothing
/// is pending; fail-fast holds at most one failure, the last outcome; accumulate
/// handled every endpoint.
pub open spec fn ended<T>(policy: ErrorPolicy, total: nat, outcomes: Seq<Result<T, SingleIoError>>) -> bool {
    &&& pending(PassModel { policy, total, outcomes }) is None
    &&& policy == ErrorPolicy::FastFail ==> errs_of(outcomes).len() <= 1 && forall|j: int|
        0 <= j < outcomes.len() - 1 ==> #[trigger] outcomes[j] is Ok
    &&& policy == ErrorPolicy::Accumulate ==> outcomes.len() == total
}

/// Whether a pass's result reports its outcomes: every value in order when
/// nothing failed, otherwise every failure in order.
pub open spec fn reports<T>(r: Result<Vec<T>, AggregateError>, outcomes: Seq<Result<T, SingleIoError>>) -> bool {
    match r {
        Ok(v) => errs_of(outcomes).len() == 0 && v@ == oks_of(outcomes),
        Err(a) => errs_of(outcomes).len() > 0 && a.errors@ == errs_of(outcomes),
    }
}

/// A pass in progress.
pub struct Pass<T> {
    policy: ErrorPolicy,
    total: usize,
    oks: Vec<T>,
    errors: Vec<SingleIoError>,
    outcomes: Ghost<Seq<Result<T, SingleIoError>>>,
}

impl<T> View for Pass<T> {
    type V = PassModel<T>;

    closed spec fn view(&self) -> PassModel<T> {
        PassModel { policy: self.policy, total: self.total as nat, outcomes: self.outcomes@ }
    }
}

impl<T> Pass<T> {
    /// Well-formedness: outcomes are recorded only while the pass is pending, so
    /// a fail-fast pass holds at most one failure and it is the last outcome.
    pub closed spec fn wf(&self) -> bool {
        &&& self.outcomes@.len() <= self.total
        &&& self.oks@ == oks_of(self.outcomes@)
        &&& self.errors@ == errs_of(self.outcomes@)
        &&& self.policy == ErrorPolicy::FastFail ==> errs_of(self.outcomes@).len() <= 1
        &&& self.policy == ErrorPolicy::FastFail ==> forall|j: int|
            0 <= j < self.outcomes@.len() - 1 ==> #[trigger] self.outcomes@[j] is Ok
    }

    /// A pass over `total` endpoints with nothing handled yet.
    pub fn new(policy: ErrorPolicy, total: usize) -> (r: Pass<T>)
        ensures
            r.wf(),
            r@ == (PassModel::<T> { policy, total: total as nat, outcomes: seq![] }),
    {
        let ghost empty: Seq<Result<T, SingleIoError>> = seq![];
        Pass { policy, total, oks: Vec::new(), errors: Vec::new(), outcomes: Ghost(empty) }
    }

    /// The endpoint to handle next, if any.
    pub fn next_index(&self) -> (r: Option<usize>)
        requires
            self.wf(),
        ensures
            match r {
                Some(i) => pending(self@) == Some(i as nat),
                None => pending(self@) is None,
            },
    {
        let stopped = match self.policy {
            ErrorPolicy::FastFail => self.errors.len() > 0,
            ErrorPolicy::Accumulate => false,
        };
        proof {
            lemma_counts(self.outcomes@);
        }
        let done = self.oks.len() + self.errors.len();
        if !stopped && done < self.total {
            Some(done)
        } else {
            None
        }
    }

    /// Records the outcome of the pending endpoint.
    pub fn record(&mut self, outcome: Result<T, SingleIoError>)
        requires
            old(self).wf(),
            pending(old(self)@) is Some,
        ensures
            final(self).wf(),
            final(self)@ == (PassModel::<T> { outcomes: old(self)@.outcomes.push(outcome), ..old(self)@ }),
    {
        let ghost before = self.outcomes@;
        let ghost after = before.push(outcome);
        proof {
            assert(after.drop_last() == before);
        }
        match outcome {
            Ok(v) => {
                self.oks.push(v);
            },
            Err(e) => {
                self.errors.push(e);
            },
        }
        proof {
            self.outcomes = Ghost(after);
        }
        proof {
            if self.policy == ErrorPolicy::FastFail {
                assert(errs_of(before).len() == 0);
                assert forall|j: int| 0 <= j < after.len() - 1 implies #[trigger] after[j] is Ok by {
                    lemma_all_ok(before);
                    assert(after[j] == before[j]);
                    assert(before[j] == Ok::<T, SingleIoError>(oks_of(before)[j]));
                }
            }
        }
    }

    /// The pass's result: every value in order when nothing failed, otherwise every failure in order.
    pub fn finish(self) -> (r: Result<Vec<T>, AggregateError>)
        requires
            self.wf(),
        ensures
            reports(r, self@.outcomes),
    {
        let ghost outcomes = self.outcomes@;
        let Pass { oks, errors, .. } = self;
        if errors.len() == 0 {
            Ok(oks)
        } else {
            Err(AggregateError { errors })
        }
    }

    /// A pass with nothing pending has ended.
    pub proof fn lemma_ended(&self)
        requires
            self.wf(),
            pending(self@) is None,
        ensures
            ended(self@.policy, self@.total, self@.outcomes),
    {
    }

    /// Facts that hold of every pass.
    pub proof fn lemma_pass_facts(&self)
        requires
            self.wf(),
        ensures
            self@.outcomes.len() <= self@.total,
            self@.policy == ErrorPolicy::FastFail ==> errs_of(self@.outcomes).len() <= 1,
            self@.policy == ErrorPolicy::FastFail ==> forall|j: int|
                0 <= j < self@.outcomes.len() - 1 ==> #[trigger] self@.outcomes[j] is Ok,
    {
    }
}

/// Fail-fast: once an endpoint has failed, the pass asks for no further
/// endpoint, the failure is the last outcome (no endpoint after it was
/// handled), and it is the only one reported.
pub proof fn law_fast_fail_short_circuits<T>(p: &Pass<T>)
    requires
        p.wf(),
        p@.policy == ErrorPolicy::FastFail,
        errs_of(p@.outcomes).len() > 0,
    ensures
        pending(p@) is None,
        errs_of(p@.outcomes).len() == 1,
        p@.outcomes.last() is Err,
        forall|j: int| 0 <= j < p@.outcomes.len() - 1 ==> #[trigger] p@.outcomes[j] is Ok,
{
    p.lemma_pass_facts();
    let s = p@.outcomes;
    if s.last() is Ok {
        assert(errs_of(s) == errs_of(s.drop_last()));
        lemma_all_ok_prefix(s.drop_last());
    }
}

/// Outcomes that are all successes have no failure.
proof fn lemma_all_ok_prefix<T>(s: Seq<Result<T, SingleIoError>>)
    requires
        forall|j: int| 0 <= j < s.len() ==> #[trigger] s[j] is Ok,
    ensures
        errs_of(s).len() == 0,
    decreases s.len(),
{
    if s.len() > 0 {
        assert forall|j: int| 0 <= j < s.drop_last().len() implies #[trigger] s.drop_last()[j] is Ok by {
            assert(s.drop_last()[j] == s[j]);
        }
        lemma_all_ok_prefix(s.drop_last());
    }
}

/// Accumulate: the pass never stops early; when it asks for nothing more,
/// every endpoint has an outcome, failures and successes together account for
/// all of them, and without failures the values are every endpoint's, in order.
pub proof fn law_accumulate_is_complete<T>(p: &Pass<T>)
    requires
        p.wf(),
        p@.policy == ErrorPolicy::Accumulate,
        pending(p@) is None,
    ensures
        p@.outcomes.len() == p@.total,
        errs_of(p@.outcomes).len() + oks_of(p@.outcomes).len() == p@.total,
        errs_of(p@.outcomes).len() == 0 ==> forall|j: int|
            0 <= j < p@.total ==> p@.outcomes[j] == Ok::<T, SingleIoError>(#[trigger] oks_of(p@.outcomes)[j]),
{
    p.lemma_pass_facts();
    lemma_counts(p@.outcomes);
    if errs_of(p@.outcomes).len() == 0 {
        lemma_all_ok(p@.outcomes);
    }
}

} // verus!
