use vstd::prelude::*;
use crate::error::{outcome_view, InstallError};

verus! {

/// Runs a fixed number of items in order and stops at the first failure,
/// whose message becomes the result unchanged.
#[derive(Debug)]
pub struct Pipeline {
    total: usize,
    done: usize,
    failure: Option<InstallError>,
}

impl Pipeline {
    /// The number of items.
    pub closed spec fn total(&self) -> nat {
        self.total as nat
    }

    /// The number of items that have succeeded.
    pub closed spec fn done(&self) -> nat {
        self.done as nat
    }

    /// The message of the failure that stopped the run, if any.
    pub closed spec fn failure(&self) -> Option<Seq<char>> {
        match self.failure {
            Some(e) => Some(e@),
            None => None,
        }
    }

    pub closed spec fn wf(&self) -> bool {
        self.done <= self.total
    }

    /// The index of the item to perform next: none once all have
    /// succeeded or one has failed.
    pub open spec fn upcoming(&self) -> Option<nat> {
        if self.failure() is None && self.done() < self.total() {
            Some(self.done())
        } else {
            None
        }
    }

    /// What the run amounts to once it has stopped.
    pub open spec fn verdict(&self) -> Result<(), Seq<char>> {
        match self.failure() {
            Some(m) => Err(m),
            None => Ok(()),
        }
    }

    pub fn new(total: usize) -> (r: Pipeline)
        ensures
            r.wf(),
            r.total() == total,
            r.done() == 0,
            r.failure() is None,
    {
        Pipeline { total, done: 0, failure: None }
    }

    /// The index of the item to perform next.
    pub fn next(&self) -> (r: Option<usize>)
        requires
            self.wf(),
        ensures
            match r {
                Some(i) => self.upcoming() == Some(i as nat),
                None => self.upcoming() is None,
            },
    {
        if self.failure.is_none() && self.done < self.total {
            Some(self.done)
        } else {
            None
        }
    }

    /// Records how the item that was due went: a success moves on to the
    /// next item, a failure ends the run with that failure.
    pub fn record(&mut self, outcome: Result<(), InstallError>)
        requires
            old(self).wf(),
            old(self).upcoming() is Some,
        ensures
            final(self).wf(),
            final(self).total() == old(self).total(),
            match outcome {
                Ok(()) => final(self).done() == old(self).done() + 1 && final(self).failure()
                    is None,
                Err(e) => final(self).done() == old(self).done() && final(self).failure() == Some(
                    e@,
                ),
            },
    {
        match outcome {
            Ok(()) => {
                self.done = self.done + 1;
            },
            Err(e) => {
                self.failure = Some(e);
            },
        }
    }

    /// The result of a run that has stopped: the failure that stopped it,
    /// or success when every item succeeded.
    pub fn result(&self) -> (r: Result<(), InstallError>)
        requires
            self.wf(),
            self.upcoming() is None,
        ensures
            outcome_view(r) == self.verdict(),
            r is Ok ==> self.done() == self.total(),
    {
        match &self.failure {
            Some(e) => Err(e.duplicate()),
            None => Ok(()),
        }
    }
}

/// What to do after an attempt.
#[derive(Debug)]
pub enum RetryAction {
    /// Make another attempt.
    Again,
    /// Stop with this result.
    Stop(Result<(), InstallError>),
}

/// One step of the retry rule: given the failures so far, a success stops
/// with success; a failure is retried while fewer than `max` attempts have
/// been made, and is otherwise the result unchanged.
pub open spec fn retry_step(max: nat, failures: nat, outcome: Result<(), Seq<char>>) -> Option<
    Result<(), Seq<char>>,
> {
    match outcome {
        Ok(()) => Some(Ok(())),
        Err(m) => if failures + 1 < max {
            None
        } else {
            Some(Err(m))
        },
    }
}

/// Feeding successive outcomes to the retry rule: how many attempts are
/// made and what comes out.
pub open spec fn retry_trace(max: nat, failures: nat, outcomes: Seq<Result<(), Seq<char>>>) -> (
    nat,
    Option<Result<(), Seq<char>>>,
)
    decreases outcomes.len(),
{
    if outcomes.len() == 0 {
        (0, None)
    } else {
        match retry_step(max, failures, outcomes[0]) {
            Some(r) => (1, Some(r)),
            None => {
                let rest = retry_trace(max, failures + 1, outcomes.drop_first());
                (rest.0 + 1, rest.1)
            },
        }
    }
}

/// Re-runs a fallible operation up to a fixed number of attempts; the last
/// failure is returned as it is, with no delay between attempts.
pub struct Retry {
    max: u32,
    failures: u32,
}

impl Retry {
    pub closed spec fn max(&self) -> nat {
        self.max as nat
    }

    pub closed spec fn failures(&self) -> nat {
        self.failures as nat
    }

    pub open spec fn wf(&self) -> bool {
        self.failures() < self.max()
    }

    pub fn new(max: u32) -> (r: Retry)
        requires
            max >= 1,
        ensures
            r.wf(),
            r.max() == max,
            r.failures() == 0,
    {
        Retry { max, failures: 0 }
    }

    /// Records the outcome of an attempt and says whether to try again.
    pub fn record(&mut self, outcome: Result<(), InstallError>) -> (r: RetryAction)
        requires
            old(self).wf(),
        ensures
            final(self).max() == old(self).max(),
            match r {
                RetryAction::Again => retry_step(old(self).max(), old(self).failures(), outcome_view(outcome))
                    is None && final(self).failures() == old(self).failures() + 1 && final(self).wf(),
                RetryAction::Stop(res) => retry_step(
                    old(self).max(),
                    old(self).failures(),
                    outcome_view(outcome),
                ) == Some(outcome_view(res)),
            },
    {
        match outcome {
            Ok(()) => RetryAction::Stop(Ok(())),
            Err(e) => {
                if self.failures + 1 < self.max {
                    self.failures = self.failures + 1;
                    RetryAction::Again
                } else {
                    RetryAction::Stop(Err(e))
                }
            },
        }
    }
}

/// However the attempts go, at most `max` are made; every attempt but the
/// last failed; the last one's outcome is the result, unchanged; and a
/// failure is the result only once `max` attempts have been made.
pub proof fn retry_is_bounded(max: nat, outcomes: Seq<Result<(), Seq<char>>>)
    requires
        max >= 1,
        outcomes.len() >= max,
    ensures
        ({
            let (calls, res) = retry_trace(max, 0, outcomes);
            &&& 1 <= calls <= max
            &&& forall|i: int| 0 <= i < calls - 1 ==> #[trigger] outcomes[i] is Err
            &&& res == Some(outcomes[calls - 1])
            &&& (res == Some(Ok::<(), Seq<char>>(())) || calls == max)
        }),
{
    retry_trace_from(max, 0, outcomes);
}

proof fn retry_trace_from(max: nat, failures: nat, outcomes: Seq<Result<(), Seq<char>>>)
    requires
        failures < max,
        outcomes.len() >= max - failures,
    ensures
        ({
            let (calls, res) = retry_trace(max, failures, outcomes);
            &&& 1 <= calls <= max - failures
            &&& forall|i: int| 0 <= i < calls - 1 ==> #[trigger] outcomes[i] is Err
            &&& res == Some(outcomes[calls - 1])
            &&& (res == Some(Ok::<(), Seq<char>>(())) || calls == max - failures)
        }),
    decreases outcomes.len(),
{
    match retry_step(max, failures, outcomes[0]) {
        Some(r) => {
                match outcomes[0] {
                    Ok(u) => {
                        assert(u == ());
                        assert(outcomes[0] == Ok::<(), Seq<char>>(()));
                    },
                    Err(m) => {},
                }
            },
        None => {
            let rest = outcomes.drop_first();
            retry_trace_from(max, failures + 1, rest);
            let c = retry_trace(max, failures + 1, rest).0;
            assert(retry_trace(max, failures, outcomes).0 == c + 1);
            assert(retry_trace(max, failures, outcomes).1 == retry_trace(max, failures + 1, rest).1);
            assert(c <= rest.len());
            assert forall|i: int| 0 <= i < c implies #[trigger] outcomes[i] is Err by {
                if 0 < i < c {
                    assert(outcomes[i] == rest[i - 1]);
                    assert(rest[i - 1] is Err);
                }
            }
            assert(outcomes[c as int] == rest[c - 1]);
        },
    }
}

} // verus!
