//! Task descriptors and result accounting for the worker pool.
//!
//! A pool run fans a homogeneous list of tasks out to a fixed number of
//! workers and gathers one outcome per task through a shared channel. The
//! threads and the channel are plumbing outside the library; what the library
//! owns — and verifies — is the run's accounting: the operation is a closed
//! two-variant choice bound once per run, the number of outcomes owed is the
//! length of the submitted task list and nothing else, every worker failure
//! is a delivered outcome rather than a lost one, and the run's answer is the
//! most recent successful illustration unless some task failed.

use vstd::prelude::*;
use crate::errors::EngineError;
use crate::illustration::Illustration;
use crate::illustration::new_illustration;

verus! {

/// The operation a pool run performs for every one of its tasks: either a
/// projection at each task's own premium, or a solve that ignores it.
#[derive(Clone, Copy, Debug, PartialEq, Eq, Structural)]
pub enum Operation {
    Illustrate,
    Solve,
}

/// IEEE 754 bit pattern of the default face amount, 100000.0.
pub const DEFAULT_FACE_AMOUNT_BITS: u64 = 0x40F8_6A00_0000_0000;

/// IEEE 754 bit pattern of the default annual premium, 1255.03.
pub const DEFAULT_PREMIUM_BITS: u64 = 0x4093_9C1E_B851_EB85;

/// Issue age of the default task.
pub const DEFAULT_ISSUE_AGE: u8 = 35;

/// An immutable request descriptor: the cohort keys, the face amount, and
/// the premium (used by the projection operation, ignored by the solve).
#[derive(Clone, Debug)]
pub struct Task {
    pub gender: String,
    pub risk_class: String,
    pub issue_age: u8,
    pub face_amount_bits: u64,
    pub premium_bits: u64,
}

/// Whether a task carries the default benchmark cohort and amounts.
pub open spec fn spec_default_task(t: Task) -> bool {
    &&& t.gender@ == "M"@
    &&& t.risk_class@ == "NS"@
    &&& t.issue_age == DEFAULT_ISSUE_AGE
    &&& t.face_amount_bits == DEFAULT_FACE_AMOUNT_BITS
    &&& t.premium_bits == DEFAULT_PREMIUM_BITS
}

/// The default task: a male non-smoker issued at 35, with the default face
/// amount and premium.
pub fn new_default_task() -> (t: Task)
    ensures
        spec_default_task(t),
{
    Task {
        gender: "M".to_owned(),
        risk_class: "NS".to_owned(),
        issue_age: DEFAULT_ISSUE_AGE,
        face_amount_bits: DEFAULT_FACE_AMOUNT_BITS,
        premium_bits: DEFAULT_PREMIUM_BITS,
    }
}

/// The outcome a worker delivers for one task: the finished illustration, or
/// the error that stopped it. A failing worker must still deliver, so the
/// coordinator never waits for an outcome that cannot arrive.
pub type TaskOutcome = Result<Illustration, EngineError>;

/// Gathers the outcomes of one pool run: exactly one per submitted task.
pub struct Collector {
    expected: usize,
    received: usize,
    last: Option<Illustration>,
    failure: Option<EngineError>,
}

impl Collector {
    /// How many outcomes the run owes.
    pub closed spec fn spec_expected(&self) -> int {
        self.expected as int
    }

    /// How many outcomes have been recorded.
    pub closed spec fn spec_received(&self) -> int {
        self.received as int
    }

    /// The most recent successful illustration, if any.
    pub closed spec fn spec_last(&self) -> Option<Illustration> {
        self.last
    }

    /// The first recorded failure, if any.
    pub closed spec fn spec_failure(&self) -> Option<EngineError> {
        self.failure
    }

    /// All owed outcomes are in.
    pub open spec fn spec_complete(&self) -> bool {
        self.spec_received() == self.spec_expected()
    }

    /// A collector owing exactly one outcome per task of the submitted list:
    /// the count is derived from the list itself, never configured apart
    /// from it.
    pub fn for_tasks(tasks: &Vec<Task>) -> (c: Collector)
        ensures
            c.spec_expected() == tasks@.len(),
            c.spec_received() == 0,
            c.spec_last() is None,
            c.spec_failure() is None,
    {
        Collector { expected: tasks.len(), received: 0, last: None, failure: None }
    }

    /// Whether every owed outcome has been recorded.
    pub fn is_complete(&self) -> (r: bool)
        ensures
            r == self.spec_complete(),
    {
        self.received == self.expected
    }

    /// Records one delivered outcome: a success becomes the latest answer; a
    /// failure is kept (the first one) so the run reports it instead of a
    /// partial result.
    pub fn record(&mut self, outcome: TaskOutcome)
        requires
            !old(self).spec_complete(),
            old(self).spec_received() < old(self).spec_expected(),
        ensures
            final(self).spec_expected() == old(self).spec_expected(),
            final(self).spec_received() == old(self).spec_received() + 1,
            match outcome {
                Ok(ill) => final(self).spec_last() == Some(ill) && final(self).spec_failure()
                    == old(self).spec_failure(),
                Err(e) => final(self).spec_last() == old(self).spec_last()
                    && final(self).spec_failure() == if old(self).spec_failure() is Some {
                    old(self).spec_failure()
                } else {
                    Some(e)
                },
            },
    {
        self.received = self.received + 1;
        match outcome {
            Ok(ill) => {
                self.last = Some(ill);
            },
            Err(e) => {
                if self.failure.is_none() {
                    self.failure = Some(e);
                }
            },
        }
    }

    /// The run's answer, once every outcome is in: the first failure if any
    /// task failed, otherwise the most recent illustration; a run of zero
    /// tasks answers with a fresh single-row illustration.
    pub fn finish(self) -> (r: Result<Illustration, EngineError>)
        requires
            self.spec_complete(),
        ensures
            self.spec_failure() is Some ==> r == Err::<Illustration, EngineError>(
                self.spec_failure()->Some_0,
            ),
            self.spec_failure() is None && self.spec_last() is Some ==> r == Ok::<
                Illustration,
                EngineError,
            >(self.spec_last()->Some_0),
            self.spec_failure() is None && self.spec_last() is None ==> r is Ok
                && r->Ok_0.length == 1,
    {
        match self.failure {
            Some(e) => Err(e),
            None => match self.last {
                Some(ill) => Ok(ill),
                None => Ok(new_illustration(1)),
            },
        }
    }
}

} // verus!
