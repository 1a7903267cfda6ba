//! Test outcomes.

use vstd::prelude::*;
use vstd::std_specs::convert::FromSpecImpl;

use crate::capture::OutputCapture;
use crate::test::TestResult;

verus! {

/// Type erased information attached to a status or a failure, kept as its text.
#[derive(Debug, Clone, PartialEq, Eq)]
pub struct Whatever(pub String);

/// The status of a test execution.
#[derive(Debug, Clone, PartialEq, Eq)]
pub enum TestStatus {
    Passed,
    TimedOut,
    Ignored { reason: Option<String> },
    Failed(TestFailure),
    Other(Whatever),
}

/// Why a test failed.
#[derive(Debug, Clone, PartialEq, Eq)]
pub enum TestFailure {
    Error(Whatever),
    Panicked(String),
    DidNotPanic { expected: Option<String> },
    PanicMismatch { got: String, expected: Option<String> },
}

impl TestStatus {
    /// Passed, ignored and other statuses count as good.
    pub open spec fn spec_is_good(self) -> bool {
        self is Passed || self is Ignored || self is Other
    }

    /// Failed and timed out statuses count as bad.
    pub open spec fn spec_is_bad(self) -> bool {
        self is Failed || self is TimedOut
    }

    /// Returns `true` for `Passed`, `Ignored` and `Other`.
    pub fn is_good(&self) -> (r: bool)
        ensures
            r == self.spec_is_good(),
    {
        match self {
            TestStatus::Passed | TestStatus::Ignored { .. } | TestStatus::Other(_) => true,
            _ => false,
        }
    }

    /// Returns `true` for `Failed` and `TimedOut`.
    pub fn is_bad(&self) -> (r: bool)
        ensures
            r == self.spec_is_bad(),
    {
        match self {
            TestStatus::Failed(_) | TestStatus::TimedOut => true,
            _ => false,
        }
    }

    /// Returns `true` if the test passed.
    pub fn passed(&self) -> (r: bool)
        ensures
            r == self is Passed,
    {
        match self {
            TestStatus::Passed => true,
            _ => false,
        }
    }

    /// Returns `true` if the test timed out.
    pub fn timed_out(&self) -> (r: bool)
        ensures
            r == self is TimedOut,
    {
        match self {
            TestStatus::TimedOut => true,
            _ => false,
        }
    }

    /// Returns `true` if the test was ignored.
    pub fn ignored(&self) -> (r: bool)
        ensures
            r == self is Ignored,
    {
        match self {
            TestStatus::Ignored { .. } => true,
            _ => false,
        }
    }

    /// Returns `true` if the test failed.
    pub fn failed(&self) -> (r: bool)
        ensures
            r == self is Failed,
    {
        match self {
            TestStatus::Failed(_) => true,
            _ => false,
        }
    }
}

/// Every status is exactly one of good and bad.
pub proof fn lemma_good_iff_not_bad(status: TestStatus)
    ensures
        status.spec_is_good() == !status.spec_is_bad(),
{
}

/// The status a test result maps to.
pub open spec fn status_of_result(value: TestResult) -> TestStatus {
    match value.0 {
        Ok(_) => TestStatus::Passed,
        Err(err) => TestStatus::Failed(TestFailure::Error(Whatever(err))),
    }
}

impl From<TestResult> for TestStatus {
    fn from(value: TestResult) -> (r: Self) {
        match value.0 {
            Ok(_) => TestStatus::Passed,
            Err(err) => TestStatus::Failed(TestFailure::Error(Whatever(err))),
        }
    }
}

impl FromSpecImpl<TestResult> for TestStatus {
    open spec fn obeys_from_spec() -> bool {
        true
    }

    open spec fn from_spec(v: TestResult) -> Self {
        status_of_result(v)
    }
}

/// The outcome of a single test execution.
#[derive(Debug)]
pub struct TestOutcome {
    pub status: TestStatus,
    pub duration: std::time::Duration,
    pub output: OutputCapture,
}

impl std::ops::Deref for TestOutcome {
    type Target = TestStatus;

    /// An outcome reads as its status.
    fn deref(&self) -> (r: &TestStatus)
        ensures
            *r == self.status,
    {
        &self.status
    }
}

impl Clone for TestOutcome {
    /// An outcome with the same status, duration and captured writes.
    fn clone(&self) -> (r: Self)
        ensures
            r.status == self.status,
            r.duration == self.duration,
            r.output.chunks() == self.output.chunks(),
    {
        TestOutcome {
            status: clone_status(&self.status),
            duration: self.duration,
            output: self.output.clone(),
        }
    }
}

fn clone_option_string(v: &Option<String>) -> (r: Option<String>)
    ensures
        r == *v,
{
    match v {
        Some(s) => Some(s.clone()),
        None => None,
    }
}

/// A copy of a failure.
pub fn clone_failure(failure: &TestFailure) -> (r: TestFailure)
    ensures
        r == *failure,
{
    match failure {
        TestFailure::Error(w) => TestFailure::Error(Whatever(w.0.clone())),
        TestFailure::Panicked(s) => TestFailure::Panicked(s.clone()),
        TestFailure::DidNotPanic { expected } => TestFailure::DidNotPanic {
            expected: clone_option_string(expected),
        },
        TestFailure::PanicMismatch { got, expected } => TestFailure::PanicMismatch {
            got: got.clone(),
            expected: clone_option_string(expected),
        },
    }
}

/// A copy of a status.
pub fn clone_status(status: &TestStatus) -> (r: TestStatus)
    ensures
        r == *status,
{
    match status {
        TestStatus::Passed => TestStatus::Passed,
        TestStatus::TimedOut => TestStatus::TimedOut,
        TestStatus::Ignored { reason } => TestStatus::Ignored { reason: clone_option_string(reason) },
        TestStatus::Failed(f) => TestStatus::Failed(clone_failure(f)),
        TestStatus::Other(w) => TestStatus::Other(Whatever(w.0.clone())),
    }
}

} // verus!
