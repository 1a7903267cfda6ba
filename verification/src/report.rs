//! Test reports: the outcomes of a run, its duration and the formatter's errors, and the
//! exit status they call for.

use vstd::prelude::*;

use crate::formatter::{FormatError, GroupedTestOutcomes, TestOutcomes};
use crate::outcome::TestOutcome;

verus! {

/// The exit status a report calls for.
#[derive(Debug, Clone, Copy, PartialEq, Eq, Structural)]
pub enum ExitStatus {
    Success,
    Failure,
}

/// Whether some outcome is a failure.
pub open spec fn any_failed<'t>(outcomes: Seq<(&'t str, TestOutcome)>) -> bool {
    exists|i: int| 0 <= i < outcomes.len() && (#[trigger] outcomes[i]).1.status is Failed
}

/// Whether some outcome of some group is a failure.
pub open spec fn any_group_failed<'t, GroupKey, GroupCtx>(groups: Seq<(GroupKey, TestOutcomes<'t>, Option<GroupCtx>)>) -> bool {
    exists|g: int| 0 <= g < groups.len() && any_failed((#[trigger] groups[g]).1@)
}

/// Find a failure among outcomes.
pub fn find_failure<'t>(outcomes: &TestOutcomes<'t>) -> (r: bool)
    ensures
        r == any_failed(outcomes@),
{
    let mut i: usize = 0;
    while i < outcomes.len()
        invariant
            i <= outcomes@.len(),
            forall|k: int| 0 <= k < i ==> !((#[trigger] outcomes@[k]).1.status is Failed),
        decreases outcomes.len() - i,
    {
        if outcomes[i].1.failed() {
            return true;
        }
        i += 1;
    }
    false
}

/// The report of a run.
#[derive(Debug)]
#[non_exhaustive]
pub struct TestReport<'t, FmtError> {
    /// Outcomes of all executed tests.
    pub outcomes: TestOutcomes<'t>,
    /// Total duration of the run.
    pub duration: std::time::Duration,
    /// Errors reported by the formatter, each with its stage.
    pub fmt_errors: Vec<(FormatError, FmtError)>,
}

impl<'t, FmtError> TestReport<'t, FmtError> {
    /// A report of these outcomes, duration and formatter errors.
    pub fn new(outcomes: TestOutcomes<'t>, duration: std::time::Duration, fmt_errors: Vec<(FormatError, FmtError)>) -> (r: Self)
        ensures
            r.outcomes == outcomes,
            r.duration == duration,
            r.fmt_errors == fmt_errors,
    {
        TestReport { outcomes, duration, fmt_errors }
    }

    /// Failure when a test failed, else failure when the formatter reported an error, else
    /// success.
    pub fn exit_code(&self) -> (r: ExitStatus)
        ensures
            r == if any_failed(self.outcomes@) || self.fmt_errors@.len() > 0 {
                ExitStatus::Failure
            } else {
                ExitStatus::Success
            },
    {
        if find_failure(&self.outcomes) {
            return ExitStatus::Failure;
        }
        if self.fmt_errors.len() == 0 {
            ExitStatus::Success
        } else {
            ExitStatus::Failure
        }
    }
}

/// The report of a grouped run.
#[derive(Debug)]
#[non_exhaustive]
pub struct GroupedTestReport<'t, GroupKey, GroupCtx, FmtError> {
    /// Outcomes of all executed groups: key, outcomes of its tests and its context.
    pub outcomes: GroupedTestOutcomes<'t, GroupKey, GroupCtx>,
    /// Total duration of the run.
    pub duration: std::time::Duration,
    /// Errors reported by the formatter, each with its stage.
    pub fmt_errors: Vec<(FormatError, FmtError)>,
}

impl<'t, GroupKey, GroupCtx, FmtError> GroupedTestReport<'t, GroupKey, GroupCtx, FmtError> {
    /// A report of these group outcomes, duration and formatter errors.
    pub fn new(
        outcomes: GroupedTestOutcomes<'t, GroupKey, GroupCtx>,
        duration: std::time::Duration,
        fmt_errors: Vec<(FormatError, FmtError)>,
    ) -> (r: Self)
        ensures
            r.outcomes == outcomes,
            r.duration == duration,
            r.fmt_errors == fmt_errors,
    {
        GroupedTestReport { outcomes, duration, fmt_errors }
    }

    /// Failure when a test of any group failed, else failure when the formatter reported an
    /// error, else success.
    pub fn exit_code(&self) -> (r: ExitStatus)
        ensures
            r == if any_group_failed(self.outcomes@) || self.fmt_errors@.len() > 0 {
                ExitStatus::Failure
            } else {
                ExitStatus::Success
            },
    {
        let mut g: usize = 0;
        while g < self.outcomes.len()
            invariant
                g <= self.outcomes@.len(),
                forall|k: int| 0 <= k < g ==> !any_failed((#[trigger] self.outcomes@[k]).1@),
            decreases self.outcomes.len() - g,
        {
            if find_failure(&self.outcomes[g].1) {
                return ExitStatus::Failure;
            }
            g += 1;
        }
        if self.fmt_errors.len() == 0 {
            ExitStatus::Success
        } else {
            ExitStatus::Failure
        }
    }
}

} // verus!
