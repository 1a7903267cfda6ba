//! Ignore strategies: decide whether a participating test is run or reported as ignored.

use vstd::prelude::*;

use crate::test::{IgnoreStatus, TestMeta};

verus! {

/// Decides whether a test is run or ignored.
pub trait TestIgnore<Extra> {
    /// Whether `r` is a decision this strategy gives for a test with this metadata. Each
    /// strategy may say what it means for it; by default it says nothing.
    open spec fn decides(&self, meta: TestMeta<Extra>, r: IgnoreStatus) -> bool {
        true
    }

    /// The decision for one test.
    fn ignore(&self, meta: &TestMeta<Extra>) -> (r: IgnoreStatus)
        ensures
            self.decides(*meta, r),
    ;
}

/// Runs every test.
pub struct NoIgnore;

impl NoIgnore {
    /// Every test runs.
    pub fn decide<Extra>(&self, meta: &TestMeta<Extra>) -> (r: IgnoreStatus)
        ensures
            r == IgnoreStatus::Run,
    {
        IgnoreStatus::Run
    }
}

impl<Extra> TestIgnore<Extra> for NoIgnore {
    open spec fn decides(&self, meta: TestMeta<Extra>, r: IgnoreStatus) -> bool {
        r == IgnoreStatus::Run
    }

    /// Every test runs.
    fn ignore(&self, meta: &TestMeta<Extra>) -> (r: IgnoreStatus)
        ensures
            r == IgnoreStatus::Run,
    {
        self.decide(meta)
    }
}

/// The ignore strategies of the built in harness.
#[derive(Debug, Clone, Copy, PartialEq, Eq)]
pub enum DefaultIgnore {
    /// Run every test, ignored ones included (`--include-ignored`).
    IncludeIgnored,
    /// Run only the tests marked as ignored, and ignore the others (`--ignored`).
    IgnoredOnly,
    /// Run the tests not marked as ignored, and ignore the others with their reason.
    Default,
}

impl Default for DefaultIgnore {
    fn default() -> (r: Self)
        ensures
            r == DefaultIgnore::Default,
    {
        DefaultIgnore::Default
    }
}

/// What the default ignore strategy decides for a test marked with `marked`.
pub open spec fn default_ignore_decision(strategy: DefaultIgnore, marked: IgnoreStatus) -> IgnoreStatus {
    match strategy {
        DefaultIgnore::IncludeIgnored => IgnoreStatus::Run,
        DefaultIgnore::IgnoredOnly => if marked is Run {
            IgnoreStatus::Ignore
        } else {
            IgnoreStatus::Run
        },
        DefaultIgnore::Default => marked,
    }
}

pub(crate) fn clone_ignore_status(s: &IgnoreStatus) -> (r: IgnoreStatus)
    ensures
        r == *s,
{
    match s {
        IgnoreStatus::Run => IgnoreStatus::Run,
        IgnoreStatus::Ignore => IgnoreStatus::Ignore,
        IgnoreStatus::IgnoreWithReason(reason) => IgnoreStatus::IgnoreWithReason(reason.clone()),
    }
}

impl DefaultIgnore {
    /// Decide for one test by its marking.
    pub fn decide<Extra>(&self, meta: &TestMeta<Extra>) -> (r: IgnoreStatus)
        ensures
            r == default_ignore_decision(*self, meta.ignore),
    {
        match self {
            DefaultIgnore::IncludeIgnored => IgnoreStatus::Run,
            DefaultIgnore::IgnoredOnly => match meta.ignore {
                IgnoreStatus::Run => IgnoreStatus::Ignore,
                _ => IgnoreStatus::Run,
            },
            DefaultIgnore::Default => clone_ignore_status(&meta.ignore),
        }
    }
}

impl<Extra> TestIgnore<Extra> for DefaultIgnore {
    open spec fn decides(&self, meta: TestMeta<Extra>, r: IgnoreStatus) -> bool {
        r == default_ignore_decision(*self, meta.ignore)
    }

    /// See [`DefaultIgnore::decide`].
    fn ignore(&self, meta: &TestMeta<Extra>) -> (r: IgnoreStatus)
        ensures
            r == default_ignore_decision(*self, meta.ignore),
    {
        self.decide(meta)
    }
}

/// Call an ignore function on a test (`Fn::call`): the decision is one the function can
/// return for this test, as its own postcondition describes it, whenever its precondition holds.
#[verifier::external_body]
fn call_ignore_fn<Extra, F: Fn(&TestMeta<Extra>) -> IgnoreStatus>(f: &F, meta: &TestMeta<Extra>) -> (r: IgnoreStatus)
    ensures
        call_requires(*f, (meta,)) ==> call_ensures(*f, (meta,), r),
{
    f(meta)
}

impl<Extra, F> TestIgnore<Extra> for F where F: Fn(&TestMeta<Extra>) -> IgnoreStatus {
    /// The decision is one the function can return for the test whenever its precondition
    /// holds.
    open spec fn decides(&self, meta: TestMeta<Extra>, r: IgnoreStatus) -> bool {
        call_requires(*self, (&meta,)) ==> call_ensures(*self, (&meta,), r)
    }

    /// A function from test metadata to a decision decides by calling it.
    fn ignore(&self, meta: &TestMeta<Extra>) -> (r: IgnoreStatus)
        ensures
            call_requires(*self, (meta,)) ==> call_ensures(*self, (meta,), r),
    {
        call_ignore_fn(self, meta)
    }
}

/// Across the default strategy and the ignored only strategy, a test runs in exactly one.
pub proof fn lemma_default_and_ignored_only_partition(marked: IgnoreStatus)
    ensures
        (default_ignore_decision(DefaultIgnore::Default, marked) is Run) != (
        default_ignore_decision(DefaultIgnore::IgnoredOnly, marked) is Run),
{
}

/// With ignored tests included, every test runs.
pub proof fn law_include_ignored_runs_all(marked: IgnoreStatus)
    ensures
        default_ignore_decision(DefaultIgnore::IncludeIgnored, marked) is Run,
{
}

/// The default strategy runs exactly the tests not marked as ignored, and keeps the mark's
/// reason for the others.
pub proof fn law_default_keeps_marks(marked: IgnoreStatus)
    ensures
        default_ignore_decision(DefaultIgnore::Default, marked) == marked,
{
}

} // verus!
