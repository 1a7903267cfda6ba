//! Formatting the events of a test run.
//!
//! The harness emits events while it filters, ignores and runs tests. Each event is a
//! lightweight `Fmt*` value that borrows from the harness as far as possible; a formatter
//! turns the events it cares about into output.

use vstd::prelude::*;

use crate::outcome::TestOutcome;
use crate::test::{IgnoreStatus, Test, TestMeta};

pub mod common;
pub mod debug;
pub mod no;
pub mod pretty;
pub mod terse;

verus! {

/// Outcomes of a run: each test's name with its outcome.
pub type TestOutcomes<'t> = Vec<(&'t str, TestOutcome)>;

/// Outcomes of a grouped run: each group's key, its outcomes and its context.
pub type GroupedTestOutcomes<'t, GroupKey, GroupCtx> = Vec<(GroupKey, TestOutcomes<'t>, Option<GroupCtx>)>;

/// Before anything happens, even before filtering: the full test list.
#[derive(Debug)]
pub struct FmtRunInit<'t, Extra, Function> {
    pub tests: &'t [Test<Extra, Function>],
}

/// After filtering: the number of tests taking part and the number filtered out.
#[derive(Debug, Clone)]
pub struct FmtRunStart {
    pub active: usize,
    pub filtered: usize,
}

/// A test that is ignored, with the reason if there is one.
#[derive(Debug, Clone)]
pub struct FmtTestIgnored<'t, 'r, Extra> {
    pub meta: &'t TestMeta<Extra>,
    pub reason: Option<&'r String>,
}

/// A test about to start.
#[derive(Debug, Clone)]
pub struct FmtTestStart<'t, Extra> {
    pub meta: &'t TestMeta<Extra>,
}

/// A test that finished, with its outcome.
#[derive(Debug, Clone)]
pub struct FmtTestOutcome<'t, 'o, Extra> {
    pub meta: &'t TestMeta<Extra>,
    pub outcome: &'o TestOutcome,
}

/// The end of a run: all outcomes, the number filtered out and the total duration.
#[derive(Debug, Clone)]
pub struct FmtRunOutcomes<'t, 'o> {
    pub outcomes: &'o TestOutcomes<'t>,
    pub filtered_out: usize,
    pub duration: std::time::Duration,
}

/// After filtering in a grouped run: the number of grouped tests and the number filtered out.
#[derive(Debug, Clone)]
pub struct FmtGroupedRunStart {
    pub tests: usize,
    pub filtered: usize,
}

/// A group about to start.
#[derive(Debug, Clone)]
pub struct FmtGroupStart<'g, GroupKey, GroupCtx> {
    pub tests: usize,
    pub worker_count: usize,
    pub key: &'g GroupKey,
    pub ctx: Option<&'g GroupCtx>,
}

/// A group that finished, with its outcomes.
#[derive(Debug, Clone)]
pub struct FmtGroupOutcomes<'t, 'g, 'o, GroupKey, GroupCtx> {
    pub outcomes: &'o TestOutcomes<'t>,
    pub duration: std::time::Duration,
    pub key: &'g GroupKey,
    pub ctx: Option<&'g GroupCtx>,
}

/// The end of a grouped run: all group outcomes and the total duration.
#[derive(Debug, Clone)]
pub struct FmtGroupedRunOutcomes<'t, 'o, GroupKey, GroupCtx> {
    pub outcomes: &'o GroupedTestOutcomes<'t, GroupKey, GroupCtx>,
    pub duration: std::time::Duration,
}

/// Before listing, even before filtering: the full test list.
#[derive(Debug)]
pub struct FmtInitListing<'t, Extra, Function> {
    pub tests: &'t [Test<Extra, Function>],
}

/// After filtering in listing mode: the number of tests listed and the number filtered out.
#[derive(Debug, Clone)]
pub struct FmtBeginListing {
    pub tests: usize,
    pub filtered: usize,
}

/// One listed test with the ignore decision for it.
#[derive(Debug, Clone)]
pub struct FmtListTest<'t, Extra> {
    pub meta: &'t TestMeta<Extra>,
    pub ignored: IgnoreStatus,
}

/// The end of listing: the number of tests that would run and that would be ignored.
#[derive(Debug, Clone)]
pub struct FmtEndListing {
    pub active: usize,
    pub ignored: usize,
}

/// The number of groups in a grouped listing.
#[derive(Debug, Clone)]
pub struct FmtListGroups {
    pub groups: usize,
}

/// The start of a group in a grouped listing.
#[derive(Debug, Clone)]
pub struct FmtListGroupStart<'g, GroupKey, GroupCtx> {
    pub tests: usize,
    pub key: &'g GroupKey,
    pub ctx: Option<&'g GroupCtx>,
}

/// The end of a group in a grouped listing.
#[derive(Debug, Clone)]
pub struct FmtListGroupEnd<'g, GroupKey, GroupCtx> {
    pub tests: usize,
    pub key: &'g GroupKey,
    pub ctx: Option<&'g GroupCtx>,
}

/// The metadata of each test, in order.
pub open spec fn metas_of<Extra, Function>(tests: Seq<Test<Extra, Function>>) -> Seq<TestMeta<Extra>> {
    tests.map_values(|t: Test<Extra, Function>| t.meta)
}

/// An optional reference taken as an optional value.
pub open spec fn owned_opt<T>(o: Option<&T>) -> Option<T> {
    match o {
        Some(x) => Some(*x),
        None => None,
    }
}

/// A formatter for a normal (non grouped) test run. The events of the run's start and end
/// are answered by every formatter; those of single tests are ignored by default.
pub trait TestFormatter<'t, Extra: 't>: Sized {
    /// Formatter specific error type.
    type Error;

    /// What a call of `fmt_run_init` does: the formatter, in this state, handed the tests
    /// with this metadata, answers `r` and is left in the state `after`. The library's
    /// formatters define it by what they write; a formatter that does not define it says
    /// nothing of its calls.
    open spec fn handled_run_init(&self, tests: Seq<TestMeta<Extra>>, r: Result<(), Self::Error>, after: Self) -> bool {
        true
    }

    /// What a call of `fmt_run_start` does: the formatter, in this state, handed `data`,
    /// answers `r` and is left in the state `after`.
    open spec fn handled_run_start(&self, data: FmtRunStart, r: Result<(), Self::Error>, after: Self) -> bool {
        true
    }

    /// What a call of `fmt_run_outcomes` does: the formatter, in this state, handed these outcomes,
    /// this number of filtered tests and this duration, answers `r` and is left in the state `after`.
    open spec fn handled_run_outcomes(
        &self,
        outcomes: Seq<(&'t str, TestOutcome)>,
        filtered_out: usize,
        duration: std::time::Duration,
        r: Result<(), Self::Error>,
        after: Self,
    ) -> bool {
        true
    }

    /// Called before anything happens, even before filtering.
    fn fmt_run_init<Function>(&mut self, data: FmtRunInit<'t, Extra, Function>) -> (r: Result<(), Self::Error>)
        ensures
            old(self).handled_run_init(metas_of(data.tests@), r, *final(self)),
    ;

    /// Called after filtering, when the run is about to start.
    fn fmt_run_start(&mut self, data: FmtRunStart) -> (r: Result<(), Self::Error>)
        ensures
            old(self).handled_run_start(data, r, *final(self)),
    ;

    /// Called for a test that is ignored.
    fn fmt_test_ignored<'r>(&mut self, data: FmtTestIgnored<'t, 'r, Extra>) -> (r: Result<(), Self::Error>)
        default_ensures
            r is Ok,
    {
        Ok(())
    }

    /// Called when a test is about to start executing.
    fn fmt_test_start(&mut self, data: FmtTestStart<'t, Extra>) -> (r: Result<(), Self::Error>)
        default_ensures
            r is Ok,
    {
        Ok(())
    }

    /// Called when a test has finished executing.
    fn fmt_test_outcome<'o>(&mut self, data: FmtTestOutcome<'t, 'o, Extra>) -> (r: Result<(), Self::Error>)
        default_ensures
            r is Ok,
    {
        Ok(())
    }

    /// Called at the end of a non grouped run with all outcomes.
    fn fmt_run_outcomes<'o>(&mut self, data: FmtRunOutcomes<'t, 'o>) -> (r: Result<(), Self::Error>)
        ensures
            old(self).handled_run_outcomes(data.outcomes@, data.filtered_out, data.duration, r, *final(self)),
    ;
}

/// A formatter for grouped test runs: the test events plus group level events.
pub trait GroupedTestFormatter<'t, Extra: 't, GroupKey: 't, GroupCtx: 't>: TestFormatter<'t, Extra> {
    /// What a call of `fmt_grouped_run_start` does: the formatter, in this state, handed
    /// `data`, answers `r` and is left in the state `after`.
    open spec fn handled_grouped_run_start(&self, data: FmtGroupedRunStart, r: Result<(), Self::Error>, after: Self) -> bool {
        true
    }

    /// What a call of `fmt_grouped_run_outcomes` does: the formatter, in this state, handed these group
    /// outcomes and this duration, answers `r` and is left in the state `after`.
    open spec fn handled_grouped_run_outcomes(
        &self,
        outcomes: Seq<(GroupKey, TestOutcomes<'t>, Option<GroupCtx>)>,
        duration: std::time::Duration,
        r: Result<(), Self::Error>,
        after: Self,
    ) -> bool {
        true
    }

    /// Called after filtering, when the grouped run is about to start.
    fn fmt_grouped_run_start(&mut self, data: FmtGroupedRunStart) -> (r: Result<(), Self::Error>)
        ensures
            old(self).handled_grouped_run_start(data, r, *final(self)),
    ;

    /// Called when a group is about to start executing.
    fn fmt_group_start<'g>(&mut self, data: FmtGroupStart<'g, GroupKey, GroupCtx>) -> (r: Result<(), Self::Error>)
        default_ensures
            r is Ok,
    {
        Ok(())
    }

    /// Called at the end of a group with that group's outcomes.
    fn fmt_group_outcomes<'g, 'o>(&mut self, data: FmtGroupOutcomes<'t, 'g, 'o, GroupKey, GroupCtx>) -> (r: Result<(), Self::Error>)
        default_ensures
            r is Ok,
    {
        Ok(())
    }

    /// Called at the end of the grouped run with all group outcomes.
    fn fmt_grouped_run_outcomes<'o>(&mut self, data: FmtGroupedRunOutcomes<'t, 'o, GroupKey, GroupCtx>) -> (r: Result<(), Self::Error>)
        ensures
            old(self).handled_grouped_run_outcomes(data.outcomes@, data.duration, r, *final(self)),
    ;
}

/// A formatter for listing tests without executing them.
pub trait TestListFormatter<'t, Extra: 't>: Sized {
    /// Formatter specific error type.
    type Error;

    /// What a call of `fmt_init_listing` does: the formatter, in this state, handed the tests
    /// with this metadata, answers `r` and is left in the state `after`. The library's
    /// formatters define it by what they write; a formatter that does not define it says
    /// nothing of its calls.
    open spec fn handled_init_listing(&self, tests: Seq<TestMeta<Extra>>, r: Result<(), Self::Error>, after: Self) -> bool {
        true
    }

    /// What a call of `fmt_begin_listing` does: the formatter, in this state, handed `data`,
    /// answers `r` and is left in the state `after`.
    open spec fn handled_begin_listing(&self, data: FmtBeginListing, r: Result<(), Self::Error>, after: Self) -> bool {
        true
    }

    /// What a call of `fmt_list_test` does: the formatter, in this state, handed this test and ignore
    /// decision, answers `r` and is left in the state `after`.
    open spec fn handled_list_test(&self, meta: TestMeta<Extra>, ignored: IgnoreStatus, r: Result<(), Self::Error>, after: Self) -> bool {
        true
    }

    /// What a call of `fmt_end_listing` does: the formatter, in this state, handed `data`,
    /// answers `r` and is left in the state `after`.
    open spec fn handled_end_listing(&self, data: FmtEndListing, r: Result<(), Self::Error>, after: Self) -> bool {
        true
    }

    /// Called before anything happens, even before filtering.
    fn fmt_init_listing<Function>(&mut self, data: FmtInitListing<'t, Extra, Function>) -> (r: Result<(), Self::Error>)
        ensures
            old(self).handled_init_listing(metas_of(data.tests@), r, *final(self)),
    ;

    /// Called after filtering, when listing is about to start.
    fn fmt_begin_listing(&mut self, data: FmtBeginListing) -> (r: Result<(), Self::Error>)
        ensures
            old(self).handled_begin_listing(data, r, *final(self)),
    ;

    /// Called for each listed test.
    fn fmt_list_test(&mut self, data: FmtListTest<'t, Extra>) -> (r: Result<(), Self::Error>)
        ensures
            old(self).handled_list_test(*data.meta, data.ignored, r, *final(self)),
    ;

    /// Called at the end of listing.
    fn fmt_end_listing(&mut self, data: FmtEndListing) -> (r: Result<(), Self::Error>)
        ensures
            old(self).handled_end_listing(data, r, *final(self)),
    ;
}

/// A formatter for listing grouped tests: the listing events plus group level events.
pub trait GroupedTestListFormatter<'t, Extra: 't, GroupKey: 't, GroupCtx: 't>: TestListFormatter<'t, Extra> {
    /// What a call of `fmt_list_groups` does: the formatter, in this state, handed `data`,
    /// answers `r` and is left in the state `after`.
    open spec fn handled_list_groups(&self, data: FmtListGroups, r: Result<(), Self::Error>, after: Self) -> bool {
        true
    }

    /// What a call of `fmt_list_group_start` does: the formatter, in this state, handed this number of
    /// tests, key and context, answers `r` and is left in the state `after`.
    open spec fn handled_list_group_start(&self, tests: usize, key: GroupKey, ctx: Option<GroupCtx>, r: Result<(), Self::Error>, after: Self) -> bool {
        true
    }

    /// What a call of `fmt_list_group_end` does: the formatter, in this state, handed this number of
    /// tests, key and context, answers `r` and is left in the state `after`.
    open spec fn handled_list_group_end(&self, tests: usize, key: GroupKey, ctx: Option<GroupCtx>, r: Result<(), Self::Error>, after: Self) -> bool {
        true
    }

    /// Called once the number of groups is known.
    fn fmt_list_groups(&mut self, data: FmtListGroups) -> (r: Result<(), Self::Error>)
        ensures
            old(self).handled_list_groups(data, r, *final(self)),
    ;

    /// Called at the beginning of each group.
    fn fmt_list_group_start<'g>(&mut self, data: FmtListGroupStart<'g, GroupKey, GroupCtx>) -> (r: Result<(), Self::Error>)
        ensures
            old(self).handled_list_group_start(data.tests, *data.key, owned_opt(data.ctx), r, *final(self)),
    ;

    /// Called at the end of each group.
    fn fmt_list_group_end<'g>(&mut self, data: FmtListGroupEnd<'g, GroupKey, GroupCtx>) -> (r: Result<(), Self::Error>)
        ensures
            old(self).handled_list_group_end(data.tests, *data.key, owned_opt(data.ctx), r, *final(self)),
    ;
}

/// The formatting stage at which a formatter reported an error.
#[derive(Debug, PartialEq, Eq, Hash, Clone, Copy, Structural)]
#[non_exhaustive]
pub enum FormatError {
    RunInit,
    RunStart,
    TestIgnored,
    TestStart,
    TestOutcome,
    RunOutcomes,
    GroupedRunStart,
    GroupStart,
    GroupOutcomes,
    GroupedRunOutcomes,
    InitListing,
    BeginListing,
    ListTest,
    EndListing,
    ListGroups,
    ListGroupStart,
    ListGroupEnd,
}

} // verus!
