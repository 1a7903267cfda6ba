//! A formatter that produces no output.

use vstd::prelude::*;

use crate::formatter::{
    FmtBeginListing, FmtEndListing, FmtGroupedRunOutcomes, FmtGroupedRunStart, FmtInitListing,
    FmtListGroupEnd, FmtListGroupStart, FmtListGroups, FmtListTest, FmtRunInit, FmtRunOutcomes,
    FmtRunStart, GroupedTestFormatter, GroupedTestListFormatter, TestFormatter, TestListFormatter,
    TestOutcomes,
};
use crate::outcome::TestOutcome;
use crate::test::{IgnoreStatus, TestMeta};

verus! {

/// A formatter that discards every event: each call succeeds and changes nothing.
#[derive(Debug, Default, Clone)]
pub struct NoFormatter;

impl<'t, Extra: 't> TestFormatter<'t, Extra> for NoFormatter {
    type Error = ();

    open spec fn handled_run_init(&self, tests: Seq<TestMeta<Extra>>, r: Result<(), ()>, after: Self) -> bool {
        r is Ok && after == *self
    }

    open spec fn handled_run_start(&self, data: FmtRunStart, r: Result<(), ()>, after: Self) -> bool {
        r is Ok && after == *self
    }

    open spec fn handled_run_outcomes(&self, outcomes: Seq<(&'t str, TestOutcome)>, filtered_out: usize, duration: std::time::Duration, r: Result<(), ()>, after: Self) -> bool {
        r is Ok && after == *self
    }

    fn fmt_run_init<Function>(&mut self, data: FmtRunInit<'t, Extra, Function>) -> (r: Result<(), ()>) {
        Ok(())
    }

    fn fmt_run_start(&mut self, data: FmtRunStart) -> (r: Result<(), ()>) {
        Ok(())
    }

    fn fmt_run_outcomes<'o>(&mut self, data: FmtRunOutcomes<'t, 'o>) -> (r: Result<(), ()>) {
        Ok(())
    }
}

impl<'t, Extra: 't, GroupKey: 't, GroupCtx: 't> GroupedTestFormatter<'t, Extra, GroupKey, GroupCtx> for NoFormatter {
    open spec fn handled_grouped_run_start(&self, data: FmtGroupedRunStart, r: Result<(), ()>, after: Self) -> bool {
        r is Ok && after == *self
    }

    open spec fn handled_grouped_run_outcomes(&self, outcomes: Seq<(GroupKey, TestOutcomes<'t>, Option<GroupCtx>)>, duration: std::time::Duration, r: Result<(), ()>, after: Self) -> bool {
        r is Ok && after == *self
    }

    fn fmt_grouped_run_start(&mut self, data: FmtGroupedRunStart) -> (r: Result<(), ()>) {
        Ok(())
    }

    fn fmt_grouped_run_outcomes<'o>(&mut self, data: FmtGroupedRunOutcomes<'t, 'o, GroupKey, GroupCtx>) -> (r: Result<(), ()>) {
        Ok(())
    }
}

impl<'t, Extra: 't> TestListFormatter<'t, Extra> for NoFormatter {
    type Error = ();

    open spec fn handled_init_listing(&self, tests: Seq<TestMeta<Extra>>, r: Result<(), ()>, after: Self) -> bool {
        r is Ok && after == *self
    }

    open spec fn handled_begin_listing(&self, data: FmtBeginListing, r: Result<(), ()>, after: Self) -> bool {
        r is Ok && after == *self
    }

    open spec fn handled_list_test(&self, meta: TestMeta<Extra>, ignored: IgnoreStatus, r: Result<(), ()>, after: Self) -> bool {
        r is Ok && after == *self
    }

    open spec fn handled_end_listing(&self, data: FmtEndListing, r: Result<(), ()>, after: Self) -> bool {
        r is Ok && after == *self
    }

    fn fmt_init_listing<Function>(&mut self, data: FmtInitListing<'t, Extra, Function>) -> (r: Result<(), ()>) {
        Ok(())
    }

    fn fmt_begin_listing(&mut self, data: FmtBeginListing) -> (r: Result<(), ()>) {
        Ok(())
    }

    fn fmt_list_test(&mut self, data: FmtListTest<'t, Extra>) -> (r: Result<(), ()>) {
        Ok(())
    }

    fn fmt_end_listing(&mut self, data: FmtEndListing) -> (r: Result<(), ()>) {
        Ok(())
    }
}

impl<'t, Extra: 't, GroupKey: 't, GroupCtx: 't> GroupedTestListFormatter<'t, Extra, GroupKey, GroupCtx> for NoFormatter {
    open spec fn handled_list_groups(&self, data: FmtListGroups, r: Result<(), ()>, after: Self) -> bool {
        r is Ok && after == *self
    }

    open spec fn handled_list_group_start(&self, tests: usize, key: GroupKey, ctx: Option<GroupCtx>, r: Result<(), ()>, after: Self) -> bool {
        r is Ok && after == *self
    }

    open spec fn handled_list_group_end(&self, tests: usize, key: GroupKey, ctx: Option<GroupCtx>, r: Result<(), ()>, after: Self) -> bool {
        r is Ok && after == *self
    }

    fn fmt_list_groups(&mut self, data: FmtListGroups) -> (r: Result<(), ()>) {
        Ok(())
    }

    fn fmt_list_group_start<'g>(&mut self, data: FmtListGroupStart<'g, GroupKey, GroupCtx>) -> (r: Result<(), ()>) {
        Ok(())
    }

    fn fmt_list_group_end<'g>(&mut self, data: FmtListGroupEnd<'g, GroupKey, GroupCtx>) -> (r: Result<(), ()>) {
        Ok(())
    }
}

} // verus!
