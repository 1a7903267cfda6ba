//! Owned snapshots of formatter events, as a debugging formatter prints them with `{:?}`.
//!
//! Each `Debug*` type holds what its event holds; borrowed names become owned strings and
//! group keys and contexts become their `{:?}` rendering.

use vstd::prelude::*;
use vstd::std_specs::convert::FromSpecImpl;

use crate::capture::OutputCapture;
use crate::formatter::{
    FmtBeginListing, FmtEndListing, FmtGroupOutcomes, FmtGroupStart, FmtGroupedRunOutcomes,
    FmtGroupedRunStart, FmtInitListing, FmtListGroupEnd, FmtListGroupStart, FmtListGroups,
    FmtListTest, FmtRunInit, FmtRunOutcomes, FmtRunStart, FmtTestIgnored, FmtTestOutcome,
    FmtTestStart, GroupedTestOutcomes, TestOutcomes,
};
use crate::outcome::{clone_status, TestStatus};
use crate::test::{IgnoreStatus, Test, TestMeta};

verus! {

/// The `{:?}` rendering of a value (`format!("{:?}")`). Nothing is stated of the text: it
/// depends on the `Debug` impl of the value's type.
#[verifier::external_body]
pub(crate) fn debug_text<T: std::fmt::Debug>(value: &T) -> String {
    format!("{:?}", value)
}

/// An outcome as the debugging formatter shows it.
#[derive(Debug)]
#[non_exhaustive]
pub struct TestOutcome {
    pub status: TestStatus,
    pub duration: std::time::Duration,
    pub output: OutputCapture,
}

impl<'a> From<&'a crate::outcome::TestOutcome> for TestOutcome {
    /// The status, duration and output of an outcome.
    fn from(value: &'a crate::outcome::TestOutcome) -> (r: Self)
        ensures
            r.status == value.status,
            r.duration == value.duration,
            r.output.chunks() == value.output.chunks(),
    {
        TestOutcome {
            status: clone_status(&value.status),
            duration: value.duration,
            output: value.output.clone(),
        }
    }
}

impl<'a> FromSpecImpl<&'a crate::outcome::TestOutcome> for TestOutcome {
    open spec fn obeys_from_spec() -> bool {
        false
    }

    open spec fn from_spec(v: &'a crate::outcome::TestOutcome) -> Self {
        arbitrary()
    }
}

/// Each outcome `o` of `snapshot` shows the outcome at the same place of `outcomes`.
pub open spec fn shows_outcomes<'t>(snapshot: Seq<(String, TestOutcome)>, outcomes: Seq<(&'t str, crate::outcome::TestOutcome)>) -> bool {
    &&& snapshot.len() == outcomes.len()
    &&& forall|i: int| 0 <= i < outcomes.len() ==> {
        let s = #[trigger] snapshot[i];
        &&& s.0@ == outcomes[i].0@
        &&& s.1.status == outcomes[i].1.status
        &&& s.1.duration == outcomes[i].1.duration
        &&& s.1.output.chunks() == outcomes[i].1.output.chunks()
    }
}

/// Owned snapshots of the outcomes of a run.
pub fn snapshot_outcomes<'t>(outcomes: &TestOutcomes<'t>) -> (r: Vec<(String, TestOutcome)>)
    ensures
        shows_outcomes(r@, outcomes@),
{
    let mut r: Vec<(String, TestOutcome)> = Vec::new();
    let mut i: usize = 0;
    while i < outcomes.len()
        invariant
            i <= outcomes@.len(),
            r@.len() == i,
            forall|k: int| 0 <= k < i ==> {
                let s = #[trigger] r@[k];
                &&& s.0@ == outcomes@[k].0@
                &&& s.1.status == outcomes@[k].1.status
                &&& s.1.duration == outcomes@[k].1.duration
                &&& s.1.output.chunks() == outcomes@[k].1.output.chunks()
            },
        decreases outcomes.len() - i,
    {
        let (name, outcome) = &outcomes[i];
        let name_text = (*name).to_owned();
        r.push((name_text, TestOutcome::from(outcome)));
        i += 1;
    }
    r
}

/// The `{:?}` rendering of an optional context.
fn debug_option<T: std::fmt::Debug>(ctx: Option<&T>) -> (r: Option<String>)
    ensures
        r is Some <==> ctx is Some,
{
    match ctx {
        Some(c) => Some(debug_text(c)),
        None => None,
    }
}

/// The full test list before a run.
#[derive(Debug)]
#[non_exhaustive]
pub struct DebugRunInit<'t, Extra, Function> {
    pub tests: &'t [Test<Extra, Function>],
}

impl<'t, Extra, Function> From<FmtRunInit<'t, Extra, Function>> for DebugRunInit<'t, Extra, Function> {
    fn from(value: FmtRunInit<'t, Extra, Function>) -> (r: Self)
        ensures
            r.tests == value.tests,
    {
        DebugRunInit { tests: value.tests }
    }
}

impl<'t, Extra, Function> FromSpecImpl<FmtRunInit<'t, Extra, Function>> for DebugRunInit<'t, Extra, Function> {
    open spec fn obeys_from_spec() -> bool {
        true
    }

    open spec fn from_spec(v: FmtRunInit<'t, Extra, Function>) -> Self {
        DebugRunInit { tests: v.tests }
    }
}

/// The counts at the start of a run.
#[derive(Debug)]
#[non_exhaustive]
pub struct DebugRunStart {
    pub active: usize,
    pub filtered: usize,
}

impl From<FmtRunStart> for DebugRunStart {
    fn from(value: FmtRunStart) -> (r: Self)
        ensures
            r.active == value.active,
            r.filtered == value.filtered,
    {
        DebugRunStart { active: value.active, filtered: value.filtered }
    }
}

impl FromSpecImpl<FmtRunStart> for DebugRunStart {
    open spec fn obeys_from_spec() -> bool {
        true
    }

    open spec fn from_spec(v: FmtRunStart) -> Self {
        DebugRunStart { active: v.active, filtered: v.filtered }
    }
}

/// An ignored test and the reason, if any.
#[derive(Debug)]
#[non_exhaustive]
pub struct DebugTestIgnored<'t, Extra> {
    pub meta: &'t TestMeta<Extra>,
    pub reason: Option<String>,
}

impl<'t, 'r, Extra> From<FmtTestIgnored<'t, 'r, Extra>> for DebugTestIgnored<'t, Extra> {
    fn from(value: FmtTestIgnored<'t, 'r, Extra>) -> (r: Self)
        ensures
            r.meta == value.meta,
            r.reason is Some <==> value.reason is Some,
            value.reason is Some ==> r.reason->0@ == value.reason->0@,
    {
        let reason = match value.reason {
            Some(s) => Some(s.clone()),
            None => None,
        };
        DebugTestIgnored { meta: value.meta, reason }
    }
}

impl<'t, 'r, Extra> FromSpecImpl<FmtTestIgnored<'t, 'r, Extra>> for DebugTestIgnored<'t, Extra> {
    open spec fn obeys_from_spec() -> bool {
        false
    }

    open spec fn from_spec(v: FmtTestIgnored<'t, 'r, Extra>) -> Self {
        arbitrary()
    }
}

/// A test about to start.
#[derive(Debug)]
#[non_exhaustive]
pub struct DebugTestStart<'t, Extra> {
    pub meta: &'t TestMeta<Extra>,
}

impl<'t, Extra> From<FmtTestStart<'t, Extra>> for DebugTestStart<'t, Extra> {
    fn from(value: FmtTestStart<'t, Extra>) -> (r: Self)
        ensures
            r.meta == value.meta,
    {
        DebugTestStart { meta: value.meta }
    }
}

impl<'t, Extra> FromSpecImpl<FmtTestStart<'t, Extra>> for DebugTestStart<'t, Extra> {
    open spec fn obeys_from_spec() -> bool {
        true
    }

    open spec fn from_spec(v: FmtTestStart<'t, Extra>) -> Self {
        DebugTestStart { meta: v.meta }
    }
}

/// A finished test and its outcome.
#[derive(Debug)]
#[non_exhaustive]
pub struct DebugTestOutcome<'t, Extra> {
    pub meta: &'t TestMeta<Extra>,
    pub outcome: TestOutcome,
}

impl<'t, 'o, Extra> From<FmtTestOutcome<'t, 'o, Extra>> for DebugTestOutcome<'t, Extra> {
    fn from(value: FmtTestOutcome<'t, 'o, Extra>) -> (r: Self)
        ensures
            r.meta == value.meta,
            r.outcome.status == value.outcome.status,
            r.outcome.duration == value.outcome.duration,
            r.outcome.output.chunks() == value.outcome.output.chunks(),
    {
        DebugTestOutcome { meta: value.meta, outcome: TestOutcome::from(value.outcome) }
    }
}

impl<'t, 'o, Extra> FromSpecImpl<FmtTestOutcome<'t, 'o, Extra>> for DebugTestOutcome<'t, Extra> {
    open spec fn obeys_from_spec() -> bool {
        false
    }

    open spec fn from_spec(v: FmtTestOutcome<'t, 'o, Extra>) -> Self {
        arbitrary()
    }
}

/// All outcomes of a run.
#[derive(Debug)]
#[non_exhaustive]
pub struct DebugRunOutcomes {
    pub outcomes: Vec<(String, TestOutcome)>,
    pub filtered_out: usize,
    pub duration: std::time::Duration,
}

impl<'t, 'o> From<FmtRunOutcomes<'t, 'o>> for DebugRunOutcomes {
    fn from(value: FmtRunOutcomes<'t, 'o>) -> (r: Self)
        ensures
            shows_outcomes(r.outcomes@, value.outcomes@),
            r.filtered_out == value.filtered_out,
            r.duration == value.duration,
    {
        DebugRunOutcomes {
            outcomes: snapshot_outcomes(value.outcomes),
            filtered_out: value.filtered_out,
            duration: value.duration,
        }
    }
}

impl<'t, 'o> FromSpecImpl<FmtRunOutcomes<'t, 'o>> for DebugRunOutcomes {
    open spec fn obeys_from_spec() -> bool {
        false
    }

    open spec fn from_spec(v: FmtRunOutcomes<'t, 'o>) -> Self {
        arbitrary()
    }
}

/// The counts at the start of a grouped run.
#[derive(Debug)]
#[non_exhaustive]
pub struct DebugGroupedRunStart {
    pub tests: usize,
    pub filtered: usize,
}

impl From<FmtGroupedRunStart> for DebugGroupedRunStart {
    fn from(value: FmtGroupedRunStart) -> (r: Self)
        ensures
            r.tests == value.tests,
            r.filtered == value.filtered,
    {
        DebugGroupedRunStart { tests: value.tests, filtered: value.filtered }
    }
}

impl FromSpecImpl<FmtGroupedRunStart> for DebugGroupedRunStart {
    open spec fn obeys_from_spec() -> bool {
        true
    }

    open spec fn from_spec(v: FmtGroupedRunStart) -> Self {
        DebugGroupedRunStart { tests: v.tests, filtered: v.filtered }
    }
}

/// A group about to start, with its key and context rendered.
#[derive(Debug)]
#[non_exhaustive]
pub struct DebugGroupStart {
    pub tests: usize,
    pub worker_count: usize,
    pub key: String,
    pub ctx: Option<String>,
}

impl<'g, GroupKey: std::fmt::Debug, GroupCtx: std::fmt::Debug> From<FmtGroupStart<'g, GroupKey, GroupCtx>> for DebugGroupStart {
    fn from(value: FmtGroupStart<'g, GroupKey, GroupCtx>) -> (r: Self)
        ensures
            r.tests == value.tests,
            r.worker_count == value.worker_count,
            r.ctx is Some <==> value.ctx is Some,
    {
        DebugGroupStart {
            tests: value.tests,
            worker_count: value.worker_count,
            key: debug_text(value.key),
            ctx: debug_option(value.ctx),
        }
    }
}

impl<'g, GroupKey: std::fmt::Debug, GroupCtx: std::fmt::Debug> FromSpecImpl<FmtGroupStart<'g, GroupKey, GroupCtx>> for DebugGroupStart {
    open spec fn obeys_from_spec() -> bool {
        false
    }

    open spec fn from_spec(v: FmtGroupStart<'g, GroupKey, GroupCtx>) -> Self {
        arbitrary()
    }
}

/// The outcomes of a finished group, with its key and context rendered.
#[derive(Debug)]
#[non_exhaustive]
pub struct DebugGroupOutcomes {
    pub outcomes: Vec<(String, TestOutcome)>,
    pub duration: std::time::Duration,
    pub key: String,
    pub ctx: Option<String>,
}

impl<'t, 'g, 'o, GroupKey: std::fmt::Debug, GroupCtx: std::fmt::Debug> From<FmtGroupOutcomes<'t, 'g, 'o, GroupKey, GroupCtx>> for DebugGroupOutcomes {
    fn from(value: FmtGroupOutcomes<'t, 'g, 'o, GroupKey, GroupCtx>) -> (r: Self)
        ensures
            shows_outcomes(r.outcomes@, value.outcomes@),
            r.duration == value.duration,
            r.ctx is Some <==> value.ctx is Some,
    {
        DebugGroupOutcomes {
            outcomes: snapshot_outcomes(value.outcomes),
            duration: value.duration,
            key: debug_text(value.key),
            ctx: debug_option(value.ctx),
        }
    }
}

impl<'t, 'g, 'o, GroupKey: std::fmt::Debug, GroupCtx: std::fmt::Debug> FromSpecImpl<FmtGroupOutcomes<'t, 'g, 'o, GroupKey, GroupCtx>> for DebugGroupOutcomes {
    open spec fn obeys_from_spec() -> bool {
        false
    }

    open spec fn from_spec(v: FmtGroupOutcomes<'t, 'g, 'o, GroupKey, GroupCtx>) -> Self {
        arbitrary()
    }
}

/// All group outcomes of a grouped run, keys and contexts rendered.
#[derive(Debug)]
#[non_exhaustive]
pub struct DebugGroupedRunOutcomes {
    pub outcomes: Vec<(String, Vec<(String, TestOutcome)>, Option<String>)>,
    pub duration: std::time::Duration,
}

impl<'t, 'o, GroupKey: std::fmt::Debug, GroupCtx: std::fmt::Debug> From<FmtGroupedRunOutcomes<'t, 'o, GroupKey, GroupCtx>> for DebugGroupedRunOutcomes {
    fn from(value: FmtGroupedRunOutcomes<'t, 'o, GroupKey, GroupCtx>) -> (r: Self)
        ensures
            r.outcomes@.len() == value.outcomes@.len(),
            forall|i: int| 0 <= i < value.outcomes@.len() ==> {
                let g = #[trigger] r.outcomes@[i];
                &&& shows_outcomes(g.1@, value.outcomes@[i].1@)
                &&& (g.2 is Some <==> value.outcomes@[i].2 is Some)
            },
            r.duration == value.duration,
    {
        let groups: &GroupedTestOutcomes<'t, GroupKey, GroupCtx> = value.outcomes;
        let mut outcomes: Vec<(String, Vec<(String, TestOutcome)>, Option<String>)> = Vec::new();
        let mut i: usize = 0;
        while i < groups.len()
            invariant
                i <= groups@.len(),
                outcomes@.len() == i,
                forall|k: int| 0 <= k < i ==> {
                    let g = #[trigger] outcomes@[k];
                    &&& shows_outcomes(g.1@, groups@[k].1@)
                    &&& (g.2 is Some <==> groups@[k].2 is Some)
                },
            decreases groups.len() - i,
        {
            let (key, tests, ctx) = &groups[i];
            let ctx_text = match ctx {
                Some(c) => Some(debug_text(c)),
                None => None,
            };
            outcomes.push((debug_text(key), snapshot_outcomes(tests), ctx_text));
            i += 1;
        }
        DebugGroupedRunOutcomes { outcomes, duration: value.duration }
    }
}

impl<'t, 'o, GroupKey: std::fmt::Debug, GroupCtx: std::fmt::Debug> FromSpecImpl<FmtGroupedRunOutcomes<'t, 'o, GroupKey, GroupCtx>> for DebugGroupedRunOutcomes {
    open spec fn obeys_from_spec() -> bool {
        false
    }

    open spec fn from_spec(v: FmtGroupedRunOutcomes<'t, 'o, GroupKey, GroupCtx>) -> Self {
        arbitrary()
    }
}

/// The full test list before listing.
#[derive(Debug)]
#[non_exhaustive]
pub struct DebugInitListing<'t, Extra, Function> {
    pub tests: &'t [Test<Extra, Function>],
}

impl<'t, Extra, Function> From<FmtInitListing<'t, Extra, Function>> for DebugInitListing<'t, Extra, Function> {
    fn from(value: FmtInitListing<'t, Extra, Function>) -> (r: Self)
        ensures
            r.tests == value.tests,
    {
        DebugInitListing { tests: value.tests }
    }
}

impl<'t, Extra, Function> FromSpecImpl<FmtInitListing<'t, Extra, Function>> for DebugInitListing<'t, Extra, Function> {
    open spec fn obeys_from_spec() -> bool {
        true
    }

    open spec fn from_spec(v: FmtInitListing<'t, Extra, Function>) -> Self {
        DebugInitListing { tests: v.tests }
    }
}

/// The counts at the start of listing.
#[derive(Debug)]
#[non_exhaustive]
pub struct DebugBeginListing {
    pub tests: usize,
    pub filtered: usize,
}

impl From<FmtBeginListing> for DebugBeginListing {
    fn from(value: FmtBeginListing) -> (r: Self)
        ensures
            r.tests == value.tests,
            r.filtered == value.filtered,
    {
        DebugBeginListing { tests: value.tests, filtered: value.filtered }
    }
}

impl FromSpecImpl<FmtBeginListing> for DebugBeginListing {
    open spec fn obeys_from_spec() -> bool {
        true
    }

    open spec fn from_spec(v: FmtBeginListing) -> Self {
        DebugBeginListing { tests: v.tests, filtered: v.filtered }
    }
}

/// A listed test and its ignore decision.
#[derive(Debug)]
#[non_exhaustive]
pub struct DebugListTest<'t, Extra> {
    pub meta: &'t TestMeta<Extra>,
    pub ignored: IgnoreStatus,
}

impl<'t, Extra> From<FmtListTest<'t, Extra>> for DebugListTest<'t, Extra> {
    fn from(value: FmtListTest<'t, Extra>) -> (r: Self)
        ensures
            r.meta == value.meta,
            r.ignored == value.ignored,
    {
        DebugListTest { meta: value.meta, ignored: value.ignored }
    }
}

impl<'t, Extra> FromSpecImpl<FmtListTest<'t, Extra>> for DebugListTest<'t, Extra> {
    open spec fn obeys_from_spec() -> bool {
        true
    }

    open spec fn from_spec(v: FmtListTest<'t, Extra>) -> Self {
        DebugListTest { meta: v.meta, ignored: v.ignored }
    }
}

/// The counts at the end of listing.
#[derive(Debug)]
#[non_exhaustive]
pub struct DebugEndListing {
    pub active: usize,
    pub ignored: usize,
}

impl From<FmtEndListing> for DebugEndListing {
    fn from(value: FmtEndListing) -> (r: Self)
        ensures
            r.active == value.active,
            r.ignored == value.ignored,
    {
        DebugEndListing { active: value.active, ignored: value.ignored }
    }
}

impl FromSpecImpl<FmtEndListing> for DebugEndListing {
    open spec fn obeys_from_spec() -> bool {
        true
    }

    open spec fn from_spec(v: FmtEndListing) -> Self {
        DebugEndListing { active: v.active, ignored: v.ignored }
    }
}

/// The number of groups in a grouped listing.
#[derive(Debug)]
#[non_exhaustive]
pub struct DebugListGroups {
    pub groups: usize,
}

impl From<FmtListGroups> for DebugListGroups {
    fn from(value: FmtListGroups) -> (r: Self)
        ensures
            r.groups == value.groups,
    {
        DebugListGroups { groups: value.groups }
    }
}

impl FromSpecImpl<FmtListGroups> for DebugListGroups {
    open spec fn obeys_from_spec() -> bool {
        true
    }

    open spec fn from_spec(v: FmtListGroups) -> Self {
        DebugListGroups { groups: v.groups }
    }
}

/// The start of a listed group, key and context rendered.
#[derive(Debug)]
#[non_exhaustive]
pub struct DebugListGroupStart {
    pub tests: usize,
    pub key: String,
    pub ctx: Option<String>,
}

impl<'g, GroupKey: std::fmt::Debug, GroupCtx: std::fmt::Debug> From<FmtListGroupStart<'g, GroupKey, GroupCtx>> for DebugListGroupStart {
    fn from(value: FmtListGroupStart<'g, GroupKey, GroupCtx>) -> (r: Self)
        ensures
            r.tests == value.tests,
            r.ctx is Some <==> value.ctx is Some,
    {
        DebugListGroupStart { tests: value.tests, key: debug_text(value.key), ctx: debug_option(value.ctx) }
    }
}

impl<'g, GroupKey: std::fmt::Debug, GroupCtx: std::fmt::Debug> FromSpecImpl<FmtListGroupStart<'g, GroupKey, GroupCtx>> for DebugListGroupStart {
    open spec fn obeys_from_spec() -> bool {
        false
    }

    open spec fn from_spec(v: FmtListGroupStart<'g, GroupKey, GroupCtx>) -> Self {
        arbitrary()
    }
}

/// The end of a listed group, key and context rendered.
#[derive(Debug)]
#[non_exhaustive]
pub struct DebugListGroupEnd {
    pub tests: usize,
    pub key: String,
    pub ctx: Option<String>,
}

impl<'g, GroupKey: std::fmt::Debug, GroupCtx: std::fmt::Debug> From<FmtListGroupEnd<'g, GroupKey, GroupCtx>> for DebugListGroupEnd {
    fn from(value: FmtListGroupEnd<'g, GroupKey, GroupCtx>) -> (r: Self)
        ensures
            r.tests == value.tests,
            r.ctx is Some <==> value.ctx is Some,
    {
        DebugListGroupEnd { tests: value.tests, key: debug_text(value.key), ctx: debug_option(value.ctx) }
    }
}

impl<'g, GroupKey: std::fmt::Debug, GroupCtx: std::fmt::Debug> FromSpecImpl<FmtListGroupEnd<'g, GroupKey, GroupCtx>> for DebugListGroupEnd {
    open spec fn obeys_from_spec() -> bool {
        false
    }

    open spec fn from_spec(v: FmtListGroupEnd<'g, GroupKey, GroupCtx>) -> Self {
        arbitrary()
    }
}

} // verus!
