//! Format transfer objects shared by the formatters: what a formatter keeps of an event.

use vstd::prelude::*;
use vstd::std_specs::convert::FromSpecImpl;

use crate::capture::{OutputCapture, OutputTarget};
use crate::formatter::common::label::GroupLabeler;
use crate::formatter::{
    FmtEndListing, GroupedTestOutcomes, FmtGroupStart, FmtGroupedRunOutcomes, FmtGroupedRunStart, FmtListTest,
    FmtRunInit, FmtRunOutcomes, FmtRunStart, TestOutcomes,
};
use crate::outcome::{clone_failure, TestFailure, TestOutcome, TestStatus};
use crate::test::Test;

verus! {

/// The full test list of a run.
#[derive(Debug, Clone, Copy)]
pub struct Tests<'t, Extra, Function>(pub &'t [Test<Extra, Function>]);

impl<'t, Extra, Function> From<FmtRunInit<'t, Extra, Function>> for Tests<'t, Extra, Function> {
    fn from(value: FmtRunInit<'t, Extra, Function>) -> (r: Self) {
        Tests(value.tests)
    }
}

impl<'t, Extra, Function> FromSpecImpl<FmtRunInit<'t, Extra, Function>> for Tests<'t, Extra, Function> {
    open spec fn obeys_from_spec() -> bool {
        true
    }

    open spec fn from_spec(v: FmtRunInit<'t, Extra, Function>) -> Self {
        Tests(v.tests)
    }
}

/// A number of tests.
#[derive(Debug, Clone, Copy, PartialEq, Eq, PartialOrd, Ord, Structural)]
pub struct TestCount(pub usize);

impl From<FmtRunStart> for TestCount {
    /// The tests taking part in the run.
    fn from(value: FmtRunStart) -> (r: Self) {
        TestCount(value.active)
    }
}

impl FromSpecImpl<FmtRunStart> for TestCount {
    open spec fn obeys_from_spec() -> bool {
        true
    }

    open spec fn from_spec(v: FmtRunStart) -> Self {
        TestCount(v.active)
    }
}

impl From<FmtEndListing> for TestCount {
    /// The tests listed, active and ignored together (wrapping on overflow).
    fn from(value: FmtEndListing) -> (r: Self) {
        TestCount(value.active.wrapping_add(value.ignored))
    }
}

impl FromSpecImpl<FmtEndListing> for TestCount {
    open spec fn obeys_from_spec() -> bool {
        true
    }

    open spec fn from_spec(v: FmtEndListing) -> Self {
        TestCount(v.active.wrapping_add(v.ignored))
    }
}

impl From<FmtGroupedRunStart> for TestCount {
    /// The tests taking part in the grouped run.
    fn from(value: FmtGroupedRunStart) -> (r: Self) {
        TestCount(value.tests)
    }
}

impl FromSpecImpl<FmtGroupedRunStart> for TestCount {
    open spec fn obeys_from_spec() -> bool {
        true
    }

    open spec fn from_spec(v: FmtGroupedRunStart) -> Self {
        TestCount(v.tests)
    }
}

/// The name of a test.
#[derive(Debug, Clone, Copy, PartialEq, Eq, PartialOrd, Ord)]
pub struct TestName<'t>(pub &'t str);

impl<'t, Extra> From<FmtListTest<'t, Extra>> for TestName<'t> {
    fn from(value: FmtListTest<'t, Extra>) -> (r: Self)
        ensures
            r.0@ == value.meta.name@,
    {
        TestName(value.meta.name.as_str())
    }
}

impl<'t, Extra> FromSpecImpl<FmtListTest<'t, Extra>> for TestName<'t> {
    open spec fn obeys_from_spec() -> bool {
        false
    }

    open spec fn from_spec(v: FmtListTest<'t, Extra>) -> Self {
        arbitrary()
    }
}

/// One failed test: its group label (if any), its name, why it failed and its output.
#[derive(Debug, Clone)]
#[non_exhaustive]
pub struct Failure<'t> {
    pub group: Option<String>,
    pub name: &'t str,
    pub failure: TestFailure,
    pub output: OutputCapture,
}

/// Summary counts and failures of a run.
#[derive(Debug, Clone)]
#[non_exhaustive]
pub struct RunOutcomes<'t> {
    pub passed: usize,
    pub failed: usize,
    pub ignored: usize,
    pub filtered_out: usize,
    pub duration: std::time::Duration,
    pub failures: Vec<Failure<'t>>,
}

/// The number of outcomes whose status satisfies `p`.
pub open spec fn count_where<'t>(outcomes: Seq<(&'t str, TestOutcome)>, p: spec_fn(TestStatus) -> bool) -> nat
    decreases outcomes.len(),
{
    if outcomes.len() == 0 {
        0
    } else {
        count_where(outcomes.drop_last(), p) + if p(outcomes.last().1.status) {
            1nat
        } else {
            0nat
        }
    }
}

/// What a failure report holds of a failure: group label, name, failure and captured writes.
pub open spec fn failure_view<'t>(f: Failure<'t>) -> (Option<Seq<char>>, Seq<char>, TestFailure, Seq<(OutputTarget, Seq<u8>)>) {
    (
        match f.group {
            Some(g) => Some(g@),
            None => None,
        },
        f.name@,
        f.failure,
        f.output.chunks(),
    )
}

/// The failures among `outcomes`, in order, labelled with `group`.
pub open spec fn failures_of<'t>(outcomes: Seq<(&'t str, TestOutcome)>, group: Option<Seq<char>>) -> Seq<(Option<Seq<char>>, Seq<char>, TestFailure, Seq<(OutputTarget, Seq<u8>)>)>
    decreases outcomes.len(),
{
    if outcomes.len() == 0 {
        Seq::empty()
    } else {
        let rest = failures_of(outcomes.drop_last(), group);
        match outcomes.last().1.status {
            TestStatus::Failed(f) => rest.push((group, outcomes.last().0@, f, outcomes.last().1.output.chunks())),
            _ => rest,
        }
    }
}

/// Every failure collected from one group carries that group's label.
pub proof fn lemma_failures_of_group<'t>(outcomes: Seq<(&'t str, TestOutcome)>, group: Option<Seq<char>>, i: int)
    requires
        0 <= i < failures_of(outcomes, group).len(),
    ensures
        failures_of(outcomes, group)[i].0 == group,
    decreases outcomes.len(),
{
    if outcomes.len() > 0 {
        let rest = failures_of(outcomes.drop_last(), group);
        if i < rest.len() {
            lemma_failures_of_group(outcomes.drop_last(), group, i);
        }
    }
}

/// Selects passed statuses.
pub open spec fn passed_pred() -> spec_fn(TestStatus) -> bool {
    |s: TestStatus| s is Passed
}

/// Selects failed statuses.
pub open spec fn failed_pred() -> spec_fn(TestStatus) -> bool {
    |s: TestStatus| s is Failed
}

/// Selects ignored statuses.
pub open spec fn ignored_pred() -> spec_fn(TestStatus) -> bool {
    |s: TestStatus| s is Ignored
}

/// Count the outcomes of a run and collect its failures, in order.
pub fn summarize<'t>(outcomes: &TestOutcomes<'t>) -> (r: (usize, usize, usize, Vec<Failure<'t>>))
    ensures
        r.0 == count_where(outcomes@, passed_pred()),
        r.1 == count_where(outcomes@, failed_pred()),
        r.2 == count_where(outcomes@, ignored_pred()),
        r.3@.map_values(|f: Failure<'t>| failure_view(f)) == failures_of(outcomes@, None),
{
    let mut passed: usize = 0;
    let mut failed: usize = 0;
    let mut ignored: usize = 0;
    let mut failures: Vec<Failure<'t>> = Vec::new();
    let mut i: usize = 0;
    while i < outcomes.len()
        invariant
            i <= outcomes@.len(),
            passed == count_where(outcomes@.take(i as int), passed_pred()),
            failed == count_where(outcomes@.take(i as int), failed_pred()),
            ignored == count_where(outcomes@.take(i as int), ignored_pred()),
            passed <= i,
            failed <= i,
            ignored <= i,
            failures@.map_values(|f: Failure<'t>| failure_view(f)) == failures_of(outcomes@.take(i as int), None),
        decreases outcomes.len() - i,
    {
        let ghost before = failures@;
        let entry = &outcomes[i];
        let ghost prefix = outcomes@.take(i + 1);
        assert(prefix.drop_last() =~= outcomes@.take(i as int));
        assert(prefix.last() == outcomes@[i as int]);
        match &entry.1.status {
            TestStatus::Passed => {
                passed += 1;
            },
            TestStatus::Failed(f) => {
                failed += 1;
                let failure = Failure {
                    group: None,
                    name: entry.0,
                    failure: clone_failure(f),
                    output: entry.1.output.clone(),
                };
                failures.push(failure);
                assert(failures@.map_values(|f: Failure<'t>| failure_view(f)) =~= before.map_values(
                    |f: Failure<'t>| failure_view(f),
                ).push(failure_view(failure)));
            },
            TestStatus::Ignored { .. } => {
                ignored += 1;
            },
            _ => {},
        }
        i += 1;
    }
    assert(outcomes@.take(i as int) =~= outcomes@);
    (passed, failed, ignored, failures)
}

impl<'t, 'o> From<FmtRunOutcomes<'t, 'o>> for RunOutcomes<'t> {
    /// Counts of passed, failed and ignored tests, and the failures in run order.
    fn from(value: FmtRunOutcomes<'t, 'o>) -> (r: Self)
        ensures
            r.passed == count_where(value.outcomes@, passed_pred()),
            r.failed == count_where(value.outcomes@, failed_pred()),
            r.ignored == count_where(value.outcomes@, ignored_pred()),
            r.filtered_out == value.filtered_out,
            r.duration == value.duration,
            r.failures@.map_values(|f: Failure<'t>| failure_view(f)) == failures_of(value.outcomes@, None),
    {
        let (passed, failed, ignored, failures) = summarize(value.outcomes);
        RunOutcomes {
            passed,
            failed,
            ignored,
            filtered_out: value.filtered_out,
            duration: value.duration,
            failures,
        }
    }
}

impl<'t, 'o> FromSpecImpl<FmtRunOutcomes<'t, 'o>> for RunOutcomes<'t> {
    open spec fn obeys_from_spec() -> bool {
        false
    }

    open spec fn from_spec(v: FmtRunOutcomes<'t, 'o>) -> Self {
        arbitrary()
    }
}

/// The header of a group: its number of tests and its label.
#[derive(Debug, PartialEq, Eq)]
#[non_exhaustive]
pub struct GroupStart<L> {
    pub tests: usize,
    pub name: String,
    pub _label_marker: std::marker::PhantomData<L>,
}

impl<L> Clone for GroupStart<L> {
    fn clone(&self) -> (r: Self)
        ensures
            r.tests == self.tests,
            r.name == self.name,
    {
        GroupStart { tests: self.tests, name: self.name.clone(), _label_marker: std::marker::PhantomData }
    }
}

impl<'g, GroupKey, GroupCtx, L: GroupLabeler<GroupKey, GroupCtx>> From<FmtGroupStart<'g, GroupKey, GroupCtx>> for GroupStart<L> {
    /// The group's test count, labelled by `L`.
    fn from(value: FmtGroupStart<'g, GroupKey, GroupCtx>) -> (r: Self)
        ensures
            r.tests == value.tests,
            L::labels(value.key, value.ctx, r.name),
    {
        GroupStart {
            name: L::label_of(value.key, value.ctx),
            tests: value.tests,
            _label_marker: std::marker::PhantomData,
        }
    }
}

impl<'g, GroupKey, GroupCtx, L: GroupLabeler<GroupKey, GroupCtx>> FromSpecImpl<FmtGroupStart<'g, GroupKey, GroupCtx>> for GroupStart<L> {
    open spec fn obeys_from_spec() -> bool {
        false
    }

    open spec fn from_spec(v: FmtGroupStart<'g, GroupKey, GroupCtx>) -> Self {
        arbitrary()
    }
}

/// Summary counts and failures of a grouped run.
#[derive(Debug)]
#[non_exhaustive]
pub struct GroupedRunOutcomes<'t, L> {
    pub groups: usize,
    pub passed: usize,
    pub failed: usize,
    pub ignored: usize,
    pub filtered_out: usize,
    pub duration: std::time::Duration,
    pub failures: Vec<Failure<'t>>,
    pub _label_marker: std::marker::PhantomData<L>,
}

impl<'t, L> Clone for GroupedRunOutcomes<'t, L> {
    fn clone(&self) -> Self {
        GroupedRunOutcomes {
            groups: self.groups,
            passed: self.passed,
            failed: self.failed,
            ignored: self.ignored,
            filtered_out: self.filtered_out,
            duration: self.duration,
            failures: self.failures.clone(),
            _label_marker: std::marker::PhantomData,
        }
    }
}

/// The number of outcomes across all groups.
pub open spec fn grouped_total<'t, GroupKey, GroupCtx>(groups: Seq<(GroupKey, TestOutcomes<'t>, Option<GroupCtx>)>) -> nat
    decreases groups.len(),
{
    if groups.len() == 0 {
        0
    } else {
        grouped_total(groups.drop_last()) + groups.last().1@.len()
    }
}

/// The number of outcomes across all groups whose status satisfies `p`.
pub open spec fn grouped_count<'t, GroupKey, GroupCtx>(groups: Seq<(GroupKey, TestOutcomes<'t>, Option<GroupCtx>)>, p: spec_fn(TestStatus) -> bool) -> nat
    decreases groups.len(),
{
    if groups.len() == 0 {
        0
    } else {
        grouped_count(groups.drop_last(), p) + count_where(groups.last().1@, p)
    }
}

/// A failure report without its group label: name, failure and captured writes.
pub open spec fn failure_core(f: (Option<Seq<char>>, Seq<char>, TestFailure, Seq<(OutputTarget, Seq<u8>)>)) -> (Seq<char>, TestFailure, Seq<(OutputTarget, Seq<u8>)>) {
    (f.1, f.2, f.3)
}

/// The failures across all groups, in group order and run order within a group.
pub open spec fn grouped_failures<'t, GroupKey, GroupCtx>(groups: Seq<(GroupKey, TestOutcomes<'t>, Option<GroupCtx>)>) -> Seq<(Seq<char>, TestFailure, Seq<(OutputTarget, Seq<u8>)>)>
    decreases groups.len(),
{
    if groups.len() == 0 {
        Seq::empty()
    } else {
        grouped_failures(groups.drop_last()) + failures_of(groups.last().1@, None).map_values(
            |f: (Option<Seq<char>>, Seq<char>, TestFailure, Seq<(OutputTarget, Seq<u8>)>)| failure_core(f),
        )
    }
}

/// For each failure across groups, the index of its group.
pub open spec fn failure_group_index<'t, GroupKey, GroupCtx>(groups: Seq<(GroupKey, TestOutcomes<'t>, Option<GroupCtx>)>) -> Seq<int>
    decreases groups.len(),
{
    if groups.len() == 0 {
        Seq::empty()
    } else {
        failure_group_index(groups.drop_last()) + Seq::new(
            failures_of(groups.last().1@, None).len(),
            |k: int| groups.len() - 1,
        )
    }
}

/// The group label a failure carries, for a group of this key and context: the label `L`
/// gives the group when it is not empty, no label when it is empty.
pub open spec fn label_fits<GroupKey, GroupCtx, L: GroupLabeler<GroupKey, GroupCtx>>(
    key: GroupKey,
    ctx: Option<GroupCtx>,
    group: Option<String>,
) -> bool {
    match group {
        Some(label) => label@.len() > 0 && L::labels(&key, ctx_ref_of(&ctx), label),
        None => exists|label: String| #[trigger] L::labels(&key, ctx_ref_of(&ctx), label) && label@.len() == 0,
    }
}

/// The context of a group, borrowed.
pub open spec fn ctx_ref_of<GroupCtx>(ctx: &Option<GroupCtx>) -> Option<&GroupCtx> {
    match ctx {
        Some(c) => Some(c),
        None => None,
    }
}

/// Selects timed out statuses.
pub open spec fn timed_out_pred() -> spec_fn(TestStatus) -> bool {
    |s: TestStatus| s is TimedOut
}

/// Selects statuses of the `Other` kind.
pub open spec fn other_pred() -> spec_fn(TestStatus) -> bool {
    |s: TestStatus| s is Other
}

/// Every outcome is counted exactly once as passed, failed, ignored, timed out or other.
pub proof fn law_status_counts_partition<'t>(outcomes: Seq<(&'t str, TestOutcome)>)
    ensures
        count_where(outcomes, passed_pred()) + count_where(outcomes, failed_pred()) + count_where(outcomes, ignored_pred())
            + count_where(outcomes, timed_out_pred()) + count_where(outcomes, other_pred()) == outcomes.len(),
    decreases outcomes.len(),
{
    if outcomes.len() > 0 {
        law_status_counts_partition(outcomes.drop_last());
    }
}

/// The failure report of a run lists exactly as many failures as the failed count.
pub proof fn law_failures_match_failed_count<'t>(outcomes: Seq<(&'t str, TestOutcome)>, group: Option<Seq<char>>)
    ensures
        failures_of(outcomes, group).len() == count_where(outcomes, failed_pred()),
    decreases outcomes.len(),
{
    if outcomes.len() > 0 {
        law_failures_match_failed_count(outcomes.drop_last(), group);
    }
}

/// At most all outcomes satisfy a predicate.
pub proof fn lemma_count_where_bounded<'t>(outcomes: Seq<(&'t str, TestOutcome)>, p: spec_fn(TestStatus) -> bool)
    ensures
        count_where(outcomes, p) <= outcomes.len(),
    decreases outcomes.len(),
{
    if outcomes.len() > 0 {
        lemma_count_where_bounded(outcomes.drop_last(), p);
    }
}

/// A prefix of the outcomes has at most as many outcomes satisfying a predicate.
pub proof fn lemma_count_where_prefix<'t>(outcomes: Seq<(&'t str, TestOutcome)>, k: int, p: spec_fn(TestStatus) -> bool)
    requires
        0 <= k <= outcomes.len(),
    ensures
        count_where(outcomes.take(k), p) <= count_where(outcomes, p),
    decreases outcomes.len(),
{
    if k < outcomes.len() {
        assert(outcomes.drop_last().take(k) =~= outcomes.take(k));
        lemma_count_where_prefix(outcomes.drop_last(), k, p);
    } else {
        assert(outcomes.take(k) =~= outcomes);
    }
}

/// Counting across one more group adds that group's count.
pub proof fn lemma_grouped_count_step<'t, GroupKey, GroupCtx>(groups: Seq<(GroupKey, TestOutcomes<'t>, Option<GroupCtx>)>, k: int, p: spec_fn(TestStatus) -> bool)
    requires
        0 <= k < groups.len(),
    ensures
        grouped_count(groups.take(k + 1), p) == grouped_count(groups.take(k), p) + count_where(groups[k].1@, p),
{
    assert(groups.take(k + 1).drop_last() =~= groups.take(k));
}

/// At most all outcomes across groups satisfy a predicate.
pub proof fn lemma_grouped_count_bounded<'t, GroupKey, GroupCtx>(groups: Seq<(GroupKey, TestOutcomes<'t>, Option<GroupCtx>)>, p: spec_fn(TestStatus) -> bool)
    ensures
        grouped_count(groups, p) <= grouped_total(groups),
    decreases groups.len(),
{
    if groups.len() > 0 {
        lemma_grouped_count_bounded(groups.drop_last(), p);
        lemma_count_where_bounded(groups.last().1@, p);
    }
}

/// A prefix of the groups holds at most all outcomes.
pub proof fn lemma_grouped_total_prefix<'t, GroupKey, GroupCtx>(groups: Seq<(GroupKey, TestOutcomes<'t>, Option<GroupCtx>)>, k: int)
    requires
        0 <= k <= groups.len(),
    ensures
        grouped_total(groups.take(k)) <= grouped_total(groups),
    decreases groups.len(),
{
    if k < groups.len() {
        assert(groups.drop_last().take(k) =~= groups.take(k));
        lemma_grouped_total_prefix(groups.drop_last(), k);
    } else {
        assert(groups.take(k) =~= groups);
    }
}

impl<'t, L> GroupedRunOutcomes<'t, L> {
    /// Count the outcomes of a grouped run across all groups and collect the failures, each
    /// labelled with its group's label when that is not empty. Counts wrap on overflow; they
    /// are exact whenever the total number of outcomes fits in `usize`.
    pub fn from_grouped<'o, GroupKey, GroupCtx>(value: FmtGroupedRunOutcomes<'t, 'o, GroupKey, GroupCtx>) -> (r: Self)
        where L: GroupLabeler<GroupKey, GroupCtx>,
        ensures
            r.groups == value.outcomes@.len(),
            r.filtered_out == 0,
            r.duration == value.duration,
            grouped_total(value.outcomes@) <= usize::MAX ==> {
                &&& r.passed == grouped_count(value.outcomes@, passed_pred())
                &&& r.failed == grouped_count(value.outcomes@, failed_pred())
                &&& r.ignored == grouped_count(value.outcomes@, ignored_pred())
            },
            r.failures@.map_values(|f: Failure<'t>| failure_core(failure_view(f))) == grouped_failures(value.outcomes@),
            forall|i: int| 0 <= i < r.failures@.len() ==> (#[trigger] r.failures@[i].group matches Some(g) ==> g@.len() > 0),
            failure_group_index(value.outcomes@).len() == r.failures@.len(),
            forall|i: int| 0 <= i < r.failures@.len() ==> {
                let j = failure_group_index(value.outcomes@)[i];
                0 <= j < value.outcomes@.len() && label_fits::<GroupKey, GroupCtx, L>(
                    value.outcomes@[j].0,
                    value.outcomes@[j].2,
                    #[trigger] r.failures@[i].group,
                )
            },
    {
        let groups = value.outcomes;
        let ghost all = groups@;
        let ok = Ghost(grouped_total(all) <= usize::MAX);
        let mut passed: usize = 0;
        let mut failed: usize = 0;
        let mut ignored: usize = 0;
        let mut failures: Vec<Failure<'t>> = Vec::new();
        let mut gi: usize = 0;
        while gi < groups.len()
            invariant
                gi <= all.len(),
                all == groups@,
                ok@ == (grouped_total(all) <= usize::MAX),
                ok@ ==> passed == grouped_count(all.take(gi as int), passed_pred()),
                ok@ ==> failed == grouped_count(all.take(gi as int), failed_pred()),
                ok@ ==> ignored == grouped_count(all.take(gi as int), ignored_pred()),
                failures@.map_values(|f: Failure<'t>| failure_core(failure_view(f))) == grouped_failures(all.take(gi as int)),
                forall|i: int| 0 <= i < failures@.len() ==> (#[trigger] failures@[i].group matches Some(g) ==> g@.len() > 0),
                failure_group_index(all.take(gi as int)).len() == failures@.len(),
                forall|i: int| 0 <= i < failures@.len() ==> {
                    let j = failure_group_index(all.take(gi as int))[i];
                    0 <= j < gi && label_fits::<GroupKey, GroupCtx, L>(all[j].0, all[j].2, #[trigger] failures@[i].group)
                },
            decreases groups.len() - gi,
        {
            let group = &groups[gi];
            let outcomes = &group.1;
            let ghost gp = all.take(gi + 1);
            proof {
                assert(gp.drop_last() =~= all.take(gi as int));
                assert(gp.last() == all[gi as int]);
                lemma_grouped_total_prefix(all, gi + 1);
                lemma_grouped_count_bounded(gp, passed_pred());
                lemma_grouped_count_step(all, gi as int, passed_pred());
                lemma_grouped_count_step(all, gi as int, failed_pred());
                lemma_grouped_count_step(all, gi as int, ignored_pred());
                lemma_grouped_count_bounded(gp, failed_pred());
                lemma_grouped_count_bounded(gp, ignored_pred());
            }
            let ghost failures_before = failures@;
            let ghost idx0 = failure_group_index(all.take(gi as int));
            let ghost passed0 = passed;
            let ghost failed0 = failed;
            let ghost ignored0 = ignored;
            let mut i: usize = 0;
            while i < outcomes.len()
                invariant
                    i <= outcomes@.len(),
                    gi < all.len(),
                    outcomes@ == all[gi as int].1@,
                    *group == all[gi as int],
                    ok@ ==> passed0 + count_where(outcomes@, passed_pred()) <= usize::MAX,
                    ok@ ==> failed0 + count_where(outcomes@, failed_pred()) <= usize::MAX,
                    ok@ ==> ignored0 + count_where(outcomes@, ignored_pred()) <= usize::MAX,
                    gp.drop_last() == all.take(gi as int),
                    gp.last() == all[gi as int],
                    ok@ ==> passed == passed0 + count_where(outcomes@.take(i as int), passed_pred()),
                    ok@ ==> failed == failed0 + count_where(outcomes@.take(i as int), failed_pred()),
                    ok@ ==> ignored == ignored0 + count_where(outcomes@.take(i as int), ignored_pred()),
                    ok@ ==> passed0 == grouped_count(all.take(gi as int), passed_pred()),
                    ok@ ==> failed0 == grouped_count(all.take(gi as int), failed_pred()),
                    ok@ ==> ignored0 == grouped_count(all.take(gi as int), ignored_pred()),
                    failures@.map_values(|f: Failure<'t>| failure_core(failure_view(f))) == failures_before.map_values(|f: Failure<'t>| failure_core(failure_view(f))) + failures_of(outcomes@.take(i as int), None).map_values(
                        |f: (Option<Seq<char>>, Seq<char>, TestFailure, Seq<(OutputTarget, Seq<u8>)>)| failure_core(f),
                    ),
                    forall|k: int| 0 <= k < failures@.len() ==> (#[trigger] failures@[k].group matches Some(g) ==> g@.len() > 0),
                    idx0 == failure_group_index(all.take(gi as int)),
                    idx0.len() == failures_before.len(),
                    failures@.len() == failures_before.len() + failures_of(outcomes@.take(i as int), None).len(),
                    forall|k: int| 0 <= k < failures_before.len() ==> failures@[k] == failures_before[k],
                    forall|k: int| 0 <= k < failures_before.len() ==> {
                        let j = idx0[k];
                        0 <= j < gi && label_fits::<GroupKey, GroupCtx, L>(all[j].0, all[j].2, #[trigger] failures_before[k].group)
                    },
                    forall|k: int| failures_before.len() <= k < failures@.len() ==> label_fits::<GroupKey, GroupCtx, L>(
                        all[gi as int].0,
                        all[gi as int].2,
                        #[trigger] failures@[k].group,
                    ),
                decreases outcomes.len() - i,
            {
                let ghost before = failures@;
                let entry = &outcomes[i];
                let ghost prefix = outcomes@.take(i + 1);
                proof {
                    assert(prefix.drop_last() =~= outcomes@.take(i as int));
                    assert(prefix.last() == outcomes@[i as int]);
                    lemma_count_where_prefix(outcomes@, i + 1, passed_pred());
                    lemma_count_where_prefix(outcomes@, i + 1, failed_pred());
                    lemma_count_where_prefix(outcomes@, i + 1, ignored_pred());
                }
                match &entry.1.status {
                    TestStatus::Passed => {
                        passed = passed.wrapping_add(1);
                    },
                    TestStatus::Failed(f) => {
                        failed = failed.wrapping_add(1);
                        let ctx_opt = group.2.as_ref();
                        let label = L::label_of(&group.0, ctx_opt);
                        let ghost label_value = label;
                        let empty = label.unicode_len() == 0;
                        let group_label = if empty {
                            None
                        } else {
                            Some(label)
                        };
                        proof {
                            assert(*group == all[gi as int]);
                            let ctx_ref = ctx_ref_of(&all[gi as int].2);
                            assert(ctx_opt == ctx_ref);
                            assert(L::labels(&all[gi as int].0, ctx_ref, label_value));
                            assert(empty == (label_value@.len() == 0));
                            assert(group_label == if empty { None } else { Some(label_value) });
                            if empty {
                                assert(L::labels(&all[gi as int].0, ctx_ref, label_value) && label_value@.len() == 0);
                                assert(exists|l: String| #[trigger] L::labels(&all[gi as int].0, ctx_ref, l) && l@.len() == 0);
                            } else {
                                assert(label_value@.len() > 0 && L::labels(&all[gi as int].0, ctx_ref, label_value));
                            }
                            assert(label_fits::<GroupKey, GroupCtx, L>(all[gi as int].0, all[gi as int].2, group_label));
                        }
                        let failure = Failure {
                            group: group_label,
                            name: entry.0,
                            failure: clone_failure(f),
                            output: entry.1.output.clone(),
                        };
                        failures.push(failure);
                        assert(failures@.map_values(|f: Failure<'t>| failure_core(failure_view(f))) =~= before.map_values(
                            |f: Failure<'t>| failure_core(failure_view(f)),
                        ).push(failure_core(failure_view(failure))));
                    },
                    TestStatus::Ignored { .. } => {
                        ignored = ignored.wrapping_add(1);
                    },
                    _ => {},
                }
                proof {
                    assert(*entry == outcomes@[i as int]);
                    assert(count_where(prefix, passed_pred()) == count_where(outcomes@.take(i as int), passed_pred()) + if passed_pred()(outcomes@[i as int].1.status) { 1nat } else { 0nat });
                    assert(count_where(prefix, failed_pred()) == count_where(outcomes@.take(i as int), failed_pred()) + if failed_pred()(outcomes@[i as int].1.status) { 1nat } else { 0nat });
                    assert(count_where(prefix, ignored_pred()) == count_where(outcomes@.take(i as int), ignored_pred()) + if ignored_pred()(outcomes@[i as int].1.status) { 1nat } else { 0nat });
                    let fo = |f: (Option<Seq<char>>, Seq<char>, TestFailure, Seq<(OutputTarget, Seq<u8>)>)| failure_core(f);
                    assert(failures_of(prefix, None).map_values(fo) =~= if entry.1.status is Failed {
                        failures_of(outcomes@.take(i as int), None).map_values(fo).push(failure_core(failures_of(prefix, None).last()))
                    } else {
                        failures_of(outcomes@.take(i as int), None).map_values(fo)
                    });
                }
                i += 1;
            }
            proof {
                assert(outcomes@.take(i as int) =~= outcomes@);
                assert(gp.drop_last() =~= all.take(gi as int));
                let newidx = failure_group_index(gp);
                assert(newidx =~= idx0 + Seq::new(failures_of(all[gi as int].1@, None).len(), |k: int| gi as int));
                assert forall|k: int| 0 <= k < failures@.len() implies {
                    let j = failure_group_index(all.take(gi + 1))[k];
                    0 <= j < gi + 1 && label_fits::<GroupKey, GroupCtx, L>(all[j].0, all[j].2, #[trigger] failures@[k].group)
                } by {
                    if k < failures_before.len() {
                        assert(failures@[k] == failures_before[k]);
                        assert(newidx[k] == idx0[k]);
                    } else {
                        assert(newidx[k] == gi as int);
                    }
                }
            }
            gi += 1;
        }
        proof {
            assert(all.take(gi as int) =~= all);
        }
        GroupedRunOutcomes {
            _label_marker: std::marker::PhantomData,
            groups: groups.len(),
            passed,
            failed,
            ignored,
            filtered_out: 0,
            duration: value.duration,
            failures,
        }
    }

    /// Split into the number of groups and the summary of the run as a whole.
    pub fn split(self) -> (r: (usize, RunOutcomes<'t>))
        ensures
            r.0 == self.groups,
            r.1.passed == self.passed,
            r.1.failed == self.failed,
            r.1.ignored == self.ignored,
            r.1.filtered_out == self.filtered_out,
            r.1.duration == self.duration,
            r.1.failures == self.failures,
    {
        (
            self.groups,
            RunOutcomes {
                passed: self.passed,
                failed: self.failed,
                ignored: self.ignored,
                filtered_out: self.filtered_out,
                duration: self.duration,
                failures: self.failures,
            },
        )
    }
}

impl<'t, 'o, GroupKey, GroupCtx, L: GroupLabeler<GroupKey, GroupCtx>> From<FmtGroupedRunOutcomes<'t, 'o, GroupKey, GroupCtx>> for GroupedRunOutcomes<'t, L> {
    /// See [`GroupedRunOutcomes::from_grouped`].
    fn from(value: FmtGroupedRunOutcomes<'t, 'o, GroupKey, GroupCtx>) -> (r: Self)
        ensures
            r.groups == value.outcomes@.len(),
            r.filtered_out == 0,
            r.duration == value.duration,
            grouped_total(value.outcomes@) <= usize::MAX ==> {
                &&& r.passed == grouped_count(value.outcomes@, passed_pred())
                &&& r.failed == grouped_count(value.outcomes@, failed_pred())
                &&& r.ignored == grouped_count(value.outcomes@, ignored_pred())
            },
            r.failures@.map_values(|f: Failure<'t>| failure_core(failure_view(f))) == grouped_failures(value.outcomes@),
            failure_group_index(value.outcomes@).len() == r.failures@.len(),
            forall|i: int| 0 <= i < r.failures@.len() ==> {
                let j = failure_group_index(value.outcomes@)[i];
                0 <= j < value.outcomes@.len() && label_fits::<GroupKey, GroupCtx, L>(
                    value.outcomes@[j].0,
                    value.outcomes@[j].2,
                    #[trigger] r.failures@[i].group,
                )
            },
    {
        Self::from_grouped(value)
    }
}

impl<'t, 'o, GroupKey, GroupCtx, L: GroupLabeler<GroupKey, GroupCtx>> FromSpecImpl<FmtGroupedRunOutcomes<'t, 'o, GroupKey, GroupCtx>> for GroupedRunOutcomes<'t, L> {
    open spec fn obeys_from_spec() -> bool {
        false
    }

    open spec fn from_spec(v: FmtGroupedRunOutcomes<'t, 'o, GroupKey, GroupCtx>) -> Self {
        arbitrary()
    }
}

} // verus!
