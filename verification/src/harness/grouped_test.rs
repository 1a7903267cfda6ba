//! The harness for runs of grouped tests.

use vstd::multiset::Multiset;
use vstd::prelude::*;

use crate::filter::{kept_by, FilteredTests, TestFilter};
use crate::formatter::{
    metas_of, owned_opt, FmtBeginListing, FmtEndListing, FmtGroupedRunOutcomes, FmtGroupedRunStart, FmtInitListing,
    FmtListGroupEnd, FmtListGroupStart, FmtListGroups, FmtListTest, FmtRunInit, FormatError,
    GroupedTestFormatter, GroupedTestListFormatter, GroupedTestOutcomes, TestFormatter,
    TestListFormatter,
};
use crate::group::{groups_view, pairs_of, tests_of, total, TestGrouper, TestGroups};
use crate::harness::test::{all_ok, answered_errors, lemma_all_ok_no_errors, lemma_errors_of_bounded, lemma_errors_of_stages, stages_among, with_answer};
use crate::harness::{call_outcome, count_active, end_listing_of, errors_of, push_on_error, record_call, repeat_stage, stages_of};
use crate::ignore::{clone_ignore_status, TestIgnore};
use crate::report::GroupedTestReport;
use crate::test::{IgnoreStatus, Test, TestMeta};

verus! {

/// A test harness whose tests run group by group: besides the strategies of
/// [`TestHarness`](crate::harness::TestHarness) it has a grouper, a collection of groups and
/// a group runner.
#[derive(Debug)]
pub struct GroupedTestHarness<
    't,
    Extra,
    Function,
    GroupKey,
    GroupCtx,
    Filter,
    Grouper,
    Groups,
    Ignore,
    GroupRunner,
    PanicHandler,
    Runner,
    Formatter,
> {
    pub tests: &'t [Test<Extra, Function>],
    pub _group_key: std::marker::PhantomData<GroupKey>,
    pub _group_ctx: std::marker::PhantomData<GroupCtx>,
    pub filter: Filter,
    pub grouper: Grouper,
    pub groups: Groups,
    pub ignore: Ignore,
    pub group_runner: GroupRunner,
    pub panic_handler: PanicHandler,
    pub runner: Runner,
    pub formatter: Formatter,
}

/// What a grouped run hands to the code that executes its groups: the groups in order, how
/// many tests were filtered out, the strategies, and the formatter errors so far.
#[derive(Debug)]
pub struct GroupedRunStart<'t, Extra, Function, GroupKey, Grouper, Ignore, GroupRunner, PanicHandler, Runner, Formatter, FmtError> {
    pub groups: Vec<(GroupKey, Vec<&'t Test<Extra, Function>>)>,
    pub filtered: usize,
    pub grouper: Grouper,
    pub ignore: Ignore,
    pub group_runner: GroupRunner,
    pub panic_handler: PanicHandler,
    pub runner: Runner,
    pub formatter: Formatter,
    pub fmt_errors: Vec<(FormatError, FmtError)>,
}

/// One call of the group part of a grouped listing, with what the formatter is handed.
pub enum GroupListingCall<Extra, GroupKey, GroupCtx> {
    /// The start of a group: its number of tests, its key and its context.
    Start { tests: usize, key: GroupKey, ctx: Option<GroupCtx> },
    /// A test of the group with the ignore decision for it.
    Test { meta: TestMeta<Extra>, ignored: IgnoreStatus },
    /// The end of a group: its number of tests, its key and its context.
    End { tests: usize, key: GroupKey, ctx: Option<GroupCtx> },
}

/// The stage of a call of the group part of a grouped listing.
pub open spec fn call_stage<Extra, GroupKey, GroupCtx>(c: GroupListingCall<Extra, GroupKey, GroupCtx>) -> FormatError {
    match c {
        GroupListingCall::Start { .. } => FormatError::ListGroupStart,
        GroupListingCall::Test { .. } => FormatError::ListTest,
        GroupListingCall::End { .. } => FormatError::ListGroupEnd,
    }
}

/// The calls of the group part of a grouped listing of `groups`, where group `i` has the
/// context `ctxs[i]` and its tests the ignore decisions `decisions[i]`: for each group its
/// start, each of its tests in order with its decision, and its end.
pub open spec fn group_calls<'t, Extra, Function, GroupKey, GroupCtx>(
    groups: Seq<(GroupKey, Seq<&'t Test<Extra, Function>>)>,
    ctxs: Seq<Option<GroupCtx>>,
    decisions: Seq<Seq<IgnoreStatus>>,
) -> Seq<GroupListingCall<Extra, GroupKey, GroupCtx>>
    decreases groups.len(),
{
    if groups.len() == 0 {
        Seq::empty()
    } else {
        let g = groups.last();
        let n = g.1.len();
        group_calls(groups.drop_last(), ctxs.drop_last(), decisions.drop_last())
            + seq![GroupListingCall::Start { tests: n as usize, key: g.0, ctx: ctxs.last() }]
            + Seq::new(n, |j: int| GroupListingCall::Test { meta: g.1[j].meta, ignored: decisions.last()[j] })
            + seq![GroupListingCall::End { tests: n as usize, key: g.0, ctx: ctxs.last() }]
    }
}

/// The decisions of all groups one after the other.
pub open spec fn concat_all<T>(parts: Seq<Seq<T>>) -> Seq<T>
    decreases parts.len(),
{
    if parts.len() == 0 {
        Seq::empty()
    } else {
        concat_all(parts.drop_last()) + parts.last()
    }
}

/// The decisions for the tests of the first `upto` groups are those `ignore` gives them.
pub open spec fn decided_upto<'t, Extra, Function, GroupKey, I: TestIgnore<Extra>>(
    ignore: I,
    groups: Seq<(GroupKey, Seq<&'t Test<Extra, Function>>)>,
    decisions: Seq<Seq<IgnoreStatus>>,
    upto: int,
) -> bool {
    &&& forall|h: int| 0 <= h < upto ==> #[trigger] decisions[h].len() == groups[h].1.len()
    &&& forall|h: int, j: int| 0 <= h < upto && 0 <= j < groups[h].1.len() ==> ignore.decides(groups[h].1[j].meta, #[trigger] decisions[h][j])
}

/// What the call `c` does: the formatter, in the state `f`, handed `c`, answers `r` and is
/// left in the state `after`.
pub open spec fn handled_group_call<'t, Extra: 't, GroupKey: 't, GroupCtx: 't, F: GroupedTestListFormatter<'t, Extra, GroupKey, GroupCtx>>(
    f: F,
    c: GroupListingCall<Extra, GroupKey, GroupCtx>,
    r: Result<(), <F as TestListFormatter<'t, Extra>>::Error>,
    after: F,
) -> bool {
    match c {
        GroupListingCall::Start { tests, key, ctx } => f.handled_list_group_start(tests, key, ctx, r, after),
        GroupListingCall::Test { meta, ignored } => f.handled_list_test(meta, ignored, r, after),
        GroupListingCall::End { tests, key, ctx } => f.handled_list_group_end(tests, key, ctx, r, after),
    }
}

/// The stages of the calls of a grouped listing whose group part is `calls`: the full
/// list, the filtered list, the number of groups, the group part, and the end.
pub open spec fn grouped_listing_stages<Extra, GroupKey, GroupCtx>(calls: Seq<GroupListingCall<Extra, GroupKey, GroupCtx>>) -> Seq<FormatError> {
    seq![FormatError::InitListing, FormatError::BeginListing, FormatError::ListGroups]
        + calls.map_values(|c: GroupListingCall<Extra, GroupKey, GroupCtx>| call_stage(c))
        + seq![FormatError::EndListing]
}

/// The calls of a grouped listing of the tests `all`, of which the filter kept `kept`, in
/// the groups `groups` with the contexts `ctxs` and the decisions `decisions` that `ignore`
/// gives for their tests; call `i` is made on the formatter in the state `states[i]`,
/// answers `answers[i]` and leaves it in the state `states[i + 1]`. The first is handed all
/// tests; the second the number of kept tests and the number filtered out; the third the
/// number of groups; then the calls of [`group_calls`]; and the last the number of
/// decisions that let a test run and the number of the others.
pub open spec fn is_grouped_listing<'t, Extra: 't, Function, GroupKey: 't, GroupCtx: 't, F: GroupedTestListFormatter<'t, Extra, GroupKey, GroupCtx>, I: TestIgnore<Extra>>(
    states: Seq<F>,
    answers: Seq<Result<(), <F as TestListFormatter<'t, Extra>>::Error>>,
    ignore: I,
    all: Seq<TestMeta<Extra>>,
    kept: nat,
    groups: Seq<(GroupKey, Seq<&'t Test<Extra, Function>>)>,
    ctxs: Seq<Option<GroupCtx>>,
    decisions: Seq<Seq<IgnoreStatus>>,
) -> bool {
    let calls = group_calls(groups, ctxs, decisions);
    let m = calls.len() as int;
    let flat = concat_all(decisions);
    &&& ctxs.len() == groups.len()
    &&& decisions.len() == groups.len()
    &&& decided_upto(ignore, groups, decisions, groups.len() as int)
    &&& states.len() == m + 5
    &&& answers.len() == m + 4
    &&& states[0].handled_init_listing(all, answers[0], states[1])
    &&& states[1].handled_begin_listing(FmtBeginListing { tests: kept as usize, filtered: (all.len() - kept) as usize }, answers[1], states[2])
    &&& states[2].handled_list_groups(FmtListGroups { groups: groups.len() as usize }, answers[2], states[3])
    &&& forall|j: int| #![trigger answers[j]] 3 <= j < m + 3 ==> handled_group_call(states[j], calls[j - 3], answers[j], states[j + 1])
    &&& states[m + 3].handled_end_listing(
        FmtEndListing { active: count_active(flat) as usize, ignored: (flat.len() - count_active(flat)) as usize },
        answers[m + 3],
        states[m + 4],
    )
}

/// The stages at the start of a grouped run.
pub open spec fn grouped_run_start_stage(stage: FormatError) -> bool {
    stage is RunInit || stage is GroupedRunStart
}

impl<
    't,
    Extra,
    Function,
    GroupKey,
    GroupCtx,
    Filter,
    Grouper,
    Groups,
    Ignore,
    GroupRunner,
    PanicHandler,
    Runner,
    Formatter,
> GroupedTestHarness<'t, Extra, Function, GroupKey, GroupCtx, Filter, Grouper, Groups, Ignore, GroupRunner, PanicHandler, Runner, Formatter> {
    /// Replace the filter.
    pub fn with_filter<WithFilter>(self, filter: WithFilter) -> (r: GroupedTestHarness<'t, Extra, Function, GroupKey, GroupCtx, WithFilter, Grouper, Groups, Ignore, GroupRunner, PanicHandler, Runner, Formatter>)
        ensures
            r.tests == self.tests && r.filter == filter && r.grouper == self.grouper && r.groups == self.groups
                && r.ignore == self.ignore && r.group_runner == self.group_runner && r.panic_handler == self.panic_handler
                && r.runner == self.runner && r.formatter == self.formatter,
    {
        GroupedTestHarness {
            tests: self.tests,
            _group_key: std::marker::PhantomData,
            _group_ctx: std::marker::PhantomData,
            filter,
            grouper: self.grouper,
            groups: self.groups,
            ignore: self.ignore,
            group_runner: self.group_runner,
            panic_handler: self.panic_handler,
            runner: self.runner,
            formatter: self.formatter,
        }
    }

    /// Replace the collection the groups are gathered in.
    pub fn with_groups<WithGroups>(self, groups: WithGroups) -> (r: GroupedTestHarness<'t, Extra, Function, GroupKey, GroupCtx, Filter, Grouper, WithGroups, Ignore, GroupRunner, PanicHandler, Runner, Formatter>)
        ensures
            r.tests == self.tests && r.filter == self.filter && r.grouper == self.grouper && r.groups == groups
                && r.ignore == self.ignore && r.group_runner == self.group_runner && r.panic_handler == self.panic_handler
                && r.runner == self.runner && r.formatter == self.formatter,
    {
        GroupedTestHarness {
            tests: self.tests,
            _group_key: std::marker::PhantomData,
            _group_ctx: std::marker::PhantomData,
            filter: self.filter,
            grouper: self.grouper,
            groups,
            ignore: self.ignore,
            group_runner: self.group_runner,
            panic_handler: self.panic_handler,
            runner: self.runner,
            formatter: self.formatter,
        }
    }

    /// Replace the ignore strategy.
    pub fn with_ignore<WithIgnore>(self, ignore: WithIgnore) -> (r: GroupedTestHarness<'t, Extra, Function, GroupKey, GroupCtx, Filter, Grouper, Groups, WithIgnore, GroupRunner, PanicHandler, Runner, Formatter>)
        ensures
            r.tests == self.tests && r.filter == self.filter && r.grouper == self.grouper && r.groups == self.groups
                && r.ignore == ignore && r.group_runner == self.group_runner && r.panic_handler == self.panic_handler
                && r.runner == self.runner && r.formatter == self.formatter,
    {
        GroupedTestHarness {
            tests: self.tests,
            _group_key: std::marker::PhantomData,
            _group_ctx: std::marker::PhantomData,
            filter: self.filter,
            grouper: self.grouper,
            groups: self.groups,
            ignore,
            group_runner: self.group_runner,
            panic_handler: self.panic_handler,
            runner: self.runner,
            formatter: self.formatter,
        }
    }

    /// Replace the group runner.
    pub fn with_group_runner<WithGroupRunner>(self, group_runner: WithGroupRunner) -> (r: GroupedTestHarness<'t, Extra, Function, GroupKey, GroupCtx, Filter, Grouper, Groups, Ignore, WithGroupRunner, PanicHandler, Runner, Formatter>)
        ensures
            r.tests == self.tests && r.filter == self.filter && r.grouper == self.grouper && r.groups == self.groups
                && r.ignore == self.ignore && r.group_runner == group_runner && r.panic_handler == self.panic_handler
                && r.runner == self.runner && r.formatter == self.formatter,
    {
        GroupedTestHarness {
            tests: self.tests,
            _group_key: std::marker::PhantomData,
            _group_ctx: std::marker::PhantomData,
            filter: self.filter,
            grouper: self.grouper,
            groups: self.groups,
            ignore: self.ignore,
            group_runner,
            panic_handler: self.panic_handler,
            runner: self.runner,
            formatter: self.formatter,
        }
    }

    /// Replace the panic handler.
    pub fn with_panic_handler<WithPanicHandler>(self, panic_handler: WithPanicHandler) -> (r: GroupedTestHarness<'t, Extra, Function, GroupKey, GroupCtx, Filter, Grouper, Groups, Ignore, GroupRunner, WithPanicHandler, Runner, Formatter>)
        ensures
            r.tests == self.tests && r.filter == self.filter && r.grouper == self.grouper && r.groups == self.groups
                && r.ignore == self.ignore && r.group_runner == self.group_runner && r.panic_handler == panic_handler
                && r.runner == self.runner && r.formatter == self.formatter,
    {
        GroupedTestHarness {
            tests: self.tests,
            _group_key: std::marker::PhantomData,
            _group_ctx: std::marker::PhantomData,
            filter: self.filter,
            grouper: self.grouper,
            groups: self.groups,
            ignore: self.ignore,
            group_runner: self.group_runner,
            panic_handler,
            runner: self.runner,
            formatter: self.formatter,
        }
    }

    /// Replace the runner.
    pub fn with_runner<WithRunner>(self, runner: WithRunner) -> (r: GroupedTestHarness<'t, Extra, Function, GroupKey, GroupCtx, Filter, Grouper, Groups, Ignore, GroupRunner, PanicHandler, WithRunner, Formatter>)
        ensures
            r.tests == self.tests && r.filter == self.filter && r.grouper == self.grouper && r.groups == self.groups
                && r.ignore == self.ignore && r.group_runner == self.group_runner && r.panic_handler == self.panic_handler
                && r.runner == runner && r.formatter == self.formatter,
    {
        GroupedTestHarness {
            tests: self.tests,
            _group_key: std::marker::PhantomData,
            _group_ctx: std::marker::PhantomData,
            filter: self.filter,
            grouper: self.grouper,
            groups: self.groups,
            ignore: self.ignore,
            group_runner: self.group_runner,
            panic_handler: self.panic_handler,
            runner,
            formatter: self.formatter,
        }
    }

    /// Replace the formatter.
    pub fn with_formatter<WithFormatter>(self, formatter: WithFormatter) -> (r: GroupedTestHarness<'t, Extra, Function, GroupKey, GroupCtx, Filter, Grouper, Groups, Ignore, GroupRunner, PanicHandler, Runner, WithFormatter>)
        ensures
            r.tests == self.tests && r.filter == self.filter && r.grouper == self.grouper && r.groups == self.groups
                && r.ignore == self.ignore && r.group_runner == self.group_runner && r.panic_handler == self.panic_handler
                && r.runner == self.runner && r.formatter == formatter,
    {
        GroupedTestHarness {
            tests: self.tests,
            _group_key: std::marker::PhantomData,
            _group_ctx: std::marker::PhantomData,
            filter: self.filter,
            grouper: self.grouper,
            groups: self.groups,
            ignore: self.ignore,
            group_runner: self.group_runner,
            panic_handler: self.panic_handler,
            runner: self.runner,
            formatter,
        }
    }
}

/// The tests a sequence of references points to.
pub open spec fn tests_in<'t, Extra, Function>(tests: Seq<&'t Test<Extra, Function>>) -> Seq<Test<Extra, Function>> {
    tests.map_values(|t: &'t Test<Extra, Function>| *t)
}

/// The calls of a grouper for tests with the metadata `metas`: call `i`, made on the grouper
/// in the state `states[i]`, answered `keys[i]`.
pub open spec fn grouped_as<Extra, GroupKey, GroupCtx, G: TestGrouper<Extra, GroupKey, GroupCtx>>(
    states: Seq<G>,
    keys: Seq<GroupKey>,
    metas: Seq<TestMeta<Extra>>,
) -> bool {
    &&& states.len() == metas.len()
    &&& keys.len() == metas.len()
    &&& forall|i: int| 0 <= i < metas.len() ==> #[trigger] states[i].gives(metas[i], keys[i])
}

/// Each test with the key at its position.
pub open spec fn keyed_tests<K, Extra, Function>(keys: Seq<K>, tests: Seq<Test<Extra, Function>>) -> Seq<(K, Test<Extra, Function>)> {
    Seq::new(tests.len(), |i: int| (keys[i], tests[i]))
}

/// Assign each test to its group: the group of the key the grouper gives it.
fn collect_groups<'t, Extra, Function, GroupKey, GroupCtx, Grouper, Groups>(
    grouper: &mut Grouper,
    groups: &mut Groups,
    tests: &Vec<&'t Test<Extra, Function>>,
)
    where Grouper: TestGrouper<Extra, GroupKey, GroupCtx>, Groups: TestGroups<'t, Extra, Function, GroupKey>,
    ensures
        final(groups).test_count() == old(groups).test_count() + tests@.len(),
        final(groups).held() == old(groups).held().add(tests_in(tests@).to_multiset()),
        exists|states: Seq<Grouper>, keys: Seq<GroupKey>|
            #[trigger] grouped_as(states, keys, metas_of(tests_in(tests@)))
            && (states.len() > 0 ==> states[0] == *old(grouper))
            && final(groups).keyed() == old(groups).keyed().add(keyed_tests(keys, tests_in(tests@)).to_multiset()),
{
    broadcast use vstd::multiset::group_multiset_axioms, vstd::seq_lib::to_multiset_build, vstd::seq_lib::to_multiset_contains;

    let ghost all = tests_in(tests@);
    let ghost mut states: Seq<Grouper> = Seq::empty();
    let ghost mut keys: Seq<GroupKey> = Seq::empty();
    let mut i: usize = 0;
    proof {
        assert(all.take(0).to_multiset() =~= Multiset::empty());
        assert(keyed_tests(keys, all.take(0)).to_multiset() =~= Multiset::empty());
        assert(groups.held() =~= old(groups).held().add(all.take(0).to_multiset()));
        assert(groups.keyed() =~= old(groups).keyed().add(keyed_tests(keys, all.take(0)).to_multiset()));
    }
    while i < tests.len()
        invariant
            i <= tests@.len(),
            all == tests_in(tests@),
            groups.test_count() == old(groups).test_count() + i,
            groups.held() == old(groups).held().add(all.take(i as int).to_multiset()),
            states.len() == i,
            keys.len() == i,
            forall|j: int| 0 <= j < i ==> #[trigger] states[j].gives(all[j].meta, keys[j]),
            i > 0 ==> states[0] == *old(grouper),
            i == 0 ==> *grouper == *old(grouper),
            groups.keyed() == old(groups).keyed().add(keyed_tests(keys, all.take(i as int)).to_multiset()),
        decreases tests.len() - i,
    {
        let test = tests[i];
        let ghost pre = *grouper;
        let key = grouper.group(&test.meta);
        let ghost k = key;
        groups.add(key, test);
        proof {
            assert(all.take(i + 1) =~= all.take(i as int).push(*test));
            vstd::seq_lib::to_multiset_build(all.take(i as int), *test);
            assert(all.take(i + 1).to_multiset() =~= all.take(i as int).to_multiset().insert(*test));
            assert(groups.held() =~= old(groups).held().add(all.take(i + 1).to_multiset()));
            let keys2 = keys.push(k);
            assert(keyed_tests(keys2, all.take(i + 1)) =~= keyed_tests(keys, all.take(i as int)).push((k, *test)));
            vstd::seq_lib::to_multiset_build(keyed_tests(keys, all.take(i as int)), (k, *test));
            assert(groups.keyed() =~= old(groups).keyed().add(keyed_tests(keys2, all.take(i + 1)).to_multiset()));
            states = states.push(pre);
            keys = keys2;
        }
        i += 1;
    }
    proof {
        assert(all.take(i as int) =~= all);
        assert(grouped_as(states, keys, metas_of(all)));
    }
}

impl<
    't,
    Extra: 't,
    Function,
    GroupKey: 't,
    GroupCtx: 't,
    Filter: TestFilter<Extra>,
    Grouper: TestGrouper<Extra, GroupKey, GroupCtx>,
    Groups: TestGroups<'t, Extra, Function, GroupKey>,
    Ignore: TestIgnore<Extra>,
    GroupRunner,
    PanicHandler,
    Runner,
    Formatter: GroupedTestListFormatter<'t, Extra, GroupKey, GroupCtx>,
> GroupedTestHarness<'t, Extra, Function, GroupKey, GroupCtx, Filter, Grouper, Groups, Ignore, GroupRunner, PanicHandler, Runner, Formatter> {
    /// List the grouped tests without running them: the formatter is handed the full list,
    /// the number of tests the filter kept and the number it filtered out, the number of
    /// groups, and for each group its start, each of its tests with the ignore strategy's
    /// decision for it and its end; and the counts of the decisions at the end (see
    /// [`is_grouped_listing`]), each call on the formatter as the previous one left it.
    /// Listing goes on after a formatter error; the result is the error of each formatter
    /// call that failed, with its stage, in call order, so none when every call succeeded. The groups
    /// listed hold the tests already in the collection and every test the filter kept, each
    /// under the key the grouper gave it.
    pub fn list(self) -> (r: Vec<(FormatError, <Formatter as TestListFormatter<'t, Extra>>::Error)>)
        ensures
            exists|
                states: Seq<Formatter>,
                answers: Seq<Result<(), <Formatter as TestListFormatter<'t, Extra>>::Error>>,
                listed: Seq<(GroupKey, Seq<&'t Test<Extra, Function>>)>,
                ctxs: Seq<Option<GroupCtx>>,
                decisions: Seq<Seq<IgnoreStatus>>,
                grouper_states: Seq<Grouper>,
                keys: Seq<GroupKey>,
            |
                #![trigger is_grouped_listing(states, answers, self.ignore, metas_of(self.tests@), kept_by(self.filter, self.tests@).len(), listed, ctxs, decisions), grouped_as(grouper_states, keys, metas_of(kept_by(self.filter, self.tests@)))]
                is_grouped_listing(
                    states,
                    answers,
                    self.ignore,
                    metas_of(self.tests@),
                    kept_by(self.filter, self.tests@).len(),
                    listed,
                    ctxs,
                    decisions,
                )
                && states[0] == self.formatter
                && r@ == answered_errors(grouped_listing_stages(group_calls(listed, ctxs, decisions)), answers)
                && (all_ok(answers) ==> r@.len() == 0)
                && grouped_as(grouper_states, keys, metas_of(kept_by(self.filter, self.tests@)))
                && (grouper_states.len() > 0 ==> grouper_states[0] == self.grouper)
                && (Groups::exact() ==> total(listed) == self.groups.test_count() + kept_by(self.filter, self.tests@).len()
                    && tests_of(listed) == self.groups.held().add(kept_by(self.filter, self.tests@).to_multiset())
                    && pairs_of(listed) == self.groups.keyed().add(keyed_tests(keys, kept_by(self.filter, self.tests@)).to_multiset())),
    {
        let ghost all = metas_of(self.tests@);
        let mut formatter = self.formatter;
        let mut grouper = self.grouper;
        let mut groups = self.groups;
        let mut fmt_errors: Vec<(FormatError, <Formatter as TestListFormatter<'t, Extra>>::Error)> = Vec::new();
        let ghost calls0: Seq<(FormatError, Option<<Formatter as TestListFormatter<'t, Extra>>::Error>)> = Seq::empty();
        let ghost s0 = formatter;
        let res = formatter.fmt_init_listing(FmtInitListing { tests: self.tests });
        let ghost a0 = res;
        let ghost p1 = formatter;
        let Ghost(calls) = record_call(&mut fmt_errors, FormatError::InitListing, res, Ghost(calls0));

        let FilteredTests { tests, filtered } = self.filter.filter(self.tests);
        let ghost k = tests@.len();
        proof {
            assert(tests@.map_values(|t: &Test<Extra, Function>| *t).len() == tests@.len());
        }
        let begin = FmtBeginListing { tests: tests.len(), filtered };
        let res = formatter.fmt_begin_listing(begin);
        let ghost a1 = res;
        let ghost p2 = formatter;
        let Ghost(calls) = record_call(&mut fmt_errors, FormatError::BeginListing, res, Ghost(calls));

        collect_groups(&mut grouper, &mut groups, &tests);
        let ghost count = groups.test_count();
        let ghost held = groups.held();
        let ghost keyed = groups.keyed();
        let groups = groups.into_groups();
        let ghost listed = groups_view(groups@);
        let counted = FmtListGroups { groups: groups.len() };
        let res = formatter.fmt_list_groups(counted);
        let ghost a2 = res;
        let ghost p3 = formatter;
        let Ghost(calls) = record_call(&mut fmt_errors, FormatError::ListGroups, res, Ghost(calls));
        let ghost head = seq![FormatError::InitListing, FormatError::BeginListing, FormatError::ListGroups];
        let ghost mut ctxs: Seq<Option<GroupCtx>> = Seq::empty();
        let ghost mut decs: Seq<Seq<IgnoreStatus>> = Seq::empty();
        let ghost mut states: Seq<Formatter> = seq![s0, p1, p2, p3];
        let ghost mut answers: Seq<Result<(), <Formatter as TestListFormatter<'t, Extra>>::Error>> = seq![a0, a1, a2];
        proof {
            assert(listed.take(0) =~= Seq::<(GroupKey, Seq<&'t Test<Extra, Function>>)>::empty());
            assert(stages_of(calls) =~= head + group_calls(listed.take(0), ctxs, decs).map_values(|c: GroupListingCall<Extra, GroupKey, GroupCtx>| call_stage(c)));
        }

        let mut decisions: Vec<IgnoreStatus> = Vec::new();
        let mut g: usize = 0;
        let ghost mut calls = calls;
        while g < groups.len()
            invariant
                g <= groups@.len(),
                listed == groups_view(groups@),
                ctxs.len() == g,
                decs.len() == g,
                decisions@ == concat_all(decs),
                fmt_errors@ == errors_of(calls),
                stages_of(calls) == head + group_calls(listed.take(g as int), ctxs, decs).map_values(|c: GroupListingCall<Extra, GroupKey, GroupCtx>| call_stage(c)),
                calls.len() == answers.len(),
                forall|j: int| 0 <= j < calls.len() ==> #[trigger] calls[j].1 == call_outcome(answers[j]),
                states.len() == answers.len() + 1,
                answers.len() == group_calls(listed.take(g as int), ctxs, decs).len() + 3,
                states[0] == s0,
                states[answers.len() as int] == formatter,
                s0.handled_init_listing(all, answers[0], states[1]),
                states[1].handled_begin_listing(begin, answers[1], states[2]),
                states[2].handled_list_groups(counted, answers[2], states[3]),
                forall|j: int| #![trigger answers[j]] 3 <= j < answers.len() ==> handled_group_call(states[j], group_calls(listed.take(g as int), ctxs, decs)[j - 3], answers[j], states[j + 1]),
                decided_upto(self.ignore, listed, decs, g as int),
            decreases groups.len() - g,
        {
            let ghost base = group_calls(listed.take(g as int), ctxs, decs);
            let (key, group_tests) = &groups[g];
            let ctx = grouper.group_ctx(key);
            let ghost c = owned_opt(ctx);
            let tests_len = group_tests.len();
            let ghost pre = formatter;
            let res = formatter.fmt_list_group_start(FmtListGroupStart { tests: tests_len, key, ctx });
            let ghost answer = res;
            let Ghost(next) = record_call(&mut fmt_errors, FormatError::ListGroupStart, res, Ghost(calls));
            let ghost first = GroupListingCall::<Extra, GroupKey, GroupCtx>::Start { tests: tests_len, key: *key, ctx: c };
            let ghost mut cur: Seq<IgnoreStatus> = Seq::empty();
            proof {
                assert(stages_of(next) =~= stages_of(calls).push(FormatError::ListGroupStart));
                calls = next;
                states = states.push(formatter);
                answers = answers.push(answer);
                assert((base + seq![first]).map_values(|c: GroupListingCall<Extra, GroupKey, GroupCtx>| call_stage(c))
                    =~= base.map_values(|c: GroupListingCall<Extra, GroupKey, GroupCtx>| call_stage(c)).push(FormatError::ListGroupStart));
                assert(Seq::new(0, |j: int| GroupListingCall::<Extra, GroupKey, GroupCtx>::Test { meta: group_tests@[j].meta, ignored: cur[j] }) =~= Seq::<GroupListingCall<Extra, GroupKey, GroupCtx>>::empty());
                assert(base + seq![first] + Seq::new(0, |j: int| GroupListingCall::<Extra, GroupKey, GroupCtx>::Test { meta: group_tests@[j].meta, ignored: cur[j] }) =~= base + seq![first]);
            }

            let mut i: usize = 0;
            while i < group_tests.len()
                invariant
                    i <= group_tests@.len(),
                    cur.len() == i,
                    decisions@ == concat_all(decs) + cur,
                    fmt_errors@ == errors_of(calls),
                    stages_of(calls) == head + (base + seq![first] + Seq::new(i as nat, |j: int| GroupListingCall::<Extra, GroupKey, GroupCtx>::Test { meta: group_tests@[j].meta, ignored: cur[j] })).map_values(|c: GroupListingCall<Extra, GroupKey, GroupCtx>| call_stage(c)),
                    calls.len() == answers.len(),
                    forall|j: int| 0 <= j < calls.len() ==> #[trigger] calls[j].1 == call_outcome(answers[j]),
                    states.len() == answers.len() + 1,
                    answers.len() == base.len() + 4 + i,
                    states[0] == s0,
                    states[answers.len() as int] == formatter,
                    s0.handled_init_listing(all, answers[0], states[1]),
                    states[1].handled_begin_listing(begin, answers[1], states[2]),
                    states[2].handled_list_groups(counted, answers[2], states[3]),
                    forall|j: int| #![trigger answers[j]] 3 <= j < answers.len() ==> handled_group_call(
                        states[j],
                        (base + seq![first] + Seq::new(i as nat, |j: int| GroupListingCall::<Extra, GroupKey, GroupCtx>::Test { meta: group_tests@[j].meta, ignored: cur[j] }))[j - 3],
                        answers[j],
                        states[j + 1],
                    ),
                    forall|j: int| 0 <= j < i ==> self.ignore.decides(group_tests@[j].meta, #[trigger] cur[j]),
                    g < groups@.len(),
                    listed == groups_view(groups@),
                    decs.len() == g,
                    decided_upto(self.ignore, listed, decs, g as int),
                decreases group_tests.len() - i,
            {
                let ghost done = base + seq![first] + Seq::new(i as nat, |j: int| GroupListingCall::<Extra, GroupKey, GroupCtx>::Test { meta: group_tests@[j].meta, ignored: cur[j] });
                let test = group_tests[i];
                let decision = self.ignore.ignore(&test.meta);
                decisions.push(clone_ignore_status(&decision));
                let ghost d = decision;
                let ghost pre = formatter;
                let res = formatter.fmt_list_test(FmtListTest { meta: &test.meta, ignored: decision });
                let ghost answer = res;
                let Ghost(next) = record_call(&mut fmt_errors, FormatError::ListTest, res, Ghost(calls));
                proof {
                    let call = GroupListingCall::<Extra, GroupKey, GroupCtx>::Test { meta: test.meta, ignored: d };
                    let cur2 = cur.push(d);
                    let done2 = base + seq![first] + Seq::new((i + 1) as nat, |j: int| GroupListingCall::<Extra, GroupKey, GroupCtx>::Test { meta: group_tests@[j].meta, ignored: cur2[j] });
                    assert(done2 =~= done.push(call));
                    assert(done2.map_values(|c: GroupListingCall<Extra, GroupKey, GroupCtx>| call_stage(c))
                        =~= done.map_values(|c: GroupListingCall<Extra, GroupKey, GroupCtx>| call_stage(c)).push(FormatError::ListTest));
                    assert(stages_of(next) =~= stages_of(calls).push(FormatError::ListTest));
                    assert(concat_all(decs) + cur2 =~= (concat_all(decs) + cur).push(d));
                    calls = next;
                    states = states.push(formatter);
                    answers = answers.push(answer);
                    cur = cur2;
                }
                i += 1;
            }

            let ghost done = base + seq![first] + Seq::new(i as nat, |j: int| GroupListingCall::<Extra, GroupKey, GroupCtx>::Test { meta: group_tests@[j].meta, ignored: cur[j] });
            let ghost pre = formatter;
            let res = formatter.fmt_list_group_end(FmtListGroupEnd { tests: tests_len, key, ctx });
            let ghost answer = res;
            let Ghost(next) = record_call(&mut fmt_errors, FormatError::ListGroupEnd, res, Ghost(calls));
            proof {
                let last = GroupListingCall::<Extra, GroupKey, GroupCtx>::End { tests: tests_len, key: *key, ctx: c };
                let ctxs2 = ctxs.push(c);
                let decs2 = decs.push(cur);
                let prefix = listed.take(g + 1);
                assert(prefix.drop_last() =~= listed.take(g as int));
                assert(ctxs2.drop_last() =~= ctxs);
                assert(decs2.drop_last() =~= decs);
                assert(prefix.last() == listed[g as int]);
                assert(listed[g as int] == (*key, group_tests@));
                assert(Seq::new(group_tests@.len(), |j: int| GroupListingCall::<Extra, GroupKey, GroupCtx>::Test { meta: prefix.last().1[j].meta, ignored: decs2.last()[j] })
                    =~= Seq::new(i as nat, |j: int| GroupListingCall::<Extra, GroupKey, GroupCtx>::Test { meta: group_tests@[j].meta, ignored: cur[j] }));
                assert(group_calls(prefix, ctxs2, decs2) =~= done.push(last));
                assert(done.push(last).map_values(|c: GroupListingCall<Extra, GroupKey, GroupCtx>| call_stage(c))
                    =~= done.map_values(|c: GroupListingCall<Extra, GroupKey, GroupCtx>| call_stage(c)).push(FormatError::ListGroupEnd));
                assert(stages_of(next) =~= stages_of(calls).push(FormatError::ListGroupEnd));
                assert(concat_all(decs2) =~= concat_all(decs) + cur);
                calls = next;
                states = states.push(formatter);
                answers = answers.push(answer);
                let up: int = g + 1;
                assert forall|h: int| 0 <= h < up implies #[trigger] decs2[h].len() == listed[h].1.len() by {
                    assert(decided_upto(self.ignore, listed, decs, g as int));
                    if h < g {
                        assert(decs2[h] == decs[h]);
                    }
                }
                assert forall|h: int, j: int| 0 <= h < up && 0 <= j < listed[h].1.len() implies self.ignore.decides(listed[h].1[j].meta, #[trigger] decs2[h][j]) by {
                    assert(decided_upto(self.ignore, listed, decs, g as int));
                    if h < g {
                        assert(decs2[h] == decs[h]);
                        assert(decs2[h][j] == decs[h][j]);
                        assert(self.ignore.decides(listed[h].1[j].meta, decs[h][j]));
                    } else {
                        assert(decs2[h] == cur);
                        assert(listed[h].1 == group_tests@);
                        assert(decs2[h][j] == cur[j]);
                        assert(self.ignore.decides(group_tests@[j].meta, cur[j]));
                    }
                }
                assert(decided_upto(self.ignore, listed, decs2, up));
                ctxs = ctxs2;
                decs = decs2;
            }
            g += 1;
        }

        let end = end_listing_of(&decisions);
        let ghost pre = formatter;
        let res = formatter.fmt_end_listing(end);
        let ghost answer = res;
        let Ghost(last) = record_call(&mut fmt_errors, FormatError::EndListing, res, Ghost(calls));
        proof {
            assert(listed.take(g as int) =~= listed);
            let plan = group_calls(listed, ctxs, decs);
            states = states.push(formatter);
            answers = answers.push(answer);
            let stages = grouped_listing_stages(plan);
            assert(stages_of(last) =~= stages);
            assert(last =~= Seq::new(answers.len(), |j: int| (stages[j], call_outcome(answers[j])))) by {
                assert forall|j: int| 0 <= j < last.len() implies last[j] == (stages[j], call_outcome(answers[j])) by {
                    assert(stages_of(last)[j] == last[j].0);
                }
            }
            assert(end == FmtEndListing { active: count_active(concat_all(decs)) as usize, ignored: (concat_all(decs).len() - count_active(concat_all(decs))) as usize });
            assert(begin == FmtBeginListing { tests: k as usize, filtered: (all.len() - k) as usize });
            assert(k == kept_by(self.filter, self.tests@).len());
            assert(counted == FmtListGroups { groups: listed.len() as usize });
            assert(is_grouped_listing(states, answers, self.ignore, all, k, listed, ctxs, decs));
            if all_ok(answers) {
                lemma_all_ok_no_errors(grouped_listing_stages(plan), answers);
            }
            if Groups::exact() {
                assert(total(listed) == count);
                assert(tests_of(listed) == held);
                assert(pairs_of(listed) == keyed);
            }
            assert(tests_in(tests@) == kept_by(self.filter, self.tests@));
        }
        fmt_errors
    }
}

impl<
    't,
    Extra: 't,
    Function,
    GroupKey: 't,
    GroupCtx: 't,
    Filter: TestFilter<Extra>,
    Grouper: TestGrouper<Extra, GroupKey, GroupCtx>,
    Groups: TestGroups<'t, Extra, Function, GroupKey>,
    Ignore,
    GroupRunner,
    PanicHandler,
    Runner,
    Formatter: GroupedTestFormatter<'t, Extra, GroupKey, GroupCtx>,
> GroupedTestHarness<'t, Extra, Function, GroupKey, GroupCtx, Filter, Grouper, Groups, Ignore, GroupRunner, PanicHandler, Runner, Formatter> {
    /// Start a grouped run: tell the formatter of the full test list, filter, assign each
    /// remaining test to the group of the key the grouper gives it, and tell the formatter
    /// how many tests the groups hold and how many were filtered out. The groups and the strategies are handed back for
    /// executing the groups; then [`finish_grouped_run`] completes the run.
    pub fn start_run(self) -> (r: GroupedRunStart<'t, Extra, Function, GroupKey, Grouper, Ignore, GroupRunner, PanicHandler, Runner, Formatter, <Formatter as TestFormatter<'t, Extra>>::Error>)
        ensures
            r.ignore == self.ignore,
            r.group_runner == self.group_runner,
            r.panic_handler == self.panic_handler,
            r.runner == self.runner,
            r.fmt_errors@.len() <= 2,
            stages_among(r.fmt_errors@, |s: FormatError| grouped_run_start_stage(s)),
            exists|s1: Formatter, a0: Result<(), <Formatter as TestFormatter<'t, Extra>>::Error>, a1: Result<(), <Formatter as TestFormatter<'t, Extra>>::Error>|
                #[trigger] is_grouped_run_start(
                    self.formatter,
                    s1,
                    r.formatter,
                    a0,
                    a1,
                    metas_of(self.tests@),
                    FmtGroupedRunStart {
                        tests: capped(self.groups.test_count() + kept_by(self.filter, self.tests@).len()),
                        filtered: r.filtered,
                    },
                )
                && r.fmt_errors@ == answered_errors(seq![FormatError::RunInit, FormatError::GroupedRunStart], seq![a0, a1]),
            Groups::exact() ==> total(groups_view(r.groups@)) + r.filtered == self.groups.test_count() + self.tests@.len(),
            Groups::exact() ==> tests_of(groups_view(r.groups@)) == self.groups.held().add(kept_by(self.filter, self.tests@).to_multiset()),
            exists|states: Seq<Grouper>, keys: Seq<GroupKey>|
                #[trigger] grouped_as(states, keys, metas_of(kept_by(self.filter, self.tests@)))
                && (states.len() > 0 ==> states[0] == self.grouper)
                && (Groups::exact() ==> pairs_of(groups_view(r.groups@)) == self.groups.keyed().add(
                    keyed_tests(keys, kept_by(self.filter, self.tests@)).to_multiset(),
                )),
            r.filtered == self.tests@.len() - kept_by(self.filter, self.tests@).len(),
    {
        let mut formatter = self.formatter;
        let mut grouper = self.grouper;
        let mut groups = self.groups;
        let mut fmt_errors: Vec<(FormatError, <Formatter as TestFormatter<'t, Extra>>::Error)> = Vec::new();
        let ghost calls0: Seq<(FormatError, Option<<Formatter as TestFormatter<'t, Extra>>::Error>)> = Seq::empty();
        let res = formatter.fmt_run_init(FmtRunInit { tests: self.tests });
        let ghost a0 = res;
        let Ghost(calls) = record_call(&mut fmt_errors, FormatError::RunInit, res, Ghost(calls0));

        let FilteredTests { tests, filtered } = self.filter.filter(self.tests);
        collect_groups(&mut grouper, &mut groups, &tests);
        let ghost s1 = formatter;
        let start = FmtGroupedRunStart { tests: groups.len(), filtered };
        let res = formatter.fmt_grouped_run_start(start);
        let ghost a1 = res;
        let Ghost(calls) = record_call(&mut fmt_errors, FormatError::GroupedRunStart, res, Ghost(calls));
        proof {
            assert(stages_of(calls) =~= seq![FormatError::RunInit, FormatError::GroupedRunStart]);
            assert(calls =~= Seq::new(2, |j: int| (seq![FormatError::RunInit, FormatError::GroupedRunStart][j], call_outcome(seq![a0, a1][j]))));
            assert(fmt_errors@ == answered_errors(seq![FormatError::RunInit, FormatError::GroupedRunStart], seq![a0, a1]));
            lemma_errors_of_bounded(calls);
            lemma_errors_of_stages(calls, |s: FormatError| grouped_run_start_stage(s));
        }
        let ghost count = groups.test_count();
        let ghost held = groups.held();
        let ghost keyed = groups.keyed();

        let r = GroupedRunStart {
            groups: groups.into_groups(),
            filtered,
            grouper,
            ignore: self.ignore,
            group_runner: self.group_runner,
            panic_handler: self.panic_handler,
            runner: self.runner,
            formatter,
            fmt_errors,
        };
        proof {
            assert(start == FmtGroupedRunStart { tests: capped(count), filtered: r.filtered });
            assert(is_grouped_run_start(self.formatter, s1, r.formatter, a0, a1, metas_of(self.tests@), start));
            if Groups::exact() {
                assert(total(groups_view(r.groups@)) == count);
                assert(tests_of(groups_view(r.groups@)) == held);
                assert(pairs_of(groups_view(r.groups@)) == keyed);
            }
            assert(tests_in(tests@) == kept_by(self.filter, self.tests@));
        }
        r
    }
}

/// A count as a `usize`, or `usize::MAX` when it does not fit.
pub open spec fn capped(n: nat) -> usize {
    if n <= usize::MAX {
        n as usize
    } else {
        usize::MAX
    }
}

/// The two calls at the start of a grouped run: the formatter, in the state `s0`, is handed
/// the tests `all`, answers `a0` and is left in the state `s1`; then it is handed `start`,
/// answers `a1` and is left in the state `s2`.
pub open spec fn is_grouped_run_start<'t, Extra: 't, GroupKey: 't, GroupCtx: 't, F: GroupedTestFormatter<'t, Extra, GroupKey, GroupCtx>>(
    s0: F,
    s1: F,
    s2: F,
    a0: Result<(), <F as TestFormatter<'t, Extra>>::Error>,
    a1: Result<(), <F as TestFormatter<'t, Extra>>::Error>,
    all: Seq<TestMeta<Extra>>,
    start: FmtGroupedRunStart,
) -> bool {
    s0.handled_run_init(all, a0, s1) && s1.handled_grouped_run_start(start, a1, s2)
}

/// Complete a grouped run: tell the formatter of all group outcomes, and build the report
/// from them, the duration and the formatter errors of the whole run (the one of this last
/// event included).
pub fn finish_grouped_run<'t, Extra: 't, GroupKey: 't, GroupCtx: 't, Formatter: GroupedTestFormatter<'t, Extra, GroupKey, GroupCtx>>(
    formatter: &mut Formatter,
    outcomes: GroupedTestOutcomes<'t, GroupKey, GroupCtx>,
    duration: std::time::Duration,
    fmt_errors: Vec<(FormatError, <Formatter as TestFormatter<'t, Extra>>::Error)>,
) -> (r: GroupedTestReport<'t, GroupKey, GroupCtx, <Formatter as TestFormatter<'t, Extra>>::Error>)
    ensures
        r.outcomes == outcomes,
        r.duration == duration,
        exists|answer: Result<(), <Formatter as TestFormatter<'t, Extra>>::Error>|
            #[trigger] old(formatter).handled_grouped_run_outcomes(outcomes@, duration, answer, *final(formatter))
            && r.fmt_errors@ == with_answer(fmt_errors@, FormatError::GroupedRunOutcomes, answer),
{
    let mut fmt_errors = fmt_errors;
    let res = formatter.fmt_grouped_run_outcomes(FmtGroupedRunOutcomes { outcomes: &outcomes, duration });
    let ghost answer = res;
    push_on_error(&mut fmt_errors, FormatError::GroupedRunOutcomes, res);
    GroupedTestReport::new(outcomes, duration, fmt_errors)
}

} // verus!
