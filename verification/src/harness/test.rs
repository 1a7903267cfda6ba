//! The harness for runs of individual tests.

use vstd::prelude::*;

use crate::filter::{kept_by, kept_where, FilteredTests, TestFilter};
use crate::formatter::{
    metas_of, FmtBeginListing, FmtEndListing, FmtInitListing, FmtListTest, FmtRunInit, FmtRunOutcomes, FmtRunStart,
    FormatError, TestFormatter, TestListFormatter, TestOutcomes,
};
use crate::group::{SimpleGroupRunner, TestGroupHashMap, TestGrouper};
use crate::harness::grouped_test::GroupedTestHarness;
use crate::harness::{call_outcome, count_active, end_listing_of, errors_of, push_on_error, record_call, repeat_stage, stages_of};
use crate::ignore::{clone_ignore_status, TestIgnore};
use crate::report::TestReport;
use crate::test::{IgnoreStatus, Test, TestMeta};

verus! {

/// A configurable test harness: the full test list and one strategy each for filtering,
/// ignoring, panic handling, running and formatting. It is lazy: nothing happens until it
/// lists or runs.
#[derive(Debug, Clone)]
pub struct TestHarness<'t, Extra, Function, Filter, Ignore, PanicHandler, Runner, Formatter> {
    pub tests: &'t [Test<Extra, Function>],
    pub filter: Filter,
    pub ignore: Ignore,
    pub panic_handler: PanicHandler,
    pub runner: Runner,
    pub formatter: Formatter,
}

/// What a run hands to the code that executes its tests: the tests that passed the filter,
/// how many were filtered out, the strategies, and the formatter errors so far.
#[derive(Debug)]
pub struct RunStart<'t, Extra, Function, Ignore, PanicHandler, Runner, Formatter, FmtError> {
    pub tests: Vec<&'t Test<Extra, Function>>,
    pub filtered: usize,
    pub ignore: Ignore,
    pub panic_handler: PanicHandler,
    pub runner: Runner,
    pub formatter: Formatter,
    pub fmt_errors: Vec<(FormatError, FmtError)>,
}

/// Every error is tagged with one of the given stages.
pub open spec fn stages_among<E>(errors: Seq<(FormatError, E)>, allowed: spec_fn(FormatError) -> bool) -> bool {
    forall|i: int| 0 <= i < errors.len() ==> allowed((#[trigger] errors[i]).0)
}

/// The stages of a listing.
pub open spec fn listing_stage(stage: FormatError) -> bool {
    stage is InitListing || stage is BeginListing || stage is ListTest || stage is EndListing
}

impl<'t, Extra, Function, Filter, Ignore, PanicHandler, Runner, Formatter> TestHarness<
    't,
    Extra,
    Function,
    Filter,
    Ignore,
    PanicHandler,
    Runner,
    Formatter,
> {
    /// Replace the ignore strategy.
    pub fn with_ignore<WithIgnore>(self, ignore: WithIgnore) -> (r: TestHarness<'t, Extra, Function, Filter, WithIgnore, PanicHandler, Runner, Formatter>)
        ensures
            r == (TestHarness {
                tests: self.tests,
                filter: self.filter,
                ignore,
                panic_handler: self.panic_handler,
                runner: self.runner,
                formatter: self.formatter,
            }),
    {
        TestHarness {
            tests: self.tests,
            filter: self.filter,
            ignore,
            panic_handler: self.panic_handler,
            runner: self.runner,
            formatter: self.formatter,
        }
    }

    /// Replace the filter.
    pub fn with_filter<WithFilter>(self, filter: WithFilter) -> (r: TestHarness<'t, Extra, Function, WithFilter, Ignore, PanicHandler, Runner, Formatter>)
        ensures
            r == (TestHarness {
                tests: self.tests,
                filter,
                ignore: self.ignore,
                panic_handler: self.panic_handler,
                runner: self.runner,
                formatter: self.formatter,
            }),
    {
        TestHarness {
            tests: self.tests,
            filter,
            ignore: self.ignore,
            panic_handler: self.panic_handler,
            runner: self.runner,
            formatter: self.formatter,
        }
    }

    /// Replace the panic handler.
    pub fn with_panic_handler<WithPanicHandler>(self, panic_handler: WithPanicHandler) -> (r: TestHarness<'t, Extra, Function, Filter, Ignore, WithPanicHandler, Runner, Formatter>)
        ensures
            r == (TestHarness {
                tests: self.tests,
                filter: self.filter,
                ignore: self.ignore,
                panic_handler,
                runner: self.runner,
                formatter: self.formatter,
            }),
    {
        TestHarness {
            tests: self.tests,
            filter: self.filter,
            ignore: self.ignore,
            panic_handler,
            runner: self.runner,
            formatter: self.formatter,
        }
    }

    /// Replace the runner.
    pub fn with_runner<WithRunner>(self, runner: WithRunner) -> (r: TestHarness<'t, Extra, Function, Filter, Ignore, PanicHandler, WithRunner, Formatter>)
        ensures
            r == (TestHarness {
                tests: self.tests,
                filter: self.filter,
                ignore: self.ignore,
                panic_handler: self.panic_handler,
                runner,
                formatter: self.formatter,
            }),
    {
        TestHarness {
            tests: self.tests,
            filter: self.filter,
            ignore: self.ignore,
            panic_handler: self.panic_handler,
            runner,
            formatter: self.formatter,
        }
    }

    /// Replace the formatter.
    pub fn with_formatter<WithFormatter>(self, formatter: WithFormatter) -> (r: TestHarness<'t, Extra, Function, Filter, Ignore, PanicHandler, Runner, WithFormatter>)
        ensures
            r == (TestHarness {
                tests: self.tests,
                filter: self.filter,
                ignore: self.ignore,
                panic_handler: self.panic_handler,
                runner: self.runner,
                formatter,
            }),
    {
        TestHarness {
            tests: self.tests,
            filter: self.filter,
            ignore: self.ignore,
            panic_handler: self.panic_handler,
            runner: self.runner,
            formatter,
        }
    }

    /// Enable grouping: tests are assigned to groups by `grouper`, collected in a
    /// [`TestGroupHashMap`] and run group by group with a [`SimpleGroupRunner`].
    pub fn with_grouper<WithGrouper, GroupKey, GroupCtx>(self, grouper: WithGrouper) -> (r: GroupedTestHarness<
        't,
        Extra,
        Function,
        GroupKey,
        GroupCtx,
        Filter,
        WithGrouper,
        TestGroupHashMap<'t, Extra, Function, GroupKey>,
        Ignore,
        SimpleGroupRunner,
        PanicHandler,
        Runner,
        Formatter,
    >)
        where WithGrouper: TestGrouper<Extra, GroupKey, GroupCtx>,
        ensures
            r.tests == self.tests,
            r.filter == self.filter,
            r.grouper == grouper,
            r.groups.added_groups().len() == 0,
            r.ignore == self.ignore,
            r.panic_handler == self.panic_handler,
            r.runner == self.runner,
            r.formatter == self.formatter,
    {
        GroupedTestHarness {
            tests: self.tests,
            _group_key: std::marker::PhantomData,
            _group_ctx: std::marker::PhantomData,
            filter: self.filter,
            grouper,
            groups: TestGroupHashMap::new(),
            ignore: self.ignore,
            group_runner: SimpleGroupRunner,
            panic_handler: self.panic_handler,
            runner: self.runner,
            formatter: self.formatter,
        }
    }
}

impl<'t, Extra: 't, Function, Filter: TestFilter<Extra>, Ignore: TestIgnore<Extra>, PanicHandler, Runner, Formatter: TestListFormatter<'t, Extra>> TestHarness<
    't,
    Extra,
    Function,
    Filter,
    Ignore,
    PanicHandler,
    Runner,
    Formatter,
> {
    /// List the tests without running them: the formatter is handed the full list, the
    /// number of tests the filter kept and the number it filtered out, each kept test with
    /// the ignore strategy's decision for it, and the counts of those decisions at the end
    /// (see [`is_listing`]), each call on the formatter as the previous one left it. Listing
    /// goes on after a formatter error; the result is the error of each formatter call that
    /// failed, with its stage, in call order, so none when every call succeeded.
    pub fn list(self) -> (r: Vec<(FormatError, <Formatter as TestListFormatter<'t, Extra>>::Error)>)
        ensures
            exists|states: Seq<Formatter>, answers: Seq<Result<(), <Formatter as TestListFormatter<'t, Extra>>::Error>>, decisions: Seq<IgnoreStatus>|
                #[trigger] is_listing(
                    states,
                    answers,
                    self.ignore,
                    metas_of(self.tests@),
                    metas_of(kept_by(self.filter, self.tests@)),
                    decisions,
                )
                && states[0] == self.formatter
                && r@ == answered_errors(listing_stages(decisions.len()), answers)
                && (all_ok(answers) ==> r@.len() == 0),
            stages_among(r@, |s: FormatError| listing_stage(s)),
            r@.len() <= self.tests@.len() + 3,
    {
        let ghost all = metas_of(self.tests@);
        let mut formatter = self.formatter;
        let mut fmt_errors: Vec<(FormatError, <Formatter as TestListFormatter<'t, Extra>>::Error)> = Vec::new();
        let ghost calls0: Seq<(FormatError, Option<<Formatter as TestListFormatter<'t, Extra>>::Error>)> = Seq::empty();
        let res = formatter.fmt_init_listing(FmtInitListing { tests: self.tests });
        let ghost a0 = res;
        let ghost s1 = formatter;
        let Ghost(calls) = record_call(&mut fmt_errors, FormatError::InitListing, res, Ghost(calls0));

        let FilteredTests { tests, filtered } = self.filter.filter(self.tests);
        let ghost k = tests@.len();
        let ghost kept = metas_of(tests@.map_values(|t: &Test<Extra, Function>| *t));
        proof {
            assert(tests@.map_values(|t: &Test<Extra, Function>| *t).len() == k);
        }
        let begin = FmtBeginListing { tests: tests.len(), filtered };
        let res = formatter.fmt_begin_listing(begin);
        let ghost a1 = res;
        let ghost s2 = formatter;
        let Ghost(calls) = record_call(&mut fmt_errors, FormatError::BeginListing, res, Ghost(calls));

        let mut decisions: Vec<IgnoreStatus> = Vec::new();
        let mut i: usize = 0;
        let ghost mut calls = calls;
        let ghost mut states: Seq<Formatter> = seq![self.formatter, s1, s2];
        let ghost mut answers: Seq<Result<(), <Formatter as TestListFormatter<'t, Extra>>::Error>> = seq![a0, a1];
        while i < tests.len()
            invariant
                i <= tests@.len(),
                k == tests@.len(),
                kept.len() == k,
                forall|j: int| 0 <= j < k ==> #[trigger] kept[j] == tests@[j].meta,
                decisions@.len() == i,
                forall|j: int| 0 <= j < i ==> self.ignore.decides(kept[j], #[trigger] decisions@[j]),
                fmt_errors@ == errors_of(calls),
                stages_of(calls) =~= seq![FormatError::InitListing, FormatError::BeginListing] + repeat_stage(FormatError::ListTest, i as nat),
                calls.len() == answers.len(),
                forall|j: int| 0 <= j < calls.len() ==> #[trigger] calls[j].1 == call_outcome(answers[j]),
                answers.len() == i + 2,
                states.len() == i + 3,
                states[0] == self.formatter,
                states[i + 2] == formatter,
                states[0].handled_init_listing(all, answers[0], states[1]),
                states[1].handled_begin_listing(begin, answers[1], states[2]),
                forall|j: int| #![trigger answers[j]] 2 <= j < i + 2 ==> states[j].handled_list_test(kept[j - 2], decisions@[j - 2], answers[j], states[j + 1]),
            decreases tests.len() - i,
        {
            let test = tests[i];
            let decision = self.ignore.ignore(&test.meta);
            decisions.push(clone_ignore_status(&decision));
            let res = formatter.fmt_list_test(FmtListTest { meta: &test.meta, ignored: decision });
            let ghost answer = res;
            let Ghost(next) = record_call(&mut fmt_errors, FormatError::ListTest, res, Ghost(calls));
            proof {
                assert(stages_of(next) =~= stages_of(calls).push(FormatError::ListTest));
                assert(repeat_stage(FormatError::ListTest, (i + 1) as nat) =~= repeat_stage(FormatError::ListTest, i as nat).push(FormatError::ListTest));
                calls = next;
                states = states.push(formatter);
                answers = answers.push(answer);
                assert(kept[i as int] == tests@[i as int].meta);
            }
            i += 1;
        }

        let end = end_listing_of(&decisions);
        let res = formatter.fmt_end_listing(end);
        let ghost answer = res;
        let Ghost(last) = record_call(&mut fmt_errors, FormatError::EndListing, res, Ghost(calls));
        proof {
            states = states.push(formatter);
            answers = answers.push(answer);
            assert(stages_of(last) =~= listing_stages(k));
            assert(last =~= Seq::new(answers.len(), |j: int| (listing_stages(k)[j], call_outcome(answers[j])))) by {
                assert forall|j: int| 0 <= j < last.len() implies last[j] == (listing_stages(k)[j], call_outcome(answers[j])) by {
                    assert(stages_of(last)[j] == last[j].0);
                }
            }
            assert(kept == metas_of(kept_by(self.filter, self.tests@)));
            assert(end == FmtEndListing { active: count_active(decisions@) as usize, ignored: (k - count_active(decisions@)) as usize });
            assert(begin == FmtBeginListing { tests: k as usize, filtered: (all.len() - k) as usize });
            assert(is_listing(states, answers, self.ignore, all, kept, decisions@));
            if all_ok(answers) {
                lemma_all_ok_no_errors(listing_stages(k), answers);
            }
            lemma_errors_of_bounded(last);
            lemma_errors_of_stages(last, |s: FormatError| listing_stage(s));
        }
        fmt_errors
    }
}

/// The errors of a sequence of formatter calls given by their stages and their answers:
/// `(stage, e)` for each call that answered `Err(e)`, in call order.
pub open spec fn answered_errors<E>(stages: Seq<FormatError>, answers: Seq<Result<(), E>>) -> Seq<(FormatError, E)> {
    errors_of(Seq::new(answers.len(), |i: int| (stages[i], call_outcome(answers[i]))))
}

/// Every formatter call answered `Ok`.
pub open spec fn all_ok<E>(answers: Seq<Result<(), E>>) -> bool {
    forall|j: int| 0 <= j < answers.len() ==> #[trigger] answers[j] is Ok
}

/// Calls that all answered `Ok` leave no errors.
pub proof fn lemma_all_ok_no_errors<E>(stages: Seq<FormatError>, answers: Seq<Result<(), E>>)
    requires
        all_ok(answers),
    ensures
        answered_errors(stages, answers).len() == 0,
    decreases answers.len(),
{
    let calls = Seq::new(answers.len(), |i: int| (stages[i], call_outcome(answers[i])));
    if answers.len() > 0 {
        let rest = answers.drop_last();
        assert(all_ok(rest)) by {
            assert forall|j: int| 0 <= j < rest.len() implies #[trigger] rest[j] is Ok by {
                assert(rest[j] == answers[j]);
            }
        }
        lemma_all_ok_no_errors(stages, rest);
        assert(calls.drop_last() =~= Seq::new(rest.len(), |i: int| (stages[i], call_outcome(rest[i]))));
        assert(answers[answers.len() - 1] is Ok);
    }
}

/// The calls of a listing of the tests `all` of which the filter kept `kept`: call `i` is
/// made on the formatter in the state `states[i]`, answers `answers[i]` and leaves it in the
/// state `states[i + 1]`. The first is handed all tests; the second the number of kept tests
/// and the number filtered out; then one per kept test, in order, with the decision
/// `decisions[j]` that `ignore` gives for it; and the last the number of those decisions
/// that let a test run and the number of the others.
pub open spec fn is_listing<'t, Extra: 't, F: TestListFormatter<'t, Extra>, I: TestIgnore<Extra>>(
    states: Seq<F>,
    answers: Seq<Result<(), F::Error>>,
    ignore: I,
    all: Seq<TestMeta<Extra>>,
    kept: Seq<TestMeta<Extra>>,
    decisions: Seq<IgnoreStatus>,
) -> bool {
    let n = kept.len() as int;
    &&& states.len() == n + 4
    &&& answers.len() == n + 3
    &&& decisions.len() == n
    &&& forall|j: int| 0 <= j < n ==> ignore.decides(kept[j], #[trigger] decisions[j])
    &&& states[0].handled_init_listing(all, answers[0], states[1])
    &&& states[1].handled_begin_listing(FmtBeginListing { tests: n as usize, filtered: (all.len() - n) as usize }, answers[1], states[2])
    &&& forall|j: int| #![trigger answers[j]] 2 <= j < n + 2 ==> states[j].handled_list_test(kept[j - 2], decisions[j - 2], answers[j], states[j + 1])
    &&& states[n + 2].handled_end_listing(
        FmtEndListing { active: count_active(decisions) as usize, ignored: (n - count_active(decisions)) as usize },
        answers[n + 2],
        states[n + 3],
    )
}

/// The stages of the calls of a listing of `kept` tests: the full list, the filtered list,
/// one per listed test, and the end.
pub open spec fn listing_stages(kept: nat) -> Seq<FormatError> {
    seq![FormatError::InitListing, FormatError::BeginListing] + repeat_stage(FormatError::ListTest, kept) + seq![FormatError::EndListing]
}

/// There are at most as many errors as calls.
pub proof fn lemma_errors_of_bounded<E>(calls: Seq<(FormatError, Option<E>)>)
    ensures
        errors_of(calls).len() <= calls.len(),
    decreases calls.len(),
{
    if calls.len() > 0 {
        lemma_errors_of_bounded(calls.drop_last());
    }
}

/// Every error carries the stage of one of the calls.
pub proof fn lemma_errors_of_stages<E>(calls: Seq<(FormatError, Option<E>)>, allowed: spec_fn(FormatError) -> bool)
    requires
        forall|i: int| 0 <= i < calls.len() ==> allowed(#[trigger] stages_of(calls)[i]),
    ensures
        stages_among(errors_of(calls), allowed),
    decreases calls.len(),
{
    if calls.len() > 0 {
        let rest = calls.drop_last();
        assert forall|i: int| 0 <= i < rest.len() implies allowed(#[trigger] stages_of(rest)[i]) by {
            assert(stages_of(rest)[i] == stages_of(calls)[i]);
        }
        lemma_errors_of_stages(rest, allowed);
        assert(allowed(stages_of(calls)[calls.len() - 1]));
    }
}

/// The stages at the start of a run.
pub open spec fn run_start_stage(stage: FormatError) -> bool {
    stage is RunInit || stage is RunStart
}

impl<'t, Extra: 't, Function, Filter: TestFilter<Extra>, Ignore, PanicHandler, Runner, Formatter: TestFormatter<'t, Extra>> TestHarness<
    't,
    Extra,
    Function,
    Filter,
    Ignore,
    PanicHandler,
    Runner,
    Formatter,
> {
    /// Start a run: tell the formatter of the full test list, filter, and tell it how many
    /// tests take part and how many were filtered out. The tests to run and the strategies
    /// are handed back for executing the tests; then [`finish_run`] completes the run.
    pub fn start_run(self) -> (r: RunStart<'t, Extra, Function, Ignore, PanicHandler, Runner, Formatter, <Formatter as TestFormatter<'t, Extra>>::Error>)
        ensures
            r.tests@.map_values(|t: &Test<Extra, Function>| *t) == kept_where(self.tests@, |m: TestMeta<Extra>| self.filter.keeps_meta(m)),
            r.tests@.len() + r.filtered == self.tests@.len(),
            exists|s1: Formatter, a0: Result<(), <Formatter as TestFormatter<'t, Extra>>::Error>, a1: Result<(), <Formatter as TestFormatter<'t, Extra>>::Error>|
                #[trigger] is_run_start(self.formatter, s1, r.formatter, a0, a1, metas_of(self.tests@), FmtRunStart { active: r.tests@.len() as usize, filtered: r.filtered })
                && r.fmt_errors@ == answered_errors(seq![FormatError::RunInit, FormatError::RunStart], seq![a0, a1]),
            r.ignore == self.ignore,
            r.panic_handler == self.panic_handler,
            r.runner == self.runner,
            r.fmt_errors@.len() <= 2,
            stages_among(r.fmt_errors@, |s: FormatError| run_start_stage(s)),
    {
        let mut formatter = self.formatter;
        let mut fmt_errors: Vec<(FormatError, <Formatter as TestFormatter<'t, Extra>>::Error)> = Vec::new();
        let ghost calls0: Seq<(FormatError, Option<<Formatter as TestFormatter<'t, Extra>>::Error>)> = Seq::empty();
        let res = formatter.fmt_run_init(FmtRunInit { tests: self.tests });
        let ghost a0 = res;
        let Ghost(calls) = record_call(&mut fmt_errors, FormatError::RunInit, res, Ghost(calls0));

        let FilteredTests { tests, filtered } = self.filter.filter(self.tests);
        let ghost s1 = formatter;
        let start = FmtRunStart { active: tests.len(), filtered };
        let res = formatter.fmt_run_start(start);
        let ghost a1 = res;
        let Ghost(calls) = record_call(&mut fmt_errors, FormatError::RunStart, res, Ghost(calls));
        proof {
            assert(stages_of(calls) =~= seq![FormatError::RunInit, FormatError::RunStart]);
            assert(calls =~= Seq::new(2, |j: int| (seq![FormatError::RunInit, FormatError::RunStart][j], call_outcome(seq![a0, a1][j]))));
            assert(start == FmtRunStart { active: tests@.len() as usize, filtered });
            assert(fmt_errors@ == answered_errors(seq![FormatError::RunInit, FormatError::RunStart], seq![a0, a1]));
            lemma_errors_of_bounded(calls);
            lemma_errors_of_stages(calls, |s: FormatError| run_start_stage(s));
        }

        let r = RunStart {
            tests,
            filtered,
            ignore: self.ignore,
            panic_handler: self.panic_handler,
            runner: self.runner,
            formatter,
            fmt_errors,
        };
        proof {
            assert(is_run_start(self.formatter, s1, r.formatter, a0, a1, metas_of(self.tests@), FmtRunStart { active: r.tests@.len() as usize, filtered: r.filtered }));
        }
        r
    }
}

/// The two calls at the start of a run: the formatter, in the state `s0`, is handed the
/// tests `all`, answers `a0` and is left in the state `s1`; then it is handed `start`,
/// answers `a1` and is left in the state `s2`.
pub open spec fn is_run_start<'t, Extra: 't, F: TestFormatter<'t, Extra>>(
    s0: F,
    s1: F,
    s2: F,
    a0: Result<(), F::Error>,
    a1: Result<(), F::Error>,
    all: Seq<TestMeta<Extra>>,
    start: FmtRunStart,
) -> bool {
    s0.handled_run_init(all, a0, s1) && s1.handled_run_start(start, a1, s2)
}

/// The errors of a run's last call added to those before it: unchanged when it answered
/// `Ok`, else its error with the stage `stage` at the end.
pub open spec fn with_answer<E>(errors: Seq<(FormatError, E)>, stage: FormatError, answer: Result<(), E>) -> Seq<(FormatError, E)> {
    match answer {
        Ok(_) => errors,
        Err(e) => errors.push((stage, e)),
    }
}

/// Complete a run: tell the formatter of all outcomes, and build the report from the
/// outcomes, the duration and the formatter errors of the whole run (the one of this last
/// event included).
pub fn finish_run<'t, Extra: 't, Formatter: TestFormatter<'t, Extra>>(
    formatter: &mut Formatter,
    outcomes: TestOutcomes<'t>,
    filtered: usize,
    duration: std::time::Duration,
    fmt_errors: Vec<(FormatError, <Formatter as TestFormatter<'t, Extra>>::Error)>,
) -> (r: TestReport<'t, <Formatter as TestFormatter<'t, Extra>>::Error>)
    ensures
        r.outcomes == outcomes,
        r.duration == duration,
        exists|answer: Result<(), <Formatter as TestFormatter<'t, Extra>>::Error>|
            #[trigger] old(formatter).handled_run_outcomes(outcomes@, filtered, duration, answer, *final(formatter))
            && r.fmt_errors@ == with_answer(fmt_errors@, FormatError::RunOutcomes, answer),
{
    let mut fmt_errors = fmt_errors;
    let res = formatter.fmt_run_outcomes(FmtRunOutcomes { outcomes: &outcomes, filtered_out: filtered, duration });
    let ghost answer = res;
    push_on_error(&mut fmt_errors, FormatError::RunOutcomes, res);
    TestReport::new(outcomes, duration, fmt_errors)
}

} // verus!
