//! A human friendly formatter that behaves like the built in Rust test harness.

use vstd::prelude::*;
use vstd::std_specs::convert::FromSpecImpl;

use crate::capture::OutputCapture;
use crate::formatter::common::color::{ColorSetting, SupportsColor, TextTarget, CYAN, GREEN, RED, RESET, YELLOW};
use crate::formatter::common::fto::{self, Failure, GroupStart, GroupedRunOutcomes, RunOutcomes, TestCount, TestName, Tests};
use crate::formatter::common::label::{FromGroupCtx, FromGroupKey, GroupLabel, GroupLabeler};
use crate::formatter::common::{push_number, push_text, stdout, u, CommonFormatter};
use crate::formatter::{
    FmtBeginListing, FmtEndListing, FmtGroupStart, FmtGroupedRunOutcomes, FmtGroupedRunStart,
    FmtInitListing, FmtListTest, FmtRunInit, FmtRunOutcomes, FmtRunStart, FmtTestOutcome,
    GroupedTestFormatter, TestFormatter, TestListFormatter, TestOutcomes,
};
use crate::outcome::{clone_status, TestFailure, TestOutcome, TestStatus};
use crate::test::{IgnoreStatus, PanicExpectation, TestMeta};
use crate::text::decimal;

verus! {

/// A formatter that prints one status line per test and a final summary, like the built in
/// harness. It writes to a target `W`; `L` says how group labels are derived.
#[derive(Debug)]
pub struct PrettyFormatter<'t, W, L, Extra> {
    common: CommonFormatter<'t, W, L, Extra>,
}

/// The word for a status in a pretty status line, colored when asked.
pub open spec fn status_word(status: TestStatus, use_color: bool) -> Seq<u8> {
    match status {
        TestStatus::Passed => if use_color {
            u(GREEN@) + u("ok"@) + u(RESET@)
        } else {
            u("ok"@)
        },
        TestStatus::Ignored { reason: Some(reason) } => if use_color {
            u(YELLOW@) + u("ignored, "@) + u(reason@) + u(RESET@)
        } else {
            u("ignored, "@) + u(reason@)
        },
        TestStatus::Ignored { reason: None } => if use_color {
            u(YELLOW@) + u("ignored"@) + u(RESET@)
        } else {
            u("ignored"@)
        },
        TestStatus::TimedOut => if use_color {
            u(RED@) + u("timed out"@) + u(RESET@)
        } else {
            u("timed out"@)
        },
        TestStatus::Failed(_) => if use_color {
            u(RED@) + u("FAILED"@) + u(RESET@)
        } else {
            u("FAILED"@)
        },
        TestStatus::Other(_) => if use_color {
            u(CYAN@) + u("other"@) + u(RESET@)
        } else {
            u("other"@)
        },
    }
}

/// The status line of a finished test: `test NAME[ - should panic] ... STATUS`.
pub open spec fn pretty_outcome_line(name: Seq<char>, should_panic: PanicExpectation, status: TestStatus, use_color: bool) -> Seq<u8> {
    u("test "@) + u(name) + (if should_panic is ShouldNotPanic {
        Seq::empty()
    } else {
        u(" - should panic"@)
    }) + u(" ... "@) + status_word(status, use_color) + u("\n"@)
}

/// A test expected to panic, with or without an expected message, is shown with
/// ` - should panic` right after its name; only a test expected not to panic goes without.
pub proof fn law_should_panic_is_shown(name: Seq<char>, should_panic: PanicExpectation, status: TestStatus, use_color: bool)
    ensures
        !(should_panic is ShouldNotPanic) ==> exists|rest: Seq<u8>|
            pretty_outcome_line(name, should_panic, status, use_color) == #[trigger] (u("test "@) + u(name) + u(" - should panic"@) + u(" ... "@) + rest),
        should_panic is ShouldNotPanic ==> exists|rest: Seq<u8>|
            pretty_outcome_line(name, should_panic, status, use_color) == #[trigger] (u("test "@) + u(name) + u(" ... "@) + rest),
{
    let rest = status_word(status, use_color) + u("\n"@);
    if should_panic is ShouldNotPanic {
        assert(pretty_outcome_line(name, should_panic, status, use_color) =~= u("test "@) + u(name) + u(" ... "@) + rest);
    } else {
        assert(pretty_outcome_line(name, should_panic, status, use_color) =~= u("test "@) + u(name) + u(" - should panic"@) + u(" ... "@) + rest);
    }
}

/// The line listing a test: `NAME: test`.
pub open spec fn list_line(name: Seq<char>) -> Seq<u8> {
    u(name) + u(": test\n"@)
}

/// The closing line of a listing: `1 test` or `N tests`, after an empty line.
pub open spec fn list_count_bytes(count: usize) -> Seq<u8> {
    if count == 1 {
        u("\n1 test\n"@)
    } else {
        u("\n"@) + u(decimal(count as nat)) + u(" tests\n"@)
    }
}

/// `after` is `before` followed by the report of a run with these outcomes: the failure
/// report of `failures` (the failures of the outcomes, in order), the verdict colored as
/// `color` (which agrees with `setting`), and the counts line with `duration` seconds.
pub open spec fn is_run_report<'t, Extra>(
    after: Seq<u8>,
    before: Seq<u8>,
    outcomes: Seq<(&'t str, crate::outcome::TestOutcome)>,
    filtered_out: usize,
    known: Seq<&'t TestMeta<Extra>>,
    setting: ColorSetting,
    failures: Seq<Failure<'t>>,
    color: bool,
    duration: Seq<char>,
) -> bool {
    &&& failures.map_values(|f: Failure<'t>| fto::failure_view(f)) == fto::failures_of(outcomes, None)
    &&& crate::formatter::common::is_plain_report(
        after,
        before,
        failures,
        fto::count_where(outcomes, fto::passed_pred()) as usize,
        fto::count_where(outcomes, fto::failed_pred()) as usize,
        fto::count_where(outcomes, fto::ignored_pred()) as usize,
        filtered_out,
        known,
        setting,
        color,
        duration,
    )
}

/// `after` is `before` followed by the report of a grouped run with these group outcomes:
/// the failure report of `failures` (the failures of all groups, in order), the verdict
/// colored as `color` (which agrees with `setting`), and the counts line with `duration`
/// seconds across all groups. The counts are those of the outcomes whenever their total fits
/// in `usize`.
pub open spec fn is_grouped_run_report<'t, Extra, GroupKey, GroupCtx>(
    after: Seq<u8>,
    before: Seq<u8>,
    outcomes: Seq<(GroupKey, crate::formatter::TestOutcomes<'t>, Option<GroupCtx>)>,
    known: Seq<&'t TestMeta<Extra>>,
    setting: ColorSetting,
    failures: Seq<Failure<'t>>,
    counts: (usize, usize, usize),
    color: bool,
    duration: Seq<char>,
) -> bool {
    &&& failures.map_values(|f: Failure<'t>| fto::failure_core(fto::failure_view(f))) == fto::grouped_failures(outcomes)
    &&& fto::grouped_total(outcomes) <= usize::MAX ==> {
        &&& counts.0 == fto::grouped_count(outcomes, fto::passed_pred())
        &&& counts.1 == fto::grouped_count(outcomes, fto::failed_pred())
        &&& counts.2 == fto::grouped_count(outcomes, fto::ignored_pred())
    }
    &&& crate::formatter::common::is_grouped_report(
        after,
        before,
        failures,
        counts.0,
        counts.1,
        counts.2,
        0,
        outcomes.len() as usize,
        known,
        setting,
        color,
        duration,
    )
}

/// Render the status line of a finished test.
pub fn render_outcome_line(name: &str, should_panic: &PanicExpectation, status: &TestStatus, use_color: bool) -> (r: Vec<u8>)
    ensures
        r@ == pretty_outcome_line(name@, *should_panic, *status, use_color),
{
    let mut out: Vec<u8> = Vec::new();
    push_text(&mut out, "test ");
    push_text(&mut out, name);
    match should_panic {
        PanicExpectation::ShouldNotPanic => {},
        _ => push_text(&mut out, " - should panic"),
    }
    push_text(&mut out, " ... ");
    let ghost head = out@;
    match status {
        TestStatus::Passed => {
            if use_color {
                push_text(&mut out, GREEN);
                push_text(&mut out, "ok");
                push_text(&mut out, RESET);
            } else {
                push_text(&mut out, "ok");
            }
        },
        TestStatus::Ignored { reason: Some(reason) } => {
            if use_color {
                push_text(&mut out, YELLOW);
                push_text(&mut out, "ignored, ");
                push_text(&mut out, reason.as_str());
                push_text(&mut out, RESET);
            } else {
                push_text(&mut out, "ignored, ");
                push_text(&mut out, reason.as_str());
            }
        },
        TestStatus::Ignored { reason: None } => {
            if use_color {
                push_text(&mut out, YELLOW);
                push_text(&mut out, "ignored");
                push_text(&mut out, RESET);
            } else {
                push_text(&mut out, "ignored");
            }
        },
        TestStatus::TimedOut => {
            if use_color {
                push_text(&mut out, RED);
                push_text(&mut out, "timed out");
                push_text(&mut out, RESET);
            } else {
                push_text(&mut out, "timed out");
            }
        },
        TestStatus::Failed(_) => {
            if use_color {
                push_text(&mut out, RED);
                push_text(&mut out, "FAILED");
                push_text(&mut out, RESET);
            } else {
                push_text(&mut out, "FAILED");
            }
        },
        TestStatus::Other(_) => {
            if use_color {
                push_text(&mut out, CYAN);
                push_text(&mut out, "other");
                push_text(&mut out, RESET);
            } else {
                push_text(&mut out, "other");
            }
        },
    }
    let ghost word = out@.subrange(head.len() as int, out@.len() as int);
    assert(word =~= status_word(*status, use_color));
    assert(out@ =~= head + word);
    push_text(&mut out, "\n");
    assert(out@ =~= pretty_outcome_line(name@, *should_panic, *status, use_color));
    out
}

impl<'t, Extra> PrettyFormatter<'t, std::io::Stdout, GroupLabel<FromGroupKey>, Extra> {
    /// A pretty formatter that writes to stdout, colors automatically and labels groups by
    /// their key.
    pub fn new() -> (r: Self)
        ensures
            r.color_setting() is Automatic,
            r.known_tests().len() == 0,
    {
        PrettyFormatter {
            common: CommonFormatter {
                target: stdout(),
                color_setting: ColorSetting::Automatic,
                tests: Vec::new(),
                distinct_tests: 0,
                _label_marker: std::marker::PhantomData,
            },
        }
    }
}

impl<'t, Extra> Default for PrettyFormatter<'t, std::io::Stdout, GroupLabel<FromGroupKey>, Extra> {
    fn default() -> (r: Self)
        ensures
            r.color_setting() is Automatic,
            r.known_tests().len() == 0,
    {
        Self::new()
    }
}

impl<'t, W, L, Extra> PrettyFormatter<'t, W, L, Extra> {
    /// The output target.
    pub closed spec fn target(&self) -> W {
        self.common.target
    }

    /// The color setting.
    pub closed spec fn color_setting(&self) -> ColorSetting {
        self.common.color_setting
    }

    /// The tests the run started with, for failure notes.
    pub closed spec fn known_tests(&self) -> Seq<&'t TestMeta<Extra>> {
        self.common.tests@
    }

    /// Give up the formatter and hand back its output target.
    pub fn into_target(self) -> (r: W)
        ensures
            r == self.target(),
    {
        self.common.target
    }

    /// Replace the output target.
    pub fn with_target<WithTarget>(self, target: WithTarget) -> (r: PrettyFormatter<'t, WithTarget, L, Extra>)
        ensures
            r.target() == target,
            r.color_setting() == self.color_setting(),
            r.known_tests() == self.known_tests(),
    {
        PrettyFormatter {
            common: CommonFormatter {
                target,
                color_setting: self.common.color_setting,
                tests: self.common.tests,
                distinct_tests: self.common.distinct_tests,
                _label_marker: std::marker::PhantomData,
            },
        }
    }

    /// Replace the color setting.
    pub fn with_color_setting(self, color_setting: ColorSetting) -> (r: Self)
        ensures
            r.target() == self.target(),
            r.color_setting() == color_setting,
            r.known_tests() == self.known_tests(),
    {
        PrettyFormatter { common: CommonFormatter { color_setting, ..self.common } }
    }

    /// Label groups by their key.
    pub fn with_group_label_from_key(self) -> (r: PrettyFormatter<'t, W, GroupLabel<FromGroupKey>, Extra>)
        ensures
            r.target() == self.target(),
            r.color_setting() == self.color_setting(),
            r.known_tests() == self.known_tests(),
    {
        PrettyFormatter {
            common: CommonFormatter {
                target: self.common.target,
                color_setting: self.common.color_setting,
                tests: self.common.tests,
                distinct_tests: self.common.distinct_tests,
                _label_marker: std::marker::PhantomData,
            },
        }
    }

    /// Label groups by their context.
    pub fn with_group_label_from_ctx(self) -> (r: PrettyFormatter<'t, W, GroupLabel<FromGroupCtx>, Extra>)
        ensures
            r.target() == self.target(),
            r.color_setting() == self.color_setting(),
            r.known_tests() == self.known_tests(),
    {
        PrettyFormatter {
            common: CommonFormatter {
                target: self.common.target,
                color_setting: self.common.color_setting,
                tests: self.common.tests,
                distinct_tests: self.common.distinct_tests,
                _label_marker: std::marker::PhantomData,
            },
        }
    }

    /// Whether this formatter currently emits colored output.
    pub fn use_color(&self) -> (r: bool)
        where W: SupportsColor,
        ensures
            self.color_setting() is Always ==> r,
            self.color_setting() is Never ==> !r,
            W::color_known() ==> r == crate::formatter::common::colors(self.color_setting(), self.target().color_supported()),
    {
        self.common.use_color()
    }
}

/// What the pretty formatter keeps of a finished test.
#[derive(Debug, Clone, PartialEq, Eq)]
#[non_exhaustive]
pub struct PrettyTestOutcome<'t> {
    pub name: &'t str,
    pub status: TestStatus,
    pub should_panic: PanicExpectation,
}

fn clone_expectation(e: &PanicExpectation) -> (r: PanicExpectation)
    ensures
        r == *e,
{
    match e {
        PanicExpectation::ShouldNotPanic => PanicExpectation::ShouldNotPanic,
        PanicExpectation::ShouldPanic => PanicExpectation::ShouldPanic,
        PanicExpectation::ShouldPanicWithExpected(s) => PanicExpectation::ShouldPanicWithExpected(s.clone()),
    }
}

impl<'t, 'o, Extra> From<FmtTestOutcome<'t, 'o, Extra>> for PrettyTestOutcome<'t> {
    fn from(value: FmtTestOutcome<'t, 'o, Extra>) -> (r: Self)
        ensures
            r.name@ == value.meta.name@,
            r.status == value.outcome.status,
            r.should_panic == value.meta.should_panic,
    {
        PrettyTestOutcome {
            name: value.meta.name.as_str(),
            status: clone_status(&value.outcome.status),
            should_panic: clone_expectation(&value.meta.should_panic),
        }
    }
}

impl<'t, 'o, Extra> FromSpecImpl<FmtTestOutcome<'t, 'o, Extra>> for PrettyTestOutcome<'t> {
    open spec fn obeys_from_spec() -> bool {
        false
    }

    open spec fn from_spec(v: FmtTestOutcome<'t, 'o, Extra>) -> Self {
        arbitrary()
    }
}

/// One failed test, as the pretty formatter reports it.
#[derive(Debug, Clone)]
#[non_exhaustive]
pub struct PrettyFailure<'t> {
    pub name: &'t str,
    pub failure: TestFailure,
    pub output: OutputCapture,
}

/// Summary counts and failures of a run, as the pretty formatter keeps them.
#[derive(Debug, Clone)]
#[non_exhaustive]
pub struct PrettyRunOutcomes<'t> {
    pub passed: usize,
    pub failed: usize,
    pub ignored: usize,
    pub filtered_out: usize,
    pub duration: std::time::Duration,
    pub failures: Vec<PrettyFailure<'t>>,
}

impl<'t, 'o> From<FmtRunOutcomes<'t, 'o>> for PrettyRunOutcomes<'t> {
    /// The counts and failures of `fto::RunOutcomes`, without group labels.
    fn from(value: FmtRunOutcomes<'t, 'o>) -> (r: Self)
        ensures
            r.passed == fto::count_where(value.outcomes@, fto::passed_pred()),
            r.failed == fto::count_where(value.outcomes@, fto::failed_pred()),
            r.ignored == fto::count_where(value.outcomes@, fto::ignored_pred()),
            r.filtered_out == value.filtered_out,
            r.duration == value.duration,
            r.failures@.len() == fto::failures_of(value.outcomes@, None).len(),
            forall|i: int| 0 <= i < r.failures@.len() ==> {
                let f = #[trigger] r.failures@[i];
                (None::<Seq<char>>, f.name@, f.failure, f.output.chunks()) == fto::failures_of(value.outcomes@, None)[i]
            },
    {
        let common = RunOutcomes::from(value);
        let mut failures: Vec<PrettyFailure<'t>> = Vec::new();
        let mut i: usize = 0;
        while i < common.failures.len()
            invariant
                i <= common.failures@.len(),
                failures@.len() == i,
                common.failures@.map_values(|f: Failure<'t>| fto::failure_view(f)) == fto::failures_of(value.outcomes@, None),
                forall|k: int| 0 <= k < i ==> {
                    let f = #[trigger] failures@[k];
                    (None::<Seq<char>>, f.name@, f.failure, f.output.chunks()) == fto::failures_of(value.outcomes@, None)[k]
                },
            decreases common.failures.len() - i,
        {
            let f = &common.failures[i];
            proof {
                assert(common.failures@.map_values(|f: Failure<'t>| fto::failure_view(f))[i as int] == fto::failure_view(common.failures@[i as int]));
            }
            let p = PrettyFailure {
                name: f.name,
                failure: crate::outcome::clone_failure(&f.failure),
                output: f.output.clone(),
            };
            proof {
                fto::lemma_failures_of_group(value.outcomes@, None, i as int);
                assert((None::<Seq<char>>, p.name@, p.failure, p.output.chunks()) == fto::failures_of(value.outcomes@, None)[i as int]);
            }
            failures.push(p);
            i += 1;
        }
        PrettyRunOutcomes {
            passed: common.passed,
            failed: common.failed,
            ignored: common.ignored,
            filtered_out: common.filtered_out,
            duration: common.duration,
            failures,
        }
    }
}

impl<'t, 'o> FromSpecImpl<FmtRunOutcomes<'t, 'o>> for PrettyRunOutcomes<'t> {
    open spec fn obeys_from_spec() -> bool {
        false
    }

    open spec fn from_spec(v: FmtRunOutcomes<'t, 'o>) -> Self {
        arbitrary()
    }
}

impl<'t, W: TextTarget + SupportsColor, L, Extra: 't> PrettyFormatter<'t, W, L, Extra> {
    /// Write `running N tests` for the tests of a grouped run.
    pub fn report_grouped_run_start(&mut self, data: TestCount) -> (r: Result<(), std::io::Error>)
        ensures
            W::tracks_writes() ==> r is Ok && final(self).target().written() == old(self).target().written()
                + crate::formatter::common::run_start_bytes(data.0),
            final(self).known_tests() == old(self).known_tests(),
            final(self).color_setting() == old(self).color_setting(),
    {
        self.common.fmt_run_start(data.0)
    }

    /// Write the header of a group: its label (or `default`) and its size.
    pub fn report_group_start(&mut self, data: GroupStart<L>) -> (r: Result<(), std::io::Error>)
        ensures
            W::tracks_writes() ==> r is Ok && final(self).target().written() == old(self).target().written()
                + crate::formatter::common::group_start_bytes(data.name@, data.tests),
            final(self).known_tests() == old(self).known_tests(),
            final(self).color_setting() == old(self).color_setting(),
    {
        self.common.fmt_group_start(data)
    }

    /// Write the failure report, the verdict and the counts of a grouped run.
    pub fn report_grouped_run_outcomes(&mut self, data: GroupedRunOutcomes<'t, L>) -> (r: Result<(), std::io::Error>)
        ensures
            W::tracks_writes() ==> r is Ok && exists|color: bool, duration: Seq<char>| #[trigger] crate::formatter::common::is_grouped_report(
                final(self).target().written(),
                old(self).target().written(),
                data.failures@,
                data.passed,
                data.failed,
                data.ignored,
                data.filtered_out,
                data.groups,
                old(self).known_tests(),
                old(self).color_setting(),
                color,
                duration,
            ),
            final(self).known_tests() == old(self).known_tests(),
            final(self).color_setting() == old(self).color_setting(),
    {
        let ghost d = data;
        let r = self.common.fmt_grouped_run_outcomes(data);
        proof {
            if W::tracks_writes() && r is Ok {
                let (color, duration) = choose|color: bool, duration: Seq<char>| #[trigger] crate::formatter::common::is_grouped_report(
                    self.common.target.written(),
                    old(self).common.target.written(),
                    d.failures@,
                    d.passed,
                    d.failed,
                    d.ignored,
                    d.filtered_out,
                    d.groups,
                    old(self).common.tests@,
                    old(self).common.color_setting,
                    color,
                    duration,
                );
                assert(crate::formatter::common::is_grouped_report(
                    self.target().written(),
                    old(self).target().written(),
                    d.failures@,
                    d.passed,
                    d.failed,
                    d.ignored,
                    d.filtered_out,
                    d.groups,
                    old(self).known_tests(),
                    old(self).color_setting(),
                    color,
                    duration,
                ));
            }
        }
        r
    }
}

impl<'t, W: TextTarget + SupportsColor, L, Extra: 't> TestFormatter<'t, Extra> for PrettyFormatter<'t, W, L, Extra> {
    type Error = std::io::Error;

    open spec fn handled_run_init(&self, tests: Seq<TestMeta<Extra>>, r: Result<(), std::io::Error>, after: Self) -> bool {
        &&& r is Ok
        &&& after.known_tests().len() == tests.len()
        &&& forall|i: int| 0 <= i < tests.len() ==> *#[trigger] after.known_tests()[i] == tests[i]
        &&& after.target() == self.target()
        &&& after.color_setting() == self.color_setting()
    }

    open spec fn handled_run_start(&self, data: FmtRunStart, r: Result<(), std::io::Error>, after: Self) -> bool {
        &&& W::tracks_writes() ==> r is Ok && after.target().written() == self.target().written()
            + crate::formatter::common::run_start_bytes(data.active)
        &&& after.known_tests() == self.known_tests()
        &&& after.color_setting() == self.color_setting()
    }

    open spec fn handled_run_outcomes(
        &self,
        outcomes: Seq<(&'t str, TestOutcome)>,
        filtered_out: usize,
        duration: std::time::Duration,
        r: Result<(), std::io::Error>,
        after: Self,
    ) -> bool {
        &&& W::tracks_writes() ==> r is Ok && exists|failures: Seq<crate::formatter::common::fto::Failure<'t>>, color: bool, text: Seq<char>|
            #[trigger] crate::formatter::pretty::is_run_report(
                after.target().written(),
                self.target().written(),
                outcomes,
                filtered_out,
                self.known_tests(),
                self.color_setting(),
                failures,
                color,
                text,
            )
        &&& after.known_tests() == self.known_tests()
        &&& after.color_setting() == self.color_setting()
    }

    /// Remember the tests of the run.
    fn fmt_run_init<Function>(&mut self, data: FmtRunInit<'t, Extra, Function>) -> (r: Result<(), Self::Error>)
        ensures
            r is Ok,
            final(self).known_tests().len() == data.tests@.len(),
            forall|i: int| 0 <= i < data.tests@.len() ==> *#[trigger] final(self).known_tests()[i] == data.tests@[i].meta,
            final(self).target() == old(self).target(),
            final(self).color_setting() == old(self).color_setting(),
    {
        let tests = Tests::from(data);
        self.common.fmt_run_init(tests.0);
        Ok(())
    }

    /// Write `running N tests`.
    fn fmt_run_start(&mut self, data: FmtRunStart) -> (r: Result<(), Self::Error>)
        ensures
            W::tracks_writes() ==> r is Ok && final(self).target().written() == old(self).target().written()
                + crate::formatter::common::run_start_bytes(data.active),
            final(self).known_tests() == old(self).known_tests(),
            final(self).color_setting() == old(self).color_setting(),
    {
        let count = TestCount::from(data);
        self.common.fmt_run_start(count.0)
    }

    /// Write the status line of the finished test.
    fn fmt_test_outcome<'o>(&mut self, data: FmtTestOutcome<'t, 'o, Extra>) -> (r: Result<(), Self::Error>)
        ensures
            W::tracks_writes() ==> r is Ok && exists|color: bool|
                (old(self).color_setting() is Always ==> color) && (old(self).color_setting() is Never ==> !color)
                && #[trigger] final(self).target().written() == old(self).target().written()
                + pretty_outcome_line(data.meta.name@, data.meta.should_panic, data.outcome.status, color),
            final(self).known_tests() == old(self).known_tests(),
            final(self).color_setting() == old(self).color_setting(),
    {
        let color = self.use_color();
        let line = render_outcome_line(data.meta.name.as_str(), &data.meta.should_panic, &data.outcome.status, color);
        self.common.target.write_bytes(line.as_slice())
    }

    /// Write the failure report and the summary.
    fn fmt_run_outcomes<'o>(&mut self, data: FmtRunOutcomes<'t, 'o>) -> (r: Result<(), Self::Error>)
        ensures
            W::tracks_writes() ==> r is Ok && exists|failures: Seq<Failure<'t>>, color: bool, duration: Seq<char>|
                #[trigger] is_run_report(
                    final(self).target().written(),
                    old(self).target().written(),
                    data.outcomes@,
                    data.filtered_out,
                    old(self).known_tests(),
                    old(self).color_setting(),
                    failures,
                    color,
                    duration,
                ),
            final(self).known_tests() == old(self).known_tests(),
            final(self).color_setting() == old(self).color_setting(),
    {
        let summary = RunOutcomes::from(data);
        let ghost failures = summary.failures@;
        let r = self.common.fmt_run_outcomes(summary);
        proof {
            if W::tracks_writes() && r is Ok {
                let (color, duration) = choose|color: bool, duration: Seq<char>| #[trigger] crate::formatter::common::is_plain_report(
                    self.common.target.written(),
                    old(self).common.target.written(),
                    failures,
                    fto::count_where(data.outcomes@, fto::passed_pred()) as usize,
                    fto::count_where(data.outcomes@, fto::failed_pred()) as usize,
                    fto::count_where(data.outcomes@, fto::ignored_pred()) as usize,
                    data.filtered_out,
                    old(self).known_tests(),
                    old(self).color_setting(),
                    color,
                    duration,
                );
                assert(is_run_report(
                    self.target().written(),
                    old(self).target().written(),
                    data.outcomes@,
                    data.filtered_out,
                    old(self).known_tests(),
                    old(self).color_setting(),
                    failures,
                    color,
                    duration,
                ));
            }
        }
        r
    }
}

impl<'t, W: TextTarget + SupportsColor, L: GroupLabeler<GroupKey, GroupCtx>, Extra: 't, GroupKey: 't, GroupCtx: 't> GroupedTestFormatter<'t, Extra, GroupKey, GroupCtx> for PrettyFormatter<'t, W, L, Extra> {
    open spec fn handled_grouped_run_start(&self, data: FmtGroupedRunStart, r: Result<(), std::io::Error>, after: Self) -> bool {
        &&& W::tracks_writes() ==> r is Ok && after.target().written() == self.target().written()
            + crate::formatter::common::run_start_bytes(data.tests)
        &&& after.known_tests() == self.known_tests()
        &&& after.color_setting() == self.color_setting()
    }

    open spec fn handled_grouped_run_outcomes(
        &self,
        outcomes: Seq<(GroupKey, TestOutcomes<'t>, Option<GroupCtx>)>,
        duration: std::time::Duration,
        r: Result<(), std::io::Error>,
        after: Self,
    ) -> bool {
        &&& W::tracks_writes() ==> r is Ok && exists|failures: Seq<crate::formatter::common::fto::Failure<'t>>, counts: (usize, usize, usize), color: bool, text: Seq<char>|
            #[trigger] crate::formatter::pretty::is_grouped_run_report(
                after.target().written(),
                self.target().written(),
                outcomes,
                self.known_tests(),
                self.color_setting(),
                failures,
                counts,
                color,
                text,
            )
        &&& after.known_tests() == self.known_tests()
        &&& after.color_setting() == self.color_setting()
    }

    /// Write `running N tests` for the grouped tests.
    fn fmt_grouped_run_start(&mut self, data: FmtGroupedRunStart) -> (r: Result<(), Self::Error>)
        ensures
            W::tracks_writes() ==> r is Ok && final(self).target().written() == old(self).target().written()
                + crate::formatter::common::run_start_bytes(data.tests),
            final(self).known_tests() == old(self).known_tests(),
            final(self).color_setting() == old(self).color_setting(),
    {
        self.report_grouped_run_start(TestCount::from(data))
    }

    /// Write the header of the group.
    fn fmt_group_start<'g>(&mut self, data: FmtGroupStart<'g, GroupKey, GroupCtx>) -> (r: Result<(), Self::Error>)
        ensures
            W::tracks_writes() ==> r is Ok && exists|label: String| #[trigger] L::labels(data.key, data.ctx, label)
                && final(self).target().written() == old(self).target().written()
                + crate::formatter::common::group_start_bytes(label@, data.tests),
            final(self).known_tests() == old(self).known_tests(),
            final(self).color_setting() == old(self).color_setting(),
    {
        let start = GroupStart::<L>::from(data);
        let ghost label = start.name;
        let r = self.report_group_start(start);
        proof {
            if W::tracks_writes() {
                assert(L::labels(data.key, data.ctx, label));
            }
        }
        r
    }

    /// Write the failure report and the summary of the grouped run.
    fn fmt_grouped_run_outcomes<'o>(&mut self, data: FmtGroupedRunOutcomes<'t, 'o, GroupKey, GroupCtx>) -> (r: Result<(), Self::Error>)
        ensures
            W::tracks_writes() ==> r is Ok && exists|failures: Seq<crate::formatter::common::fto::Failure<'t>>, counts: (usize, usize, usize), color: bool, duration: Seq<char>|
                #[trigger] is_grouped_run_report(
                    final(self).target().written(),
                    old(self).target().written(),
                    data.outcomes@,
                    old(self).known_tests(),
                    old(self).color_setting(),
                    failures,
                    counts,
                    color,
                    duration,
                ),
            final(self).known_tests() == old(self).known_tests(),
            final(self).color_setting() == old(self).color_setting(),
    {
        let summary = GroupedRunOutcomes::<'t, L>::from(data);
        let ghost d = summary;
        let r = self.report_grouped_run_outcomes(summary);
        proof {
            if W::tracks_writes() {
                let (color, duration) = choose|color: bool, duration: Seq<char>| #[trigger] crate::formatter::common::is_grouped_report(
                    self.target().written(),
                    old(self).target().written(),
                    d.failures@,
                    d.passed,
                    d.failed,
                    d.ignored,
                    d.filtered_out,
                    d.groups,
                    old(self).known_tests(),
                    old(self).color_setting(),
                    color,
                    duration,
                );
                assert(is_grouped_run_report(
                    self.target().written(),
                    old(self).target().written(),
                    data.outcomes@,
                    old(self).known_tests(),
                    old(self).color_setting(),
                    d.failures@,
                    (d.passed, d.failed, d.ignored),
                    color,
                    duration,
                ));
            }
        }
        r
    }
}

impl<'t, W: TextTarget, L, Extra: 't> TestListFormatter<'t, Extra> for PrettyFormatter<'t, W, L, Extra> {
    type Error = std::io::Error;

    open spec fn handled_init_listing(&self, tests: Seq<TestMeta<Extra>>, r: Result<(), std::io::Error>, after: Self) -> bool {
        r is Ok && after == *self
    }

    open spec fn handled_begin_listing(&self, data: FmtBeginListing, r: Result<(), std::io::Error>, after: Self) -> bool {
        r is Ok && after == *self
    }

    open spec fn handled_list_test(&self, meta: TestMeta<Extra>, ignored: IgnoreStatus, r: Result<(), std::io::Error>, after: Self) -> bool {
        &&& W::tracks_writes() ==> r is Ok && after.target().written() == self.target().written() + list_line(meta.name@)
        &&& after.known_tests() == self.known_tests()
        &&& after.color_setting() == self.color_setting()
    }

    open spec fn handled_end_listing(&self, data: FmtEndListing, r: Result<(), std::io::Error>, after: Self) -> bool {
        &&& W::tracks_writes() ==> r is Ok && after.target().written() == self.target().written()
            + list_count_bytes(data.active.wrapping_add(data.ignored))
        &&& after.known_tests() == self.known_tests()
        &&& after.color_setting() == self.color_setting()
    }

    /// Nothing to write before the listing.
    fn fmt_init_listing<Function>(&mut self, data: FmtInitListing<'t, Extra, Function>) -> (r: Result<(), Self::Error>)
        ensures
            r is Ok,
            *final(self) == *old(self),
    {
        Ok(())
    }

    /// Nothing to write when the listing starts.
    fn fmt_begin_listing(&mut self, data: FmtBeginListing) -> (r: Result<(), Self::Error>)
        ensures
            r is Ok,
            *final(self) == *old(self),
    {
        Ok(())
    }

    /// Write `NAME: test`.
    fn fmt_list_test(&mut self, data: FmtListTest<'t, Extra>) -> (r: Result<(), Self::Error>)
        ensures
            W::tracks_writes() ==> r is Ok && final(self).target().written() == old(self).target().written() + list_line(data.meta.name@),
            final(self).known_tests() == old(self).known_tests(),
            final(self).color_setting() == old(self).color_setting(),
    {
        let name = data.meta.name.as_str();
        let mut out: Vec<u8> = Vec::new();
        push_text(&mut out, name);
        push_text(&mut out, ": test\n");
        self.common.target.write_bytes(out.as_slice())
    }

    /// Write `1 test` or `N tests`, counting active and ignored tests.
    fn fmt_end_listing(&mut self, data: FmtEndListing) -> (r: Result<(), Self::Error>)
        ensures
            W::tracks_writes() ==> r is Ok && final(self).target().written() == old(self).target().written()
                + list_count_bytes(data.active.wrapping_add(data.ignored)),
            final(self).known_tests() == old(self).known_tests(),
            final(self).color_setting() == old(self).color_setting(),
    {
        let count = TestCount::from(data).0;
        let mut out: Vec<u8> = Vec::new();
        if count == 1 {
            push_text(&mut out, "\n1 test\n");
        } else {
            push_text(&mut out, "\n");
            push_number(&mut out, count);
            push_text(&mut out, " tests\n");
        }
        assert(out@ =~= list_count_bytes(count));
        self.common.target.write_bytes(out.as_slice())
    }
}

} // verus!
