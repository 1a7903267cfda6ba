//! A compact formatter: one character per test, and a line for each failure.

use vstd::prelude::*;
use vstd::std_specs::convert::FromSpecImpl;

use crate::formatter::common::color::{ColorSetting, SupportsColor, TextTarget, CYAN, GREEN, RED, RESET, YELLOW};
use crate::formatter::common::fto::{GroupStart, GroupedRunOutcomes, RunOutcomes, TestCount, TestName, Tests};
use crate::formatter::common::label::{FromGroupCtx, FromGroupKey, GroupLabel, GroupLabeler};
use crate::formatter::common::{
    distinct_count, meta_names, push_number, push_text, stdout, u, CommonFormatter,
};
use crate::formatter::{
    FmtBeginListing, FmtEndListing, FmtGroupStart, FmtGroupedRunOutcomes, FmtGroupedRunStart,
    FmtInitListing, FmtListTest, FmtRunInit, FmtRunOutcomes, FmtRunStart, FmtTestOutcome,
    GroupedTestFormatter, TestFormatter, TestListFormatter, TestOutcomes,
};
use crate::outcome::{clone_status, TestOutcome, TestStatus};
use crate::test::{IgnoreStatus, TestMeta};
use crate::text::decimal;

verus! {

/// A formatter that prints a single character per test: `.` passed, `i` ignored, `o` other.
/// A failing or timed out test gets a line of its own; before the first of a run of failures
/// the progress so far is printed.
#[derive(Debug)]
pub struct TerseFormatter<'t, W, L, Extra> {
    common: CommonFormatter<'t, W, L, Extra>,
    progress: usize,
    last_ok: bool,
}

/// The bytes of an ANSI code when coloring, nothing otherwise.
pub open spec fn paint(code: &str, use_color: bool) -> Seq<u8> {
    if use_color {
        u(code@)
    } else {
        Seq::empty()
    }
}

/// What the terse formatter writes for a finished test, given whether the previous test was
/// fine, how many tests were reported before and how many distinct tests the run has.
pub open spec fn terse_outcome_bytes(
    name: Seq<char>,
    status: TestStatus,
    last_ok: bool,
    progress: usize,
    total: usize,
    use_color: bool,
) -> Seq<u8> {
    match status {
        TestStatus::Passed => paint(GREEN, use_color) + u("."@) + paint(RESET, use_color),
        TestStatus::Ignored { .. } => paint(YELLOW, use_color) + u("i"@) + paint(RESET, use_color),
        TestStatus::Other(_) => paint(CYAN, use_color) + u("o"@) + paint(RESET, use_color),
        _ => progress_bytes(last_ok, progress, total) + failed_line(name, use_color),
    }
}

/// ` PROGRESS/TOTAL` and a line break, printed when a failure follows a test that was fine.
pub open spec fn progress_bytes(last_ok: bool, progress: usize, total: usize) -> Seq<u8> {
    if last_ok {
        u(" "@) + u(decimal(progress as nat)) + u("/"@) + u(decimal(total as nat)) + u("\n"@)
    } else {
        Seq::empty()
    }
}

/// `after` is `before` followed by what the terse formatter writes for a finished test,
/// colored as `color`, which agrees with `setting`.
pub open spec fn is_terse_report(
    after: Seq<u8>,
    before: Seq<u8>,
    name: Seq<char>,
    status: TestStatus,
    last_ok: bool,
    progress: usize,
    total: usize,
    setting: ColorSetting,
    color: bool,
) -> bool {
    &&& (setting is Always ==> color)
    &&& (setting is Never ==> !color)
    &&& after == before + terse_outcome_bytes(name, status, last_ok, progress, total, color)
}

/// `NAME --- FAILED` and a line break.
pub open spec fn failed_line(name: Seq<char>, use_color: bool) -> Seq<u8> {
    u(name) + u(" --- "@) + paint(RED, use_color) + u("FAILED"@) + paint(RESET, use_color) + u("\n"@)
}

/// Append an ANSI code when coloring.
fn push_paint(out: &mut Vec<u8>, code: &str, use_color: bool)
    ensures
        final(out)@ == old(out)@ + paint(code, use_color),
{
    if use_color {
        push_text(out, code);
    } else {
        assert(out@ =~= out@ + Seq::<u8>::empty());
    }
}

/// Render the single character written for a test that did not fail.
fn render_mark(status: &TestStatus, use_color: bool) -> (r: Vec<u8>)
    requires
        status.spec_is_good(),
    ensures
        r@ == terse_outcome_bytes(Seq::empty(), *status, false, 0, 0, use_color),
{
    let mut out: Vec<u8> = Vec::new();
    match status {
        TestStatus::Passed => {
            push_paint(&mut out, GREEN, use_color);
            push_text(&mut out, ".");
        },
        TestStatus::Ignored { .. } => {
            push_paint(&mut out, YELLOW, use_color);
            push_text(&mut out, "i");
        },
        _ => {
            push_paint(&mut out, CYAN, use_color);
            push_text(&mut out, "o");
        },
    }
    push_paint(&mut out, RESET, use_color);
    assert(out@ =~= terse_outcome_bytes(Seq::empty(), *status, false, 0, 0, use_color));
    out
}

impl<'t, Extra> TerseFormatter<'t, std::io::Stdout, GroupLabel<FromGroupKey>, Extra> {
    /// A terse formatter that writes to stdout, colors automatically and labels groups by
    /// their key.
    pub fn new() -> (r: Self)
        ensures
            r.color_setting() is Automatic,
            r.known_tests().len() == 0,
            r.distinct() == 0,
            r.progress() == 0,
            !r.last_ok(),
    {
        TerseFormatter {
            common: CommonFormatter {
                target: stdout(),
                color_setting: ColorSetting::Automatic,
                tests: Vec::new(),
                distinct_tests: 0,
                _label_marker: std::marker::PhantomData,
            },
            progress: 0,
            last_ok: false,
        }
    }
}

impl<'t, Extra> Default for TerseFormatter<'t, std::io::Stdout, GroupLabel<FromGroupKey>, Extra> {
    fn default() -> (r: Self)
        ensures
            r.color_setting() is Automatic,
            r.known_tests().len() == 0,
            r.distinct() == 0,
            r.progress() == 0,
            !r.last_ok(),
    {
        Self::new()
    }
}

impl<'t, W, L, Extra> TerseFormatter<'t, W, L, Extra> {
    /// The output target.
    pub closed spec fn target(&self) -> W {
        self.common.target
    }

    /// The color setting.
    pub closed spec fn color_setting(&self) -> ColorSetting {
        self.common.color_setting
    }

    /// The tests the run started with.
    pub closed spec fn known_tests(&self) -> Seq<&'t TestMeta<Extra>> {
        self.common.tests@
    }

    /// The number of distinct test names the run started with.
    pub closed spec fn distinct(&self) -> usize {
        self.common.distinct_tests
    }

    /// The number of finished tests reported so far.
    pub closed spec fn progress(&self) -> usize {
        self.progress
    }

    /// Whether the last reported test did not fail.
    pub closed spec fn last_ok(&self) -> bool {
        self.last_ok
    }

    /// Give up the formatter and hand back its output target.
    pub fn into_target(self) -> (r: W)
        ensures
            r == self.target(),
    {
        self.common.target
    }

    /// Replace the output target.
    pub fn with_target<WithTarget>(self, target: WithTarget) -> (r: TerseFormatter<'t, WithTarget, L, Extra>)
        ensures
            r.target() == target,
            r.color_setting() == self.color_setting(),
            r.known_tests() == self.known_tests(),
            r.distinct() == self.distinct(),
            r.progress() == self.progress(),
            r.last_ok() == self.last_ok(),
    {
        TerseFormatter {
            common: CommonFormatter {
                target,
                color_setting: self.common.color_setting,
                tests: self.common.tests,
                distinct_tests: self.common.distinct_tests,
                _label_marker: std::marker::PhantomData,
            },
            progress: self.progress,
            last_ok: self.last_ok,
        }
    }

    /// Replace the color setting.
    pub fn with_color_setting(self, color_setting: ColorSetting) -> (r: Self)
        ensures
            r.target() == self.target(),
            r.color_setting() == color_setting,
            r.known_tests() == self.known_tests(),
            r.distinct() == self.distinct(),
            r.progress() == self.progress(),
            r.last_ok() == self.last_ok(),
    {
        TerseFormatter { common: CommonFormatter { color_setting, ..self.common }, ..self }
    }

    /// Label groups by their key.
    pub fn with_group_label_from_key(self) -> (r: TerseFormatter<'t, W, GroupLabel<FromGroupKey>, Extra>)
        ensures
            r.target() == self.target(),
            r.color_setting() == self.color_setting(),
            r.known_tests() == self.known_tests(),
            r.distinct() == self.distinct(),
            r.progress() == self.progress(),
            r.last_ok() == self.last_ok(),
    {
        TerseFormatter {
            common: CommonFormatter {
                target: self.common.target,
                color_setting: self.common.color_setting,
                tests: self.common.tests,
                distinct_tests: self.common.distinct_tests,
                _label_marker: std::marker::PhantomData,
            },
            progress: self.progress,
            last_ok: self.last_ok,
        }
    }

    /// Label groups by their context.
    pub fn with_group_label_from_ctx(self) -> (r: TerseFormatter<'t, W, GroupLabel<FromGroupCtx>, Extra>)
        ensures
            r.target() == self.target(),
            r.color_setting() == self.color_setting(),
            r.known_tests() == self.known_tests(),
            r.distinct() == self.distinct(),
            r.progress() == self.progress(),
            r.last_ok() == self.last_ok(),
    {
        TerseFormatter {
            common: CommonFormatter {
                target: self.common.target,
                color_setting: self.common.color_setting,
                tests: self.common.tests,
                distinct_tests: self.common.distinct_tests,
                _label_marker: std::marker::PhantomData,
            },
            progress: self.progress,
            last_ok: self.last_ok,
        }
    }

    /// Whether this formatter currently emits colored output.
    pub fn use_color(&self) -> (r: bool)
        where W: SupportsColor,
        ensures
            self.color_setting() is Always ==> r,
            self.color_setting() is Never ==> !r,
            W::color_known() ==> r == crate::formatter::common::colors(self.color_setting(), self.target().color_supported()),
    {
        self.common.use_color()
    }
}

/// What the terse formatter keeps of a finished test.
#[derive(Debug, Clone)]
#[non_exhaustive]
pub struct TerseTestOutcome<'t> {
    pub name: &'t str,
    pub status: TestStatus,
}

impl<'t, 'o, Extra> From<FmtTestOutcome<'t, 'o, Extra>> for TerseTestOutcome<'t> {
    fn from(value: FmtTestOutcome<'t, 'o, Extra>) -> (r: Self)
        ensures
            r.name@ == value.meta.name@,
            r.status == value.outcome.status,
    {
        TerseTestOutcome { name: value.meta.name.as_str(), status: clone_status(&value.outcome.status) }
    }
}

impl<'t, 'o, Extra> FromSpecImpl<FmtTestOutcome<'t, 'o, Extra>> for TerseTestOutcome<'t> {
    open spec fn obeys_from_spec() -> bool {
        false
    }

    open spec fn from_spec(v: FmtTestOutcome<'t, 'o, Extra>) -> Self {
        arbitrary()
    }
}

impl<'t, W: TextTarget + SupportsColor, L, Extra: 't> TerseFormatter<'t, W, L, Extra> {
    /// Report a finished test: its mark, or for a failure the progress line (after a test
    /// that was fine) and the failure line. An error writing the progress line is returned
    /// before anything else changes; otherwise the progress advances and `last_ok` records
    /// whether this test was fine.
    pub fn report_outcome(&mut self, data: TerseTestOutcome<'t>) -> (r: Result<(), std::io::Error>)
        ensures
            W::tracks_writes() ==> r is Ok && exists|color: bool| #[trigger] is_terse_report(
                final(self).target().written(),
                old(self).target().written(),
                data.name@,
                data.status,
                old(self).last_ok(),
                old(self).progress(),
                old(self).distinct(),
                old(self).color_setting(),
                color,
            ),
            r is Ok ==> final(self).progress() == old(self).progress().wrapping_add(1)
                && final(self).last_ok() == data.status.spec_is_good(),
            r is Err ==> (final(self).progress() == old(self).progress() && final(self).last_ok() == old(self).last_ok())
                || (final(self).progress() == old(self).progress().wrapping_add(1)
                && final(self).last_ok() == data.status.spec_is_good()),
            final(self).known_tests() == old(self).known_tests(),
            final(self).distinct() == old(self).distinct(),
            final(self).color_setting() == old(self).color_setting(),
    {
        let color = self.use_color();
        let good = data.status.is_good();
        let r = if good {
            let mark = render_mark(&data.status, color);
            assert(mark@ == terse_outcome_bytes(data.name@, data.status, self.last_ok, self.progress, self.common.distinct_tests, color));
            self.common.target.write_bytes(mark.as_slice())
        } else {
            let ghost start = self.common.target.written();
            let mut head: Vec<u8> = Vec::new();
            if self.last_ok {
                push_text(&mut head, " ");
                push_number(&mut head, self.progress);
                push_text(&mut head, "/");
                push_number(&mut head, self.common.distinct_tests);
                push_text(&mut head, "\n");
                assert(head@ =~= progress_bytes(self.last_ok, self.progress, self.common.distinct_tests));
                let first = self.common.target.write_bytes(head.as_slice());
                if first.is_err() {
                    return first;
                }
            } else {
                assert(head@ =~= progress_bytes(self.last_ok, self.progress, self.common.distinct_tests));
            }
            let ghost mid = self.common.target.written();
            let mut line: Vec<u8> = Vec::new();
            push_text(&mut line, data.name);
            push_text(&mut line, " --- ");
            push_paint(&mut line, RED, color);
            push_text(&mut line, "FAILED");
            push_paint(&mut line, RESET, color);
            push_text(&mut line, "\n");
            assert(line@ =~= failed_line(data.name@, color));
            let second = self.common.target.write_bytes(line.as_slice());
            proof {
                if W::tracks_writes() && second is Ok {
                    if self.last_ok {
                        assert(mid == start + head@);
                    } else {
                        assert(head@ =~= Seq::<u8>::empty());
                        assert(mid =~= start + head@);
                    }
                    assert(self.common.target.written() =~= start + (head@ + line@));
                }
            }
            second
        };
        self.last_ok = good;
        self.progress = self.progress.wrapping_add(1);
        proof {
            if W::tracks_writes() && r is Ok {
                assert(is_terse_report(
                    self.target().written(),
                    old(self).target().written(),
                    data.name@,
                    data.status,
                    old(self).last_ok(),
                    old(self).progress(),
                    old(self).distinct(),
                    old(self).color_setting(),
                    color,
                ));
            }
        }
        r
    }
}

impl<'t, W: TextTarget + SupportsColor, L, Extra: 't> TerseFormatter<'t, W, L, Extra> {
    /// Write `running N tests` for the tests of a grouped run.
    pub fn report_grouped_run_start(&mut self, data: TestCount) -> (r: Result<(), std::io::Error>)
        ensures
            W::tracks_writes() ==> r is Ok && final(self).target().written() == old(self).target().written()
                + crate::formatter::common::run_start_bytes(data.0),
            final(self).known_tests() == old(self).known_tests(),
            final(self).color_setting() == old(self).color_setting(),
            final(self).distinct() == old(self).distinct(),
            final(self).progress() == old(self).progress(),
            final(self).last_ok() == old(self).last_ok(),
    {
        self.common.fmt_run_start(data.0)
    }

    /// Write the header of a group: its label (or `default`) and its size.
    pub fn report_group_start(&mut self, data: GroupStart<L>) -> (r: Result<(), std::io::Error>)
        ensures
            W::tracks_writes() ==> r is Ok && final(self).target().written() == old(self).target().written()
                + crate::formatter::common::group_start_bytes(data.name@, data.tests),
            final(self).known_tests() == old(self).known_tests(),
            final(self).color_setting() == old(self).color_setting(),
            final(self).distinct() == old(self).distinct(),
            final(self).progress() == old(self).progress(),
            final(self).last_ok() == old(self).last_ok(),
    {
        self.common.fmt_group_start(data)
    }

    /// Write the failure report, the verdict and the counts of a grouped run.
    pub fn report_grouped_run_outcomes(&mut self, data: GroupedRunOutcomes<'t, L>) -> (r: Result<(), std::io::Error>)
        ensures
            W::tracks_writes() ==> r is Ok && exists|color: bool, duration: Seq<char>| #[trigger] crate::formatter::common::is_grouped_report(
                final(self).target().written(),
                old(self).target().written(),
                data.failures@,
                data.passed,
                data.failed,
                data.ignored,
                data.filtered_out,
                data.groups,
                old(self).known_tests(),
                old(self).color_setting(),
                color,
                duration,
            ),
            final(self).known_tests() == old(self).known_tests(),
            final(self).color_setting() == old(self).color_setting(),
            final(self).distinct() == old(self).distinct(),
            final(self).progress() == old(self).progress(),
            final(self).last_ok() == old(self).last_ok(),
    {
        let ghost d = data;
        let r = self.common.fmt_grouped_run_outcomes(data);
        proof {
            if W::tracks_writes() && r is Ok {
                let (color, duration) = choose|color: bool, duration: Seq<char>| #[trigger] crate::formatter::common::is_grouped_report(
                    self.common.target.written(),
                    old(self).common.target.written(),
                    d.failures@,
                    d.passed,
                    d.failed,
                    d.ignored,
                    d.filtered_out,
                    d.groups,
                    old(self).common.tests@,
                    old(self).common.color_setting,
                    color,
                    duration,
                );
                assert(crate::formatter::common::is_grouped_report(
                    self.target().written(),
                    old(self).target().written(),
                    d.failures@,
                    d.passed,
                    d.failed,
                    d.ignored,
                    d.filtered_out,
                    d.groups,
                    old(self).known_tests(),
                    old(self).color_setting(),
                    color,
                    duration,
                ));
            }
        }
        r
    }
}

impl<'t, W: TextTarget + SupportsColor, L, Extra: 't> TestFormatter<'t, Extra> for TerseFormatter<'t, W, L, Extra> {
    type Error = std::io::Error;

    open spec fn handled_run_init(&self, tests: Seq<TestMeta<Extra>>, r: Result<(), std::io::Error>, after: Self) -> bool {
        &&& r is Ok
        &&& after.known_tests().len() == tests.len()
        &&& forall|i: int| 0 <= i < tests.len() ==> *#[trigger] after.known_tests()[i] == tests[i]
        &&& after.target() == self.target()
        &&& after.color_setting() == self.color_setting()
        &&& after.progress() == self.progress()
        &&& after.last_ok() == self.last_ok()
        &&& after.distinct() == distinct_count(meta_names(after.known_tests()))
    }

    open spec fn handled_run_start(&self, data: FmtRunStart, r: Result<(), std::io::Error>, after: Self) -> bool {
        &&& W::tracks_writes() ==> r is Ok && after.target().written() == self.target().written()
            + crate::formatter::common::run_start_bytes(data.active)
        &&& after.known_tests() == self.known_tests()
        &&& after.color_setting() == self.color_setting()
        &&& after.distinct() == self.distinct()
        &&& after.progress() == self.progress()
        &&& after.last_ok() == self.last_ok()
    }

    open spec fn handled_run_outcomes(
        &self,
        outcomes: Seq<(&'t str, TestOutcome)>,
        filtered_out: usize,
        duration: std::time::Duration,
        r: Result<(), std::io::Error>,
        after: Self,
    ) -> bool {
        &&& W::tracks_writes() ==> r is Ok && exists|failures: Seq<crate::formatter::common::fto::Failure<'t>>, color: bool, text: Seq<char>|
            #[trigger] crate::formatter::pretty::is_run_report(
                after.target().written(),
                self.target().written(),
                outcomes,
                filtered_out,
                self.known_tests(),
                self.color_setting(),
                failures,
                color,
                text,
            )
        &&& after.known_tests() == self.known_tests()
        &&& after.color_setting() == self.color_setting()
        &&& after.distinct() == self.distinct()
        &&& after.progress() == self.progress()
        &&& after.last_ok() == self.last_ok()
    }

    /// Remember the tests of the run.
    fn fmt_run_init<Function>(&mut self, data: FmtRunInit<'t, Extra, Function>) -> (r: Result<(), Self::Error>)
        ensures
            r is Ok,
            final(self).known_tests().len() == data.tests@.len(),
            forall|i: int| 0 <= i < data.tests@.len() ==> *#[trigger] final(self).known_tests()[i] == data.tests@[i].meta,
            final(self).distinct() == distinct_count(meta_names(final(self).known_tests())),
            final(self).target() == old(self).target(),
            final(self).color_setting() == old(self).color_setting(),
            final(self).progress() == old(self).progress(),
            final(self).last_ok() == old(self).last_ok(),
    {
        let tests = Tests::from(data);
        self.common.fmt_run_init(tests.0);
        Ok(())
    }

    /// Write `running N tests`.
    fn fmt_run_start(&mut self, data: FmtRunStart) -> (r: Result<(), Self::Error>)
        ensures
            W::tracks_writes() ==> r is Ok && final(self).target().written() == old(self).target().written()
                + crate::formatter::common::run_start_bytes(data.active),
            final(self).known_tests() == old(self).known_tests(),
            final(self).distinct() == old(self).distinct(),
            final(self).color_setting() == old(self).color_setting(),
            final(self).progress() == old(self).progress(),
            final(self).last_ok() == old(self).last_ok(),
    {
        let count = TestCount::from(data);
        self.common.fmt_run_start(count.0)
    }

    /// Report the finished test; see [`TerseFormatter::report_outcome`].
    fn fmt_test_outcome<'o>(&mut self, data: FmtTestOutcome<'t, 'o, Extra>) -> (r: Result<(), Self::Error>)
        ensures
            W::tracks_writes() ==> r is Ok && exists|color: bool| #[trigger] is_terse_report(
                final(self).target().written(),
                old(self).target().written(),
                data.meta.name@,
                data.outcome.status,
                old(self).last_ok(),
                old(self).progress(),
                old(self).distinct(),
                old(self).color_setting(),
                color,
            ),
            r is Ok ==> final(self).progress() == old(self).progress().wrapping_add(1)
                && final(self).last_ok() == data.outcome.status.spec_is_good(),
            final(self).known_tests() == old(self).known_tests(),
            final(self).distinct() == old(self).distinct(),
            final(self).color_setting() == old(self).color_setting(),
    {
        let outcome = TerseTestOutcome::from(data);
        self.report_outcome(outcome)
    }

    /// Write the failure report and the summary.
    fn fmt_run_outcomes<'o>(&mut self, data: FmtRunOutcomes<'t, 'o>) -> (r: Result<(), Self::Error>)
        ensures
            W::tracks_writes() ==> r is Ok && exists|failures: Seq<crate::formatter::common::fto::Failure<'t>>, color: bool, duration: Seq<char>|
                #[trigger] crate::formatter::pretty::is_run_report(
                    final(self).target().written(),
                    old(self).target().written(),
                    data.outcomes@,
                    data.filtered_out,
                    old(self).known_tests(),
                    old(self).color_setting(),
                    failures,
                    color,
                    duration,
                ),
            final(self).known_tests() == old(self).known_tests(),
            final(self).distinct() == old(self).distinct(),
            final(self).color_setting() == old(self).color_setting(),
            final(self).progress() == old(self).progress(),
            final(self).last_ok() == old(self).last_ok(),
    {
        let summary = RunOutcomes::from(data);
        let ghost failures = summary.failures@;
        let r = self.common.fmt_run_outcomes(summary);
        proof {
            if W::tracks_writes() && r is Ok {
                let (color, duration) = choose|color: bool, duration: Seq<char>| #[trigger] crate::formatter::common::is_plain_report(
                    self.common.target.written(),
                    old(self).common.target.written(),
                    failures,
                    crate::formatter::common::fto::count_where(data.outcomes@, crate::formatter::common::fto::passed_pred()) as usize,
                    crate::formatter::common::fto::count_where(data.outcomes@, crate::formatter::common::fto::failed_pred()) as usize,
                    crate::formatter::common::fto::count_where(data.outcomes@, crate::formatter::common::fto::ignored_pred()) as usize,
                    data.filtered_out,
                    old(self).known_tests(),
                    old(self).color_setting(),
                    color,
                    duration,
                );
                assert(crate::formatter::pretty::is_run_report(
                    self.target().written(),
                    old(self).target().written(),
                    data.outcomes@,
                    data.filtered_out,
                    old(self).known_tests(),
                    old(self).color_setting(),
                    failures,
                    color,
                    duration,
                ));
            }
        }
        r
    }
}

impl<'t, W: TextTarget + SupportsColor, L: GroupLabeler<GroupKey, GroupCtx>, Extra: 't, GroupKey: 't, GroupCtx: 't> GroupedTestFormatter<'t, Extra, GroupKey, GroupCtx> for TerseFormatter<'t, W, L, Extra> {
    open spec fn handled_grouped_run_start(&self, data: FmtGroupedRunStart, r: Result<(), std::io::Error>, after: Self) -> bool {
        &&& W::tracks_writes() ==> r is Ok && after.target().written() == self.target().written()
            + crate::formatter::common::run_start_bytes(data.tests)
        &&& after.known_tests() == self.known_tests()
        &&& after.color_setting() == self.color_setting()
        &&& after.distinct() == self.distinct()
        &&& after.progress() == self.progress()
        &&& after.last_ok() == self.last_ok()
    }

    open spec fn handled_grouped_run_outcomes(
        &self,
        outcomes: Seq<(GroupKey, TestOutcomes<'t>, Option<GroupCtx>)>,
        duration: std::time::Duration,
        r: Result<(), std::io::Error>,
        after: Self,
    ) -> bool {
        &&& W::tracks_writes() ==> r is Ok && exists|failures: Seq<crate::formatter::common::fto::Failure<'t>>, counts: (usize, usize, usize), color: bool, text: Seq<char>|
            #[trigger] crate::formatter::pretty::is_grouped_run_report(
                after.target().written(),
                self.target().written(),
                outcomes,
                self.known_tests(),
                self.color_setting(),
                failures,
                counts,
                color,
                text,
            )
        &&& after.known_tests() == self.known_tests()
        &&& after.color_setting() == self.color_setting()
        &&& after.distinct() == self.distinct()
        &&& after.progress() == self.progress()
        &&& after.last_ok() == self.last_ok()
    }

    /// Write `running N tests` for the grouped tests.
    fn fmt_grouped_run_start(&mut self, data: FmtGroupedRunStart) -> (r: Result<(), Self::Error>)
        ensures
            W::tracks_writes() ==> r is Ok && final(self).target().written() == old(self).target().written()
                + crate::formatter::common::run_start_bytes(data.tests),
            final(self).known_tests() == old(self).known_tests(),
            final(self).color_setting() == old(self).color_setting(),
            final(self).distinct() == old(self).distinct(),
            final(self).progress() == old(self).progress(),
            final(self).last_ok() == old(self).last_ok(),
    {
        self.report_grouped_run_start(TestCount::from(data))
    }

    /// Write the header of the group.
    fn fmt_group_start<'g>(&mut self, data: FmtGroupStart<'g, GroupKey, GroupCtx>) -> (r: Result<(), Self::Error>)
        ensures
            W::tracks_writes() ==> r is Ok && exists|label: String| #[trigger] L::labels(data.key, data.ctx, label)
                && final(self).target().written() == old(self).target().written()
                + crate::formatter::common::group_start_bytes(label@, data.tests),
            final(self).known_tests() == old(self).known_tests(),
            final(self).color_setting() == old(self).color_setting(),
            final(self).distinct() == old(self).distinct(),
            final(self).progress() == old(self).progress(),
            final(self).last_ok() == old(self).last_ok(),
    {
        let start = GroupStart::<L>::from(data);
        let ghost label = start.name;
        let r = self.report_group_start(start);
        proof {
            if W::tracks_writes() {
                assert(L::labels(data.key, data.ctx, label));
            }
        }
        r
    }

    /// Write the failure report and the summary of the grouped run.
    fn fmt_grouped_run_outcomes<'o>(&mut self, data: FmtGroupedRunOutcomes<'t, 'o, GroupKey, GroupCtx>) -> (r: Result<(), Self::Error>)
        ensures
            W::tracks_writes() ==> r is Ok && exists|failures: Seq<crate::formatter::common::fto::Failure<'t>>, counts: (usize, usize, usize), color: bool, duration: Seq<char>|
                #[trigger] crate::formatter::pretty::is_grouped_run_report(
                    final(self).target().written(),
                    old(self).target().written(),
                    data.outcomes@,
                    old(self).known_tests(),
                    old(self).color_setting(),
                    failures,
                    counts,
                    color,
                    duration,
                ),
            final(self).known_tests() == old(self).known_tests(),
            final(self).color_setting() == old(self).color_setting(),
            final(self).distinct() == old(self).distinct(),
            final(self).progress() == old(self).progress(),
            final(self).last_ok() == old(self).last_ok(),
    {
        let summary = GroupedRunOutcomes::<'t, L>::from(data);
        let ghost d = summary;
        let r = self.report_grouped_run_outcomes(summary);
        proof {
            if W::tracks_writes() {
                let (color, duration) = choose|color: bool, duration: Seq<char>| #[trigger] crate::formatter::common::is_grouped_report(
                    self.target().written(),
                    old(self).target().written(),
                    d.failures@,
                    d.passed,
                    d.failed,
                    d.ignored,
                    d.filtered_out,
                    d.groups,
                    old(self).known_tests(),
                    old(self).color_setting(),
                    color,
                    duration,
                );
                assert(crate::formatter::pretty::is_grouped_run_report(
                    self.target().written(),
                    old(self).target().written(),
                    data.outcomes@,
                    old(self).known_tests(),
                    old(self).color_setting(),
                    d.failures@,
                    (d.passed, d.failed, d.ignored),
                    color,
                    duration,
                ));
            }
        }
        r
    }
}

impl<'t, W: TextTarget, L, Extra: 't> TestListFormatter<'t, Extra> for TerseFormatter<'t, W, L, Extra> {
    type Error = std::io::Error;

    open spec fn handled_init_listing(&self, tests: Seq<TestMeta<Extra>>, r: Result<(), std::io::Error>, after: Self) -> bool {
        r is Ok && after == *self
    }

    open spec fn handled_begin_listing(&self, data: FmtBeginListing, r: Result<(), std::io::Error>, after: Self) -> bool {
        r is Ok && after == *self
    }

    open spec fn handled_list_test(&self, meta: TestMeta<Extra>, ignored: IgnoreStatus, r: Result<(), std::io::Error>, after: Self) -> bool {
        &&& W::tracks_writes() ==> r is Ok && after.target().written() == self.target().written() + crate::formatter::pretty::list_line(meta.name@)
        &&& after.known_tests() == self.known_tests()
        &&& after.color_setting() == self.color_setting()
    }

    open spec fn handled_end_listing(&self, data: FmtEndListing, r: Result<(), std::io::Error>, after: Self) -> bool {
        r is Ok && after == *self
    }

    /// Nothing to write before the listing.
    fn fmt_init_listing<Function>(&mut self, data: FmtInitListing<'t, Extra, Function>) -> (r: Result<(), Self::Error>)
        ensures
            r is Ok,
            *final(self) == *old(self),
    {
        Ok(())
    }

    /// Nothing to write when the listing starts.
    fn fmt_begin_listing(&mut self, data: FmtBeginListing) -> (r: Result<(), Self::Error>)
        ensures
            r is Ok,
            *final(self) == *old(self),
    {
        Ok(())
    }

    /// Nothing to write at the end of the listing.
    fn fmt_end_listing(&mut self, data: FmtEndListing) -> (r: Result<(), Self::Error>)
        ensures
            r is Ok,
            *final(self) == *old(self),
    {
        Ok(())
    }

    /// Write `NAME: test`.
    fn fmt_list_test(&mut self, data: FmtListTest<'t, Extra>) -> (r: Result<(), Self::Error>)
        ensures
            W::tracks_writes() ==> r is Ok && final(self).target().written() == old(self).target().written()
                + crate::formatter::pretty::list_line(data.meta.name@),
            final(self).known_tests() == old(self).known_tests(),
            final(self).color_setting() == old(self).color_setting(),
    {
        let name = TestName::from(data);
        let mut out: Vec<u8> = Vec::new();
        push_text(&mut out, name.0);
        push_text(&mut out, ": test\n");
        self.common.target.write_bytes(out.as_slice())
    }
}

} // verus!
