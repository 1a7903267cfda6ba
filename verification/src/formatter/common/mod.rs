//! Common helpers for formatter implementations: the output shared by the pretty and the
//! terse formatter.

use vstd::prelude::*;
use vstd::utf8::encode_utf8;

use crate::formatter::common::color::{ColorSetting, SupportsColor, TextTarget, GREEN, RED, RESET};
use crate::formatter::common::fto::{Failure, RunOutcomes};
use crate::outcome::TestFailure;
use crate::test::{origin_text, Test, TestMeta};
use crate::text::{debug_quote, debug_quoted, decimal, push_decimal, str_equal};

pub mod color;
pub mod fto;
pub mod label;

verus! {

/// The UTF-8 bytes of a text.
#[verifier::opaque]
pub open spec fn u(s: Seq<char>) -> Seq<u8> {
    encode_utf8(s)
}

/// Append the UTF-8 bytes of `s`.
pub fn push_text(out: &mut Vec<u8>, s: &str)
    ensures
        final(out)@ == old(out)@ + u(s@),
{
    let bytes = s.as_bytes();
    proof {
        reveal(u);
    }
    let ghost start = out@;
    let mut i: usize = 0;
    while i < bytes.len()
        invariant
            i <= bytes@.len(),
            bytes@ == u(s@),
            out@ == start + bytes@.subrange(0, i as int),
        decreases bytes.len() - i,
    {
        out.push(bytes[i]);
        i += 1;
        assert(out@ =~= start + bytes@.subrange(0, i as int));
    }
    assert(bytes@.subrange(0, i as int) =~= bytes@);
}

/// Append the bytes of `bytes`.
pub fn push_bytes(out: &mut Vec<u8>, bytes: &[u8])
    ensures
        final(out)@ == old(out)@ + bytes@,
{
    let ghost start = out@;
    let mut i: usize = 0;
    while i < bytes.len()
        invariant
            i <= bytes@.len(),
            out@ == start + bytes@.subrange(0, i as int),
        decreases bytes.len() - i,
    {
        out.push(bytes[i]);
        i += 1;
        assert(out@ =~= start + bytes@.subrange(0, i as int));
    }
    assert(bytes@.subrange(0, i as int) =~= bytes@);
}

/// Append the decimal rendering of `n`.
pub fn push_number(out: &mut Vec<u8>, n: usize)
    ensures
        final(out)@ == old(out)@ + u(decimal(n as nat)),
{
    let mut t = String::new();
    push_decimal(&mut t, n);
    push_text(out, t.as_str());
}

/// The last known test of the given name.
pub open spec fn lookup_meta<'t, Extra>(tests: Seq<&'t TestMeta<Extra>>, name: Seq<char>) -> Option<TestMeta<Extra>>
    decreases tests.len(),
{
    if tests.len() == 0 {
        None
    } else if tests.last().name@ == name {
        Some(*tests.last())
    } else {
        lookup_meta(tests.drop_last(), name)
    }
}

/// The origin of the last known test of the given name, rendered, if it has one.
pub open spec fn origin_of<'t, Extra>(tests: Seq<&'t TestMeta<Extra>>, name: Seq<char>) -> Option<Seq<char>> {
    match lookup_meta(tests, name) {
        Some(meta) => match meta.origin {
            Some(o) => Some(origin_text(o)),
            None => None,
        },
        None => None,
    }
}

/// The report block of one failure; `origin` is where the test was defined, if known.
pub open spec fn failure_block<'t>(f: Failure<'t>, origin: Option<Seq<char>>) -> Seq<u8> {
    u("---- "@) + u(f.name@) + u(" stdout ----\n"@) + match f.failure {
        TestFailure::Error(w) => u("Error: "@) + u(w.0@) + u("\n"@),
        TestFailure::Panicked(_) => f.output.bytes(),
        TestFailure::DidNotPanic { .. } => match origin {
            Some(o) => u("note: test did not panic as expected at "@) + u(o),
            None => Seq::empty(),
        },
        TestFailure::PanicMismatch { got, expected } => match expected {
            Some(e) => f.output.bytes() + u("note: panic did not contain expected string\n"@)
                + u("      panic message: "@) + u(debug_quoted(got@)) + u("\n"@) + u(
                " expected substring: "@,
            ) + u(debug_quoted(e@)),
            None => Seq::empty(),
        },
    } + u("\n"@)
}

/// The report blocks of all failures, in order.
pub open spec fn failure_blocks<'t, Extra>(failures: Seq<Failure<'t>>, tests: Seq<&'t TestMeta<Extra>>) -> Seq<u8>
    decreases failures.len(),
{
    if failures.len() == 0 {
        Seq::empty()
    } else {
        failure_blocks(failures.drop_last(), tests) + failure_block(
            failures.last(),
            origin_of(tests, failures.last().name@),
        )
    }
}

/// The closing list of failed test names.
pub open spec fn failure_list<'t>(failures: Seq<Failure<'t>>) -> Seq<u8>
    decreases failures.len(),
{
    if failures.len() == 0 {
        Seq::empty()
    } else {
        failure_list(failures.drop_last()) + u("    "@) + u(failures.last().name@) + u("\n"@)
    }
}

/// `ok. ` when nothing failed, `FAILED. ` otherwise, colored when asked.
pub open spec fn result_word(failed: usize, use_color: bool) -> Seq<u8> {
    if failed == 0 {
        if use_color {
            u(GREEN@) + u("ok"@) + u(RESET@) + u(". "@)
        } else {
            u("ok. "@)
        }
    } else {
        if use_color {
            u(RED@) + u("FAILED"@) + u(RESET@) + u(". "@)
        } else {
            u("FAILED. "@)
        }
    }
}

/// The part of a run summary shared by plain and grouped runs: the failure report, if any,
/// then `test result: ` and the verdict.
pub open spec fn common_outcomes<'t, Extra>(
    failures: Seq<Failure<'t>>,
    failed: usize,
    tests: Seq<&'t TestMeta<Extra>>,
    use_color: bool,
) -> Seq<u8> {
    (if failures.len() > 0 {
        u("\nfailures:\n\n"@) + failure_blocks(failures, tests) + u("\nfailures:\n"@) + failure_list(
            failures,
        )
    } else {
        Seq::empty()
    }) + u("\ntest result: "@) + result_word(failed, use_color)
}

/// `running 1 test` or `running N tests`, after an empty line.
pub open spec fn run_start_bytes(count: usize) -> Seq<u8> {
    if count == 1 {
        u("\nrunning 1 test\n"@)
    } else {
        u("\nrunning "@) + u(decimal(count as nat)) + u(" tests\n"@)
    }
}

/// The counts line closing a plain run; `duration` is the rendered number of seconds.
pub open spec fn run_summary_line(
    passed: usize,
    failed: usize,
    ignored: usize,
    filtered_out: usize,
    duration: Seq<char>,
) -> Seq<u8> {
    u(decimal(passed as nat)) + u(" passed; "@) + u(decimal(failed as nat)) + u(" failed; "@) + u(
        decimal(ignored as nat),
    ) + u(" ignored; 0 measured; "@) + u(decimal(filtered_out as nat)) + u(
        " filtered out; finished in "@,
    ) + u(duration) + u("s\n"@) + u("\n"@)
}

/// The counts line closing a grouped run; `duration` is the rendered number of seconds.
pub open spec fn grouped_summary_line(
    passed: usize,
    failed: usize,
    ignored: usize,
    filtered_out: usize,
    groups: usize,
    duration: Seq<char>,
) -> Seq<u8> {
    u(decimal(passed as nat)) + u(" passed; "@) + u(decimal(failed as nat)) + u(" failed; "@) + u(
        decimal(ignored as nat),
    ) + u(" ignored; "@) + u(decimal(filtered_out as nat)) + u(" filtered out; across "@) + u(
        decimal(groups as nat),
    ) + u(" groups, finished in "@) + u(duration) + u("s\n"@) + u("\n"@)
}

/// The header of a group: its label, or `default` when the label is empty, and its size.
pub open spec fn group_start_bytes(name: Seq<char>, tests: usize) -> Seq<u8> {
    u("\n"@) + u("group "@) + u(if name.len() == 0 {
        "default"@
    } else {
        name
    }) + u(", running "@) + u(decimal(tests as nat)) + u(" tests\n"@)
}

/// A group whose label is empty is announced as `default`; a group with a label is
/// announced by that label.
pub proof fn law_unlabeled_group_is_default(name: Seq<char>, tests: usize)
    ensures
        name.len() == 0 ==> group_start_bytes(name, tests) == group_start_bytes("default"@, tests),
        name.len() != 0 ==> exists|rest: Seq<u8>| group_start_bytes(name, tests) == #[trigger] (u("\n"@) + u("group "@) + u(name) + rest),
{
    reveal_strlit("default");
    if name.len() != 0 {
        let rest = u(", running "@) + u(decimal(tests as nat)) + u(" tests\n"@);
        assert(group_start_bytes(name, tests) =~= u("\n"@) + u("group "@) + u(name) + rest);
    }
}

/// The number of distinct names in a sequence of names.
pub open spec fn distinct_count(names: Seq<Seq<char>>) -> nat
    decreases names.len(),
{
    if names.len() == 0 {
        0
    } else {
        distinct_count(names.drop_last()) + if names.drop_last().contains(names.last()) {
            0nat
        } else {
            1nat
        }
    }
}

/// The names of a list of test metadata.
pub open spec fn meta_names<'t, Extra>(tests: Seq<&'t TestMeta<Extra>>) -> Seq<Seq<char>> {
    tests.map_values(|m: &'t TestMeta<Extra>| m.name@)
}

/// The seconds of a duration, rendered with two decimals: `Duration::as_secs_f64` formatted
/// with `{:.2}`. Nothing is stated of the text: it goes through floating point.
#[verifier::external_body]
pub(crate) fn secs_text(d: &std::time::Duration) -> String {
    format!("{:.2}", d.as_secs_f64())
}

/// State and output shared by the pretty and the terse formatter.
#[derive(Debug)]
pub struct CommonFormatter<'t, W, L, Extra> {
    pub target: W,
    pub color_setting: ColorSetting,
    pub tests: Vec<&'t TestMeta<Extra>>,
    pub distinct_tests: usize,
    pub _label_marker: std::marker::PhantomData<L>,
}

/// Whether a formatter with this setting colors its output on a target that does or does
/// not support color.
pub open spec fn colors(setting: ColorSetting, target_supports_color: bool) -> bool {
    match setting {
        ColorSetting::Automatic => target_supports_color,
        ColorSetting::Always => true,
        ColorSetting::Never => false,
    }
}

/// Look up the rendered origin of the last known test of the given name.
pub fn find_origin<'t, Extra>(tests: &Vec<&'t TestMeta<Extra>>, name: &str) -> (r: Option<String>)
    ensures
        match r {
            Some(o) => origin_of(tests@, name@) == Some(o@),
            None => origin_of(tests@, name@) is None,
        },
{
    let mut i: usize = tests.len();
    assert(tests@.take(i as int) =~= tests@);
    while i > 0
        invariant
            i <= tests@.len(),
            origin_of(tests@, name@) == origin_of(tests@.take(i as int), name@),
        decreases i,
    {
        let meta = tests[i - 1];
        let ghost prefix = tests@.take(i as int);
        assert(prefix.drop_last() =~= tests@.take(i - 1));
        assert(prefix.last() == tests@[i - 1]);
        if str_equal(meta.name.as_str(), name) {
            return match &meta.origin {
                Some(o) => Some(o.to_text()),
                None => None,
            };
        }
        i -= 1;
    }
    assert(tests@.take(0) =~= Seq::<&'t TestMeta<Extra>>::empty());
    None
}

/// Render the report block of one failure.
pub fn render_failure_block<'t, Extra>(failure: &Failure<'t>, tests: &Vec<&'t TestMeta<Extra>>, out: &mut Vec<u8>)
    ensures
        final(out)@ == old(out)@ + failure_block(*failure, origin_of(tests@, failure.name@)),
{
    let ghost before = out@;
    push_text(out, "---- ");
    push_text(out, failure.name);
    push_text(out, " stdout ----\n");
    let ghost head = out@;
    match &failure.failure {
        TestFailure::Error(err) => {
            push_text(out, "Error: ");
            push_text(out, err.0.as_str());
            push_text(out, "\n");
        },
        TestFailure::Panicked(_) => {
            push_bytes(out, failure.output.raw());
        },
        TestFailure::DidNotPanic { .. } => {
            match find_origin(tests, failure.name) {
                Some(origin) => {
                    push_text(out, "note: test did not panic as expected at ");
                    push_text(out, origin.as_str());
                },
                None => {},
            }
        },
        TestFailure::PanicMismatch { got, expected } => {
            match expected {
                Some(e) => {
                    push_bytes(out, failure.output.raw());
                    push_text(out, "note: panic did not contain expected string\n");
                    push_text(out, "      panic message: ");
                    let got_text = debug_quote(got.as_str());
                    push_text(out, got_text.as_str());
                    push_text(out, "\n");
                    push_text(out, " expected substring: ");
                    let expected_text = debug_quote(e.as_str());
                    push_text(out, expected_text.as_str());
                },
                None => {},
            }
        },
    }
    let ghost detail = out@.subrange(head.len() as int, out@.len() as int);
    assert(out@ =~= head + detail);
    push_text(out, "\n");
    assert(out@ =~= before + failure_block(*failure, origin_of(tests@, failure.name@)));
}

/// Render the shared part of a run summary.
pub fn render_common_outcomes<'t, Extra>(
    failures: &Vec<Failure<'t>>,
    failed: usize,
    tests: &Vec<&'t TestMeta<Extra>>,
    use_color: bool,
    out: &mut Vec<u8>,
)
    ensures
        final(out)@ == old(out)@ + common_outcomes(failures@, failed, tests@, use_color),
{
    let ghost start = out@;
    if failures.len() > 0 {
        push_text(out, "\nfailures:\n\n");
        let mut i: usize = 0;
        while i < failures.len()
            invariant
                i <= failures@.len(),
                out@ == start + u("\nfailures:\n\n"@) + failure_blocks(failures@.take(i as int), tests@),
            decreases failures.len() - i,
        {
            let ghost before = out@;
            render_failure_block(&failures[i], tests, out);
            proof {
                let prefix = failures@.take(i + 1);
                assert(prefix.drop_last() =~= failures@.take(i as int));
                assert(prefix.last() == failures@[i as int]);
            }
            i += 1;
        }
        assert(failures@.take(i as int) =~= failures@);
        push_text(out, "\nfailures:\n");
        let mut j: usize = 0;
        let ghost mid = out@;
        while j < failures.len()
            invariant
                j <= failures@.len(),
                out@ == mid + failure_list(failures@.take(j as int)),
            decreases failures.len() - j,
        {
            push_text(out, "    ");
            push_text(out, failures[j].name);
            push_text(out, "\n");
            proof {
                let prefix = failures@.take(j + 1);
                assert(prefix.drop_last() =~= failures@.take(j as int));
                assert(prefix.last() == failures@[j as int]);
            }
            j += 1;
        }
        assert(failures@.take(j as int) =~= failures@);
    }
    push_text(out, "\ntest result: ");
    if failed == 0 {
        if use_color {
            push_text(out, GREEN);
            push_text(out, "ok");
            push_text(out, RESET);
            push_text(out, ". ");
        } else {
            push_text(out, "ok. ");
        }
    } else {
        if use_color {
            push_text(out, RED);
            push_text(out, "FAILED");
            push_text(out, RESET);
            push_text(out, ". ");
        } else {
            push_text(out, "FAILED. ");
        }
    }
    assert(out@ =~= start + common_outcomes(failures@, failed, tests@, use_color));
}

/// `after` is `before` followed by the closing report of a plain run: the failure report
/// and verdict colored as `color` (which agrees with `setting`), then the counts line with
/// `duration` seconds.
pub open spec fn is_plain_report<'t, Extra>(
    after: Seq<u8>,
    before: Seq<u8>,
    failures: Seq<Failure<'t>>,
    passed: usize,
    failed: usize,
    ignored: usize,
    filtered_out: usize,
    tests: Seq<&'t TestMeta<Extra>>,
    setting: ColorSetting,
    color: bool,
    duration: Seq<char>,
) -> bool {
    &&& (setting is Always ==> color)
    &&& (setting is Never ==> !color)
    &&& after == before + common_outcomes(failures, failed, tests, color) + run_summary_line(
        passed,
        failed,
        ignored,
        filtered_out,
        duration,
    )
}

/// `after` is `before` followed by the closing report of a grouped run, as
/// [`is_plain_report`] but with the grouped counts line.
pub open spec fn is_grouped_report<'t, Extra>(
    after: Seq<u8>,
    before: Seq<u8>,
    failures: Seq<Failure<'t>>,
    passed: usize,
    failed: usize,
    ignored: usize,
    filtered_out: usize,
    groups: usize,
    tests: Seq<&'t TestMeta<Extra>>,
    setting: ColorSetting,
    color: bool,
    duration: Seq<char>,
) -> bool {
    &&& (setting is Always ==> color)
    &&& (setting is Never ==> !color)
    &&& after == before + common_outcomes(failures, failed, tests, color) + grouped_summary_line(
        passed,
        failed,
        ignored,
        filtered_out,
        groups,
        duration,
    )
}

/// The handle to the process stdout (`std::io::stdout`). Nothing is stated of it: it is
/// carried as the output target.
#[verifier::external_body]
pub(crate) fn stdout() -> std::io::Stdout {
    std::io::stdout()
}

/// Count the distinct names among the names of `tests`.
pub fn count_distinct_names<'t, Extra>(tests: &Vec<&'t TestMeta<Extra>>) -> (r: usize)
    ensures
        r == distinct_count(meta_names(tests@)),
{
    let ghost names = meta_names(tests@);
    let mut count: usize = 0;
    let mut i: usize = 0;
    while i < tests.len()
        invariant
            i <= tests@.len(),
            names == meta_names(tests@),
            count == distinct_count(names.take(i as int)),
            count <= i,
        decreases tests.len() - i,
    {
        let name = tests[i].name.as_str();
        assert(names[i as int] == tests@[i as int].name@);
        let mut seen = false;
        let mut j: usize = 0;
        while j < i
            invariant
                j <= i,
                i < tests@.len(),
                names == meta_names(tests@),
                name@ == names[i as int],
                seen == exists|k: int| 0 <= k < j && names[k] == names[i as int],
            decreases i - j,
        {
            assert(names[j as int] == tests@[j as int].name@);
            if str_equal(tests[j].name.as_str(), name) {
                seen = true;
            }
            j += 1;
        }
        proof {
            let prefix = names.take(i + 1);
            assert(prefix.drop_last() =~= names.take(i as int));
            assert(prefix.last() == names[i as int]);
            if seen {
                let k = choose|k: int| 0 <= k < i && names[k] == names[i as int];
                assert(names.take(i as int)[k] == names[i as int]);
            } else {
                assert(!names.take(i as int).contains(names[i as int]));
            }
        }
        if !seen {
            count += 1;
        }
        i += 1;
    }
    assert(names.take(i as int) =~= names);
    count
}

impl<'t, W, L, Extra> CommonFormatter<'t, W, L, Extra> {
    /// Whether output is colored: always, never, or as the target supports it.
    pub fn use_color(&self) -> (r: bool)
        where W: SupportsColor,
        ensures
            self.color_setting is Always ==> r,
            self.color_setting is Never ==> !r,
            W::color_known() ==> r == colors(self.color_setting, self.target.color_supported()),
    {
        match self.color_setting {
            ColorSetting::Automatic => self.target.supports_color(),
            ColorSetting::Always => true,
            ColorSetting::Never => false,
        }
    }

    /// Remember the tests of the run, for failure notes and progress counts.
    pub fn fmt_run_init<Function>(&mut self, data: &'t [Test<Extra, Function>])
        ensures
            final(self).tests@.len() == data@.len(),
            forall|i: int| 0 <= i < data@.len() ==> *#[trigger] final(self).tests@[i] == data@[i].meta,
            final(self).distinct_tests == distinct_count(meta_names(final(self).tests@)),
            final(self).target == old(self).target,
            final(self).color_setting == old(self).color_setting,
    {
        let mut tests: Vec<&'t TestMeta<Extra>> = Vec::new();
        let mut i: usize = 0;
        while i < data.len()
            invariant
                i <= data@.len(),
                tests@.len() == i,
                forall|k: int| 0 <= k < i ==> *#[trigger] tests@[k] == data@[k].meta,
            decreases data.len() - i,
        {
            tests.push(&data[i].meta);
            i += 1;
        }
        self.distinct_tests = count_distinct_names(&tests);
        self.tests = tests;
    }

    /// Write `running N tests` (or `running 1 test`).
    pub fn fmt_run_start(&mut self, count: usize) -> (r: Result<(), std::io::Error>)
        where W: TextTarget,
        ensures
            W::tracks_writes() ==> r is Ok && final(self).target.written() == old(self).target.written() + run_start_bytes(count),
            final(self).tests == old(self).tests,
            final(self).distinct_tests == old(self).distinct_tests,
            final(self).color_setting == old(self).color_setting,
    {
        let mut out: Vec<u8> = Vec::new();
        if count == 1 {
            push_text(&mut out, "\nrunning 1 test\n");
        } else {
            push_text(&mut out, "\nrunning ");
            push_number(&mut out, count);
            push_text(&mut out, " tests\n");
        }
        assert(out@ =~= run_start_bytes(count));
        self.target.write_bytes(out.as_slice())
    }

    /// Write the failure report, the verdict and the counts of a plain run.
    pub fn fmt_run_outcomes(&mut self, data: RunOutcomes<'t>) -> (r: Result<(), std::io::Error>)
        where W: TextTarget + SupportsColor,
        ensures
            W::tracks_writes() ==> r is Ok && exists|color: bool, duration: Seq<char>| #[trigger] is_plain_report(
                final(self).target.written(),
                old(self).target.written(),
                data.failures@,
                data.passed,
                data.failed,
                data.ignored,
                data.filtered_out,
                old(self).tests@,
                old(self).color_setting,
                color,
                duration,
            ),
            final(self).tests == old(self).tests,
            final(self).distinct_tests == old(self).distinct_tests,
            final(self).color_setting == old(self).color_setting,
    {
        let color = self.use_color();
        let mut out: Vec<u8> = Vec::new();
        render_common_outcomes(&data.failures, data.failed, &self.tests, color, &mut out);
        let ghost common = out@;
        assert(common =~= common_outcomes(data.failures@, data.failed, self.tests@, color));
        let duration = secs_text(&data.duration);
        push_number(&mut out, data.passed);
        push_text(&mut out, " passed; ");
        push_number(&mut out, data.failed);
        push_text(&mut out, " failed; ");
        push_number(&mut out, data.ignored);
        push_text(&mut out, " ignored; 0 measured; ");
        push_number(&mut out, data.filtered_out);
        push_text(&mut out, " filtered out; finished in ");
        push_text(&mut out, duration.as_str());
        push_text(&mut out, "s\n");
        push_text(&mut out, "\n");
        let ghost line = out@.subrange(common.len() as int, out@.len() as int);
        assert(line =~= run_summary_line(data.passed, data.failed, data.ignored, data.filtered_out, duration@));
        assert(out@ =~= common + line);
        let ghost before = self.target.written();
        let r = self.target.write_bytes(out.as_slice());
        proof {
            if W::tracks_writes() && r is Ok {
                assert(self.target.written() =~= before + common + line);
            }
        }
        assert(W::tracks_writes() ==> r is Ok && is_plain_report(
            self.target.written(),
            old(self).target.written(),
            data.failures@,
            data.passed,
            data.failed,
            data.ignored,
            data.filtered_out,
            old(self).tests@,
            old(self).color_setting,
            color,
            duration@,
        ));
        r
    }

    /// Write the header of a group.
    pub fn fmt_group_start(&mut self, data: fto::GroupStart<L>) -> (r: Result<(), std::io::Error>)
        where W: TextTarget,
        ensures
            W::tracks_writes() ==> r is Ok && final(self).target.written() == old(self).target.written() + group_start_bytes(data.name@, data.tests),
            final(self).tests == old(self).tests,
            final(self).distinct_tests == old(self).distinct_tests,
            final(self).color_setting == old(self).color_setting,
    {
        let mut out: Vec<u8> = Vec::new();
        push_text(&mut out, "\n");
        push_text(&mut out, "group ");
        if data.name.unicode_len() == 0 {
            push_text(&mut out, "default");
        } else {
            push_text(&mut out, data.name.as_str());
        }
        push_text(&mut out, ", running ");
        push_number(&mut out, data.tests);
        push_text(&mut out, " tests\n");
        assert(out@ =~= group_start_bytes(data.name@, data.tests));
        self.target.write_bytes(out.as_slice())
    }

    /// Write the failure report, the verdict and the counts of a grouped run.
    pub fn fmt_grouped_run_outcomes(&mut self, data: fto::GroupedRunOutcomes<'t, L>) -> (r: Result<(), std::io::Error>)
        where W: TextTarget + SupportsColor,
        ensures
            W::tracks_writes() ==> r is Ok && exists|color: bool, duration: Seq<char>| #[trigger] is_grouped_report(
                final(self).target.written(),
                old(self).target.written(),
                data.failures@,
                data.passed,
                data.failed,
                data.ignored,
                data.filtered_out,
                data.groups,
                old(self).tests@,
                old(self).color_setting,
                color,
                duration,
            ),
            final(self).tests == old(self).tests,
            final(self).distinct_tests == old(self).distinct_tests,
            final(self).color_setting == old(self).color_setting,
    {
        let ghost failures = data.failures@;
        let (groups, summary) = data.split();
        let color = self.use_color();
        let mut out: Vec<u8> = Vec::new();
        render_common_outcomes(&summary.failures, summary.failed, &self.tests, color, &mut out);
        let ghost common = out@;
        assert(common =~= common_outcomes(summary.failures@, summary.failed, self.tests@, color));
        let duration = secs_text(&summary.duration);
        push_number(&mut out, summary.passed);
        push_text(&mut out, " passed; ");
        push_number(&mut out, summary.failed);
        push_text(&mut out, " failed; ");
        push_number(&mut out, summary.ignored);
        push_text(&mut out, " ignored; ");
        push_number(&mut out, summary.filtered_out);
        push_text(&mut out, " filtered out; across ");
        push_number(&mut out, groups);
        push_text(&mut out, " groups, finished in ");
        push_text(&mut out, duration.as_str());
        push_text(&mut out, "s\n");
        push_text(&mut out, "\n");
        let ghost line = out@.subrange(common.len() as int, out@.len() as int);
        assert(line =~= grouped_summary_line(summary.passed, summary.failed, summary.ignored, summary.filtered_out, groups, duration@));
        assert(out@ =~= common + line);
        let ghost before = self.target.written();
        let r = self.target.write_bytes(out.as_slice());
        proof {
            if W::tracks_writes() && r is Ok {
                assert(self.target.written() =~= before + common + line);
            }
        }
        assert(W::tracks_writes() ==> r is Ok && is_grouped_report(
            self.target.written(),
            old(self).target.written(),
            failures,
            data.passed,
            data.failed,
            data.ignored,
            data.filtered_out,
            data.groups,
            old(self).tests@,
            old(self).color_setting,
            color,
            duration@,
        ));
        r
    }
}

} // verus!
