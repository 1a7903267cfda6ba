use std::time::Duration;

use kitest::capture::{OutputCapture, OutputTarget};
use kitest::formatter::common::color::{ColorSetting, GREEN, RESET};
use kitest::formatter::common::fto::summarize;
use kitest::formatter::common::label::{FromGroupKey, GroupLabel};
use kitest::formatter::debug::{DebugGroupStart, DebugRunOutcomes, DebugTestIgnored};
use kitest::formatter::pretty::{render_outcome_line, PrettyFormatter};
use kitest::formatter::terse::TerseFormatter;
use kitest::formatter::{
    FmtEndListing, FmtGroupStart, FmtListTest, FmtRunInit, FmtRunOutcomes, FmtRunStart,
    FmtTestIgnored, FmtTestOutcome, GroupedTestFormatter, TestFormatter, TestListFormatter,
};
use kitest::outcome::{TestFailure, TestOutcome, TestStatus, Whatever};
use kitest::test::{IgnoreStatus, PanicExpectation, Test, TestMeta, TestOrigin};

fn meta(name: &str, should_panic: PanicExpectation) -> TestMeta<()> {
    TestMeta {
        name: name.to_string(),
        ignore: IgnoreStatus::Run,
        should_panic,
        origin: Some(TestOrigin { file: "src/lib.rs".to_string(), line: 12, column: 5 }),
        extra: (),
    }
}

fn outcome(status: TestStatus) -> TestOutcome {
    TestOutcome { status, duration: Duration::from_millis(5), output: OutputCapture::new() }
}

fn pretty() -> PrettyFormatter<'static, Vec<u8>, GroupLabel<FromGroupKey>, ()> {
    PrettyFormatter::new().with_target(Vec::new()).with_color_setting(ColorSetting::Never)
}

fn terse() -> TerseFormatter<'static, Vec<u8>, GroupLabel<FromGroupKey>, ()> {
    TerseFormatter::new().with_target(Vec::new()).with_color_setting(ColorSetting::Never)
}

fn text(bytes: Vec<u8>) -> String {
    String::from_utf8(bytes).unwrap()
}

#[test]
fn pretty_outcome_lines() {
    let line = render_outcome_line("a::b", &PanicExpectation::ShouldNotPanic, &TestStatus::Passed, false);
    assert_eq!(text(line), "test a::b ... ok\n");
    let line = render_outcome_line("p", &PanicExpectation::ShouldPanic, &TestStatus::Ignored { reason: Some("later".to_string()) }, false);
    assert_eq!(text(line), "test p - should panic ... ignored, later\n");
    let line = render_outcome_line("t", &PanicExpectation::ShouldNotPanic, &TestStatus::TimedOut, false);
    assert_eq!(text(line), "test t ... timed out\n");
    let line = render_outcome_line("o", &PanicExpectation::ShouldNotPanic, &TestStatus::Other(Whatever("x".to_string())), false);
    assert_eq!(text(line), "test o ... other\n");
    let line = render_outcome_line("i", &PanicExpectation::ShouldNotPanic, &TestStatus::Ignored { reason: None }, false);
    assert_eq!(text(line), "test i ... ignored\n");
    let line = render_outcome_line("ok", &PanicExpectation::ShouldNotPanic, &TestStatus::Passed, true);
    assert_eq!(text(line), format!("test ok ... {GREEN}ok{RESET}\n"));
}

#[test]
fn pretty_formatter_writes_status_lines_and_listing() {
    let m = meta("x", PanicExpectation::ShouldNotPanic);
    let o = outcome(TestStatus::Failed(TestFailure::Panicked("no".to_string())));
    let mut f = pretty();
    f.fmt_run_start(FmtRunStart { active: 0, filtered: 0 }).unwrap();
    f.fmt_test_outcome(FmtTestOutcome { meta: &m, outcome: &o }).unwrap();
    TestListFormatter::fmt_list_test(&mut f, FmtListTest { meta: &m, ignored: IgnoreStatus::Run }).unwrap();
    TestListFormatter::fmt_end_listing(&mut f, FmtEndListing { active: 1, ignored: 0 }).unwrap();
    TestListFormatter::fmt_end_listing(&mut f, FmtEndListing { active: 2, ignored: 1 }).unwrap();
    assert_eq!(text(f.into_target()), "\nrunning 0 tests\ntest x ... FAILED\nx: test\n\n1 test\n\n3 tests\n");
}

#[test]
fn pretty_run_outcomes_report_every_failure_kind() {
    let tests = vec![
        Test::new((), meta("np", PanicExpectation::ShouldPanic)),
        Test::new((), meta("mm", PanicExpectation::ShouldPanicWithExpected("x".to_string()))),
    ];
    let mut out = OutputCapture::new();
    out.write_to(OutputTarget::Stderr, b"captured\n");
    let mismatch = TestOutcome {
        status: TestStatus::Failed(TestFailure::PanicMismatch { got: "said \"hi\"".to_string(), expected: Some("x".to_string()) }),
        duration: Duration::from_millis(1),
        output: out,
    };
    let outcomes = vec![
        ("np", outcome(TestStatus::Failed(TestFailure::DidNotPanic { expected: None }))),
        ("mm", mismatch),
    ];
    let mut f = pretty();
    f.fmt_run_init(FmtRunInit { tests: &tests }).unwrap();
    f.fmt_run_outcomes(FmtRunOutcomes { outcomes: &outcomes, filtered_out: 0, duration: Duration::from_millis(2500) }).unwrap();
    let expected = [
        "\nfailures:\n\n",
        "---- np stdout ----\nnote: test did not panic as expected at src/lib.rs:12:5\n",
        "---- mm stdout ----\ncaptured\nnote: panic did not contain expected string\n      panic message: \"said \\\"hi\\\"\"\n expected substring: \"x\"\n",
        "\nfailures:\n    np\n    mm\n",
        "\ntest result: FAILED. 0 passed; 2 failed; 0 ignored; 0 measured; 0 filtered out; finished in 2.50s\n\n",
    ]
    .join("");
    assert_eq!(text(f.into_target()), expected);
}

#[test]
fn pretty_group_header_uses_label_or_default() {
    let mut f = pretty();
    GroupedTestFormatter::<(), u8, ()>::fmt_group_start(&mut f, FmtGroupStart { tests: 3, worker_count: 2, key: &7u8, ctx: None }).unwrap();
    assert_eq!(text(f.into_target()), "\ngroup 7, running 3 tests\n");
}

#[test]
fn terse_marks_and_failure_lines() {
    let tests = vec![Test::new((), meta("a", PanicExpectation::ShouldNotPanic)), Test::new((), meta("b", PanicExpectation::ShouldNotPanic)), Test::new((), meta("b", PanicExpectation::ShouldNotPanic))];
    let ma = meta("a", PanicExpectation::ShouldNotPanic);
    let mb = meta("b", PanicExpectation::ShouldNotPanic);
    let passed = outcome(TestStatus::Passed);
    let ignored = outcome(TestStatus::Ignored { reason: None });
    let other = outcome(TestStatus::Other(Whatever("?".to_string())));
    let failed = outcome(TestStatus::Failed(TestFailure::Panicked("p".to_string())));
    let timed_out = outcome(TestStatus::TimedOut);
    let mut f = terse();
    f.fmt_run_init(FmtRunInit { tests: &tests }).unwrap();
    f.fmt_test_outcome(FmtTestOutcome { meta: &ma, outcome: &passed }).unwrap();
    f.fmt_test_outcome(FmtTestOutcome { meta: &ma, outcome: &ignored }).unwrap();
    f.fmt_test_outcome(FmtTestOutcome { meta: &ma, outcome: &other }).unwrap();
    f.fmt_test_outcome(FmtTestOutcome { meta: &mb, outcome: &failed }).unwrap();
    f.fmt_test_outcome(FmtTestOutcome { meta: &mb, outcome: &timed_out }).unwrap();
    f.fmt_test_outcome(FmtTestOutcome { meta: &ma, outcome: &passed }).unwrap();
    assert_eq!(text(f.into_target()), ".io 3/2\nb --- FAILED\nb --- FAILED\n.");
}

#[test]
fn terse_listing_line() {
    let m = meta("name::x", PanicExpectation::ShouldNotPanic);
    let mut f = terse();
    TestListFormatter::fmt_list_test(&mut f, FmtListTest { meta: &m, ignored: IgnoreStatus::Ignore }).unwrap();
    assert_eq!(text(f.into_target()), "name::x: test\n");
}

#[test]
fn debug_snapshots_keep_the_event() {
    let m = meta("d", PanicExpectation::ShouldNotPanic);
    let reason = "because".to_string();
    let ignored = DebugTestIgnored::from(FmtTestIgnored { meta: &m, reason: Some(&reason) });
    assert_eq!(ignored.reason, Some("because".to_string()));
    let outcomes = vec![("d", outcome(TestStatus::Passed))];
    let run = DebugRunOutcomes::from(FmtRunOutcomes { outcomes: &outcomes, filtered_out: 4, duration: Duration::from_millis(9) });
    assert_eq!(run.outcomes.len(), 1);
    assert_eq!(run.outcomes[0].0, "d");
    assert_eq!(run.outcomes[0].1.status, TestStatus::Passed);
    assert_eq!(run.filtered_out, 4);
    let start = DebugGroupStart::from(FmtGroupStart { tests: 2, worker_count: 1, key: &"k", ctx: Some(&5u32) });
    assert_eq!(start.key, "\"k\"");
    assert_eq!(start.ctx, Some("5".to_string()));
    assert_eq!(start.tests, 2);
}

#[test]
fn summary_counts_and_failures_agree() {
    let outcomes = vec![
        ("a", outcome(TestStatus::Passed)),
        ("b", outcome(TestStatus::Failed(TestFailure::Panicked("x".to_string())))),
        ("c", outcome(TestStatus::TimedOut)),
        ("d", outcome(TestStatus::Ignored { reason: None })),
        ("e", outcome(TestStatus::Failed(TestFailure::DidNotPanic { expected: None }))),
        ("f", outcome(TestStatus::Other(Whatever("?".to_string())))),
    ];
    let (passed, failed, ignored, failures) = summarize(&outcomes);
    assert_eq!((passed, failed, ignored), (1, 2, 1));
    assert_eq!(failures.len(), failed);
    assert_eq!(failures[0].name, "b");
    assert_eq!(failures[1].name, "e");
    assert_eq!(failures[1].group, None);
}

#[test]
fn pretty_panicked_failure_shows_captured_output_in_color() {
    let mut out = OutputCapture::new();
    out.write_to(OutputTarget::Stdout, b"before\n");
    out.write_to(OutputTarget::Stderr, b"thread panicked\n");
    let outcomes = vec![(
        "p",
        TestOutcome { status: TestStatus::Failed(TestFailure::Panicked("boom".to_string())), duration: Duration::from_millis(1), output: out },
    )];
    let mut f = PrettyFormatter::new().with_target(Vec::new()).with_color_setting(ColorSetting::Always);
    assert!(f.use_color());
    TestFormatter::<()>::fmt_run_outcomes(&mut f, FmtRunOutcomes { outcomes: &outcomes, filtered_out: 3, duration: Duration::from_millis(10) }).unwrap();
    let expected = [
        "\nfailures:\n\n---- p stdout ----\nbefore\nthread panicked\n\n",
        "\nfailures:\n    p\n",
        "\ntest result: \u{1b}[31mFAILED\u{1b}(B\u{1b}[m. 0 passed; 1 failed; 0 ignored; 0 measured; 3 filtered out; finished in 0.01s\n\n",
    ]
    .join("");
    assert_eq!(text(f.into_target()), expected);
}

#[test]
fn pretty_color_settings() {
    let f = pretty();
    assert!(!f.use_color());
    let f = f.with_color_setting(ColorSetting::Automatic);
    assert!(!f.use_color());
    assert_eq!(ColorSetting::default(), ColorSetting::Automatic);
}
