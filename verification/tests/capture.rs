use kitest::capture::{
    capture_print, capture_println, panic_report, payload_as_str, thread_id_number, OutputCapture,
    OutputTarget, PanicPayload, StderrTarget, StdoutTarget,
};
use kitest::test::TestOrigin;
use kitest::text::{push_decimal, str_contains, str_equal};

fn print_everything(capture: &mut OutputCapture, enabled: bool, number: i32) {
    let mut captured_any = false;
    captured_any |= capture_print(capture, enabled, OutputTarget::Stdout, "hello");
    captured_any |= capture_println(capture, enabled, OutputTarget::Stdout, " world");
    captured_any |= capture_print(capture, enabled, OutputTarget::Stderr, "err");
    captured_any |= capture_println(capture, enabled, OutputTarget::Stderr, " line");
    let dbg_line = format!("[tests/capture.rs:9:5] {} = {:#?}", number, number);
    captured_any |= capture_println(capture, enabled, OutputTarget::Stderr, &dbg_line);
    assert_eq!(captured_any, enabled);
}

#[test]
fn capture_output_macros_respects_flag() {
    let mut capture = OutputCapture::new();
    capture.clear();

    print_everything(&mut capture, true, 42);
    assert!(
        !capture.raw().is_empty(),
        "expected output to be captured when flag is true"
    );
    assert!(capture.read_stdout().len() > 0);
    assert!(capture.read_stderr().len() > 0);

    capture.clear();
    print_everything(&mut capture, false, 1337);
    assert!(
        capture.raw().is_empty(),
        "expected capture to stay empty when flag is false"
    );
}

#[test]
fn capture_keeps_writes_in_order_per_stream() {
    let mut capture = OutputCapture::new();
    capture.write_to(OutputTarget::Stdout, b"one");
    capture.write_to(OutputTarget::Stderr, b"two");
    capture.write_to(OutputTarget::Stdout, b"three");
    assert_eq!(capture.raw(), b"onetwothree");
    assert_eq!(capture.read_stdout(), vec![&b"one"[..], &b"three"[..]]);
    assert_eq!(capture.read_stderr(), vec![&b"two"[..]]);
    assert_eq!(capture.read_stdout().len() + capture.read_stderr().len(), 3);
}

#[test]
fn capture_writers_tag_their_stream() {
    let mut capture = OutputCapture::new();
    {
        let mut out = capture.stdout();
        assert_eq!(out.write(b"abc").unwrap(), 3);
        out.flush().unwrap();
    }
    {
        let mut err = capture.stderr();
        assert_eq!(err.write(b"").unwrap(), 0);
        assert_eq!(err.write(b"zz").unwrap(), 2);
    }
    assert_eq!(capture.raw(), b"abczz");
    assert_eq!(capture.read_stderr(), vec![&b""[..], &b"zz"[..]]);
}

#[test]
fn capture_take_moves_everything() {
    let mut capture = OutputCapture::new();
    capture.write_to(OutputTarget::Stderr, b"x");
    let taken = capture.take();
    assert_eq!(taken.raw(), b"x");
    assert!(capture.raw().is_empty());
    assert!(capture.read_stderr().is_empty());
    let copy = taken.clone();
    assert_eq!(copy.read_stderr(), vec![&b"x"[..]]);
}

#[test]
fn output_target_from_markers() {
    assert_eq!(OutputTarget::from(StdoutTarget), OutputTarget::Stdout);
    assert_eq!(OutputTarget::from(StderrTarget), OutputTarget::Stderr);
}

#[test]
fn panic_report_texts() {
    let payload = PanicPayload::Str("boom".to_string());
    assert_eq!(payload_as_str(&payload), "boom");
    assert_eq!(payload_as_str(&PanicPayload::Other), "Box<dyn Any>");
    assert_eq!(thread_id_number("ThreadId(42)"), "42");

    let (text, still_first) = panic_report(Some("t1"), "42", Some("src/a.rs:1:2"), &payload, "", "", true);
    assert_eq!(
        text,
        "\nthread 't1' (42) panicked at src/a.rs:1:2:\nboom\nnote: run with `RUST_BACKTRACE=1` environment variable to display a backtrace\n"
    );
    assert!(!still_first);
    let (text, _) = panic_report(None, "7", None, &PanicPayload::Other, "", "", false);
    assert_eq!(text, "\nthread '<unnamed>' (7) panicked:\nBox<dyn Any>\n");
    let (text, still_first) = panic_report(None, "7", None, &payload, "BT\n", "", true);
    assert_eq!(text, "\nthread '<unnamed>' (7) panicked:\nboom\nBT\n");
    assert!(still_first);
}

#[test]
fn origin_and_decimal_rendering() {
    let origin = TestOrigin { file: "tests/x.rs".to_string(), line: 120, column: 9 };
    assert_eq!(origin.to_text(), "tests/x.rs:120:9");
    let mut s = String::new();
    push_decimal(&mut s, 0);
    push_decimal(&mut s, 1907);
    assert_eq!(s, "01907");
    assert!(str_contains("abcdef", "cde"));
    assert!(str_contains("abc", ""));
    assert!(!str_contains("ab", "abc"));
    assert!(str_equal("x", "x"));
    assert!(!str_equal("x", "y"));
}
