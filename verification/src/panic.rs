//! Panic handling: turning what a test call produced into a test status.
//!
//! Calling the test and catching its panic happen where the test function lives; the
//! decisions about the resulting status are made here.

use vstd::prelude::*;

use crate::capture::PanicPayload;
use crate::outcome::{status_of_result, TestFailure, TestStatus};
use crate::test::{PanicExpectation, TestMeta, TestResult};
use crate::text::{contains_text, str_contains};

verus! {

/// Decides the status of a test from what calling it produced.
pub trait TestPanicHandler<Extra> {
    /// Whether this handler wants a panic of the test call caught.
    spec fn wants_panics_caught(&self) -> bool;

    /// Whether a panic of the test call is caught and handed to
    /// [`TestPanicHandler::status_of_call`]; when not, it unwinds through the harness.
    fn catches_panics(&self) -> (r: bool)
        ensures
            r == self.wants_panics_caught(),
    ;

    /// The status of a test call: `Ok` with what the test returned, or `Err` with the
    /// payload it panicked with.
    fn status_of_call(&self, call: Result<TestResult, PanicPayload>, meta: &TestMeta<Extra>) -> TestStatus;
}

/// Runs the test without catching panics: its status is the status of its result.
#[derive(Debug, Default, Clone, Copy)]
pub struct NoPanicHandler;

impl NoPanicHandler {
    /// The status of a test that returned `result`.
    pub fn status_of<Extra>(&self, result: TestResult, meta: &TestMeta<Extra>) -> (r: TestStatus)
        ensures
            r == status_of_result(result),
    {
        result.into()
    }

    /// The status of a test call; a panic, were one ever handed over, reads as `Panicked`.
    pub fn status_of_call<Extra>(&self, call: Result<TestResult, PanicPayload>, meta: &TestMeta<Extra>) -> (r: TestStatus)
        ensures
            match call {
                Ok(result) => r == status_of_result(result),
                Err(payload) => r matches TestStatus::Failed(TestFailure::Panicked(got)) && got@ == panic_message(payload),
            },
    {
        match call {
            Ok(result) => self.status_of(result, meta),
            Err(payload) => TestStatus::Failed(TestFailure::Panicked(DefaultPanicHandler::downcast_panic_err(payload))),
        }
    }
}

impl<Extra> TestPanicHandler<Extra> for NoPanicHandler {
    /// Panics are not caught.
    open spec fn wants_panics_caught(&self) -> bool {
        false
    }

    fn catches_panics(&self) -> (r: bool) {
        false
    }

    /// See [`NoPanicHandler::status_of_call`].
    fn status_of_call(&self, call: Result<TestResult, PanicPayload>, meta: &TestMeta<Extra>) -> (r: TestStatus)
        ensures
            match call {
                Ok(result) => r == status_of_result(result),
                Err(payload) => r matches TestStatus::Failed(TestFailure::Panicked(got)) && got@ == panic_message(payload),
            },
    {
        NoPanicHandler::status_of_call(self, call, meta)
    }
}

/// Catches panics and checks them against the test's panic expectation.
#[derive(Debug, Default, Clone, Copy)]
pub struct DefaultPanicHandler;

/// The message of a panic payload, as the default panic handler reports it.
pub open spec fn panic_message(payload: PanicPayload) -> Seq<char> {
    match payload {
        PanicPayload::Str(s) => s@,
        PanicPayload::String(s) => s@,
        PanicPayload::Other => "non-string panic payload"@,
    }
}

/// The status `r` is the one the default panic handler gives a test call: `result` is `Ok`
/// with the test's result when it returned, `Err` with the panic payload when it panicked.
pub open spec fn is_default_panic_status(
    r: TestStatus,
    result: Result<TestResult, PanicPayload>,
    expectation: PanicExpectation,
) -> bool {
    match (result, expectation) {
        (Ok(test_result), PanicExpectation::ShouldNotPanic) => r == status_of_result(test_result),
        (Ok(_), PanicExpectation::ShouldPanic) => r == TestStatus::Failed(
            TestFailure::DidNotPanic { expected: None },
        ),
        (Ok(_), PanicExpectation::ShouldPanicWithExpected(e)) => r == TestStatus::Failed(
            TestFailure::DidNotPanic { expected: Some(e) },
        ),
        (Err(payload), PanicExpectation::ShouldNotPanic) => r matches TestStatus::Failed(
            TestFailure::Panicked(got),
        ) && got@ == panic_message(payload),
        (Err(_), PanicExpectation::ShouldPanic) => r == TestStatus::Passed,
        (Err(payload), PanicExpectation::ShouldPanicWithExpected(e)) => if contains_text(
            panic_message(payload),
            e@,
        ) {
            r == TestStatus::Passed
        } else {
            r matches TestStatus::Failed(TestFailure::PanicMismatch { got, expected: Some(ex) })
                && got@ == panic_message(payload) && ex == e
        },
    }
}

fn clone_expectation(e: &PanicExpectation) -> (r: PanicExpectation)
    ensures
        r == *e,
{
    match e {
        PanicExpectation::ShouldNotPanic => PanicExpectation::ShouldNotPanic,
        PanicExpectation::ShouldPanic => PanicExpectation::ShouldPanic,
        PanicExpectation::ShouldPanicWithExpected(s) => PanicExpectation::ShouldPanicWithExpected(s.clone()),
    }
}

impl DefaultPanicHandler {
    /// The message of a panic payload; a payload that is neither `&str` nor `String` reads
    /// `non-string panic payload`.
    pub fn downcast_panic_err(err: PanicPayload) -> (r: String)
        ensures
            r@ == panic_message(err),
    {
        match err {
            PanicPayload::Str(s) => s,
            PanicPayload::String(s) => s,
            PanicPayload::Other => String::from_str("non-string panic payload"),
        }
    }

    /// The status of a test call, checked against the test's panic expectation.
    ///
    /// `result` is `Ok` with what the test returned, or `Err` with the payload it panicked
    /// with. A test that should not panic gets the status of its result, or `Panicked`; a test
    /// that should panic passes on any panic, or on a panic whose message contains the
    /// expected text, and fails with `DidNotPanic` or `PanicMismatch` otherwise.
    pub fn status_of<Extra>(&self, result: Result<TestResult, PanicPayload>, meta: &TestMeta<Extra>) -> (r: TestStatus)
        ensures
            is_default_panic_status(r, result, meta.should_panic),
    {
        let expectation = clone_expectation(&meta.should_panic);
        match (result, expectation) {
            (Ok(test_result), PanicExpectation::ShouldNotPanic) => test_result.into(),
            (Ok(_), PanicExpectation::ShouldPanic) => TestStatus::Failed(
                TestFailure::DidNotPanic { expected: None },
            ),
            (Ok(_), PanicExpectation::ShouldPanicWithExpected(e)) => TestStatus::Failed(
                TestFailure::DidNotPanic { expected: Some(e) },
            ),
            (Err(payload), PanicExpectation::ShouldNotPanic) => TestStatus::Failed(
                TestFailure::Panicked(Self::downcast_panic_err(payload)),
            ),
            (Err(_), PanicExpectation::ShouldPanic) => TestStatus::Passed,
            (Err(payload), PanicExpectation::ShouldPanicWithExpected(e)) => {
                let msg = Self::downcast_panic_err(payload);
                if str_contains(msg.as_str(), e.as_str()) {
                    TestStatus::Passed
                } else {
                    TestStatus::Failed(TestFailure::PanicMismatch { got: msg, expected: Some(e) })
                }
            },
        }
    }
}

impl<Extra> TestPanicHandler<Extra> for DefaultPanicHandler {
    /// Panics are caught.
    open spec fn wants_panics_caught(&self) -> bool {
        true
    }

    fn catches_panics(&self) -> (r: bool) {
        true
    }

    /// See [`DefaultPanicHandler::status_of`].
    fn status_of_call(&self, call: Result<TestResult, PanicPayload>, meta: &TestMeta<Extra>) -> (r: TestStatus)
        ensures
            is_default_panic_status(r, call, meta.should_panic),
    {
        self.status_of(call, meta)
    }
}

} // verus!
