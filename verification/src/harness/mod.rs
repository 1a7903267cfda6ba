//! Test harnesses: the full test list and the strategies that decide how a run behaves.
//!
//! Listing is done here entirely. A run is split in three: [`TestHarness::start_run`]
//! informs the formatter and filters, the caller executes the tests (on worker threads,
//! with panics caught as the panic handler asks), and [`finish_run`] reports the outcomes
//! and builds the report. The decisions taken for each test while it runs are made by
//! [`skipped_status`] and the panic handler.

use vstd::prelude::*;

use crate::filter::DefaultFilter;
use crate::formatter::common::label::{FromGroupKey, GroupLabel};
use crate::formatter::pretty::PrettyFormatter;
use crate::formatter::{FmtEndListing, FormatError};
use crate::ignore::DefaultIgnore;
use crate::outcome::TestStatus;
use crate::panic::DefaultPanicHandler;
use crate::runner::DefaultRunner;
use crate::test::{IgnoreStatus, Test};

pub mod grouped_test;
pub mod test;

pub use grouped_test::GroupedTestHarness;
pub use test::TestHarness;

verus! {

/// Record the error of a formatter call, tagged with the stage it happened at.
pub fn push_on_error<T, E>(errors: &mut Vec<(FormatError, E)>, stage: FormatError, res: Result<T, E>)
    ensures
        match res {
            Ok(_) => final(errors)@ == old(errors)@,
            Err(e) => final(errors)@ == old(errors)@.push((stage, e)),
        },
{
    match res {
        Ok(_) => {},
        Err(e) => errors.push((stage, e)),
    }
}

/// What a formatter call gave back, as far as errors go: the error, or nothing on success.
pub open spec fn call_outcome<T, E>(res: Result<T, E>) -> Option<E> {
    match res {
        Ok(_) => None,
        Err(e) => Some(e),
    }
}

/// The errors of a sequence of formatter calls, each given by its stage and what it gave
/// back: `(stage, e)` for each call that returned `Err(e)`, in call order.
pub open spec fn errors_of<E>(calls: Seq<(FormatError, Option<E>)>) -> Seq<(FormatError, E)>
    decreases calls.len(),
{
    if calls.len() == 0 {
        Seq::empty()
    } else {
        let rest = errors_of(calls.drop_last());
        match calls.last().1 {
            Some(e) => rest.push((calls.last().0, e)),
            None => rest,
        }
    }
}

/// The stages of a sequence of formatter calls.
pub open spec fn stages_of<E>(calls: Seq<(FormatError, Option<E>)>) -> Seq<FormatError> {
    calls.map_values(|c: (FormatError, Option<E>)| c.0)
}

/// `n` times the same stage.
pub open spec fn repeat_stage(stage: FormatError, n: nat) -> Seq<FormatError> {
    Seq::new(n, |i: int| stage)
}

/// Record the outcome of one more formatter call: its error, if any, joins the errors.
pub(crate) fn record_call<T, E>(
    errors: &mut Vec<(FormatError, E)>,
    stage: FormatError,
    res: Result<T, E>,
    Ghost(calls): Ghost<Seq<(FormatError, Option<E>)>>,
) -> (out: Ghost<Seq<(FormatError, Option<E>)>>)
    requires
        old(errors)@ == errors_of(calls),
    ensures
        out@ == calls.push((stage, call_outcome(res))),
        final(errors)@ == errors_of(out@),
{
    let ghost outcome = call_outcome(res);
    proof {
        assert(calls.push((stage, outcome)).drop_last() =~= calls);
    }
    push_on_error(errors, stage, res);
    Ghost(calls.push((stage, outcome)))
}

/// The number of ignore decisions that let a test run.
pub open spec fn count_active(decisions: Seq<IgnoreStatus>) -> nat
    decreases decisions.len(),
{
    if decisions.len() == 0 {
        0
    } else {
        count_active(decisions.drop_last()) + if decisions.last() is Run {
            1nat
        } else {
            0nat
        }
    }
}

/// The closing event of a listing whose tests got these ignore decisions: how many would
/// run and how many are ignored. Together they are all listed tests.
pub fn end_listing_of(decisions: &Vec<IgnoreStatus>) -> (r: FmtEndListing)
    ensures
        r.active == count_active(decisions@),
        r.active + r.ignored == decisions@.len(),
{
    let mut active: usize = 0;
    let mut ignored: usize = 0;
    let mut i: usize = 0;
    while i < decisions.len()
        invariant
            i <= decisions@.len(),
            active == count_active(decisions@.take(i as int)),
            active + ignored == i,
        decreases decisions.len() - i,
    {
        proof {
            assert(decisions@.take(i + 1).drop_last() =~= decisions@.take(i as int));
        }
        match &decisions[i] {
            IgnoreStatus::Run => active += 1,
            _ => ignored += 1,
        }
        i += 1;
    }
    assert(decisions@.take(i as int) =~= decisions@);
    FmtEndListing { active, ignored }
}

/// The status of a test that the ignore decision keeps from running: `None` when it runs,
/// `Ignored` with the decision's reason otherwise.
pub fn skipped_status(decision: IgnoreStatus) -> (r: Option<TestStatus>)
    ensures
        match decision {
            IgnoreStatus::Run => r is None,
            IgnoreStatus::Ignore => r == Some(TestStatus::Ignored { reason: None }),
            IgnoreStatus::IgnoreWithReason(reason) => r == Some(TestStatus::Ignored { reason: Some(reason) }),
        },
{
    match decision {
        IgnoreStatus::Run => None,
        IgnoreStatus::Ignore => Some(TestStatus::Ignored { reason: None }),
        IgnoreStatus::IgnoreWithReason(reason) => Some(TestStatus::Ignored { reason: Some(reason) }),
    }
}

/// A harness over `tests` with the default strategies: the default filter (keeps all), the
/// default ignore rules, the default panic handler, the default parallel runner and the
/// pretty formatter on stdout.
pub fn harness<'t, Extra, Function>(tests: &'t [Test<Extra, Function>]) -> (r: TestHarness<
    't,
    Extra,
    Function,
    DefaultFilter,
    DefaultIgnore,
    DefaultPanicHandler,
    DefaultRunner,
    PrettyFormatter<'t, std::io::Stdout, GroupLabel<FromGroupKey>, Extra>,
>)
    ensures
        r.tests == tests,
        r.filter.spec_filter().len() == 0,
        r.filter.spec_skip().len() == 0,
        !r.filter.spec_exact(),
        r.ignore == DefaultIgnore::Default,
        r.runner.threads() is None,
        r.formatter.color_setting() is Automatic,
        r.formatter.known_tests().len() == 0,
{
    TestHarness {
        tests,
        filter: DefaultFilter::new(),
        ignore: DefaultIgnore::Default,
        panic_handler: DefaultPanicHandler,
        runner: DefaultRunner::new(),
        formatter: PrettyFormatter::new(),
    }
}

} // verus!
